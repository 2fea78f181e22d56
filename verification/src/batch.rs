//! What became of each file of a batch, and the summary of the whole batch.

use crate::error::ErrorView;
use crate::error::PhotoBorderError;
use crate::metadata::text_of;
use crate::text::decimal;
use crate::text::decimal_string;
use vstd::prelude::*;
use vstd::string::*;

verus! {

/// How many failures the report shows in full.
pub const DETAIL_LIMIT: usize = 5;

/// What became of one input file.
#[derive(Debug)]
pub enum ProcessingOutcome {
    /// The bordered image was written to this path.
    Success(String),
    /// The file at this path could not be processed, for this reason.
    Failure(String, String),
}

/// The mathematical value of a [`ProcessingOutcome`].
pub enum OutcomeView {
    Success(Seq<char>),
    Failure(Seq<char>, Seq<char>),
}

impl View for ProcessingOutcome {
    type V = OutcomeView;

    open spec fn view(&self) -> OutcomeView {
        match self {
            ProcessingOutcome::Success(path) => OutcomeView::Success(path@),
            ProcessingOutcome::Failure(path, reason) => OutcomeView::Failure(path@, reason@),
        }
    }
}

impl OutcomeView {
    /// The outcome of a file, from the path it was read from and the result
    /// of processing it: the path written to, or the error.
    pub open spec fn of_result(
        input_path: Seq<char>,
        result: Result<Seq<char>, ErrorView>,
    ) -> OutcomeView {
        match result {
            Ok(output_path) => OutcomeView::Success(output_path),
            Err(error) => OutcomeView::Failure(input_path, error.message()),
        }
    }

    /// The line that reports a failure, `path: reason`; a success has none.
    pub open spec fn failure_line(self) -> Seq<Seq<char>> {
        match self {
            OutcomeView::Success(_) => Seq::empty(),
            OutcomeView::Failure(path, reason) => seq![path + ": "@ + reason],
        }
    }
}

/// The number of successes among the outcomes.
pub open spec fn success_count(outcomes: Seq<OutcomeView>) -> nat
    decreases outcomes.len(),
{
    if outcomes.len() == 0 {
        0
    } else {
        success_count(outcomes.drop_last()) + if outcomes.last() is Success {
            1nat
        } else {
            0nat
        }
    }
}

/// The lines that report the failures among the outcomes, in the order of the
/// outcomes.
pub open spec fn failure_lines(outcomes: Seq<OutcomeView>) -> Seq<Seq<char>>
    decreases outcomes.len(),
{
    if outcomes.len() == 0 {
        Seq::empty()
    } else {
        failure_lines(outcomes.drop_last()) + outcomes.last().failure_line()
    }
}

/// Each line as an item of a list, on a line of its own.
pub open spec fn listed(lines: Seq<Seq<char>>) -> Seq<char>
    decreases lines.len(),
{
    if lines.len() == 0 {
        Seq::empty()
    } else {
        listed(lines.drop_last()) + "\n- "@ + lines.last()
    }
}

/// The part of the report that lists failures: nothing where there is none;
/// else a heading, the first five failures, and a note on how many were left
/// out where there are more.
pub open spec fn failure_details(lines: Seq<Seq<char>>) -> Seq<char> {
    if lines.len() == 0 {
        Seq::empty()
    } else if lines.len() <= DETAIL_LIMIT {
        "\n\nError details:"@ + listed(lines)
    } else {
        "\n\nError details:"@ + listed(lines.take(DETAIL_LIMIT as int)) + "\n... and "@ + decimal(
            (lines.len() - DETAIL_LIMIT) as nat,
        ) + " more errors"@
    }
}

/// The report on a batch: how many files were attempted, how many succeeded,
/// how many failed, and the failures.
pub open spec fn report_text(outcomes: Seq<OutcomeView>) -> Seq<char> {
    "Processing complete!\nTotal attempted: "@ + decimal(outcomes.len())
        + " image(s)\nSuccessfully processed: "@ + decimal(success_count(outcomes))
        + " image(s)\nErrors: "@ + decimal(failure_lines(outcomes).len()) + " image(s)"@
        + failure_details(failure_lines(outcomes))
}

/// Every outcome is a success or a failure: the two counts add up to the
/// number of files.
pub proof fn lemma_counts_add_up(outcomes: Seq<OutcomeView>)
    ensures
        success_count(outcomes) + failure_lines(outcomes).len() == outcomes.len(),
    decreases outcomes.len(),
{
    if outcomes.len() > 0 {
        lemma_counts_add_up(outcomes.drop_last());
    }
}

/// The summary of two batches run one after the other is the summary of the
/// first followed by that of the second: failures keep the order of the
/// inputs.
pub proof fn lemma_batches_concatenate(first: Seq<OutcomeView>, second: Seq<OutcomeView>)
    ensures
        success_count(first + second) == success_count(first) + success_count(second),
        failure_lines(first + second) == failure_lines(first) + failure_lines(second),
    decreases second.len(),
{
    if second.len() == 0 {
        assert(first + second =~= first);
        assert(failure_lines(first) + failure_lines(second) =~= failure_lines(first));
    } else {
        let all = first + second;
        assert(all.drop_last() =~= first + second.drop_last());
        assert(all.last() == second.last());
        lemma_batches_concatenate(first, second.drop_last());
        assert(failure_lines(all) =~= failure_lines(first) + failure_lines(second));
    }
}

/// A batch in which every file succeeds has no failure line.
pub proof fn lemma_all_succeed(outcomes: Seq<OutcomeView>)
    requires
        forall|k: int| 0 <= k < outcomes.len() ==> outcomes[k] is Success,
    ensures
        success_count(outcomes) == outcomes.len(),
        failure_lines(outcomes) == Seq::<Seq<char>>::empty(),
    decreases outcomes.len(),
{
    if outcomes.len() > 0 {
        lemma_all_succeed(outcomes.drop_last());
        assert(failure_lines(outcomes) =~= Seq::<Seq<char>>::empty());
    }
}

/// A batch of one file has that file's failure line, if it failed.
pub proof fn lemma_single_outcome(outcome: OutcomeView)
    ensures
        failure_lines(seq![outcome]) == outcome.failure_line(),
        success_count(seq![outcome]) == if outcome is Success {
            1nat
        } else {
            0nat
        },
{
    let one = seq![outcome];
    assert(one.drop_last() =~= Seq::<OutcomeView>::empty());
    assert(one.last() == outcome);
    assert(failure_lines(one.drop_last()) =~= Seq::<Seq<char>>::empty());
    assert(failure_lines(one) =~= outcome.failure_line());
    assert(success_count(one.drop_last()) == 0);
}

/// A batch in which exactly two files fail counts all the others as
/// successes and reports the two failures in the order of the inputs.
pub proof fn lemma_two_failures(outcomes: Seq<OutcomeView>, i: int, j: int)
    requires
        0 <= i < j < outcomes.len(),
        outcomes[i] is Failure,
        outcomes[j] is Failure,
        forall|k: int| 0 <= k < outcomes.len() && k != i && k != j ==> outcomes[k] is Success,
    ensures
        success_count(outcomes) == outcomes.len() - 2,
        failure_lines(outcomes) == outcomes[i].failure_line() + outcomes[j].failure_line(),
        failure_lines(outcomes).len() == 2,
{
    let before = outcomes.subrange(0, i);
    let at_i = outcomes.subrange(i, i + 1);
    let between = outcomes.subrange(i + 1, j);
    let at_j = outcomes.subrange(j, j + 1);
    let after = outcomes.subrange(j + 1, outcomes.len() as int);
    lemma_all_succeed(before);
    lemma_all_succeed(between);
    lemma_all_succeed(after);
    assert(at_i =~= seq![outcomes[i]]);
    assert(at_j =~= seq![outcomes[j]]);
    lemma_single_outcome(outcomes[i]);
    lemma_single_outcome(outcomes[j]);
    assert(outcomes =~= before + at_i + between + at_j + after);
    lemma_batches_concatenate(before, at_i);
    lemma_batches_concatenate(before + at_i, between);
    lemma_batches_concatenate(before + at_i + between, at_j);
    lemma_batches_concatenate(before + at_i + between + at_j, after);
    assert(failure_lines(outcomes) =~= outcomes[i].failure_line() + outcomes[j].failure_line());
}

impl ProcessingOutcome {
    /// The outcome of a file, from the path it was read from and the result
    /// of processing it.
    pub fn of_result(input_path: &str, result: &Result<String, PhotoBorderError>) -> (outcome:
        ProcessingOutcome)
        ensures
            outcome@ == OutcomeView::of_result(
                input_path@,
                match *result {
                    Ok(path) => Ok(path@),
                    Err(error) => Err(error@),
                },
            ),
    {
        match result {
            Ok(output_path) => ProcessingOutcome::Success(output_path.clone()),
            Err(error) => ProcessingOutcome::Failure(
                String::from_str(input_path),
                error.to_string(),
            ),
        }
    }
}

/// The outcomes of a batch, in the order in which the files were processed.
#[derive(Debug)]
pub struct BatchSummary {
    outcomes: Vec<ProcessingOutcome>,
}

impl View for BatchSummary {
    type V = Seq<OutcomeView>;

    closed spec fn view(&self) -> Seq<OutcomeView> {
        Seq::new(self.outcomes@.len(), |k: int| self.outcomes@[k]@)
    }
}

impl BatchSummary {
    /// The summary of a batch in which nothing was processed yet.
    pub fn new() -> (summary: BatchSummary)
        ensures
            summary@ == Seq::<OutcomeView>::empty(),
    {
        let summary = BatchSummary { outcomes: Vec::new() };
        assert(summary@ =~= Seq::<OutcomeView>::empty());
        summary
    }

    /// Adds the outcome of the file that was processed next.
    pub fn record(&mut self, outcome: ProcessingOutcome)
        ensures
            final(self)@ == old(self)@.push(outcome@),
    {
        self.outcomes.push(outcome);
        assert(self@ =~= old(self)@.push(outcome@));
    }

    /// The summary of a batch whose outcomes are known.
    pub fn from_outcomes(outcomes: Vec<ProcessingOutcome>) -> (summary: BatchSummary)
        ensures
            summary@ == Seq::new(outcomes@.len(), |k: int| outcomes@[k]@),
    {
        BatchSummary { outcomes }
    }

    /// The number of files that were attempted.
    pub fn total(&self) -> (count: usize)
        ensures
            count == self@.len(),
    {
        self.outcomes.len()
    }

    /// The number of files that were processed successfully.
    pub fn success_count(&self) -> (count: usize)
        ensures
            count == success_count(self@),
            count + failure_lines(self@).len() == self@.len(),
    {
        let mut count: usize = 0;
        let mut k: usize = 0;
        while k < self.outcomes.len()
            invariant
                k <= self.outcomes.len(),
                self@.len() == self.outcomes.len(),
                count == success_count(self@.take(k as int)),
                count <= k,
            decreases self.outcomes.len() - k,
        {
            proof {
                assert(self@.take(k + 1).drop_last() =~= self@.take(k as int));
                assert(self@.take(k + 1).last() == self.outcomes@[k as int]@);
            }
            match &self.outcomes[k] {
                ProcessingOutcome::Success(_) => {
                    count += 1;
                },
                ProcessingOutcome::Failure(_, _) => {},
            }
            k += 1;
        }
        proof {
            assert(self@.take(k as int) =~= self@);
            lemma_counts_add_up(self@);
        }
        count
    }

    /// The lines that report the failures, `path: reason`, in the order in
    /// which the files were processed.
    pub fn failure_lines(&self) -> (lines: Vec<String>)
        ensures
            lines.deep_view() == failure_lines(self@),
    {
        let mut lines: Vec<String> = Vec::new();
        let mut k: usize = 0;
        assert(lines.deep_view() =~= failure_lines(self@.take(0)));
        while k < self.outcomes.len()
            invariant
                k <= self.outcomes.len(),
                self@.len() == self.outcomes.len(),
                lines.deep_view() == failure_lines(self@.take(k as int)),
            decreases self.outcomes.len() - k,
        {
            proof {
                assert(self@.take(k + 1).drop_last() =~= self@.take(k as int));
                assert(self@.take(k + 1).last() == self.outcomes@[k as int]@);
            }
            let ghost before = lines.deep_view();
            match &self.outcomes[k] {
                ProcessingOutcome::Success(_) => {
                    assert(lines.deep_view() =~= before + self.outcomes@[k as int]@.failure_line());
                },
                ProcessingOutcome::Failure(path, reason) => {
                    let mut line = path.clone();
                    line.append(": ");
                    line.append(reason.as_str());
                    lines.push(line);
                    assert(lines.deep_view() =~= before + self.outcomes@[k as int]@.failure_line());
                },
            }
            k += 1;
        }
        proof {
            assert(self@.take(k as int) =~= self@);
        }
        lines
    }

    /// The number of files that could not be processed.
    pub fn failure_count(&self) -> (count: usize)
        ensures
            count == failure_lines(self@).len(),
            count + success_count(self@) == self@.len(),
    {
        let successes: usize = self.success_count();
        self.outcomes.len() - successes
    }

    /// The report on the batch, for display: the three counts, then the first
    /// five failures, then a note on how many more there were.
    pub fn report(&self) -> (text: String)
        ensures
            text@ == report_text(self@),
    {
        let lines = self.failure_lines();
        let mut text = String::from_str("Processing complete!\nTotal attempted: ");
        text.append(decimal_string(self.total()).as_str());
        text.append(" image(s)\nSuccessfully processed: ");
        text.append(decimal_string(self.success_count()).as_str());
        text.append(" image(s)\nErrors: ");
        text.append(decimal_string(lines.len()).as_str());
        text.append(" image(s)");
        let details = describe_failures(&lines);
        text.append(details.as_str());
        text
    }
}

/// The mathematical value of a [`BatchRunner`]: the inputs of the batch, and
/// the outcomes of those that were processed.
pub struct RunnerView {
    pub inputs: Seq<Seq<char>>,
    pub outcomes: Seq<OutcomeView>,
}

/// The value of the result of one job.
pub open spec fn result_view(result: Result<String, PhotoBorderError>) -> Result<
    Seq<char>,
    ErrorView,
> {
    match result {
        Ok(path) => Ok(path@),
        Err(error) => Err(error@),
    }
}

impl RunnerView {
    /// Whether the outcomes are those of the first inputs, one for each, in
    /// the order of the inputs: a failure names the input it belongs to.
    pub open spec fn in_step(self) -> bool {
        &&& self.outcomes.len() <= self.inputs.len()
        &&& forall|k: int|
            0 <= k < self.outcomes.len() ==> (#[trigger] self.outcomes[k] matches OutcomeView::Failure(
                path,
                _,
            ) ==> path == self.inputs[k])
    }

    /// The input that is processed next: the first one without an outcome.
    pub open spec fn pending(self) -> Option<Seq<char>> {
        if self.outcomes.len() < self.inputs.len() {
            Some(self.inputs[self.outcomes.len() as int])
        } else {
            None
        }
    }

    /// The batch after the result of the pending input came in. Without a
    /// pending input nothing changes.
    pub open spec fn recorded(self, result: Result<Seq<char>, ErrorView>) -> RunnerView {
        match self.pending() {
            Some(path) => RunnerView {
                inputs: self.inputs,
                outcomes: self.outcomes.push(OutcomeView::of_result(path, result)),
            },
            None => self,
        }
    }
}

impl RunnerView {
    /// A batch on the given inputs before anything was processed.
    pub open spec fn started(inputs: Seq<Seq<char>>) -> RunnerView {
        RunnerView { inputs, outcomes: Seq::empty() }
    }

    /// The batch after the results of the next inputs came in, one after the
    /// other.
    pub open spec fn after(self, results: Seq<Result<Seq<char>, ErrorView>>) -> RunnerView
        decreases results.len(),
    {
        if results.len() == 0 {
            self
        } else {
            self.after(results.drop_last()).recorded(results.last())
        }
    }
}

/// A batch maps results to outcomes one to one, in the order of the inputs:
/// the outcome at each position is that of the input and the result at the
/// same position.
pub proof fn lemma_outcomes_follow_inputs(
    inputs: Seq<Seq<char>>,
    results: Seq<Result<Seq<char>, ErrorView>>,
)
    requires
        results.len() <= inputs.len(),
    ensures
        RunnerView::started(inputs).after(results).inputs == inputs,
        RunnerView::started(inputs).after(results).outcomes == Seq::new(
            results.len(),
            |k: int| OutcomeView::of_result(inputs[k], results[k]),
        ),
    decreases results.len(),
{
    let expected = Seq::new(results.len(), |k: int| OutcomeView::of_result(inputs[k], results[k]));
    if results.len() == 0 {
        assert(RunnerView::started(inputs).after(results).outcomes =~= expected);
    } else {
        let earlier = results.drop_last();
        lemma_outcomes_follow_inputs(inputs, earlier);
        let before = RunnerView::started(inputs).after(earlier);
        assert(before.pending() == Some(inputs[earlier.len() as int]));
        assert(before.recorded(results.last()).outcomes =~= expected);
    }
}

/// A batch in which exactly the inputs at two positions fail counts all the
/// others as successes and reports the two failures in the order of the
/// inputs, each with the path of its input.
pub proof fn lemma_two_inputs_fail(
    inputs: Seq<Seq<char>>,
    results: Seq<Result<Seq<char>, ErrorView>>,
    i: int,
    j: int,
)
    requires
        results.len() == inputs.len(),
        0 <= i < j < inputs.len(),
        results[i] is Err,
        results[j] is Err,
        forall|k: int| 0 <= k < results.len() && k != i && k != j ==> results[k] is Ok,
    ensures
        ({
            let outcomes = RunnerView::started(inputs).after(results).outcomes;
            &&& outcomes.len() == inputs.len()
            &&& success_count(outcomes) == inputs.len() - 2
            &&& failure_lines(outcomes) == seq![
                inputs[i] + ": "@ + results[i]->Err_0.message(),
                inputs[j] + ": "@ + results[j]->Err_0.message(),
            ]
        }),
{
    lemma_outcomes_follow_inputs(inputs, results);
    let outcomes = RunnerView::started(inputs).after(results).outcomes;
    assert forall|k: int| 0 <= k < outcomes.len() && k != i && k != j implies outcomes[k]
        is Success by {
        assert(results[k] is Ok);
    }
    lemma_two_failures(outcomes, i, j);
    assert(failure_lines(outcomes) =~= seq![
        inputs[i] + ": "@ + results[i]->Err_0.message(),
        inputs[j] + ": "@ + results[j]->Err_0.message(),
    ]);
}

/// Whatever the result of a job is, the batch stays in step and goes on: a
/// failure takes its place among the outcomes and the next input is pending.
pub proof fn lemma_recording_keeps_step(batch: RunnerView, result: Result<Seq<char>, ErrorView>)
    requires
        batch.in_step(),
    ensures
        batch.recorded(result).in_step(),
        batch.recorded(result).inputs == batch.inputs,
        batch.pending() is Some ==> batch.recorded(result).outcomes.len() == batch.outcomes.len()
            + 1,
        batch.pending() is Some ==> batch.recorded(result).outcomes.take(
            batch.outcomes.len() as int,
        ) == batch.outcomes,
{
    if batch.pending() is Some {
        let after = batch.recorded(result);
        assert forall|k: int| 0 <= k < after.outcomes.len() implies (
        #[trigger] after.outcomes[k] matches OutcomeView::Failure(path, _) ==> path
            == after.inputs[k]) by {
            if k < batch.outcomes.len() {
                assert(after.outcomes[k] == batch.outcomes[k]);
            }
        }
        assert(after.outcomes.take(batch.outcomes.len() as int) =~= batch.outcomes);
    }
}

/// A batch on its way: it hands out the inputs one after the other, in the
/// order in which they were given, and takes the result of each.
#[derive(Debug)]
pub struct BatchRunner {
    inputs: Vec<String>,
    summary: BatchSummary,
}

impl View for BatchRunner {
    type V = RunnerView;

    closed spec fn view(&self) -> RunnerView {
        RunnerView { inputs: self.inputs.deep_view(), outcomes: self.summary@ }
    }
}

impl BatchRunner {
    /// Begins a batch on the given inputs. An empty list is a batch with
    /// nothing to do.
    pub fn new(inputs: Vec<String>) -> (runner: BatchRunner)
        ensures
            runner@ == (RunnerView {
                inputs: inputs.deep_view(),
                outcomes: Seq::<OutcomeView>::empty(),
            }),
            runner@.in_step(),
    {
        BatchRunner { inputs, summary: BatchSummary::new() }
    }

    /// The input to process next, or `None` when every input has an outcome.
    pub fn next_input(&self) -> (input: Option<String>)
        ensures
            text_of(input) == self@.pending(),
    {
        let done: usize = self.summary.total();
        if done < self.inputs.len() {
            Some(self.inputs[done].clone())
        } else {
            None
        }
    }

    /// Takes the result of the pending input: the path that was written to,
    /// or the error. The batch goes on with the next input either way, and
    /// stays in step.
    pub fn record(&mut self, result: &Result<String, PhotoBorderError>)
        ensures
            final(self)@ == old(self)@.recorded(result_view(*result)),
            old(self)@.in_step() ==> final(self)@.in_step(),
    {
        proof {
            if self@.in_step() {
                lemma_recording_keeps_step(self@, result_view(*result));
            }
        }
        let done: usize = self.summary.total();
        if done < self.inputs.len() {
            let outcome = ProcessingOutcome::of_result(self.inputs[done].as_str(), result);
            self.summary.record(outcome);
        }
    }

    /// The summary of what was processed so far.
    pub fn summary(&self) -> (summary: &BatchSummary)
        ensures
            summary@ == self@.outcomes,
    {
        &self.summary
    }
}

/// Writes the part of the report that lists failures.
pub fn describe_failures(lines: &Vec<String>) -> (text: String)
    ensures
        text@ == failure_details(lines.deep_view()),
{
    let mut text = String::new();
    if lines.len() == 0 {
        return text;
    }
    text.append("\n\nError details:");
    let shown: usize = if lines.len() <= DETAIL_LIMIT {
        lines.len()
    } else {
        DETAIL_LIMIT
    };
    let mut k: usize = 0;
    assert(text@ =~= "\n\nError details:"@ + listed(lines.deep_view().take(0)));
    while k < shown
        invariant
            k <= shown <= lines.len(),
            text@ == "\n\nError details:"@ + listed(lines.deep_view().take(k as int)),
        decreases shown - k,
    {
        proof {
            let all = lines.deep_view();
            assert(all.take(k + 1).drop_last() =~= all.take(k as int));
            assert(all.take(k + 1).last() == lines@[k as int]@);
        }
        text.append("\n- ");
        text.append(lines[k].as_str());
        assert(text@ =~= "\n\nError details:"@ + listed(lines.deep_view().take(k + 1)));
        k += 1;
    }
    if lines.len() > DETAIL_LIMIT {
        text.append("\n... and ");
        text.append(decimal_string(lines.len() - DETAIL_LIMIT).as_str());
        text.append(" more errors");
    } else {
        assert(lines.deep_view().take(k as int) =~= lines.deep_view());
    }
    text
}

} // verus!
