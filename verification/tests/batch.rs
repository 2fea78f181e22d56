use schnapsshot::batch::describe_failures;
use schnapsshot::batch::BatchRunner;
use schnapsshot::batch::BatchSummary;
use schnapsshot::batch::ProcessingOutcome;
use schnapsshot::error::PhotoBorderError;

fn success(index: usize) -> ProcessingOutcome {
    ProcessingOutcome::Success(format!("out/{}_border.jpg", index))
}

fn failure(index: usize) -> ProcessingOutcome {
    ProcessingOutcome::Failure(format!("in/{}.jpg", index), format!("broken {}", index))
}

#[test]
fn batch_with_second_and_fifth_input_undecodable() {
    let mut summary = BatchSummary::new();
    for index in 1..=7 {
        if index == 2 || index == 5 {
            summary.record(failure(index));
        } else {
            summary.record(success(index));
        }
    }
    assert_eq!(summary.total(), 7);
    assert_eq!(summary.success_count(), 5);
    assert_eq!(summary.failure_count(), 2);
    assert_eq!(
        summary.failure_lines(),
        vec!["in/2.jpg: broken 2".to_string(), "in/5.jpg: broken 5".to_string()]
    );
}

#[test]
fn empty_batch_is_zero_work() {
    let summary = BatchSummary::new();
    assert_eq!(summary.total(), 0);
    assert_eq!(summary.success_count(), 0);
    assert_eq!(summary.failure_count(), 0);
    assert!(summary.failure_lines().is_empty());
    assert_eq!(
        summary.report(),
        "Processing complete!\nTotal attempted: 0 image(s)\nSuccessfully processed: 0 image(s)\nErrors: 0 image(s)"
    );
}

#[test]
fn counts_add_up_to_the_number_of_files() {
    let mut outcomes = Vec::new();
    for index in 0..23 {
        outcomes.push(if index % 3 == 0 { failure(index) } else { success(index) });
    }
    let summary = BatchSummary::from_outcomes(outcomes);
    assert_eq!(summary.total(), 23);
    assert_eq!(summary.failure_count(), 8);
    assert_eq!(summary.success_count() + summary.failure_count(), summary.total());
}

#[test]
fn report_without_failures() {
    let summary = BatchSummary::from_outcomes(vec![success(1), success(2), success(3)]);
    assert_eq!(
        summary.report(),
        "Processing complete!\nTotal attempted: 3 image(s)\nSuccessfully processed: 3 image(s)\nErrors: 0 image(s)"
    );
}

#[test]
fn report_lists_up_to_five_failures() {
    let summary = BatchSummary::from_outcomes(vec![failure(1), success(2), failure(3)]);
    assert_eq!(
        summary.report(),
        "Processing complete!\nTotal attempted: 3 image(s)\nSuccessfully processed: 1 image(s)\nErrors: 2 image(s)\n\nError details:\n- in/1.jpg: broken 1\n- in/3.jpg: broken 3"
    );
}

#[test]
fn report_with_exactly_five_failures_has_no_note() {
    let summary = BatchSummary::from_outcomes(vec![
        failure(1),
        failure(2),
        failure(3),
        failure(4),
        failure(5),
    ]);
    assert_eq!(
        summary.report(),
        "Processing complete!\nTotal attempted: 5 image(s)\nSuccessfully processed: 0 image(s)\nErrors: 5 image(s)\n\nError details:\n- in/1.jpg: broken 1\n- in/2.jpg: broken 2\n- in/3.jpg: broken 3\n- in/4.jpg: broken 4\n- in/5.jpg: broken 5"
    );
}

#[test]
fn report_notes_the_failures_it_leaves_out() {
    let mut outcomes = Vec::new();
    for index in 1..=12 {
        outcomes.push(failure(index));
    }
    outcomes.push(success(13));
    let summary = BatchSummary::from_outcomes(outcomes);
    assert_eq!(
        summary.report(),
        "Processing complete!\nTotal attempted: 13 image(s)\nSuccessfully processed: 1 image(s)\nErrors: 12 image(s)\n\nError details:\n- in/1.jpg: broken 1\n- in/2.jpg: broken 2\n- in/3.jpg: broken 3\n- in/4.jpg: broken 4\n- in/5.jpg: broken 5\n... and 7 more errors"
    );
}

#[test]
fn failure_details_of_six_lines() {
    let lines: Vec<String> = (1..=6).map(|k| format!("f{}", k)).collect();
    assert_eq!(
        describe_failures(&lines),
        "\n\nError details:\n- f1\n- f2\n- f3\n- f4\n- f5\n... and 1 more errors"
    );
    assert_eq!(describe_failures(&Vec::new()), "");
}

#[test]
fn outcome_of_a_written_file_is_a_success() {
    let result: Result<String, PhotoBorderError> = Ok("out/a_border.png".to_string());
    match ProcessingOutcome::of_result("a.png", &result) {
        ProcessingOutcome::Success(path) => assert_eq!(path, "out/a_border.png"),
        ProcessingOutcome::Failure(_, _) => panic!("expected a success"),
    }
}

#[test]
fn outcome_of_an_error_names_the_input_and_the_cause() {
    let result: Result<String, PhotoBorderError> =
        Err(PhotoBorderError::ImageError("unsupported format".to_string()));
    match ProcessingOutcome::of_result("shots/a.raw", &result) {
        ProcessingOutcome::Failure(path, reason) => {
            assert_eq!(path, "shots/a.raw");
            assert_eq!(reason, "Image processing error: unsupported format");
        }
        ProcessingOutcome::Success(_) => panic!("expected a failure"),
    }
}

#[test]
fn a_failure_does_not_stop_the_batch() {
    let mut summary = BatchSummary::new();
    summary.record(failure(1));
    summary.record(success(2));
    summary.record(success(3));
    assert_eq!(summary.total(), 3);
    assert_eq!(summary.success_count(), 2);
    assert_eq!(summary.failure_lines(), vec!["in/1.jpg: broken 1".to_string()]);
}

fn decode_error(cause: &str) -> Result<String, PhotoBorderError> {
    Err(PhotoBorderError::ImageError(cause.to_string()))
}

#[test]
fn runner_hands_out_inputs_in_order() {
    let mut runner = BatchRunner::new(vec!["a.jpg".to_string(), "b.jpg".to_string()]);
    assert_eq!(runner.next_input(), Some("a.jpg".to_string()));
    assert_eq!(runner.next_input(), Some("a.jpg".to_string()));
    runner.record(&Ok("a_border.jpg".to_string()));
    assert_eq!(runner.next_input(), Some("b.jpg".to_string()));
    runner.record(&decode_error("truncated"));
    assert_eq!(runner.next_input(), None);
    assert_eq!(runner.summary().total(), 2);
    assert_eq!(runner.summary().success_count(), 1);
    assert_eq!(
        runner.summary().failure_lines(),
        vec!["b.jpg: Image processing error: truncated".to_string()]
    );
}

#[test]
fn runner_with_second_and_fifth_input_failing() {
    let inputs: Vec<String> = (1..=6).map(|k| format!("in/{}.jpg", k)).collect();
    let mut runner = BatchRunner::new(inputs);
    let mut position = 0;
    while let Some(input) = runner.next_input() {
        position += 1;
        if position == 2 || position == 5 {
            runner.record(&decode_error("unreadable"));
        } else {
            runner.record(&Ok(input.replace(".jpg", "_border.jpg")));
        }
    }
    assert_eq!(position, 6);
    assert_eq!(runner.summary().success_count(), 4);
    assert_eq!(runner.summary().failure_count(), 2);
    assert_eq!(
        runner.summary().failure_lines(),
        vec![
            "in/2.jpg: Image processing error: unreadable".to_string(),
            "in/5.jpg: Image processing error: unreadable".to_string(),
        ]
    );
}

#[test]
fn runner_on_no_inputs_has_nothing_to_do() {
    let mut runner = BatchRunner::new(Vec::new());
    assert_eq!(runner.next_input(), None);
    runner.record(&Ok("stray.jpg".to_string()));
    assert_eq!(runner.summary().total(), 0);
    assert_eq!(runner.next_input(), None);
}

#[test]
fn runner_ignores_results_after_the_last_input() {
    let mut runner = BatchRunner::new(vec!["only.png".to_string()]);
    runner.record(&decode_error("bad"));
    runner.record(&decode_error("worse"));
    assert_eq!(runner.summary().total(), 1);
    assert_eq!(
        runner.summary().failure_lines(),
        vec!["only.png: Image processing error: bad".to_string()]
    );
}
