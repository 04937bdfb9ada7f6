use app_timer::command::{parse_command, spawn_failure_message};
use app_timer::config::parse_config;
use app_timer::lifecycle::{first_step, next_step, report_of, run, Report, Step, EXIT_FAILURE, EXIT_OK};
use app_timer::prompt::{get_username_dialog, Dialog, DialogEvent, PromptOutcome, Showing};
use app_timer::record::{append_to, RunRecord};
use app_timer::timestamp::Timestamp;

const ORDER: [Step; 8] = [
    Step::PrepareDirectory,
    Step::LoadConfig,
    Step::StartLogging,
    Step::StartGui,
    Step::SetFont,
    Step::Prompt,
    Step::Launch,
    Step::Append,
];

#[test]
fn exit_statuses_are_zero_and_one() {
    assert_eq!(EXIT_OK, 0);
    assert_eq!(EXIT_FAILURE, 1);
}

#[test]
fn run_starts_with_the_directory() {
    assert_eq!(first_step(), Step::PrepareDirectory);
    assert_eq!(run(&Vec::new()), Step::PrepareDirectory);
}

#[test]
fn steps_follow_in_order_and_end_with_status_zero() {
    let mut step = first_step();
    for expected in ORDER {
        assert_eq!(step, expected);
        step = next_step(step, Report::Succeeded);
    }
    assert_eq!(step, Step::Exit { status: 0 });
    assert_eq!(run(&vec![Report::Succeeded; 8]), Step::Exit { status: 0 });
    assert_eq!(run(&vec![Report::Succeeded; 7]), Step::Append);
}

#[test]
fn failure_of_any_step_ends_with_status_one() {
    for step in ORDER {
        assert_eq!(next_step(step, Report::Failed), Step::Exit { status: 1 });
    }
}

#[test]
fn cancelled_prompt_ends_with_status_zero() {
    assert_eq!(next_step(Step::Prompt, Report::Cancelled), Step::Exit { status: 0 });
}

#[test]
fn empty_prompt_is_shown_again() {
    assert_eq!(next_step(Step::Prompt, Report::Empty), Step::Prompt);
    let mut reports = vec![Report::Succeeded; 5];
    reports.extend(vec![Report::Empty; 3]);
    assert_eq!(run(&reports), Step::Prompt);
    reports.push(Report::Succeeded);
    assert_eq!(run(&reports), Step::Launch);
}

#[test]
fn prompt_reports_outside_the_prompt_count_as_failures() {
    for step in ORDER {
        if step != Step::Prompt {
            assert_eq!(next_step(step, Report::Cancelled), Step::Exit { status: 1 });
            assert_eq!(next_step(step, Report::Empty), Step::Exit { status: 1 });
        }
    }
}

#[test]
fn exit_stays_exit() {
    for report in [Report::Succeeded, Report::Failed, Report::Cancelled, Report::Empty] {
        assert_eq!(next_step(Step::Exit { status: 0 }, report), Step::Exit { status: 0 });
        assert_eq!(next_step(Step::Exit { status: 1 }, report), Step::Exit { status: 1 });
    }
    let mut reports = vec![Report::Succeeded, Report::Failed];
    assert_eq!(run(&reports), Step::Exit { status: 1 });
    reports.extend(vec![Report::Succeeded; 9]);
    assert_eq!(run(&reports), Step::Exit { status: 1 });
}

#[test]
fn prompt_outcomes_are_reported() {
    assert_eq!(report_of(&PromptOutcome::Cancelled), Report::Cancelled);
    assert_eq!(report_of(&PromptOutcome::Redisplay), Report::Empty);
    assert_eq!(report_of(&PromptOutcome::Accepted("alice".to_string())), Report::Succeeded);
}

#[test]
fn unusable_settings_end_the_run_with_status_one() {
    let texts = ["[AppTimer]\napp_path=x\n", "[AppTimer]\noutput_path=x\n", "[Other]\n", "=x\n"];
    for text in texts {
        let error = parse_config(text).unwrap_err();
        assert!(!error.message().is_empty());
        let step = next_step(Step::LoadConfig, Report::Failed);
        assert_eq!(step, Step::Exit { status: 1 });
    }
}

#[test]
fn alice_runs_notepad_for_two_seconds() {
    let config = parse_config("[AppTimer]\napp_path=notepad.exe\noutput_path=log.csv\n").unwrap();
    let mut step = first_step();
    for _ in 0..5 {
        step = next_step(step, Report::Succeeded);
    }
    assert_eq!(step, Step::Prompt);
    let showings =
        vec![Showing { dialog: Dialog { username_edit: "alice".to_string() }, event: DialogEvent::KeyEnter }];
    let outcome = get_username_dialog(&showings);
    step = next_step(step, report_of(&outcome));
    assert_eq!(step, Step::Launch);
    let username = match outcome {
        PromptOutcome::Accepted(name) => name,
        other => panic!("no username: {:?}", other),
    };
    let command = parse_command(&config.app_path).unwrap();
    assert_eq!(command.program, "notepad.exe");
    assert!(command.args.is_empty());
    let start = Timestamp::new(1709281800, 250_000_000, 0).unwrap();
    let end = Timestamp::new(1709281802, 300_000_000, 0).unwrap();
    step = next_step(step, Report::Succeeded);
    assert_eq!(step, Step::Append);
    let existing = b"startTimestamp,endTimestamp,elapsedMinutes,username\n".to_vec();
    let log = append_to(Some(existing.clone()), &RunRecord { start, end, username }).unwrap();
    assert_eq!(
        String::from_utf8(log[existing.len()..].to_vec()).unwrap(),
        "2024-03-01T08:30:00.250+00:00,2024-03-01T08:30:02.300+00:00,0,alice\n"
    );
    assert_eq!(next_step(step, Report::Succeeded), Step::Exit { status: 0 });
}

#[test]
fn closing_the_prompt_exits_with_zero_before_anything_is_logged() {
    let showings =
        vec![Showing { dialog: Dialog { username_edit: String::new() }, event: DialogEvent::WindowClose }];
    let outcome = get_username_dialog(&showings);
    assert_eq!(outcome, PromptOutcome::Cancelled);
    let mut reports = vec![Report::Succeeded; 5];
    let mut visited = vec![run(&reports)];
    reports.push(report_of(&outcome));
    visited.push(run(&reports));
    assert_eq!(visited, vec![Step::Prompt, Step::Exit { status: 0 }]);
    for n in 0..=reports.len() {
        assert_ne!(run(&reports[..n].to_vec()), Step::Append);
    }
}

#[test]
fn missing_executable_exits_with_one_before_anything_is_logged() {
    let mut reports = vec![Report::Succeeded; 6];
    assert_eq!(run(&reports), Step::Launch);
    reports.push(Report::Failed);
    assert_eq!(run(&reports), Step::Exit { status: 1 });
    for n in 0..=reports.len() {
        assert_ne!(run(&reports[..n].to_vec()), Step::Append);
    }
    let message = spawn_failure_message("C:\\nowhere\\tool.exe", "program not found");
    assert!(message.contains("C:\\nowhere\\tool.exe"));
    assert!(message.contains("program not found"));
}

#[test]
fn every_step_has_its_failure_line() {
    assert_eq!(Step::PrepareDirectory.failure_message(), "Error creating default configuration");
    assert_eq!(Step::LoadConfig.failure_message(), "Failed to load configuration");
    assert_eq!(Step::StartLogging.failure_message(), "Failed to open log file");
    assert_eq!(Step::StartGui.failure_message(), "Unable to initalize GUI window.");
    assert_eq!(Step::SetFont.failure_message(), "Unable to set font");
    assert_eq!(Step::Prompt.failure_message(), "Failed to build UI");
    assert_eq!(Step::Launch.failure_message(), "Failed to spawn subprocess.");
    assert_eq!(Step::Append.failure_message(), "Failed to write result to CSV.");
    assert_eq!(Step::Exit { status: 1 }.failure_message(), "");
}
