use app_timer::prompt::{
    get_username_dialog, Dialog, DialogEvent, PromptOutcome, Reaction, Showing, USERNAME_LIMIT,
};

fn dialog(text: &str) -> Dialog {
    Dialog { username_edit: text.to_string() }
}

fn showing(text: &str, event: DialogEvent) -> Showing {
    Showing { dialog: dialog(text), event }
}

#[test]
fn closing_the_window_ends_the_program_with_status_zero() {
    assert_eq!(dialog("").handle_close(), Reaction::Exit { status: 0 });
    assert_eq!(dialog("alice").handle_close(), Reaction::Exit { status: 0 });
}

#[test]
fn escape_ends_the_program_with_status_zero() {
    assert_eq!(dialog("alice").handle_esc_key(), Reaction::Exit { status: 0 });
}

#[test]
fn enter_and_the_button_submit_the_field() {
    assert_eq!(dialog("alice").handle_enter_key(), Reaction::Submit);
    assert_eq!(dialog("").handle_ok_button(), Reaction::Submit);
}

#[test]
fn handle_goes_to_the_handler_of_the_event() {
    let d = Dialog::default();
    assert_eq!(d.username_edit, "");
    assert_eq!(d.handle(DialogEvent::WindowClose), d.handle_close());
    assert_eq!(d.handle(DialogEvent::KeyEsc), d.handle_esc_key());
    assert_eq!(d.handle(DialogEvent::KeyEnter), d.handle_enter_key());
    assert_eq!(d.handle(DialogEvent::OkButtonClick), d.handle_ok_button());
}

#[test]
fn confirmed_name_is_accepted_as_entered() {
    assert_eq!(
        dialog("alice").outcome(DialogEvent::KeyEnter),
        PromptOutcome::Accepted("alice".to_string())
    );
    assert_eq!(
        dialog("  bob ").outcome(DialogEvent::OkButtonClick),
        PromptOutcome::Accepted("  bob ".to_string())
    );
}

#[test]
fn confirmed_empty_field_shows_the_prompt_again() {
    assert_eq!(dialog("").outcome(DialogEvent::KeyEnter), PromptOutcome::Redisplay);
    assert_eq!(dialog("").outcome(DialogEvent::OkButtonClick), PromptOutcome::Redisplay);
}

#[test]
fn cancelling_discards_the_text() {
    assert_eq!(dialog("alice").outcome(DialogEvent::WindowClose), PromptOutcome::Cancelled);
    assert_eq!(dialog("").outcome(DialogEvent::KeyEsc), PromptOutcome::Cancelled);
}

#[test]
fn name_longer_than_the_field_allows_is_still_accepted() {
    assert_eq!(USERNAME_LIMIT, 32);
    let long = "x".repeat(40);
    assert_eq!(dialog(&long).outcome(DialogEvent::KeyEnter), PromptOutcome::Accepted(long));
}

#[test]
fn prompt_repeats_until_a_name_is_given() {
    let showings = vec![
        showing("", DialogEvent::KeyEnter),
        showing("", DialogEvent::OkButtonClick),
        showing("alice", DialogEvent::KeyEnter),
        showing("bob", DialogEvent::KeyEnter),
    ];
    assert_eq!(get_username_dialog(&showings), PromptOutcome::Accepted("alice".to_string()));
}

#[test]
fn prompt_ends_at_the_first_cancellation() {
    let showings = vec![
        showing("", DialogEvent::KeyEnter),
        showing("carol", DialogEvent::KeyEsc),
        showing("carol", DialogEvent::KeyEnter),
    ];
    assert_eq!(get_username_dialog(&showings), PromptOutcome::Cancelled);
}

#[test]
fn prompt_closed_without_text_is_cancelled() {
    let showings = vec![showing("", DialogEvent::WindowClose)];
    assert_eq!(get_username_dialog(&showings), PromptOutcome::Cancelled);
}

#[test]
fn prompt_stays_open_while_only_empty_fields_are_confirmed() {
    assert_eq!(get_username_dialog(&Vec::new()), PromptOutcome::Redisplay);
    let showings = vec![showing("", DialogEvent::KeyEnter), showing("", DialogEvent::KeyEnter)];
    assert_eq!(get_username_dialog(&showings), PromptOutcome::Redisplay);
}

#[test]
fn every_event_has_its_log_line() {
    assert_eq!(DialogEvent::WindowClose.log_message(), "User terminated by closing window");
    assert_eq!(DialogEvent::KeyEsc.log_message(), "User terminated with ESC key");
    assert_eq!(DialogEvent::KeyEnter.log_message(), "User accepted with ENTER key");
    assert_eq!(DialogEvent::OkButtonClick.log_message(), "User accepted with OK button");
}
