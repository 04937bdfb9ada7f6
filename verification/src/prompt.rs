//! The username prompt: what each way of dismissing it means.

use vstd::prelude::*;

verus! {

/// The longest username, in characters, that the input field should take.
/// The field enforces it; nothing here does.
pub const USERNAME_LIMIT: u32 = 32;

/// How the user dismissed the prompt window.
#[derive(Clone, Copy, Debug, PartialEq, Eq, Structural)]
pub enum DialogEvent {
    /// The window was closed.
    WindowClose,
    /// The escape key was pressed.
    KeyEsc,
    /// The enter key was pressed.
    KeyEnter,
    /// The button was clicked.
    OkButtonClick,
}

impl DialogEvent {
    /// The line that the program's log gets for this event.
    pub open spec fn spec_log_message(self) -> Seq<char> {
        match self {
            DialogEvent::WindowClose => "User terminated by closing window"@,
            DialogEvent::KeyEsc => "User terminated with ESC key"@,
            DialogEvent::KeyEnter => "User accepted with ENTER key"@,
            DialogEvent::OkButtonClick => "User accepted with OK button"@,
        }
    }

    /// The line that the program's log gets for this event.
    pub fn log_message(&self) -> (r: &'static str)
        ensures
            r@ == self.spec_log_message(),
    {
        match self {
            DialogEvent::WindowClose => "User terminated by closing window",
            DialogEvent::KeyEsc => "User terminated with ESC key",
            DialogEvent::KeyEnter => "User accepted with ENTER key",
            DialogEvent::OkButtonClick => "User accepted with OK button",
        }
    }
}

/// What the window does about an event, once it has stopped waiting.
#[derive(Clone, Copy, Debug, PartialEq, Eq, Structural)]
pub enum Reaction {
    /// End the program at once, with this exit status.
    Exit { status: i32 },
    /// Hand the text of the input field back to the program.
    Submit,
}

/// What one showing of the prompt came to.
#[derive(Debug, PartialEq, Eq)]
pub enum PromptOutcome {
    /// The user gave up: the program ends, and nothing is logged.
    Cancelled,
    /// The user confirmed an empty field: the prompt is shown again.
    Redisplay,
    /// The user confirmed this username.
    Accepted(String),
}

/// A `PromptOutcome` with its text as a sequence of characters.
pub enum OutcomeView {
    Cancelled,
    Redisplay,
    Accepted(Seq<char>),
}

impl View for PromptOutcome {
    type V = OutcomeView;

    open spec fn view(&self) -> OutcomeView {
        match self {
            PromptOutcome::Cancelled => OutcomeView::Cancelled,
            PromptOutcome::Redisplay => OutcomeView::Redisplay,
            PromptOutcome::Accepted(name) => OutcomeView::Accepted(name@),
        }
    }
}

/// What the window does about an event.
pub open spec fn spec_reaction(event: DialogEvent) -> Reaction {
    match event {
        DialogEvent::WindowClose | DialogEvent::KeyEsc => Reaction::Exit { status: 0 },
        DialogEvent::KeyEnter | DialogEvent::OkButtonClick => Reaction::Submit,
    }
}

/// What a showing comes to that ends in `event` with `text` in the field.
pub open spec fn spec_outcome(text: Seq<char>, event: DialogEvent) -> OutcomeView {
    match spec_reaction(event) {
        Reaction::Exit { .. } => OutcomeView::Cancelled,
        Reaction::Submit => if text.len() == 0 {
            OutcomeView::Redisplay
        } else {
            OutcomeView::Accepted(text)
        },
    }
}

/// The prompt window, as far as the program reads it: the text in its input
/// field.
#[derive(Debug, Default)]
pub struct Dialog {
    /// The text in the input field.
    pub username_edit: String,
}

impl Dialog {
    /// The window was closed: the program ends with status 0.
    pub fn handle_close(&self) -> (r: Reaction)
        ensures
            r == spec_reaction(DialogEvent::WindowClose),
    {
        Reaction::Exit { status: 0 }
    }

    /// The escape key was pressed: the program ends with status 0.
    pub fn handle_esc_key(&self) -> (r: Reaction)
        ensures
            r == spec_reaction(DialogEvent::KeyEsc),
    {
        Reaction::Exit { status: 0 }
    }

    /// The enter key was pressed: the field is submitted.
    pub fn handle_enter_key(&self) -> (r: Reaction)
        ensures
            r == spec_reaction(DialogEvent::KeyEnter),
    {
        Reaction::Submit
    }

    /// The button was clicked: the field is submitted.
    pub fn handle_ok_button(&self) -> (r: Reaction)
        ensures
            r == spec_reaction(DialogEvent::OkButtonClick),
    {
        Reaction::Submit
    }

    /// What the window does about `event`.
    pub fn handle(&self, event: DialogEvent) -> (r: Reaction)
        ensures
            r == spec_reaction(event),
    {
        match event {
            DialogEvent::WindowClose => self.handle_close(),
            DialogEvent::KeyEsc => self.handle_esc_key(),
            DialogEvent::KeyEnter => self.handle_enter_key(),
            DialogEvent::OkButtonClick => self.handle_ok_button(),
        }
    }

    /// What this showing comes to when `event` dismisses the window.
    pub fn outcome(&self, event: DialogEvent) -> (r: PromptOutcome)
        ensures
            r@ == spec_outcome(self.username_edit@, event),
    {
        match self.handle(event) {
            Reaction::Exit { .. } => PromptOutcome::Cancelled,
            Reaction::Submit => {
                if self.username_edit.as_str().unicode_len() == 0 {
                    PromptOutcome::Redisplay
                } else {
                    PromptOutcome::Accepted(self.username_edit.clone())
                }
            },
        }
    }
}

/// One showing of the prompt: the text in the field when it was dismissed,
/// and how it was dismissed.
#[derive(Debug)]
pub struct Showing {
    pub dialog: Dialog,
    pub event: DialogEvent,
}

/// The text and the event of each showing.
pub open spec fn showings_view(showings: Seq<Showing>) -> Seq<(Seq<char>, DialogEvent)> {
    Seq::new(showings.len(), |i: int| (showings[i].dialog.username_edit@, showings[i].event))
}

/// What a series of showings comes to, read from index `from`: the outcome
/// of the first one that does not ask to be shown again, and `Redisplay`
/// where every one does.
pub open spec fn spec_prompt_from(showings: Seq<(Seq<char>, DialogEvent)>, from: int)
    -> OutcomeView
    decreases showings.len() - from,
{
    if from < 0 || from >= showings.len() {
        OutcomeView::Redisplay
    } else {
        match spec_outcome(showings[from].0, showings[from].1) {
            OutcomeView::Redisplay => spec_prompt_from(showings, from + 1),
            decided => decided,
        }
    }
}

/// What a series of showings comes to.
pub open spec fn spec_prompt(showings: Seq<(Seq<char>, DialogEvent)>) -> OutcomeView {
    spec_prompt_from(showings, 0)
}

/// Runs the prompt over a series of showings: it is shown again for as long
/// as the user confirms an empty field, and the first showing that is
/// cancelled, or confirmed with a name, decides. `Redisplay` means that the
/// series ended with the prompt still open.
pub fn get_username_dialog(showings: &Vec<Showing>) -> (r: PromptOutcome)
    ensures
        r@ == spec_prompt(showings_view(showings@)),
{
    let mut i: usize = 0;
    while i < showings.len()
        invariant
            i <= showings.len(),
            spec_prompt(showings_view(showings@)) == spec_prompt_from(
                showings_view(showings@),
                i as int,
            ),
        decreases showings.len() - i,
    {
        let outcome = showings[i].dialog.outcome(showings[i].event);
        match outcome {
            PromptOutcome::Redisplay => {},
            decided => {
                return decided;
            },
        }
        i = i + 1;
    }
    PromptOutcome::Redisplay
}

/// An accepted username is never empty, and is the text of a showing that
/// was confirmed.
pub proof fn accepted_name_is_not_empty(showings: Seq<(Seq<char>, DialogEvent)>, from: int)
    ensures
        spec_prompt_from(showings, from) matches OutcomeView::Accepted(name) ==> name.len() > 0
            && exists|i: int|
            from <= i < showings.len() && #[trigger] showings[i].0 == name && spec_reaction(
                showings[i].1,
            ) == Reaction::Submit,
    decreases showings.len() - from,
{
    if 0 <= from < showings.len() {
        match spec_outcome(showings[from].0, showings[from].1) {
            OutcomeView::Redisplay => {
                accepted_name_is_not_empty(showings, from + 1);
            },
            OutcomeView::Accepted(name) => {
                assert(showings[from].0 == name);
            },
            OutcomeView::Cancelled => {},
        }
    }
}

} // verus!
