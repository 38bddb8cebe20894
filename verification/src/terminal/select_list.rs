//! A list that is browsed with the cursor, with or without a pair of buttons.

use vstd::prelude::*;
use crate::terminal::frame::{ButtonRow, ButtonRowView, Frame};
use crate::terminal::input::{Input, Key};
use crate::terminal::review::{lemma_after_all_stops, Intent, Outcome, ReviewState};

verus! {

/// The hint under a list with buttons.
pub const BUTTONS_HINT: &'static str = "  (← → select, Enter confirm)";

/// The hint under a list without buttons.
pub const BROWSE_HINT: &'static str = "  (↑↓ navigate, Enter confirm, Esc cancel)";

/// How a dialogue ended.
#[derive(Clone, Copy, Debug, PartialEq, Eq)]
pub enum SelectResult {
    Confirmed,
    Cancelled,
}

/// The labels of the two buttons.
#[derive(Debug, PartialEq, Eq)]
pub struct ConfirmButtons {
    pub confirm_label: String,
    pub cancel_label: String,
}

/// The mathematical content of [`ConfirmButtons`].
pub struct ConfirmButtonsView {
    pub confirm_label: Seq<char>,
    pub cancel_label: Seq<char>,
}

impl View for ConfirmButtons {
    type V = ConfirmButtonsView;

    open spec fn view(&self) -> ConfirmButtonsView {
        ConfirmButtonsView { confirm_label: self.confirm_label@, cancel_label: self.cancel_label@ }
    }
}

/// What a key means in a list dialogue. The keys of the buttons are bound
/// only where the dialogue has buttons.
pub open spec fn key_intent(key: Key, has_buttons: bool) -> Intent {
    match key {
        Key::Esc => Intent::Cancel,
        Key::Up => Intent::Up,
        Key::Down => Intent::Down,
        Key::Home => Intent::First,
        Key::End => Intent::Last,
        Key::Enter => Intent::Accept,
        Key::Left => if has_buttons {
            Intent::ChooseConfirm
        } else {
            Intent::Ignore
        },
        Key::Right => if has_buttons {
            Intent::ChooseCancel
        } else {
            Intent::Ignore
        },
        Key::Tab => if has_buttons {
            Intent::Toggle
        } else {
            Intent::Ignore
        },
        Key::Char(c) => if c == 'q' {
            Intent::Cancel
        } else if c == 'k' {
            Intent::Up
        } else if c == 'j' {
            Intent::Down
        } else if c == 'g' {
            Intent::First
        } else if c == 'G' {
            Intent::Last
        } else if !has_buttons {
            Intent::Ignore
        } else if c == 'h' {
            Intent::ChooseConfirm
        } else if c == 'l' {
            Intent::ChooseCancel
        } else if c == 'y' || c == 'Y' {
            Intent::Confirm
        } else if c == 'n' || c == 'N' {
            Intent::Cancel
        } else {
            Intent::Ignore
        },
        Key::Other => Intent::Ignore,
    }
}

/// What an input means in a list dialogue: only a key that goes down means
/// anything.
pub open spec fn input_intent(input: Input, has_buttons: bool) -> Intent {
    match input.pressed() {
        Some(key) => key_intent(key, has_buttons),
        None => Intent::Ignore,
    }
}

/// What each input of a sequence means in a list dialogue.
pub open spec fn input_intents(inputs: Seq<Input>, has_buttons: bool) -> Seq<Intent> {
    inputs.map_values(|input: Input| input_intent(input, has_buttons))
}

/// How a review with this outcome ended, if it has ended.
pub open spec fn result_of(outcome: Outcome) -> Option<SelectResult> {
    match outcome {
        Outcome::Pending => None,
        Outcome::Confirmed => Some(SelectResult::Confirmed),
        Outcome::Cancelled => Some(SelectResult::Cancelled),
    }
}

/// The hint that a list dialogue shows.
pub open spec fn hint_text(has_buttons: bool) -> Seq<char> {
    if has_buttons {
        BUTTONS_HINT@
    } else {
        BROWSE_HINT@
    }
}

/// The button row that a dialogue with these labels shows.
pub open spec fn button_row(
    buttons: Option<ConfirmButtonsView>,
    confirm_selected: bool,
) -> Option<ButtonRowView> {
    match buttons {
        Some(labels) => Some(
            ButtonRowView {
                confirm_label: labels.confirm_label,
                cancel_label: labels.cancel_label,
                confirm_selected,
            },
        ),
        None => None,
    }
}

/// The intent of an input.
pub fn intent_of(input: Input, has_buttons: bool) -> (intent: Intent)
    ensures
        intent == input_intent(input, has_buttons),
{
    let key = match input.pressed_key() {
        Some(key) => key,
        None => {
            return Intent::Ignore;
        },
    };
    match key {
        Key::Esc => Intent::Cancel,
        Key::Up => Intent::Up,
        Key::Down => Intent::Down,
        Key::Home => Intent::First,
        Key::End => Intent::Last,
        Key::Enter => Intent::Accept,
        Key::Left => if has_buttons {
            Intent::ChooseConfirm
        } else {
            Intent::Ignore
        },
        Key::Right => if has_buttons {
            Intent::ChooseCancel
        } else {
            Intent::Ignore
        },
        Key::Tab => if has_buttons {
            Intent::Toggle
        } else {
            Intent::Ignore
        },
        Key::Char(c) => if c == 'q' {
            Intent::Cancel
        } else if c == 'k' {
            Intent::Up
        } else if c == 'j' {
            Intent::Down
        } else if c == 'g' {
            Intent::First
        } else if c == 'G' {
            Intent::Last
        } else if !has_buttons {
            Intent::Ignore
        } else if c == 'h' {
            Intent::ChooseConfirm
        } else if c == 'l' {
            Intent::ChooseCancel
        } else if c == 'y' || c == 'Y' {
            Intent::Confirm
        } else if c == 'n' || c == 'N' {
            Intent::Cancel
        } else {
            Intent::Ignore
        },
        Key::Other => Intent::Ignore,
    }
}

/// How a review with this outcome ended, if it has ended.
pub fn outcome_result(outcome: Outcome) -> (result: Option<SelectResult>)
    ensures
        result == result_of(outcome),
{
    match outcome {
        Outcome::Pending => None,
        Outcome::Confirmed => Some(SelectResult::Confirmed),
        Outcome::Cancelled => Some(SelectResult::Cancelled),
    }
}

/// Navigation by keys never leaves the list. After any input the cursor is
/// on a row of the list, or absent where the list is empty; while the
/// dialogue is pending, Home and `g` put it on the first row, End and `G` on
/// the last.
pub proof fn lemma_navigation_in_bounds(
    state: ReviewState,
    input: Input,
    len: usize,
    has_buttons: bool,
)
    requires
        state.wf(len as nat),
    ensures
        ({
            let next = state.after(input_intent(input, has_buttons), len as nat, has_buttons);
            &&& next.wf(len as nat)
            &&& len == 0 ==> next.cursor is None
            &&& state.outcome is Pending && len > 0 && (input.pressed() == Some(Key::Home)
                || input.pressed() == Some(Key::Char('g'))) ==> next.cursor == Some(0usize)
            &&& state.outcome is Pending && len > 0 && (input.pressed() == Some(Key::End)
                || input.pressed() == Some(Key::Char('G'))) ==> next.cursor == Some(
                (len - 1) as usize,
            )
        }),
{
}

/// The keys that end a pending dialogue with buttons. `n`, `N`, `q` and Esc
/// cancel it and `y` and `Y` confirm it, whichever button is highlighted;
/// Enter ends it as the highlighted button says.
pub proof fn lemma_accelerators(state: ReviewState, key: Key, len: nat)
    ensures
        ({
            let next = state.after(key_intent(key, true), len, true);
            state.outcome is Pending ==> {
                &&& key == Key::Char('n') || key == Key::Char('N') || key == Key::Char('q') || key
                    == Key::Esc ==> next.outcome is Cancelled
                &&& key == Key::Char('y') || key == Key::Char('Y') ==> next.outcome is Confirmed
                &&& key == Key::Enter && state.confirm_selected ==> next.outcome is Confirmed
                &&& key == Key::Enter && !state.confirm_selected ==> next.outcome is Cancelled
            }
        }),
{
}

/// The keys that end a pending dialogue without buttons. `q` and Esc cancel
/// it, and Enter confirms it where the list has an item; in an empty list
/// Enter does nothing.
pub proof fn lemma_plain_exits(state: ReviewState, key: Key, len: nat)
    ensures
        ({
            let next = state.after(key_intent(key, false), len, false);
            state.outcome is Pending ==> {
                &&& key == Key::Char('q') || key == Key::Esc ==> next.outcome is Cancelled
                &&& key == Key::Enter && len > 0 ==> next.outcome is Confirmed
                &&& key == Key::Enter && len == 0 ==> next == state
            }
        }),
{
}

/// The mathematical content of a [`SelectList`].
pub struct SelectListView<T> {
    pub items: Seq<T>,
    pub header: Seq<char>,
    pub buttons: Option<ConfirmButtonsView>,
    pub state: ReviewState,
}

impl<T> SelectListView<T> {
    pub open spec fn has_buttons(self) -> bool {
        self.buttons is Some
    }

    /// This dialogue after one input.
    pub open spec fn after(self, input: Input) -> SelectListView<T> {
        SelectListView {
            state: self.state.after(
                input_intent(input, self.has_buttons()),
                self.items.len(),
                self.has_buttons(),
            ),
            ..self
        }
    }

    /// This dialogue after a sequence of inputs.
    pub open spec fn after_all(self, inputs: Seq<Input>) -> SelectListView<T> {
        SelectListView {
            state: self.state.after_all(
                input_intents(inputs, self.has_buttons()),
                self.items.len(),
                self.has_buttons(),
            ),
            ..self
        }
    }
}

/// A list of items under a header, browsed with a cursor, with an optional
/// pair of buttons below it. Each item is shown as `display_fn` renders it.
pub struct SelectList<T, F: Fn(&T) -> String> {
    items: Vec<T>,
    header: String,
    display_fn: F,
    confirm: Option<ConfirmButtons>,
    state: ReviewState,
}

impl<T, F: Fn(&T) -> String> View for SelectList<T, F> {
    type V = SelectListView<T>;

    closed spec fn view(&self) -> SelectListView<T> {
        SelectListView {
            items: self.items@,
            header: self.header@,
            buttons: match self.confirm {
                Some(labels) => Some(labels@),
                None => None,
            },
            state: self.state,
        }
    }
}

impl<T, F: Fn(&T) -> String> SelectList<T, F> {
    #[verifier::type_invariant]
    spec fn inv(self) -> bool {
        &&& self.state.wf(self.items@.len())
        &&& forall|i: int|
            0 <= i < self.items@.len() ==> call_requires(self.display_fn, (&#[trigger] self.items@[i],))
    }

    /// The function that renders an item.
    pub closed spec fn display(&self) -> F {
        self.display_fn
    }

    /// A pending dialogue without buttons, with the cursor on the first item
    /// if there is one.
    pub fn new(items: Vec<T>, header: &str, display_fn: F) -> (list: Self)
        requires
            forall|i: int| 0 <= i < items@.len() ==> call_requires(display_fn, (&#[trigger] items@[i],)),
        ensures
            list@.items == items@,
            list@.header == header@,
            list@.buttons is None,
            list@.state == ReviewState::initial(items@.len()),
            list.display() == display_fn,
    {
        let state = ReviewState::new(items.len());
        SelectList { items, header: header.to_owned(), display_fn, confirm: None, state }
    }

    /// The same dialogue with a pair of buttons, the cancel button
    /// highlighted.
    pub fn with_confirm(self, confirm_label: &str, cancel_label: &str) -> (list: Self)
        ensures
            list@ == (SelectListView {
                buttons: Some(
                    ConfirmButtonsView { confirm_label: confirm_label@, cancel_label: cancel_label@ },
                ),
                state: ReviewState { confirm_selected: false, ..self@.state },
                ..self@
            }),
            list.display() == self.display(),
    {
        proof {
            use_type_invariant(&self);
        }
        let SelectList { items, header, display_fn, confirm: _, state } = self;
        SelectList {
            items,
            header,
            display_fn,
            confirm: Some(
                ConfirmButtons {
                    confirm_label: confirm_label.to_owned(),
                    cancel_label: cancel_label.to_owned(),
                },
            ),
            state: ReviewState { confirm_selected: false, ..state },
        }
    }

    /// The items, in their order.
    pub fn items(&self) -> (items: &[T])
        ensures
            items@ == self@.items,
    {
        self.items.as_slice()
    }

    /// Whether the dialogue has buttons.
    pub fn has_buttons(&self) -> (b: bool)
        ensures
            b == self@.has_buttons(),
    {
        self.confirm.is_some()
    }

    /// The cursor, the highlighted button and the outcome.
    pub fn state(&self) -> (state: ReviewState)
        ensures
            state == self@.state,
            state.wf(self@.items.len()),
    {
        proof {
            use_type_invariant(self);
        }
        self.state
    }

    /// How the dialogue ended, if it has ended.
    pub fn result(&self) -> (result: Option<SelectResult>)
        ensures
            result == result_of(self@.state.outcome),
    {
        outcome_result(self.state.outcome)
    }

    /// Takes one input and says how the dialogue ended, if it ended.
    ///
    /// Only the review state changes, as [`ReviewState::after`] says for the
    /// intent of the input; the cursor stays within the list.
    pub fn handle(&mut self, input: Input) -> (result: Option<SelectResult>)
        ensures
            final(self)@ == old(self)@.after(input),
            final(self).display() == old(self).display(),
            final(self)@.state.wf(final(self)@.items.len()),
            result == result_of(final(self)@.state.outcome),
    {
        proof {
            use_type_invariant(&*self);
        }
        let has_buttons = self.confirm.is_some();
        let intent = intent_of(input, has_buttons);
        let mut state = self.state;
        state.apply(intent, self.items.len(), has_buttons);
        self.state = state;
        outcome_result(state.outcome)
    }

    /// Takes inputs in turn until the dialogue ends or the inputs do, and
    /// says how the dialogue ended, if it ended. Inputs behind the one that
    /// ends the dialogue are not looked at.
    pub fn run(&mut self, inputs: &Vec<Input>) -> (result: Option<SelectResult>)
        ensures
            final(self)@ == old(self)@.after_all(inputs@),
            final(self).display() == old(self).display(),
            final(self)@.state.wf(final(self)@.items.len()),
            result == result_of(final(self)@.state.outcome),
    {
        let ghost start = self@;
        let mut i: usize = 0;
        while i < inputs.len() && !self.state.is_over()
            invariant
                i <= inputs.len(),
                self@ == start.after_all(inputs@.take(i as int)),
                self.display() == old(self).display(),
            decreases inputs.len() - i,
        {
            let _ = self.handle(inputs[i]);
            proof {
                let all = input_intents(inputs@, start.has_buttons());
                assert(input_intents(inputs@.take(i as int), start.has_buttons()) =~= all.take(
                    i as int,
                ));
                assert(input_intents(inputs@.take(i + 1), start.has_buttons()) =~= all.take(i + 1));
                assert(all.take(i + 1).drop_last() =~= all.take(i as int));
            }
            i += 1;
        }
        proof {
            use_type_invariant(&*self);
            if i < inputs.len() {
                let all = input_intents(inputs@, start.has_buttons());
                assert(input_intents(inputs@.take(i as int), start.has_buttons()) =~= all.take(
                    i as int,
                ));
                lemma_after_all_stops(
                    start.state,
                    all,
                    i as int,
                    start.items.len(),
                    start.has_buttons(),
                );
            } else {
                assert(inputs@.take(i as int) =~= inputs@);
            }
        }
        outcome_result(self.state.outcome)
    }

    /// What the dialogue shows now: the header, no body, one row for each
    /// item as the display function renders it, the cursor, the buttons where
    /// there are any, and the hint that fits.
    pub fn frame(&self) -> (frame: Frame)
        ensures
            frame@.header == self@.header,
            frame@.body.len() == 0,
            frame.rows@.len() == self@.items.len(),
            forall|i: int|
                0 <= i < self@.items.len() ==> call_ensures(
                    self.display(),
                    (&#[trigger] self@.items[i],),
                    frame.rows@[i],
                ),
            frame@.cursor == self@.state.cursor,
            frame@.buttons == button_row(self@.buttons, self@.state.confirm_selected),
            frame@.hint == hint_text(self@.has_buttons()),
    {
        proof {
            use_type_invariant(self);
        }
        let mut rows: Vec<String> = Vec::new();
        let mut i: usize = 0;
        while i < self.items.len()
            invariant
                i <= self.items.len(),
                rows@.len() == i,
                forall|j: int|
                    0 <= j < self.items@.len() ==> call_requires(
                        self.display_fn,
                        (&#[trigger] self.items@[j],),
                    ),
                forall|j: int|
                    0 <= j < i ==> call_ensures(
                        self.display_fn,
                        (&#[trigger] self.items@[j],),
                        rows@[j],
                    ),
            decreases self.items.len() - i,
        {
            let row = (self.display_fn)(&self.items[i]);
            rows.push(row);
            i += 1;
        }
        let buttons = match &self.confirm {
            Some(labels) => Some(
                ButtonRow {
                    confirm_label: labels.confirm_label.clone(),
                    cancel_label: labels.cancel_label.clone(),
                    confirm_selected: self.state.confirm_selected,
                },
            ),
            None => None,
        };
        let hint = if self.confirm.is_some() {
            BUTTONS_HINT
        } else {
            BROWSE_HINT
        };
        Frame {
            header: self.header.clone(),
            body: Vec::new(),
            rows,
            cursor: self.state.cursor,
            buttons,
            hint: hint.to_owned(),
        }
    }
}

} // verus!
