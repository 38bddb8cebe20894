//! The terminal dialogues: what they show and what keys do to them.

pub mod input;
pub mod review;
pub mod frame;
pub mod select_list;
pub mod confirm;
pub mod session;

use vstd::prelude::*;
use crate::terminal::frame::Frame;
use crate::terminal::input::{Input, Key};
use crate::terminal::review::{lemma_after_all_stops, Intent, Outcome, ReviewState};
use crate::text::copy_lines;

verus! {

/// The hint under the viewer.
pub const VIEWER_HINT: &'static str = "[s/Enter] Save  [q/Esc] Quit";

/// What a key means in the viewer.
pub open spec fn viewer_key_intent(key: Key) -> Intent {
    match key {
        Key::Down => Intent::Down,
        Key::Up => Intent::Up,
        Key::Home => Intent::First,
        Key::End => Intent::Last,
        Key::Enter => Intent::Accept,
        Key::Esc => Intent::Cancel,
        Key::Char(c) => if c == 'j' {
            Intent::Down
        } else if c == 'k' {
            Intent::Up
        } else if c == 'g' {
            Intent::First
        } else if c == 'G' {
            Intent::Last
        } else if c == 's' {
            Intent::Accept
        } else if c == 'q' {
            Intent::Cancel
        } else {
            Intent::Ignore
        },
        _ => Intent::Ignore,
    }
}

/// What an input means in the viewer: only a key that goes down means
/// anything.
pub open spec fn viewer_intent(input: Input) -> Intent {
    match input.pressed() {
        Some(key) => viewer_key_intent(key),
        None => Intent::Ignore,
    }
}

/// What each input of a sequence means in the viewer.
pub open spec fn viewer_intents(inputs: Seq<Input>) -> Seq<Intent> {
    inputs.map_values(|input: Input| viewer_intent(input))
}

/// The intent of an input in the viewer.
pub fn viewer_intent_of(input: Input) -> (intent: Intent)
    ensures
        intent == viewer_intent(input),
{
    let key = match input.pressed_key() {
        Some(key) => key,
        None => {
            return Intent::Ignore;
        },
    };
    match key {
        Key::Down => Intent::Down,
        Key::Up => Intent::Up,
        Key::Home => Intent::First,
        Key::End => Intent::Last,
        Key::Enter => Intent::Accept,
        Key::Esc => Intent::Cancel,
        Key::Char(c) => if c == 'j' {
            Intent::Down
        } else if c == 'k' {
            Intent::Up
        } else if c == 'g' {
            Intent::First
        } else if c == 'G' {
            Intent::Last
        } else if c == 's' {
            Intent::Accept
        } else if c == 'q' {
            Intent::Cancel
        } else {
            Intent::Ignore
        },
        _ => Intent::Ignore,
    }
}

/// What the viewer hands back when it is left.
#[derive(Debug, PartialEq, Eq)]
pub struct TerminalResult {
    /// Whether the list was confirmed.
    pub confirmed: bool,
    pub items: Vec<String>,
}

/// The mathematical content of a [`Terminal`].
pub struct TerminalView {
    pub items: Seq<Seq<char>>,
    pub title: Seq<char>,
    pub state: ReviewState,
}

impl TerminalView {
    /// This viewer after one input: a list dialogue without buttons takes
    /// the intent of the input.
    pub open spec fn after(self, input: Input) -> TerminalView {
        TerminalView {
            state: self.state.after(viewer_intent(input), self.items.len(), false),
            ..self
        }
    }

    /// This viewer after a sequence of inputs.
    pub open spec fn after_all(self, inputs: Seq<Input>) -> TerminalView {
        TerminalView {
            state: self.state.after_all(viewer_intents(inputs), self.items.len(), false),
            ..self
        }
    }
}

/// A viewer of a list of lines under a title: the list is browsed with the
/// cursor and then saved or left.
pub struct Terminal {
    items: Vec<String>,
    title: String,
    state: ReviewState,
}

impl View for Terminal {
    type V = TerminalView;

    closed spec fn view(&self) -> TerminalView {
        TerminalView { items: self.items.deep_view(), title: self.title@, state: self.state }
    }
}

impl Terminal {
    #[verifier::type_invariant]
    spec fn inv(self) -> bool {
        self.state.wf(self.items@.len())
    }

    /// A pending viewer with the cursor on the first line, if there is one.
    pub fn new_inline(items: Vec<String>, title: &str) -> (terminal: Self)
        ensures
            terminal@.items == items.deep_view(),
            terminal@.title == title@,
            terminal@.state == ReviewState::initial(items@.len()),
    {
        let state = ReviewState::new(items.len());
        Terminal { items, title: title.to_owned(), state }
    }

    /// The cursor and the outcome.
    pub fn state(&self) -> (state: ReviewState)
        ensures
            state == self@.state,
            state.wf(self@.items.len()),
    {
        proof {
            use_type_invariant(self);
        }
        self.state
    }

    /// Takes one input. Only the review state changes, and the cursor stays
    /// within the list.
    pub fn handle_event(&mut self, input: Input)
        ensures
            final(self)@ == old(self)@.after(input),
            final(self)@.state.wf(final(self)@.items.len()),
    {
        proof {
            use_type_invariant(&*self);
        }
        let mut state = self.state;
        state.apply(viewer_intent_of(input), self.items.len(), false);
        self.state = state;
    }

    /// What the viewer shows now: the title, one row for each line, the
    /// cursor and the hint.
    pub fn render(&self) -> (frame: Frame)
        ensures
            frame@.header == self@.title,
            frame@.body.len() == 0,
            frame@.rows == self@.items,
            frame@.cursor == self@.state.cursor,
            frame@.buttons is None,
            frame@.hint == VIEWER_HINT@,
    {
        let rows = copy_lines(&self.items);
        proof {
            assert(rows.deep_view() =~= self.items.deep_view());
        }
        Frame {
            header: self.title.clone(),
            body: Vec::new(),
            rows,
            cursor: self.state.cursor,
            buttons: None,
            hint: VIEWER_HINT.to_owned(),
        }
    }

    /// Takes inputs in turn until the viewer is left or the inputs end.
    /// Where it was left, the result says whether the list was confirmed and
    /// hands the lines back as they were; where the inputs ended first, there
    /// is no result. Inputs behind the one that leaves the viewer are not
    /// looked at.
    pub fn run(self, inputs: &Vec<Input>) -> (result: Option<TerminalResult>)
        ensures
            match result {
                Some(left) => {
                    &&& !(self@.after_all(inputs@).state.outcome is Pending)
                    &&& left.confirmed == (self@.after_all(inputs@).state.outcome is Confirmed)
                    &&& left.items.deep_view() == self@.items
                },
                None => self@.after_all(inputs@).state.outcome is Pending,
            },
    {
        let ghost start = self@;
        let ghost all = viewer_intents(inputs@);
        let mut terminal = self;
        let mut i: usize = 0;
        while i < inputs.len() && !terminal.state.is_over()
            invariant
                i <= inputs.len(),
                all == viewer_intents(inputs@),
                terminal@ == start.after_all(inputs@.take(i as int)),
            decreases inputs.len() - i,
        {
            terminal.handle_event(inputs[i]);
            proof {
                assert(viewer_intents(inputs@.take(i as int)) =~= all.take(i as int));
                assert(viewer_intents(inputs@.take(i + 1)) =~= all.take(i + 1));
                assert(all.take(i + 1).drop_last() =~= all.take(i as int));
            }
            i += 1;
        }
        proof {
            if i < inputs.len() {
                assert(viewer_intents(inputs@.take(i as int)) =~= all.take(i as int));
                lemma_after_all_stops(start.state, all, i as int, start.items.len(), false);
            } else {
                assert(inputs@.take(i as int) =~= inputs@);
            }
        }
        let Terminal { items, title: _, state } = terminal;
        match state.outcome {
            Outcome::Pending => None,
            Outcome::Confirmed => Some(
                TerminalResult { confirmed: true, items },
            ),
            Outcome::Cancelled => Some(
                TerminalResult { confirmed: false, items },
            ),
        }
    }
}

} // verus!
