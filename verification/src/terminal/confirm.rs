//! A yes-or-no question: the list dialogue with no list.

use vstd::prelude::*;
use crate::terminal::frame::{ButtonRow, ButtonRowView, Frame};
use crate::terminal::input::Input;
use crate::terminal::review::{lemma_after_all_stops, Outcome, ReviewState};
use crate::terminal::select_list::{input_intent, input_intents, intent_of};
use crate::text::copy_lines;

verus! {

/// The label of the button that confirms.
pub const YES_LABEL: &'static str = "Yes, confirm";

/// The label of the button that cancels.
pub const NO_LABEL: &'static str = "No, cancel";

/// The hint beside the buttons.
pub const PROMPT_HINT: &'static str = "  (←→ select, Enter confirm)";

/// The answer that a review with this outcome gave, if it has ended.
pub open spec fn answer_of(outcome: Outcome) -> Option<bool> {
    match outcome {
        Outcome::Pending => None,
        Outcome::Confirmed => Some(true),
        Outcome::Cancelled => Some(false),
    }
}

/// The answer that a review with this outcome gave, if it has ended.
pub fn outcome_answer(outcome: Outcome) -> (answer: Option<bool>)
    ensures
        answer == answer_of(outcome),
{
    match outcome {
        Outcome::Pending => None,
        Outcome::Confirmed => Some(true),
        Outcome::Cancelled => Some(false),
    }
}

/// The mathematical content of a [`ConfirmPrompt`].
pub struct ConfirmPromptView {
    pub header: Seq<char>,
    pub lines: Seq<Seq<char>>,
    pub state: ReviewState,
}

impl ConfirmPromptView {
    /// This prompt after one input: a list dialogue with buttons and no
    /// items takes the input.
    pub open spec fn after(self, input: Input) -> ConfirmPromptView {
        ConfirmPromptView { state: self.state.after(input_intent(input, true), 0, true), ..self }
    }

    /// This prompt after a sequence of inputs.
    pub open spec fn after_all(self, inputs: Seq<Input>) -> ConfirmPromptView {
        ConfirmPromptView {
            state: self.state.after_all(input_intents(inputs, true), 0, true),
            ..self
        }
    }
}

/// A question under a header, with some lines of text and the two buttons
/// "yes" and "no". It starts with "no" highlighted.
pub struct ConfirmPrompt {
    header: String,
    lines: Vec<String>,
    state: ReviewState,
}

impl View for ConfirmPrompt {
    type V = ConfirmPromptView;

    closed spec fn view(&self) -> ConfirmPromptView {
        ConfirmPromptView {
            header: self.header@,
            lines: self.lines.deep_view(),
            state: self.state,
        }
    }
}

impl ConfirmPrompt {
    #[verifier::type_invariant]
    spec fn inv(self) -> bool {
        self.state.wf(0)
    }

    /// A pending prompt.
    pub fn new(header: &str, lines: Vec<String>) -> (prompt: Self)
        ensures
            prompt@.header == header@,
            prompt@.lines == lines.deep_view(),
            prompt@.state == ReviewState::initial(0),
    {
        ConfirmPrompt { header: header.to_owned(), lines, state: ReviewState::new(0) }
    }

    /// The highlighted button and the outcome; there is no cursor.
    pub fn state(&self) -> (state: ReviewState)
        ensures
            state == self@.state,
            state.cursor is None,
    {
        proof {
            use_type_invariant(self);
        }
        self.state
    }

    /// Takes one input and gives the answer, if the input gave one.
    pub fn handle(&mut self, input: Input) -> (answer: Option<bool>)
        ensures
            final(self)@ == old(self)@.after(input),
            answer == answer_of(final(self)@.state.outcome),
    {
        proof {
            use_type_invariant(&*self);
        }
        let mut state = self.state;
        state.apply(intent_of(input, true), 0, true);
        self.state = state;
        outcome_answer(state.outcome)
    }

    /// Takes inputs in turn until one gives the answer or the inputs end, and
    /// gives the answer, if there is one. Inputs behind the answer are not
    /// looked at.
    pub fn run(&mut self, inputs: &Vec<Input>) -> (answer: Option<bool>)
        ensures
            final(self)@ == old(self)@.after_all(inputs@),
            answer == answer_of(final(self)@.state.outcome),
    {
        let ghost start = self@;
        let ghost all = input_intents(inputs@, true);
        let mut i: usize = 0;
        while i < inputs.len() && !self.state.is_over()
            invariant
                i <= inputs.len(),
                all == input_intents(inputs@, true),
                self@ == start.after_all(inputs@.take(i as int)),
            decreases inputs.len() - i,
        {
            let _ = self.handle(inputs[i]);
            proof {
                assert(input_intents(inputs@.take(i as int), true) =~= all.take(i as int));
                assert(input_intents(inputs@.take(i + 1), true) =~= all.take(i + 1));
                assert(all.take(i + 1).drop_last() =~= all.take(i as int));
            }
            i += 1;
        }
        proof {
            if i < inputs.len() {
                assert(input_intents(inputs@.take(i as int), true) =~= all.take(i as int));
                lemma_after_all_stops(start.state, all, i as int, 0, true);
            } else {
                assert(inputs@.take(i as int) =~= inputs@);
            }
        }
        outcome_answer(self.state.outcome)
    }

    /// What the prompt shows now: the header, the lines as the body, no list,
    /// the two buttons and the hint.
    pub fn frame(&self) -> (frame: Frame)
        ensures
            frame@.header == self@.header,
            frame@.body == self@.lines,
            frame@.rows.len() == 0,
            frame@.cursor is None,
            frame@.buttons == Some(
                ButtonRowView {
                    confirm_label: YES_LABEL@,
                    cancel_label: NO_LABEL@,
                    confirm_selected: self@.state.confirm_selected,
                },
            ),
            frame@.hint == PROMPT_HINT@,
    {
        let body = copy_lines(&self.lines);
        proof {
            assert(body.deep_view() =~= self.lines.deep_view());
        }
        Frame {
            header: self.header.clone(),
            body,
            rows: Vec::new(),
            cursor: None,
            buttons: Some(
                ButtonRow {
                    confirm_label: YES_LABEL.to_owned(),
                    cancel_label: NO_LABEL.to_owned(),
                    confirm_selected: self.state.confirm_selected,
                },
            ),
            hint: PROMPT_HINT.to_owned(),
        }
    }
}

} // verus!
