//! The state of a review and what each intent does to it.
//!
//! A review browses a list of `len` rows with a cursor and, where the
//! dialogue has buttons, a choice between confirm and cancel. It is pending
//! until an intent ends it; once ended, nothing changes it.

use vstd::prelude::*;

verus! {

/// How far a review has come.
#[derive(Clone, Copy, Debug, PartialEq, Eq)]
pub enum Outcome {
    Pending,
    Confirmed,
    Cancelled,
}

/// What a key asks of a review.
#[derive(Clone, Copy, Debug, PartialEq, Eq)]
pub enum Intent {
    /// Move the cursor one row up.
    Up,
    /// Move the cursor one row down.
    Down,
    /// Move the cursor to the first row.
    First,
    /// Move the cursor to the last row.
    Last,
    /// Highlight the confirm button.
    ChooseConfirm,
    /// Highlight the cancel button.
    ChooseCancel,
    /// Highlight the other button.
    Toggle,
    /// End the review as the highlighted button says.
    Accept,
    /// End the review as confirmed, whatever is highlighted.
    Confirm,
    /// End the review as cancelled, whatever is highlighted.
    Cancel,
    /// Nothing.
    Ignore,
}

/// The state of a review.
#[derive(Clone, Copy, Debug, PartialEq, Eq)]
pub struct ReviewState {
    /// The row under the cursor; `None` where the list is empty.
    pub cursor: Option<usize>,
    /// Whether the confirm button is the highlighted one.
    pub confirm_selected: bool,
    pub outcome: Outcome,
}

/// The cursor after a move over a list of `len` rows. The cursor stops at
/// both ends, and no move gives an empty list a cursor.
pub open spec fn moved(cursor: Option<usize>, intent: Intent, len: nat) -> Option<usize> {
    let at: nat = match cursor {
        Some(i) => i as nat,
        None => 0,
    };
    match intent {
        Intent::Up => if at > 0 {
            Some((at - 1) as usize)
        } else {
            cursor
        },
        Intent::Down => if at + 1 < len {
            Some((at + 1) as usize)
        } else {
            cursor
        },
        Intent::First => if len > 0 {
            Some(0)
        } else {
            cursor
        },
        Intent::Last => if len > 0 {
            Some((len - 1) as usize)
        } else {
            cursor
        },
        _ => cursor,
    }
}

/// The button that is highlighted after an intent.
pub open spec fn chosen(confirm_selected: bool, intent: Intent) -> bool {
    match intent {
        Intent::ChooseConfirm => true,
        Intent::ChooseCancel => false,
        Intent::Toggle => !confirm_selected,
        _ => confirm_selected,
    }
}

/// How an intent ends a pending review, or `Pending` where it does not.
/// Without buttons there is nothing to accept in an empty list.
pub open spec fn decided(confirm_selected: bool, intent: Intent, len: nat, has_buttons: bool) -> Outcome {
    match intent {
        Intent::Cancel => Outcome::Cancelled,
        Intent::Confirm => Outcome::Confirmed,
        Intent::Accept => if has_buttons {
            if confirm_selected {
                Outcome::Confirmed
            } else {
                Outcome::Cancelled
            }
        } else if len > 0 {
            Outcome::Confirmed
        } else {
            Outcome::Pending
        },
        _ => Outcome::Pending,
    }
}

impl ReviewState {
    /// The cursor points into a list of `len` rows, or the list is empty and
    /// there is no cursor.
    pub open spec fn wf(self, len: nat) -> bool {
        match self.cursor {
            Some(i) => i < len,
            None => len == 0,
        }
    }

    /// The state in which every review starts.
    pub open spec fn initial(len: nat) -> ReviewState {
        ReviewState {
            cursor: if len > 0 {
                Some(0)
            } else {
                None
            },
            confirm_selected: false,
            outcome: Outcome::Pending,
        }
    }

    /// The state after an intent.
    pub open spec fn after(self, intent: Intent, len: nat, has_buttons: bool) -> ReviewState {
        if self.outcome is Pending {
            ReviewState {
                cursor: moved(self.cursor, intent, len),
                confirm_selected: chosen(self.confirm_selected, intent),
                outcome: decided(self.confirm_selected, intent, len, has_buttons),
            }
        } else {
            self
        }
    }

    /// The state after a sequence of intents, carried out in turn.
    pub open spec fn after_all(self, intents: Seq<Intent>, len: nat, has_buttons: bool) -> ReviewState
        decreases intents.len(),
    {
        if intents.len() == 0 {
            self
        } else {
            self.after_all(intents.drop_last(), len, has_buttons).after(
                intents.last(),
                len,
                has_buttons,
            )
        }
    }

    /// A pending review with the cursor on the first row, if there is one,
    /// and the cancel button highlighted.
    pub fn new(len: usize) -> (state: ReviewState)
        ensures
            state == ReviewState::initial(len as nat),
            state.wf(len as nat),
    {
        ReviewState {
            cursor: if len > 0 {
                Some(0)
            } else {
                None
            },
            confirm_selected: false,
            outcome: Outcome::Pending,
        }
    }

    /// Whether the review has ended.
    pub fn is_over(&self) -> (over: bool)
        ensures
            over == !(self.outcome is Pending),
    {
        match self.outcome {
            Outcome::Pending => false,
            _ => true,
        }
    }

    /// Carries out one intent on a list of `len` rows.
    ///
    /// The cursor never leaves the list: a state that fits the list still fits
    /// it afterwards, the jumps land on the first and on the last row, and an
    /// empty list keeps its missing cursor. `Cancel` and `Confirm` end a
    /// pending review whatever button is highlighted, `Accept` ends it as the
    /// highlighted button says.
    pub fn apply(&mut self, intent: Intent, len: usize, has_buttons: bool)
        ensures
            *final(self) == old(self).after(intent, len as nat, has_buttons),
            old(self).wf(len as nat) ==> final(self).wf(len as nat),
            old(self).outcome is Pending && len > 0 && intent is First ==> final(self).cursor
                == Some(0usize),
            old(self).outcome is Pending && len > 0 && intent is Last ==> final(self).cursor
                == Some((len - 1) as usize),
            old(self).outcome is Pending && intent is Cancel ==> final(self).outcome is Cancelled,
            old(self).outcome is Pending && intent is Confirm ==> final(self).outcome is Confirmed,
            old(self).outcome is Pending && intent is Accept && has_buttons ==> (
            final(self).outcome is Confirmed <==> old(self).confirm_selected) && (
            final(self).outcome is Cancelled <==> !old(self).confirm_selected),
            !(old(self).outcome is Pending) ==> *final(self) == *old(self),
    {
        if self.is_over() {
            return ;
        }
        let at: usize = match self.cursor {
            Some(i) => i,
            None => 0,
        };
        match intent {
            Intent::Up => {
                if at > 0 {
                    self.cursor = Some(at - 1);
                }
            },
            Intent::Down => {
                if len > 0 && at < len - 1 {
                    self.cursor = Some(at + 1);
                }
            },
            Intent::First => {
                if len > 0 {
                    self.cursor = Some(0);
                }
            },
            Intent::Last => {
                if len > 0 {
                    self.cursor = Some(len - 1);
                }
            },
            Intent::ChooseConfirm => {
                self.confirm_selected = true;
            },
            Intent::ChooseCancel => {
                self.confirm_selected = false;
            },
            Intent::Toggle => {
                self.confirm_selected = !self.confirm_selected;
            },
            Intent::Accept => {
                if has_buttons {
                    if self.confirm_selected {
                        self.outcome = Outcome::Confirmed;
                    } else {
                        self.outcome = Outcome::Cancelled;
                    }
                } else if len > 0 {
                    self.outcome = Outcome::Confirmed;
                }
            },
            Intent::Confirm => {
                self.outcome = Outcome::Confirmed;
            },
            Intent::Cancel => {
                self.outcome = Outcome::Cancelled;
            },
            Intent::Ignore => {},
        }
    }
}

/// A review that has ended stays as it is, whatever is asked of it.
pub proof fn lemma_ended_stays(state: ReviewState, intents: Seq<Intent>, len: nat, has_buttons: bool)
    requires
        !(state.outcome is Pending),
    ensures
        state.after_all(intents, len, has_buttons) == state,
    decreases intents.len(),
{
    if intents.len() > 0 {
        lemma_ended_stays(state, intents.drop_last(), len, has_buttons);
    }
}

/// What follows the end of a review does not count: where the review has
/// ended after the first `n` intents, the rest changes nothing.
pub proof fn lemma_after_all_stops(
    state: ReviewState,
    intents: Seq<Intent>,
    n: int,
    len: nat,
    has_buttons: bool,
)
    requires
        0 <= n <= intents.len(),
        !(state.after_all(intents.take(n), len, has_buttons).outcome is Pending),
    ensures
        state.after_all(intents, len, has_buttons) == state.after_all(
            intents.take(n),
            len,
            has_buttons,
        ),
    decreases intents.len() - n,
{
    if n < intents.len() {
        assert(intents.take(n + 1).drop_last() =~= intents.take(n));
        lemma_after_all_stops(state, intents, n + 1, len, has_buttons);
    } else {
        assert(intents.take(n) =~= intents);
    }
}

/// However many intents are carried out, the cursor stays within the list:
/// on a row of it, or absent where the list is empty.
pub proof fn lemma_cursor_stays_in_list(
    state: ReviewState,
    intents: Seq<Intent>,
    len: nat,
    has_buttons: bool,
)
    requires
        state.wf(len),
    ensures
        state.after_all(intents, len, has_buttons).wf(len),
    decreases intents.len(),
{
    if intents.len() > 0 {
        lemma_cursor_stays_in_list(state, intents.drop_last(), len, has_buttons);
    }
}

} // verus!
