//! The order in which a dialogue is driven on a terminal.
//!
//! Whoever owns the terminal draws a frame, waits for input, hands the input
//! to the dialogue, and restores the terminal at the end. A [`Session`] says
//! which of these is due. Any failure ends the session, and the terminal is
//! restored exactly once on every way out.

use vstd::prelude::*;
use crate::terminal::review::Outcome;

verus! {

/// What is due next.
#[derive(Clone, Copy, Debug, PartialEq, Eq)]
pub enum Phase {
    /// Draw the frame of the dialogue.
    Draw,
    /// Wait a bounded time for input and hand it to the dialogue.
    Poll,
    /// Restore the terminal.
    Restore,
    /// Nothing: the session is over.
    Done,
}

/// How the step that was due went.
#[derive(Clone, Copy, Debug, PartialEq, Eq)]
pub struct Report {
    /// Whether the step succeeded.
    pub ok: bool,
    /// The outcome of the dialogue after the step.
    pub outcome: Outcome,
}

/// A session on an acquired terminal.
#[derive(Clone, Copy, Debug, PartialEq, Eq)]
pub struct Session {
    pub phase: Phase,
    /// Whether a step has failed.
    pub failed: bool,
}

impl Session {
    /// The session before its first frame.
    pub open spec fn start() -> Session {
        Session { phase: Phase::Draw, failed: false }
    }

    /// The session after the step that was due has been reported.
    ///
    /// A frame that was drawn is followed by a wait for input. Input that
    /// leaves the dialogue pending is followed by the next frame; input that
    /// ends it, or a failure to draw or to poll, by the restoring of the
    /// terminal. Restoring is not tried again, whether it worked or not.
    pub open spec fn after(self, report: Report) -> Session {
        match self.phase {
            Phase::Draw => if report.ok {
                Session { phase: Phase::Poll, ..self }
            } else {
                Session { phase: Phase::Restore, failed: true }
            },
            Phase::Poll => if !report.ok {
                Session { phase: Phase::Restore, failed: true }
            } else if report.outcome is Pending {
                Session { phase: Phase::Draw, ..self }
            } else {
                Session { phase: Phase::Restore, ..self }
            },
            Phase::Restore => Session { phase: Phase::Done, failed: self.failed || !report.ok },
            Phase::Done => self,
        }
    }

    /// The session after a sequence of reports.
    pub open spec fn after_all(self, reports: Seq<Report>) -> Session
        decreases reports.len(),
    {
        if reports.len() == 0 {
            self
        } else {
            self.after_all(reports.drop_last()).after(reports.last())
        }
    }

    /// How often a step of the given phase was due, and so was carried out,
    /// while the reports came in.
    pub open spec fn times_due(self, phase: Phase, reports: Seq<Report>) -> nat
        decreases reports.len(),
    {
        if reports.len() == 0 {
            0
        } else {
            let before = self.times_due(phase, reports.drop_last());
            if self.after_all(reports.drop_last()).phase == phase {
                before + 1
            } else {
                before
            }
        }
    }

    /// A session that is about to draw its first frame.
    pub fn new() -> (session: Session)
        ensures
            session == Session::start(),
    {
        Session { phase: Phase::Draw, failed: false }
    }

    /// Whether the session is over.
    pub fn is_done(&self) -> (done: bool)
        ensures
            done == (self.phase is Done),
    {
        match self.phase {
            Phase::Done => true,
            _ => false,
        }
    }

    /// Takes the report on the step that was due and moves on to the next.
    ///
    /// A step that fails while the dialogue runs leads straight to the
    /// restoring of the terminal, and so does the input that ends the
    /// dialogue: no frame is drawn after it.
    pub fn advance(&mut self, report: Report)
        ensures
            *final(self) == old(self).after(report),
            (old(self).phase is Draw || old(self).phase is Poll) && !report.ok
                ==> final(self).phase is Restore && final(self).failed,
            old(self).phase is Poll && report.ok && !(report.outcome is Pending)
                ==> final(self).phase is Restore,
            old(self).phase is Restore ==> final(self).phase is Done,
    {
        match self.phase {
            Phase::Draw => {
                if report.ok {
                    self.phase = Phase::Poll;
                } else {
                    self.phase = Phase::Restore;
                    self.failed = true;
                }
            },
            Phase::Poll => {
                if !report.ok {
                    self.phase = Phase::Restore;
                    self.failed = true;
                } else {
                    match report.outcome {
                        Outcome::Pending => {
                            self.phase = Phase::Draw;
                        },
                        _ => {
                            self.phase = Phase::Restore;
                        },
                    }
                }
            },
            Phase::Restore => {
                self.phase = Phase::Done;
                if !report.ok {
                    self.failed = true;
                }
            },
            Phase::Done => {},
        }
    }
}

/// The terminal is restored exactly once in a session, however the session
/// goes: whatever is reported, and whichever steps fail, restoring has been
/// carried out once if the session is over and not at all before that.
pub proof fn lemma_restored_exactly_once(reports: Seq<Report>)
    ensures
        Session::start().times_due(Phase::Restore, reports) == (if Session::start().after_all(
            reports,
        ).phase is Done {
            1nat
        } else {
            0nat
        }),
    decreases reports.len(),
{
    if reports.len() > 0 {
        lemma_restored_exactly_once(reports.drop_last());
    }
}

/// Once the dialogue has ended or a step has failed, nothing is drawn and no
/// input is awaited: a session that is restoring or over never goes back.
pub proof fn lemma_no_frame_after_the_end(session: Session, reports: Seq<Report>)
    requires
        session.phase is Restore || session.phase is Done,
    ensures
        session.after_all(reports).phase is Restore || session.after_all(reports).phase is Done,
        session.times_due(Phase::Draw, reports) == 0,
        session.times_due(Phase::Poll, reports) == 0,
    decreases reports.len(),
{
    if reports.len() > 0 {
        lemma_no_frame_after_the_end(session, reports.drop_last());
    }
}

/// A failed step is remembered to the end of the session.
pub proof fn lemma_failure_is_kept(session: Session, reports: Seq<Report>)
    requires
        session.failed,
    ensures
        session.after_all(reports).failed,
    decreases reports.len(),
{
    if reports.len() > 0 {
        lemma_failure_is_kept(session, reports.drop_last());
    }
}

} // verus!
