use histrank::terminal::input::{Input, Key};
use histrank::terminal::review::Outcome;
use histrank::terminal::select_list::{SelectList, SelectResult};
use histrank::terminal::session::{Phase, Report, Session};

fn ok(outcome: Outcome) -> Report {
    Report { ok: true, outcome }
}

fn failed() -> Report {
    Report { ok: false, outcome: Outcome::Pending }
}

/// Drives a session to its end and counts how often each step was carried
/// out: every draw from the `fail_on_draw`-th on fails, and each wait brings
/// the next of `inputs`, or nothing once they are used up.
fn drive(inputs: &[Input], fail_on_draw: usize) -> (usize, usize, usize, Session, Option<SelectResult>) {
    let mut list = SelectList::new(vec![1u8, 2, 3], "Pick", |n: &u8| n.to_string())
        .with_confirm("Save", "Cancel");
    let mut session = Session::new();
    let mut draws: usize = 0;
    let mut polls: usize = 0;
    let mut restores: usize = 0;
    let mut steps: usize = 0;
    while !session.is_done() {
        steps += 1;
        assert!(steps < 1000);
        match session.phase {
            Phase::Draw => {
                draws += 1;
                let _ = list.frame();
                if draws >= fail_on_draw {
                    session.advance(failed());
                } else {
                    session.advance(ok(list.state().outcome));
                }
            }
            Phase::Poll => {
                polls += 1;
                let input = if polls <= inputs.len() { inputs[polls - 1] } else { Input::Idle };
                list.handle(input);
                session.advance(ok(list.state().outcome));
            }
            Phase::Restore => {
                restores += 1;
                session.advance(ok(list.state().outcome));
            }
            Phase::Done => unreachable!(),
        }
    }
    (draws, polls, restores, session, list.result())
}

#[test]
fn a_session_starts_by_drawing() {
    assert_eq!(Session::new(), Session { phase: Phase::Draw, failed: false });
    assert!(!Session::new().is_done());
}

#[test]
fn a_session_draws_and_polls_in_turn() {
    let mut session = Session::new();
    session.advance(ok(Outcome::Pending));
    assert_eq!(session.phase, Phase::Poll);
    session.advance(ok(Outcome::Pending));
    assert_eq!(session.phase, Phase::Draw);
    session.advance(ok(Outcome::Pending));
    assert_eq!(session.phase, Phase::Poll);
    session.advance(ok(Outcome::Cancelled));
    assert_eq!(session.phase, Phase::Restore);
    session.advance(ok(Outcome::Cancelled));
    assert_eq!(session, Session { phase: Phase::Done, failed: false });
    session.advance(failed());
    assert_eq!(session, Session { phase: Phase::Done, failed: false });
}

#[test]
fn a_failed_wait_for_input_leads_to_the_restoring() {
    let mut session = Session::new();
    session.advance(ok(Outcome::Pending));
    session.advance(failed());
    assert_eq!(session, Session { phase: Phase::Restore, failed: true });
    session.advance(ok(Outcome::Pending));
    assert_eq!(session, Session { phase: Phase::Done, failed: true });
}

#[test]
fn a_failed_restoring_is_not_tried_again() {
    let mut session = Session::new();
    session.advance(ok(Outcome::Pending));
    session.advance(ok(Outcome::Confirmed));
    assert_eq!(session, Session { phase: Phase::Restore, failed: false });
    session.advance(failed());
    assert_eq!(session, Session { phase: Phase::Done, failed: true });
}

#[test]
fn the_terminal_is_restored_once_when_the_third_draw_fails() {
    let inputs = [Input::Idle, Input::press(Key::Down), Input::press(Key::Enter)];
    let (draws, polls, restores, session, result) = drive(&inputs, 3);
    assert_eq!(draws, 3);
    assert_eq!(polls, 2);
    assert_eq!(restores, 1);
    assert_eq!(session, Session { phase: Phase::Done, failed: true });
    assert_eq!(result, None);
}

#[test]
fn the_terminal_is_restored_once_when_the_first_draw_fails() {
    let (draws, polls, restores, session, _) = drive(&[], 1);
    assert_eq!((draws, polls, restores), (1, 0, 1));
    assert!(session.failed);
}

#[test]
fn the_terminal_is_restored_once_when_the_dialogue_ends() {
    let inputs = [
        Input::Idle,
        Input::press(Key::Down),
        Input::press(Key::Left),
        Input::press(Key::Enter),
        Input::press(Key::Esc),
    ];
    let (draws, polls, restores, session, result) = drive(&inputs, usize::MAX);
    assert_eq!(draws, 4);
    assert_eq!(polls, 4);
    assert_eq!(restores, 1);
    assert_eq!(session, Session { phase: Phase::Done, failed: false });
    assert_eq!(result, Some(SelectResult::Confirmed));
}
