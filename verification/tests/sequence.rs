use macro_runner::error::Error;
use macro_runner::input::{ButtonId, Invocation, KeyId};
use macro_runner::scripting::action::{Action, CursorMovementMode, ScrollDirection};
use macro_runner::scripting::key_sequence::KeySequence;
use macro_runner::scripting::sequence::{ActionSequence, Step};
use macro_runner::scripting::utils::{release_all_kbkeys, release_all_mouse_btns};
use macro_runner::time::{Delay, TimeUnit};

fn plain_actions() -> Vec<Action> {
    vec![
        Action::KeyPress(KeyId(65)),
        Action::KeyRelease(KeyId(65)),
        Action::MouseMove(CursorMovementMode::Relative, 0, -200),
        Action::ButtonPress(ButtonId(1)),
        Action::ButtonRelease(ButtonId(1)),
        Action::Scroll(ScrollDirection::Y, -10),
        Action::TypeText(String::from("Cool text written by a bot")),
    ]
}

fn plain_invocations() -> Vec<Invocation> {
    vec![
        Invocation::Press(KeyId(65)),
        Invocation::Release(KeyId(65)),
        Invocation::MoveCursor(CursorMovementMode::Relative, 0, -200),
        Invocation::PressButton(ButtonId(1)),
        Invocation::ReleaseButton(ButtonId(1)),
        Invocation::Scroll(ScrollDirection::Y, -10),
        Invocation::TypeText(String::from("Cool text written by a bot")),
    ]
}

#[test]
fn new_sequence_is_at_its_start() {
    let mut sequence = ActionSequence::new(plain_actions());
    assert_eq!(sequence.cursor(), 0);
    assert!(!sequence.requested_stop());
    assert_eq!(*sequence.actions(), plain_actions());
}

#[test]
fn actions_map_to_invocations() {
    let actions = plain_actions();
    let expected = plain_invocations();
    for i in 0..actions.len() {
        assert_eq!(actions[i].invocation(), Some(expected[i].clone()));
    }
    assert_eq!(Action::Stop.invocation(), Some(Invocation::ReleaseAll));
    assert_eq!(Action::Wait(Delay::new(1)).invocation(), None);
}

#[test]
fn halt_is_idempotent() {
    let mut sequence = ActionSequence::new(vec![
        Action::KeyPress(KeyId(1)),
        Action::Stop,
        Action::KeyPress(KeyId(2)),
    ]);
    assert_eq!(sequence.run_one(), Ok(Step::Invoked(Invocation::Press(KeyId(1)))));
    assert_eq!(sequence.run_one(), Ok(Step::Invoked(Invocation::ReleaseAll)));
    assert!(sequence.requested_stop());
    assert_eq!(sequence.cursor(), 1);
    for _ in 0..20 {
        assert_eq!(sequence.run_one(), Ok(Step::Halted));
        assert_eq!(sequence.cursor(), 1);
        assert!(sequence.requested_stop());
    }
    assert_eq!(sequence.run_one_after(u128::MAX), Ok(Step::Halted));
    assert_eq!(sequence.cursor(), 1);
}

#[test]
fn wait_does_not_advance_before_its_time() {
    let mut sequence = ActionSequence::new(vec![
        Action::Wait(Delay::from((10, TimeUnit::Milliseconds))),
        Action::KeyPress(KeyId(7)),
    ]);
    assert_eq!(sequence.run_one_after(0), Ok(Step::WaitStarted));
    assert_eq!(sequence.cursor(), 0);
    assert_eq!(sequence.run_one_after(0), Ok(Step::StillWaiting));
    assert_eq!(sequence.run_one_after(5_000_000), Ok(Step::StillWaiting));
    assert_eq!(sequence.run_one_after(9_999_999), Ok(Step::StillWaiting));
    assert_eq!(sequence.cursor(), 0);
    assert_eq!(sequence.run_one_after(10_000_000), Ok(Step::WaitOver));
    assert_eq!(sequence.cursor(), 1);
    assert_eq!(sequence.run_one_after(10_000_000), Ok(Step::Invoked(Invocation::Press(KeyId(7)))));
    assert_eq!(sequence.cursor(), 2);
}

#[test]
fn wait_by_the_clock_holds_and_then_passes() {
    let mut held = ActionSequence::new(vec![Action::Wait(Delay::new(3_600)), Action::Stop]);
    assert_eq!(held.run_one(), Ok(Step::WaitStarted));
    for _ in 0..100 {
        assert_eq!(held.run_one(), Ok(Step::StillWaiting));
        assert_eq!(held.cursor(), 0);
    }
    let mut passed = ActionSequence::new(vec![Action::Wait(Delay::new(0)), Action::Stop]);
    assert_eq!(passed.run_one(), Ok(Step::WaitStarted));
    assert_eq!(passed.cursor(), 0);
    assert_eq!(passed.run_one(), Ok(Step::WaitOver));
    assert_eq!(passed.cursor(), 1);
    assert_eq!(passed.run_one(), Ok(Step::Invoked(Invocation::ReleaseAll)));
    assert_eq!(passed.cursor(), 1);
}

#[test]
fn wait_start_leaves_the_other_actions() {
    let mut sequence = ActionSequence::new(vec![
        Action::Wait(Delay::from((5, TimeUnit::Seconds))),
        Action::TypeText(String::from("abc")),
    ]);
    assert_eq!(sequence.run_one_after(0), Ok(Step::WaitStarted));
    let actions = sequence.actions();
    assert_eq!(actions.len(), 2);
    assert_eq!(actions[1], Action::TypeText(String::from("abc")));
    match &actions[0] {
        Action::Wait(delay) => {
            assert_eq!(delay.value(), 5);
            assert_eq!(delay.unit(), TimeUnit::Seconds);
            assert!(delay.elapsed().is_some());
        }
        other => panic!("the wait became {:?}", other),
    }
}

#[test]
fn plain_actions_advance_one_by_one() {
    let expected = plain_invocations();
    let mut sequence = ActionSequence::new(plain_actions());
    for i in 0..expected.len() {
        assert_eq!(sequence.cursor(), i);
        assert_eq!(sequence.run_one(), Ok(Step::Invoked(expected[i].clone())));
        assert_eq!(sequence.cursor(), i + 1);
        assert!(!sequence.requested_stop());
    }
    assert_eq!(sequence.cursor(), 7);
}

#[test]
fn cursor_past_the_end_is_an_error() {
    let mut sequence = ActionSequence::new(plain_actions());
    for _ in 0..7 {
        assert!(sequence.run_one().is_ok());
    }
    assert_eq!(sequence.run_one(), Err(Error::CursorOutOfBounds(7)));
    assert_eq!(sequence.cursor(), 7);
    assert!(!sequence.requested_stop());
    assert_eq!(sequence.run_one_after(3), Err(Error::CursorOutOfBounds(7)));
}

#[test]
fn empty_sequence_is_an_error() {
    let mut sequence = ActionSequence::new(Vec::new());
    assert_eq!(sequence.run_one(), Err(Error::CursorOutOfBounds(0)));
    assert_eq!(sequence.cursor(), 0);
}

#[test]
fn emptied_sequence_is_an_error() {
    let mut sequence = ActionSequence::new(plain_actions());
    assert!(sequence.run_one().is_ok());
    assert!(sequence.run_one().is_ok());
    sequence.actions().clear();
    assert_eq!(sequence.run_one(), Err(Error::CursorOutOfBounds(2)));
}

#[test]
fn wait_mismatch_is_reported_and_mended() {
    let mut sequence = ActionSequence::new(vec![
        Action::Wait(Delay::new(3_600)),
        Action::KeyPress(KeyId(2)),
        Action::Stop,
    ]);
    assert_eq!(sequence.run_one(), Ok(Step::WaitStarted));
    sequence.actions()[0] = Action::KeyPress(KeyId(1));
    assert_eq!(sequence.run_one(), Ok(Step::WaitMismatch));
    assert_eq!(sequence.cursor(), 1);
    assert_eq!(sequence.run_one(), Ok(Step::Invoked(Invocation::Press(KeyId(2)))));
    assert_eq!(sequence.run_one(), Ok(Step::Invoked(Invocation::ReleaseAll)));
    assert!(sequence.requested_stop());
}

#[test]
fn wait_that_lost_its_start_does_not_pass() {
    let mut sequence = ActionSequence::new(vec![Action::Wait(Delay::new(0)), Action::Stop]);
    assert_eq!(sequence.run_one(), Ok(Step::WaitStarted));
    sequence.actions()[0] = Action::Wait(Delay::new(0));
    assert_eq!(sequence.run_one(), Ok(Step::StillWaiting));
    assert_eq!(sequence.run_one_after(u128::MAX), Ok(Step::StillWaiting));
    assert_eq!(sequence.cursor(), 0);
}

#[test]
fn sequence_clone_is_independent() {
    let mut sequence = ActionSequence::new(plain_actions());
    assert!(sequence.run_one().is_ok());
    let mut copy = sequence.clone();
    assert_eq!(copy, sequence);
    assert_eq!(copy.cursor(), 1);
    sequence.actions().clear();
    assert_eq!(copy.actions().len(), 7);
    assert_eq!(copy.run_one(), Ok(Step::Invoked(Invocation::Release(KeyId(65)))));
    assert_eq!(sequence.cursor(), 1);
}

#[test]
fn scroll_keeps_its_sign() {
    let mut sequence = ActionSequence::new(vec![
        Action::Scroll(ScrollDirection::X, 4),
        Action::Scroll(ScrollDirection::Y, -4),
        Action::MouseMove(CursorMovementMode::Absolute, i32::MIN, i32::MAX),
    ]);
    assert_eq!(sequence.run_one(), Ok(Step::Invoked(Invocation::Scroll(ScrollDirection::X, 4))));
    assert_eq!(sequence.run_one(), Ok(Step::Invoked(Invocation::Scroll(ScrollDirection::Y, -4))));
    assert_eq!(
        sequence.run_one(),
        Ok(Step::Invoked(Invocation::MoveCursor(CursorMovementMode::Absolute, i32::MIN, i32::MAX)))
    );
}

#[test]
fn release_all_keys_releases_what_is_held() {
    let report = vec![(KeyId(1), true), (KeyId(2), false), (KeyId(3), true), (KeyId(4), false)];
    assert_eq!(
        release_all_kbkeys(&report),
        vec![Invocation::Release(KeyId(1)), Invocation::Release(KeyId(3))]
    );
    assert_eq!(release_all_kbkeys(&Vec::new()), Vec::new());
    assert_eq!(release_all_kbkeys(&vec![(KeyId(9), false)]), Vec::new());
}

#[test]
fn release_all_buttons_releases_what_is_held() {
    let report = vec![(ButtonId(1), false), (ButtonId(2), true), (ButtonId(3), true)];
    assert_eq!(
        release_all_mouse_btns(&report),
        vec![Invocation::ReleaseButton(ButtonId(2)), Invocation::ReleaseButton(ButtonId(3))]
    );
    assert_eq!(release_all_mouse_btns(&Vec::new()), Vec::new());
}

#[test]
fn blocking_replay_sleeps_through_waits() {
    let mut sequence = KeySequence::new(vec![
        Action::Wait(Delay::from((10, TimeUnit::Milliseconds))),
        Action::KeyPress(KeyId(3)),
        Action::Stop,
        Action::KeyPress(KeyId(4)),
    ]);
    assert_eq!(sequence.cursor(), 0);
    assert_eq!(sequence.run_one(), Ok(Step::Invoked(Invocation::Sleep(10_000_000))));
    assert_eq!(sequence.cursor(), 1);
    assert_eq!(sequence.run_one(), Ok(Step::Invoked(Invocation::Press(KeyId(3)))));
    assert_eq!(sequence.cursor(), 2);
    assert_eq!(sequence.run_one(), Ok(Step::Invoked(Invocation::ReleaseAll)));
    assert!(sequence.requested_stop());
    assert_eq!(sequence.cursor(), 2);
    assert_eq!(sequence.run_one(), Ok(Step::Halted));
    assert_eq!(sequence.cursor(), 2);
    assert_eq!(sequence.actions().len(), 4);
}

#[test]
fn blocking_replay_fails_past_the_end() {
    let mut sequence = KeySequence::new(vec![Action::KeyPress(KeyId(3))]);
    assert!(sequence.run_one().is_ok());
    assert_eq!(sequence.run_one(), Err(Error::CursorOutOfBounds(1)));
    assert_eq!(sequence.cursor(), 1);
}

#[test]
fn finished_wait_is_ended() {
    let mut sequence = ActionSequence::new(vec![
        Action::Wait(Delay::from((10, TimeUnit::Milliseconds))),
        Action::Stop,
    ]);
    assert_eq!(sequence.run_one_after(0), Ok(Step::WaitStarted));
    assert_ne!(sequence.actions()[0], Action::Wait(Delay::from((10, TimeUnit::Milliseconds))));
    assert_eq!(sequence.run_one_after(10_000_000), Ok(Step::WaitOver));
    assert_eq!(
        *sequence.actions(),
        vec![Action::Wait(Delay::from((10, TimeUnit::Milliseconds))), Action::Stop]
    );
    match &sequence.actions()[0] {
        Action::Wait(delay) => {
            assert_eq!(delay.elapsed(), None);
            assert!(!delay.is_finished());
        }
        other => panic!("the wait became {:?}", other),
    }
}

#[test]
fn ended_delay_can_be_started_again() {
    let mut delay = Delay::from((0, TimeUnit::Seconds));
    delay.start_wait();
    assert!(delay.is_finished());
    delay.end_wait();
    assert!(!delay.is_finished());
    assert_eq!(delay, Delay::from((0, TimeUnit::Seconds)));
    delay.start_wait();
    assert!(delay.is_finished());
}
