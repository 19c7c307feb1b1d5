use m720_remapper::injector::{
    Chord, Direction, InjectError, Injection, OutputOp, HOLD_MILLIS, SEQUENCE_LEN,
};
use m720_remapper::keys::Key;

fn run_injection(chord: Chord, outcomes: &[bool]) -> (Vec<OutputOp>, Injection) {
    let mut injection = Injection::new(chord);
    let mut issued = Vec::new();
    for ok in outcomes {
        match injection.next_op() {
            Some(op) => issued.push(op),
            None => break,
        }
        injection.record(*ok);
    }
    (issued, injection)
}

#[test]
fn hold_is_ten_milliseconds() {
    assert_eq!(HOLD_MILLIS, 10);
    assert_eq!(SEQUENCE_LEN, 7);
}

#[test]
fn workspace_chords_use_left_meta() {
    assert_eq!(Chord::workspace_down(), Chord { modifier: Key::LeftMeta, key: Key::PageDown });
    assert_eq!(Chord::workspace_up(), Chord { modifier: Key::LeftMeta, key: Key::PageUp });
    assert_eq!(Chord::new(Key::LeftMeta, Key::PageUp), Chord::workspace_up());
}

#[test]
fn chord_direction_is_reported() {
    assert_eq!(Chord::workspace_down().direction(), Some(Direction::Down));
    assert_eq!(Chord::workspace_up().direction(), Some(Direction::Up));
    assert_eq!(Chord::new(Key::PageUp, Key::LeftMeta).direction(), None);
    assert_eq!(Chord::new(Key::LeftMeta, Key::ButtonLeft).direction(), None);
}

#[test]
fn successful_injection_issues_the_literal_sequence() {
    let (issued, injection) = run_injection(Chord::workspace_down(), &[true; 7]);
    assert_eq!(
        issued,
        vec![
            OutputOp::Press(Key::LeftMeta),
            OutputOp::Press(Key::PageDown),
            OutputOp::Sync,
            OutputOp::Delay(10),
            OutputOp::Release(Key::PageDown),
            OutputOp::Release(Key::LeftMeta),
            OutputOp::Sync,
        ]
    );
    assert!(injection.is_finished());
    assert_eq!(injection.outcome(), Some(Ok(())));
    assert_eq!(injection.next_op(), None);
}

#[test]
fn injection_of_any_chord_presses_in_order_and_releases_in_reverse() {
    let chord = Chord::new(Key::Other(29), Key::Other(46));
    let (issued, injection) = run_injection(chord, &[true; 7]);
    assert_eq!(
        issued,
        vec![
            OutputOp::Press(Key::Other(29)),
            OutputOp::Press(Key::Other(46)),
            OutputOp::Sync,
            OutputOp::Delay(10),
            OutputOp::Release(Key::Other(46)),
            OutputOp::Release(Key::Other(29)),
            OutputOp::Sync,
        ]
    );
    assert_eq!(injection.chord(), chord);
    assert_eq!(injection.outcome(), Some(Ok(())));
}

#[test]
fn fresh_injection_starts_with_the_modifier() {
    let injection = Injection::new(Chord::workspace_up());
    assert_eq!(injection.next_op(), Some(OutputOp::Press(Key::LeftMeta)));
    assert!(!injection.is_finished());
    assert_eq!(injection.outcome(), None);
}

#[test]
fn asking_twice_hands_out_the_same_operation() {
    let mut injection = Injection::new(Chord::workspace_up());
    injection.record(true);
    assert_eq!(injection.next_op(), Some(OutputOp::Press(Key::PageUp)));
    assert_eq!(injection.next_op(), Some(OutputOp::Press(Key::PageUp)));
}

#[test]
fn failure_at_the_first_write_aborts_everything() {
    let (issued, injection) = run_injection(Chord::workspace_down(), &[false, true, true]);
    assert_eq!(issued, vec![OutputOp::Press(Key::LeftMeta)]);
    assert!(injection.is_finished());
    assert_eq!(injection.outcome(), Some(Err(InjectError::WriteFailed { written: 0 })));
}

#[test]
fn failure_in_the_middle_leaves_the_rest_unwritten() {
    let (issued, injection) = run_injection(Chord::workspace_down(), &[true, false, true, true]);
    assert_eq!(issued, vec![OutputOp::Press(Key::LeftMeta), OutputOp::Press(Key::PageDown)]);
    assert_eq!(injection.next_op(), None);
    assert_eq!(injection.outcome(), Some(Err(InjectError::WriteFailed { written: 1 })));
}

#[test]
fn failure_at_each_step_reports_how_far_it_got() {
    for failing in 0..7usize {
        let mut outcomes = vec![true; 7];
        outcomes[failing] = false;
        let (issued, injection) = run_injection(Chord::workspace_up(), &outcomes);
        assert_eq!(issued.len(), failing + 1);
        assert_eq!(
            injection.outcome(),
            Some(Err(InjectError::WriteFailed { written: failing }))
        );
        assert!(injection.is_finished());
    }
}

#[test]
fn failure_at_the_last_barrier_is_a_failure() {
    let (issued, injection) =
        run_injection(Chord::workspace_up(), &[true, true, true, true, true, true, false]);
    assert_eq!(issued.len(), 7);
    assert_eq!(issued[6], OutputOp::Sync);
    assert_eq!(injection.outcome(), Some(Err(InjectError::WriteFailed { written: 6 })));
}

#[test]
fn unfinished_injection_has_no_outcome() {
    let (issued, injection) = run_injection(Chord::workspace_down(), &[true, true, true]);
    assert_eq!(issued.len(), 3);
    assert!(!injection.is_finished());
    assert_eq!(injection.outcome(), None);
    assert_eq!(injection.next_op(), Some(OutputOp::Delay(10)));
}

#[test]
fn recording_after_the_end_changes_nothing() {
    let (_, mut done) = run_injection(Chord::workspace_down(), &[true; 7]);
    done.record(false);
    assert_eq!(done.outcome(), Some(Ok(())));
    done.record(true);
    assert_eq!(done.next_op(), None);

    let (_, mut failed) = run_injection(Chord::workspace_down(), &[true, true, false]);
    failed.record(true);
    assert_eq!(failed.next_op(), None);
    assert_eq!(failed.outcome(), Some(Err(InjectError::WriteFailed { written: 2 })));
}
