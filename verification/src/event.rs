//! The event classifier: which events are swallowed, and which chord stands
//! in for them.

use vstd::prelude::*;
use crate::config::RemapConfig;
use crate::injector::Chord;
use crate::keys::{EventType, Key, VALUE_PRESS, VALUE_RELEASE};

verus! {

/// One event as a physical device reports it.
#[derive(Clone, Copy, Debug, PartialEq, Eq, Structural)]
pub struct RawEvent {
    pub event_type: EventType,
    pub code: Key,
    /// 0 for a release, 1 for a press, 2 for a repeat.
    pub value: i32,
}

/// What becomes of an event in the host's input stack.
#[derive(Clone, Copy, Debug, PartialEq, Eq, Structural)]
pub enum EventResult {
    /// The event stops here.
    Consumed,
    /// The event goes on as if nobody had looked at it.
    PassThrough,
}

/// The classifier's answer to one event.
#[derive(Clone, Copy, Debug, PartialEq, Eq, Structural)]
pub struct Verdict {
    pub result: EventResult,
    /// The chord to inject in place of the event, if any.
    pub chord: Option<Chord>,
}

impl RawEvent {
    /// A press of `button`.
    pub open spec fn is_press_of(self, button: Key) -> bool {
        self.event_type == EventType::Key && self.code == button && self.value == VALUE_PRESS
    }

    /// A release of one of the two thumb buttons.
    pub open spec fn is_watched_release(self) -> bool {
        self.event_type == EventType::Key && self.code.is_watched() && self.value == VALUE_RELEASE
    }

    pub fn new(event_type: EventType, code: Key, value: i32) -> (event: RawEvent)
        ensures
            event == (RawEvent { event_type, code, value }),
    {
        RawEvent { event_type, code, value }
    }
}

impl Verdict {
    /// Leave the event alone.
    pub open spec fn pass_through() -> Verdict {
        Verdict { result: EventResult::PassThrough, chord: None }
    }

    /// Swallow the event and inject nothing.
    pub open spec fn swallow() -> Verdict {
        Verdict { result: EventResult::Consumed, chord: None }
    }

    /// Swallow the event and inject `chord`.
    pub open spec fn replace_with(chord: Chord) -> Verdict {
        Verdict { result: EventResult::Consumed, chord: Some(chord) }
    }
}

/// The decision table. With remapping on, a press of the side button
/// becomes the workspace-down chord and a press of the extra button the
/// workspace-up chord; the release of either button is swallowed, so that
/// no release shows up whose press was never seen. Everything else, and
/// everything while remapping is off, passes through.
pub open spec fn spec_classify(config: RemapConfig, event: RawEvent) -> Verdict {
    if !config.remap_side_buttons {
        Verdict::pass_through()
    } else if event.is_press_of(Key::ButtonSide) {
        Verdict::replace_with(Chord::down())
    } else if event.is_press_of(Key::ButtonExtra) {
        Verdict::replace_with(Chord::up())
    } else if event.is_watched_release() {
        Verdict::swallow()
    } else {
        Verdict::pass_through()
    }
}

/// Classifies one event under `config`.
pub fn classify(config: &RemapConfig, event: &RawEvent) -> (verdict: Verdict)
    ensures
        verdict == spec_classify(*config, *event),
{
    if !config.remap_side_buttons || event.event_type != EventType::Key {
        return Verdict { result: EventResult::PassThrough, chord: None };
    }
    let side = event.code == Key::ButtonSide;
    let extra = event.code == Key::ButtonExtra;
    if side && event.value == VALUE_PRESS {
        Verdict { result: EventResult::Consumed, chord: Some(Chord::workspace_down()) }
    } else if extra && event.value == VALUE_PRESS {
        Verdict { result: EventResult::Consumed, chord: Some(Chord::workspace_up()) }
    } else if (side || extra) && event.value == VALUE_RELEASE {
        Verdict { result: EventResult::Consumed, chord: None }
    } else {
        Verdict { result: EventResult::PassThrough, chord: None }
    }
}

/// An event that is not a key event, or not a press, or not of a thumb
/// button, passes through untouched. The one exception is the release of a
/// thumb button while remapping is on, which is swallowed with its press.
pub proof fn lemma_other_events_pass_through(config: RemapConfig, event: RawEvent)
    requires
        event.event_type != EventType::Key || event.value != VALUE_PRESS
            || !event.code.is_watched(),
        !(config.remap_side_buttons && event.is_watched_release()),
    ensures
        spec_classify(config, event) == Verdict::pass_through(),
{
}

/// With remapping on, a press of the side button is consumed and asks for
/// exactly the chord left meta and page down.
pub proof fn lemma_side_press_goes_down(config: RemapConfig, event: RawEvent)
    requires
        config.remap_side_buttons,
        event.is_press_of(Key::ButtonSide),
    ensures
        spec_classify(config, event).result == EventResult::Consumed,
        spec_classify(config, event).chord == Some(
            Chord { modifier: Key::LeftMeta, key: Key::PageDown },
        ),
{
}

/// With remapping on, a press of the extra button is consumed and asks for
/// exactly the chord left meta and page up.
pub proof fn lemma_extra_press_goes_up(config: RemapConfig, event: RawEvent)
    requires
        config.remap_side_buttons,
        event.is_press_of(Key::ButtonExtra),
    ensures
        spec_classify(config, event).result == EventResult::Consumed,
        spec_classify(config, event).chord == Some(
            Chord { modifier: Key::LeftMeta, key: Key::PageUp },
        ),
{
}

/// With remapping off every event passes through, the presses of the two
/// thumb buttons among them, and no chord is asked for.
pub proof fn lemma_remap_off_passes_everything(config: RemapConfig, event: RawEvent)
    requires
        !config.remap_side_buttons,
    ensures
        spec_classify(config, event) == Verdict::pass_through(),
{
}

/// The reporting switch has no part in the decision.
pub proof fn lemma_debug_mode_is_inert(config: RemapConfig, event: RawEvent, debug_mode: bool)
    ensures
        spec_classify(RemapConfig { debug_mode, ..config }, event) == spec_classify(config, event),
{
}

/// A chord is asked for only on an event that is consumed, and exactly on
/// the presses of the two thumb buttons while remapping is on.
pub proof fn lemma_chord_only_when_consumed(config: RemapConfig, event: RawEvent)
    ensures
        spec_classify(config, event).chord is Some ==> spec_classify(config, event).result
            == EventResult::Consumed,
        spec_classify(config, event).chord is Some <==> config.remap_side_buttons && (
        event.is_press_of(Key::ButtonSide) || event.is_press_of(Key::ButtonExtra)),
{
}

/// What there is to report before a chord is injected: the chord, if the
/// verdict asks for one and reporting is on.
pub open spec fn spec_report(config: RemapConfig, verdict: Verdict) -> Option<Chord> {
    if config.debug_mode {
        verdict.chord
    } else {
        None
    }
}

/// Tells what to report before the chord of `verdict` is injected. The
/// answer changes nothing about the injection.
pub fn report(config: &RemapConfig, verdict: &Verdict) -> (chord: Option<Chord>)
    ensures
        chord == spec_report(*config, *verdict),
{
    if config.debug_mode {
        verdict.chord
    } else {
        None
    }
}

} // verus!
