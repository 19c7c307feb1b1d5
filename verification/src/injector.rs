//! The key injector: one chord becomes a fixed run of writes to the virtual
//! keyboard.
//!
//! The injector does not write by itself. It hands out one operation at a
//! time, is told how that operation went, and gives up on the first failure.

use vstd::prelude::*;
use crate::keys::Key;

verus! {

/// How long the chord is held down before it is released, in milliseconds.
pub const HOLD_MILLIS: u64 = 10;

/// Number of operations in a complete injection.
pub const SEQUENCE_LEN: usize = 7;

/// A modifier and a navigation key, pressed and released as a unit.
#[derive(Clone, Copy, Debug, PartialEq, Eq, Structural)]
pub struct Chord {
    pub modifier: Key,
    pub key: Key,
}

/// Which way a chord moves through the workspaces.
#[derive(Clone, Copy, Debug, PartialEq, Eq, Structural)]
pub enum Direction {
    Up,
    Down,
}

impl Chord {
    /// The chord that moves to the next workspace.
    pub open spec fn down() -> Chord {
        Chord { modifier: Key::LeftMeta, key: Key::PageDown }
    }

    /// The chord that moves to the previous workspace.
    pub open spec fn up() -> Chord {
        Chord { modifier: Key::LeftMeta, key: Key::PageUp }
    }

    /// The keys of the chord in the order in which they go down.
    pub open spec fn keys(self) -> Seq<Key> {
        seq![self.modifier, self.key]
    }

    /// The direction a workspace chord stands for, if it is one.
    pub open spec fn spec_direction(self) -> Option<Direction> {
        if self == Chord::down() {
            Some(Direction::Down)
        } else if self == Chord::up() {
            Some(Direction::Up)
        } else {
            None
        }
    }

    pub fn new(modifier: Key, key: Key) -> (chord: Chord)
        ensures
            chord == (Chord { modifier, key }),
    {
        Chord { modifier, key }
    }

    /// Left meta and page down.
    pub fn workspace_down() -> (chord: Chord)
        ensures
            chord == Chord::down(),
    {
        Chord { modifier: Key::LeftMeta, key: Key::PageDown }
    }

    /// Left meta and page up.
    pub fn workspace_up() -> (chord: Chord)
        ensures
            chord == Chord::up(),
    {
        Chord { modifier: Key::LeftMeta, key: Key::PageUp }
    }

    /// Tells which way the chord moves, for reporting.
    pub fn direction(&self) -> (d: Option<Direction>)
        ensures
            d == self.spec_direction(),
    {
        if self.modifier == Key::LeftMeta && self.key == Key::PageDown {
            Some(Direction::Down)
        } else if self.modifier == Key::LeftMeta && self.key == Key::PageUp {
            Some(Direction::Up)
        } else {
            None
        }
    }
}

/// One write to the virtual keyboard, or the pause between press and
/// release.
#[derive(Clone, Copy, Debug, PartialEq, Eq, Structural)]
pub enum OutputOp {
    /// The key goes down.
    Press(Key),
    /// The key goes up.
    Release(Key),
    /// Barrier: what was written since the last barrier takes effect
    /// together.
    Sync,
    /// Wait at least this many milliseconds.
    Delay(u64),
}

/// The operations that inject `chord`, in the order in which they are made:
/// both keys down, modifier first; a barrier; the hold; both keys up,
/// modifier last; a barrier.
pub open spec fn injection_sequence(chord: Chord) -> Seq<OutputOp> {
    seq![
        OutputOp::Press(chord.modifier),
        OutputOp::Press(chord.key),
        OutputOp::Sync,
        OutputOp::Delay(HOLD_MILLIS),
        OutputOp::Release(chord.key),
        OutputOp::Release(chord.modifier),
        OutputOp::Sync,
    ]
}

/// Why a chord did not reach the virtual keyboard in full.
#[derive(Clone, Copy, Debug, PartialEq, Eq, Structural)]
pub enum InjectError {
    /// The virtual keyboard is not registered, so nothing was written.
    NotRegistered,
    /// The operation after the first `written` ones failed. The rest of the
    /// chord was dropped; keys that were already down stay down.
    WriteFailed { written: usize },
}

/// The state of one injection as a mathematical value.
pub struct InjectionView {
    pub chord: Chord,
    /// Operations that were made and went well.
    pub written: nat,
    /// Whether the operation after those failed.
    pub failed: bool,
}

impl InjectionView {
    /// An injection of `chord` of which nothing has been written yet.
    pub open spec fn fresh(chord: Chord) -> InjectionView {
        InjectionView { chord, written: 0, failed: false }
    }

    pub open spec fn wf(self) -> bool {
        &&& self.written <= SEQUENCE_LEN
        &&& self.failed ==> self.written < SEQUENCE_LEN
    }

    /// Every operation was made and went well.
    pub open spec fn succeeded(self) -> bool {
        !self.failed && self.written == SEQUENCE_LEN
    }

    /// Nothing more will be handed out.
    pub open spec fn finished(self) -> bool {
        self.failed || self.written >= SEQUENCE_LEN
    }

    /// The operation to make now.
    pub open spec fn next_op(self) -> Option<OutputOp> {
        if self.finished() {
            None
        } else {
            Some(injection_sequence(self.chord)[self.written as int])
        }
    }

    /// The state after the operation that was handed out went well (`ok`) or
    /// failed. A finished injection stays as it is.
    pub open spec fn record(self, ok: bool) -> InjectionView {
        if self.finished() {
            self
        } else if ok {
            InjectionView { written: self.written + 1, ..self }
        } else {
            InjectionView { failed: true, ..self }
        }
    }

    /// The operations that were attempted so far, the failed one included.
    pub open spec fn issued(self) -> Seq<OutputOp> {
        injection_sequence(self.chord).take(
            if self.failed {
                self.written as int + 1
            } else {
                self.written as int
            },
        )
    }

    /// What the injection came to, once it is finished.
    pub open spec fn outcome(self) -> Option<Result<(), InjectError>> {
        if self.failed {
            Some(Err(InjectError::WriteFailed { written: self.written as usize }))
        } else if self.written >= SEQUENCE_LEN {
            Some(Ok(()))
        } else {
            None
        }
    }

    /// The state after each of `outcomes` was recorded in turn.
    pub open spec fn run(self, outcomes: Seq<bool>) -> InjectionView
        decreases outcomes.len(),
    {
        if outcomes.len() == 0 {
            self
        } else {
            self.run(outcomes.drop_last()).record(outcomes.last())
        }
    }
}

/// One chord on its way to the virtual keyboard.
#[derive(Clone, Copy, Debug)]
pub struct Injection {
    chord: Chord,
    written: usize,
    failed: bool,
}

impl View for Injection {
    type V = InjectionView;

    closed spec fn view(&self) -> InjectionView {
        InjectionView { chord: self.chord, written: self.written as nat, failed: self.failed }
    }
}

impl Injection {
    #[verifier::type_invariant]
    spec fn inv(self) -> bool {
        self@.wf()
    }

    /// Starts the injection of `chord`.
    pub fn new(chord: Chord) -> (injection: Injection)
        ensures
            injection@ == InjectionView::fresh(chord),
            injection@.wf(),
    {
        Injection { chord, written: 0, failed: false }
    }

    /// The chord that is being injected.
    pub fn chord(&self) -> (chord: Chord)
        ensures
            chord == self@.chord,
    {
        self.chord
    }

    /// The operation to make now, or `None` when the injection is finished.
    pub fn next_op(&self) -> (op: Option<OutputOp>)
        ensures
            self@.wf(),
            op == self@.next_op(),
    {
        proof {
            use_type_invariant(self);
        }
        if self.failed {
            return None;
        }
        let op = match self.written {
            0 => OutputOp::Press(self.chord.modifier),
            1 => OutputOp::Press(self.chord.key),
            2 => OutputOp::Sync,
            3 => OutputOp::Delay(HOLD_MILLIS),
            4 => OutputOp::Release(self.chord.key),
            5 => OutputOp::Release(self.chord.modifier),
            6 => OutputOp::Sync,
            _ => {
                return None;
            },
        };
        Some(op)
    }

    /// Records how the operation that `next_op` handed out went. After a
    /// failure nothing more is handed out; keys that are down are not
    /// released.
    pub fn record(&mut self, ok: bool)
        ensures
            old(self)@.wf(),
            final(self)@ == old(self)@.record(ok),
            final(self)@.wf(),
    {
        proof {
            use_type_invariant(&*self);
        }
        if self.failed || self.written >= SEQUENCE_LEN {
            return ;
        }
        if ok {
            self.written = self.written + 1;
        } else {
            self.failed = true;
        }
    }

    /// Whether nothing more will be handed out.
    pub fn is_finished(&self) -> (done: bool)
        ensures
            done == self@.finished(),
    {
        self.failed || self.written >= SEQUENCE_LEN
    }

    /// `None` while operations are outstanding; then `Ok` if all seven went
    /// well, and the failure otherwise.
    pub fn outcome(&self) -> (outcome: Option<Result<(), InjectError>>)
        ensures
            outcome == self@.outcome(),
    {
        if self.failed {
            Some(Err(InjectError::WriteFailed { written: self.written }))
        } else if self.written >= SEQUENCE_LEN {
            Some(Ok(()))
        } else {
            None
        }
    }
}

/// Recording an outcome keeps an injection well formed, and the operations
/// attempted grow by exactly the one that was handed out.
pub proof fn lemma_record_extends_issued(injection: InjectionView, ok: bool)
    requires
        injection.wf(),
    ensures
        injection.record(ok).wf(),
        injection.next_op() matches Some(op) ==> injection.record(ok).issued()
            == injection.issued().push(op),
        injection.next_op() is None ==> injection.record(ok) == injection,
{
    if let Some(op) = injection.next_op() {
        assert(injection.record(ok).issued() =~= injection.issued().push(op));
    }
}

/// However the operations go, an injection that started fresh stays well
/// formed and has attempted a leading part of the sequence, in order.
pub proof fn lemma_run_issues_in_order(chord: Chord, outcomes: Seq<bool>)
    ensures
        InjectionView::fresh(chord).run(outcomes).wf(),
        InjectionView::fresh(chord).run(outcomes).chord == chord,
        InjectionView::fresh(chord).run(outcomes).issued().is_prefix_of(injection_sequence(chord)),
    decreases outcomes.len(),
{
    if outcomes.len() > 0 {
        lemma_run_issues_in_order(chord, outcomes.drop_last());
        lemma_record_extends_issued(
            InjectionView::fresh(chord).run(outcomes.drop_last()),
            outcomes.last(),
        );
    }
}

/// An injection of the chord `[a, b]` that succeeded has made exactly these
/// operations, in this order: press `a`, press `b`, barrier, a hold of ten
/// milliseconds, release `b`, release `a`, barrier.
pub proof fn lemma_success_follows_sequence(injection: InjectionView)
    requires
        injection.wf(),
        injection.succeeded(),
    ensures
        injection.issued() == seq![
            OutputOp::Press(injection.chord.modifier),
            OutputOp::Press(injection.chord.key),
            OutputOp::Sync,
            OutputOp::Delay(10),
            OutputOp::Release(injection.chord.key),
            OutputOp::Release(injection.chord.modifier),
            OutputOp::Sync,
        ],
{
    assert(injection.issued() =~= injection_sequence(injection.chord));
}

/// A failure ends the injection at once: the failed operation is the last
/// one attempted, and recording more changes nothing.
pub proof fn lemma_failure_aborts(injection: InjectionView, later: bool)
    requires
        injection.wf(),
        injection.next_op() is Some,
    ensures
        injection.record(false).next_op() is None,
        injection.record(false).outcome() == Some(
            Err::<(), InjectError>(InjectError::WriteFailed { written: injection.written as usize }),
        ),
        injection.record(false).issued() == injection.issued().push(injection.next_op().unwrap()),
        injection.record(false).record(later) == injection.record(false),
{
    lemma_record_extends_issued(injection, false);
}

} // verus!
