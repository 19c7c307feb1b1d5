//! The virtual keyboard: the one sink that every session injects into.
//!
//! Chords are written one after the other. A chord that arrives while
//! another is being written waits for its turn, so no chord is ever split
//! by another.

use vstd::prelude::*;
use crate::injector::{
    lemma_record_extends_issued, Chord, InjectError, Injection, InjectionView, OutputOp,
};
use crate::keys::{EventType, Key};

verus! {

/// The event classes the virtual keyboard advertises.
pub open spec fn advertised_event_types() -> Set<EventType> {
    set![EventType::Key]
}

/// The keys the virtual keyboard advertises.
pub open spec fn advertised_keys() -> Set<Key> {
    set![Key::LeftMeta, Key::PageUp, Key::PageDown]
}

/// The virtual keyboard as a mathematical value.
pub struct VirtualDeviceView {
    /// Whether the host has registered the keyboard.
    pub registered: bool,
    /// The chords that are not written in full yet, oldest first. The first
    /// is the one being written.
    pub queue: Seq<InjectionView>,
}

impl VirtualDeviceView {
    /// An unregistered keyboard holds no chord. Of the chords it holds none
    /// is finished, and all but the first are untouched.
    pub open spec fn wf(self) -> bool {
        &&& !self.registered ==> self.queue.len() == 0
        &&& forall|i: int|
            0 <= i < self.queue.len() ==> (#[trigger] self.queue[i]).wf() && !self.queue[i].finished()
        &&& forall|i: int|
            0 < i < self.queue.len() ==> #[trigger] self.queue[i] == InjectionView::fresh(
                self.queue[i].chord,
            )
    }

    /// A keyboard that is not registered.
    pub open spec fn unregistered() -> VirtualDeviceView {
        VirtualDeviceView { registered: false, queue: Seq::empty() }
    }

    /// A registered keyboard into which nothing was injected yet.
    pub open spec fn idle() -> VirtualDeviceView {
        VirtualDeviceView { registered: true, queue: Seq::empty() }
    }

    /// The keyboard after `chord` was handed in. An unregistered keyboard
    /// takes nothing.
    pub open spec fn inject(self, chord: Chord) -> VirtualDeviceView {
        if self.registered {
            VirtualDeviceView { queue: self.queue.push(InjectionView::fresh(chord)), ..self }
        } else {
            self
        }
    }

    /// The operation to make now: the next one of the oldest chord.
    pub open spec fn next_op(self) -> Option<OutputOp> {
        if self.queue.len() > 0 {
            self.queue[0].next_op()
        } else {
            None
        }
    }

    /// The keyboard after the operation that was handed out went well (`ok`)
    /// or failed. A chord that is finished, either way, leaves the queue.
    pub open spec fn complete_op(self, ok: bool) -> VirtualDeviceView {
        if self.queue.len() == 0 {
            self
        } else if self.queue[0].record(ok).finished() {
            VirtualDeviceView { queue: self.queue.drop_first(), ..self }
        } else {
            VirtualDeviceView { queue: self.queue.update(0, self.queue[0].record(ok)), ..self }
        }
    }

    /// What the oldest chord came to, if this operation finished it.
    pub open spec fn completion(self, ok: bool) -> Option<Result<(), InjectError>> {
        if self.queue.len() == 0 {
            None
        } else {
            self.queue[0].record(ok).outcome()
        }
    }
}

/// The chords of a queue as mathematical values.
spec fn views(queue: Seq<Injection>) -> Seq<InjectionView> {
    Seq::new(queue.len(), |i: int| queue[i]@)
}

/// The virtual keyboard. There is one for the whole module.
#[derive(Debug)]
pub struct VirtualOutputDevice {
    registered: bool,
    queue: Vec<Injection>,
}

impl View for VirtualOutputDevice {
    type V = VirtualDeviceView;

    closed spec fn view(&self) -> VirtualDeviceView {
        VirtualDeviceView {
            registered: self.registered,
            queue: views(self.queue@),
        }
    }
}

impl VirtualOutputDevice {
    #[verifier::type_invariant]
    spec fn inv(self) -> bool {
        self@.wf()
    }

    /// A keyboard that the host has not registered.
    pub fn new() -> (device: VirtualOutputDevice)
        ensures
            device@ == VirtualDeviceView::unregistered(),
    {
        let device = VirtualOutputDevice { registered: false, queue: Vec::new() };
        assert(device@.queue =~= Seq::empty());
        device
    }

    /// Whether the host has registered the keyboard.
    pub fn is_registered(&self) -> (registered: bool)
        ensures
            registered == self@.registered,
            self@.wf(),
    {
        proof {
            use_type_invariant(self);
        }
        self.registered
    }

    /// Notes that the host has registered the keyboard.
    pub fn register(&mut self)
        ensures
            final(self)@ == (VirtualDeviceView { registered: true, ..old(self)@ }),
            final(self)@.wf(),
    {
        proof {
            use_type_invariant(&*self);
        }
        self.registered = true;
    }

    /// Notes that the keyboard is gone. Chords that were waiting are dropped.
    pub fn unregister(&mut self)
        ensures
            final(self)@ == VirtualDeviceView::unregistered(),
    {
        let mut queue = self.take_queue();
        queue.clear();
        self.registered = false;
        assert(self@.queue =~= Seq::empty());
    }

    /// The number of chords that are not written in full yet.
    pub fn pending(&self) -> (n: usize)
        ensures
            n == self@.queue.len(),
            self@.wf(),
    {
        proof {
            use_type_invariant(self);
        }
        self.queue.len()
    }

    /// Moves the queue out and leaves an empty one behind.
    fn take_queue(&mut self) -> (queue: Vec<Injection>)
        ensures
            old(self)@.wf(),
            views(queue@) == old(self)@.queue,
            final(self)@ == (VirtualDeviceView { queue: Seq::empty(), ..old(self)@ }),
    {
        proof {
            use_type_invariant(&*self);
        }
        let mut queue: Vec<Injection> = Vec::new();
        core::mem::swap(&mut self.queue, &mut queue);
        assert(self@.queue =~= Seq::empty());
        queue
    }

    /// Hands `chord` in for writing. It is written after the chords that
    /// were handed in before it.
    pub fn inject(&mut self, chord: Chord) -> (result: Result<(), InjectError>)
        ensures
            final(self)@ == old(self)@.inject(chord),
            result == if old(self)@.registered {
                Ok::<(), InjectError>(())
            } else {
                Err::<(), InjectError>(InjectError::NotRegistered)
            },
            final(self)@.wf(),
    {
        proof {
            use_type_invariant(&*self);
        }
        if !self.registered {
            return Err(InjectError::NotRegistered);
        }
        let mut queue = self.take_queue();
        queue.push(Injection::new(chord));
        assert(views(queue@) =~= old(self)@.queue.push(InjectionView::fresh(chord)));
        self.queue = queue;
        Ok(())
    }

    /// The operation to make now, or `None` when no chord is waiting.
    pub fn next_op(&self) -> (op: Option<OutputOp>)
        ensures
            op == self@.next_op(),
            op is Some <==> self@.queue.len() > 0,
            self@.wf(),
    {
        proof {
            use_type_invariant(self);
        }
        if self.queue.len() == 0 {
            None
        } else {
            self.queue[0].next_op()
        }
    }

    /// Records how the operation that `next_op` handed out went. When that
    /// finishes the chord, tells what it came to.
    pub fn complete_op(&mut self, ok: bool) -> (outcome: Option<Result<(), InjectError>>)
        ensures
            final(self)@ == old(self)@.complete_op(ok),
            outcome == old(self)@.completion(ok),
            final(self)@.wf(),
    {
        proof {
            use_type_invariant(&*self);
        }
        if self.queue.len() == 0 {
            return None;
        }
        let mut queue = self.take_queue();
        let mut head = queue[0];
        head.record(ok);
        let outcome = head.outcome();
        if head.is_finished() {
            queue.remove(0);
            assert(views(queue@) =~= old(self)@.queue.drop_first());
            self.queue = queue;
        } else {
            queue.set(0, head);
            assert(views(queue@) =~= old(self)@.queue.update(0, old(self)@.queue[0].record(ok)));
            self.queue = queue;
        }
        outcome
    }
}

/// A chord that is handed in while another is being written does not
/// change what is written next: it waits at the end.
pub proof fn lemma_inject_waits_its_turn(device: VirtualDeviceView, chord: Chord)
    requires
        device.wf(),
        device.queue.len() > 0,
    ensures
        device.inject(chord).next_op() == device.next_op(),
        device.inject(chord).wf(),
        device.inject(chord).queue.last() == InjectionView::fresh(chord),
{
}

/// While chords are waiting there is an operation to make, and it belongs
/// to the oldest of them.
pub proof fn lemma_oldest_chord_is_written(device: VirtualDeviceView)
    requires
        device.wf(),
        device.queue.len() > 0,
    ensures
        device.next_op() is Some,
        device.next_op() == device.queue[0].next_op(),
{
}

/// Recording an outcome keeps the keyboard well formed and touches no chord
/// but the oldest: that one moves on by one operation, or leaves the queue
/// if it is finished, and the chords behind it wait as they did.
pub proof fn lemma_complete_op_keeps_order(device: VirtualDeviceView, ok: bool)
    requires
        device.wf(),
        device.queue.len() > 0,
    ensures
        device.complete_op(ok).wf(),
        device.complete_op(ok).registered == device.registered,
        device.queue[0].record(ok).finished() ==> device.complete_op(ok).queue
            == device.queue.drop_first(),
        !device.queue[0].record(ok).finished() ==> device.complete_op(ok).queue
            == device.queue.update(0, device.queue[0].record(ok)),
        device.completion(ok) is Some <==> device.queue[0].record(ok).finished(),
{
    lemma_record_extends_issued(device.queue[0], ok);
}

} // verus!
