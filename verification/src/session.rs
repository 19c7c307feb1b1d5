//! Sessions: the live bindings between the remapper and the devices it has
//! accepted.

use vstd::prelude::*;
use crate::config::RemapConfig;
use crate::event::{classify, spec_classify, EventResult, RawEvent, Verdict};
use crate::host::HostRequest;

verus! {

/// The binding to one accepted device. A session is created closed, is
/// opened once the host has opened the device, and is dropped when the
/// device goes away.
#[derive(Clone, Copy, Debug, PartialEq, Eq, Structural)]
pub struct DeviceSession {
    /// The number under which the host knows the device.
    pub device: u64,
    pub open: bool,
}

impl DeviceSession {
    /// What becomes of an event that arrives on this session. Only an open
    /// session lets events reach the classifier.
    pub open spec fn spec_on_event(self, config: RemapConfig, event: RawEvent) -> Verdict {
        if self.open {
            spec_classify(config, event)
        } else {
            Verdict::pass_through()
        }
    }

    /// A session on `device` that is not open yet.
    pub fn new(device: u64) -> (session: DeviceSession)
        ensures
            session == (DeviceSession { device, open: false }),
    {
        DeviceSession { device, open: false }
    }

    /// Decides what becomes of `event`, which arrived on this session.
    pub fn on_event(&self, config: &RemapConfig, event: &RawEvent) -> (verdict: Verdict)
        ensures
            verdict == self.spec_on_event(*config, *event),
    {
        if self.open {
            classify(config, event)
        } else {
            Verdict { result: EventResult::PassThrough, chord: None }
        }
    }
}

/// No two sessions are on the same device.
pub open spec fn distinct_devices(sessions: Seq<DeviceSession>) -> bool {
    forall|i: int, j: int|
        0 <= i < j < sessions.len() ==> (#[trigger] sessions[i]).device != (
        #[trigger] sessions[j]).device
}

/// Whether there is a session on `device`, open or not.
pub open spec fn has_session(sessions: Seq<DeviceSession>, device: u64) -> bool {
    exists|i: int| 0 <= i < sessions.len() && (#[trigger] sessions[i]).device == device
}

/// The place of the session on `device`, where there is one.
pub open spec fn index_of(sessions: Seq<DeviceSession>, device: u64) -> int {
    choose|i: int| 0 <= i < sessions.len() && (#[trigger] sessions[i]).device == device
}

/// Whether there is an open session on `device`.
pub open spec fn has_open_session(sessions: Seq<DeviceSession>, device: u64) -> bool {
    has_session(sessions, device) && sessions[index_of(sessions, device)].open
}

/// One request to close for each open session, in the order of the sessions.
pub open spec fn close_requests(sessions: Seq<DeviceSession>) -> Seq<HostRequest>
    decreases sessions.len(),
{
    if sessions.len() == 0 {
        Seq::empty()
    } else if sessions.last().open {
        close_requests(sessions.drop_last()).push(HostRequest::CloseSession(sessions.last().device))
    } else {
        close_requests(sessions.drop_last())
    }
}

/// The sessions after `device` was offered and taken: a closed session on
/// it comes last. Nothing changes if there is one already.
pub open spec fn with_session(sessions: Seq<DeviceSession>, device: u64) -> Seq<DeviceSession> {
    if has_session(sessions, device) {
        sessions
    } else {
        sessions.push(DeviceSession { device, open: false })
    }
}

/// The sessions after the session on `device` was opened.
pub open spec fn with_opened(sessions: Seq<DeviceSession>, device: u64) -> Seq<DeviceSession> {
    if has_session(sessions, device) {
        sessions.update(index_of(sessions, device), DeviceSession { device, open: true })
    } else {
        sessions
    }
}

/// The sessions without the one on `device`.
pub open spec fn without_session(sessions: Seq<DeviceSession>, device: u64) -> Seq<
    DeviceSession,
> {
    if has_session(sessions, device) {
        sessions.remove(index_of(sessions, device))
    } else {
        sessions
    }
}

/// In a table without doubles, the place of a session is the only place
/// with its device.
pub proof fn lemma_index_of_is_unique(sessions: Seq<DeviceSession>, at: int)
    requires
        distinct_devices(sessions),
        0 <= at < sessions.len(),
    ensures
        has_session(sessions, sessions[at].device),
        index_of(sessions, sessions[at].device) == at,
{
    let device = sessions[at].device;
    let found = index_of(sessions, device);
    assert(0 <= found < sessions.len() && sessions[found].device == device);
    if found < at {
        assert(sessions[found].device != sessions[at].device);
    } else if at < found {
        assert(sessions[at].device != sessions[found].device);
    }
}

/// Dropping the session on a device leaves no session on it, and leaves the
/// table without doubles.
pub proof fn lemma_without_session_forgets(sessions: Seq<DeviceSession>, device: u64)
    requires
        distinct_devices(sessions),
    ensures
        !has_session(without_session(sessions, device), device),
        distinct_devices(without_session(sessions, device)),
        without_session(without_session(sessions, device), device) == without_session(
            sessions,
            device,
        ),
{
    if has_session(sessions, device) {
        let at = index_of(sessions, device);
        let rest = sessions.remove(at);
        assert forall|k: int| 0 <= k < rest.len() implies (#[trigger] rest[k]).device
            != device by {
            if k < at {
                assert(rest[k] == sessions[k]);
                assert(sessions[k].device != sessions[at].device);
            } else {
                assert(rest[k] == sessions[k + 1]);
                assert(sessions[at].device != sessions[k + 1].device);
            }
        }
        assert forall|i: int, j: int| 0 <= i < j < rest.len() implies (#[trigger] rest[i]).device
            != (#[trigger] rest[j]).device by {
            let i0 = if i < at { i } else { i + 1 };
            let j0 = if j < at { j } else { j + 1 };
            assert(rest[i] == sessions[i0]);
            assert(rest[j] == sessions[j0]);
            assert(sessions[i0].device != sessions[j0].device);
        }
    }
}

/// What is done to the session on one device leaves the sessions on the
/// other devices as they are: there, and open or not, as before.
pub proof fn lemma_other_sessions_stay(sessions: Seq<DeviceSession>, device: u64, other: u64)
    requires
        distinct_devices(sessions),
        other != device,
    ensures
        has_session(without_session(sessions, device), other) == has_session(sessions, other),
        has_open_session(without_session(sessions, device), other) == has_open_session(
            sessions,
            other,
        ),
        has_session(with_opened(sessions, device), other) == has_session(sessions, other),
        has_open_session(with_opened(sessions, device), other) == has_open_session(
            sessions,
            other,
        ),
        has_session(with_session(sessions, device), other) == has_session(sessions, other),
        has_open_session(with_session(sessions, device), other) == has_open_session(
            sessions,
            other,
        ),
{
    lemma_without_session_forgets(sessions, device);
    lemma_with_session_keeps_distinct(sessions, device);
    lemma_with_opened_keeps_distinct(sessions, device);
    let removed = without_session(sessions, device);
    let opened = with_opened(sessions, device);
    let added = with_session(sessions, device);
    if has_session(sessions, other) {
        let at = index_of(sessions, other);
        lemma_index_of_is_unique(sessions, at);
        assert(opened[at] == sessions[at]);
        lemma_index_of_is_unique(opened, at);
        assert(added[at] == sessions[at]);
        lemma_index_of_is_unique(added, at);
        if has_session(sessions, device) {
            let gone = index_of(sessions, device);
            let to = if at < gone { at } else { at - 1 };
            assert(removed[to] == sessions[at]);
            lemma_index_of_is_unique(removed, to);
        }
    } else {
        if has_session(removed, other) {
            let k = index_of(removed, other);
            let gone = index_of(sessions, device);
            let from = if k < gone { k } else { k + 1 };
            assert(removed[k] == sessions[from]);
            assert(sessions[from].device == other);
        }
        if has_session(opened, other) {
            let k = index_of(opened, other);
            assert(sessions[k].device == other);
        }
        if has_session(added, other) {
            let k = index_of(added, other);
            assert(sessions[k].device == other);
        }
    }
}

/// Taking a device keeps the table without doubles, and the session on the
/// device is there afterwards.
pub proof fn lemma_with_session_keeps_distinct(sessions: Seq<DeviceSession>, device: u64)
    requires
        distinct_devices(sessions),
    ensures
        distinct_devices(with_session(sessions, device)),
        has_session(with_session(sessions, device), device),
{
    let added = with_session(sessions, device);
    if !has_session(sessions, device) {
        assert(added[sessions.len() as int].device == device);
        assert forall|i: int, j: int| 0 <= i < j < added.len() implies (#[trigger] added[i]).device
            != (#[trigger] added[j]).device by {
            assert(added[i] == sessions[i]);
            if j < sessions.len() {
                assert(added[j] == sessions[j]);
            }
        }
    }
}

/// Opening a session keeps the table without doubles, and the session is
/// open afterwards if it was there.
pub proof fn lemma_with_opened_keeps_distinct(sessions: Seq<DeviceSession>, device: u64)
    requires
        distinct_devices(sessions),
    ensures
        distinct_devices(with_opened(sessions, device)),
        has_session(sessions, device) ==> has_open_session(with_opened(sessions, device), device),
        has_session(with_opened(sessions, device), device) == has_session(sessions, device),
{
    let opened = with_opened(sessions, device);
    if has_session(sessions, device) {
        let at = index_of(sessions, device);
        assert forall|i: int, j: int| 0 <= i < j < opened.len() implies (
        #[trigger] opened[i]).device != (#[trigger] opened[j]).device by {
            assert(opened[i].device == sessions[i].device);
            assert(opened[j].device == sessions[j].device);
        }
        assert(opened[at].device == device);
        lemma_index_of_is_unique(opened, at);
    }
}

/// The requests that close the sessions ask to close exactly the open ones:
/// each request is a request to close, and a device is asked to be closed
/// if and only if its session is open.
pub proof fn lemma_close_requests_cover_open(sessions: Seq<DeviceSession>, device: u64)
    requires
        distinct_devices(sessions),
    ensures
        close_requests(sessions).contains(HostRequest::CloseSession(device)) == has_open_session(
            sessions,
            device,
        ),
        forall|k: int|
            0 <= k < close_requests(sessions).len() ==> #[trigger] close_requests(sessions)[k]
                is CloseSession,
    decreases sessions.len(),
{
    let requests = close_requests(sessions);
    let wanted = HostRequest::CloseSession(device);
    if sessions.len() > 0 {
        let front = sessions.drop_last();
        let last = sessions.last();
        assert forall|i: int, j: int| 0 <= i < j < front.len() implies (#[trigger] front[i]).device
            != (#[trigger] front[j]).device by {
            assert(front[i] == sessions[i]);
            assert(front[j] == sessions[j]);
        }
        lemma_close_requests_cover_open(front, device);
        let before = close_requests(front);
        if has_session(front, device) {
            let at = index_of(front, device);
            assert(sessions[at] == front[at]);
            lemma_index_of_is_unique(sessions, at);
            lemma_index_of_is_unique(front, at);
            assert(last.device != device) by {
                assert(sessions[at].device != sessions[sessions.len() - 1].device);
            }
        } else if last.device == device {
            lemma_index_of_is_unique(sessions, sessions.len() - 1);
        } else if has_session(sessions, device) {
            let at = index_of(sessions, device);
            assert(front[at].device == device);
        }
        if last.open {
            assert(requests == before.push(HostRequest::CloseSession(last.device)));
            if before.contains(wanted) {
                let k = choose|k: int| 0 <= k < before.len() && before[k] == wanted;
                assert(requests[k] == wanted);
            }
            if last.device == device {
                assert(requests[before.len() as int] == wanted);
            }
            if requests.contains(wanted) {
                let k = choose|k: int| 0 <= k < requests.len() && requests[k] == wanted;
                if k < before.len() {
                    assert(before[k] == wanted);
                }
            }
        }
    } else {
        assert(!requests.contains(wanted));
    }
}

/// The sessions the remapper holds, at most one for each device.
#[derive(Debug)]
pub struct SessionTable {
    sessions: Vec<DeviceSession>,
}

impl View for SessionTable {
    type V = Seq<DeviceSession>;

    closed spec fn view(&self) -> Seq<DeviceSession> {
        self.sessions@
    }
}

impl SessionTable {
    #[verifier::type_invariant]
    spec fn inv(self) -> bool {
        distinct_devices(self.sessions@)
    }

    /// A table without sessions.
    pub fn new() -> (table: SessionTable)
        ensures
            table@ == Seq::<DeviceSession>::empty(),
    {
        SessionTable { sessions: Vec::new() }
    }

    /// The number of sessions, open or not.
    pub fn len(&self) -> (n: usize)
        ensures
            n == self@.len(),
            distinct_devices(self@),
    {
        proof {
            use_type_invariant(self);
        }
        self.sessions.len()
    }

    /// Moves the sessions out and leaves none behind.
    fn take(&mut self) -> (sessions: Vec<DeviceSession>)
        ensures
            sessions@ == old(self)@,
            distinct_devices(sessions@),
            final(self)@ == Seq::<DeviceSession>::empty(),
    {
        proof {
            use_type_invariant(&*self);
        }
        let mut sessions: Vec<DeviceSession> = Vec::new();
        core::mem::swap(&mut self.sessions, &mut sessions);
        sessions
    }

    /// Finds the place of the session on `device`.
    fn find(&self, device: u64) -> (place: Option<usize>)
        ensures
            distinct_devices(self@),
            match place {
                Some(at) => has_session(self@, device) && at == index_of(self@, device) && at
                    < self@.len(),
                None => !has_session(self@, device),
            },
    {
        proof {
            use_type_invariant(self);
        }
        let mut i: usize = 0;
        while i < self.sessions.len()
            invariant
                i <= self.sessions.len(),
                distinct_devices(self.sessions@),
                forall|k: int| 0 <= k < i ==> (#[trigger] self.sessions@[k]).device != device,
            decreases self.sessions.len() - i,
        {
            if self.sessions[i].device == device {
                proof {
                    lemma_index_of_is_unique(self.sessions@, i as int);
                }
                return Some(i);
            }
            i += 1;
        }
        None
    }

    /// The session on `device`, if there is one.
    pub fn get(&self, device: u64) -> (session: Option<DeviceSession>)
        ensures
            distinct_devices(self@),
            session == if has_session(self@, device) {
                Some(self@[index_of(self@, device)])
            } else {
                None
            },
    {
        match self.find(device) {
            Some(at) => Some(self.sessions[at]),
            None => None,
        }
    }

    /// Adds a closed session on `device`, unless there is a session on it
    /// already. Tells whether it was added.
    pub fn add(&mut self, device: u64) -> (added: bool)
        ensures
            added == !has_session(old(self)@, device),
            final(self)@ == with_session(old(self)@, device),
            distinct_devices(final(self)@),
    {
        if self.find(device).is_some() {
            return false;
        }
        let mut sessions = self.take();
        sessions.push(DeviceSession { device, open: false });
        self.sessions = sessions;
        true
    }

    /// Marks the session on `device` open. Tells whether there is one.
    pub fn open(&mut self, device: u64) -> (found: bool)
        ensures
            found == has_session(old(self)@, device),
            final(self)@ == with_opened(old(self)@, device),
            distinct_devices(final(self)@),
    {
        match self.find(device) {
            Some(at) => {
                let mut sessions = self.take();
                sessions.set(at, DeviceSession { device, open: true });
                self.sessions = sessions;
                true
            },
            None => false,
        }
    }

    /// Drops the session on `device` and hands it back, if there is one.
    pub fn remove(&mut self, device: u64) -> (removed: Option<DeviceSession>)
        ensures
            removed == if has_session(old(self)@, device) {
                Some(old(self)@[index_of(old(self)@, device)])
            } else {
                None
            },
            final(self)@ == without_session(old(self)@, device),
            distinct_devices(final(self)@),
    {
        match self.find(device) {
            Some(at) => {
                let mut sessions = self.take();
                let session = sessions.remove(at);
                self.sessions = sessions;
                Some(session)
            },
            None => None,
        }
    }

    /// Drops every session and lists the requests that close the open ones.
    pub fn close_all(&mut self) -> (requests: Vec<HostRequest>)
        ensures
            requests@ == close_requests(old(self)@),
            final(self)@ == Seq::<DeviceSession>::empty(),
    {
        let sessions = self.take();
        let mut requests: Vec<HostRequest> = Vec::new();
        let mut i: usize = 0;
        while i < sessions.len()
            invariant
                i <= sessions.len(),
                requests@ == close_requests(sessions@.take(i as int)),
            decreases sessions.len() - i,
        {
            proof {
                assert(sessions@.take(i + 1).drop_last() =~= sessions@.take(i as int));
            }
            if sessions[i].open {
                requests.push(HostRequest::CloseSession(sessions[i].device));
            }
            i += 1;
        }
        proof {
            assert(sessions@.take(i as int) =~= sessions@);
        }
        requests
    }
}

} // verus!
