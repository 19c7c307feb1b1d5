//! The module as a whole: loading, the sessions it holds while loaded, the
//! events it handles, and unloading.
//!
//! Nothing here calls the host. Every function takes what has happened and
//! returns what the host is to be asked next; the caller performs the
//! requests in the order given.

use vstd::prelude::*;
use crate::config::RemapConfig;
use crate::device::{device_matches, is_m720_device, DeviceView, PhysicalDevice};
use crate::event::{
    lemma_extra_press_goes_up, lemma_other_events_pass_through,
    lemma_remap_off_passes_everything, lemma_side_press_goes_down, EventResult, RawEvent, Verdict,
};
use crate::host::{Errno, HostRequest, STATUS_LOADED};
use crate::injector::{Chord, InjectError, InjectionView, OutputOp};
use crate::keys::{EventType, Key, VALUE_PRESS};
use crate::session::{
    close_requests, distinct_devices, has_open_session, has_session, index_of,
    lemma_close_requests_cover_open, lemma_index_of_is_unique, lemma_other_sessions_stay,
    lemma_with_opened_keeps_distinct, lemma_with_session_keeps_distinct,
    lemma_without_session_forgets, with_opened, with_session, without_session, DeviceSession,
    SessionTable,
};
use crate::virtual_device::{
    advertised_event_types, advertised_keys, lemma_complete_op_keeps_order, VirtualDeviceView,
    VirtualOutputDevice,
};

verus! {

/// Number of host requests a load is made of.
pub const LOAD_STEPS: usize = 7;

/// The requests that load the module, in the order in which they are made:
/// the virtual keyboard is created, told what it can report, and
/// registered; then the handler is registered.
pub open spec fn load_plan() -> Seq<HostRequest> {
    seq![
        HostRequest::CreateVirtualDevice,
        HostRequest::SetCapability(EventType::Key),
        HostRequest::SetKeyCapability(Key::LeftMeta),
        HostRequest::SetKeyCapability(Key::PageUp),
        HostRequest::SetKeyCapability(Key::PageDown),
        HostRequest::RegisterVirtualDevice,
        HostRequest::RegisterHandler,
    ]
}

/// The requests that give back what a load has acquired when the request
/// after the first `done` ones fails: nothing if not even the keyboard was
/// created, else the keyboard, which is unregistered if it was registered
/// and merely freed if it was not.
pub open spec fn unwind_plan(done: nat) -> Seq<HostRequest> {
    if done == 0 {
        Seq::empty()
    } else if done <= 5 {
        seq![HostRequest::DestroyVirtualDevice]
    } else {
        seq![HostRequest::UnregisterVirtualDevice]
    }
}

/// The module as a mathematical value.
pub struct RemapperView {
    pub config: RemapConfig,
    pub keyboard: VirtualDeviceView,
    /// The sessions in the order in which their devices were accepted.
    pub sessions: Seq<DeviceSession>,
}

impl RemapperView {
    /// The module is loaded from the end of a successful load until it is
    /// unloaded; that is exactly while its keyboard is registered.
    pub open spec fn loaded(self) -> bool {
        self.keyboard.registered
    }

    /// The keyboard is well formed, no device has two sessions, and there
    /// are sessions only while the module is loaded.
    pub open spec fn wf(self) -> bool {
        &&& self.keyboard.wf()
        &&& distinct_devices(self.sessions)
        &&& !self.loaded() ==> self.sessions.len() == 0
    }

    /// A module that has just been loaded with `config`.
    pub open spec fn fresh(config: RemapConfig) -> RemapperView {
        RemapperView { config, keyboard: VirtualDeviceView::idle(), sessions: Seq::empty() }
    }

    /// Whether an offered device is taken: the module is loaded, the device
    /// is an M720, and there is no session on it yet.
    pub open spec fn accepts(self, device: u64, description: DeviceView) -> bool {
        self.loaded() && device_matches(description) && !has_session(self.sessions, device)
    }

    /// The module after a device was offered.
    pub open spec fn connect(self, device: u64, description: DeviceView) -> RemapperView {
        if self.accepts(device, description) {
            RemapperView { sessions: with_session(self.sessions, device), ..self }
        } else {
            self
        }
    }

    /// Whether a session on `device` waits for the host to open the device.
    pub open spec fn awaits_open(self, device: u64) -> bool {
        has_session(self.sessions, device) && !has_open_session(self.sessions, device)
    }

    /// The module after the host has told how opening `device` went. A
    /// session that waited is open now, or gone if opening failed; nothing
    /// else changes.
    pub open spec fn session_opened(self, device: u64, ok: bool) -> RemapperView {
        if !self.awaits_open(device) {
            self
        } else if ok {
            RemapperView { sessions: with_opened(self.sessions, device), ..self }
        } else {
            RemapperView { sessions: without_session(self.sessions, device), ..self }
        }
    }

    /// Whether the offer of `device` ends accepted.
    pub open spec fn session_accepted(self, device: u64, ok: bool) -> bool {
        has_session(self.sessions, device) && (ok || has_open_session(self.sessions, device))
    }

    /// The module after `device` was withdrawn.
    pub open spec fn disconnect(self, device: u64) -> RemapperView {
        RemapperView { sessions: without_session(self.sessions, device), ..self }
    }

    /// What becomes of an event that `device` reported. An event reaches the
    /// classifier only through an open session of a loaded module.
    pub open spec fn verdict(self, device: u64, event: RawEvent) -> Verdict {
        if self.loaded() && has_session(self.sessions, device) {
            self.sessions[index_of(self.sessions, device)].spec_on_event(self.config, event)
        } else {
            Verdict::pass_through()
        }
    }

    /// The module after an event that `device` reported: the chord the
    /// verdict asks for, if any, is handed to the keyboard, once.
    pub open spec fn handle_event(self, device: u64, event: RawEvent) -> RemapperView {
        match self.verdict(device, event).chord {
            Some(chord) => RemapperView { keyboard: self.keyboard.inject(chord), ..self },
            None => self,
        }
    }

    /// The module after the operation that was handed out went well or
    /// failed.
    pub open spec fn output_done(self, ok: bool) -> RemapperView {
        RemapperView { keyboard: self.keyboard.complete_op(ok), ..self }
    }

    /// The module after it was unloaded.
    pub open spec fn cleanup(self) -> RemapperView {
        if self.loaded() {
            RemapperView {
                keyboard: VirtualDeviceView::unregistered(),
                sessions: Seq::empty(),
                ..self
            }
        } else {
            self
        }
    }

    /// The requests that unload the module: the handler is taken back, the
    /// sessions that are still open are closed, and last the keyboard is
    /// unregistered. A module that is not loaded asks for nothing.
    pub open spec fn cleanup_requests(self) -> Seq<HostRequest> {
        if self.loaded() {
            seq![HostRequest::UnregisterHandler] + close_requests(self.sessions)
                + seq![HostRequest::UnregisterVirtualDevice]
        } else {
            Seq::empty()
        }
    }
}

/// The loaded module.
#[derive(Debug)]
pub struct M720Remapper {
    config: RemapConfig,
    virtual_kbd: VirtualOutputDevice,
    sessions: SessionTable,
}

impl View for M720Remapper {
    type V = RemapperView;

    closed spec fn view(&self) -> RemapperView {
        RemapperView {
            config: self.config,
            keyboard: self.virtual_kbd@,
            sessions: self.sessions@,
        }
    }
}

impl M720Remapper {
    /// The module at the end of a successful load.
    fn loaded(config: RemapConfig) -> (module: M720Remapper)
        ensures
            module@ == RemapperView::fresh(config),
    {
        let mut virtual_kbd = VirtualOutputDevice::new();
        virtual_kbd.register();
        M720Remapper { config, virtual_kbd, sessions: SessionTable::new() }
    }

    /// The switches the module was loaded with.
    pub fn config(&self) -> (config: RemapConfig)
        ensures
            config == self@.config,
    {
        self.config
    }

    /// Whether the module is loaded.
    pub fn is_loaded(&self) -> (loaded: bool)
        ensures
            loaded == self@.loaded(),
    {
        self.virtual_kbd.is_registered()
    }

    /// The session on `device`, if there is one.
    pub fn session(&self, device: u64) -> (session: Option<DeviceSession>)
        ensures
            session == if has_session(self@.sessions, device) {
                Some(self@.sessions[index_of(self@.sessions, device)])
            } else {
                None
            },
    {
        self.sessions.get(device)
    }

    /// The number of sessions, open or waiting to be opened.
    pub fn session_count(&self) -> (n: usize)
        ensures
            n == self@.sessions.len(),
    {
        self.sessions.len()
    }

    /// The host offers a device. If the module takes it, the host is asked
    /// to open it and has to report the result to `session_opened`. `None`
    /// declines the device, which is no error.
    pub fn connect_device(&mut self, device: u64, description: &PhysicalDevice) -> (request:
        Option<HostRequest>)
        ensures
            final(self)@ == old(self)@.connect(device, description@),
            request == if old(self)@.accepts(device, description@) {
                Some(HostRequest::OpenSession(device))
            } else {
                None
            },
            old(self)@.wf() ==> final(self)@.wf(),
    {
        if !self.virtual_kbd.is_registered() {
            return None;
        }
        if !is_m720_device(description) {
            return None;
        }
        if self.sessions.add(device) {
            Some(HostRequest::OpenSession(device))
        } else {
            None
        }
    }

    /// The host tells how opening `device` went. Returns whether the offer
    /// of the device ends accepted. A failure declines this device and
    /// leaves every other session alone.
    pub fn session_opened(&mut self, device: u64, ok: bool) -> (accepted: bool)
        ensures
            final(self)@ == old(self)@.session_opened(device, ok),
            accepted == old(self)@.session_accepted(device, ok),
            old(self)@.wf() ==> final(self)@.wf(),
    {
        match self.sessions.get(device) {
            Some(session) => {
                if session.open {
                    true
                } else if ok {
                    self.sessions.open(device);
                    true
                } else {
                    self.sessions.remove(device);
                    false
                }
            },
            None => false,
        }
    }

    /// The host withdraws a device. Its session is dropped; if it was open,
    /// the host is asked to close it. Withdrawing a device twice, or one
    /// that was never taken, does nothing.
    pub fn disconnect_device(&mut self, device: u64) -> (request: Option<HostRequest>)
        ensures
            final(self)@ == old(self)@.disconnect(device),
            request == if has_open_session(old(self)@.sessions, device) {
                Some(HostRequest::CloseSession(device))
            } else {
                None
            },
            old(self)@.wf() ==> final(self)@.wf(),
    {
        match self.sessions.remove(device) {
            Some(session) => {
                if session.open {
                    Some(HostRequest::CloseSession(device))
                } else {
                    None
                }
            },
            None => None,
        }
    }

    /// Handles an event that `device` reported. Where the verdict asks for a
    /// chord, the chord is handed to the keyboard; it is written by
    /// performing what `next_output` hands out. The event is consumed
    /// whether or not that writing goes well.
    pub fn handle_event(&mut self, device: u64, event: &RawEvent) -> (verdict: Verdict)
        ensures
            verdict == old(self)@.verdict(device, *event),
            final(self)@ == old(self)@.handle_event(device, *event),
            old(self)@.wf() ==> final(self)@.wf(),
    {
        let pass = Verdict { result: EventResult::PassThrough, chord: None };
        if !self.virtual_kbd.is_registered() {
            return pass;
        }
        let verdict = match self.sessions.get(device) {
            Some(session) => session.on_event(&self.config, event),
            None => pass,
        };
        if let Some(chord) = verdict.chord {
            let _ = self.virtual_kbd.inject(chord);
        }
        verdict
    }

    /// The operation to make on the virtual keyboard now, or `None` when no
    /// chord is waiting.
    pub fn next_output(&self) -> (op: Option<OutputOp>)
        ensures
            op == self@.keyboard.next_op(),
    {
        self.virtual_kbd.next_op()
    }

    /// Records how the operation that `next_output` handed out went. When
    /// that finishes a chord, tells what the chord came to.
    pub fn output_done(&mut self, ok: bool) -> (outcome: Option<Result<(), InjectError>>)
        ensures
            final(self)@ == old(self)@.output_done(ok),
            outcome == old(self)@.keyboard.completion(ok),
            old(self)@.wf() ==> final(self)@.wf(),
    {
        self.virtual_kbd.complete_op(ok)
    }
}

/// A load in progress.
#[derive(Debug)]
pub struct Loader {
    config: RemapConfig,
    done: usize,
}

/// A load in progress as a mathematical value.
pub struct LoaderView {
    pub config: RemapConfig,
    /// Requests of the plan that were made and went well.
    pub done: nat,
}

impl View for Loader {
    type V = LoaderView;

    closed spec fn view(&self) -> LoaderView {
        LoaderView { config: self.config, done: self.done as nat }
    }
}

/// Where a load stands after one more request was answered.
#[derive(Debug)]
pub enum LoadStep {
    /// There is another request to make.
    Continue(Loader),
    /// Every request went well: the module is loaded.
    Loaded(M720Remapper),
    /// A request failed. The load ends with `status`, which is negative,
    /// once the requests in `unwind` have been made, in their order.
    Failed { status: i32, unwind: Vec<HostRequest> },
}

/// `LoadStep` as a mathematical value.
pub enum LoadStepView {
    Continue(LoaderView),
    Loaded(RemapperView),
    Failed { status: int, unwind: Seq<HostRequest> },
}

impl View for LoadStep {
    type V = LoadStepView;

    open spec fn view(&self) -> LoadStepView {
        match self {
            LoadStep::Continue(loader) => LoadStepView::Continue(loader@),
            LoadStep::Loaded(module) => LoadStepView::Loaded(module@),
            LoadStep::Failed { status, unwind } => LoadStepView::Failed {
                status: *status as int,
                unwind: unwind@,
            },
        }
    }
}

impl LoaderView {
    pub open spec fn wf(self) -> bool {
        self.done < LOAD_STEPS
    }

    /// The request to make now.
    pub open spec fn request(self) -> HostRequest {
        load_plan()[self.done as int]
    }

    /// Where the load stands after the request was answered: `None` says
    /// that it went well, `Some` holds the code it failed with.
    pub open spec fn advance(self, failure: Option<int>) -> LoadStepView {
        match failure {
            Some(code) => LoadStepView::Failed { status: code, unwind: unwind_plan(self.done) },
            None => if self.done + 1 < LOAD_STEPS {
                LoadStepView::Continue(LoaderView { done: self.done + 1, ..self })
            } else {
                LoadStepView::Loaded(RemapperView::fresh(self.config))
            },
        }
    }
}

impl LoadStepView {
    /// The status the load ends with, once it has ended: zero for a loaded
    /// module, the failure's code otherwise.
    pub open spec fn status(self) -> Option<int> {
        match self {
            LoadStepView::Continue(_) => None,
            LoadStepView::Loaded(_) => Some(STATUS_LOADED as int),
            LoadStepView::Failed { status, .. } => Some(status),
        }
    }
}

/// The code a failed request is reported with, if it failed.
pub open spec fn failure_of(outcome: Result<(), Errno>) -> Option<int> {
    match outcome {
        Ok(_) => None,
        Err(errno) => Some(errno@),
    }
}

impl Loader {
    #[verifier::type_invariant]
    spec fn inv(self) -> bool {
        self.done < LOAD_STEPS
    }

    /// The request to make now. The caller makes it and hands the result
    /// to `advance`.
    pub fn request(&self) -> (request: HostRequest)
        ensures
            self@.wf(),
            request == self@.request(),
    {
        proof {
            use_type_invariant(self);
        }
        match self.done {
            0 => HostRequest::CreateVirtualDevice,
            1 => HostRequest::SetCapability(EventType::Key),
            2 => HostRequest::SetKeyCapability(Key::LeftMeta),
            3 => HostRequest::SetKeyCapability(Key::PageUp),
            4 => HostRequest::SetKeyCapability(Key::PageDown),
            5 => HostRequest::RegisterVirtualDevice,
            _ => HostRequest::RegisterHandler,
        }
    }

    /// Takes the result of the request that `request` handed out. On a
    /// failure the load is over: what was acquired is given back, last
    /// acquired first, and the failure's code is the status.
    pub fn advance(self, outcome: Result<(), Errno>) -> (step: LoadStep)
        ensures
            self@.wf(),
            step@ == self@.advance(failure_of(outcome)),
            step matches LoadStep::Failed { status, .. } ==> status < 0,
            step matches LoadStep::Continue(next) ==> next@.wf(),
            step matches LoadStep::Loaded(module) ==> module@.wf(),
    {
        proof {
            use_type_invariant(&self);
        }
        match outcome {
            Ok(_) => {
                if self.done + 1 < LOAD_STEPS {
                    LoadStep::Continue(Loader { config: self.config, done: self.done + 1 })
                } else {
                    LoadStep::Loaded(M720Remapper::loaded(self.config))
                }
            },
            Err(errno) => {
                let mut unwind: Vec<HostRequest> = Vec::new();
                if self.done > 5 {
                    unwind.push(HostRequest::UnregisterVirtualDevice);
                } else if self.done > 0 {
                    unwind.push(HostRequest::DestroyVirtualDevice);
                }
                assert(unwind@ =~= unwind_plan(self.done as nat));
                LoadStep::Failed { status: errno.code(), unwind }
            },
        }
    }
}

impl LoadStep {
    /// The status the load ends with: `None` while requests are outstanding,
    /// zero for a loaded module, the negative code of the failure otherwise.
    pub fn status(&self) -> (status: Option<i32>)
        ensures
            match status {
                Some(code) => self@.status() == Some(code as int),
                None => self@.status() is None,
            },
    {
        match self {
            LoadStep::Continue(_) => None,
            LoadStep::Loaded(_) => Some(STATUS_LOADED),
            LoadStep::Failed { status, .. } => Some(*status),
        }
    }
}

/// Begins to load the module with `config`. Nothing is acquired yet; the
/// first request is the one that `request` hands out.
pub fn init_module(config: RemapConfig) -> (loader: Loader)
    ensures
        loader@ == (LoaderView { config, done: 0 }),
        loader@.wf(),
{
    Loader { config, done: 0 }
}

/// Unloads the module and lists what the host is to be asked, in order:
/// the handler is taken back, the sessions that are still open are closed,
/// and last the virtual keyboard is unregistered. Chords that were waiting
/// are dropped. Unloading a module that is not loaded does nothing.
pub fn cleanup_module(module: &mut M720Remapper) -> (requests: Vec<HostRequest>)
    ensures
        final(module)@ == old(module)@.cleanup(),
        requests@ == old(module)@.cleanup_requests(),
        old(module)@.wf() ==> final(module)@.wf(),
{
    let mut requests: Vec<HostRequest> = Vec::new();
    if !module.virtual_kbd.is_registered() {
        return requests;
    }
    requests.push(HostRequest::UnregisterHandler);
    let mut closes = module.sessions.close_all();
    requests.append(&mut closes);
    requests.push(HostRequest::UnregisterVirtualDevice);
    module.virtual_kbd.unregister();
    requests
}

/// A module that has just been loaded is well formed.
pub proof fn lemma_fresh_is_wf(config: RemapConfig)
    ensures
        RemapperView::fresh(config).wf(),
        RemapperView::fresh(config).loaded(),
{
}

/// Whatever happens to a well-formed module leaves it well formed. So in
/// every state that a load can lead to, no device has two sessions, and a
/// session exists only while the virtual keyboard is registered.
pub proof fn lemma_wf_is_preserved(
    module: RemapperView,
    device: u64,
    description: DeviceView,
    event: RawEvent,
    ok: bool,
)
    requires
        module.wf(),
    ensures
        module.connect(device, description).wf(),
        module.session_opened(device, ok).wf(),
        module.disconnect(device).wf(),
        module.handle_event(device, event).wf(),
        module.output_done(ok).wf(),
        module.cleanup().wf(),
{
    lemma_with_session_keeps_distinct(module.sessions, device);
    lemma_with_opened_keeps_distinct(module.sessions, device);
    lemma_without_session_forgets(module.sessions, device);
    if module.keyboard.queue.len() > 0 {
        lemma_complete_op_keeps_order(module.keyboard, ok);
    }
}

/// Unloading twice is unloading once: the second time nothing changes and
/// the host is asked for nothing.
pub proof fn lemma_cleanup_is_idempotent(module: RemapperView)
    ensures
        module.cleanup().cleanup() == module.cleanup(),
        module.cleanup().cleanup_requests() == Seq::<HostRequest>::empty(),
        !module.cleanup().loaded(),
{
}

/// After unloading nothing can be injected any more: no operation is
/// waiting, no event is consumed or asks for a chord, no device is taken,
/// and none of these calls changes the module.
pub proof fn lemma_nothing_injectable_after_cleanup(
    module: RemapperView,
    device: u64,
    description: DeviceView,
    event: RawEvent,
    ok: bool,
)
    requires
        module.wf(),
    ensures
        module.cleanup().keyboard.next_op() is None,
        module.cleanup().keyboard.completion(ok) is None,
        module.cleanup().verdict(device, event) == Verdict::pass_through(),
        module.cleanup().handle_event(device, event) == module.cleanup(),
        module.cleanup().output_done(ok) == module.cleanup(),
        module.cleanup().connect(device, description) == module.cleanup(),
        !module.cleanup().accepts(device, description),
{
}

/// Unloading asks for the handler first and for the keyboard last, and in
/// between closes every session that is open, and nothing else. So no
/// session outlives the keyboard.
pub proof fn lemma_cleanup_closes_sessions_first(module: RemapperView, device: u64)
    requires
        module.wf(),
        module.loaded(),
    ensures
        module.cleanup_requests().first() == HostRequest::UnregisterHandler,
        module.cleanup_requests().last() == HostRequest::UnregisterVirtualDevice,
        module.cleanup_requests().len() == close_requests(module.sessions).len() + 2,
        forall|k: int|
            0 < k < module.cleanup_requests().len() - 1 ==> #[trigger] module.cleanup_requests()[k]
                is CloseSession,
        has_open_session(module.sessions, device) <==> exists|k: int|
            0 < k < module.cleanup_requests().len() - 1 && #[trigger] module.cleanup_requests()[k]
                == HostRequest::CloseSession(device),
{
    let closes = close_requests(module.sessions);
    let requests = module.cleanup_requests();
    let wanted = HostRequest::CloseSession(device);
    lemma_close_requests_cover_open(module.sessions, device);
    assert forall|k: int| 0 < k < requests.len() - 1 implies #[trigger] requests[k]
        is CloseSession by {
        assert(requests[k] == closes[k - 1]);
    }
    if has_open_session(module.sessions, device) {
        let at = choose|at: int| 0 <= at < closes.len() && closes[at] == wanted;
        assert(requests[at + 1] == wanted);
    }
    if exists|k: int| 0 < k < requests.len() - 1 && #[trigger] requests[k] == wanted {
        let k = choose|k: int| 0 < k < requests.len() - 1 && #[trigger] requests[k] == wanted;
        assert(closes[k - 1] == wanted);
    }
}

/// On an open session of a loaded module, an event that is not a key
/// event, or not a press, or not of a thumb button, passes through and
/// writes nothing. The one exception is the release of a thumb button while
/// remapping is on.
pub proof fn lemma_module_passes_other_events(module: RemapperView, device: u64, event: RawEvent)
    requires
        module.loaded(),
        has_open_session(module.sessions, device),
        event.event_type != EventType::Key || event.value != VALUE_PRESS
            || !event.code.is_watched(),
        !(module.config.remap_side_buttons && event.is_watched_release()),
    ensures
        module.verdict(device, event) == Verdict::pass_through(),
        module.handle_event(device, event) == module,
{
    lemma_other_events_pass_through(module.config, event);
}

/// On an open session of a loaded module with remapping on, a press of the
/// side button is consumed and hands the keyboard one chord, left meta and
/// page down, and nothing else.
pub proof fn lemma_module_side_press(module: RemapperView, device: u64, event: RawEvent)
    requires
        module.loaded(),
        has_open_session(module.sessions, device),
        module.config.remap_side_buttons,
        event.is_press_of(Key::ButtonSide),
    ensures
        module.verdict(device, event).result == EventResult::Consumed,
        module.verdict(device, event).chord == Some(
            Chord { modifier: Key::LeftMeta, key: Key::PageDown },
        ),
        module.handle_event(device, event).keyboard.queue == module.keyboard.queue.push(
            InjectionView::fresh(Chord { modifier: Key::LeftMeta, key: Key::PageDown }),
        ),
        module.handle_event(device, event).sessions == module.sessions,
{
    lemma_side_press_goes_down(module.config, event);
}

/// On an open session of a loaded module with remapping on, a press of the
/// extra button is consumed and hands the keyboard one chord, left meta and
/// page up, and nothing else.
pub proof fn lemma_module_extra_press(module: RemapperView, device: u64, event: RawEvent)
    requires
        module.loaded(),
        has_open_session(module.sessions, device),
        module.config.remap_side_buttons,
        event.is_press_of(Key::ButtonExtra),
    ensures
        module.verdict(device, event).result == EventResult::Consumed,
        module.verdict(device, event).chord == Some(
            Chord { modifier: Key::LeftMeta, key: Key::PageUp },
        ),
        module.handle_event(device, event).keyboard.queue == module.keyboard.queue.push(
            InjectionView::fresh(Chord { modifier: Key::LeftMeta, key: Key::PageUp }),
        ),
        module.handle_event(device, event).sessions == module.sessions,
{
    lemma_extra_press_goes_up(module.config, event);
}

/// With remapping off the module passes every event through, the presses of
/// the two thumb buttons among them, and writes nothing.
pub proof fn lemma_module_remap_off(module: RemapperView, device: u64, event: RawEvent)
    requires
        !module.config.remap_side_buttons,
    ensures
        module.verdict(device, event) == Verdict::pass_through(),
        module.handle_event(device, event) == module,
{
    lemma_remap_off_passes_everything(module.config, event);
}

/// An event on a device without an open session never reaches the
/// classifier: it passes through and writes nothing.
pub proof fn lemma_module_needs_open_session(module: RemapperView, device: u64, event: RawEvent)
    requires
        !has_open_session(module.sessions, device),
    ensures
        module.verdict(device, event) == Verdict::pass_through(),
        module.handle_event(device, event) == module,
{
}

/// A device is taken exactly when it is an M720, the module is loaded and
/// the device has no session yet; a device that is taken has a session
/// that waits to be opened, and a device that is declined changes nothing.
pub proof fn lemma_connect_follows_matcher(
    module: RemapperView,
    device: u64,
    description: DeviceView,
)
    requires
        module.wf(),
    ensures
        !device_matches(description) ==> module.connect(device, description) == module,
        module.accepts(device, description) ==> module.connect(device, description).awaits_open(
            device,
        ),
        module.accepts(device, description) ==> module.connect(device, description).sessions.len()
            == module.sessions.len() + 1,
{
    if module.accepts(device, description) {
        let added = with_session(module.sessions, device);
        lemma_with_session_keeps_distinct(module.sessions, device);
        assert(added[module.sessions.len() as int].device == device);
        lemma_index_of_is_unique(added, module.sessions.len() as int);
    }
}

/// The offer of a device ends accepted exactly when the device has an open
/// session afterwards. Where opening failed the device has no session at
/// all, and the sessions on all other devices are as they were.
pub proof fn lemma_open_result_settles_offer(
    module: RemapperView,
    device: u64,
    other: u64,
    ok: bool,
)
    requires
        module.wf(),
        other != device,
    ensures
        module.session_accepted(device, ok) == has_open_session(
            module.session_opened(device, ok).sessions,
            device,
        ),
        module.awaits_open(device) && !ok ==> !has_session(
            module.session_opened(device, ok).sessions,
            device,
        ),
        has_session(module.session_opened(device, ok).sessions, other) == has_session(
            module.sessions,
            other,
        ),
        has_open_session(module.session_opened(device, ok).sessions, other) == has_open_session(
            module.sessions,
            other,
        ),
{
    lemma_with_opened_keeps_distinct(module.sessions, device);
    lemma_without_session_forgets(module.sessions, device);
    lemma_other_sessions_stay(module.sessions, device, other);
}

/// Withdrawing a device twice is withdrawing it once: after the first time
/// the device has no session, so the second time nothing changes and
/// nothing is asked of the host. The other sessions are as they were.
pub proof fn lemma_disconnect_is_idempotent(module: RemapperView, device: u64, other: u64)
    requires
        module.wf(),
        other != device,
    ensures
        !has_session(module.disconnect(device).sessions, device),
        !has_open_session(module.disconnect(device).sessions, device),
        module.disconnect(device).disconnect(device) == module.disconnect(device),
        has_open_session(module.disconnect(device).sessions, other) == has_open_session(
            module.sessions,
            other,
        ),
{
    lemma_without_session_forgets(module.sessions, device);
    lemma_other_sessions_stay(module.sessions, device, other);
}

/// Every key of the two chords the classifier asks for is a key that the
/// load plan lets the virtual keyboard advertise, and the plan advertises
/// nothing but the advertised keys and the key event class.
pub proof fn lemma_plan_advertises_chord_keys()
    ensures
        forall|key: Key|
            advertised_keys().contains(key) <==> load_plan().contains(
                HostRequest::SetKeyCapability(key),
            ),
        forall|event_type: EventType|
            advertised_event_types().contains(event_type) <==> load_plan().contains(
                HostRequest::SetCapability(event_type),
            ),
        advertised_keys().contains(Chord::down().modifier),
        advertised_keys().contains(Chord::down().key),
        advertised_keys().contains(Chord::up().modifier),
        advertised_keys().contains(Chord::up().key),
{
    let plan = load_plan();
    assert(plan[1] == HostRequest::SetCapability(EventType::Key));
    assert(plan[2] == HostRequest::SetKeyCapability(Key::LeftMeta));
    assert(plan[3] == HostRequest::SetKeyCapability(Key::PageUp));
    assert(plan[4] == HostRequest::SetKeyCapability(Key::PageDown));
}

/// A load that is answered well seven times ends loaded with status zero;
/// one that is answered with a failure ends at once, with the failure's
/// code, and gives back what it had acquired.
pub proof fn lemma_load_ends(loader: LoaderView, code: int)
    requires
        loader.wf(),
    ensures
        loader.advance(Some(code)).status() == Some(code),
        loader.advance(Some(code)) matches LoadStepView::Failed { unwind, .. } && unwind
            == unwind_plan(loader.done),
        loader.advance(None).status() == if loader.done == LOAD_STEPS - 1 {
            Some(0int)
        } else {
            None
        },
        loader.advance(None) matches LoadStepView::Continue(next) ==> next.wf() && next.done
            == loader.done + 1,
        loader.advance(None) matches LoadStepView::Loaded(module) ==> module.wf()
            && module.loaded() && module.sessions.len() == 0 && module.keyboard.queue.len() == 0,
{
}

} // verus!
