use m720_remapper::config::RemapConfig;
use m720_remapper::device::PhysicalDevice;
use m720_remapper::event::{EventResult, RawEvent};
use m720_remapper::fault::FaultAction;
use m720_remapper::host::{
    Errno, HostRequest, EINVAL, HANDLER_NAME, STATUS_LOADED, VIRTUAL_DEVICE_NAME,
};
use m720_remapper::keys::{EventType, Key};
use m720_remapper::remapper::{cleanup_module, init_module, LoadStep, M720Remapper, LOAD_STEPS};
use m720_remapper::session::{DeviceSession, SessionTable};

fn load_plan_requests() -> Vec<HostRequest> {
    vec![
        HostRequest::CreateVirtualDevice,
        HostRequest::SetCapability(EventType::Key),
        HostRequest::SetKeyCapability(Key::LeftMeta),
        HostRequest::SetKeyCapability(Key::PageUp),
        HostRequest::SetKeyCapability(Key::PageDown),
        HostRequest::RegisterVirtualDevice,
        HostRequest::RegisterHandler,
    ]
}

/// Drives a load in which the request after the first `fail_at` ones fails
/// with `code`. Returns the requests made and the last step.
fn drive_load(fail_at: Option<usize>, code: i32) -> (Vec<HostRequest>, LoadStep) {
    let mut loader = init_module(RemapConfig::default());
    let mut made = Vec::new();
    loop {
        made.push(loader.request());
        let outcome =
            if Some(made.len() - 1) == fail_at { Err(Errno::new(code)) } else { Ok(()) };
        match loader.advance(outcome) {
            LoadStep::Continue(next) => loader = next,
            last => return (made, last),
        }
    }
}

fn loaded_module(config: RemapConfig) -> M720Remapper {
    let mut loader = init_module(config);
    loop {
        match loader.advance(Ok(())) {
            LoadStep::Continue(next) => loader = next,
            LoadStep::Loaded(module) => return module,
            LoadStep::Failed { .. } => panic!("a load without failures does not fail"),
        }
    }
}

fn m720() -> PhysicalDevice {
    PhysicalDevice::new(
        Some("Logitech M720 Triathlon".to_string()),
        vec![EventType::Key, EventType::Relative],
        vec![Key::ButtonLeft, Key::ButtonSide, Key::ButtonExtra],
    )
}

fn accept(module: &mut M720Remapper, device: u64) {
    assert_eq!(module.connect_device(device, &m720()), Some(HostRequest::OpenSession(device)));
    assert!(module.session_opened(device, true));
}

#[test]
fn names_are_fixed() {
    assert_eq!(VIRTUAL_DEVICE_NAME, "M720 Virtual Keyboard");
    assert_eq!(HANDLER_NAME, "m720_remapper");
    assert_eq!(STATUS_LOADED, 0);
    assert_eq!(LOAD_STEPS, 7);
}

#[test]
fn errno_keeps_negative_codes() {
    assert_eq!(Errno::new(-12).code(), -12);
    assert_eq!(Errno::new(-1).code(), -1);
    assert_eq!(Errno::new(i32::MIN).code(), i32::MIN);
}

#[test]
fn errno_replaces_codes_that_are_not_negative() {
    assert_eq!(EINVAL, -22);
    assert_eq!(Errno::new(0).code(), -22);
    assert_eq!(Errno::new(12).code(), -22);
    assert_eq!(Errno::new(i32::MAX).code(), -22);
}

#[test]
fn load_makes_the_requests_of_the_plan_in_order() {
    let (made, last) = drive_load(None, 0);
    assert_eq!(made, load_plan_requests());
    assert_eq!(last.status(), Some(0));
    match last {
        LoadStep::Loaded(module) => {
            assert!(module.is_loaded());
            assert_eq!(module.session_count(), 0);
            assert_eq!(module.next_output(), None);
            assert_eq!(module.config(), RemapConfig::default());
        }
        _ => panic!("the load did not end loaded"),
    }
}

#[test]
fn load_keeps_the_configuration() {
    let config = RemapConfig::new(false, true);
    assert_eq!(loaded_module(config).config(), config);
}

#[test]
fn load_has_no_status_while_requests_are_outstanding() {
    let loader = init_module(RemapConfig::default());
    assert_eq!(loader.request(), HostRequest::CreateVirtualDevice);
    let step = loader.advance(Ok(()));
    assert_eq!(step.status(), None);
    match step {
        LoadStep::Continue(next) => {
            assert_eq!(next.request(), HostRequest::SetCapability(EventType::Key))
        }
        _ => panic!("the load ended after one request"),
    }
}

#[test]
fn failed_creation_has_nothing_to_give_back() {
    let (made, last) = drive_load(Some(0), -12);
    assert_eq!(made, vec![HostRequest::CreateVirtualDevice]);
    assert_eq!(last.status(), Some(-12));
    match last {
        LoadStep::Failed { status, unwind } => {
            assert_eq!(status, -12);
            assert_eq!(unwind, Vec::<HostRequest>::new());
        }
        _ => panic!("the load did not fail"),
    }
}

#[test]
fn failure_before_registration_frees_the_keyboard() {
    for fail_at in 1..=5usize {
        let (made, last) = drive_load(Some(fail_at), -5);
        assert_eq!(made, load_plan_requests()[..=fail_at].to_vec());
        match last {
            LoadStep::Failed { status, unwind } => {
                assert_eq!(status, -5);
                assert_eq!(unwind, vec![HostRequest::DestroyVirtualDevice]);
            }
            _ => panic!("the load did not fail"),
        }
    }
}

#[test]
fn failed_handler_registration_unregisters_the_keyboard() {
    let (made, last) = drive_load(Some(6), -16);
    assert_eq!(made, load_plan_requests());
    match last {
        LoadStep::Failed { status, unwind } => {
            assert_eq!(status, -16);
            assert_eq!(unwind, vec![HostRequest::UnregisterVirtualDevice]);
        }
        _ => panic!("the load did not fail"),
    }
}

#[test]
fn failed_load_always_has_a_negative_status() {
    for code in [0, 1, 22, i32::MAX] {
        let (_, last) = drive_load(Some(3), code);
        assert_eq!(last.status(), Some(-22));
    }
    for code in [-1, -19, i32::MIN] {
        let (_, last) = drive_load(Some(3), code);
        assert_eq!(last.status(), Some(code));
    }
}

#[test]
fn unload_without_sessions_takes_back_handler_then_keyboard() {
    let mut module = loaded_module(RemapConfig::default());
    let requests = cleanup_module(&mut module);
    assert_eq!(
        requests,
        vec![HostRequest::UnregisterHandler, HostRequest::UnregisterVirtualDevice]
    );
    assert!(!module.is_loaded());
}

#[test]
fn unload_closes_open_sessions_before_the_keyboard_goes() {
    let mut module = loaded_module(RemapConfig::default());
    accept(&mut module, 4);
    accept(&mut module, 9);
    assert_eq!(module.connect_device(2, &m720()), Some(HostRequest::OpenSession(2)));
    let requests = cleanup_module(&mut module);
    assert_eq!(
        requests,
        vec![
            HostRequest::UnregisterHandler,
            HostRequest::CloseSession(4),
            HostRequest::CloseSession(9),
            HostRequest::UnregisterVirtualDevice,
        ]
    );
    assert_eq!(module.session_count(), 0);
    assert_eq!(module.session(4), None);
}

#[test]
fn second_unload_does_nothing() {
    let mut module = loaded_module(RemapConfig::default());
    accept(&mut module, 4);
    let first = cleanup_module(&mut module);
    assert_eq!(first.len(), 3);
    let second = cleanup_module(&mut module);
    assert_eq!(second, Vec::<HostRequest>::new());
    assert!(!module.is_loaded());
    assert_eq!(module.session_count(), 0);
    let third = cleanup_module(&mut module);
    assert_eq!(third, Vec::<HostRequest>::new());
}

#[test]
fn unloaded_module_is_inert() {
    let mut module = loaded_module(RemapConfig::default());
    accept(&mut module, 4);
    let press = RawEvent::new(EventType::Key, Key::ButtonSide, 1);
    assert_eq!(module.handle_event(4, &press).result, EventResult::Consumed);
    assert!(module.next_output().is_some());
    cleanup_module(&mut module);
    assert_eq!(module.next_output(), None);
    assert_eq!(module.output_done(true), None);
    let verdict = module.handle_event(4, &press);
    assert_eq!(verdict.result, EventResult::PassThrough);
    assert_eq!(verdict.chord, None);
    assert_eq!(module.next_output(), None);
    assert_eq!(module.connect_device(4, &m720()), None);
    assert!(!module.session_opened(4, true));
    assert_eq!(module.disconnect_device(4), None);
    assert_eq!(module.session_count(), 0);
}

#[test]
fn device_is_offered_once() {
    let mut module = loaded_module(RemapConfig::default());
    assert_eq!(module.connect_device(4, &m720()), Some(HostRequest::OpenSession(4)));
    assert_eq!(module.connect_device(4, &m720()), None);
    assert_eq!(module.session_count(), 1);
    assert!(module.session_opened(4, true));
    assert_eq!(module.connect_device(4, &m720()), None);
    assert_eq!(module.session_count(), 1);
    assert_eq!(module.session(4), Some(DeviceSession { device: 4, open: true }));
}

#[test]
fn two_devices_get_a_session_each() {
    let mut module = loaded_module(RemapConfig::default());
    accept(&mut module, 4);
    accept(&mut module, 5);
    assert_eq!(module.session_count(), 2);
    assert_eq!(module.session(4), Some(DeviceSession { device: 4, open: true }));
    assert_eq!(module.session(5), Some(DeviceSession { device: 5, open: true }));
    assert_eq!(module.session(6), None);
}

#[test]
fn failed_open_declines_and_spares_other_sessions() {
    let mut module = loaded_module(RemapConfig::default());
    accept(&mut module, 4);
    assert_eq!(module.connect_device(5, &m720()), Some(HostRequest::OpenSession(5)));
    assert_eq!(module.session(5), Some(DeviceSession { device: 5, open: false }));
    assert!(!module.session_opened(5, false));
    assert_eq!(module.session(5), None);
    assert_eq!(module.session(4), Some(DeviceSession { device: 4, open: true }));
    assert_eq!(module.session_count(), 1);
    assert!(module.is_loaded());
    assert_eq!(module.connect_device(5, &m720()), Some(HostRequest::OpenSession(5)));
}

#[test]
fn open_result_for_an_unknown_device_is_ignored() {
    let mut module = loaded_module(RemapConfig::default());
    assert!(!module.session_opened(8, true));
    assert!(!module.session_opened(8, false));
    assert_eq!(module.session_count(), 0);
}

#[test]
fn late_failure_report_leaves_an_open_session_open() {
    let mut module = loaded_module(RemapConfig::default());
    accept(&mut module, 4);
    assert!(module.session_opened(4, false));
    assert_eq!(module.session(4), Some(DeviceSession { device: 4, open: true }));
}

#[test]
fn withdrawal_closes_an_open_session_once() {
    let mut module = loaded_module(RemapConfig::default());
    accept(&mut module, 4);
    accept(&mut module, 5);
    assert_eq!(module.disconnect_device(4), Some(HostRequest::CloseSession(4)));
    assert_eq!(module.session(4), None);
    assert_eq!(module.disconnect_device(4), None);
    assert_eq!(module.session_count(), 1);
    assert_eq!(module.session(5), Some(DeviceSession { device: 5, open: true }));
}

#[test]
fn withdrawal_of_a_waiting_session_asks_for_no_close() {
    let mut module = loaded_module(RemapConfig::default());
    assert_eq!(module.connect_device(4, &m720()), Some(HostRequest::OpenSession(4)));
    assert_eq!(module.disconnect_device(4), None);
    assert_eq!(module.session_count(), 0);
    assert!(!module.session_opened(4, true));
}

#[test]
fn withdrawal_of_an_unknown_device_does_nothing() {
    let mut module = loaded_module(RemapConfig::default());
    accept(&mut module, 4);
    assert_eq!(module.disconnect_device(77), None);
    assert_eq!(module.session_count(), 1);
}

#[test]
fn session_table_keeps_one_session_per_device() {
    let mut table = SessionTable::new();
    assert_eq!(table.len(), 0);
    assert!(table.add(1));
    assert!(table.add(2));
    assert!(!table.add(1));
    assert_eq!(table.len(), 2);
    assert_eq!(table.get(1), Some(DeviceSession { device: 1, open: false }));
    assert!(table.open(2));
    assert!(!table.open(3));
    assert_eq!(table.get(2), Some(DeviceSession { device: 2, open: true }));
    assert_eq!(table.remove(1), Some(DeviceSession { device: 1, open: false }));
    assert_eq!(table.remove(1), None);
    assert_eq!(table.get(1), None);
    assert_eq!(table.len(), 1);
}

#[test]
fn session_table_closes_only_open_sessions() {
    let mut table = SessionTable::new();
    for device in [10, 20, 30, 40] {
        assert!(table.add(device));
    }
    assert!(table.open(40));
    assert!(table.open(20));
    assert_eq!(
        table.close_all(),
        vec![HostRequest::CloseSession(20), HostRequest::CloseSession(40)]
    );
    assert_eq!(table.len(), 0);
    assert_eq!(table.close_all(), Vec::<HostRequest>::new());
}

#[test]
fn fault_parks_the_context() {
    assert_eq!(m720_remapper::fault::panic(), FaultAction::Halt);
}
