use usb_watch::device::DeviceError;
use usb_watch::device::RawDevice;
use usb_watch::monitor::HotplugEvent;
use usb_watch::monitor::MonitoringSession;
use usb_watch::monitor::Notification;
use usb_watch::monitor::Phase;
use usb_watch::monitor::StartStep;
use usb_watch::monitor::translate_notification;

fn fake_device(vid: u16, pid: u16, address: u8) -> RawDevice {
    RawDevice {
        vendor_id: vid,
        product_id: pid,
        bus_address: address,
        open_ok: true,
        descriptor_ok: true,
        languages: vec![0x0409],
        manufacturer: Some(String::from("Acme")),
        product_name: Some(String::from("Widget")),
        serial_number: Some(String::from("SN-1")),
    }
}

fn running_session() -> MonitoringSession {
    let mut s = MonitoringSession::new();
    assert_eq!(s.start_requested(true), Ok(StartStep::Register));
    assert_eq!(s.registration_finished(true), Ok(()));
    s
}

#[test]
fn stop_monitoring_is_idempotent() {
    let mut s = running_session();
    assert_eq!(s.stop_monitoring(), Ok(()));
    let once = s.phase();
    assert_eq!(s.stop_monitoring(), Ok(()));
    assert_eq!(s.phase(), once);
    // One watchdog poll unregisters; a second can never ask again.
    assert!(s.watchdog_poll());
    assert!(!s.watchdog_poll());
    assert_eq!(s.phase(), Phase::Idle);
}

#[test]
fn stop_when_never_started_is_a_quiet_no_op() {
    let mut s = MonitoringSession::new();
    assert_eq!(s.stop_monitoring(), Ok(()));
    assert_eq!(s.stop_monitoring(), Ok(()));
    assert_eq!(s.phase(), Phase::Idle);
    assert!(!s.watchdog_poll());
}

#[test]
fn scripted_notifications_arrive_in_order_and_in_full() {
    let s = running_session();
    let script = vec![
        Notification::Arrived(fake_device(0x1234, 0x0001, 1)),
        Notification::Left(fake_device(0x1234, 0x0001, 1)),
        Notification::Arrived(fake_device(0x5678, 0x0002, 2)),
        Notification::Left(fake_device(0x5678, 0x0002, 2)),
    ];
    let n = script.len();
    let events = s.pump_notifications(&script);
    assert_eq!(events.len(), n);
    match &events[0] {
        HotplugEvent::Arrived(d) => {
            assert_eq!(d.vendor_id, 0x1234);
            assert_eq!(d.product_id, 0x0001);
            assert_eq!(d.manufacturer, "Acme");
            assert_eq!(d.device_name, "Widget");
            assert_eq!(d.serial_number, "SN-1");
            assert_eq!(d.device_address, 1);
        }
        other => panic!("expected an arrival first, got {:?}", other),
    }
    match &events[1] {
        HotplugEvent::Left(id) => {
            assert_eq!(id.vendor_id, 0x1234);
            assert_eq!(id.product_id, 0x0001);
        }
        other => panic!("expected a removal second, got {:?}", other),
    }
    match &events[2] {
        HotplugEvent::Arrived(d) => {
            assert_eq!(d.vendor_id, 0x5678);
            assert_eq!(d.product_id, 0x0002);
        }
        other => panic!("expected an arrival third, got {:?}", other),
    }
    match &events[3] {
        HotplugEvent::Left(id) => {
            assert_eq!(id.vendor_id, 0x5678);
            assert_eq!(id.product_id, 0x0002);
        }
        other => panic!("expected a removal last, got {:?}", other),
    }
}

#[test]
fn arrival_then_removal_of_one_device() {
    let s = running_session();
    let script = vec![
        Notification::Arrived(fake_device(0xABCD, 0x0010, 7)),
        Notification::Left(fake_device(0xABCD, 0x0010, 7)),
    ];
    let events = s.pump_notifications(&script);
    assert_eq!(events.len(), 2);
    match &events[0] {
        HotplugEvent::Arrived(d) => {
            assert_eq!(d.vendor_id, 0xABCD);
            assert_eq!(d.product_id, 0x0010);
            assert!(!d.manufacturer.is_empty());
        }
        other => panic!("expected an arrival, got {:?}", other),
    }
    match &events[1] {
        HotplugEvent::Left(id) => {
            assert_eq!(id.vendor_id, 0xABCD);
            assert_eq!(id.product_id, 0x0010);
        }
        other => panic!("expected a removal, got {:?}", other),
    }
}

#[test]
fn hotplug_unsupported_start_succeeds_and_delivers_nothing() {
    let mut s = MonitoringSession::new();
    assert_eq!(s.start_requested(false), Ok(StartStep::NoOpStarted));
    assert_eq!(s.phase(), Phase::NoOp);
    let script = vec![
        Notification::Arrived(fake_device(0x1234, 0x0001, 1)),
        Notification::Left(fake_device(0x1234, 0x0001, 1)),
    ];
    let events = s.pump_notifications(&script);
    assert!(events.is_empty());
    // Stopping a no-op session ends it without a watchdog round.
    assert_eq!(s.stop_monitoring(), Ok(()));
    assert_eq!(s.phase(), Phase::Idle);
    assert!(!s.watchdog_poll());
}

#[test]
fn starting_twice_is_refused_until_teardown_finishes() {
    let mut s = running_session();
    assert_eq!(
        s.start_requested(true),
        Err(DeviceError::AlreadyMonitoring)
    );
    assert_eq!(s.stop_monitoring(), Ok(()));
    // Teardown is asynchronous: the subscription still exists until the
    // watchdog takes it, so a fresh start is still refused.
    assert_eq!(
        s.start_requested(true),
        Err(DeviceError::AlreadyMonitoring)
    );
    assert!(s.watchdog_poll());
    assert_eq!(s.start_requested(true), Ok(StartStep::Register));
}

#[test]
fn failed_registration_rejects_the_start_and_frees_the_session() {
    let mut s = MonitoringSession::new();
    assert_eq!(s.start_requested(true), Ok(StartStep::Register));
    assert_eq!(
        s.registration_finished(false),
        Err(DeviceError::RegistrationFailed)
    );
    assert_eq!(s.phase(), Phase::Idle);
    assert_eq!(s.start_requested(true), Ok(StartStep::Register));
}

#[test]
fn unreadable_arrival_is_skipped_and_the_bridge_stays_alive() {
    let s = running_session();
    let mut unreadable = fake_device(0x1234, 0x0001, 1);
    unreadable.open_ok = false;
    let script = vec![
        Notification::Arrived(unreadable),
        Notification::Arrived(fake_device(0x5678, 0x0002, 2)),
    ];
    let events = s.pump_notifications(&script);
    assert_eq!(events.len(), 1);
    match &events[0] {
        HotplugEvent::Arrived(d) => assert_eq!(d.vendor_id, 0x5678),
        other => panic!("expected the readable arrival, got {:?}", other),
    }
}

#[test]
fn translation_reports_the_read_error_of_an_arrival() {
    let mut unreadable = fake_device(0x1234, 0x0001, 1);
    unreadable.manufacturer = None;
    assert_eq!(
        translate_notification(&Notification::Arrived(unreadable)),
        Err(DeviceError::DescriptorReadFailed)
    );
}

#[test]
fn removal_translation_needs_only_the_cached_descriptor() {
    // The device is gone: opening it and reading its strings would fail,
    // but the identifying fields cached before detachment still translate.
    let mut gone = fake_device(0x1234, 0x0001, 1);
    gone.open_ok = false;
    gone.manufacturer = None;
    gone.languages = vec![];
    match translate_notification(&Notification::Left(gone)) {
        Ok(HotplugEvent::Left(id)) => {
            assert_eq!(id.vendor_id, 0x1234);
            assert_eq!(id.product_id, 0x0001);
        }
        other => panic!("expected a removal event, got {:?}", other),
    }
}

#[test]
fn no_events_while_registering_or_idle() {
    let idle = MonitoringSession::new();
    let script = vec![Notification::Arrived(fake_device(1, 2, 3))];
    assert!(idle.pump_notifications(&script).is_empty());
    let mut registering = MonitoringSession::new();
    assert_eq!(registering.start_requested(true), Ok(StartStep::Register));
    assert!(registering.pump_notifications(&script).is_empty());
}

#[test]
fn events_still_flow_until_the_watchdog_unregisters() {
    let mut s = running_session();
    assert_eq!(s.stop_monitoring(), Ok(()));
    // The flag is down but the subscription is not yet taken: a straggling
    // notification still reaches the consumer rather than being lost.
    let script = vec![Notification::Left(fake_device(0x1234, 0x0001, 1))];
    assert_eq!(s.pump_notifications(&script).len(), 1);
    assert!(s.watchdog_poll());
    assert!(s.pump_notifications(&script).is_empty());
}
