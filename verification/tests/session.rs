use btle_sniffer::BluetoothError;
use btle_sniffer::address::DeviceAddress;
use btle_sniffer::btle::{AdapterHandle, DriverCommand, DriverEvent, ScanSession, SessionState};

fn addr(octets: [u8; 6]) -> DeviceAddress {
    DeviceAddress::new(octets)
}

#[test]
fn no_adapters_terminates_in_adapter_not_found() {
    // Mock adapter layer with zero adapters present: the session must fail
    // with AdapterNotFound right after enumeration, without a scan request.
    let session = ScanSession::new(5);
    assert_eq!(session.current_command(), DriverCommand::EnumerateAdapters);
    let (session, cmd) = session.step(DriverEvent::AdaptersEnumerated(Ok(0)));
    assert_eq!(cmd, DriverCommand::Deliver);
    assert!(matches!(
        session.state,
        SessionState::Failed(BluetoothError::AdapterNotFound)
    ));
    assert_eq!(session.finish(), Err(BluetoothError::AdapterNotFound));
}

#[test]
fn failed_enumeration_terminates_in_adapter_not_found() {
    let session = ScanSession::new(5);
    let (session, cmd) = session.step(DriverEvent::AdaptersEnumerated(Err(())));
    assert_eq!(cmd, DriverCommand::Deliver);
    assert_eq!(session.finish(), Err(BluetoothError::AdapterNotFound));
}

#[test]
fn single_visible_peripheral_is_delivered() {
    // Mock adapter present, start_scan succeeds, and one peripheral with
    // address AA:BB:CC:DD:EE:FF is visible after the wait.
    let one = addr([0xAA, 0xBB, 0xCC, 0xDD, 0xEE, 0xFF]);
    let session = ScanSession::new(5);
    let (session, cmd) = session.step(DriverEvent::AdaptersEnumerated(Ok(1)));
    assert_eq!(cmd, DriverCommand::StartScan(AdapterHandle { index: 0 }));
    let (session, cmd) = session.step(DriverEvent::ScanStarted(Ok(())));
    assert_eq!(cmd, DriverCommand::Wait(5));
    let (session, cmd) = session.step(DriverEvent::WaitElapsed);
    assert_eq!(cmd, DriverCommand::ListPeripherals(AdapterHandle { index: 0 }));
    let (session, cmd) = session.step(DriverEvent::PeripheralsListed(Ok(vec![one])));
    assert_eq!(cmd, DriverCommand::Deliver);
    let delivered = session.finish().expect("the session succeeded");
    assert_eq!(delivered, vec![one]);
    assert_eq!(delivered[0].to_ascii(), b"AA:BB:CC:DD:EE:FF".to_vec());
}

#[test]
fn success_keeps_adapter_order_verbatim() {
    // A visible set [A, B, A] is delivered as [A, B, A]: no deduplication and
    // no sorting, the adapter-reported enumeration order is kept.
    let a = addr([0xCC, 0x00, 0x00, 0x00, 0x00, 0x01]);
    let b = addr([0x0A, 0x00, 0x00, 0x00, 0x00, 0x02]);
    let session = ScanSession::new(3);
    let (session, _) = session.step(DriverEvent::AdaptersEnumerated(Ok(2)));
    let (session, _) = session.step(DriverEvent::ScanStarted(Ok(())));
    let (session, _) = session.step(DriverEvent::WaitElapsed);
    let (session, _) = session.step(DriverEvent::PeripheralsListed(Ok(vec![a, b, a])));
    assert_eq!(session.finish(), Ok(vec![a, b, a]));
}

#[test]
fn rejected_scan_request_terminates_in_scan_start_failed() {
    let session = ScanSession::new(5);
    let (session, _) = session.step(DriverEvent::AdaptersEnumerated(Ok(1)));
    let (session, cmd) = session.step(DriverEvent::ScanStarted(Err(())));
    assert_eq!(cmd, DriverCommand::Deliver);
    assert_eq!(session.finish(), Err(BluetoothError::ScanStartFailed));
}

#[test]
fn empty_visible_set_terminates_in_no_devices_found() {
    // An empty visible set is a distinguishable failure, never a success
    // carrying an empty list.
    let session = ScanSession::new(5);
    let (session, _) = session.step(DriverEvent::AdaptersEnumerated(Ok(1)));
    let (session, _) = session.step(DriverEvent::ScanStarted(Ok(())));
    let (session, _) = session.step(DriverEvent::WaitElapsed);
    let (session, cmd) = session.step(DriverEvent::PeripheralsListed(Ok(vec![])));
    assert_eq!(cmd, DriverCommand::Deliver);
    assert_eq!(session.finish(), Err(BluetoothError::NoDevicesFound));
}

#[test]
fn failed_visibility_query_terminates_in_unknown() {
    let session = ScanSession::new(5);
    let (session, _) = session.step(DriverEvent::AdaptersEnumerated(Ok(1)));
    let (session, _) = session.step(DriverEvent::ScanStarted(Ok(())));
    let (session, _) = session.step(DriverEvent::WaitElapsed);
    let (session, cmd) = session.step(DriverEvent::PeripheralsListed(Err(())));
    assert_eq!(cmd, DriverCommand::Deliver);
    assert_eq!(session.finish(), Err(BluetoothError::Unknown));
}

#[test]
fn wait_command_carries_the_requested_duration() {
    let session = ScanSession::new(60);
    let (session, _) = session.step(DriverEvent::AdaptersEnumerated(Ok(3)));
    let (_, cmd) = session.step(DriverEvent::ScanStarted(Ok(())));
    assert_eq!(cmd, DriverCommand::Wait(60));
}
