use devmon::{EventType, Kind, MonitorSpec, ReadOutcome};

fn event_payload(action: &[u8], devpath: &[u8], subsystem: &[u8], devtype: Option<&[u8]>, seqnum: u64) -> Vec<u8> {
    let mut buf = Vec::new();
    for (key, value) in [
        (&b"ACTION"[..], action),
        (&b"DEVPATH"[..], devpath),
        (&b"SUBSYSTEM"[..], subsystem),
    ] {
        buf.extend_from_slice(key);
        buf.push(b'=');
        buf.extend_from_slice(value);
        buf.push(0);
    }
    if let Some(dt) = devtype {
        buf.extend_from_slice(b"DEVTYPE=");
        buf.extend_from_slice(dt);
        buf.push(0);
    }
    buf.extend_from_slice(format!("SEQNUM={}", seqnum).as_bytes());
    buf.push(0);
    buf
}

#[test]
fn unfiltered_monitor_delivers_every_subsystem() {
    let spec = MonitorSpec::new();
    let monitor = spec.listen(3);
    let usb = event_payload(b"add", b"/devices/usb1", b"usb", Some(b"usb_device"), 1);
    let block = event_payload(b"add", b"/devices/sda", b"block", None, 2);
    assert!(monitor.receive_event(ReadOutcome::Data(usb)).unwrap().is_some());
    assert!(monitor.receive_event(ReadOutcome::Data(block)).unwrap().is_some());
}

#[test]
fn usb_device_filter_excludes_other_events() {
    let mut spec = MonitorSpec::new();
    spec.match_subsystem_devtype("usb", "usb_device").unwrap();
    let monitor = spec.listen(3);

    let usb = event_payload(b"add", b"/devices/usb1", b"usb", Some(b"usb_device"), 1);
    let delivered = monitor.receive_event(ReadOutcome::Data(usb)).unwrap().unwrap();
    assert_eq!(delivered.subsystem(), &b"usb".to_vec());
    assert_eq!(delivered.devtype(), &Some(b"usb_device".to_vec()));

    let block = event_payload(b"add", b"/devices/sda", b"block", Some(b"disk"), 2);
    assert!(monitor.receive_event(ReadOutcome::Data(block)).unwrap().is_none());

    let usb_interface = event_payload(b"add", b"/devices/usb1/1-1", b"usb", Some(b"usb_interface"), 3);
    assert!(monitor.receive_event(ReadOutcome::Data(usb_interface)).unwrap().is_none());

    let no_devtype = event_payload(b"add", b"/devices/usb1", b"usb", None, 4);
    assert!(monitor.receive_event(ReadOutcome::Data(no_devtype)).unwrap().is_none());
}

#[test]
fn subsystem_filter_matches_any_devtype() {
    let mut spec = MonitorSpec::new();
    spec.match_subsystem("usb").unwrap();
    let monitor = spec.listen(3);

    let with_devtype = event_payload(b"add", b"/devices/usb1", b"usb", Some(b"usb_device"), 1);
    assert!(monitor.receive_event(ReadOutcome::Data(with_devtype)).unwrap().is_some());

    let without_devtype = event_payload(b"change", b"/devices/usb1", b"usb", None, 2);
    assert!(monitor.receive_event(ReadOutcome::Data(without_devtype)).unwrap().is_some());

    let other = event_payload(b"add", b"/devices/eth0", b"net", None, 3);
    assert!(monitor.receive_event(ReadOutcome::Data(other)).unwrap().is_none());
}

#[test]
fn or_semantics_across_rules() {
    let mut spec = MonitorSpec::new();
    spec.match_subsystem("usb").unwrap();
    spec.match_subsystem("net").unwrap();
    let monitor = spec.listen(3);

    let usb = event_payload(b"add", b"/devices/usb1", b"usb", None, 1);
    let net = event_payload(b"add", b"/devices/eth0", b"net", None, 2);
    let block = event_payload(b"add", b"/devices/sda", b"block", None, 3);
    assert!(monitor.receive_event(ReadOutcome::Data(usb)).unwrap().is_some());
    assert!(monitor.receive_event(ReadOutcome::Data(net)).unwrap().is_some());
    assert!(monitor.receive_event(ReadOutcome::Data(block)).unwrap().is_none());
}

#[test]
fn would_block_is_no_event_not_an_error() {
    let monitor = MonitorSpec::new().listen(3);
    let outcome = monitor.receive_event(ReadOutcome::WouldBlock).unwrap();
    assert!(outcome.is_none());
}

#[test]
fn failed_read_surfaces_classified_error() {
    let monitor = MonitorSpec::new().listen(3);
    let err = monitor.receive_event(ReadOutcome::Failed(-11)).unwrap_err();
    let expected = std::io::Error::from_raw_os_error(11).kind();
    assert_eq!(err.kind(), Kind::Io(expected));
}

#[test]
fn malformed_payload_is_classified_error() {
    let monitor = MonitorSpec::new().listen(3);
    let bad = b"ACTION=add\0SEQNUM=9\0".to_vec();
    let err = monitor.receive_event(ReadOutcome::Data(bad)).unwrap_err();
    assert_eq!(err.kind(), Kind::InvalidInput);
}

#[test]
fn net_scenario_delivers_added_event_with_growing_seqnum() {
    let mut spec = MonitorSpec::new();
    spec.match_subsystem_devtype("net", "").unwrap();
    let monitor = spec.listen(5);

    let first = monitor
        .receive_event(ReadOutcome::Data(event_payload(b"add", b"/devices/virtual/net/eth0", b"net", None, 100)))
        .unwrap()
        .unwrap();
    assert_eq!(first.event_type(), EventType::Added);
    assert_eq!(first.subsystem(), &b"net".to_vec());
    assert!(!first.sysname().is_empty());
    assert_eq!(first.sysname(), &b"eth0".to_vec());

    let second = monitor
        .receive_event(ReadOutcome::Data(event_payload(b"add", b"/devices/virtual/net/wlan0", b"net", None, 104)))
        .unwrap()
        .unwrap();
    assert!(second.sequence_number() > first.sequence_number());
}

#[test]
fn classify_read_keeps_the_counted_bytes() {
    let outcome = ReadOutcome::classify(5, 0, b"hello world".to_vec());
    match outcome {
        ReadOutcome::Data(p) => assert_eq!(p, b"hello".to_vec()),
        _ => panic!("a non-negative count must be data"),
    }
}

#[test]
fn classify_read_would_block_is_no_event() {
    let outcome = ReadOutcome::classify(-1, libc::EAGAIN, Vec::new());
    assert!(matches!(outcome, ReadOutcome::WouldBlock));
    let outcome = ReadOutcome::classify(-1, libc::EWOULDBLOCK, Vec::new());
    assert!(matches!(outcome, ReadOutcome::WouldBlock));
    let monitor = MonitorSpec::new().listen(3);
    assert!(monitor.receive_event(outcome).unwrap().is_none());
}

#[test]
fn classify_read_other_errno_is_failure() {
    let outcome = ReadOutcome::classify(-1, 5, Vec::new());
    assert!(matches!(outcome, ReadOutcome::Failed(-5)));
    let monitor = MonitorSpec::new().listen(3);
    let err = monitor.receive_event(outcome).unwrap_err();
    let expected = std::io::Error::from_raw_os_error(5).kind();
    assert_eq!(err.kind(), Kind::Io(expected));
}

#[test]
fn nul_in_filter_string_rejected() {
    let mut spec = MonitorSpec::new();
    let err = spec.match_subsystem("u\0sb").unwrap_err();
    assert_eq!(err.kind(), Kind::InvalidInput);
    let err = spec.match_subsystem_devtype("usb", "usb\0device").unwrap_err();
    assert_eq!(err.kind(), Kind::InvalidInput);
    // The failed calls left no rule behind: the monitor still delivers all.
    let monitor = spec.listen(3);
    let block = event_payload(b"add", b"/devices/sda", b"block", None, 1);
    assert!(monitor.receive_event(ReadOutcome::Data(block)).unwrap().is_some());
}

#[test]
fn monitor_exposes_and_releases_descriptor() {
    let monitor = MonitorSpec::new().listen(7);
    assert_eq!(monitor.as_raw_fd(), 7);
    // Ending the lifecycle consumes the monitor; afterwards no operation on
    // it can even be written.
    assert_eq!(monitor.into_raw_fd(), 7);
}
