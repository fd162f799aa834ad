use devmon::{decode_event, EventType, Kind};

fn payload(records: &[&[u8]]) -> Vec<u8> {
    let mut buf = Vec::new();
    for rec in records {
        buf.extend_from_slice(rec);
        buf.push(0);
    }
    buf
}

#[test]
fn decode_full_event() {
    let buf = payload(&[
        b"add@/devices/pci0000:00/usb1",
        b"ACTION=add",
        b"DEVPATH=/devices/pci0000:00/usb1",
        b"SUBSYSTEM=usb",
        b"DEVTYPE=usb_device",
        b"SEQNUM=42",
    ]);
    let ev = decode_event(&buf).unwrap();
    assert_eq!(ev.sequence_number(), 42);
    assert_eq!(ev.event_type(), EventType::Added);
    assert_eq!(ev.syspath(), &b"/devices/pci0000:00/usb1".to_vec());
    assert_eq!(ev.subsystem(), &b"usb".to_vec());
    assert_eq!(ev.sysname(), &b"usb1".to_vec());
    assert_eq!(ev.devtype(), &Some(b"usb_device".to_vec()));
}

#[test]
fn decode_missing_subsystem_fails() {
    let buf = payload(&[b"ACTION=add", b"DEVPATH=/devices/usb1", b"SEQNUM=7"]);
    let err = decode_event(&buf).unwrap_err();
    assert_eq!(err.kind(), Kind::InvalidInput);
}

#[test]
fn decode_empty_subsystem_fails() {
    let buf = payload(&[b"ACTION=add", b"DEVPATH=/devices/usb1", b"SUBSYSTEM=", b"SEQNUM=7"]);
    let err = decode_event(&buf).unwrap_err();
    assert_eq!(err.kind(), Kind::InvalidInput);
}

#[test]
fn decode_missing_devpath_fails() {
    let buf = payload(&[b"ACTION=add", b"SUBSYSTEM=usb", b"SEQNUM=7"]);
    assert!(decode_event(&buf).is_err());
}

#[test]
fn decode_empty_sysname_fails() {
    let buf = payload(&[b"ACTION=add", b"DEVPATH=/devices/", b"SUBSYSTEM=usb", b"SEQNUM=7"]);
    let err = decode_event(&buf).unwrap_err();
    assert_eq!(err.kind(), Kind::InvalidInput);
}

#[test]
fn decode_bad_seqnum_fails() {
    let buf = payload(&[b"ACTION=add", b"DEVPATH=/devices/usb1", b"SUBSYSTEM=usb", b"SEQNUM=4x2"]);
    let err = decode_event(&buf).unwrap_err();
    assert_eq!(err.kind(), Kind::InvalidInput);
}

#[test]
fn decode_missing_seqnum_fails() {
    let buf = payload(&[b"ACTION=add", b"DEVPATH=/devices/usb1", b"SUBSYSTEM=usb"]);
    assert!(decode_event(&buf).is_err());
}

#[test]
fn decode_seqnum_at_counter_limit() {
    let buf = payload(&[
        b"DEVPATH=/devices/usb1",
        b"SUBSYSTEM=usb",
        b"SEQNUM=18446744073709551615",
    ]);
    let ev = decode_event(&buf).unwrap();
    assert_eq!(ev.sequence_number(), u64::MAX);
}

#[test]
fn decode_seqnum_overflow_fails() {
    let buf = payload(&[
        b"DEVPATH=/devices/usb1",
        b"SUBSYSTEM=usb",
        b"SEQNUM=18446744073709551616",
    ]);
    assert!(decode_event(&buf).is_err());
}

#[test]
fn decode_unrecognized_action_is_unknown() {
    let buf = payload(&[b"ACTION=bind", b"DEVPATH=/devices/usb1", b"SUBSYSTEM=usb", b"SEQNUM=7"]);
    let ev = decode_event(&buf).unwrap();
    assert_eq!(ev.event_type(), EventType::Unknown);
}

#[test]
fn decode_missing_action_is_unknown() {
    let buf = payload(&[b"DEVPATH=/devices/usb1", b"SUBSYSTEM=usb", b"SEQNUM=7"]);
    let ev = decode_event(&buf).unwrap();
    assert_eq!(ev.event_type(), EventType::Unknown);
}

#[test]
fn decode_remove_change_move_actions() {
    for (action, expected) in [
        (&b"ACTION=remove"[..], EventType::Removed),
        (&b"ACTION=change"[..], EventType::Changed),
        (&b"ACTION=move"[..], EventType::Moved),
    ] {
        let buf = payload(&[action, b"DEVPATH=/devices/usb1", b"SUBSYSTEM=usb", b"SEQNUM=7"]);
        let ev = decode_event(&buf).unwrap();
        assert_eq!(ev.event_type(), expected);
    }
}

#[test]
fn decode_devtype_absent_is_none() {
    let buf = payload(&[b"ACTION=add", b"DEVPATH=/devices/eth0", b"SUBSYSTEM=net", b"SEQNUM=7"]);
    let ev = decode_event(&buf).unwrap();
    assert_eq!(ev.devtype(), &None);
}

#[test]
fn decode_devtype_empty_is_distinct_from_absent() {
    let buf = payload(&[
        b"ACTION=add",
        b"DEVPATH=/devices/eth0",
        b"SUBSYSTEM=net",
        b"DEVTYPE=",
        b"SEQNUM=7",
    ]);
    let ev = decode_event(&buf).unwrap();
    assert_eq!(ev.devtype(), &Some(Vec::new()));
}

#[test]
fn decode_sysname_without_separator_is_whole_path() {
    let buf = payload(&[b"ACTION=add", b"DEVPATH=lo", b"SUBSYSTEM=net", b"SEQNUM=7"]);
    let ev = decode_event(&buf).unwrap();
    assert_eq!(ev.sysname(), &b"lo".to_vec());
}
