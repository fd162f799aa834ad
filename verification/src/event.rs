//! Decoding a raw kernel notification payload into a typed device event.
//!
//! A payload is an ordered run of records separated by NUL bytes; a record
//! of the form `KEY=value` carries one field.  Decoding reads the sequence
//! number, the action, the device path and the subsystem, and derives the
//! device short name from the path.  A payload without a non-empty subsystem
//! or short name, or without a readable sequence number, is rejected with a
//! classified error rather than turned into a half-filled event.

use vstd::prelude::*;

use crate::error::{invalid_input_error, spec_kind_of, Kind, Result, EINVAL_CODE};
use crate::scan::{
    basename, bytes_eq, copy_range, dec_value, find_byte, first_index_of, is_dec_digits,
    lemma_first_index_of_unique, parse_u64_dec, range_eq, spec_basename,
};

verus! {

/// The key of the record that carries the monotonic sequence number.
pub open spec fn key_seqnum() -> Seq<u8> {
    seq![83u8, 69u8, 81u8, 78u8, 85u8, 77u8]  // SEQNUM
}

/// The key of the record that carries the action string.
pub open spec fn key_action() -> Seq<u8> {
    seq![65u8, 67u8, 84u8, 73u8, 79u8, 78u8]  // ACTION
}

/// The key of the record that carries the device path.
pub open spec fn key_devpath() -> Seq<u8> {
    seq![68u8, 69u8, 86u8, 80u8, 65u8, 84u8, 72u8]  // DEVPATH
}

/// The key of the record that carries the subsystem name.
pub open spec fn key_subsystem() -> Seq<u8> {
    seq![83u8, 85u8, 66u8, 83u8, 89u8, 83u8, 84u8, 69u8, 77u8]  // SUBSYSTEM
}

/// The key of the record that carries the optional device type.
pub open spec fn key_devtype() -> Seq<u8> {
    seq![68u8, 69u8, 86u8, 84u8, 89u8, 80u8, 69u8]  // DEVTYPE
}

fn key_seqnum_vec() -> (r: Vec<u8>)
    ensures
        r@ == key_seqnum(),
{
    let mut v: Vec<u8> = Vec::new();
    v.push(83);
    v.push(69);
    v.push(81);
    v.push(78);
    v.push(85);
    v.push(77);
    proof {
        assert(v@ =~= key_seqnum());
    }
    v
}

fn key_action_vec() -> (r: Vec<u8>)
    ensures
        r@ == key_action(),
{
    let mut v: Vec<u8> = Vec::new();
    v.push(65);
    v.push(67);
    v.push(84);
    v.push(73);
    v.push(79);
    v.push(78);
    proof {
        assert(v@ =~= key_action());
    }
    v
}

fn key_devpath_vec() -> (r: Vec<u8>)
    ensures
        r@ == key_devpath(),
{
    let mut v: Vec<u8> = Vec::new();
    v.push(68);
    v.push(69);
    v.push(86);
    v.push(80);
    v.push(65);
    v.push(84);
    v.push(72);
    proof {
        assert(v@ =~= key_devpath());
    }
    v
}

fn key_subsystem_vec() -> (r: Vec<u8>)
    ensures
        r@ == key_subsystem(),
{
    let mut v: Vec<u8> = Vec::new();
    v.push(83);
    v.push(85);
    v.push(66);
    v.push(83);
    v.push(89);
    v.push(83);
    v.push(84);
    v.push(69);
    v.push(77);
    proof {
        assert(v@ =~= key_subsystem());
    }
    v
}

fn key_devtype_vec() -> (r: Vec<u8>)
    ensures
        r@ == key_devtype(),
{
    let mut v: Vec<u8> = Vec::new();
    v.push(68);
    v.push(69);
    v.push(86);
    v.push(84);
    v.push(89);
    v.push(80);
    v.push(69);
    proof {
        assert(v@ =~= key_devtype());
    }
    v
}

/// Whether a record is a `key=value` pair: it holds a `=` byte.
pub open spec fn is_kv(rec: Seq<u8>) -> bool {
    first_index_of(rec, 61) < rec.len()
}

/// The part of a `key=value` record before its first `=`.
pub open spec fn kv_key(rec: Seq<u8>) -> Seq<u8> {
    rec.subrange(0, first_index_of(rec, 61))
}

/// The part of a `key=value` record after its first `=`.
pub open spec fn kv_value(rec: Seq<u8>) -> Seq<u8> {
    rec.subrange(first_index_of(rec, 61) + 1, rec.len() as int)
}

/// The value of the first `key=value` record of the payload whose key is
/// `key`, walking the NUL-separated records in order; `None` where no record
/// carries that key.
pub open spec fn spec_lookup(buf: Seq<u8>, key: Seq<u8>) -> Option<Seq<u8>>
    decreases buf.len(),
    via spec_lookup_decreases
{
    if buf.len() == 0 {
        None
    } else {
        let z = first_index_of(buf, 0);
        let rec = buf.subrange(0, z);
        let rest = if z == buf.len() {
            Seq::<u8>::empty()
        } else {
            buf.subrange(z + 1, buf.len() as int)
        };
        if is_kv(rec) && kv_key(rec) == key {
            Some(kv_value(rec))
        } else {
            spec_lookup(rest, key)
        }
    }
}

#[via_fn]
proof fn spec_lookup_decreases(buf: Seq<u8>, key: Seq<u8>) {
    crate::scan::lemma_first_index_of(buf, 0);
}

/// Finds the value of the first `key=value` record with key `key`, as
/// `spec_lookup` describes it.
pub fn lookup_field(buf: &[u8], key: &[u8]) -> (r: Option<Vec<u8>>)
    ensures
        match r {
            Some(v) => spec_lookup(buf@, key@) == Some(v@),
            None => spec_lookup(buf@, key@) is None,
        },
{
    let mut pos: usize = 0;
    proof {
        assert(buf@.subrange(0, buf@.len() as int) =~= buf@);
    }
    loop
        invariant
            pos <= buf@.len(),
            spec_lookup(buf@, key@) == spec_lookup(
                buf@.subrange(pos as int, buf@.len() as int),
                key@,
            ),
        decreases buf@.len() - pos,
    {
        let ghost suffix = buf@.subrange(pos as int, buf@.len() as int);
        if pos == buf.len() {
            proof {
                assert(suffix.len() == 0);
            }
            return None;
        }
        let z = find_byte(buf, pos, buf.len(), 0);
        let e = find_byte(buf, pos, z, 61);
        let ghost rec = suffix.subrange(0, z - pos);
        proof {
            assert forall|i: int| 0 <= i < z - pos implies suffix[i] != 0 by {
                assert(suffix[i] == buf@[pos + i]);
            }
            if z - pos < suffix.len() {
                assert(suffix[z - pos] == buf@[z as int]);
            }
            lemma_first_index_of_unique(suffix, 0, z - pos);
            assert(rec =~= buf@.subrange(pos as int, z as int));
            assert forall|i: int| 0 <= i < e - pos implies rec[i] != 61 by {
                assert(rec[i] == buf@[pos + i]);
            }
            if e - pos < rec.len() {
                assert(rec[e - pos] == buf@[e as int]);
            }
            lemma_first_index_of_unique(rec, 61, e - pos);
        }
        if e < z && range_eq(buf, pos, e, key) {
            let v = copy_range(buf, e + 1, z);
            proof {
                assert(is_kv(rec));
                assert(kv_key(rec) =~= buf@.subrange(pos as int, e as int));
                assert(kv_value(rec) =~= buf@.subrange(e + 1, z as int));
            }
            return Some(v);
        }
        proof {
            if e < z {
                assert(kv_key(rec) =~= buf@.subrange(pos as int, e as int));
                assert(kv_key(rec) != key@);
            } else {
                assert(!is_kv(rec));
            }
        }
        if z == buf.len() {
            proof {
                assert(buf@.subrange(buf@.len() as int, buf@.len() as int) =~= Seq::<
                    u8,
                >::empty());
                assert(spec_lookup(Seq::<u8>::empty(), key@) is None);
            }
            return None;
        } else {
            proof {
                assert(suffix.subrange(z - pos + 1, suffix.len() as int) =~= buf@.subrange(
                    z + 1,
                    buf@.len() as int,
                ));
            }
            pos = z + 1;
        }
    }
}

/// The kind of change that a notification reports.
#[derive(Debug, Clone, Copy, PartialEq, Eq, Structural)]
pub enum EventType {
    /// A device was added.
    Added,
    /// A device was removed.
    Removed,
    /// A device changed.
    Changed,
    /// A device was moved.
    Moved,
    /// The notification carried some other, unrecognized action.
    Unknown,
}

/// The action string that reports an added device.
pub open spec fn action_add() -> Seq<u8> {
    seq![97u8, 100u8, 100u8]  // add
}

/// The action string that reports a removed device.
pub open spec fn action_remove() -> Seq<u8> {
    seq![114u8, 101u8, 109u8, 111u8, 118u8, 101u8]  // remove
}

/// The action string that reports a changed device.
pub open spec fn action_change() -> Seq<u8> {
    seq![99u8, 104u8, 97u8, 110u8, 103u8, 101u8]  // change
}

/// The action string that reports a moved device.
pub open spec fn action_move() -> Seq<u8> {
    seq![109u8, 111u8, 118u8, 101u8]  // move
}

/// The event type that an action string names; anything unrecognized is
/// `Unknown` rather than a failure.
pub open spec fn spec_action_type(s: Seq<u8>) -> EventType {
    if s == action_add() {
        EventType::Added
    } else if s == action_remove() {
        EventType::Removed
    } else if s == action_change() {
        EventType::Changed
    } else if s == action_move() {
        EventType::Moved
    } else {
        EventType::Unknown
    }
}

fn action_type(v: &[u8]) -> (r: EventType)
    ensures
        r == spec_action_type(v@),
{
    let mut w: Vec<u8> = Vec::new();
    w.push(97);
    w.push(100);
    w.push(100);
    proof {
        assert(w@ =~= action_add());
    }
    if bytes_eq(v, w.as_slice()) {
        return EventType::Added;
    }
    let mut w: Vec<u8> = Vec::new();
    w.push(114);
    w.push(101);
    w.push(109);
    w.push(111);
    w.push(118);
    w.push(101);
    proof {
        assert(w@ =~= action_remove());
    }
    if bytes_eq(v, w.as_slice()) {
        return EventType::Removed;
    }
    let mut w: Vec<u8> = Vec::new();
    w.push(99);
    w.push(104);
    w.push(97);
    w.push(110);
    w.push(103);
    w.push(101);
    proof {
        assert(w@ =~= action_change());
    }
    if bytes_eq(v, w.as_slice()) {
        return EventType::Changed;
    }
    let mut w: Vec<u8> = Vec::new();
    w.push(109);
    w.push(111);
    w.push(118);
    w.push(101);
    proof {
        assert(w@ =~= action_move());
    }
    if bytes_eq(v, w.as_slice()) {
        return EventType::Moved;
    }
    EventType::Unknown
}

/// The mathematical shape of a decoded event.
#[verifier::ext_equal]
pub struct EventModel {
    /// The kernel's monotonic sequence number.
    pub seqnum: int,
    /// The kind of change reported.
    pub event_type: EventType,
    /// The device path carried by the notification.
    pub syspath: Seq<u8>,
    /// The subsystem of the device.
    pub subsystem: Seq<u8>,
    /// The short device name: the last component of the device path.
    pub sysname: Seq<u8>,
    /// The device type, where the subsystem classifies by type.
    pub devtype: Option<Seq<u8>>,
}

/// One decoded device notification: an immutable snapshot with no identity
/// beyond its field values.
#[derive(Debug)]
pub struct Event {
    seqnum: u64,
    event_type: EventType,
    syspath: Vec<u8>,
    subsystem: Vec<u8>,
    sysname: Vec<u8>,
    devtype: Option<Vec<u8>>,
}

impl View for Event {
    type V = EventModel;

    closed spec fn view(&self) -> EventModel {
        EventModel {
            seqnum: self.seqnum as int,
            event_type: self.event_type,
            syspath: self.syspath@,
            subsystem: self.subsystem@,
            sysname: self.sysname@,
            devtype: match self.devtype {
                Some(v) => Some(v@),
                None => None,
            },
        }
    }
}

impl Event {
    /// The kernel's monotonic sequence number for this event.
    pub fn sequence_number(&self) -> (r: u64)
        ensures
            r as int == self@.seqnum,
    {
        self.seqnum
    }

    /// The kind of change this event reports.
    pub fn event_type(&self) -> (r: EventType)
        ensures
            r == self@.event_type,
    {
        self.event_type
    }

    /// The device path carried by the notification.
    pub fn syspath(&self) -> (r: &Vec<u8>)
        ensures
            r@ == self@.syspath,
    {
        &self.syspath
    }

    /// The subsystem of the device; never empty.
    pub fn subsystem(&self) -> (r: &Vec<u8>)
        ensures
            r@ == self@.subsystem,
    {
        &self.subsystem
    }

    /// The short device name; never empty.
    pub fn sysname(&self) -> (r: &Vec<u8>)
        ensures
            r@ == self@.sysname,
    {
        &self.sysname
    }

    /// The device type, absent for subsystems that do not classify by type;
    /// absence is distinct from an empty string.
    pub fn devtype(&self) -> (r: &Option<Vec<u8>>)
        ensures
            match r {
                Some(v) => self@.devtype == Some(v@),
                None => self@.devtype is None,
            },
    {
        &self.devtype
    }
}

/// The decoded form of a payload, or `None` where it is malformed: the
/// subsystem and the short name (the last component of the device path) must
/// be present and non-empty, and the sequence number must be a decimal
/// numeral that fits the counter's width.  A missing or unrecognized action
/// is `Unknown`; a missing device-type record is an absent devtype.
pub open spec fn spec_decode(buf: Seq<u8>) -> Option<EventModel> {
    match (spec_lookup(buf, key_subsystem()), spec_lookup(buf, key_devpath()), spec_lookup(
        buf,
        key_seqnum(),
    )) {
        (Some(sub), Some(dp), Some(sq)) => {
            if sub.len() == 0 || spec_basename(dp).len() == 0 || !is_dec_digits(sq) || dec_value(sq)
                > u64::MAX as int {
                None
            } else {
                Some(
                    EventModel {
                        seqnum: dec_value(sq),
                        event_type: match spec_lookup(buf, key_action()) {
                            Some(a) => spec_action_type(a),
                            None => EventType::Unknown,
                        },
                        syspath: dp,
                        subsystem: sub,
                        sysname: spec_basename(dp),
                        devtype: spec_lookup(buf, key_devtype()),
                    },
                )
            }
        },
        _ => None,
    }
}

/// Decodes one raw notification payload into an event, or rejects it with
/// an invalid-input error where `spec_decode` calls it malformed.
pub fn decode_event(buf: &[u8]) -> (r: Result<Event>)
    ensures
        match spec_decode(buf@) {
            Some(model) => r matches Ok(ev) && ev@ == model,
            None => r matches Err(e) && e.code() == EINVAL_CODE as int && spec_kind_of(e.code())
                == Kind::InvalidInput,
        },
{
    let sub = lookup_field(buf, key_subsystem_vec().as_slice());
    let dp = lookup_field(buf, key_devpath_vec().as_slice());
    let sq = lookup_field(buf, key_seqnum_vec().as_slice());
    match (sub, dp, sq) {
        (Some(sub), Some(dp), Some(sq)) => {
            if sub.len() == 0 {
                return Err(invalid_input_error());
            }
            let sysname = basename(dp.as_slice());
            if sysname.len() == 0 {
                return Err(invalid_input_error());
            }
            let seqnum = match parse_u64_dec(sq.as_slice()) {
                Some(n) => n,
                None => {
                    return Err(invalid_input_error());
                },
            };
            let event_type = match lookup_field(buf, key_action_vec().as_slice()) {
                Some(a) => action_type(a.as_slice()),
                None => EventType::Unknown,
            };
            let devtype = lookup_field(buf, key_devtype_vec().as_slice());
            let ev = Event { seqnum, event_type, syspath: dp, subsystem: sub, sysname, devtype };
            proof {
                assert(ev@ =~= spec_decode(buf@).unwrap());
            }
            Ok(ev)
        },
        _ => Err(invalid_input_error()),
    }
}

/// A payload decodes into an event only with a non-empty subsystem and a
/// non-empty short name: one that lacks them is rejected, never delivered
/// as a half-filled event.
pub proof fn lemma_decode_well_formed(buf: Seq<u8>)
    ensures
        spec_decode(buf) matches Some(model) ==> model.subsystem.len() > 0 && model.sysname.len()
            > 0,
{
}

} // verus!
