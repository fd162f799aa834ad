//! The filter builder and the active monitor.
//!
//! A [`MonitorSpec`] accumulates subsystem/devtype match rules and is
//! consumed by [`MonitorSpec::listen`], which yields a [`Monitor`]: rules can
//! only be added before activation, and the builder cannot be reused — the
//! configure-then-activate discipline is a type-level lifecycle, not a
//! runtime check.  The monitor owns the (externally created) pollable
//! descriptor and interprets one non-blocking read outcome at a time; it
//! never blocks and never polls.  Likewise, dropping the monitor ends its
//! lifecycle: [`Monitor::into_raw_fd`] consumes it and hands the descriptor
//! back for closing, so no operation can follow destruction.

use vstd::prelude::*;
use vstd::string::StringSliceAdditionalSpecFns;

use crate::error::{
    eagain_errno, ewouldblock_errno, from_errno, spec_kind_of, Error, Kind, Result, EAGAIN_CODE,
    EINVAL_CODE,
};
use crate::event::{decode_event, spec_decode, Event};
use crate::scan::{bytes_eq, copy_range, find_byte};

verus! {

/// Whether a byte string holds a NUL byte, which no filter string may.
pub open spec fn has_nul(s: Seq<u8>) -> bool {
    exists|i: int| 0 <= i < s.len() && s[i] == 0
}

/// The mathematical shape of one match rule: a subsystem name, and an
/// optional device type; a rule without a devtype matches every device type
/// in its subsystem.
pub struct RuleModel {
    /// The subsystem the rule names.
    pub subsystem: Seq<u8>,
    /// The device type the rule demands, where it demands one.
    pub devtype: Option<Seq<u8>>,
}

/// One accumulated subsystem/devtype match rule.
pub struct FilterRule {
    subsystem: Vec<u8>,
    devtype: Option<Vec<u8>>,
}

impl View for FilterRule {
    type V = RuleModel;

    closed spec fn view(&self) -> RuleModel {
        RuleModel {
            subsystem: self.subsystem@,
            devtype: match self.devtype {
                Some(v) => Some(v@),
                None => None,
            },
        }
    }
}

/// Whether one rule matches an event's subsystem and devtype: the
/// subsystems must be equal, and a rule that names a devtype demands the
/// event's devtype exactly.
pub open spec fn spec_rule_matches(rule: RuleModel, subsystem: Seq<u8>, devtype: Option<
    Seq<u8>,
>) -> bool {
    match rule.devtype {
        None => rule.subsystem == subsystem,
        Some(d) => rule.subsystem == subsystem && devtype == Some(d),
    }
}

/// Whether a monitor holding `rules` delivers an event: with no rules every
/// event is delivered, else some rule must match (OR semantics across
/// rules).
pub open spec fn spec_delivers(rules: Seq<RuleModel>, subsystem: Seq<u8>, devtype: Option<
    Seq<u8>,
>) -> bool {
    rules.len() == 0 || exists|i: int|
        0 <= i < rules.len() && spec_rule_matches(rules[i], subsystem, devtype)
}

/// A monitor with no rules delivers events from every subsystem: zero rules
/// mean no filtering at all.
pub proof fn lemma_no_rules_delivers_all(
    rules: Seq<RuleModel>,
    subsystem: Seq<u8>,
    devtype: Option<Seq<u8>>,
)
    requires
        rules.len() == 0,
    ensures
        spec_delivers(rules, subsystem, devtype),
{
}

/// A monitor with exactly one rule naming a subsystem and a devtype
/// delivers exactly the events with that subsystem and that devtype, and
/// never one from another subsystem.
pub proof fn lemma_single_rule_exact(
    rules: Seq<RuleModel>,
    sub: Seq<u8>,
    d: Seq<u8>,
    esub: Seq<u8>,
    edt: Option<Seq<u8>>,
)
    requires
        rules =~= seq![RuleModel { subsystem: sub, devtype: Some(d) }],
    ensures
        spec_delivers(rules, esub, edt) <==> (esub == sub && edt == Some(d)),
{
    if esub == sub && edt == Some(d) {
        assert(spec_rule_matches(rules[0], esub, edt));
    }
}

/// Checks a filter string and copies it, rejecting one that holds a NUL
/// byte with an invalid-input error.
fn checked_bytes(s: &str) -> (r: Result<Vec<u8>>)
    ensures
        match r {
            Ok(v) => !has_nul(s.spec_bytes()) && v@ == s.spec_bytes(),
            Err(e) => has_nul(s.spec_bytes()) && e.code() == EINVAL_CODE as int && spec_kind_of(
                e.code(),
            ) == Kind::InvalidInput,
        },
{
    let b = s.as_bytes();
    let z = find_byte(b, 0, b.len(), 0);
    if z < b.len() {
        Err(crate::error::invalid_input_error())
    } else {
        proof {
            assert(b@.subrange(0, b@.len() as int) =~= b@);
        }
        Ok(copy_range(b, 0, b.len()))
    }
}

/// A single-use filter configuration: rules are accumulated here, and
/// activation consumes the builder.
pub struct MonitorSpec {
    rules: Vec<FilterRule>,
}

impl View for MonitorSpec {
    type V = Seq<RuleModel>;

    closed spec fn view(&self) -> Seq<RuleModel> {
        Seq::new(self.rules@.len(), |i: int| self.rules@[i]@)
    }
}

impl MonitorSpec {
    /// A fresh builder with no rules: a monitor activated from it delivers
    /// every event.
    pub fn new() -> (r: MonitorSpec)
        ensures
            r@.len() == 0,
    {
        MonitorSpec { rules: Vec::new() }
    }

    /// Adds a rule matching any device in subsystem `subsystem`, whatever
    /// its device type.  A name holding a NUL byte is rejected with an
    /// invalid-input error and leaves the rules unchanged.
    pub fn match_subsystem(&mut self, subsystem: &str) -> (r: Result<()>)
        ensures
            match r {
                Ok(u) => !has_nul(subsystem.spec_bytes()) && final(self)@ =~= old(self)@.push(
                    RuleModel { subsystem: subsystem.spec_bytes(), devtype: None },
                ),
                Err(e) => has_nul(subsystem.spec_bytes()) && final(self)@ == old(self)@
                    && e.code() == EINVAL_CODE as int && spec_kind_of(e.code())
                    == Kind::InvalidInput,
            },
    {
        let sub = match checked_bytes(subsystem) {
            Ok(v) => v,
            Err(e) => {
                return Err(e);
            },
        };
        self.rules.push(FilterRule { subsystem: sub, devtype: None });
        proof {
            assert(self@ =~= old(self)@.push(
                RuleModel { subsystem: subsystem.spec_bytes(), devtype: None },
            ));
        }
        Ok(())
    }

    /// Adds a rule matching devices in subsystem `subsystem` whose device
    /// type is exactly `devtype`; an empty `devtype` places no devtype
    /// constraint, as with [`MonitorSpec::match_subsystem`].  A string
    /// holding a NUL byte is rejected with an invalid-input error and
    /// leaves the rules unchanged.
    pub fn match_subsystem_devtype(&mut self, subsystem: &str, devtype: &str) -> (r: Result<()>)
        ensures
            match r {
                Ok(u) => !has_nul(subsystem.spec_bytes()) && !has_nul(devtype.spec_bytes())
                    && final(self)@ =~= old(self)@.push(
                    RuleModel {
                        subsystem: subsystem.spec_bytes(),
                        devtype: if devtype.spec_bytes().len() == 0 {
                            None
                        } else {
                            Some(devtype.spec_bytes())
                        },
                    },
                ),
                Err(e) => (has_nul(subsystem.spec_bytes()) || has_nul(devtype.spec_bytes()))
                    && final(self)@ == old(self)@ && e.code() == EINVAL_CODE as int && spec_kind_of(
                    e.code(),
                ) == Kind::InvalidInput,
            },
    {
        let sub = match checked_bytes(subsystem) {
            Ok(v) => v,
            Err(e) => {
                return Err(e);
            },
        };
        let dt = match checked_bytes(devtype) {
            Ok(v) => v,
            Err(e) => {
                return Err(e);
            },
        };
        let rule = if dt.len() == 0 {
            FilterRule { subsystem: sub, devtype: None }
        } else {
            FilterRule { subsystem: sub, devtype: Some(dt) }
        };
        self.rules.push(rule);
        proof {
            assert(self@ =~= old(self)@.push(
                RuleModel {
                    subsystem: subsystem.spec_bytes(),
                    devtype: if devtype.spec_bytes().len() == 0 {
                        None
                    } else {
                        Some(devtype.spec_bytes())
                    },
                },
            ));
        }
        Ok(())
    }

    /// Activates the channel: consumes the builder, baking its rules into a
    /// monitor around the pollable descriptor the caller opened for the
    /// kernel notification channel.  The builder cannot be touched again.
    pub fn listen(self, fd: i32) -> (m: Monitor)
        ensures
            m.spec_rules() == self@,
            m.raw_fd() == fd as int,
    {
        Monitor { fd, rules: self.rules }
    }
}

/// The outcome of one non-blocking read that the caller performed on the
/// monitor's descriptor, handed in as plain values.
pub enum ReadOutcome {
    /// A complete notification payload was read.
    Data(Vec<u8>),
    /// Nothing was pending: the read would have blocked.
    WouldBlock,
    /// The read failed; the field is the native return value, `-errno`.
    Failed(i32),
}

impl ReadOutcome {
    /// Classifies one non-blocking read on the channel from its native
    /// return: a non-negative count carries the first `n` bytes of the
    /// buffer as one payload; a failure is judged by its errno — the
    /// would-block code ("try again", which `EWOULDBLOCK` aliases on Linux)
    /// is the designed-normal "nothing pending" outcome, and every other
    /// code a failure carrying the native `-errno` value.
    pub fn classify(n: isize, errno: i32, buf: Vec<u8>) -> (r: ReadOutcome)
        requires
            n >= 0 ==> n <= buf@.len(),
            n < 0 ==> errno != i32::MIN,
        ensures
            n >= 0 ==> (r matches ReadOutcome::Data(p) && p@ == buf@.subrange(0, n as int)),
            n < 0 && errno == EAGAIN_CODE ==> r is WouldBlock,
            n < 0 && errno != EAGAIN_CODE ==> (r matches ReadOutcome::Failed(code) && code
                == -errno),
    {
        if n >= 0 {
            ReadOutcome::Data(copy_range(buf.as_slice(), 0, n as usize))
        } else if errno == eagain_errno() || errno == ewouldblock_errno() {
            ReadOutcome::WouldBlock
        } else {
            ReadOutcome::Failed(-errno)
        }
    }
}

/// An activated monitor: the filter rules baked in at activation, around
/// the pollable descriptor whose readiness the caller waits for.
///
/// Events come out in kernel order with their sequence numbers as decoded;
/// after a receive-buffer overflow the kernel drops notifications, and the
/// loss shows as a gap in the numbers — it is surfaced, never masked by
/// retry or replay.
pub struct Monitor {
    fd: i32,
    rules: Vec<FilterRule>,
}

impl Monitor {
    /// The rules the monitor filters by.
    pub closed spec fn spec_rules(&self) -> Seq<RuleModel> {
        Seq::new(self.rules@.len(), |i: int| self.rules@[i]@)
    }

    /// The descriptor the monitor owns.
    pub closed spec fn raw_fd(&self) -> int {
        self.fd as int
    }

    /// The underlying pollable descriptor, for integration with an external
    /// readiness-polling primitive.
    pub fn as_raw_fd(&self) -> (r: i32)
        ensures
            r as int == self.raw_fd(),
    {
        self.fd
    }

    /// Whether this monitor's rules deliver an event.
    fn delivers_event(&self, ev: &Event) -> (r: bool)
        ensures
            r == spec_delivers(self.spec_rules(), ev@.subsystem, ev@.devtype),
    {
        if self.rules.len() == 0 {
            return true;
        }
        let mut i: usize = 0;
        while i < self.rules.len()
            invariant
                i <= self.rules@.len(),
                forall|j: int|
                    0 <= j < i ==> !spec_rule_matches(
                        self.spec_rules()[j],
                        ev@.subsystem,
                        ev@.devtype,
                    ),
            decreases self.rules@.len() - i,
        {
            let rule = &self.rules[i];
            let matched = if !bytes_eq(rule.subsystem.as_slice(), ev.subsystem().as_slice()) {
                false
            } else {
                match &rule.devtype {
                    None => true,
                    Some(d) => match ev.devtype() {
                        Some(edt) => bytes_eq(d.as_slice(), edt.as_slice()),
                        None => false,
                    },
                }
            };
            proof {
                assert(matched == spec_rule_matches(self.spec_rules()[i as int], ev@.subsystem, ev@.devtype));
            }
            if matched {
                return true;
            }
            i = i + 1;
        }
        false
    }

    /// Interprets one non-blocking read attempt on the monitor's channel.
    ///
    /// A read that would have blocked is the designed-normal "no event"
    /// outcome, not an error; the caller re-polls.  A failed read surfaces
    /// the classified error.  A payload is decoded; a malformed one is
    /// rejected with an invalid-input error (the channel is message-framed,
    /// so the caller may skip it and continue), and a well-formed one is
    /// delivered exactly where the monitor's rules match it.
    pub fn receive_event(&self, read: ReadOutcome) -> (r: Result<Option<Event>>)
        requires
            read matches ReadOutcome::Failed(code) ==> code != i32::MIN,
        ensures
            read is WouldBlock ==> r == Ok::<Option<Event>, Error>(None),
            read matches ReadOutcome::Failed(code) ==> r matches Err(e) && e.code() == -code as int,
            read matches ReadOutcome::Data(payload) ==> match spec_decode(payload@) {
                Some(model) => {
                    &&& spec_delivers(self.spec_rules(), model.subsystem, model.devtype)
                        ==> (r matches Ok(o) && o matches Some(ev) && ev@ == model)
                    &&& !spec_delivers(self.spec_rules(), model.subsystem, model.devtype)
                        ==> r == Ok::<Option<Event>, Error>(None)
                },
                None => r matches Err(e) && e.code() == EINVAL_CODE as int && spec_kind_of(e.code())
                    == Kind::InvalidInput,
            },
    {
        match read {
            ReadOutcome::WouldBlock => Ok(None),
            ReadOutcome::Failed(code) => Err(from_errno(code)),
            ReadOutcome::Data(payload) => match decode_event(payload.as_slice()) {
                Err(e) => Err(e),
                Ok(ev) => {
                    if self.delivers_event(&ev) {
                        Ok(Some(ev))
                    } else {
                        Ok(None)
                    }
                },
            },
        }
    }

    /// Ends the monitor's lifecycle: consumes it and hands the descriptor
    /// back so that the caller can close it, exactly once.  No operation on
    /// the monitor can follow, by the type-level lifecycle.
    pub fn into_raw_fd(self) -> (r: i32)
        ensures
            r as int == self.raw_fd(),
    {
        self.fd
    }
}

} // verus!
