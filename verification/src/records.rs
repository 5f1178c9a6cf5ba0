//! Resource records as the library reads them out of a response.
//!
//! The wire-format codec is not this crate's concern: an outside library
//! parses a message, and each record reaches the logic here as plain
//! values — the owner name and the record data in presentation form, and
//! the class, type and TTL as integers.

use vstd::prelude::*;

use domain::base::message::Message;
use domain::rdata::AllRecordData;

verus! {

/// The record type number of a SOA record.
pub const RTYPE_SOA: u16 = 6;

/// The record type number of an NS record.
pub const RTYPE_NS: u16 = 2;

/// The class number of the IN class.
pub const CLASS_IN: u16 = 1;

/// The record type number of an AXFR query.
pub const RTYPE_AXFR: u16 = 252;

/// The record type number of an IXFR query.
pub const RTYPE_IXFR: u16 = 251;

/// The record type number of a PTR record.
pub const RTYPE_PTR: u16 = 12;

/// The record type number of an AAAA record.
pub const RTYPE_AAAA: u16 = 28;

/// One resource record, reduced to plain values.
///
/// `owner` and `data` hold the presentation form (as the codec displays
/// them, without a trailing dot on names); `class`, `rtype` and `ttl`
/// hold the wire integers.
#[derive(Clone, Debug)]
pub struct RecordRepr {
    pub owner: Vec<u8>,
    pub class: u16,
    pub rtype: u16,
    pub ttl: u32,
    pub data: Vec<u8>,
}

/// The mathematical value of a [`RecordRepr`].
#[verifier::ext_equal]
pub struct RecordView {
    pub owner: Seq<u8>,
    pub class: u16,
    pub rtype: u16,
    pub ttl: u32,
    pub data: Seq<u8>,
}

impl View for RecordRepr {
    type V = RecordView;

    open spec fn view(&self) -> RecordView {
        RecordView {
            owner: self.owner@,
            class: self.class,
            rtype: self.rtype,
            ttl: self.ttl,
            data: self.data@,
        }
    }
}

/// The views of a sequence of records.
pub open spec fn record_views(s: Seq<RecordRepr>) -> Seq<RecordView> {
    s.map_values(|r: RecordRepr| r@)
}

/// An upper-case ASCII letter folded to lower case; anything else kept.
pub open spec fn lower_u8(b: u8) -> u8 {
    if 65 <= b && b <= 90 {
        (b + 32) as u8
    } else {
        b
    }
}

/// Domain names compare equal without regard to ASCII case.
pub open spec fn spec_name_eq(a: Seq<u8>, b: Seq<u8>) -> bool {
    a.len() == b.len() && forall|i: int| 0 <= i < a.len() ==> lower_u8(a[i]) == lower_u8(b[i])
}

/// Compares two names in presentation form, ignoring ASCII case.
pub fn name_eq(a: &Vec<u8>, b: &Vec<u8>) -> (r: bool)
    ensures
        r == spec_name_eq(a@, b@),
{
    if a.len() != b.len() {
        return false;
    }
    let mut i: usize = 0;
    while i < a.len()
        invariant
            0 <= i <= a.len(),
            a@.len() == b@.len(),
            forall|j: int| 0 <= j < i ==> lower_u8(a@[j]) == lower_u8(b@[j]),
        decreases a.len() - i,
    {
        let mut x = a[i];
        let mut y = b[i];
        if 65 <= x && x <= 90 {
            x = x + 32;
        }
        if 65 <= y && y <= 90 {
            y = y + 32;
        }
        if x != y {
            return false;
        }
        i = i + 1;
    }
    true
}

/// Whether the truncation flag is set in a message's header.
///
/// The flag sits in the third header byte: its second-lowest bit.  A
/// message too short to have that byte counts as not truncated.
pub open spec fn spec_truncated(m: Seq<u8>) -> bool {
    m.len() > 2 && (m[2] & 2) != 0
}

/// Reads the truncation flag out of a message's bytes.
pub fn is_truncated(msg: &Vec<u8>) -> (r: bool)
    ensures
        r == spec_truncated(msg@),
{
    msg.len() > 2 && (msg[2] & 2) != 0
}

/// What the codec parses out of a message's answer section: the records
/// in order, reduced to plain values, with records whose data cannot be
/// understood left out; or nothing, when the section itself cannot be
/// parsed.
pub uninterp spec fn answer_records(m: Seq<u8>) -> Option<Seq<RecordView>>;

/// As [`answer_records`], for the authority section.
pub uninterp spec fn authority_records(m: Seq<u8>) -> Option<Seq<RecordView>>;

/// Relies on `domain`'s message parser: the records of the answer
/// section are a function of the message bytes alone.
#[verifier::external_body]
pub(crate) fn parse_answer(msg: &Vec<u8>) -> (r: Option<Vec<RecordRepr>>)
    ensures
        match r {
            Some(v) => answer_records(msg@) == Some(record_views(v@)),
            None => answer_records(msg@) is None,
        },
{
    let m = match Message::from_octets(msg.as_slice()) { Ok(m) => m, Err(_) => return None };
    let section = match m.answer() { Ok(s) => s, Err(_) => return None };
    let mut out = Vec::new();
    for item in section.into_records::<AllRecordData<_, _>>() {
        if let Ok(rec) = item {
            out.push(RecordRepr {
                owner: rec.owner().to_string().into_bytes(),
                class: rec.class().to_int(),
                rtype: rec.rtype().to_int(),
                ttl: rec.ttl().as_secs(),
                data: rec.data().to_string().into_bytes(),
            });
        }
    }
    Some(out)
}

/// Relies on `domain`'s message parser: the records of the authority
/// section are a function of the message bytes alone.
#[verifier::external_body]
pub(crate) fn parse_authority(msg: &Vec<u8>) -> (r: Option<Vec<RecordRepr>>)
    ensures
        match r {
            Some(v) => authority_records(msg@) == Some(record_views(v@)),
            None => authority_records(msg@) is None,
        },
{
    let m = match Message::from_octets(msg.as_slice()) { Ok(m) => m, Err(_) => return None };
    let section = match m.authority() { Ok(s) => s, Err(_) => return None };
    let mut out = Vec::new();
    for item in section.into_records::<AllRecordData<_, _>>() {
        if let Ok(rec) = item {
            out.push(RecordRepr {
                owner: rec.owner().to_string().into_bytes(),
                class: rec.class().to_int(),
                rtype: rec.rtype().to_int(),
                ttl: rec.ttl().as_secs(),
                data: rec.data().to_string().into_bytes(),
            });
        }
    }
    Some(out)
}

/// Copies a byte vector.
pub fn copy_bytes(v: &Vec<u8>) -> (r: Vec<u8>)
    ensures
        r@ == v@,
{
    let mut r: Vec<u8> = Vec::new();
    let mut i: usize = 0;
    while i < v.len()
        invariant
            0 <= i <= v@.len(),
            r@ =~= v@.take(i as int),
        decreases v@.len() - i,
    {
        r.push(v[i]);
        i = i + 1;
        proof {
            assert(r@ =~= v@.take(i as int));
        }
    }
    proof {
        assert(v@.take(v@.len() as int) =~= v@);
    }
    r
}

} // verus!
