//! Decoding of raw fixed-size input-event records.
//!
//! A record is `EVENT_RECORD_LEN` bytes: a 16-byte timestamp prefix that the
//! collector ignores, then three little-endian fields at fixed offsets:
//! `category` (u16 at offset 16), `code` (u16 at offset 18) and
//! `value` (i32 at offset 20).

use vstd::prelude::*;

verus! {

/// Size in bytes of one raw input-event record.
pub const EVENT_RECORD_LEN: usize = 24;

/// Coarse class of an input record; only `Key` records reach the tracker.
#[derive(Copy, Clone, PartialEq, Eq, Structural, Debug)]
pub enum EventKind {
    Sync,
    Key,
    Switch,
    Repeat,
    Other,
}

/// The closed mapping from a record's raw category field to its kind.
pub open spec fn kind_of_category(category: u16) -> EventKind {
    if category == 0 {
        EventKind::Sync
    } else if category == 1 {
        EventKind::Key
    } else if category == 4 {
        EventKind::Switch
    } else if category == 20 {
        EventKind::Repeat
    } else {
        EventKind::Other
    }
}

/// Classify a raw category field.
pub fn category_kind(category: u16) -> (k: EventKind)
    ensures
        k == kind_of_category(category),
{
    match category {
        0 => EventKind::Sync,
        1 => EventKind::Key,
        4 => EventKind::Switch,
        20 => EventKind::Repeat,
        _ => EventKind::Other,
    }
}

/// The three semantically relevant fields of one raw record.
#[derive(Copy, Clone, PartialEq, Eq, Structural, Debug)]
pub struct DecodedEvent {
    pub category: u16,
    pub code: u16,
    pub value: i32,
}

/// The unsigned 16-bit integer stored little-endian at offset `i` of `b`.
pub open spec fn le16_at(b: Seq<u8>, i: int) -> u16
    recommends
        0 <= i,
        i + 2 <= b.len(),
{
    (b[i] + b[i + 1] * 256) as u16
}

/// The signed 32-bit integer stored little-endian at offset `i` of `b`,
/// read in two's complement.
pub open spec fn le_sint32_at(b: Seq<u8>, i: int) -> int
    recommends
        0 <= i,
        i + 4 <= b.len(),
{
    let u = b[i] + b[i + 1] * 256 + b[i + 2] * 65536 + b[i + 3] * 16777216;
    if u < 0x8000_0000 {
        u
    } else {
        u - 0x1_0000_0000
    }
}

/// What a well-formed record of `b` decodes to.
pub open spec fn decoded_of(b: Seq<u8>) -> DecodedEvent
    recommends
        b.len() == EVENT_RECORD_LEN,
{
    DecodedEvent {
        category: le16_at(b, 16),
        code: le16_at(b, 18),
        value: le_sint32_at(b, 20) as i32,
    }
}

/// Read the u16 stored little-endian at offset `i`.
fn read_le16(buf: &[u8], i: usize) -> (r: u16)
    requires
        i + 2 <= buf@.len(),
    ensures
        r == le16_at(buf@, i as int),
{
    let lo = buf[i] as u16;
    let hi = buf[i + 1] as u16;
    lo + hi * 256
}

/// Read the i32 stored little-endian at offset `i`, by explicit field
/// extraction (no reinterpretation of memory).
fn read_le_i32(buf: &[u8], i: usize) -> (r: i32)
    requires
        i + 4 <= buf@.len(),
    ensures
        r as int == le_sint32_at(buf@, i as int),
{
    let b0 = buf[i] as u32;
    let b1 = buf[i + 1] as u32;
    let b2 = buf[i + 2] as u32;
    let b3 = buf[i + 3] as u32;
    let u: u32 = b0 + b1 * 256 + b2 * 65536 + b3 * 16777216;
    if u < 0x8000_0000 {
        u as i32
    } else {
        let w: u32 = 0xFFFF_FFFF - u;
        -(w as i32) - 1
    }
}

/// Decode one raw record. Exactly the records of the fixed size decode;
/// a shorter or longer buffer is rejected and must be skipped by the caller.
pub fn decode_event(buf: &[u8]) -> (r: Option<DecodedEvent>)
    ensures
        buf@.len() == EVENT_RECORD_LEN ==> r == Some(decoded_of(buf@)),
        buf@.len() != EVENT_RECORD_LEN ==> r is None,
{
    if buf.len() != EVENT_RECORD_LEN {
        return None;
    }
    let category = read_le16(buf, 16);
    let code = read_le16(buf, 18);
    let value = read_le_i32(buf, 20);
    Some(DecodedEvent { category, code, value })
}

} // verus!
