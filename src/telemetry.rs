//! The outbound telemetry record and the relay's frame counter.

use vstd::bytes::*;
use vstd::prelude::*;

verus! {

/// Length of an encoded telemetry record.
pub const RECORD_LEN: usize = 52;

/// One telemetry record: three positions and three angles, each the bit
/// pattern of a binary64 value, and a frame counter.
#[derive(Clone, Copy, Debug, PartialEq, Eq, Structural)]
pub struct OpenTrackData {
    pub x: u64,
    pub y: u64,
    pub z: u64,
    pub yaw: u64,
    pub pitch: u64,
    pub roll: u64,
    pub frame_number: u32,
}

/// The wire form of a record: `x, y, z, yaw, pitch, roll` as 8 bytes each,
/// then `frame_number` as 4 bytes, 52 bytes in all. The consumer reads the
/// record in its host's byte order; the byte order is fixed here as
/// little-endian, by choice, so the record is the same on every machine and
/// matches the host order on the little-endian machines it runs on.
pub open spec fn record_bytes(d: OpenTrackData) -> Seq<u8> {
    spec_u64_to_le_bytes(d.x) + spec_u64_to_le_bytes(d.y) + spec_u64_to_le_bytes(d.z)
        + spec_u64_to_le_bytes(d.yaw) + spec_u64_to_le_bytes(d.pitch) + spec_u64_to_le_bytes(
        d.roll,
    ) + spec_u32_to_le_bytes(d.frame_number)
}

impl OpenTrackData {
    /// A record for one orientation: the positions are zero (the binary64
    /// value `0.0`), the angles are binary64 bit patterns.
    pub fn from_viture_sdk(yaw: u64, pitch: u64, roll: u64, frame_number: u32) -> (r: Self)
        ensures
            r == (OpenTrackData { x: 0, y: 0, z: 0, yaw, pitch, roll, frame_number }),
    {
        OpenTrackData { x: 0, y: 0, z: 0, yaw, pitch, roll, frame_number }
    }

    /// The record's 52 bytes as they go on the wire.
    pub fn into_raw(&self) -> (r: Vec<u8>)
        ensures
            r@ == record_bytes(*self),
            r@.len() == RECORD_LEN,
    {
        proof {
            lemma_auto_spec_u64_to_from_le_bytes();
            lemma_auto_spec_u32_to_from_le_bytes();
        }
        let mut out = u64_to_le_bytes(self.x);
        let mut part = u64_to_le_bytes(self.y);
        out.append(&mut part);
        let mut part = u64_to_le_bytes(self.z);
        out.append(&mut part);
        let mut part = u64_to_le_bytes(self.yaw);
        out.append(&mut part);
        let mut part = u64_to_le_bytes(self.pitch);
        out.append(&mut part);
        let mut part = u64_to_le_bytes(self.roll);
        out.append(&mut part);
        let mut part = u32_to_le_bytes(self.frame_number);
        out.append(&mut part);
        out
    }
}

/// Where each field lies in the wire form: reading bytes 24..32 back as a
/// little-endian binary64 gives the yaw bit for bit, and likewise for every
/// other field at its offset.
pub proof fn lemma_record_layout(d: OpenTrackData)
    ensures
        record_bytes(d).len() == RECORD_LEN,
        spec_u64_from_le_bytes(record_bytes(d).subrange(0, 8)) == d.x,
        spec_u64_from_le_bytes(record_bytes(d).subrange(8, 16)) == d.y,
        spec_u64_from_le_bytes(record_bytes(d).subrange(16, 24)) == d.z,
        spec_u64_from_le_bytes(record_bytes(d).subrange(24, 32)) == d.yaw,
        spec_u64_from_le_bytes(record_bytes(d).subrange(32, 40)) == d.pitch,
        spec_u64_from_le_bytes(record_bytes(d).subrange(40, 48)) == d.roll,
        spec_u32_from_le_bytes(record_bytes(d).subrange(48, 52)) == d.frame_number,
{
    lemma_auto_spec_u64_to_from_le_bytes();
    lemma_auto_spec_u32_to_from_le_bytes();
    let s = record_bytes(d);
    assert(s.subrange(0, 8) == spec_u64_to_le_bytes(d.x));
    assert(s.subrange(8, 16) == spec_u64_to_le_bytes(d.y));
    assert(s.subrange(16, 24) == spec_u64_to_le_bytes(d.z));
    assert(s.subrange(24, 32) == spec_u64_to_le_bytes(d.yaw));
    assert(s.subrange(32, 40) == spec_u64_to_le_bytes(d.pitch));
    assert(s.subrange(40, 48) == spec_u64_to_le_bytes(d.roll));
    assert(s.subrange(48, 52) == spec_u32_to_le_bytes(d.frame_number));
}

/// The relay's frame counter: it starts at zero, numbers each record it
/// encodes, and wraps around at the end of its range.
pub struct FrameCounter {
    pub frame_number: u32,
}

impl FrameCounter {
    pub fn new() -> (r: Self)
        ensures
            r.frame_number == 0,
    {
        FrameCounter { frame_number: 0 }
    }

    /// Encodes one record for the given binary64 angles under the current
    /// frame number, then advances the counter by one, wrapping around.
    pub fn encode(&mut self, yaw: u64, pitch: u64, roll: u64) -> (r: Vec<u8>)
        ensures
            r@ == record_bytes(
                OpenTrackData { x: 0, y: 0, z: 0, yaw, pitch, roll, frame_number: old(self).frame_number },
            ),
            final(self).frame_number == (if old(self).frame_number == u32::MAX {
                0
            } else {
                old(self).frame_number + 1
            }),
    {
        let data = OpenTrackData::from_viture_sdk(yaw, pitch, roll, self.frame_number);
        self.frame_number = self.frame_number.wrapping_add(1);
        data.into_raw()
    }
}

} // verus!
