//! The owned model of an encoded compressed packet.
//!
//! A packet owns one native allocation plus, possibly, a reference-counted
//! byte buffer attached by the native layer. Teardown is two-step: the
//! buffer must be unreferenced before the struct itself goes away, or the
//! native layer leaks a reference. The model tracks buffer attachment and
//! offers the two steps in the only order that is safe.

use vstd::prelude::*;

use crate::AV_NOPTS_VALUE;

verus! {

/// Encoded compressed data plus timing and position.
#[derive(Clone, Copy, Debug, PartialEq, Eq, Structural)]
pub struct Packet {
    pub pts: i64,
    pub dts: i64,
    pub duration: i64,
    pub pos: i64,
    pub stream_index: i32,
    /// Whether a native byte buffer is attached and still referenced.
    pub buf_attached: bool,
}

/// The state of a freshly allocated packet: no timestamps, unknown byte
/// position, no attached buffer.
pub open spec fn packet_defaults() -> Packet {
    Packet {
        pts: AV_NOPTS_VALUE,
        dts: AV_NOPTS_VALUE,
        duration: 0,
        pos: -1i64,
        stream_index: 0,
        buf_attached: false,
    }
}

impl Packet {
    /// Allocates an empty packet. The native allocation either succeeds or
    /// is a fatal out-of-memory condition handled outside the library, so
    /// the model constructor is total.
    pub fn allocate() -> (p: Packet)
        ensures
            p == packet_defaults(),
    {
        Packet {
            pts: AV_NOPTS_VALUE,
            dts: AV_NOPTS_VALUE,
            duration: 0,
            pos: -1,
            stream_index: 0,
            buf_attached: false,
        }
    }

    /// The decode timestamp.
    pub fn dts(&self) -> (r: i64)
        ensures
            r == self.dts,
    {
        self.dts
    }

    /// The presentation duration in stream time-base units.
    pub fn duration(&self) -> (r: i64)
        ensures
            r == self.duration,
    {
        self.duration
    }

    /// The byte position in the container, `-1` when unknown.
    pub fn pos(&self) -> (r: i64)
        ensures
            r == self.pos,
    {
        self.pos
    }

    /// The presentation timestamp.
    pub fn pts(&self) -> (r: i64)
        ensures
            r == self.pts,
    {
        self.pts
    }

    /// Sets the decode timestamp.
    pub fn set_dts(&mut self, value: i64)
        ensures
            *final(self) == (Packet { dts: value, ..*old(self) }),
    {
        self.dts = value;
    }

    /// Sets the presentation duration.
    pub fn set_duration(&mut self, value: i64)
        ensures
            *final(self) == (Packet { duration: value, ..*old(self) }),
    {
        self.duration = value;
    }

    /// Sets the byte position.
    pub fn set_pos(&mut self, value: i64)
        ensures
            *final(self) == (Packet { pos: value, ..*old(self) }),
    {
        self.pos = value;
    }

    /// Sets the presentation timestamp.
    pub fn set_pts(&mut self, value: i64)
        ensures
            *final(self) == (Packet { pts: value, ..*old(self) }),
    {
        self.pts = value;
    }

    /// Sets the index of the stream this packet belongs to, narrowed to the
    /// native 32-bit field.
    pub fn set_stream_index(&mut self, value: usize)
        requires
            value <= i32::MAX as usize,
        ensures
            *final(self) == (Packet { stream_index: value as i32, ..*old(self) }),
    {
        self.stream_index = value as i32;
    }

    /// The index of the stream this packet belongs to.
    pub fn stream_index(&self) -> (r: usize)
        requires
            0 <= self.stream_index,
        ensures
            r as int == self.stream_index as int,
    {
        self.stream_index as usize
    }

    /// Unreferences the attached byte buffer, if any, and resets the packet
    /// to its freshly allocated state. Safe to call any number of times.
    pub fn unref(&mut self)
        ensures
            *final(self) == packet_defaults(),
    {
        self.pts = AV_NOPTS_VALUE;
        self.dts = AV_NOPTS_VALUE;
        self.duration = 0;
        self.pos = -1;
        self.stream_index = 0;
        self.buf_attached = false;
    }

    /// Consumes the packet, performing the two-step teardown in the safe
    /// order: the buffer is unreferenced first, then the struct itself goes
    /// away. Ownership makes a second release of the same handle impossible,
    /// and releasing one packet leaves every other handle untouched.
    pub fn release(self) {
        let mut p = self;
        p.unref();
    }
}

} // verus!
