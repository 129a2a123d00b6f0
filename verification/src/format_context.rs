//! The container session: the open/read/seek/close protocol of a container
//! opened for reading and the open/header/packets/trailer/close protocol of
//! one opened for writing.
//!
//! The session's mode is part of its verified state: every operation names
//! the mode it needs, so a read-mode teardown of a write session (or the
//! reverse), a write after the trailer, or any call on a closed session is
//! rejected by the verifier rather than corrupting native state at run
//! time. Every operation that depends on a native outcome takes that status
//! code as an argument and is verified for every value of it.

use vstd::prelude::*;

use crate::{
    AVERROR_EOF, AVERROR_STREAM_NOT_FOUND, FFmpegError, Rational, avrational_of, error_from_code,
};
use crate::codec::Codec;
use crate::packet::Packet;
use crate::stream::{Stream, fresh_stream};

verus! {

/// Which teardown a session owes: the read-specific close or the
/// write-specific close.
#[derive(Clone, Copy, Debug, PartialEq, Eq, Structural)]
pub enum SessionMode {
    Read,
    Write,
}

/// Where a write session stands in the container protocol: streams may be
/// added, then the header is written exactly once, then packets, then the
/// trailer exactly once.
#[derive(Clone, Copy, Debug, PartialEq, Eq, Structural)]
pub enum WritePhase {
    Configuring,
    HeaderWritten,
    TrailerWritten,
}

/// An open container, in read or write mode. Exclusively owned by the
/// session that opened it; its streams are valid only while it is open.
#[derive(Debug)]
pub struct FormatContext {
    pub mode: SessionMode,
    pub closed: bool,
    pub phase: WritePhase,
    pub streams: Vec<Stream>,
    pub flags: i32,
    /// Packets read from the container so far (read mode).
    pub packets_read: u64,
    /// Packets written through the interleaving writer so far (write mode).
    pub packets_written: u64,
}

impl FormatContext {
    /// The entry condition of every read-mode operation: the session was
    /// opened for reading and its teardown has not run.
    pub open spec fn can_read(self) -> bool {
        self.mode is Read && !self.closed
    }

    /// The entry condition of every write-mode operation: the session was
    /// opened for writing and its teardown has not run.
    pub open spec fn can_write(self) -> bool {
        self.mode is Write && !self.closed
    }

    /// Opens a container for reading: the native open is followed by the
    /// stream-information probe, and either can fail independently through
    /// the error taxonomy. `open_status` and `probe_status` are the two
    /// native outcomes; `streams` is the stream table the probe discovered.
    pub fn open_read(open_status: i32, probe_status: i32, streams: Vec<Stream>) -> (r: Result<
        FormatContext,
        FFmpegError,
    >)
        ensures
            open_status != 0 ==> r == Err::<FormatContext, FFmpegError>(
                error_from_code(open_status),
            ),
            open_status == 0 && probe_status < 0 ==> r == Err::<FormatContext, FFmpegError>(
                error_from_code(probe_status),
            ),
            open_status == 0 && 0 <= probe_status ==> ({
                &&& r matches Ok(ctx)
                &&& ctx.mode is Read
                &&& !ctx.closed
                &&& ctx.streams@ == streams@
                &&& ctx.flags == 0
                &&& ctx.packets_read == 0
                &&& ctx.packets_written == 0
            }),
    {
        if open_status != 0 {
            return Err(FFmpegError::from(open_status));
        }
        if probe_status < 0 {
            return Err(FFmpegError::from(probe_status));
        }
        Ok(
            FormatContext {
                mode: SessionMode::Read,
                closed: false,
                phase: WritePhase::Configuring,
                streams,
                flags: 0,
                packets_read: 0,
                packets_written: 0,
            },
        )
    }

    /// Opens a container for writing: the output context is allocated, then
    /// the underlying I/O sink is opened, and either step can fail through
    /// the error taxonomy. `alloc_status` and `io_open_status` are the two
    /// native outcomes. The session starts with no streams, before the
    /// header.
    pub fn open_write(alloc_status: i32, io_open_status: i32) -> (r: Result<
        FormatContext,
        FFmpegError,
    >)
        ensures
            alloc_status < 0 ==> r == Err::<FormatContext, FFmpegError>(
                error_from_code(alloc_status),
            ),
            0 <= alloc_status && io_open_status < 0 ==> r == Err::<FormatContext, FFmpegError>(
                error_from_code(io_open_status),
            ),
            0 <= alloc_status && 0 <= io_open_status ==> ({
                &&& r matches Ok(ctx)
                &&& ctx.mode is Write
                &&& !ctx.closed
                &&& ctx.phase is Configuring
                &&& ctx.streams@.len() == 0
                &&& ctx.flags == 0
                &&& ctx.packets_read == 0
                &&& ctx.packets_written == 0
            }),
    {
        if alloc_status < 0 {
            return Err(FFmpegError::from(alloc_status));
        }
        if io_open_status < 0 {
            return Err(FFmpegError::from(io_open_status));
        }
        Ok(
            FormatContext {
                mode: SessionMode::Write,
                closed: false,
                phase: WritePhase::Configuring,
                streams: Vec::new(),
                flags: 0,
                packets_read: 0,
                packets_written: 0,
            },
        )
    }

    /// The read-specific teardown. Only a read session can owe it; once it
    /// has run, no further call on the session verifies.
    pub fn close_input(&mut self)
        requires
            old(self).can_read(),
        ensures
            *final(self) == (FormatContext { closed: true, ..*old(self) }),
    {
        self.closed = true;
    }

    /// The write-specific teardown, which also closes the I/O sink; a flush
    /// failure there is data loss, so it is surfaced through the taxonomy
    /// rather than swallowed. The session is closed either way, and no
    /// further call on it verifies.
    pub fn close_output(&mut self, status: i32) -> (r: Result<(), FFmpegError>)
        requires
            old(self).can_write(),
        ensures
            *final(self) == (FormatContext { closed: true, ..*old(self) }),
            status == 0 ==> r == Ok::<(), FFmpegError>(()),
            status != 0 ==> r == Err::<(), FFmpegError>(error_from_code(status)),
    {
        self.closed = true;
        if status == 0 {
            Ok(())
        } else {
            Err(FFmpegError::from(status))
        }
    }

    /// Best-stream lookup for a media type. `status` is the native outcome
    /// (the chosen stream index, or a negative code) and `codec` the
    /// descriptor the native lookup selected, if any. "No such stream" is
    /// an empty result, distinguished from a true failure.
    pub fn find_best_stream(&self, status: i32, codec: Option<Codec>) -> (r: Result<
        Option<(Codec, usize)>,
        FFmpegError,
    >)
        requires
            self.can_read(),
        ensures
            ({
                match codec {
                    Some(c) => {
                        if -1 < status {
                            &&& r matches Ok(Some(pair))
                            &&& pair.0 == c
                            &&& pair.1 == status as usize
                        } else if status == AVERROR_STREAM_NOT_FOUND {
                            r matches Ok(found) && found is None
                        } else {
                            r == Err::<Option<(Codec, usize)>, FFmpegError>(
                                error_from_code(status),
                            )
                        }
                    },
                    None => {
                        if status == AVERROR_STREAM_NOT_FOUND {
                            r matches Ok(found) && found is None
                        } else {
                            r == Err::<Option<(Codec, usize)>, FFmpegError>(
                                error_from_code(status),
                            )
                        }
                    },
                }
            }),
    {
        match codec {
            Some(c) => {
                if -1 < status {
                    Ok(Some((c, status as usize)))
                } else if status == AVERROR_STREAM_NOT_FOUND {
                    Ok(None)
                } else {
                    Err(FFmpegError::from(status))
                }
            },
            None => {
                if status == AVERROR_STREAM_NOT_FOUND {
                    Ok(None)
                } else {
                    Err(FFmpegError::from(status))
                }
            },
        }
    }

    /// The container's flag bits.
    pub fn flags(&self) -> (r: i32)
        ensures
            r == self.flags,
    {
        self.flags
    }

    /// Adds a new stream to a container being written, before the header.
    /// `alloc_ok` is whether the native allocation succeeded; on success
    /// the new stream's index is returned.
    pub fn new_stream(&mut self, alloc_ok: bool) -> (r: Result<usize, FFmpegError>)
        requires
            old(self).can_write(),
            old(self).phase is Configuring,
            old(self).streams@.len() < usize::MAX,
        ensures
            alloc_ok ==> ({
                &&& r == Ok::<usize, FFmpegError>(old(self).streams@.len() as usize)
                &&& final(self).streams@ == old(self).streams@.push(
                    fresh_stream(old(self).streams@.len() as usize),
                )
                &&& *final(self) == (FormatContext { streams: final(self).streams, ..*old(self) })
            }),
            !alloc_ok ==> r == Err::<usize, FFmpegError>(FFmpegError::InvalidData) && *final(self)
                == *old(self),
    {
        if alloc_ok {
            let index = self.streams.len();
            self.streams.push(
                Stream {
                    index,
                    time_base: crate::AvRational { num: 0, den: 1 },
                    avg_frame_rate: crate::AvRational { num: 0, den: 1 },
                    codecpar: crate::codec_params::CodecParams::allocate(),
                    codec_tag: 0,
                },
            );
            Ok(index)
        } else {
            Err(FFmpegError::InvalidData)
        }
    }

    /// Reads the next packet from a container opened for reading. `status`
    /// is the native outcome; `packet` is the freshly allocated packet the
    /// native call filled. The clean end of the container is an empty
    /// result, distinguished from a true failure.
    pub fn read_frame(&mut self, status: i32, packet: Packet) -> (r: Result<
        Option<Packet>,
        FFmpegError,
    >)
        requires
            old(self).can_read(),
            0 <= status ==> old(self).packets_read < u64::MAX,
        ensures
            status == AVERROR_EOF ==> r == Ok::<Option<Packet>, FFmpegError>(None) && *final(self)
                == *old(self),
            status < 0 && status != AVERROR_EOF ==> r == Err::<Option<Packet>, FFmpegError>(
                error_from_code(status),
            ) && *final(self) == *old(self),
            0 <= status ==> r == Ok::<Option<Packet>, FFmpegError>(Some(packet)) && *final(self)
                == (FormatContext { packets_read: (old(self).packets_read + 1) as u64, ..*old(self) }),
    {
        if status == AVERROR_EOF {
            Ok(None)
        } else if status < 0 {
            Err(FFmpegError::from(status))
        } else {
            self.packets_read = self.packets_read + 1;
            Ok(Some(packet))
        }
    }

    /// Best-effort seek to a byte offset; requires read mode, and a failure
    /// is reported, not swallowed. `status` is the native outcome.
    pub fn seek_byte(&mut self, stream_index: usize, _byte: i64, status: i32) -> (r: Result<
        (),
        FFmpegError,
    >)
        requires
            old(self).can_read(),
            stream_index <= i32::MAX as usize,
        ensures
            *final(self) == *old(self),
            status < 0 ==> r == Err::<(), FFmpegError>(error_from_code(status)),
            0 <= status ==> r == Ok::<(), FFmpegError>(()),
    {
        if status < 0 {
            Err(FFmpegError::from(status))
        } else {
            Ok(())
        }
    }

    /// Best-effort seek to a timestamp; requires read mode, and a failure
    /// is reported, not swallowed. `status` is the native outcome.
    pub fn seek_frame(&mut self, stream_index: usize, _ts: i64, status: i32) -> (r: Result<
        (),
        FFmpegError,
    >)
        requires
            old(self).can_read(),
            stream_index <= i32::MAX as usize,
        ensures
            *final(self) == *old(self),
            status < 0 ==> r == Err::<(), FFmpegError>(error_from_code(status)),
            0 <= status ==> r == Ok::<(), FFmpegError>(()),
    {
        if status < 0 {
            Err(FFmpegError::from(status))
        } else {
            Ok(())
        }
    }

    /// Borrows the stream at `index`; the borrow ties the stream's validity
    /// to the open session.
    pub fn stream(&self, index: usize) -> (r: &Stream)
        requires
            index < self.streams@.len(),
        ensures
            *r == self.streams@[index as int],
    {
        &self.streams[index]
    }

    /// Replaces the stream at `index`, the write-mode path for configuring
    /// a stream after adding it.
    pub fn set_stream(&mut self, index: usize, stream: Stream)
        requires
            old(self).can_write(),
            old(self).phase is Configuring,
            index < old(self).streams@.len(),
        ensures
            final(self).streams@ == old(self).streams@.update(index as int, stream),
            *final(self) == (FormatContext { streams: final(self).streams, ..*old(self) }),
    {
        self.streams.set(index, stream);
    }

    /// Sets the time base of the stream at `index`, reduced to the
    /// toolkit's fixed-width rational; fails, changing nothing, exactly
    /// when the reduction degenerates.
    pub fn set_stream_time_base(&mut self, index: usize, value: &Rational) -> (r: Result<
        (),
        FFmpegError,
    >)
        requires
            old(self).can_write(),
            old(self).phase is Configuring,
            index < old(self).streams@.len(),
        ensures
            ({
                match avrational_of(*value) {
                    Ok(a) => {
                        &&& r == Ok::<(), FFmpegError>(())
                        &&& final(self).streams@ == old(self).streams@.update(
                            index as int,
                            Stream { time_base: a, ..old(self).streams@[index as int] },
                        )
                        &&& *final(self) == (FormatContext {
                            streams: final(self).streams,
                            ..*old(self)
                        })
                    },
                    Err(e) => r == Err::<(), FFmpegError>(e) && *final(self) == *old(self),
                }
            }),
    {
        let mut stream = self.streams[index];
        match stream.set_time_base(value) {
            Ok(()) => {
                self.streams.set(index, stream);
                Ok(())
            },
            Err(e) => Err(e),
        }
    }

    /// Writes the container header, exactly once, before any packet.
    /// `status` is the native outcome; only success advances the protocol.
    pub fn write_header(&mut self, status: i32) -> (r: Result<(), FFmpegError>)
        requires
            old(self).can_write(),
            old(self).phase is Configuring,
        ensures
            status < 0 ==> r == Err::<(), FFmpegError>(error_from_code(status)) && *final(self)
                == *old(self),
            0 <= status ==> r == Ok::<(), FFmpegError>(()) && *final(self) == (FormatContext {
                phase: WritePhase::HeaderWritten,
                ..*old(self)
            }),
    {
        if status < 0 {
            Err(FFmpegError::from(status))
        } else {
            self.phase = WritePhase::HeaderWritten;
            Ok(())
        }
    }

    /// Writes one packet through the interleaving writer, which reorders
    /// across streams for valid container timing; each packet is consumed,
    /// so it is written exactly once. Requires the header to be written and
    /// the trailer not yet. `status` is the native outcome.
    pub fn write_interleaved(&mut self, _packet: Packet, status: i32) -> (r: Result<
        (),
        FFmpegError,
    >)
        requires
            old(self).can_write(),
            old(self).phase is HeaderWritten,
            0 <= status ==> old(self).packets_written < u64::MAX,
        ensures
            status < 0 ==> r == Err::<(), FFmpegError>(error_from_code(status)) && *final(self)
                == *old(self),
            0 <= status ==> r == Ok::<(), FFmpegError>(()) && *final(self) == (FormatContext {
                packets_written: (old(self).packets_written + 1) as u64,
                ..*old(self)
            }),
    {
        if status < 0 {
            Err(FFmpegError::from(status))
        } else {
            self.packets_written = self.packets_written + 1;
            Ok(())
        }
    }

    /// Writes the container trailer, exactly once, after all packets,
    /// finalising the container. `status` is the native outcome; only
    /// success advances the protocol.
    pub fn write_trailer(&mut self, status: i32) -> (r: Result<(), FFmpegError>)
        requires
            old(self).can_write(),
            old(self).phase is HeaderWritten,
        ensures
            status < 0 ==> r == Err::<(), FFmpegError>(error_from_code(status)) && *final(self)
                == *old(self),
            0 <= status ==> r == Ok::<(), FFmpegError>(()) && *final(self) == (FormatContext {
                phase: WritePhase::TrailerWritten,
                ..*old(self)
            }),
    {
        if status < 0 {
            Err(FFmpegError::from(status))
        } else {
            self.phase = WritePhase::TrailerWritten;
            Ok(())
        }
    }
}

/// Release law for sessions: a session whose teardown has run — and only
/// the teardown matching its mode can run — satisfies the entry condition
/// of no read-mode and no write-mode operation, so no further read or write
/// call on it verifies.
pub proof fn lemma_closed_session_permits_no_calls(ctx: FormatContext)
    requires
        ctx.closed,
    ensures
        !ctx.can_read(),
        !ctx.can_write(),
{
}

} // verus!
