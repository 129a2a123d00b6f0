//! The model of one elementary stream inside a container.
//!
//! A stream is owned by its parent format context and is valid only while
//! the parent is open; the model hands out copies of the stream's fields and
//! routes mutation through the parent, so no view of a stream can outlive
//! the session it came from.

use vstd::prelude::*;

use crate::{AvRational, FFmpegError, Rational, avrational_of, error_from_code, rational_of};
use crate::codec_params::{CodecParams, params_defaults};

verus! {

/// One elementary stream: its index, timing and serialized codec
/// configuration.
#[derive(Clone, Copy, Debug, PartialEq, Eq, Structural)]
pub struct Stream {
    pub index: usize,
    pub time_base: AvRational,
    pub avg_frame_rate: AvRational,
    pub codecpar: CodecParams,
    pub codec_tag: u32,
}

/// The state of a stream freshly added to a container being written: known
/// index, unit time base, nothing configured yet.
pub open spec fn fresh_stream(index: usize) -> Stream {
    Stream {
        index,
        time_base: AvRational { num: 0, den: 1 },
        avg_frame_rate: AvRational { num: 0, den: 1 },
        codecpar: params_defaults(),
        codec_tag: 0,
    }
}

impl Stream {
    /// The average frame rate, widened to a [`Rational`].
    pub fn avg_frame_rate(&self) -> (r: Result<Rational, FFmpegError>)
        ensures
            r == rational_of(self.avg_frame_rate),
    {
        crate::bigrational_from_avrational(&self.avg_frame_rate)
    }

    /// An owned copy of the stream's serialized codec configuration.
    pub fn codec_params(&self) -> (r: Result<CodecParams, FFmpegError>)
        ensures
            r == Ok::<CodecParams, FFmpegError>(self.codecpar),
    {
        Ok(self.codecpar)
    }

    /// Replaces the stream's codec configuration with the given one, the
    /// step that prepares an output stream from an encoder's parameters.
    /// The native outcome is the `status`; on a negative status the stream
    /// is left untouched.
    pub fn copy_codec_params(&mut self, codec_params: &CodecParams, status: i32) -> (r: Result<
        (),
        FFmpegError,
    >)
        ensures
            0 <= status ==> r == Ok::<(), FFmpegError>(()) && *final(self) == (Stream {
                codecpar: *codec_params,
                ..*old(self)
            }),
            status < 0 ==> r == Err::<(), FFmpegError>(error_from_code(status)) && *final(self)
                == *old(self),
    {
        if status < 0 {
            Err(FFmpegError::from(status))
        } else {
            self.codecpar = *codec_params;
            Ok(())
        }
    }

    /// The stream's index inside its container.
    pub fn index(&self) -> (r: usize)
        ensures
            r == self.index,
    {
        self.index
    }

    /// Sets the codec tag.
    pub fn set_codec_tag(&mut self, value: u32)
        ensures
            *final(self) == (Stream { codec_tag: value, ..*old(self) }),
    {
        self.codec_tag = value;
    }

    /// Sets the time base, reduced to the toolkit's fixed-width rational;
    /// fails, leaving the stream untouched, exactly when the reduction
    /// degenerates.
    pub fn set_time_base(&mut self, value: &Rational) -> (r: Result<(), FFmpegError>)
        ensures
            ({
                match avrational_of(*value) {
                    Ok(a) => r == Ok::<(), FFmpegError>(()) && *final(self) == (Stream {
                        time_base: a,
                        ..*old(self)
                    }),
                    Err(e) => r == Err::<(), FFmpegError>(e) && *final(self) == *old(self),
                }
            }),
    {
        let time_base = crate::avrational_from_bigrational(value)?;
        self.time_base = time_base;
        Ok(())
    }

    /// The stream's time base, widened back to a [`Rational`].
    pub fn time_base(&self) -> (r: Result<Rational, FFmpegError>)
        ensures
            r == rational_of(self.time_base),
    {
        crate::bigrational_from_avrational(&self.time_base)
    }
}

} // verus!
