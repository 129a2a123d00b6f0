//! The owned model of a serialized codec configuration (not a live codec).

use vstd::prelude::*;

use crate::{
    AVMEDIA_TYPE_AUDIO, AVMEDIA_TYPE_VIDEO, FFmpegError, error_from_code,
};
use crate::codec_context::CodecContext;

verus! {

/// Serialized codec configuration: the subset of a live codec context that
/// describes a stream without running one. Independently allocated and
/// exclusively owned.
#[derive(Clone, Copy, Debug, PartialEq, Eq, Structural)]
pub struct CodecParams {
    pub codec_type: i32,
    pub codec_tag: u32,
    pub bit_rate: i64,
    pub sample_rate: i32,
    pub channels: i32,
    pub channel_layout: u64,
    /// Pixel format for video, sample format for audio.
    pub format: i32,
    pub width: i32,
    pub height: i32,
}

/// The state of a freshly allocated parameter set: unknown media type, no
/// format, everything else zero.
pub open spec fn params_defaults() -> CodecParams {
    CodecParams {
        codec_type: -1i32,
        codec_tag: 0,
        bit_rate: 0,
        sample_rate: 0,
        channels: 0,
        channel_layout: 0,
        format: -1i32,
        width: 0,
        height: 0,
    }
}

/// What copying a live context's configuration into a parameter set yields:
/// shared fields always; the video geometry or the audio shape depending on
/// the context's media type, through the one shared `format` field.
pub open spec fn params_of_context(ctx: CodecContext) -> CodecParams {
    let base = CodecParams {
        codec_type: ctx.codec_type,
        bit_rate: ctx.bit_rate,
        codec_tag: 0,
        sample_rate: 0,
        channels: 0,
        channel_layout: 0,
        format: -1i32,
        width: 0,
        height: 0,
    };
    if ctx.codec_type == AVMEDIA_TYPE_VIDEO {
        CodecParams { format: ctx.pix_fmt, width: ctx.width, height: ctx.height, ..base }
    } else if ctx.codec_type == AVMEDIA_TYPE_AUDIO {
        CodecParams {
            format: ctx.sample_fmt,
            sample_rate: ctx.sample_rate,
            channels: ctx.channels,
            channel_layout: ctx.channel_layout,
            ..base
        }
    } else {
        base
    }
}

impl CodecParams {
    /// Allocates a fresh parameter set. The native allocation either
    /// succeeds or is a fatal out-of-memory condition handled outside the
    /// library, so the model constructor is total.
    pub fn allocate() -> (p: CodecParams)
        ensures
            p == params_defaults(),
    {
        CodecParams {
            codec_type: -1,
            codec_tag: 0,
            bit_rate: 0,
            sample_rate: 0,
            channels: 0,
            channel_layout: 0,
            format: -1,
            width: 0,
            height: 0,
        }
    }

    /// Replaces this parameter set with the configuration of a live codec
    /// context. The native outcome is the `status`; on a negative status the
    /// parameter set is left untouched and the code is translated through
    /// the error taxonomy.
    pub fn copy_context(&mut self, codec_context: &CodecContext, status: i32) -> (r: Result<
        (),
        FFmpegError,
    >)
        ensures
            0 <= status ==> r == Ok::<(), FFmpegError>(()) && *final(self) == params_of_context(
                *codec_context,
            ),
            status < 0 ==> r == Err::<(), FFmpegError>(error_from_code(status)) && *final(self)
                == *old(self),
    {
        if status < 0 {
            return Err(FFmpegError::from(status));
        }
        self.codec_type = codec_context.codec_type;
        self.bit_rate = codec_context.bit_rate;
        self.codec_tag = 0;
        self.sample_rate = 0;
        self.channels = 0;
        self.channel_layout = 0;
        self.format = -1;
        self.width = 0;
        self.height = 0;
        if codec_context.codec_type == AVMEDIA_TYPE_VIDEO {
            self.format = codec_context.pix_fmt;
            self.width = codec_context.width;
            self.height = codec_context.height;
        } else if codec_context.codec_type == AVMEDIA_TYPE_AUDIO {
            self.format = codec_context.sample_fmt;
            self.sample_rate = codec_context.sample_rate;
            self.channels = codec_context.channels;
            self.channel_layout = codec_context.channel_layout;
        }
        Ok(())
    }

    /// The audio sample rate.
    pub fn sample_rate(&self) -> (r: usize)
        requires
            0 <= self.sample_rate,
        ensures
            r as int == self.sample_rate as int,
    {
        self.sample_rate as usize
    }

    /// Sets the codec tag, narrowed to the native 32-bit field.
    pub fn set_codec_tag(&mut self, value: usize)
        requires
            value <= u32::MAX as usize,
        ensures
            *final(self) == (CodecParams { codec_tag: value as u32, ..*old(self) }),
    {
        self.codec_tag = value as u32;
    }
}

} // verus!
