//! The owned model of a live encoder or decoder instance, and the drain
//! state machine of the non-blocking send/receive protocol.
//!
//! A context is allocated against a descriptor, configured, opened exactly
//! once, and then driven through the drain protocol: submit one input unit,
//! then receive zero or more output units until the native layer reports
//! either "no output available right now" (submit more input and retry) or
//! "stream ended" (no further output will ever come). Both are surfaced as
//! an empty result, never as an error; the session state says which one an
//! empty result means, because after the terminating null submission an
//! empty result is final. Every operation that depends on a native outcome
//! takes that status code as an argument and is verified for every value of
//! it.

use vstd::prelude::*;

use crate::{
    AVERROR_EAGAIN, AVERROR_EOF, AvRational, FFmpegError, Rational, avrational_of,
    error_from_code, rational_of,
};
use crate::codec::Codec;
use crate::codec_params::CodecParams;
use crate::frame::Frame;
use crate::packet::Packet;

verus! {

/// Where a codec session stands in the drain protocol.
#[derive(Clone, Copy, Debug, PartialEq, Eq, Structural)]
pub enum DrainState {
    /// Input units may still be submitted.
    Accepting,
    /// The terminating null submission has been sent: the remaining buffered
    /// output is draining, and an empty receive result is now final.
    Flushing,
    /// The end-of-stream sentinel has been observed: no further output will
    /// ever be produced.
    Finished,
}

/// A live, configured encoder or decoder instance. Exclusively owned; bound
/// to one descriptor at allocation; must be opened exactly once before the
/// drain protocol runs.
#[derive(Clone, Debug)]
pub struct CodecContext {
    pub codec: Codec,
    pub opened: bool,
    pub drain: DrainState,
    /// Input units accepted so far.
    pub submitted: u64,
    /// Output units produced so far.
    pub received: u64,
    pub codec_type: i32,
    pub bit_rate: i64,
    pub flags: i32,
    pub time_base: AvRational,
    pub framerate: AvRational,
    pub sample_aspect_ratio: AvRational,
    pub sample_rate: i32,
    pub sample_fmt: i32,
    pub channels: i32,
    pub channel_layout: u64,
    pub pix_fmt: i32,
    pub width: i32,
    pub height: i32,
    pub gop_size: i32,
    pub max_b_frames: i32,
    pub profile: i32,
    pub strict_std_compliance: i32,
    pub ticks_per_frame: i32,
    pub colorspace: i32,
    pub color_primaries: i32,
    pub color_range: i32,
    pub color_trc: i32,
}

impl CodecContext {
    /// Allocates a context bound to the given descriptor: ready but
    /// unconfigured, not yet opened, accepting no protocol calls until it
    /// is. The native allocation either succeeds or is a fatal
    /// out-of-memory condition handled outside the library, so the model
    /// constructor is total.
    pub fn allocate(codec: Codec) -> (ctx: CodecContext)
        ensures
            ctx.codec == codec,
            !ctx.opened,
            ctx.drain is Accepting,
            ctx.submitted == 0,
            ctx.received == 0,
            ctx.codec_type == -1,
            ctx.bit_rate == 0,
            ctx.flags == 0,
            ctx.time_base == (AvRational { num: 0, den: 1 }),
            ctx.framerate == (AvRational { num: 0, den: 1 }),
            ctx.sample_aspect_ratio == (AvRational { num: 0, den: 1 }),
            ctx.sample_rate == 0,
            ctx.sample_fmt == -1,
            ctx.channels == 0,
            ctx.channel_layout == 0,
            ctx.pix_fmt == -1,
            ctx.width == 0,
            ctx.height == 0,
            ctx.gop_size == 0,
            ctx.max_b_frames == 0,
            ctx.profile == 0,
            ctx.strict_std_compliance == 0,
            ctx.ticks_per_frame == 1,
            ctx.colorspace == 0,
            ctx.color_primaries == 0,
            ctx.color_range == 0,
            ctx.color_trc == 0,
    {
        CodecContext {
            codec,
            opened: false,
            drain: DrainState::Accepting,
            submitted: 0,
            received: 0,
            codec_type: -1,
            bit_rate: 0,
            flags: 0,
            time_base: AvRational { num: 0, den: 1 },
            framerate: AvRational { num: 0, den: 1 },
            sample_aspect_ratio: AvRational { num: 0, den: 1 },
            sample_rate: 0,
            sample_fmt: -1,
            channels: 0,
            channel_layout: 0,
            pix_fmt: -1,
            width: 0,
            height: 0,
            gop_size: 0,
            max_b_frames: 0,
            profile: 0,
            strict_std_compliance: 0,
            ticks_per_frame: 1,
            colorspace: 0,
            color_primaries: 0,
            color_range: 0,
            color_trc: 0,
        }
    }

    /// The configured bit rate, widened to the host's natural size.
    pub fn bit_rate(&self) -> (r: usize)
        requires
            0 <= self.bit_rate,
            self.bit_rate as int <= usize::MAX as int,
        ensures
            r as int == self.bit_rate as int,
    {
        self.bit_rate as usize
    }

    /// The configured channel layout bits.
    pub fn channel_layout(&self) -> (r: u64)
        ensures
            r == self.channel_layout,
    {
        self.channel_layout
    }

    /// The configured channel count.
    pub fn channels(&self) -> (r: usize)
        requires
            0 <= self.channels,
        ensures
            r as int == self.channels as int,
    {
        self.channels as usize
    }

    /// The descriptor this context was allocated against.
    pub fn codec(&self) -> (r: &Codec)
        ensures
            r == &self.codec,
    {
        &self.codec
    }

    /// The configured colour space.
    pub fn color_space(&self) -> (r: i32)
        ensures
            r == self.colorspace,
    {
        self.colorspace
    }

    /// Loads a serialized configuration into this context, the step that
    /// prepares a decoder from a stream's parameters. The native outcome is
    /// the `status`; on a negative status the context is left untouched.
    pub fn copy_params(&mut self, codec_params: &CodecParams, status: i32) -> (r: Result<
        (),
        FFmpegError,
    >)
        ensures
            0 <= status ==> r == Ok::<(), FFmpegError>(()) && *final(self) == apply_params(
                *old(self),
                *codec_params,
            ),
            status < 0 ==> r == Err::<(), FFmpegError>(error_from_code(status)) && *final(self)
                == *old(self),
    {
        if status < 0 {
            return Err(FFmpegError::from(status));
        }
        self.codec_type = codec_params.codec_type;
        self.bit_rate = codec_params.bit_rate;
        if codec_params.codec_type == crate::AVMEDIA_TYPE_VIDEO {
            self.pix_fmt = codec_params.format;
            self.width = codec_params.width;
            self.height = codec_params.height;
        } else if codec_params.codec_type == crate::AVMEDIA_TYPE_AUDIO {
            self.sample_fmt = codec_params.format;
            self.sample_rate = codec_params.sample_rate;
            self.channels = codec_params.channels;
            self.channel_layout = codec_params.channel_layout;
        }
        Ok(())
    }

    /// Opens the context, binding it to its descriptor and triggering the
    /// native initialisation. Must happen exactly once, before any send or
    /// receive. The native outcome is the `status`.
    pub fn open(&mut self, _codec: &Codec, status: i32) -> (r: Result<(), FFmpegError>)
        requires
            !old(self).opened,
        ensures
            status == 0 ==> r == Ok::<(), FFmpegError>(()) && *final(self) == (CodecContext {
                opened: true,
                ..*old(self)
            }),
            status != 0 ==> r == Err::<(), FFmpegError>(error_from_code(status)) && *final(self)
                == *old(self),
    {
        if status == 0 {
            self.opened = true;
            Ok(())
        } else {
            Err(FFmpegError::from(status))
        }
    }

    /// The configured flag bits.
    pub fn flags(&self) -> (r: u32)
        requires
            0 <= self.flags,
        ensures
            r as int == self.flags as int,
    {
        self.flags as u32
    }

    /// Discards the codec's internal buffers, as after a seek, without
    /// terminating the context: the drain protocol starts over, accepting
    /// input again.
    pub fn flush_buffers(&mut self)
        requires
            old(self).opened,
        ensures
            *final(self) == (CodecContext { drain: DrainState::Accepting, ..*old(self) }),
    {
        self.drain = DrainState::Accepting;
    }

    /// The configured frame height.
    pub fn height(&self) -> (r: usize)
        requires
            0 <= self.height,
        ensures
            r as int == self.height as int,
    {
        self.height as usize
    }

    /// The configured pixel format.
    pub fn pixel_format(&self) -> (r: i32)
        ensures
            r == self.pix_fmt,
    {
        self.pix_fmt
    }

    /// One receive step of the drain protocol on the decode side. `status`
    /// is the native outcome; `frame` is the freshly allocated frame the
    /// native call filled when it produced output. Exactly one of three
    /// things happens: an output unit is yielded; the empty result is
    /// returned (would-block or end-of-stream, final exactly when the
    /// terminating submission has been sent); or a hard error is translated
    /// through the taxonomy.
    pub fn receive_frame(&mut self, status: i32, frame: Frame) -> (r: Result<
        Option<Frame>,
        FFmpegError,
    >)
        requires
            old(self).opened,
            status == 0 ==> old(self).received < u64::MAX,
        ensures
            ({
                if status == 0 {
                    &&& r == Ok::<Option<Frame>, FFmpegError>(Some(frame))
                    &&& *final(self) == (CodecContext {
                        received: (old(self).received + 1) as u64,
                        ..*old(self)
                    })
                } else if status == AVERROR_EOF || status == AVERROR_EAGAIN {
                    &&& r == Ok::<Option<Frame>, FFmpegError>(None)
                    &&& *final(self) == (CodecContext {
                        drain: if old(self).drain is Flushing {
                            DrainState::Finished
                        } else {
                            old(self).drain
                        },
                        ..*old(self)
                    })
                } else {
                    &&& r == Err::<Option<Frame>, FFmpegError>(error_from_code(status))
                    &&& *final(self) == *old(self)
                }
            }),
    {
        if status == 0 {
            self.received = self.received + 1;
            Ok(Some(frame))
        } else if status == AVERROR_EOF || status == AVERROR_EAGAIN {
            if matches!(self.drain, DrainState::Flushing) {
                self.drain = DrainState::Finished;
            }
            Ok(None)
        } else {
            Err(FFmpegError::from(status))
        }
    }

    /// One receive step of the drain protocol on the encode side; the exact
    /// mirror of `receive_frame` with packets as the output units.
    pub fn receive_packet(&mut self, status: i32, packet: Packet) -> (r: Result<
        Option<Packet>,
        FFmpegError,
    >)
        requires
            old(self).opened,
            status == 0 ==> old(self).received < u64::MAX,
        ensures
            ({
                if status == 0 {
                    &&& r == Ok::<Option<Packet>, FFmpegError>(Some(packet))
                    &&& *final(self) == (CodecContext {
                        received: (old(self).received + 1) as u64,
                        ..*old(self)
                    })
                } else if status == AVERROR_EOF || status == AVERROR_EAGAIN {
                    &&& r == Ok::<Option<Packet>, FFmpegError>(None)
                    &&& *final(self) == (CodecContext {
                        drain: if old(self).drain is Flushing {
                            DrainState::Finished
                        } else {
                            old(self).drain
                        },
                        ..*old(self)
                    })
                } else {
                    &&& r == Err::<Option<Packet>, FFmpegError>(error_from_code(status))
                    &&& *final(self) == *old(self)
                }
            }),
    {
        if status == 0 {
            self.received = self.received + 1;
            Ok(Some(packet))
        } else if status == AVERROR_EOF || status == AVERROR_EAGAIN {
            if matches!(self.drain, DrainState::Flushing) {
                self.drain = DrainState::Finished;
            }
            Ok(None)
        } else {
            Err(FFmpegError::from(status))
        }
    }

    /// The configured sample format.
    pub fn sample_format(&self) -> (r: i32)
        ensures
            r == self.sample_fmt,
    {
        self.sample_fmt
    }

    /// The configured sample rate.
    pub fn sample_rate(&self) -> (r: usize)
        requires
            0 <= self.sample_rate,
        ensures
            r as int == self.sample_rate as int,
    {
        self.sample_rate as usize
    }

    /// Submits one raw frame for encoding. `status` is the native outcome:
    /// zero accepts the unit, anything else is translated through the
    /// taxonomy and the session is unchanged.
    pub fn send_frame(&mut self, _frame: &Frame, status: i32) -> (r: Result<(), FFmpegError>)
        requires
            old(self).opened,
            old(self).drain is Accepting,
            status == 0 ==> old(self).submitted < u64::MAX,
        ensures
            status == 0 ==> r == Ok::<(), FFmpegError>(()) && *final(self) == (CodecContext {
                submitted: (old(self).submitted + 1) as u64,
                ..*old(self)
            }),
            status != 0 ==> r == Err::<(), FFmpegError>(error_from_code(status)) && *final(self)
                == *old(self),
    {
        if status == 0 {
            self.submitted = self.submitted + 1;
            Ok(())
        } else {
            Err(FFmpegError::from(status))
        }
    }

    /// Submits the terminating null frame that signals end of stream and
    /// flushes the remaining buffered output: from here on an empty receive
    /// result means the stream is permanently done.
    pub fn send_null_frame(&mut self, status: i32) -> (r: Result<(), FFmpegError>)
        requires
            old(self).opened,
            old(self).drain is Accepting,
        ensures
            status == 0 ==> r == Ok::<(), FFmpegError>(()) && *final(self) == (CodecContext {
                drain: DrainState::Flushing,
                ..*old(self)
            }),
            status != 0 ==> r == Err::<(), FFmpegError>(error_from_code(status)) && *final(self)
                == *old(self),
    {
        if status == 0 {
            self.drain = DrainState::Flushing;
            Ok(())
        } else {
            Err(FFmpegError::from(status))
        }
    }

    /// Submits one compressed packet for decoding, consuming it. `status`
    /// is the native outcome: any negative status is translated through the
    /// taxonomy and the session is unchanged.
    pub fn send_packet(&mut self, _packet: Packet, status: i32) -> (r: Result<(), FFmpegError>)
        requires
            old(self).opened,
            old(self).drain is Accepting,
            0 <= status ==> old(self).submitted < u64::MAX,
        ensures
            0 <= status ==> r == Ok::<(), FFmpegError>(()) && *final(self) == (CodecContext {
                submitted: (old(self).submitted + 1) as u64,
                ..*old(self)
            }),
            status < 0 ==> r == Err::<(), FFmpegError>(error_from_code(status)) && *final(self)
                == *old(self),
    {
        if status < 0 {
            Err(FFmpegError::from(status))
        } else {
            self.submitted = self.submitted + 1;
            Ok(())
        }
    }

    /// Sets the target bit rate, widened to the native 64-bit field.
    pub fn set_bit_rate(&mut self, value: usize)
        requires
            value as int <= i64::MAX as int,
        ensures
            *final(self) == (CodecContext { bit_rate: value as i64, ..*old(self) }),
    {
        self.bit_rate = value as i64;
    }

    /// Sets the channel layout bits.
    pub fn set_channel_layout(&mut self, value: u64)
        ensures
            *final(self) == (CodecContext { channel_layout: value, ..*old(self) }),
    {
        self.channel_layout = value;
    }

    /// Sets the channel count, narrowed to the native 32-bit field.
    pub fn set_channels(&mut self, value: usize)
        requires
            value <= i32::MAX as usize,
        ensures
            *final(self) == (CodecContext { channels: value as i32, ..*old(self) }),
    {
        self.channels = value as i32;
    }

    /// Sets the colour primaries tag.
    pub fn set_color_primaries(&mut self, value: i32)
        ensures
            *final(self) == (CodecContext { color_primaries: value, ..*old(self) }),
    {
        self.color_primaries = value;
    }

    /// Sets the colour range tag.
    pub fn set_color_range(&mut self, value: i32)
        ensures
            *final(self) == (CodecContext { color_range: value, ..*old(self) }),
    {
        self.color_range = value;
    }

    /// Sets the colour space tag.
    pub fn set_color_space(&mut self, value: i32)
        ensures
            *final(self) == (CodecContext { colorspace: value, ..*old(self) }),
    {
        self.colorspace = value;
    }

    /// Sets the colour transfer characteristic tag.
    pub fn set_color_trc(&mut self, value: i32)
        ensures
            *final(self) == (CodecContext { color_trc: value, ..*old(self) }),
    {
        self.color_trc = value;
    }

    /// Sets the flag bits, narrowed to the native 32-bit field.
    pub fn set_flags(&mut self, value: u32)
        requires
            value <= i32::MAX as u32,
        ensures
            *final(self) == (CodecContext { flags: value as i32, ..*old(self) }),
    {
        self.flags = value as i32;
    }

    /// Sets the frame rate, reduced to the toolkit's fixed-width rational;
    /// fails, leaving the context untouched, exactly when the reduction
    /// degenerates.
    pub fn set_framerate(&mut self, value: &Rational) -> (r: Result<(), FFmpegError>)
        ensures
            ({
                match avrational_of(*value) {
                    Ok(a) => r == Ok::<(), FFmpegError>(()) && *final(self) == (CodecContext {
                        framerate: a,
                        ..*old(self)
                    }),
                    Err(e) => r == Err::<(), FFmpegError>(e) && *final(self) == *old(self),
                }
            }),
    {
        let framerate = crate::avrational_from_bigrational(value)?;
        self.framerate = framerate;
        Ok(())
    }

    /// Sets the group-of-pictures size, narrowed to the native 32-bit field.
    pub fn set_gop_size(&mut self, value: usize)
        requires
            value <= i32::MAX as usize,
        ensures
            *final(self) == (CodecContext { gop_size: value as i32, ..*old(self) }),
    {
        self.gop_size = value as i32;
    }

    /// Sets the frame height, narrowed to the native 32-bit field.
    pub fn set_height(&mut self, value: usize)
        requires
            value <= i32::MAX as usize,
        ensures
            *final(self) == (CodecContext { height: value as i32, ..*old(self) }),
    {
        self.height = value as i32;
    }

    /// Sets the maximum number of consecutive B-frames, narrowed to the
    /// native 32-bit field.
    pub fn set_max_b_frames(&mut self, value: usize)
        requires
            value <= i32::MAX as usize,
        ensures
            *final(self) == (CodecContext { max_b_frames: value as i32, ..*old(self) }),
    {
        self.max_b_frames = value as i32;
    }

    /// Sets the pixel format.
    pub fn set_pixel_format(&mut self, value: i32)
        ensures
            *final(self) == (CodecContext { pix_fmt: value, ..*old(self) }),
    {
        self.pix_fmt = value;
    }

    /// Sets the profile.
    pub fn set_profile(&mut self, value: i32)
        ensures
            *final(self) == (CodecContext { profile: value, ..*old(self) }),
    {
        self.profile = value;
    }

    /// Sets the sample aspect ratio, reduced to the toolkit's fixed-width
    /// rational; fails, leaving the context untouched, exactly when the
    /// reduction degenerates.
    pub fn set_sample_aspect_ratio(&mut self, value: &Rational) -> (r: Result<(), FFmpegError>)
        ensures
            ({
                match avrational_of(*value) {
                    Ok(a) => r == Ok::<(), FFmpegError>(()) && *final(self) == (CodecContext {
                        sample_aspect_ratio: a,
                        ..*old(self)
                    }),
                    Err(e) => r == Err::<(), FFmpegError>(e) && *final(self) == *old(self),
                }
            }),
    {
        let ratio = crate::avrational_from_bigrational(value)?;
        self.sample_aspect_ratio = ratio;
        Ok(())
    }

    /// Sets the sample format.
    pub fn set_sample_format(&mut self, value: i32)
        ensures
            *final(self) == (CodecContext { sample_fmt: value, ..*old(self) }),
    {
        self.sample_fmt = value;
    }

    /// Sets the sample rate, narrowed to the native 32-bit field.
    pub fn set_sample_rate(&mut self, value: usize)
        requires
            value <= i32::MAX as usize,
        ensures
            *final(self) == (CodecContext { sample_rate: value as i32, ..*old(self) }),
    {
        self.sample_rate = value as i32;
    }

    /// Sets the standards-compliance strictness.
    pub fn set_std_compliance(&mut self, value: i32)
        ensures
            *final(self) == (CodecContext { strict_std_compliance: value, ..*old(self) }),
    {
        self.strict_std_compliance = value;
    }

    /// Sets the number of timestamp ticks per frame, narrowed to the native
    /// 32-bit field.
    pub fn set_ticks_per_frame(&mut self, value: usize)
        requires
            value <= i32::MAX as usize,
        ensures
            *final(self) == (CodecContext { ticks_per_frame: value as i32, ..*old(self) }),
    {
        self.ticks_per_frame = value as i32;
    }

    /// Sets the time base, reduced to the toolkit's fixed-width rational;
    /// fails, leaving the context untouched, exactly when the reduction
    /// degenerates.
    pub fn set_time_base(&mut self, value: &Rational) -> (r: Result<(), FFmpegError>)
        ensures
            ({
                match avrational_of(*value) {
                    Ok(a) => r == Ok::<(), FFmpegError>(()) && *final(self) == (CodecContext {
                        time_base: a,
                        ..*old(self)
                    }),
                    Err(e) => r == Err::<(), FFmpegError>(e) && *final(self) == *old(self),
                }
            }),
    {
        let time_base = crate::avrational_from_bigrational(value)?;
        self.time_base = time_base;
        Ok(())
    }

    /// Sets the frame width, narrowed to the native 32-bit field.
    pub fn set_width(&mut self, value: usize)
        requires
            value <= i32::MAX as usize,
        ensures
            *final(self) == (CodecContext { width: value as i32, ..*old(self) }),
    {
        self.width = value as i32;
    }

    /// The number of timestamp ticks per frame.
    pub fn ticks_per_frame(&self) -> (r: usize)
        requires
            0 <= self.ticks_per_frame,
        ensures
            r as int == self.ticks_per_frame as int,
    {
        self.ticks_per_frame as usize
    }

    /// The configured time base, widened back to a [`Rational`].
    pub fn time_base(&self) -> (r: Result<Rational, FFmpegError>)
        ensures
            r == rational_of(self.time_base),
    {
        crate::bigrational_from_avrational(&self.time_base)
    }

    /// The configured frame width.
    pub fn width(&self) -> (r: usize)
        requires
            0 <= self.width,
        ensures
            r as int == self.width as int,
    {
        self.width as usize
    }
}

/// A reference model of a lossless passthrough codec: it buffers every unit
/// it is sent and returns each exactly once, then reports end of stream once
/// flushed and empty. It produces the status codes such a codec's native
/// send and receive calls would return, and exists to state the liveness of
/// the drain protocol.
#[derive(Clone, Copy, Debug, PartialEq, Eq, Structural)]
pub struct PassthroughCodec {
    /// Units submitted and not yet returned.
    pub pending: usize,
    /// Whether the terminating null submission has arrived.
    pub flushed: bool,
}

impl PassthroughCodec {
    /// A passthrough codec holding nothing and still accepting input.
    pub fn new() -> (m: PassthroughCodec)
        ensures
            m.pending == 0,
            !m.flushed,
    {
        PassthroughCodec { pending: 0, flushed: false }
    }

    /// The status a send of one unit returns: always accepted.
    pub fn send_status(&mut self) -> (status: i32)
        requires
            !old(self).flushed,
            old(self).pending < usize::MAX,
        ensures
            status == 0,
            *final(self) == (PassthroughCodec {
                pending: (old(self).pending + 1) as usize,
                ..*old(self)
            }),
    {
        self.pending = self.pending + 1;
        0
    }

    /// The status the terminating null submission returns: always accepted.
    pub fn send_null_status(&mut self) -> (status: i32)
        requires
            !old(self).flushed,
        ensures
            status == 0,
            *final(self) == (PassthroughCodec { flushed: true, ..*old(self) }),
    {
        self.flushed = true;
        0
    }

    /// The status one receive call returns: an output unit while something
    /// is buffered, the end-of-stream sentinel once flushed and empty, and
    /// the would-block sentinel otherwise.
    pub fn receive_status(&mut self) -> (status: i32)
        ensures
            old(self).pending > 0 ==> status == 0 && *final(self) == (PassthroughCodec {
                pending: (old(self).pending - 1) as usize,
                ..*old(self)
            }),
            old(self).pending == 0 && old(self).flushed ==> status == AVERROR_EOF && *final(self)
                == *old(self),
            old(self).pending == 0 && !old(self).flushed ==> status == AVERROR_EAGAIN
                && *final(self) == *old(self),
    {
        if self.pending > 0 {
            self.pending = self.pending - 1;
            0
        } else if self.flushed {
            AVERROR_EOF
        } else {
            AVERROR_EAGAIN
        }
    }
}

/// Drains a flushing session against the passthrough model until the
/// end-of-stream sentinel: exactly the buffered units come out, then the
/// session is finished for good.
pub fn drain_remaining(ctx: &mut CodecContext, model: &mut PassthroughCodec) -> (count: usize)
    requires
        old(ctx).opened,
        old(ctx).drain is Flushing,
        old(model).flushed,
        old(ctx).received as int + old(model).pending as int <= u64::MAX as int,
    ensures
        count == old(model).pending,
        final(model).pending == 0,
        final(ctx).drain is Finished,
        final(ctx).opened,
        final(ctx).received == old(ctx).received + count,
        final(ctx).submitted == old(ctx).submitted,
{
    let mut count: usize = 0;
    #[verifier::loop_isolation(false)]
    loop
        invariant
            ctx.opened,
            ctx.drain is Flushing,
            model.flushed,
            count + model.pending == old(model).pending,
            ctx.received == old(ctx).received + count,
            ctx.submitted == old(ctx).submitted,
            ctx.received as int + model.pending as int <= u64::MAX as int,
        decreases model.pending,
    {
        let status = model.receive_status();
        if status == 0 {
            let _produced = ctx.receive_frame(status, Frame::allocate());
            count = count + 1;
        } else {
            let _empty = ctx.receive_frame(status, Frame::allocate());
            return count;
        }
    }
}

/// Drain-protocol liveness law: submitting `n` input units to an opened
/// session of a lossless passthrough codec, then the terminating null
/// submission, and draining repeatedly yields exactly `n` output units
/// before the end-of-stream sentinel appears.
pub fn passthrough_liveness(ctx: &mut CodecContext, model: &mut PassthroughCodec, n: usize) -> (count:
    usize)
    requires
        old(ctx).opened,
        old(ctx).drain is Accepting,
        old(model).pending == 0,
        !old(model).flushed,
        n < usize::MAX,
        old(ctx).submitted as int + n as int <= u64::MAX as int,
        old(ctx).received as int + n as int <= u64::MAX as int,
    ensures
        count == n,
        final(ctx).drain is Finished,
        final(ctx).received == old(ctx).received + n,
        final(ctx).submitted == old(ctx).submitted + n,
{
    let mut i: usize = 0;
    while i < n
        invariant
            i <= n,
            ctx.opened,
            ctx.drain is Accepting,
            !model.flushed,
            model.pending == i,
            ctx.submitted == old(ctx).submitted + i,
            ctx.received == old(ctx).received,
            n < usize::MAX,
            old(ctx).submitted as int + n as int <= u64::MAX as int,
        decreases n - i,
    {
        let status = model.send_status();
        let frame = Frame::allocate();
        let _accepted = ctx.send_frame(&frame, status);
        i = i + 1;
    }
    let status = model.send_null_status();
    let _flushing = ctx.send_null_frame(status);
    drain_remaining(ctx, model)
}

/// What loading a serialized configuration into a live context yields: the
/// media type and bit rate always, then the video geometry or the audio
/// shape depending on the parameter set's media type.
pub open spec fn apply_params(ctx: CodecContext, par: CodecParams) -> CodecContext {
    let base = CodecContext { codec_type: par.codec_type, bit_rate: par.bit_rate, ..ctx };
    if par.codec_type == crate::AVMEDIA_TYPE_VIDEO {
        CodecContext { pix_fmt: par.format, width: par.width, height: par.height, ..base }
    } else if par.codec_type == crate::AVMEDIA_TYPE_AUDIO {
        CodecContext {
            sample_fmt: par.format,
            sample_rate: par.sample_rate,
            channels: par.channels,
            channel_layout: par.channel_layout,
            ..base
        }
    } else {
        base
    }
}

} // verus!
