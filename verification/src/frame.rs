//! The owned model of a decoded raw audio/video frame.
//!
//! The native frame's buffers live on the toolkit's heap; the model holds the
//! typed fields the orchestration logic reads and writes, together with the
//! two lifecycle facts that the buffer protocol depends on: whether the frame
//! has been backed with storage (`get_buffer`) and whether it has been made
//! safe to mutate (`make_writable`).

use vstd::prelude::*;

use crate::{AV_NOPTS_VALUE, FFmpegError, error_from_code};

verus! {

/// Decoded raw data plus timing. One frame owns one native allocation; the
/// lifecycle flags track the buffer-backing protocol.
#[derive(Clone, Debug)]
pub struct Frame {
    pub pts: i64,
    pub pkt_duration: i64,
    pub best_effort_timestamp: i64,
    pub width: i32,
    pub height: i32,
    pub nb_samples: i32,
    pub channels: i32,
    pub channel_layout: u64,
    pub sample_rate: i32,
    /// The native frame stores the pixel format of a video frame and the
    /// sample format of an audio frame in one field.
    pub format: i32,
    pub linesize: Vec<i32>,
    pub colorspace: i32,
    pub buffer_allocated: bool,
    pub writable: bool,
}

/// The state of a freshly allocated frame: ready but unconfigured, with no
/// timestamp, no geometry, eight zeroed plane strides and no backing buffer.
pub open spec fn is_fresh_frame(f: Frame) -> bool {
    &&& f.pts == AV_NOPTS_VALUE
    &&& f.pkt_duration == 0
    &&& f.best_effort_timestamp == AV_NOPTS_VALUE
    &&& f.width == 0
    &&& f.height == 0
    &&& f.nb_samples == 0
    &&& f.channels == 0
    &&& f.channel_layout == 0
    &&& f.sample_rate == 0
    &&& f.format == -1
    &&& f.linesize@ == Seq::new(8, |i: int| 0i32)
    &&& f.colorspace == 0
    &&& !f.buffer_allocated
    &&& !f.writable
}

impl Frame {
    /// Allocates an empty frame. The native allocation either succeeds or is
    /// a fatal out-of-memory condition handled outside the library, so the
    /// model constructor is total.
    pub fn allocate() -> (f: Frame)
        ensures
            is_fresh_frame(f),
    {
        let mut linesize: Vec<i32> = Vec::new();
        let mut i: usize = 0;
        while i < 8
            invariant
                i <= 8,
                linesize@.len() == i,
                forall|j: int| 0 <= j < i ==> linesize@[j] == 0i32,
            decreases 8 - i,
        {
            linesize.push(0);
            i = i + 1;
        }
        proof {
            assert(linesize@ =~= Seq::new(8, |i: int| 0i32));
        }
        Frame {
            pts: AV_NOPTS_VALUE,
            pkt_duration: 0,
            best_effort_timestamp: AV_NOPTS_VALUE,
            width: 0,
            height: 0,
            nb_samples: 0,
            channels: 0,
            channel_layout: 0,
            sample_rate: 0,
            format: -1,
            linesize,
            colorspace: 0,
            buffer_allocated: false,
            writable: false,
        }
    }

    /// The best-effort presentation timestamp, widened to the host's natural
    /// size.
    pub fn best_effort_timestamp(&self) -> (r: usize)
        requires
            0 <= self.best_effort_timestamp,
            self.best_effort_timestamp as int <= usize::MAX as int,
        ensures
            r as int == self.best_effort_timestamp as int,
    {
        self.best_effort_timestamp as usize
    }

    /// The audio channel count.
    pub fn channels(&self) -> (r: usize)
        requires
            0 <= self.channels,
        ensures
            r as int == self.channels as int,
    {
        self.channels as usize
    }

    /// The audio channel layout bits.
    pub fn channel_layout(&self) -> (r: u64)
        ensures
            r == self.channel_layout,
    {
        self.channel_layout
    }

    /// The colour-space tag.
    pub fn color_space(&self) -> (r: i32)
        ensures
            r == self.colorspace,
    {
        self.colorspace
    }

    /// The presentation duration, or nothing when the native layer left it
    /// unset (zero or negative).
    pub fn duration(&self) -> (r: Option<usize>)
        requires
            self.pkt_duration as int <= usize::MAX as int,
        ensures
            0 < self.pkt_duration ==> r == Some(self.pkt_duration as usize),
            self.pkt_duration <= 0 ==> r is None,
    {
        if 0 < self.pkt_duration {
            Some(self.pkt_duration as usize)
        } else {
            None
        }
    }

    /// Length of the data view of the plane at `index`: the larger of the
    /// sample count and the raster size `height * line size`. The dual
    /// sizing serves audio (sample-count-driven) and video (raster-driven)
    /// buffers through one accessor; the caller must know which
    /// interpretation applies to the frame's configured format.
    pub fn data_len(&self, index: usize) -> (r: usize)
        requires
            index < self.linesize@.len(),
            0 <= self.nb_samples,
            0 <= self.height,
            0 <= self.linesize@[index as int],
            self.height as int * self.linesize@[index as int] as int <= usize::MAX as int,
        ensures
            r as int == ({
                let raster = self.height as int * self.linesize@[index as int] as int;
                if self.nb_samples as int > raster {
                    self.nb_samples as int
                } else {
                    raster
                }
            }),
    {
        let h = self.height as u64;
        let l = self.linesize[index] as u64;
        assert(h * l <= 0x7FFF_FFFFu64 * 0x7FFF_FFFFu64) by (nonlinear_arith)
            requires
                h <= 0x7FFF_FFFFu64,
                l <= 0x7FFF_FFFFu64,
        ;
        let raster = h * l;
        let s = self.nb_samples as u64;
        let m = if s > raster {
            s
        } else {
            raster
        };
        m as usize
    }

    /// Backs the frame with actual storage, 32-byte aligned, after geometry
    /// and format have been set and before the first write. The native
    /// outcome is the `status`; on success the frame is buffer-backed.
    pub fn get_buffer(&mut self, status: i32) -> (r: Result<(), FFmpegError>)
        requires
            !old(self).buffer_allocated,
        ensures
            status == 0 ==> r == Ok::<(), FFmpegError>(()) && *final(self) == (Frame {
                buffer_allocated: true,
                ..*old(self)
            }),
            status != 0 ==> r == Err::<(), FFmpegError>(error_from_code(status)) && *final(self)
                == *old(self),
    {
        if status == 0 {
            self.buffer_allocated = true;
            Ok(())
        } else {
            Err(FFmpegError::from(status))
        }
    }

    /// The video height in lines.
    pub fn height(&self) -> (r: usize)
        requires
            0 <= self.height,
        ensures
            r as int == self.height as int,
    {
        self.height as usize
    }

    /// The line size (stride in bytes) of the plane at `index`.
    pub fn line_size(&self, index: usize) -> (r: usize)
        requires
            index < self.linesize@.len(),
            0 <= self.linesize@[index as int],
        ensures
            r as int == self.linesize@[index as int] as int,
    {
        self.linesize[index] as usize
    }

    /// Ensures the frame's buffers are safe to mutate even when the native
    /// layer shares them internally. The native outcome is the `status`.
    pub fn make_writable(&mut self, status: i32) -> (r: Result<(), FFmpegError>)
        ensures
            status == 0 ==> r == Ok::<(), FFmpegError>(()) && *final(self) == (Frame {
                writable: true,
                ..*old(self)
            }),
            status != 0 ==> r == Err::<(), FFmpegError>(error_from_code(status)) && *final(self)
                == *old(self),
    {
        if status == 0 {
            self.writable = true;
            Ok(())
        } else {
            Err(FFmpegError::from(status))
        }
    }

    /// The pixel format of a video frame.
    pub fn pixel_format(&self) -> (r: i32)
        ensures
            r == self.format,
    {
        self.format
    }

    /// The presentation timestamp, or nothing when it is unset (negative).
    pub fn pts(&self) -> (r: Option<usize>)
        requires
            self.pts as int <= usize::MAX as int,
        ensures
            self.pts < 0 ==> r is None,
            0 <= self.pts ==> r == Some(self.pts as usize),
    {
        if 0 > self.pts {
            None
        } else {
            Some(self.pts as usize)
        }
    }

    /// The audio sample count.
    pub fn samples(&self) -> (r: usize)
        requires
            0 <= self.nb_samples,
        ensures
            r as int == self.nb_samples as int,
    {
        self.nb_samples as usize
    }

    /// The sample format of an audio frame.
    pub fn sample_format(&self) -> (r: i32)
        ensures
            r == self.format,
    {
        self.format
    }

    /// The audio sample rate.
    pub fn sample_rate(&self) -> (r: usize)
        requires
            0 <= self.sample_rate,
        ensures
            r as int == self.sample_rate as int,
    {
        self.sample_rate as usize
    }

    /// Sets the audio channel count, narrowed to the native 32-bit field.
    pub fn set_channels(&mut self, value: usize)
        requires
            value <= i32::MAX as usize,
        ensures
            *final(self) == (Frame { channels: value as i32, ..*old(self) }),
    {
        self.channels = value as i32;
    }

    /// Sets the audio channel layout bits.
    pub fn set_channel_layout(&mut self, value: u64)
        ensures
            *final(self) == (Frame { channel_layout: value, ..*old(self) }),
    {
        self.channel_layout = value;
    }

    /// Sets the colour-space tag.
    pub fn set_color_space(&mut self, value: i32)
        ensures
            *final(self) == (Frame { colorspace: value, ..*old(self) }),
    {
        self.colorspace = value;
    }

    /// Sets the video height, narrowed to the native 32-bit field.
    pub fn set_height(&mut self, value: usize)
        requires
            value <= i32::MAX as usize,
        ensures
            *final(self) == (Frame { height: value as i32, ..*old(self) }),
    {
        self.height = value as i32;
    }

    /// Sets the pixel format of a video frame.
    pub fn set_pixel_format(&mut self, value: i32)
        ensures
            *final(self) == (Frame { format: value, ..*old(self) }),
    {
        self.format = value;
    }

    /// Sets the presentation timestamp, widened to the native 64-bit field.
    pub fn set_pts(&mut self, value: usize)
        requires
            value as int <= i64::MAX as int,
        ensures
            *final(self) == (Frame { pts: value as i64, ..*old(self) }),
    {
        self.pts = value as i64;
    }

    /// Sets the sample format of an audio frame.
    pub fn set_sample_format(&mut self, value: i32)
        ensures
            *final(self) == (Frame { format: value, ..*old(self) }),
    {
        self.format = value;
    }

    /// Sets the audio sample rate, narrowed to the native 32-bit field.
    pub fn set_sample_rate(&mut self, value: usize)
        requires
            value <= i32::MAX as usize,
        ensures
            *final(self) == (Frame { sample_rate: value as i32, ..*old(self) }),
    {
        self.sample_rate = value as i32;
    }

    /// Sets the audio sample count, narrowed to the native 32-bit field.
    pub fn set_samples(&mut self, value: usize)
        requires
            value <= i32::MAX as usize,
        ensures
            *final(self) == (Frame { nb_samples: value as i32, ..*old(self) }),
    {
        self.nb_samples = value as i32;
    }

    /// Sets the video width, narrowed to the native 32-bit field.
    pub fn set_width(&mut self, value: usize)
        requires
            value <= i32::MAX as usize,
        ensures
            *final(self) == (Frame { width: value as i32, ..*old(self) }),
    {
        self.width = value as i32;
    }

    /// The video width in pixels.
    pub fn width(&self) -> (r: usize)
        requires
            0 <= self.width,
        ensures
            r as int == self.width as int,
    {
        self.width as usize
    }
}

} // verus!
