//! The model of a configured pixel-format conversion pipeline.
//!
//! Construction validates the two pixel formats independently before the
//! native pipeline is built, and fixes geometry and format for the life of
//! the context; a conversion counts as successful only when the native
//! scaler produced exactly the destination's declared number of rows.

use vstd::prelude::*;

use crate::FFmpegError;
use crate::frame::Frame;

verus! {

/// A pixel/sample conversion pipeline between a fixed source and a fixed
/// destination geometry and format. Exclusively owned; reused across many
/// frame pairs sharing that geometry.
#[derive(Clone, Copy, Debug, PartialEq, Eq, Structural)]
pub struct SwsContext {
    pub src_width: i32,
    pub src_height: i32,
    pub src_format: i32,
    pub dst_width: i32,
    pub dst_height: i32,
    pub dst_format: i32,
}

impl SwsContext {
    /// Builds a conversion pipeline after two independent capability
    /// checks, each failing fast with its own kind: an unsupported source
    /// format is reported as decoder-not-found and an unsupported
    /// destination format as encoder-not-found, reusing the existing
    /// taxonomy. `src_supported` and `dst_supported` are the native
    /// capability answers and `alloc_ok` whether the native pipeline could
    /// be built at all (filter-not-found otherwise).
    pub fn new(
        src_width: usize,
        src_height: usize,
        src_format: i32,
        dst_width: usize,
        dst_height: usize,
        dst_format: i32,
        src_supported: bool,
        dst_supported: bool,
        alloc_ok: bool,
    ) -> (r: Result<SwsContext, FFmpegError>)
        requires
            src_width <= i32::MAX as usize,
            src_height <= i32::MAX as usize,
            dst_width <= i32::MAX as usize,
            dst_height <= i32::MAX as usize,
        ensures
            !src_supported ==> r == Err::<SwsContext, FFmpegError>(FFmpegError::DecoderNotFound),
            src_supported && !dst_supported ==> r == Err::<SwsContext, FFmpegError>(
                FFmpegError::EncoderNotFound,
            ),
            src_supported && dst_supported && !alloc_ok ==> r == Err::<SwsContext, FFmpegError>(
                FFmpegError::FilterNotFound,
            ),
            src_supported && dst_supported && alloc_ok ==> r == Ok::<SwsContext, FFmpegError>(
                SwsContext {
                    src_width: src_width as i32,
                    src_height: src_height as i32,
                    src_format,
                    dst_width: dst_width as i32,
                    dst_height: dst_height as i32,
                    dst_format,
                },
            ),
    {
        if !src_supported {
            return Err(FFmpegError::DecoderNotFound);
        }
        if !dst_supported {
            return Err(FFmpegError::EncoderNotFound);
        }
        if !alloc_ok {
            return Err(FFmpegError::FilterNotFound);
        }
        Ok(
            SwsContext {
                src_width: src_width as i32,
                src_height: src_height as i32,
                src_format,
                dst_width: dst_width as i32,
                dst_height: dst_height as i32,
                dst_format,
            },
        )
    }

    /// Whether the source colour range is the studio (MPEG) range.
    /// `status` and `src_range` are what the native colour-space query
    /// reported; the query's failure sentinel becomes invalid-data.
    pub fn is_src_range_mpeg(&self, status: i32, src_range: i32) -> (r: Result<bool, FFmpegError>)
        ensures
            status == -1 ==> r == Err::<bool, FFmpegError>(FFmpegError::InvalidData),
            status != -1 ==> r == Ok::<bool, FFmpegError>(src_range == 0),
    {
        if status == -1 {
            Err(FFmpegError::InvalidData)
        } else {
            Ok(src_range == 0)
        }
    }

    /// One conversion of a source frame into a destination frame sharing
    /// this context's geometry. `slice_height` is the number of output rows
    /// the native scaler produced: the conversion succeeded exactly when
    /// that equals the destination frame's declared height, and a partial
    /// conversion is invalid-data, never silently accepted.
    pub fn scale(&self, _src: &Frame, dst: &Frame, slice_height: i32) -> (r: Result<
        (),
        FFmpegError,
    >)
        ensures
            slice_height == dst.height ==> r == Ok::<(), FFmpegError>(()),
            slice_height != dst.height ==> r == Err::<(), FFmpegError>(FFmpegError::InvalidData),
    {
        if slice_height == dst.height {
            Ok(())
        } else {
            Err(FFmpegError::InvalidData)
        }
    }
}

} // verus!
