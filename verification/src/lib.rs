//! Safe, verified orchestration layer around a native multimedia codec and
//! container toolkit.
//!
//! The crate models the toolkit's resource handles (format contexts, codec
//! contexts, codec parameter sets, frames, packets, scaling contexts) as owned
//! values holding the fields the logic reads, and models its call protocols
//! (open/probe, header/packets/trailer, the send/receive drain loop) as
//! verified state machines. The native calls themselves are performed outside
//! the library; each operation that depends on a native outcome takes that
//! outcome (a status code, a support flag) as an argument and is verified for
//! every value of it.

use vstd::prelude::*;

mod codec;
mod codec_context;
mod codec_params;
mod format_context;
mod frame;
mod packet;
mod stream;
mod sws_context;

pub use crate::codec::{
    ChannelLayoutIter, Codec, SampleFormatIter, SupportedSampleRateIter,
    lemma_null_array_produces_nothing, produced_layouts, produced_sample_formats,
    produced_sample_rates,
};
pub use crate::codec_context::{
    CodecContext, DrainState, PassthroughCodec, apply_params, drain_remaining,
    passthrough_liveness,
};
pub use crate::format_context::{FormatContext, SessionMode, WritePhase};
pub use crate::codec_params::{CodecParams, params_defaults, params_of_context};
pub use crate::frame::{Frame, is_fresh_frame};
pub use crate::packet::{Packet, packet_defaults};
pub use crate::stream::{Stream, fresh_stream};
pub use crate::sws_context::SwsContext;

verus! {

use vstd::math::abs;

/// The sample-format value the toolkit reserves as the "none" sentinel that
/// terminates a descriptor's sample-format array.
pub const AV_SAMPLE_FMT_NONE: i32 = -1;

/// The timestamp value the toolkit reserves for "no timestamp set".
pub const AV_NOPTS_VALUE: i64 = i64::MIN;

/// The toolkit's media-type tag for a video stream.
pub const AVMEDIA_TYPE_VIDEO: i32 = 0;
/// The toolkit's media-type tag for an audio stream.
pub const AVMEDIA_TYPE_AUDIO: i32 = 1;

/// Toolkit status code: bitstream filter not found.
pub const AVERROR_BSF_NOT_FOUND: i32 = -0x465342F8;
/// Toolkit status code: internal bug detected.
pub const AVERROR_BUG: i32 = -0x21475542;
/// Toolkit status code: second form of the internal-bug code.
pub const AVERROR_BUG2: i32 = -0x20475542;
/// Toolkit status code: buffer too small.
pub const AVERROR_BUFFER_TOO_SMALL: i32 = -0x53465542;
/// Toolkit status code: decoder not found.
pub const AVERROR_DECODER_NOT_FOUND: i32 = -0x434544F8;
/// Toolkit status code: demuxer not found.
pub const AVERROR_DEMUXER_NOT_FOUND: i32 = -0x4D4544F8;
/// Toolkit status code: encoder not found.
pub const AVERROR_ENCODER_NOT_FOUND: i32 = -0x434E45F8;
/// Toolkit status code: clean end of stream.
pub const AVERROR_EOF: i32 = -0x20464F45;
/// Toolkit status code: immediate exit requested.
pub const AVERROR_EXIT: i32 = -0x54495845;
/// Toolkit status code: feature is experimental.
pub const AVERROR_EXPERIMENTAL: i32 = -0x2BB2AFA8;
/// Toolkit status code: error in an external library.
pub const AVERROR_EXTERNAL: i32 = -0x20545845;
/// Toolkit status code: filter not found.
pub const AVERROR_FILTER_NOT_FOUND: i32 = -0x4C4946F8;
/// Toolkit status code: HTTP 400.
pub const AVERROR_HTTP_BAD_REQUEST: i32 = -0x303034F8;
/// Toolkit status code: HTTP 403.
pub const AVERROR_HTTP_FORBIDDEN: i32 = -0x333034F8;
/// Toolkit status code: HTTP 404.
pub const AVERROR_HTTP_NOT_FOUND: i32 = -0x343034F8;
/// Toolkit status code: any other HTTP 4xx.
pub const AVERROR_HTTP_OTHER_4XX: i32 = -0x585834F8;
/// Toolkit status code: HTTP 5xx.
pub const AVERROR_HTTP_SERVER_ERROR: i32 = -0x585835F8;
/// Toolkit status code: HTTP 401.
pub const AVERROR_HTTP_UNAUTHORIZED: i32 = -0x313034F8;
/// Toolkit status code: input changed between calls.
pub const AVERROR_INPUT_CHANGED: i32 = -0x636E6701;
/// Toolkit status code: invalid data found when processing input.
pub const AVERROR_INVALIDDATA: i32 = -0x41444E49;
/// Toolkit status code: muxer not found.
pub const AVERROR_MUXER_NOT_FOUND: i32 = -0x58554DF8;
/// Toolkit status code: option not found.
pub const AVERROR_OPTION_NOT_FOUND: i32 = -0x54504FF8;
/// Toolkit status code: output changed between calls.
pub const AVERROR_OUTPUT_CHANGED: i32 = -0x636E6702;
/// Toolkit status code: feature not yet implemented, patches welcome.
pub const AVERROR_PATCHWELCOME: i32 = -0x45574150;
/// Toolkit status code: protocol not found.
pub const AVERROR_PROTOCOL_NOT_FOUND: i32 = -0x4F5250F8;
/// Toolkit status code: stream not found.
pub const AVERROR_STREAM_NOT_FOUND: i32 = -0x525453F8;
/// Toolkit status code: unknown error tag.
pub const AVERROR_UNKNOWN: i32 = -0x4E4B4E55;
/// Toolkit status code for the host's "no such file or directory" error,
/// the negated POSIX `ENOENT`.
pub const AVERROR_NOENT: i32 = -2;
/// Toolkit status code for the host's "try again" error, the negated POSIX
/// `EAGAIN` of this platform. The drain protocol uses it as its
/// would-block sentinel: no output is available until more input is sent.
pub const AVERROR_EAGAIN: i32 = -11;

/// The closed set of semantic error kinds that the toolkit's signed status
/// codes are translated into. Codes that no kind claims are preserved in
/// `Unknown` so the original number stays available for diagnostics.
#[derive(Clone, Copy, Debug, PartialEq, Eq, Structural)]
pub enum FFmpegError {
    BitStreamFilterNotFound,
    BufferTooSmall,
    Bug,
    Bug2,
    DecoderNotFound,
    DemuxerNotFound,
    EncoderNotFound,
    EOF,
    Exit,
    Experimental,
    External,
    FilterNotFound,
    HttpBadRequest,
    HttpForbidden,
    HttpNotFound,
    HttpOther4xx,
    HttpServerError,
    HttpUnauthorized,
    InputChanged,
    InvalidData,
    MuxerNotFound,
    OptionNotFound,
    OutputChanged,
    PatchWelcome,
    ProtocolNotFound,
    StreamNotFound,
    NoEntry,
    Unknown(i32),
}

/// Total mapping from the toolkit's signed status-code space into the error
/// taxonomy: every recognised code resolves to its kind, the unknown-error
/// tag to `Unknown(0)`, and every other code to `Unknown` of itself.
pub open spec fn error_from_code(code: i32) -> FFmpegError {
    if code == AVERROR_BSF_NOT_FOUND {
        FFmpegError::BitStreamFilterNotFound
    } else if code == AVERROR_BUG {
        FFmpegError::Bug
    } else if code == AVERROR_BUG2 {
        FFmpegError::Bug2
    } else if code == AVERROR_BUFFER_TOO_SMALL {
        FFmpegError::BufferTooSmall
    } else if code == AVERROR_DECODER_NOT_FOUND {
        FFmpegError::DecoderNotFound
    } else if code == AVERROR_DEMUXER_NOT_FOUND {
        FFmpegError::DemuxerNotFound
    } else if code == AVERROR_ENCODER_NOT_FOUND {
        FFmpegError::EncoderNotFound
    } else if code == AVERROR_EOF {
        FFmpegError::EOF
    } else if code == AVERROR_EXIT {
        FFmpegError::Exit
    } else if code == AVERROR_EXPERIMENTAL {
        FFmpegError::Experimental
    } else if code == AVERROR_EXTERNAL {
        FFmpegError::External
    } else if code == AVERROR_FILTER_NOT_FOUND {
        FFmpegError::FilterNotFound
    } else if code == AVERROR_HTTP_BAD_REQUEST {
        FFmpegError::HttpBadRequest
    } else if code == AVERROR_HTTP_FORBIDDEN {
        FFmpegError::HttpForbidden
    } else if code == AVERROR_HTTP_NOT_FOUND {
        FFmpegError::HttpNotFound
    } else if code == AVERROR_HTTP_OTHER_4XX {
        FFmpegError::HttpOther4xx
    } else if code == AVERROR_HTTP_SERVER_ERROR {
        FFmpegError::HttpServerError
    } else if code == AVERROR_HTTP_UNAUTHORIZED {
        FFmpegError::HttpUnauthorized
    } else if code == AVERROR_INPUT_CHANGED {
        FFmpegError::InputChanged
    } else if code == AVERROR_INVALIDDATA {
        FFmpegError::InvalidData
    } else if code == AVERROR_MUXER_NOT_FOUND {
        FFmpegError::MuxerNotFound
    } else if code == AVERROR_OPTION_NOT_FOUND {
        FFmpegError::OptionNotFound
    } else if code == AVERROR_OUTPUT_CHANGED {
        FFmpegError::OutputChanged
    } else if code == AVERROR_PATCHWELCOME {
        FFmpegError::PatchWelcome
    } else if code == AVERROR_PROTOCOL_NOT_FOUND {
        FFmpegError::ProtocolNotFound
    } else if code == AVERROR_STREAM_NOT_FOUND {
        FFmpegError::StreamNotFound
    } else if code == AVERROR_UNKNOWN {
        FFmpegError::Unknown(0)
    } else if code == AVERROR_NOENT {
        FFmpegError::NoEntry
    } else {
        FFmpegError::Unknown(code)
    }
}

impl From<i32> for FFmpegError {
    fn from(err: i32) -> (r: Self) {
        if err == AVERROR_BSF_NOT_FOUND {
            FFmpegError::BitStreamFilterNotFound
        } else if err == AVERROR_BUG {
            FFmpegError::Bug
        } else if err == AVERROR_BUG2 {
            FFmpegError::Bug2
        } else if err == AVERROR_BUFFER_TOO_SMALL {
            FFmpegError::BufferTooSmall
        } else if err == AVERROR_DECODER_NOT_FOUND {
            FFmpegError::DecoderNotFound
        } else if err == AVERROR_DEMUXER_NOT_FOUND {
            FFmpegError::DemuxerNotFound
        } else if err == AVERROR_ENCODER_NOT_FOUND {
            FFmpegError::EncoderNotFound
        } else if err == AVERROR_EOF {
            FFmpegError::EOF
        } else if err == AVERROR_EXIT {
            FFmpegError::Exit
        } else if err == AVERROR_EXPERIMENTAL {
            FFmpegError::Experimental
        } else if err == AVERROR_EXTERNAL {
            FFmpegError::External
        } else if err == AVERROR_FILTER_NOT_FOUND {
            FFmpegError::FilterNotFound
        } else if err == AVERROR_HTTP_BAD_REQUEST {
            FFmpegError::HttpBadRequest
        } else if err == AVERROR_HTTP_FORBIDDEN {
            FFmpegError::HttpForbidden
        } else if err == AVERROR_HTTP_NOT_FOUND {
            FFmpegError::HttpNotFound
        } else if err == AVERROR_HTTP_OTHER_4XX {
            FFmpegError::HttpOther4xx
        } else if err == AVERROR_HTTP_SERVER_ERROR {
            FFmpegError::HttpServerError
        } else if err == AVERROR_HTTP_UNAUTHORIZED {
            FFmpegError::HttpUnauthorized
        } else if err == AVERROR_INPUT_CHANGED {
            FFmpegError::InputChanged
        } else if err == AVERROR_INVALIDDATA {
            FFmpegError::InvalidData
        } else if err == AVERROR_MUXER_NOT_FOUND {
            FFmpegError::MuxerNotFound
        } else if err == AVERROR_OPTION_NOT_FOUND {
            FFmpegError::OptionNotFound
        } else if err == AVERROR_OUTPUT_CHANGED {
            FFmpegError::OutputChanged
        } else if err == AVERROR_PATCHWELCOME {
            FFmpegError::PatchWelcome
        } else if err == AVERROR_PROTOCOL_NOT_FOUND {
            FFmpegError::ProtocolNotFound
        } else if err == AVERROR_STREAM_NOT_FOUND {
            FFmpegError::StreamNotFound
        } else if err == AVERROR_UNKNOWN {
            FFmpegError::Unknown(0)
        } else if err == AVERROR_NOENT {
            FFmpegError::NoEntry
        } else {
            FFmpegError::Unknown(err)
        }
    }
}

impl vstd::std_specs::convert::FromSpecImpl<i32> for FFmpegError {
    open spec fn obeys_from_spec() -> bool {
        true
    }

    open spec fn from_spec(err: i32) -> Self {
        error_from_code(err)
    }
}

/// A wide-range rational number, the form in which time bases, frame rates
/// and aspect ratios are handed to and from the library. Its fields are far
/// wider than the toolkit's fixed 32-bit rational, so conversion towards the
/// toolkit may have to reduce precision.
#[derive(Clone, Copy, Debug, PartialEq, Eq, Structural)]
pub struct Rational {
    pub num: i64,
    pub den: i64,
}

/// The toolkit's fixed-width rational: 32-bit numerator over 32-bit
/// denominator.
#[derive(Clone, Copy, Debug, PartialEq, Eq, Structural)]
pub struct AvRational {
    pub num: i32,
    pub den: i32,
}

/// Whether a value is representable in a 32-bit signed field.
pub open spec fn fits_i32(x: int) -> bool {
    i32::MIN <= x && x <= i32::MAX
}

/// Division by ten truncated towards zero, the step of the
/// precision-reduction algorithm.
pub open spec fn div10_spec(x: int) -> int {
    if x >= 0 {
        x / 10
    } else {
        -((-x) / 10)
    }
}

proof fn lemma_div10_abs(x: int)
    ensures
        abs(div10_spec(x)) <= abs(x),
        x != 0 ==> abs(div10_spec(x)) < abs(x),
{
    if x >= 0 {
        vstd::arithmetic::div_mod::lemma_div_pos_is_pos(x, 10);
        vstd::arithmetic::div_mod::lemma_div_nonincreasing(x, 10);
        if x > 0 {
            vstd::arithmetic::div_mod::lemma_div_decreases(x, 10);
        }
    } else {
        vstd::arithmetic::div_mod::lemma_div_pos_is_pos(-x, 10);
        vstd::arithmetic::div_mod::lemma_div_nonincreasing(-x, 10);
        vstd::arithmetic::div_mod::lemma_div_decreases(-x, 10);
    }
}

/// The result of repeatedly dividing both numerator and denominator by ten,
/// truncating towards zero, until both fit in 32 bits. A lossy but
/// deterministic reduction: it trades a small timing drift for guaranteed
/// representability in the toolkit's fixed-width rational.
pub open spec fn reduce_spec(n: int, d: int) -> (int, int)
    decreases abs(n) + abs(d) via reduce_spec_decreases
{
    if fits_i32(n) && fits_i32(d) {
        (n, d)
    } else {
        reduce_spec(div10_spec(n), div10_spec(d))
    }
}

#[via_fn]
proof fn reduce_spec_decreases(n: int, d: int) {
    if !(fits_i32(n) && fits_i32(d)) {
        lemma_div10_abs(n);
        lemma_div10_abs(d);
    }
}

/// Both components of a reduced pair fit in 32 bits: the reduction always
/// reaches representability.
pub proof fn lemma_reduce_fits(n: int, d: int)
    ensures
        fits_i32(reduce_spec(n, d).0),
        fits_i32(reduce_spec(n, d).1),
    decreases abs(n) + abs(d),
{
    if !(fits_i32(n) && fits_i32(d)) {
        lemma_div10_abs(n);
        lemma_div10_abs(d);
        lemma_reduce_fits(div10_spec(n), div10_spec(d));
    }
}

/// What converting a [`Rational`] to the toolkit's fixed-width form yields:
/// the reduced pair, unless reduction left a degenerate zero denominator.
pub open spec fn avrational_of(value: Rational) -> Result<AvRational, FFmpegError> {
    let nd = reduce_spec(value.num as int, value.den as int);
    if nd.1 == 0 {
        Err(FFmpegError::InvalidData)
    } else {
        Ok(AvRational { num: nd.0 as i32, den: nd.1 as i32 })
    }
}

/// What converting the toolkit's fixed-width rational back to a
/// [`Rational`] yields. Widening cannot fail; the error arm exists because
/// callers treat the conversion defensively.
pub open spec fn rational_of(value: AvRational) -> Result<Rational, FFmpegError> {
    Ok(Rational { num: value.num as i64, den: value.den as i64 })
}

fn fits_i32_exec(x: i128) -> (b: bool)
    ensures
        b == fits_i32(x as int),
{
    -0x8000_0000i128 <= x && x <= 0x7FFF_FFFFi128
}

fn div10_i128(x: i128) -> (r: i128)
    requires
        -0x8000_0000_0000_0000i128 <= x <= 0x7FFF_FFFF_FFFF_FFFFi128,
    ensures
        r as int == div10_spec(x as int),
{
    if x >= 0 {
        ((x as u128) / 10) as i128
    } else {
        -(((-x) as u128 / 10) as i128)
    }
}

/// Reduces a rational until both components are representable in the
/// toolkit's 32-bit fields, by repeated division of both components by ten.
pub fn reduce_bigrational_to_i32(value: &Rational) -> (r: Rational)
    ensures
        r.num as int == reduce_spec(value.num as int, value.den as int).0,
        r.den as int == reduce_spec(value.num as int, value.den as int).1,
{
    let mut n: i128 = value.num as i128;
    let mut d: i128 = value.den as i128;
    while !(fits_i32_exec(n) && fits_i32_exec(d))
        invariant
            -0x8000_0000_0000_0000i128 <= n <= 0x7FFF_FFFF_FFFF_FFFFi128,
            -0x8000_0000_0000_0000i128 <= d <= 0x7FFF_FFFF_FFFF_FFFFi128,
            reduce_spec(n as int, d as int) == reduce_spec(
                value.num as int,
                value.den as int,
            ),
        decreases abs(n as int) + abs(d as int),
    {
        proof {
            lemma_div10_abs(n as int);
            lemma_div10_abs(d as int);
        }
        let n2 = div10_i128(n);
        let d2 = div10_i128(d);
        n = n2;
        d = d2;
    }
    proof {
        lemma_reduce_fits(value.num as int, value.den as int);
    }
    Rational { num: n as i64, den: d as i64 }
}

/// Converts a rational into the toolkit's fixed-width rational, reducing
/// precision where needed. Fails with the invalid-data kind exactly when the
/// reduction ends in a degenerate zero denominator.
pub fn avrational_from_bigrational(value: &Rational) -> (r: Result<AvRational, FFmpegError>)
    ensures
        r == avrational_of(*value),
{
    proof {
        lemma_reduce_fits(value.num as int, value.den as int);
    }
    let reduced = reduce_bigrational_to_i32(value);
    if reduced.den == 0 {
        Err(FFmpegError::InvalidData)
    } else {
        Ok(AvRational { num: reduced.num as i32, den: reduced.den as i32 })
    }
}

/// Converts the toolkit's fixed-width rational into a [`Rational`]. Succeeds
/// on every well-formed input.
pub fn bigrational_from_avrational(value: &AvRational) -> (r: Result<Rational, FFmpegError>)
    ensures
        r == rational_of(*value),
{
    Ok(Rational { num: value.num as i64, den: value.den as i64 })
}

/// The decision inside path conversion: a path can be handed to the toolkit
/// as null-terminated text exactly when its bytes hold no interior NUL. A
/// path that cannot be represented is invalid-data, reported before any
/// native call is attempted.
pub fn check_path_bytes(bytes: &Vec<u8>) -> (r: Result<(), FFmpegError>)
    ensures
        (forall|i: int| 0 <= i < bytes@.len() ==> bytes@[i] != 0) ==> r == Ok::<(), FFmpegError>(
            (),
        ),
        (exists|i: int| 0 <= i < bytes@.len() && bytes@[i] == 0) ==> r == Err::<(), FFmpegError>(
            FFmpegError::InvalidData,
        ),
{
    let mut i: usize = 0;
    while i < bytes.len()
        invariant
            i <= bytes@.len(),
            forall|j: int| 0 <= j < i ==> bytes@[j] != 0,
        decreases bytes@.len() - i,
    {
        if bytes[i] == 0 {
            return Err(FFmpegError::InvalidData);
        }
        i = i + 1;
    }
    Ok(())
}

/// Round-trip law: a rational already representable in the toolkit's 32-bit
/// fields, with a non-zero denominator, converts to fixed width and back to
/// exactly itself.
pub proof fn lemma_rational_round_trip(value: Rational)
    requires
        fits_i32(value.num as int),
        fits_i32(value.den as int),
        value.den != 0,
    ensures
        avrational_of(value) matches Ok(a) && rational_of(a) == Ok::<Rational, FFmpegError>(
            value,
        ),
{
}

/// Reduction law: whatever the input, the reduced pair is representable in
/// the toolkit's 32-bit fields, and an input already representable is left
/// exactly as it was.
pub proof fn lemma_reduce_representable(value: Rational)
    ensures
        fits_i32(reduce_spec(value.num as int, value.den as int).0),
        fits_i32(reduce_spec(value.num as int, value.den as int).1),
        fits_i32(value.num as int) && fits_i32(value.den as int) ==> reduce_spec(
            value.num as int,
            value.den as int,
        ) == (value.num as int, value.den as int),
{
    lemma_reduce_fits(value.num as int, value.den as int);
}

} // verus!
