use avsafe::{FFmpegError, Frame, SwsContext};

const FORMAT_A: i32 = 0;
const FORMAT_B: i32 = 2;

fn full_hd_to_nhd() -> SwsContext {
    SwsContext::new(1920, 1080, FORMAT_A, 640, 360, FORMAT_B, true, true, true).unwrap()
}

#[test]
fn construction_fixes_geometry_and_formats() {
    let sws = full_hd_to_nhd();
    assert_eq!(sws.src_width, 1920);
    assert_eq!(sws.src_height, 1080);
    assert_eq!(sws.src_format, FORMAT_A);
    assert_eq!(sws.dst_width, 640);
    assert_eq!(sws.dst_height, 360);
    assert_eq!(sws.dst_format, FORMAT_B);
}

#[test]
fn unsupported_source_format_fails_as_decoder_not_found() {
    let r = SwsContext::new(1920, 1080, FORMAT_A, 640, 360, FORMAT_B, false, true, true);
    assert_eq!(r, Err(FFmpegError::DecoderNotFound));
}

#[test]
fn unsupported_destination_format_fails_as_encoder_not_found() {
    let r = SwsContext::new(1920, 1080, FORMAT_A, 640, 360, FORMAT_B, true, false, true);
    assert_eq!(r, Err(FFmpegError::EncoderNotFound));
}

#[test]
fn failed_pipeline_construction_is_filter_not_found() {
    let r = SwsContext::new(1920, 1080, FORMAT_A, 640, 360, FORMAT_B, true, true, false);
    assert_eq!(r, Err(FFmpegError::FilterNotFound));
}

#[test]
fn full_height_conversion_is_success() {
    let sws = full_hd_to_nhd();
    let mut src = Frame::allocate();
    src.set_width(1920);
    src.set_height(1080);
    src.set_pixel_format(FORMAT_A);
    src.get_buffer(0).unwrap();
    let mut dst = Frame::allocate();
    dst.set_width(640);
    dst.set_height(360);
    dst.set_pixel_format(FORMAT_B);
    dst.get_buffer(0).unwrap();
    // The native scaler reported the destination's full declared height.
    assert_eq!(sws.scale(&src, &dst, 360), Ok(()));
}

#[test]
fn partial_conversion_is_invalid_data() {
    let sws = full_hd_to_nhd();
    let src = Frame::allocate();
    let mut dst = Frame::allocate();
    dst.set_height(360);
    assert_eq!(sws.scale(&src, &dst, 359), Err(FFmpegError::InvalidData));
}

#[test]
fn colour_range_query_interprets_the_native_answer() {
    let sws = full_hd_to_nhd();
    assert_eq!(sws.is_src_range_mpeg(0, 0), Ok(true));
    assert_eq!(sws.is_src_range_mpeg(0, 1), Ok(false));
    assert_eq!(sws.is_src_range_mpeg(-1, 0), Err(FFmpegError::InvalidData));
}
