use avsafe::{
    AVMEDIA_TYPE_AUDIO, AVMEDIA_TYPE_VIDEO, AV_NOPTS_VALUE, Codec, CodecContext, CodecParams,
    FFmpegError, Frame, Packet, Stream,
};

fn test_codec() -> Codec {
    Codec {
        name: String::from("mjpeg"),
        channel_layouts: vec![],
        sample_fmts: vec![],
        supported_samplerates: vec![],
    }
}

#[test]
fn fresh_frame_has_no_timestamp_and_no_buffer() {
    let f = Frame::allocate();
    assert_eq!(f.pts(), None);
    assert_eq!(f.duration(), None);
    assert_eq!(f.width(), 0);
    assert_eq!(f.height(), 0);
    assert!(!f.buffer_allocated);
    assert!(!f.writable);
    assert_eq!(f.linesize.len(), 8);
}

#[test]
fn frame_timestamps_use_the_unset_sentinels() {
    let mut f = Frame::allocate();
    assert_eq!(f.pts, AV_NOPTS_VALUE);
    f.set_pts(42);
    assert_eq!(f.pts(), Some(42));
}

#[test]
fn frame_data_len_takes_the_larger_of_samples_and_raster() {
    let mut f = Frame::allocate();
    f.set_height(4);
    f.linesize[0] = 16;
    // Video interpretation: height times line size.
    assert_eq!(f.data_len(0), 64);
    // Audio interpretation: the sample count dominates.
    f.set_samples(1024);
    assert_eq!(f.data_len(0), 1024);
    // An untouched plane has no raster, so the sample count stands alone.
    assert_eq!(f.data_len(1), 1024);
}

#[test]
fn frame_buffer_protocol_records_backing_and_writability() {
    let mut f = Frame::allocate();
    f.set_width(640);
    f.set_height(360);
    f.set_pixel_format(0);
    assert_eq!(f.get_buffer(0), Ok(()));
    assert!(f.buffer_allocated);
    assert_eq!(f.make_writable(0), Ok(()));
    assert!(f.writable);
}

#[test]
fn frame_buffer_failure_is_translated_and_changes_nothing() {
    let mut f = Frame::allocate();
    assert_eq!(
        f.get_buffer(avsafe::AVERROR_INVALIDDATA),
        Err(FFmpegError::InvalidData)
    );
    assert!(!f.buffer_allocated);
}

#[test]
fn frame_field_accessors_round_trip() {
    let mut f = Frame::allocate();
    f.set_channels(2);
    f.set_channel_layout(3);
    f.set_sample_rate(44100);
    f.set_sample_format(8);
    f.set_color_space(1);
    assert_eq!(f.channels(), 2);
    assert_eq!(f.channel_layout(), 3);
    assert_eq!(f.sample_rate(), 44100);
    assert_eq!(f.sample_format(), 8);
    assert_eq!(f.color_space(), 1);
}

#[test]
fn fresh_packet_has_sentinel_timestamps_and_unknown_position() {
    let p = Packet::allocate();
    assert_eq!(p.pts(), AV_NOPTS_VALUE);
    assert_eq!(p.dts(), AV_NOPTS_VALUE);
    assert_eq!(p.duration(), 0);
    assert_eq!(p.pos(), -1);
    assert_eq!(p.stream_index(), 0);
}

#[test]
fn packet_accessors_round_trip() {
    let mut p = Packet::allocate();
    p.set_pts(900);
    p.set_dts(890);
    p.set_duration(10);
    p.set_pos(4096);
    p.set_stream_index(2);
    assert_eq!(p.pts(), 900);
    assert_eq!(p.dts(), 890);
    assert_eq!(p.duration(), 10);
    assert_eq!(p.pos(), 4096);
    assert_eq!(p.stream_index(), 2);
}

#[test]
fn packet_unref_restores_the_fresh_state() {
    let mut p = Packet::allocate();
    p.set_pts(900);
    p.buf_attached = true;
    p.unref();
    assert_eq!(p, Packet::allocate());
    assert!(!p.buf_attached);
}

#[test]
fn releasing_one_packet_leaves_siblings_untouched() {
    let mut sibling = Packet::allocate();
    sibling.set_pts(1234);
    let doomed = Packet::allocate();
    doomed.release();
    assert_eq!(sibling.pts(), 1234);
}

#[test]
fn params_copy_from_a_video_context_takes_the_geometry() {
    let mut ctx = CodecContext::allocate(test_codec());
    ctx.codec_type = AVMEDIA_TYPE_VIDEO;
    ctx.set_width(1920);
    ctx.set_height(1080);
    ctx.set_pixel_format(0);
    ctx.set_bit_rate(4_000_000);
    let mut params = CodecParams::allocate();
    params.copy_context(&ctx, 0).unwrap();
    assert_eq!(params.width, 1920);
    assert_eq!(params.height, 1080);
    assert_eq!(params.format, 0);
    assert_eq!(params.bit_rate, 4_000_000);
    assert_eq!(params.sample_rate, 0);
}

#[test]
fn params_copy_from_an_audio_context_takes_the_audio_shape() {
    let mut ctx = CodecContext::allocate(test_codec());
    ctx.codec_type = AVMEDIA_TYPE_AUDIO;
    ctx.set_sample_rate(48000);
    ctx.set_channels(2);
    ctx.set_channel_layout(3);
    ctx.set_sample_format(8);
    let mut params = CodecParams::allocate();
    params.copy_context(&ctx, 0).unwrap();
    assert_eq!(params.sample_rate, 48000);
    assert_eq!(params.sample_rate(), 48000);
    assert_eq!(params.channels, 2);
    assert_eq!(params.channel_layout, 3);
    assert_eq!(params.format, 8);
    assert_eq!(params.width, 0);
}

#[test]
fn params_copy_failure_is_translated_and_changes_nothing() {
    let ctx = CodecContext::allocate(test_codec());
    let mut params = CodecParams::allocate();
    let r = params.copy_context(&ctx, avsafe::AVERROR_BUG);
    assert_eq!(r, Err(FFmpegError::Bug));
    assert_eq!(params, CodecParams::allocate());
}

#[test]
fn context_loads_params_back_through_copy_params() {
    let mut params = CodecParams::allocate();
    params.codec_type = AVMEDIA_TYPE_AUDIO;
    params.sample_rate = 44100;
    params.channels = 1;
    params.format = 8;
    let mut ctx = CodecContext::allocate(test_codec());
    ctx.copy_params(&params, 0).unwrap();
    assert_eq!(ctx.sample_rate(), 44100);
    assert_eq!(ctx.channels(), 1);
    assert_eq!(ctx.sample_format(), 8);
    assert_eq!(ctx.codec_type, AVMEDIA_TYPE_AUDIO);
}

#[test]
fn params_codec_tag_setter_narrows() {
    let mut params = CodecParams::allocate();
    params.set_codec_tag(0x31637661);
    assert_eq!(params.codec_tag, 0x31637661);
}

#[test]
fn stream_codec_params_copy_in_and_out() {
    let mut stream = Stream {
        index: 0,
        time_base: avsafe::AvRational { num: 1, den: 1200 },
        avg_frame_rate: avsafe::AvRational { num: 0, den: 1 },
        codecpar: CodecParams::allocate(),
        codec_tag: 0,
    };
    let mut params = CodecParams::allocate();
    params.codec_type = AVMEDIA_TYPE_VIDEO;
    params.width = 640;
    stream.copy_codec_params(&params, 0).unwrap();
    assert_eq!(stream.codec_params().unwrap(), params);
    stream.set_codec_tag(7);
    assert_eq!(stream.codec_tag, 7);
    let r = stream.copy_codec_params(&CodecParams::allocate(), avsafe::AVERROR_BUG);
    assert_eq!(r, Err(FFmpegError::Bug));
    assert_eq!(stream.codec_params().unwrap(), params);
}

#[test]
fn path_bytes_with_interior_nul_are_invalid_data() {
    let good: Vec<u8> = b"media/clip.mkv".to_vec();
    assert_eq!(avsafe::check_path_bytes(&good), Ok(()));
    let bad: Vec<u8> = b"media/\0clip.mkv".to_vec();
    assert_eq!(
        avsafe::check_path_bytes(&bad),
        Err(FFmpegError::InvalidData)
    );
}
