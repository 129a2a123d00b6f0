use avsafe::{
    Codec, CodecContext, DrainState, FFmpegError, Frame, Packet, PassthroughCodec,
    passthrough_liveness,
};

fn test_codec() -> Codec {
    Codec {
        name: String::from("pcm_s16le"),
        channel_layouts: vec![],
        sample_fmts: vec![],
        supported_samplerates: vec![],
    }
}

fn opened_context() -> CodecContext {
    let codec = test_codec();
    let mut ctx = CodecContext::allocate(codec);
    let against = test_codec();
    ctx.open(&against, 0).unwrap();
    ctx
}

#[test]
fn liveness_passthrough_yields_exactly_the_submitted_count() {
    let mut ctx = opened_context();
    let mut model = PassthroughCodec::new();
    let count = passthrough_liveness(&mut ctx, &mut model, 5);
    assert_eq!(count, 5);
    assert_eq!(ctx.submitted, 5);
    assert_eq!(ctx.received, 5);
    assert_eq!(ctx.drain, DrainState::Finished);
    assert_eq!(model.pending, 0);
}

#[test]
fn liveness_holds_for_zero_submissions() {
    let mut ctx = opened_context();
    let mut model = PassthroughCodec::new();
    assert_eq!(passthrough_liveness(&mut ctx, &mut model, 0), 0);
    assert_eq!(ctx.drain, DrainState::Finished);
}

#[test]
fn open_failure_is_translated_and_leaves_context_unopened() {
    let codec = test_codec();
    let mut ctx = CodecContext::allocate(codec);
    let against = test_codec();
    let r = ctx.open(&against, avsafe::AVERROR_INVALIDDATA);
    assert_eq!(r, Err(FFmpegError::InvalidData));
    assert!(!ctx.opened);
}

#[test]
fn would_block_receive_is_empty_and_not_final_before_flush() {
    let mut ctx = opened_context();
    let r = ctx.receive_frame(avsafe::AVERROR_EAGAIN, Frame::allocate());
    assert!(matches!(r, Ok(None)));
    assert_eq!(ctx.drain, DrainState::Accepting);
}

#[test]
fn empty_receive_after_null_submission_is_final() {
    let mut ctx = opened_context();
    ctx.send_null_frame(0).unwrap();
    assert_eq!(ctx.drain, DrainState::Flushing);
    let r = ctx.receive_frame(avsafe::AVERROR_EOF, Frame::allocate());
    assert!(matches!(r, Ok(None)));
    assert_eq!(ctx.drain, DrainState::Finished);
}

#[test]
fn hard_receive_error_is_translated_not_retried() {
    let mut ctx = opened_context();
    let r = ctx.receive_packet(avsafe::AVERROR_EXTERNAL, Packet::allocate());
    assert_eq!(r, Err(FFmpegError::External));
    assert_eq!(ctx.received, 0);
}

#[test]
fn send_packet_accepts_any_non_negative_status() {
    let mut ctx = opened_context();
    assert_eq!(ctx.send_packet(Packet::allocate(), 0), Ok(()));
    assert_eq!(ctx.send_packet(Packet::allocate(), 1), Ok(()));
    assert_eq!(ctx.submitted, 2);
    assert_eq!(
        ctx.send_packet(Packet::allocate(), avsafe::AVERROR_EOF),
        Err(FFmpegError::EOF)
    );
    assert_eq!(ctx.submitted, 2);
}

#[test]
fn send_frame_rejects_any_non_zero_status() {
    let mut ctx = opened_context();
    let frame = Frame::allocate();
    assert!(matches!(ctx.send_frame(&frame, 1), Err(FFmpegError::Unknown(1))));
    assert_eq!(ctx.submitted, 0);
}

#[test]
fn flush_buffers_reopens_the_drain() {
    let mut ctx = opened_context();
    ctx.send_null_frame(0).unwrap();
    let _ = ctx.receive_frame(avsafe::AVERROR_EOF, Frame::allocate());
    assert_eq!(ctx.drain, DrainState::Finished);
    ctx.flush_buffers();
    assert_eq!(ctx.drain, DrainState::Accepting);
    assert_eq!(ctx.send_frame(&Frame::allocate(), 0), Ok(()));
}

#[test]
fn configuration_setters_store_the_narrowed_fields() {
    let mut ctx = CodecContext::allocate(test_codec());
    ctx.set_bit_rate(128_000);
    ctx.set_sample_rate(48_000);
    ctx.set_channels(2);
    ctx.set_channel_layout(3);
    ctx.set_width(1920);
    ctx.set_height(1080);
    ctx.set_gop_size(12);
    ctx.set_max_b_frames(2);
    ctx.set_ticks_per_frame(2);
    assert_eq!(ctx.bit_rate(), 128_000);
    assert_eq!(ctx.sample_rate(), 48_000);
    assert_eq!(ctx.channels(), 2);
    assert_eq!(ctx.channel_layout(), 3);
    assert_eq!(ctx.width(), 1920);
    assert_eq!(ctx.height(), 1080);
    assert_eq!(ctx.ticks_per_frame(), 2);
}

#[test]
fn time_base_setter_reduces_and_getter_widens() {
    let mut ctx = CodecContext::allocate(test_codec());
    ctx.set_time_base(&avsafe::Rational { num: 1, den: 90000 }).unwrap();
    assert_eq!(
        ctx.time_base().unwrap(),
        avsafe::Rational { num: 1, den: 90000 }
    );
    // A degenerate reduction leaves the configuration untouched.
    let r = ctx.set_time_base(&avsafe::Rational { num: 5_000_000_000, den: 1 });
    assert_eq!(r, Err(FFmpegError::InvalidData));
    assert_eq!(
        ctx.time_base().unwrap(),
        avsafe::Rational { num: 1, den: 90000 }
    );
}
