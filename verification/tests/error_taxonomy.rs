use avsafe::FFmpegError;

#[test]
fn recognised_codes_map_to_their_kinds() {
    assert_eq!(
        FFmpegError::from(avsafe::AVERROR_BSF_NOT_FOUND),
        FFmpegError::BitStreamFilterNotFound
    );
    assert_eq!(FFmpegError::from(avsafe::AVERROR_BUG), FFmpegError::Bug);
    assert_eq!(FFmpegError::from(avsafe::AVERROR_BUG2), FFmpegError::Bug2);
    assert_eq!(
        FFmpegError::from(avsafe::AVERROR_BUFFER_TOO_SMALL),
        FFmpegError::BufferTooSmall
    );
    assert_eq!(
        FFmpegError::from(avsafe::AVERROR_DECODER_NOT_FOUND),
        FFmpegError::DecoderNotFound
    );
    assert_eq!(
        FFmpegError::from(avsafe::AVERROR_DEMUXER_NOT_FOUND),
        FFmpegError::DemuxerNotFound
    );
    assert_eq!(
        FFmpegError::from(avsafe::AVERROR_ENCODER_NOT_FOUND),
        FFmpegError::EncoderNotFound
    );
    assert_eq!(FFmpegError::from(avsafe::AVERROR_EOF), FFmpegError::EOF);
    assert_eq!(FFmpegError::from(avsafe::AVERROR_EXIT), FFmpegError::Exit);
    assert_eq!(
        FFmpegError::from(avsafe::AVERROR_EXPERIMENTAL),
        FFmpegError::Experimental
    );
    assert_eq!(FFmpegError::from(avsafe::AVERROR_EXTERNAL), FFmpegError::External);
    assert_eq!(
        FFmpegError::from(avsafe::AVERROR_FILTER_NOT_FOUND),
        FFmpegError::FilterNotFound
    );
    assert_eq!(
        FFmpegError::from(avsafe::AVERROR_HTTP_BAD_REQUEST),
        FFmpegError::HttpBadRequest
    );
    assert_eq!(
        FFmpegError::from(avsafe::AVERROR_HTTP_FORBIDDEN),
        FFmpegError::HttpForbidden
    );
    assert_eq!(
        FFmpegError::from(avsafe::AVERROR_HTTP_NOT_FOUND),
        FFmpegError::HttpNotFound
    );
    assert_eq!(
        FFmpegError::from(avsafe::AVERROR_HTTP_OTHER_4XX),
        FFmpegError::HttpOther4xx
    );
    assert_eq!(
        FFmpegError::from(avsafe::AVERROR_HTTP_SERVER_ERROR),
        FFmpegError::HttpServerError
    );
    assert_eq!(
        FFmpegError::from(avsafe::AVERROR_HTTP_UNAUTHORIZED),
        FFmpegError::HttpUnauthorized
    );
    assert_eq!(
        FFmpegError::from(avsafe::AVERROR_INPUT_CHANGED),
        FFmpegError::InputChanged
    );
    assert_eq!(
        FFmpegError::from(avsafe::AVERROR_INVALIDDATA),
        FFmpegError::InvalidData
    );
    assert_eq!(
        FFmpegError::from(avsafe::AVERROR_MUXER_NOT_FOUND),
        FFmpegError::MuxerNotFound
    );
    assert_eq!(
        FFmpegError::from(avsafe::AVERROR_OPTION_NOT_FOUND),
        FFmpegError::OptionNotFound
    );
    assert_eq!(
        FFmpegError::from(avsafe::AVERROR_OUTPUT_CHANGED),
        FFmpegError::OutputChanged
    );
    assert_eq!(
        FFmpegError::from(avsafe::AVERROR_PATCHWELCOME),
        FFmpegError::PatchWelcome
    );
    assert_eq!(
        FFmpegError::from(avsafe::AVERROR_PROTOCOL_NOT_FOUND),
        FFmpegError::ProtocolNotFound
    );
    assert_eq!(
        FFmpegError::from(avsafe::AVERROR_STREAM_NOT_FOUND),
        FFmpegError::StreamNotFound
    );
}

#[test]
fn known_numeric_values_of_the_tags() {
    // Spot checks against the toolkit's published numeric error space.
    assert_eq!(avsafe::AVERROR_EOF, -541478725);
    assert_eq!(avsafe::AVERROR_INVALIDDATA, -1094995529);
    assert_eq!(FFmpegError::from(-541478725), FFmpegError::EOF);
    assert_eq!(FFmpegError::from(-1094995529), FFmpegError::InvalidData);
}

#[test]
fn host_no_entry_code_maps_to_no_entry() {
    assert_eq!(FFmpegError::from(avsafe::AVERROR_NOENT), FFmpegError::NoEntry);
    assert_eq!(FFmpegError::from(-2), FFmpegError::NoEntry);
}

#[test]
fn unknown_tag_collapses_to_unknown_zero() {
    assert_eq!(FFmpegError::from(avsafe::AVERROR_UNKNOWN), FFmpegError::Unknown(0));
}

#[test]
fn unrecognised_codes_preserve_their_number() {
    assert_eq!(FFmpegError::from(-12345), FFmpegError::Unknown(-12345));
    assert_eq!(FFmpegError::from(-1), FFmpegError::Unknown(-1));
    assert_eq!(FFmpegError::from(7), FFmpegError::Unknown(7));
    assert_eq!(FFmpegError::from(0), FFmpegError::Unknown(0));
}
