use bytes::{Bytes, BytesMut};

use webrtc::sctp::chunk_header::{ChunkHeader, ChunkType, CT_SHUTDOWN, CT_SHUTDOWN_COMPLETE};
use webrtc::sctp::chunk_shutdown::ChunkShutdown;
use webrtc::sctp::chunk_shutdown_complete::ChunkShutdownComplete;
use webrtc::sctp::chunk_unknown::ChunkUnknown;
use webrtc::sctp::param_header::ParamHeader;
use webrtc::sctp::param_heartbeat_info::ParamHeartbeatInfo;
use webrtc::sctp::param_random::ParamRandom;
use webrtc::sctp::param_state_cookie::ParamStateCookie;
use webrtc::sctp::param_type::ParamType;
use webrtc::sctp::Error;

#[test]
fn chunk_header_marshal_counts_header_in_length() {
    let h = ChunkHeader { typ: ChunkType(9), flags: 3, value_length: 5 };
    let mut w = BytesMut::new();
    assert_eq!(h.marshal_to(&mut w), Ok(4));
    assert_eq!(&w[..], &[9, 3, 0, 9]);
}

#[test]
fn chunk_header_too_small() {
    let raw = Bytes::from(vec![7, 0, 0]);
    assert_eq!(ChunkHeader::unmarshal(&raw), Err(Error::ErrChunkHeaderTooSmall));
}

#[test]
fn chunk_header_length_shorter_than_header() {
    let raw = Bytes::from(vec![7, 0, 0, 3]);
    assert_eq!(ChunkHeader::unmarshal(&raw), Err(Error::ErrChunkHeaderInvalidLength));
}

#[test]
fn chunk_header_length_past_input() {
    let raw = Bytes::from(vec![7, 0, 0, 9, 1, 2, 3, 4]);
    assert_eq!(ChunkHeader::unmarshal(&raw), Err(Error::ErrChunkHeaderInvalidLength));
}

#[test]
fn chunk_header_padding_must_be_zero() {
    let raw = Bytes::from(vec![1, 0, 0, 5, 0xAA, 0, 1, 0]);
    assert_eq!(ChunkHeader::unmarshal(&raw), Err(Error::ErrChunkHeaderPaddingNonZero));
    let raw = Bytes::from(vec![1, 0, 0, 5, 0xAA, 0, 0, 0]);
    assert_eq!(
        ChunkHeader::unmarshal(&raw),
        Ok(ChunkHeader { typ: ChunkType(1), flags: 0, value_length: 1 })
    );
}

#[test]
fn chunk_header_four_trailing_bytes_are_not_padding() {
    let raw = Bytes::from(vec![1, 2, 0, 4, 9, 9, 9, 9]);
    assert_eq!(
        ChunkHeader::unmarshal(&raw),
        Ok(ChunkHeader { typ: ChunkType(1), flags: 2, value_length: 0 })
    );
}

#[test]
fn shutdown_roundtrip() {
    let c = ChunkShutdown { cumulative_tsn_ack: 0x0102_0304 };
    let mut w = BytesMut::new();
    assert_eq!(c.marshal_to(&mut w), Ok(8));
    assert_eq!(&w[..], &[CT_SHUTDOWN, 0, 0, 8, 1, 2, 3, 4]);
    let back = ChunkShutdown::unmarshal(&w.freeze()).unwrap();
    assert_eq!(back, c);
}

#[test]
fn shutdown_header_and_lengths() {
    let c = ChunkShutdown { cumulative_tsn_ack: 7 };
    assert_eq!(c.header(), ChunkHeader { typ: ChunkType(CT_SHUTDOWN), flags: 0, value_length: 4 });
    assert_eq!(c.value_length(), 4);
    assert_eq!(c.check(), Ok(()));
}

#[test]
fn shutdown_wrong_type() {
    let raw = Bytes::from(vec![8, 0, 0, 8, 1, 2, 3, 4]);
    assert_eq!(ChunkShutdown::unmarshal(&raw), Err(Error::ErrChunkTypeNotShutdown));
}

#[test]
fn shutdown_wrong_size() {
    let raw = Bytes::from(vec![7, 0, 0, 12, 1, 2, 3, 4, 5, 6, 7, 8]);
    assert_eq!(ChunkShutdown::unmarshal(&raw), Err(Error::ErrInvalidChunkSize));
}

#[test]
fn shutdown_length_field_too_short() {
    let raw = Bytes::from(vec![7, 0, 0, 4, 0, 0, 0, 0]);
    assert_eq!(ChunkShutdown::unmarshal(&raw), Err(Error::ErrInvalidChunkSize));
    let raw = Bytes::from(vec![7, 0, 0, 7, 0, 0, 0, 0]);
    assert_eq!(ChunkShutdown::unmarshal(&raw), Err(Error::ErrInvalidChunkSize));
}

#[test]
fn shutdown_bad_header() {
    let raw = Bytes::from(vec![7, 0]);
    assert_eq!(ChunkShutdown::unmarshal(&raw), Err(Error::ErrChunkHeaderTooSmall));
}

#[test]
fn shutdown_complete_roundtrip() {
    let c = ChunkShutdownComplete;
    let mut w = BytesMut::new();
    w.extend_from_slice(&[0xFF]);
    assert_eq!(c.marshal_to(&mut w), Ok(5));
    assert_eq!(&w[..], &[0xFF, CT_SHUTDOWN_COMPLETE, 0, 0, 4]);
    let raw = Bytes::from(vec![CT_SHUTDOWN_COMPLETE, 0, 0, 4]);
    assert_eq!(ChunkShutdownComplete::unmarshal(&raw), Ok(ChunkShutdownComplete));
    assert_eq!(c.value_length(), 0);
    assert_eq!(c.header().value_length, 0);
}

#[test]
fn shutdown_complete_wrong_type() {
    let raw = Bytes::from(vec![CT_SHUTDOWN, 0, 0, 4]);
    assert_eq!(
        ChunkShutdownComplete::unmarshal(&raw),
        Err(Error::ErrChunkTypeNotShutdownComplete)
    );
}

#[test]
fn unknown_chunk_keeps_header_and_value() {
    let raw = Bytes::from(vec![0x40, 0x81, 0, 7, 10, 20, 30, 0]);
    let c = ChunkUnknown::unmarshal(&raw).unwrap();
    assert_eq!(c.header(), ChunkHeader { typ: ChunkType(0x40), flags: 0x81, value_length: 3 });
    assert_eq!(c.value_length(), 3);
    assert_eq!(c.check(), Ok(()));
    let mut w = BytesMut::new();
    assert_eq!(c.marshal_to(&mut w), Ok(7));
    assert_eq!(&w[..], &raw[..7]);
}

#[test]
fn unknown_chunk_refuses_bad_header() {
    let raw = Bytes::from(vec![0x40, 0, 0, 9, 1]);
    assert!(matches!(ChunkUnknown::unmarshal(&raw), Err(Error::ErrChunkHeaderInvalidLength)));
}

#[test]
fn param_type_codes() {
    assert_eq!(u16::from(ParamType::HeartbeatInfo), 1);
    assert_eq!(u16::from(ParamType::StateCookie), 7);
    assert_eq!(u16::from(ParamType::Random), 0x8002);
    assert_eq!(u16::from(ParamType::AdaptLayerInd), 0xC006);
    assert_eq!(ParamType::from(0x8002u16), ParamType::Random);
    assert_eq!(ParamType::from(3u16), ParamType::Unknown { param_type: 3 });
    for v in [0u16, 1, 2, 7, 11, 0x8000, 0x8008, 0xC000, 0xFFFF] {
        assert_eq!(u16::from(ParamType::from(v)), v);
    }
}

#[test]
fn param_header_roundtrip() {
    let h = ParamHeader { typ: ParamType::Random, value_length: 2 };
    let mut w = BytesMut::new();
    assert_eq!(h.marshal_to(&mut w), Ok(4));
    assert_eq!(&w[..], &[0x80, 0x02, 0, 6]);
    w.extend_from_slice(&[1, 2]);
    assert_eq!(ParamHeader::unmarshal(&w.freeze()), Ok(h));
}

#[test]
fn param_header_too_short() {
    assert_eq!(
        ParamHeader::unmarshal(&Bytes::from(vec![0, 1, 0])),
        Err(Error::ErrParamHeaderTooShort)
    );
    assert_eq!(
        ParamHeader::unmarshal(&Bytes::from(vec![0, 1, 0, 2])),
        Err(Error::ErrParamHeaderTooShort)
    );
    assert_eq!(
        ParamHeader::unmarshal(&Bytes::from(vec![0, 1, 0, 6, 9])),
        Err(Error::ErrParamHeaderTooShort)
    );
}

#[test]
fn heartbeat_info_roundtrip() {
    let p = ParamHeartbeatInfo { heartbeat_information: Bytes::from(vec![5, 6, 7]) };
    assert_eq!(p.value_length(), 3);
    assert_eq!(p.header(), ParamHeader { typ: ParamType::HeartbeatInfo, value_length: 3 });
    let mut w = BytesMut::new();
    assert_eq!(p.marshal_to(&mut w), Ok(7));
    assert_eq!(&w[..], &[0, 1, 0, 7, 5, 6, 7]);
    let back = ParamHeartbeatInfo::unmarshal(&w.freeze()).unwrap();
    assert_eq!(&back.heartbeat_information[..], &[5, 6, 7]);
}

#[test]
fn random_param_roundtrip() {
    let p = ParamRandom { random_data: Bytes::from(vec![1, 2, 3, 4]) };
    let mut w = BytesMut::new();
    assert_eq!(p.marshal_to(&mut w), Ok(8));
    assert_eq!(&w[..4], &[0x80, 0x02, 0, 8]);
    let back = ParamRandom::unmarshal(&w.freeze()).unwrap();
    assert_eq!(&back.random_data[..], &[1, 2, 3, 4]);
}

#[test]
fn param_unmarshal_ignores_type_and_trailing_bytes() {
    let raw = Bytes::from(vec![0, 9, 0, 5, 0xEE, 0xAB, 0xCD]);
    let p = ParamRandom::unmarshal(&raw).unwrap();
    assert_eq!(&p.random_data[..], &[0xEE]);
}

#[test]
fn param_unmarshal_error() {
    let raw = Bytes::from(vec![0, 7]);
    assert!(matches!(ParamStateCookie::unmarshal(&raw), Err(Error::ErrParamHeaderTooShort)));
}

#[test]
fn state_cookie_is_32_bytes() {
    let c = ParamStateCookie::new();
    assert_eq!(c.value_length(), 32);
    let mut w = BytesMut::new();
    assert_eq!(c.marshal_to(&mut w), Ok(36));
    assert_eq!(&w[..4], &[0, 7, 0, 36]);
    let back = ParamStateCookie::unmarshal(&w.freeze()).unwrap();
    assert_eq!(back.cookie, c.cookie);
}

#[test]
fn chunk_text_forms() {
    assert_eq!(ChunkShutdown { cumulative_tsn_ack: 1 }.to_string(), "SHUTDOWN");
    assert_eq!(ChunkShutdownComplete.to_string(), "SHUTDOWN-COMPLETE");
    assert_eq!(ChunkType(0).to_string(), "DATA");
    assert_eq!(ChunkType(130).to_string(), "RECONFIG");
    assert_eq!(ChunkType(200).to_string(), "Unknown ChunkType: 200");
    assert_eq!(ChunkType(12).to_string(), "Unknown ChunkType: 12");
    let h = ChunkHeader { typ: ChunkType(1), flags: 0, value_length: 0 };
    assert_eq!(h.to_string(), "INIT");
}

#[test]
fn param_text_forms() {
    let r = ParamRandom {
        random_data: Bytes::from(vec![1, b'a', b'\n', b'"', 0, 0xff, b'\\', b'\t', b'\r', 0x7f]),
    };
    assert_eq!(r.to_string(), "Random b\"\\x01a\\n\\\"\\0\\xff\\\\\\t\\r\\x7f\"");
    let h = ParamHeartbeatInfo { heartbeat_information: Bytes::from(vec![b'o', b'k']) };
    assert_eq!(h.to_string(), "Heartbeat Info b\"ok\"");
    let c = ParamStateCookie { cookie: Bytes::from(vec![0x10, b' ']) };
    assert_eq!(c.to_string(), "State Cookie: b\"\\x10 \"");
}

#[test]
fn chunk_unknown_text_form() {
    let raw = Bytes::from(vec![7, 0, 0, 6, b'h', b'i', 0, 0]);
    let c = ChunkUnknown::unmarshal(&raw).unwrap();
    assert_eq!(c.to_string(), "ChunkUnknown( SHUTDOWN b\"hi\" )");
}
