use bytes::{Bytes, BytesMut};

use webrtc::interceptor::mock_builder::MockBuilder;
use webrtc::interceptor::mock_time::{MockTime, TimeSpan, Timestamp};
use webrtc::srtp::ProtectionProfile;
use webrtc::turn::{Addr, FiveTuple, IpAddress, Protocol, SocketAddress, PROTO_UDP};
use webrtc::util::error::Error;
use webrtc::util::exact_size_buf::ExactSizeBuf;
use webrtc::util::interface::Interface;
use webrtc::webrtc::ice_candidate_pair::{RTCIceCandidate, RTCIceCandidatePair};
use webrtc::webrtc::stats_collector::StatsCollector;

#[test]
fn protection_profile_lengths() {
    let all = [
        (ProtectionProfile::Aes128CmHmacSha1_80, 16, 14, 10, 10, 0, 20),
        (ProtectionProfile::Aes128CmHmacSha1_32, 16, 14, 4, 10, 0, 20),
        (ProtectionProfile::Aes256CmHmacSha1_80, 32, 14, 10, 10, 0, 20),
        (ProtectionProfile::Aes256CmHmacSha1_32, 32, 14, 4, 10, 0, 20),
        (ProtectionProfile::AeadAes128Gcm, 16, 12, 0, 0, 16, 0),
        (ProtectionProfile::AeadAes256Gcm, 32, 12, 0, 0, 16, 0),
    ];
    for (p, key, salt, rtp, rtcp, aead, auth) in all {
        assert_eq!(p.key_len(), key);
        assert_eq!(p.salt_len(), salt);
        assert_eq!(p.rtp_auth_tag_len(), rtp);
        assert_eq!(p.rtcp_auth_tag_len(), rtcp);
        assert_eq!(p.aead_auth_tag_len(), aead);
        assert_eq!(p.auth_key_len(), auth);
    }
    assert_eq!(ProtectionProfile::default(), ProtectionProfile::Aes128CmHmacSha1_80);
}

#[test]
fn turn_addr() {
    let a = Addr::from_socket_addr(&SocketAddress { ip: IpAddress::V4(0x7F00_0001), port: 3478 });
    let b = Addr::from_socket_addr(&SocketAddress { ip: IpAddress::V4(0x7F00_0001), port: 1 });
    let c = Addr::from_socket_addr(&SocketAddress { ip: IpAddress::V6(1), port: 3478 });
    assert!(a.equal_ip(&b));
    assert!(!a.equal_ip(&c));
    assert_ne!(a, b);
    assert_eq!(a.network(), "turn");
    assert_eq!(a.port(), 3478);
    let d = Addr::default();
    assert_eq!(d.ip(), IpAddress::V4(0));
    assert_eq!(d.port(), 0);
    let t = FiveTuple { client: a, server: d, proto: Protocol(PROTO_UDP) };
    let u = FiveTuple {
        client: Addr::from_socket_addr(&SocketAddress { ip: IpAddress::V4(0x7F00_0001), port: 3478 }),
        server: Addr::default(),
        proto: Protocol(PROTO_UDP),
    };
    assert!(t == u);
}

#[test]
fn ice_candidate_pair_stats_id() {
    let local = RTCIceCandidate { stats_id: "L1".to_owned(), port: 1, ..Default::default() };
    let remote = RTCIceCandidate { stats_id: "R9".to_owned(), port: 2, ..Default::default() };
    let p = RTCIceCandidatePair::new(local, remote);
    assert_eq!(p.local.stats_id, "L1");
    assert_eq!(p.remote.port, 2);
    let dbg = format!("{:?}", p);
    assert!(dbg.contains("\"L1-R9\""));
}

#[test]
fn stats_collector_insert_merge() {
    let mut c: StatsCollector<u32> = StatsCollector::new();
    c.insert("a".to_owned(), 1);
    c.insert("b".to_owned(), 2);
    c.insert("a".to_owned(), 3);
    c.merge(vec![("c".to_owned(), 4), ("b".to_owned(), 5)]);
    let mut r = c.into_reports();
    r.sort();
    assert_eq!(r, vec![("a".to_owned(), 3), ("b".to_owned(), 5), ("c".to_owned(), 4)]);
}

#[test]
fn stats_collector_merge_later_wins() {
    let mut c: StatsCollector<u32> = StatsCollector::new();
    c.merge(vec![("x".to_owned(), 1), ("x".to_owned(), 2)]);
    assert_eq!(c.into_reports(), vec![("x".to_owned(), 2)]);
}

#[test]
fn mock_builder_calls_closure() {
    let b = MockBuilder::new(|id: &str| id.len());
    assert_eq!(b.build("abcd"), 4);
}

#[test]
fn mock_time_set_now_advance() {
    let mut t = MockTime::default();
    assert_eq!(t.now(), Timestamp::unix_epoch());
    let later = Timestamp::from_unix(100, 0);
    t.set_now(later);
    assert_eq!(t.now(), later);
    t.advance(TimeSpan::from_secs(5));
    assert_eq!(t.now(), Timestamp::from_unix(105, 0));
    let before = t.now();
    t.advance(TimeSpan::max_span());
    assert_eq!(t.now(), before);
}

#[test]
fn mock_time_advance_from_ten_seconds() {
    let mut t = MockTime::default();
    t.set_now(Timestamp::from_unix(10, 0));
    t.advance(TimeSpan::from_secs(5));
    assert_eq!(t.now(), Timestamp::from_unix(15, 0));
}

#[test]
fn timestamp_checked_add_carries_nanoseconds() {
    let t = Timestamp::from_unix(-1, 700_000_000);
    let r = t.checked_add(TimeSpan::new(2, 600_000_000)).unwrap();
    assert_eq!(r.unix_secs(), 2);
    assert_eq!(r.subsec_nanos(), 300_000_000);
    let last = Timestamp::from_unix(i64::MAX, 999_999_999);
    assert_eq!(last.checked_add(TimeSpan::new(0, 1)), None);
    assert_eq!(last.checked_add(TimeSpan::from_secs(0)), Some(last));
    let almost = Timestamp::from_unix(i64::MAX - 1, 500_000_000);
    assert_eq!(
        almost.checked_add(TimeSpan::new(0, 499_999_999)),
        Some(Timestamp::from_unix(i64::MAX - 1, 999_999_999))
    );
    assert_eq!(
        almost.checked_add(TimeSpan::new(0, 500_000_000)),
        Some(Timestamp::from_unix(i64::MAX, 0))
    );
    assert_eq!(almost.checked_add(TimeSpan::new(1, 500_000_000)), None);
}

#[test]
fn exact_size_buf_lengths() {
    let b = Bytes::from(vec![1, 2, 3]);
    assert_eq!(ExactSizeBuf::len(&b), 3);
    assert!(!ExactSizeBuf::is_empty(&b));
    let m = BytesMut::new();
    assert_eq!(ExactSizeBuf::len(&m), 0);
    assert!(ExactSizeBuf::is_empty(&m));
    let s: &[u8] = &[4, 5];
    assert_eq!(ExactSizeBuf::len(s), 2);
    assert!(!ExactSizeBuf::is_empty(s));
}

#[test]
fn interface_addresses() {
    let n1: ipnet::IpNet = "10.0.0.1/8".parse().unwrap();
    let n2: ipnet::IpNet = "fe80::1/64".parse().unwrap();
    let mut i = Interface::new("eth0".to_owned(), vec![n1]);
    i.add_addr(n2);
    assert_eq!(i.name(), "eth0");
    assert_eq!(i.addrs(), &[n1, n2]);
}

#[test]
fn interface_convert_networks() {
    let a4 = SocketAddress { ip: IpAddress::V4(0x0a00_0001), port: 80 };
    let n: ipnet::IpNet = "10.0.0.1/32".parse().unwrap();
    assert_eq!(Interface::convert(a4, None), Ok(n));
    let m = SocketAddress { ip: IpAddress::V4(0xffff_ff00), port: 0 };
    let n: ipnet::IpNet = "10.0.0.1/24".parse().unwrap();
    assert_eq!(Interface::convert(a4, Some(m)), Ok(n));
    let bad = SocketAddress { ip: IpAddress::V4(0xff00_ff00), port: 0 };
    assert_eq!(Interface::convert(a4, Some(bad)), Err(Error::ErrInvalidMask));
    let a6 = SocketAddress { ip: IpAddress::V6(1), port: 443 };
    let n: ipnet::IpNet = "::1/128".parse().unwrap();
    assert_eq!(Interface::convert(a6, None), Ok(n));
    let m6 = SocketAddress { ip: IpAddress::V6(u128::MAX << 64), port: 0 };
    let n: ipnet::IpNet = "::1/64".parse().unwrap();
    assert_eq!(Interface::convert(a6, Some(m6)), Ok(n));
    assert_eq!(Interface::convert(a4, Some(m6)), Err(Error::ErrInvalidMask));
    let m6_short = SocketAddress { ip: IpAddress::V6(u128::MAX << 112), port: 0 };
    let n: ipnet::IpNet = "10.0.0.1/16".parse().unwrap();
    assert_eq!(Interface::convert(a4, Some(m6_short)), Ok(n));
}

#[test]
fn turn_text_forms() {
    let a = Addr::from_socket_addr(&SocketAddress { ip: IpAddress::V4(0xc0a8_0a01), port: 3478 });
    assert_eq!(a.to_string(), "192.168.10.1:3478");
    let b = Addr::from_socket_addr(&SocketAddress { ip: IpAddress::V6(0x2001_0db8_0000_0000_0000_0000_0000_0001), port: 80 });
    assert_eq!(b.to_string(), "2001:db8::1:80");
    assert_eq!(IpAddress::V6(1).to_string(), "::1");
    assert_eq!(IpAddress::V4(0).to_string(), "0.0.0.0");
    assert_eq!(Protocol(PROTO_UDP).to_string(), "UDP");
    assert_eq!(Protocol(6).to_string(), "TCP");
    assert_eq!(Protocol(132).to_string(), "132");
    let t = FiveTuple { client: a, server: b, proto: Protocol(PROTO_UDP) };
    assert_eq!(t.to_string(), "192.168.10.1:3478->2001:db8::1:80 (UDP)");
}

#[test]
fn addr_from_same_socket_address_is_equal() {
    let n = SocketAddress { ip: IpAddress::V4(0x0102_0304), port: 5 };
    let m = SocketAddress { ip: IpAddress::V4(0x0102_0304), port: 6 };
    let r = Addr::from_socket_addr(&n);
    assert_eq!(r.to_string(), "1.2.3.4:5");
    assert!(r == Addr::from_socket_addr(&n));
    assert!(r != Addr::from_socket_addr(&m));
    assert!(r.equal_ip(&Addr::from_socket_addr(&m)));
}
