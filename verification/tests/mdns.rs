use webrtc::mdns::a::AResource;
use webrtc::mdns::aaaa::AaaaResource;
use webrtc::mdns::cname::CnameResource;
use webrtc::mdns::compression::CompressionMap;
use webrtc::mdns::name::Name;
use webrtc::mdns::ns::NsResource;
use webrtc::mdns::packer::{pack_bytes, pack_uint16, unpack_bytes, unpack_uint16};
use webrtc::mdns::ptr::PtrResource;
use webrtc::mdns::srv::SrvResource;
use webrtc::mdns::{DnsType, Error};

fn name(s: &str) -> Name {
    Name::new(s).unwrap()
}

#[test]
fn packer_fields() {
    assert_eq!(pack_bytes(vec![1], &[2, 3]), vec![1, 2, 3]);
    assert_eq!(pack_uint16(vec![], 0x1234), vec![0x12, 0x34]);
    assert_eq!(unpack_uint16(&[0, 0x12, 0x34], 1), Ok((0x1234, 3)));
    assert_eq!(unpack_uint16(&[0, 0x12], 1), Err(Error::ErrBaseLen));
    let mut f = [9u8; 2];
    assert_eq!(unpack_bytes(&[1, 2, 3], 1, &mut f), Ok(3));
    assert_eq!(f, [2, 3]);
    assert_eq!(unpack_bytes(&[1, 2, 3], 2, &mut f), Err(Error::ErrBaseLen));
    assert_eq!(f, [2, 3]);
}

#[test]
fn a_resource_roundtrip() {
    let r = AResource { a: [192, 168, 0, 1] };
    assert_eq!(r.real_type(), DnsType::A);
    let mut comp = None;
    let msg = r.pack(vec![0xAA], &mut comp, 0).unwrap();
    assert_eq!(msg, vec![0xAA, 192, 168, 0, 1]);
    let mut back = AResource::default();
    assert_eq!(back.unpack(&msg, 1, 4), Ok(5));
    assert_eq!(back, r);
}

#[test]
fn a_resource_short_message() {
    let mut back = AResource { a: [1, 1, 1, 1] };
    assert_eq!(back.unpack(&[1, 2, 3], 0, 4), Err(Error::ErrBaseLen));
    assert_eq!(back.a, [1, 1, 1, 1]);
}

#[test]
fn aaaa_resource_roundtrip() {
    let mut bytes = [0u8; 16];
    for (i, b) in bytes.iter_mut().enumerate() {
        *b = i as u8 * 3;
    }
    let r = AaaaResource { aaaa: bytes };
    assert_eq!(r.real_type(), DnsType::Aaaa);
    let msg = r.pack(vec![], &mut None, 0).unwrap();
    assert_eq!(msg.len(), 16);
    let mut back = AaaaResource::default();
    assert_eq!(back.unpack(&msg, 0, 16), Ok(16));
    assert_eq!(back, r);
    assert_eq!(back.unpack(&msg, 1, 16), Err(Error::ErrBaseLen));
}

#[test]
fn name_pack_labels() {
    let n = name("go.dev.");
    let msg = n.pack(vec![], &mut None, 0).unwrap();
    assert_eq!(msg, vec![2, b'g', b'o', 3, b'd', b'e', b'v', 0]);
}

#[test]
fn name_pack_root() {
    assert_eq!(name(".").pack(vec![7], &mut None, 0), Ok(vec![7, 0]));
}

#[test]
fn name_pack_errors() {
    assert_eq!(name("go.dev").pack(vec![], &mut None, 0), Err(Error::ErrNonCanonicalName));
    assert_eq!(name("").pack(vec![], &mut None, 0), Err(Error::ErrNonCanonicalName));
    assert_eq!(name("go..dev.").pack(vec![], &mut None, 0), Err(Error::ErrZeroSegLen));
    let long = format!("{}.", "a".repeat(64));
    assert_eq!(name(&long).pack(vec![], &mut None, 0), Err(Error::ErrSegTooLong));
    let ok63 = format!("{}.", "a".repeat(63));
    assert_eq!(name(&ok63).pack(vec![], &mut None, 0).unwrap().len(), 65);
}

#[test]
fn name_new_length_limit() {
    assert!(Name::new(&"a".repeat(255)).is_ok());
    assert!(matches!(Name::new(&"a".repeat(256)), Err(Error::ErrCalcLen)));
}

#[test]
fn name_compression_points_back() {
    let mut comp = Some(CompressionMap::new());
    let msg = name("a.example.").pack(vec![], &mut comp, 0).unwrap();
    assert_eq!(msg.len(), 11);
    {
        let m = comp.as_ref().unwrap();
        assert_eq!(m.get(b"a.example."), Some(0));
        assert_eq!(m.get(b"example."), Some(2));
        assert_eq!(m.get(b"other."), None);
    }
    let msg = name("b.example.").pack(msg, &mut comp, 0).unwrap();
    assert_eq!(&msg[11..], &[1, b'b', 0xC0, 2]);
    let mut n = Name::default();
    assert_eq!(n.unpack(&msg, 11), Ok(15));
    assert_eq!(n.data, "b.example.");
}

#[test]
fn name_unpack_roundtrip() {
    let msg = name("www.example.com.").pack(vec![0xFF, 0xFF], &mut None, 0).unwrap();
    let mut n = Name::default();
    assert_eq!(n.unpack(&msg, 2), Ok(msg.len()));
    assert_eq!(n.data, "www.example.com.");
    let mut r = Name::default();
    assert_eq!(r.unpack(&[0], 0), Ok(1));
    assert_eq!(r.data, ".");
}

#[test]
fn name_unpack_errors() {
    let mut n = name("keep.");
    assert_eq!(n.unpack(&[3, b'a'], 0), Err(Error::ErrCalcLen));
    assert_eq!(n.unpack(&[1, b'a'], 0), Err(Error::ErrBaseLen));
    assert_eq!(n.unpack(&[0x40], 0), Err(Error::ErrReserved));
    assert_eq!(n.unpack(&[0xC0], 0), Err(Error::ErrInvalidPtr));
    assert_eq!(n.unpack(&[0xC0, 0x00], 0), Err(Error::ErrTooManyPtr));
    assert_eq!(n.unpack(&[2, 0xFF, 0xFE, 0], 0), Err(Error::ErrUtf8));
    assert_eq!(n.unpack_compressed(&[0xC0, 0x00], 0, false), Err(Error::ErrCompressedSrv));
    assert_eq!(n.data, "keep.");
}

#[test]
fn name_too_long_on_the_wire() {
    let mut msg = vec![];
    for _ in 0..5 {
        msg.push(63);
        msg.extend(std::iter::repeat(b'x').take(63));
    }
    msg.push(0);
    let mut n = Name::default();
    assert_eq!(n.unpack(&msg, 0), Err(Error::ErrCalcLen));
}

#[test]
fn cname_ns_ptr_delegate_to_name() {
    let c = CnameResource { cname: name("x.y.") };
    assert_eq!(c.real_type(), DnsType::Cname);
    let msg = c.pack(vec![], &mut None, 0).unwrap();
    assert_eq!(msg, vec![1, b'x', 1, b'y', 0]);
    let mut back = CnameResource::default();
    assert_eq!(back.unpack(&msg, 0, 0), Ok(5));
    assert_eq!(back.cname.data, "x.y.");

    let n = NsResource { ns: name("ns.") };
    assert_eq!(n.real_type(), DnsType::Ns);
    let mut nb = NsResource::default();
    assert_eq!(nb.unpack(&n.pack(vec![], &mut None, 0).unwrap(), 0, 0), Ok(4));
    assert_eq!(nb.ns.data, "ns.");

    let p = PtrResource { ptr: name("p.") };
    assert_eq!(p.real_type(), DnsType::Ptr);
    let mut pb = PtrResource::default();
    assert_eq!(pb.unpack(&p.pack(vec![], &mut None, 0).unwrap(), 0, 0), Ok(3));
    assert_eq!(pb.ptr.data, "p.");
}

#[test]
fn srv_roundtrip() {
    let s = SrvResource { priority: 1, weight: 0x0203, port: 5353, target: name("host.local.") };
    assert_eq!(s.real_type(), DnsType::Srv);
    let mut comp = Some(CompressionMap::new());
    let msg = s.pack(vec![], &mut comp, 0).unwrap();
    assert_eq!(&msg[..6], &[0, 1, 2, 3, 0x14, 0xE9]);
    assert_eq!(comp.as_ref().unwrap().get(b"host.local."), None);
    let mut back = SrvResource::default();
    assert_eq!(back.unpack(&msg, 0, 0), Ok(msg.len()));
    assert_eq!((back.priority, back.weight, back.port), (1, 0x0203, 5353));
    assert_eq!(back.target.data, "host.local.");
}

#[test]
fn srv_refuses_compressed_target_and_keeps_read_fields() {
    let msg = [0, 9, 0, 8, 0, 7, 0xC0, 0];
    let mut s = SrvResource::default();
    assert_eq!(s.unpack(&msg, 0, 0), Err(Error::ErrCompressedSrv));
    assert_eq!((s.priority, s.weight, s.port), (9, 8, 7));
    let mut t = SrvResource::default();
    assert_eq!(t.unpack(&[0, 9, 0], 0, 0), Err(Error::ErrBaseLen));
    assert_eq!((t.priority, t.weight, t.port), (9, 0, 0));
}

#[test]
fn resource_text_forms() {
    assert_eq!(AResource { a: [10, 0, 255, 7] }.to_string(), "dnsmessage.AResource{A: [10, 0, 255, 7]}");
    let mut six = [0u8; 16];
    six[15] = 1;
    six[0] = 254;
    assert_eq!(
        AaaaResource { aaaa: six }.to_string(),
        "dnsmessage.AAAAResource{aaaa: [254, 0, 0, 0, 0, 0, 0, 0, 0, 0, 0, 0, 0, 0, 0, 1]}"
    );
    assert_eq!(CnameResource { cname: name("a.b.") }.to_string(), "dnsmessage.cnameresource{cname: a.b.}");
    assert_eq!(NsResource { ns: name("ns1.") }.to_string(), "dnsmessage.NSResource{NS: ns1.}");
    assert_eq!(PtrResource { ptr: name("p.") }.to_string(), "dnsmessage.PTRResource{PTR: p.}");
    let srv = SrvResource { priority: 10, weight: 0, port: 65535, target: name("t.") };
    assert_eq!(
        srv.to_string(),
        "dnsmessage.SRVResource{priority: 10, weight: 0, port: 65535, target: t.}"
    );
    assert_eq!(name("x.").to_string(), "x.");
}
