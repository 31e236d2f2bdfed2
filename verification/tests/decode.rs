use mcast_core::igmp::{decode_igmp, decode_ip_header, DecodeError, IpHdr};

fn sample_header() -> Vec<u8> {
    vec![
        0x45, 0x00, // version 4, IHL 5, TOS 0
        0x12, 0x34, // total length
        0xab, 0xcd, // identification
        0x40, 0x00, // flags + fragment offset
        0x01, 0x02, // TTL, protocol (IGMP)
        0xbe, 0xef, // checksum
        0xc0, 0xa8, 0x01, 0x01, // source 192.168.1.1
        0xe0, 0x00, 0x00, 0x16, // destination 224.0.0.22
    ]
}

#[test]
fn decode_rejects_anything_shorter_than_twenty_bytes() {
    for len in 0..20usize {
        let buf = vec![0u8; len];
        assert_eq!(decode_ip_header(&buf), Err(DecodeError::TruncatedPacket));
    }
}

#[test]
fn decode_accepts_exactly_twenty_bytes() {
    let buf = sample_header();
    assert_eq!(buf.len(), 20);
    assert!(decode_ip_header(&buf).is_ok());
}

#[test]
fn decode_round_trips_big_endian_fields() {
    let h = decode_ip_header(&sample_header()).unwrap();
    assert_eq!(h.ihl_version, 0x45);
    assert_eq!(h.tos, 0x00);
    assert_eq!(h.tot_len, 0x1234);
    assert_eq!(h.id, 0xabcd);
    assert_eq!(h.frag_off, 0x4000);
    assert_eq!(h.ttl, 0x01);
    assert_eq!(h.protocol, 0x02);
    assert_eq!(h.check, 0xbeef);
    assert_eq!(h.saddr, 0xc0a8_0101);
    assert_eq!(h.daddr, 0xe000_0016);
}

#[test]
fn decode_reads_fields_at_fixed_offsets() {
    // A distinct byte at every offset pins each field to its place.
    let buf: Vec<u8> = (0u8..20).collect();
    let h = decode_ip_header(&buf).unwrap();
    assert_eq!(h.ihl_version, 0);
    assert_eq!(h.tos, 1);
    assert_eq!(h.tot_len, 0x0203);
    assert_eq!(h.id, 0x0405);
    assert_eq!(h.frag_off, 0x0607);
    assert_eq!(h.ttl, 8);
    assert_eq!(h.protocol, 9);
    assert_eq!(h.check, 0x0a0b);
    assert_eq!(h.saddr, 0x0c0d_0e0f);
    assert_eq!(h.daddr, 0x1011_1213);
}

#[test]
fn decode_method_fills_header_in_place() {
    let mut h = IpHdr::zeroed();
    assert_eq!(h.decode(&sample_header()), Ok(()));
    assert_eq!(h.tot_len, 0x1234);

    let before = h;
    assert_eq!(h.decode(&vec![0u8; 19]), Err(DecodeError::TruncatedPacket));
    assert_eq!(h, before);
}

#[test]
fn version_and_ihl_split_the_first_byte() {
    let h = decode_ip_header(&sample_header()).unwrap();
    assert_eq!(h.version(), 4);
    assert_eq!(h.ihl(), 5);
    assert_eq!(h.payload_offset(), 20);
}

#[test]
fn igmp_message_starts_after_the_ip_header() {
    // IHL 6: the IGMP payload begins at byte 24, not at byte 0 or 20.
    let mut buf = sample_header();
    buf[0] = 0x46;
    buf.extend_from_slice(&[0u8; 8]);
    let (h, off) = decode_igmp(&buf).unwrap();
    assert_eq!(h.ihl(), 6);
    assert_eq!(off, 24);
}

#[test]
fn igmp_decode_rejects_short_buffers() {
    assert_eq!(decode_igmp(&vec![0u8; 12]), Err(DecodeError::TruncatedPacket));
}

#[test]
fn igmp_decode_rejects_bad_header_lengths() {
    // IHL 4 promises a header shorter than the fixed 20 bytes.
    let mut buf = sample_header();
    buf[0] = 0x44;
    assert_eq!(decode_igmp(&buf), Err(DecodeError::BadHeaderLength));

    // IHL 15 promises 60 header bytes that a 20-byte buffer lacks.
    let mut buf = sample_header();
    buf[0] = 0x4f;
    assert_eq!(decode_igmp(&buf), Err(DecodeError::BadHeaderLength));
}

#[test]
fn igmp_decode_accepts_minimal_header() {
    let buf = sample_header();
    let (h, off) = decode_igmp(&buf).unwrap();
    assert_eq!(off, 20);
    assert_eq!(h.daddr, 0xe000_0016);
}
