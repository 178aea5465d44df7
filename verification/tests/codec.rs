use feo_tracing::cobs::cobs_frame;
use feo_tracing::protocol::{truncate, EventInfo, TraceData, TracePacket, MAX_INFO_SIZE};
use feo_tracing::wire::{encode_packet, encode_u64};

fn varint(v: u64) -> Vec<u8> {
    let mut out = Vec::new();
    encode_u64(v, &mut out);
    out
}

fn framed(p: &TracePacket) -> Vec<u8> {
    let mut encoded = Vec::new();
    encode_packet(p, &mut encoded);
    cobs_frame(&encoded)
}

#[test]
fn varint_exact_values() {
    assert_eq!(varint(0), vec![0x00]);
    assert_eq!(varint(1), vec![0x01]);
    assert_eq!(varint(127), vec![0x7F]);
    assert_eq!(varint(128), vec![0x80, 0x01]);
    assert_eq!(varint(300), vec![0xAC, 0x02]);
    assert_eq!(
        varint(u64::MAX),
        vec![0xFF, 0xFF, 0xFF, 0xFF, 0xFF, 0xFF, 0xFF, 0xFF, 0xFF, 0x01]
    );
}

#[test]
fn varint_matches_postcard() {
    for v in [0u64, 1, 127, 128, 255, 300, 16384, 123456789, u64::MAX] {
        let expected = postcard::to_allocvec(&v).expect("postcard varint");
        assert_eq!(varint(v), expected);
    }
}

#[test]
fn cobs_exact_values() {
    assert_eq!(cobs_frame(&vec![]), vec![0x01, 0x00]);
    assert_eq!(cobs_frame(&vec![0x00]), vec![0x01, 0x01, 0x00]);
    assert_eq!(
        cobs_frame(&vec![0x04, 0x01, 0x00, 0x20, 0x30]),
        vec![0x03, 0x04, 0x01, 0x03, 0x20, 0x30, 0x00]
    );
    let long: Vec<u8> = vec![1u8; 254];
    let mut expected = vec![0xFFu8];
    expected.extend_from_slice(&long);
    expected.push(0x01);
    expected.push(0x00);
    assert_eq!(cobs_frame(&long), expected);
}

#[test]
fn cobs_matches_postcard() {
    // postcard serializes a byte slice as a varint length followed by the
    // bytes, then stuffs and delimits the whole message.
    let data: &[u8] = &[0x01, 0x00, 0x20, 0x30];
    let expected = postcard::to_allocvec_cobs(&data).expect("postcard cobs");
    assert_eq!(cobs_frame(&vec![0x04, 0x01, 0x00, 0x20, 0x30]), expected);

    for v in [0u64, 128, 300, u64::MAX] {
        let expected = postcard::to_allocvec_cobs(&v).expect("postcard cobs");
        assert_eq!(cobs_frame(&varint(v)), expected);
    }
}

#[test]
fn cobs_output_zero_free_until_delimiter() {
    let mut data: Vec<u8> = Vec::new();
    for i in 0..600u32 {
        data.push((i % 7) as u8);
    }
    let out = cobs_frame(&data);
    assert_eq!(out[out.len() - 1], 0);
    for i in 0..out.len() - 1 {
        assert_ne!(out[i], 0);
    }
}

#[test]
fn truncate_short_name_kept_whole() {
    let mut buf = [0u8; 256];
    let len = truncate("hello", &mut buf);
    assert_eq!(len, 5);
    assert_eq!(&buf[..5], b"hello");
}

#[test]
fn truncate_long_multibyte_name_cut_on_boundary() {
    // one ASCII byte, then 130 two-byte characters: 261 bytes in all, and
    // byte 256 falls inside a character.
    let mut name = String::from("a");
    for _ in 0..130 {
        name.push('\u{00E9}');
    }
    assert_eq!(name.len(), 261);
    let mut buf = [0u8; 256];
    let len = truncate(&name, &mut buf);
    assert!(len <= MAX_INFO_SIZE);
    assert_eq!(len, 255);
    assert_eq!(&buf[..len], &name.as_bytes()[..len]);
    assert!(std::str::from_utf8(&buf[..len]).is_ok());
}

#[test]
fn truncate_exact_capacity_boundary() {
    let mut name = String::new();
    for _ in 0..128 {
        name.push('\u{00E9}');
    }
    assert_eq!(name.len(), 256);
    let mut buf = [0u8; 256];
    let len = truncate(&name, &mut buf);
    assert_eq!(len, 256);
    assert_eq!(&buf[..], name.as_bytes());
}

#[test]
fn packet_encoding_exact_bytes() {
    let p = TracePacket::now_without_process(7, TraceData::Enter { span: 5 });
    let mut encoded = Vec::new();
    encode_packet(&p, &mut encoded);
    assert_eq!(encoded, vec![7, 0, 3, 5]);
    assert_eq!(framed(&p), vec![2, 7, 3, 3, 5, 0]);
}

#[test]
fn new_span_packet_encoding_exact_bytes() {
    let mut name_buf = [0u8; 256];
    let name_len = truncate("A", &mut name_buf);
    let p = TracePacket::now_with_data(
        100,
        TraceData::NewSpan { id: 1, name: name_buf, name_len, info: EventInfo::new() },
    );
    let mut encoded = Vec::new();
    encode_packet(&p, &mut encoded);
    // timestamp 100, process-context flag, tag 0, id 1, name length 1,
    // the byte 'A', empty info
    assert_eq!(encoded, vec![100, 1, 0, 1, 1, b'A', 0]);
}

#[test]
fn info_text_cut_under_capacity_rule() {
    let mut text = String::new();
    for _ in 0..300 {
        text.push('x');
    }
    let info = EventInfo::from_text(&text);
    assert_eq!(info.len(), MAX_INFO_SIZE);
    for i in 0..info.len() {
        assert_eq!(info.byte_at(i), b'x');
    }

    let empty = EventInfo::new();
    assert_eq!(empty.len(), 0);
}

#[test]
fn framed_varint_recovered_by_outside_decoder() {
    for v in [0u64, 5, 127, 128, 300, 65535, u64::MAX] {
        let mut bytes = cobs_frame(&varint(v));
        let decoded: u64 = postcard::from_bytes_cobs(&mut bytes).expect("unstuff and decode");
        assert_eq!(decoded, v);
    }
}
