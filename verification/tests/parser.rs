use remarkers::error::ParseError;
use remarkers::model::{BrushType, Color, PointExtra, ScalarBits, Version};
use remarkers::page::parse;
use remarkers::primitives::{read_header, read_varuint};
use remarkers::v6::{read_author_ids, read_block_v6, read_page_info};

fn header(digit: u8) -> Vec<u8> {
    let mut v = b"reMarkable .lines file, version=".to_vec();
    v.push(digit);
    v.extend_from_slice(b"          ");
    assert_eq!(v.len(), 43);
    v
}

fn push_u32(v: &mut Vec<u8>, x: u32) {
    v.extend_from_slice(&x.to_le_bytes());
}

fn push_u16(v: &mut Vec<u8>, x: u16) {
    v.extend_from_slice(&x.to_le_bytes());
}

fn push_f32(v: &mut Vec<u8>, x: f32) {
    v.extend_from_slice(&x.to_le_bytes());
}

fn push_f64(v: &mut Vec<u8>, x: f64) {
    v.extend_from_slice(&x.to_le_bytes());
}

/// A v6 block: length prefix, meta bytes, payload.
fn push_block(v: &mut Vec<u8>, current_version: u8, block_type: u8, payload: &[u8]) {
    push_u32(v, payload.len() as u32);
    v.push(0); // unknown
    v.push(0); // min_version
    v.push(current_version);
    v.push(block_type);
    v.extend_from_slice(payload);
}

/// A tagged CrdtId with both parts zero.
fn push_zero_id(v: &mut Vec<u8>, index: u8) {
    v.push((index << 4) | 0x0f);
    v.push(0); // part1
    v.push(0); // part2 varint
}

/// The payload of a scene-item block holding one line sub-block.
fn scene_item_line_payload(brush: u32, color: u32, points: &[u8]) -> Vec<u8> {
    let mut sub = Vec::new();
    sub.push(0x03); // item type: line
    sub.push(0x14);
    push_u32(&mut sub, brush);
    sub.push(0x24);
    push_u32(&mut sub, color);
    sub.push(0x38);
    push_f64(&mut sub, 1.5);
    sub.push(0x44);
    push_f32(&mut sub, 0.0);
    sub.push(0x5c);
    push_u32(&mut sub, points.len() as u32);
    sub.extend_from_slice(points);

    let mut payload = Vec::new();
    push_zero_id(&mut payload, 1);
    push_zero_id(&mut payload, 2);
    push_zero_id(&mut payload, 3);
    push_zero_id(&mut payload, 4);
    payload.push(0x54);
    push_u32(&mut payload, 0); // deleted length
    payload.push(0x6c);
    push_u32(&mut payload, sub.len() as u32);
    payload.extend_from_slice(&sub);
    payload
}

/// One version-2 point: `x`, `y` as singles, then four raw integers.
fn push_point_v2(v: &mut Vec<u8>, x: f32, y: f32, speed: u16, width: u16, dir: u8, pressure: u8) {
    push_f32(v, x);
    push_f32(v, y);
    push_u16(v, speed);
    push_u16(v, width);
    v.push(dir);
    v.push(pressure);
}

#[test]
fn varuint_table() {
    let cases: [(&[u8], u64); 10] = [
        (&[0x00], 0),
        (&[0x01], 1),
        (&[0x12], 18),
        (&[0x80, 0x01], 128),
        (&[0x81, 0x01], 129),
        (&[0xf0, 0x48], 9328),
        (&[0xff, 0x55], 11007),
        (&[0x80, 0x80, 0x01], 16384),
        (&[0x80, 0xa6, 0x01], 21248),
        (&[0xc7, 0x96, 0x4d], 1264455),
    ];
    for (bytes, expected) in cases {
        let (consumed, value) = read_varuint(bytes, 0, bytes.len()).unwrap();
        assert_eq!(consumed, bytes.len());
        assert_eq!(value, expected);
    }
}

#[test]
fn varuint_overflow_past_ten_bytes() {
    let bytes = [0x80u8; 11];
    assert_eq!(
        read_varuint(&bytes, 0, bytes.len()),
        Err(ParseError::VarintOverflow)
    );
}

#[test]
fn varuint_unexpected_end() {
    let bytes = [0x80u8];
    assert_eq!(
        read_varuint(&bytes, 0, bytes.len()),
        Err(ParseError::UnexpectedEnd)
    );
}

#[test]
fn header_dispatches_v5() {
    let mut bytes = header(b'5');
    push_u32(&mut bytes, 0); // zero layers
    let (consumed, (version, layers)) = parse(&bytes).unwrap();
    assert_eq!(consumed, bytes.len());
    assert_eq!(version, Version::V5);
    assert_eq!(layers.len(), 0);
}

#[test]
fn header_dispatches_v6() {
    let mut bytes = header(b'6');
    push_block(&mut bytes, 0, 0x42, &[0xaa, 0xbb]);
    let (consumed, (version, layers)) = parse(&bytes).unwrap();
    assert_eq!(consumed, bytes.len());
    assert_eq!(version, Version::V6);
    assert_eq!(layers.len(), 1);
    assert_eq!(layers[0].lines.len(), 0);
}

#[test]
fn header_v3_is_unsupported() {
    let bytes = header(b'3');
    assert!(matches!(parse(&bytes), Err(ParseError::UnsupportedVersion)));
}

#[test]
fn header_unknown_digit() {
    let bytes = header(b'7');
    assert!(matches!(parse(&bytes), Err(ParseError::BadHeader)));
}

#[test]
fn header_bad_prelude() {
    let mut bytes = header(b'5');
    bytes[0] = b'X';
    push_u32(&mut bytes, 0);
    assert!(matches!(parse(&bytes), Err(ParseError::BadHeader)));
}

#[test]
fn header_bad_padding() {
    let mut bytes = header(b'5');
    bytes[40] = b'!';
    push_u32(&mut bytes, 0);
    assert!(matches!(parse(&bytes), Err(ParseError::BadHeader)));
}

#[test]
fn header_too_short() {
    let bytes = b"reMarkable .lines".to_vec();
    assert!(matches!(parse(&bytes), Err(ParseError::UnexpectedEnd)));
    assert!(matches!(
        read_header(&bytes, 0, bytes.len()),
        Err(ParseError::UnexpectedEnd)
    ));
}

#[test]
fn v5_minimal_page() {
    let mut bytes = header(b'5');
    push_u32(&mut bytes, 1); // one layer
    push_u32(&mut bytes, 1); // one line
    push_u32(&mut bytes, 0x04); // fineliner
    push_u32(&mut bytes, 0); // black
    push_u32(&mut bytes, 0); // padding
    push_f32(&mut bytes, 2.0); // brush size
    push_u32(&mut bytes, 0); // padding
    push_u32(&mut bytes, 2); // two points
    for (x, y) in [(10.0f32, 20.0f32), (11.0, 22.0)] {
        push_f32(&mut bytes, x);
        push_f32(&mut bytes, y);
        push_f32(&mut bytes, 0.0); // speed
        push_f32(&mut bytes, 0.0); // direction
        push_f32(&mut bytes, 0.0); // width
        push_f32(&mut bytes, 0.0); // pressure
    }
    let (consumed, (version, layers)) = parse(&bytes).unwrap();
    assert_eq!(consumed, bytes.len());
    assert_eq!(version, Version::V5);
    assert_eq!(layers.len(), 1);
    assert_eq!(layers[0].lines.len(), 1);
    let line = &layers[0].lines[0];
    assert_eq!(line.brush_type, BrushType::Fineliner);
    assert_eq!(line.color, Color::Black);
    assert_eq!(line.brush_size, ScalarBits::Single(2.0f32.to_bits()));
    assert_eq!(line.points.len(), 2);
    assert_eq!(line.points[0].x_bits, 10.0f32.to_bits());
    assert_eq!(line.points[0].y_bits, 20.0f32.to_bits());
    assert_eq!(line.points[1].x_bits, 11.0f32.to_bits());
    assert_eq!(line.points[1].y_bits, 22.0f32.to_bits());
    assert_eq!(
        line.points[0].extra,
        PointExtra::Wide {
            speed_bits: 0,
            direction_bits: 0,
            width_bits: 0,
            pressure_bits: 0,
        }
    );
}

#[test]
fn v5_point_channel_order() {
    // On the v5 wire the channels follow as speed, direction, width,
    // pressure; distinct values pin the order.
    let mut bytes = header(b'5');
    push_u32(&mut bytes, 1);
    push_u32(&mut bytes, 1);
    push_u32(&mut bytes, 0x03); // marker
    push_u32(&mut bytes, 1); // grey
    push_u32(&mut bytes, 0);
    push_f32(&mut bytes, 1.0);
    push_u32(&mut bytes, 0);
    push_u32(&mut bytes, 1);
    push_f32(&mut bytes, 1.0); // x
    push_f32(&mut bytes, 2.0); // y
    push_f32(&mut bytes, 3.0); // speed
    push_f32(&mut bytes, 4.0); // direction
    push_f32(&mut bytes, 5.0); // width
    push_f32(&mut bytes, 6.0); // pressure
    let (_, (_, layers)) = parse(&bytes).unwrap();
    let p = &layers[0].lines[0].points[0];
    assert_eq!(p.x_bits, 1.0f32.to_bits());
    assert_eq!(p.y_bits, 2.0f32.to_bits());
    assert_eq!(
        p.extra,
        PointExtra::Wide {
            speed_bits: 3.0f32.to_bits(),
            direction_bits: 4.0f32.to_bits(),
            width_bits: 5.0f32.to_bits(),
            pressure_bits: 6.0f32.to_bits(),
        }
    );
}

#[test]
fn v6_scene_item_version_1_channel_order() {
    // The 24-byte point layout orders the channels as speed, width,
    // direction, pressure -- width and direction trade places against v5.
    let mut points = Vec::new();
    push_f32(&mut points, 1.0); // x
    push_f32(&mut points, 2.0); // y
    push_f32(&mut points, 3.0); // speed
    push_f32(&mut points, 4.0); // width
    push_f32(&mut points, 5.0); // direction
    push_f32(&mut points, 6.0); // pressure
    assert_eq!(points.len(), 24);
    let payload = scene_item_line_payload(0x15, 7, &points);
    let mut bytes = header(b'6');
    push_block(&mut bytes, 1, 0x05, &payload);

    let (consumed, (_, layers)) = parse(&bytes).unwrap();
    assert_eq!(consumed, bytes.len());
    let line = &layers[0].lines[0];
    assert_eq!(line.brush_type, BrushType::Calligraphy);
    assert_eq!(line.color, Color::Red);
    assert_eq!(line.points.len(), 1);
    let p = &line.points[0];
    assert_eq!(p.x_bits, 1.0f32.to_bits());
    assert_eq!(p.y_bits, 2.0f32.to_bits());
    assert_eq!(
        p.extra,
        PointExtra::Wide {
            speed_bits: 3.0f32.to_bits(),
            width_bits: 4.0f32.to_bits(),
            direction_bits: 5.0f32.to_bits(),
            pressure_bits: 6.0f32.to_bits(),
        }
    );
}

#[test]
fn v5_unknown_brush_code() {
    let mut bytes = header(b'5');
    push_u32(&mut bytes, 1);
    push_u32(&mut bytes, 1);
    push_u32(&mut bytes, 0x42); // no such brush
    push_u32(&mut bytes, 0);
    push_u32(&mut bytes, 0);
    push_f32(&mut bytes, 2.0);
    push_u32(&mut bytes, 0);
    push_u32(&mut bytes, 0);
    assert!(matches!(parse(&bytes), Err(ParseError::UnknownEnum)));
}

#[test]
fn v5_trailing_bytes_are_reported() {
    let mut bytes = header(b'5');
    push_u32(&mut bytes, 0);
    let body_end = bytes.len();
    bytes.extend_from_slice(&[1, 2, 3]);
    let (consumed, _) = parse(&bytes).unwrap();
    assert_eq!(consumed, body_end);
    assert_eq!(bytes.len() - consumed, 3);
}

#[test]
fn v6_page_info_only() {
    let mut payload = Vec::new();
    payload.push(0x14);
    push_u32(&mut payload, 1); // loads
    payload.push(0x24);
    push_u32(&mut payload, 0); // merges
    payload.push(0x34);
    push_u32(&mut payload, 0); // text chars
    payload.push(0x44);
    push_u32(&mut payload, 0); // text lines
    let (consumed, info) = read_page_info(&payload, 0, payload.len()).unwrap();
    assert_eq!(consumed, payload.len());
    assert_eq!(info.loads_count, 1);
    assert_eq!(info.merges_count, 0);
    assert_eq!(info.text_chars_count, 0);
    assert_eq!(info.text_lines_count, 0);
    assert_eq!(info.extra, None);

    let mut bytes = header(b'6');
    push_block(&mut bytes, 1, 0x0a, &payload);
    let (consumed, (version, layers)) = parse(&bytes).unwrap();
    assert_eq!(consumed, bytes.len());
    assert_eq!(version, Version::V6);
    assert_eq!(layers.len(), 1);
    assert_eq!(layers[0].lines.len(), 0);
}

#[test]
fn v6_scene_item_version_2() {
    let mut points = Vec::new();
    push_point_v2(&mut points, 0.0, 0.0, 0, 255, 0, 0);
    push_point_v2(&mut points, 0.0, 0.0, 0, 255, 0, 0);
    assert_eq!(points.len(), 28);
    let payload = scene_item_line_payload(0x11, 6, &points);
    let mut bytes = header(b'6');
    push_block(&mut bytes, 2, 0x05, &payload);

    let (consumed, (version, layers)) = parse(&bytes).unwrap();
    assert_eq!(consumed, bytes.len());
    assert_eq!(version, Version::V6);
    assert_eq!(layers.len(), 1);
    assert_eq!(layers[0].lines.len(), 1);
    let line = &layers[0].lines[0];
    assert_eq!(line.brush_type, BrushType::Fineliner);
    assert_eq!(line.color, Color::Blue);
    assert_eq!(line.brush_size, ScalarBits::Double(1.5f64.to_bits()));
    assert_eq!(line.points.len(), 2);
    for p in &line.points {
        assert_eq!(p.x_bits, 0.0f32.to_bits());
        assert_eq!(p.y_bits, 0.0f32.to_bits());
        assert_eq!(
            p.extra,
            PointExtra::Narrow { speed: 0, width: 255, direction: 0, pressure: 0 }
        );
    }
}

#[test]
fn v6_point_segment_remainder_is_truncated() {
    // 30 bytes at 14 bytes per point: two points and two ignored bytes.
    let mut points = Vec::new();
    push_point_v2(&mut points, 1.0, 2.0, 3, 4, 5, 6);
    push_point_v2(&mut points, 7.0, 8.0, 9, 10, 11, 12);
    points.extend_from_slice(&[0xde, 0xad]);
    assert_eq!(points.len(), 30);
    let payload = scene_item_line_payload(0x11, 6, &points);
    let mut bytes = header(b'6');
    push_block(&mut bytes, 2, 0x05, &payload);

    let (consumed, (_version, layers)) = parse(&bytes).unwrap();
    assert_eq!(consumed, bytes.len());
    assert_eq!(layers[0].lines.len(), 1);
    assert_eq!(layers[0].lines[0].points.len(), 2);
    assert_eq!(layers[0].lines[0].points[1].x_bits, 7.0f32.to_bits());
}

#[test]
fn v6_unknown_scene_item_version() {
    let mut points = Vec::new();
    push_point_v2(&mut points, 0.0, 0.0, 0, 0, 0, 0);
    let payload = scene_item_line_payload(0x11, 6, &points);
    let mut bytes = header(b'6');
    push_block(&mut bytes, 3, 0x05, &payload);
    assert!(matches!(parse(&bytes), Err(ParseError::UnknownBlockVersion)));
}

#[test]
fn v6_tolerant_skip_of_non_line_item() {
    // First block: a scene item whose sub-block is not a line.
    let mut sub = vec![0xffu8, 1, 2, 3];
    let mut payload = Vec::new();
    push_zero_id(&mut payload, 1);
    push_zero_id(&mut payload, 2);
    push_zero_id(&mut payload, 3);
    push_zero_id(&mut payload, 4);
    payload.push(0x54);
    push_u32(&mut payload, 0);
    payload.push(0x6c);
    push_u32(&mut payload, sub.len() as u32);
    payload.append(&mut sub);

    // Second block: a proper line.
    let mut points = Vec::new();
    push_point_v2(&mut points, 0.0, 0.0, 0, 255, 0, 0);
    let payload2 = scene_item_line_payload(0x11, 6, &points);

    let mut bytes = header(b'6');
    push_block(&mut bytes, 2, 0x05, &payload);
    push_block(&mut bytes, 2, 0x05, &payload2);

    let (consumed, (_version, layers)) = parse(&bytes).unwrap();
    assert_eq!(consumed, bytes.len());
    assert_eq!(layers.len(), 1);
    assert_eq!(layers[0].lines.len(), 1);
    assert_eq!(layers[0].lines[0].color, Color::Blue);
}

#[test]
fn v6_scene_item_without_subblock_yields_no_line() {
    let mut payload = Vec::new();
    push_zero_id(&mut payload, 1);
    push_zero_id(&mut payload, 2);
    push_zero_id(&mut payload, 3);
    push_zero_id(&mut payload, 4);
    payload.push(0x54);
    push_u32(&mut payload, 0);
    let mut bytes = header(b'6');
    push_block(&mut bytes, 2, 0x05, &payload);
    let (consumed, (_version, layers)) = parse(&bytes).unwrap();
    assert_eq!(consumed, bytes.len());
    assert_eq!(layers[0].lines.len(), 0);
}

#[test]
fn v6_only_unknown_blocks_give_one_empty_layer() {
    let mut bytes = header(b'6');
    push_block(&mut bytes, 0, 0x42, &[1, 2, 3, 4]);
    push_block(&mut bytes, 0, 0x77, &[]);
    push_block(&mut bytes, 0, 0x01, &[9; 17]);
    let (consumed, (version, layers)) = parse(&bytes).unwrap();
    assert_eq!(consumed, bytes.len());
    assert_eq!(version, Version::V6);
    assert_eq!(layers.len(), 1);
    assert_eq!(layers[0].lines.len(), 0);
}

#[test]
fn v6_empty_body_fails() {
    let bytes = header(b'6');
    assert!(matches!(parse(&bytes), Err(ParseError::UnexpectedEnd)));
}

#[test]
fn v6_block_longer_than_buffer_is_truncated() {
    let mut bytes = header(b'6');
    push_u32(&mut bytes, 100); // block claims 100 payload bytes
    bytes.extend_from_slice(&[0, 0, 0, 0x42]); // meta only, no payload
    assert!(matches!(parse(&bytes), Err(ParseError::Truncated)));
}

#[test]
fn v6_scene_item_tag_mismatch_is_strict() {
    // Payload starts with a wrong tag where parent id is expected.
    let payload = [0x24u8, 0, 0, 0, 0];
    let mut bytes = header(b'6');
    push_block(&mut bytes, 2, 0x05, &payload);
    assert!(matches!(parse(&bytes), Err(ParseError::TagMismatch)));
}

#[test]
fn v6_author_block_is_parsed_and_drained() {
    let mut entry = Vec::new();
    entry.push(16); // uuid length varint
    entry.extend_from_slice(&[0xab; 16]);
    push_u16(&mut entry, 42); // author id
    let mut payload = Vec::new();
    payload.push(1); // one sub-block
    payload.push(0x0c);
    push_u32(&mut payload, entry.len() as u32);
    payload.extend_from_slice(&entry);

    let (consumed, ids) = read_author_ids(&payload, 0, payload.len()).unwrap();
    assert_eq!(consumed, payload.len());
    assert_eq!(ids, vec![42]);

    let (consumed, item) = read_block_v6(
        &{
            let mut b = Vec::new();
            push_block(&mut b, 1, 0x09, &payload);
            b
        },
        0,
        payload.len() + 8,
    )
    .unwrap();
    assert_eq!(consumed, payload.len() + 8);
    assert!(item.is_none());

    let mut bytes = header(b'6');
    push_block(&mut bytes, 1, 0x09, &payload);
    let (consumed, (_version, layers)) = parse(&bytes).unwrap();
    assert_eq!(consumed, bytes.len());
    assert_eq!(layers[0].lines.len(), 0);
}

#[test]
fn v6_garbled_author_block_is_tolerated() {
    // An author-info block whose payload is nonsense still drains cleanly.
    let mut bytes = header(b'6');
    push_block(&mut bytes, 1, 0x09, &[0xff, 0xff, 0xff]);
    let (consumed, (_version, layers)) = parse(&bytes).unwrap();
    assert_eq!(consumed, bytes.len());
    assert_eq!(layers[0].lines.len(), 0);
}

#[test]
fn v6_color_code_out_of_range() {
    let mut points = Vec::new();
    push_point_v2(&mut points, 0.0, 0.0, 0, 0, 0, 0);
    let payload = scene_item_line_payload(0x11, 9, &points);
    let mut bytes = header(b'6');
    push_block(&mut bytes, 2, 0x05, &payload);
    assert!(matches!(parse(&bytes), Err(ParseError::UnknownEnum)));
}
