use radeon_cs::cs::CS;
use radeon_cs::pm4::{split, DecodeErrorKind, Packet3, packet3, event_index, data_sel, int_sel};

#[test]
fn decode_single_packet() {
    // Type 3, opcode 0, length field 0: one body word follows.
    let stream = [0xC0000000u32, 0x00000000];
    let packets = split(&stream).unwrap();
    assert_eq!(packets.len(), 1);
    assert_eq!(packets[0].header, 0xC0000000);
    assert_eq!(packets[0].words.as_slice(), &[0u32]);
}

#[test]
fn decode_empty_stream() {
    let packets = split(&[]).unwrap();
    assert!(packets.is_empty());
}

#[test]
fn decode_truncated_stream() {
    // The lone header declares one body word; none remains.
    let stream = [0xC0000000u32];
    let err = split(&stream).unwrap_err();
    assert_eq!(err.kind, DecodeErrorKind::TruncatedStream);
    assert_eq!(err.offset, 0);
    assert!(err.packets.is_empty());
}

#[test]
fn decode_truncated_after_good_packet() {
    // One complete packet, then a header declaring two body words with
    // none remaining: the complete packet is kept, the error points at
    // the bad header.
    let stream = [0xC0000000u32, 0x1234, 0xC0010000];
    let err = split(&stream).unwrap_err();
    assert_eq!(err.kind, DecodeErrorKind::TruncatedStream);
    assert_eq!(err.offset, 2);
    assert_eq!(err.packets.len(), 1);
    assert_eq!(err.packets[0].header, 0xC0000000);
    assert_eq!(err.packets[0].words.as_slice(), &[0x1234u32]);
}

#[test]
fn decode_unsupported_type() {
    // A type-0 header after a complete packet: the error names that
    // exact position and the earlier packet stays intact.
    let stream = [0xC0000000u32, 0x1234, 0x00000000, 0x5678];
    let err = split(&stream).unwrap_err();
    assert_eq!(err.kind, DecodeErrorKind::UnsupportedType);
    assert_eq!(err.offset, 2);
    assert_eq!(err.packets.len(), 1);
    assert_eq!(err.packets[0].header, 0xC0000000);
    assert_eq!(err.packets[0].words.as_slice(), &[0x1234u32]);
}

#[test]
fn decode_unsupported_type_first_word() {
    for header in [0x00000000u32, 0x40000000, 0x80000000] {
        let stream = [header];
        let err = split(&stream).unwrap_err();
        assert_eq!(err.kind, DecodeErrorKind::UnsupportedType);
        assert_eq!(err.offset, 0);
        assert!(err.packets.is_empty());
    }
}

#[test]
fn round_trip_built_stream() {
    // Decoding what the builder emitted reproduces it packet for packet,
    // and re-flattening the packets gives back the words bit-identical.
    let mut cs = CS::default();
    cs.set_reg(0x28800, 0); // context window, one value
    cs.set_reg_n(0x28240, 2); // context window, two values
    cs.emit(0);
    cs.emit(0xAA55);
    cs.set_reg(0x3c000, 9); // sampler window
    cs.write(&[packet3(Packet3::NOP, 0, 0), 0x77]); // explicit NOP packet

    let words = cs.ib_words().clone();
    let packets = split(&words).unwrap();
    assert_eq!(packets.len(), 4);

    assert_eq!(packets[0].header, 0xC0016900);
    assert_eq!(packets[0].words.as_slice(), &[0x200u32, 0]);
    assert_eq!(packets[1].header, 0xC0026900);
    assert_eq!(packets[1].words.as_slice(), &[0x90u32, 0, 0xAA55]);
    assert_eq!(packets[2].header, 0xC0016E00);
    assert_eq!(packets[2].words.as_slice(), &[0u32, 9]);
    assert_eq!(packets[3].header, 0xC0001000);
    assert_eq!(packets[3].words.as_slice(), &[0x77u32]);

    let mut reflattened: Vec<u32> = Vec::new();
    for p in &packets {
        reflattened.push(p.header);
        reflattened.extend_from_slice(&p.words);
    }
    assert_eq!(reflattened, words);
}

#[test]
fn decode_length_field_counts_body_words() {
    // A header with length field n always consumes exactly n + 1 body
    // words.
    for n in [0u32, 1, 2, 7] {
        let header = packet3(Packet3::NOP, n, 0);
        let mut stream = vec![header];
        for i in 0..(n + 1) {
            stream.push(i);
        }
        let packets = split(&stream).unwrap();
        assert_eq!(packets.len(), 1);
        assert_eq!(packets[0].words.len() as u32, n + 1);
    }
}

#[test]
fn packet3_header_layout() {
    // Bits [31:30] type, [29:16] length, [15:8] opcode, [0] predicate.
    assert_eq!(packet3(Packet3::NOP, 0, 0), 0xC0001000);
    assert_eq!(packet3(Packet3::SET_CONTEXT_REG, 1, 0), 0xC0016900);
    assert_eq!(packet3(Packet3::SURFACE_SYNC, 3, 0), 0xC0034300);
    assert_eq!(packet3(Packet3::NOP, 0, 7), 0xC0001001);
    // The length and opcode fields truncate to 14 and 8 bits.
    assert_eq!(packet3(Packet3::NOP, 0x4001, 0), 0xC0011000);
    assert_eq!(packet3(Packet3::UNKNOWN(0xFF), 0, 0), 0xC000FF00);
}

#[test]
fn opcode_codes_round_trip() {
    assert_eq!(Packet3::from_code(0x10), Packet3::NOP);
    assert_eq!(Packet3::from_code(0x69), Packet3::SET_CONTEXT_REG);
    assert_eq!(Packet3::from_code(0x47), Packet3::EVENT_WRITE_EOP);
    // 0x14 names no opcode: decode reports it as unknown, not a failure.
    assert_eq!(Packet3::from_code(0x14), Packet3::UNKNOWN(0x14));
    for code in 0u32..=255 {
        let op = Packet3::from_code(code as u8);
        assert_eq!(op.code(), code);
    }
}

#[test]
fn decode_maximum_length_packet() {
    // The largest length field, 0x3FFF, declares 0x4000 body words.
    let header = packet3(Packet3::NOP, 0x3FFF, 0);
    let mut stream = vec![header];
    stream.resize(1 + 0x4000, 0xABCD);
    let packets = split(&stream).unwrap();
    assert_eq!(packets.len(), 1);
    assert_eq!(packets[0].words.len(), 0x4000);
    // One word short of the declared body is a truncation.
    stream.pop();
    let err = split(&stream).unwrap_err();
    assert_eq!(err.kind, DecodeErrorKind::TruncatedStream);
    assert_eq!(err.offset, 0);
}

#[test]
fn fence_field_helpers() {
    assert_eq!(event_index(5), 5 << 8);
    assert_eq!(data_sel(2), 2 << 29);
    assert_eq!(int_sel(1), 1 << 24);
}
