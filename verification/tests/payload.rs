use radeon_cs::cs::CS;
use radeon_cs::submit::{
    assemble, RADEON_CHUNK_ID_IB, RADEON_CHUNK_ID_RELOCS, RADEON_CHUNK_ID_FLAGS,
};

#[test]
fn three_chunks_in_fixed_order() {
    let mut cs = CS::default();
    cs.emit(0xC0001000);
    cs.emit(0);
    let chunks = assemble(&cs);
    assert_eq!(chunks.len(), 3);
    assert_eq!(chunks[0].chunk_id, RADEON_CHUNK_ID_IB);
    assert_eq!(chunks[1].chunk_id, RADEON_CHUNK_ID_RELOCS);
    assert_eq!(chunks[2].chunk_id, RADEON_CHUNK_ID_FLAGS);
}

#[test]
fn ib_chunk_carries_the_stream() {
    let mut cs = CS::default();
    cs.emit(0xC0001000);
    cs.emit(0x1234);
    let chunks = assemble(&cs);
    assert_eq!(chunks[0].length_dw, 2);
    assert_eq!(chunks[0].data.as_slice(), &[0xC0001000u32, 0x1234]);
}

#[test]
fn two_relocations_give_a_chunk_of_eight_words() {
    // Each relocation record occupies four 32-bit fields, so two records
    // declare a word count of eight.
    let mut cs = CS::default();
    cs.write_reloc(5, 0x2, 0x4, 0);
    cs.write_reloc(6, 0x4, 0x0, 1);
    let chunks = assemble(&cs);
    assert_eq!(chunks[1].length_dw, 8);
    assert_eq!(chunks[1].data.as_slice(), &[5u32, 0x2, 0x4, 0, 6, 0x4, 0, 1]);
}

#[test]
fn flags_chunk_is_two_zero_words() {
    let cs = CS::default();
    let chunks = assemble(&cs);
    assert_eq!(chunks[2].length_dw, 2);
    assert_eq!(chunks[2].data.as_slice(), &[0u32, 0]);
}

#[test]
fn empty_stream_assembles_empty_chunks() {
    let cs = CS::default();
    let chunks = assemble(&cs);
    assert_eq!(chunks[0].length_dw, 0);
    assert!(chunks[0].data.is_empty());
    assert_eq!(chunks[1].length_dw, 0);
    assert!(chunks[1].data.is_empty());
}
