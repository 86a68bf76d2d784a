use radeon_cs::cs::CS;

#[test]
fn set_reg_context_window() {
    // 0x28800 lies in the context-register window [0x28000, 0x29000):
    // header with opcode SET_CONTEXT_REG (0x69) and length field 1, then
    // index (0x28800 - 0x28000) >> 2 = 0x200, then the value 0.
    let mut cs = CS::default();
    cs.set_reg(0x28800, 0);
    assert_eq!(cs.ib_words().as_slice(), &[0xC0016900u32, 0x200, 0]);
}

#[test]
fn set_reg_config_window() {
    // 0x8000 is the first config register: index 0.
    let mut cs = CS::default();
    cs.set_reg(0x8000, 0xdeadbeef);
    assert_eq!(cs.ib_words().as_slice(), &[0xC0016800u32, 0, 0xdeadbeef]);
}

#[test]
fn set_reg_n_vector_write() {
    // A two-word state block at 0x28240 (PA_SC_GENERIC_SCISSOR_TL):
    // header length field 2, index (0x28240 - 0x28000) >> 2 = 0x90,
    // then the two values the caller emits.
    let mut cs = CS::default();
    cs.set_reg_n(0x28240, 2);
    cs.emit(0);
    cs.emit(0x11);
    assert_eq!(cs.ib_words().as_slice(), &[0xC0026900u32, 0x90, 0, 0x11]);
}

#[test]
fn set_reg_legacy_fallback() {
    // 0x100 lies outside every window: the legacy immediate form packs
    // the count and the register offset into one word, with no header.
    let mut cs = CS::default();
    cs.set_reg(0x100, 5);
    assert_eq!(cs.ib_words().as_slice(), &[(1u32 << 8) | (0x100 >> 2), 5]);
}

#[test]
fn emit_and_write_keep_order() {
    let mut cs = CS::default();
    cs.emit(1);
    cs.write(&[2, 3, 4]);
    cs.emit(5);
    assert_eq!(cs.ib_words().as_slice(), &[1u32, 2, 3, 4, 5]);
}

#[test]
fn write_equals_repeated_emit() {
    let mut by_write = CS::default();
    by_write.write(&[9, 8, 7]);
    let mut by_emit = CS::default();
    by_emit.emit(9);
    by_emit.emit(8);
    by_emit.emit(7);
    assert_eq!(by_write.ib_words(), by_emit.ib_words());
}

#[test]
fn labels_attach_to_positions() {
    let mut cs = CS::default();
    cs.write_label("start");
    cs.emit(7);
    cs.write_label("after first");
    assert_eq!(cs.label_at(0), Some(&"start".to_string()));
    assert_eq!(cs.label_at(1), Some(&"after first".to_string()));
    assert_eq!(cs.label_at(2), None);
}

#[test]
fn later_label_overwrites_earlier() {
    let mut cs = CS::default();
    cs.write_label("first");
    cs.write_label("second");
    assert_eq!(cs.label_at(0), Some(&"second".to_string()));
}

#[test]
fn write_reloc_appends_records_in_order() {
    let mut cs = CS::default();
    cs.write_reloc(10, 0x2, 0x4, 0);
    cs.write_reloc(11, 0x4, 0x0, 1);
    let rs = cs.reloc_records();
    assert_eq!(rs.len(), 2);
    assert_eq!(
        (rs[0].handle, rs[0].read_domains, rs[0].write_domain, rs[0].flags),
        (10, 0x2, 0x4, 0)
    );
    assert_eq!(
        (rs[1].handle, rs[1].read_domains, rs[1].write_domain, rs[1].flags),
        (11, 0x4, 0x0, 1)
    );
    // No command word was emitted by either call.
    assert!(cs.ib_words().is_empty());
}

#[test]
fn default_stream_is_empty() {
    let cs = CS::default();
    assert!(cs.ib_words().is_empty());
    assert!(cs.reloc_records().is_empty());
    assert_eq!(cs.label_at(0), None);
}
