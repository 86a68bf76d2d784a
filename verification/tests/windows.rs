use radeon_cs::router::{route, register_windows, Route};
use radeon_cs::pm4::Packet3;

#[test]
fn table_has_the_fixed_windows() {
    let ws = register_windows();
    assert_eq!(ws.len(), 7);
    let expected: [(u32, u32, Packet3); 7] = [
        (0x00008000, 0x0000ac00, Packet3::SET_CONFIG_REG),
        (0x00028000, 0x00029000, Packet3::SET_CONTEXT_REG),
        (0x00030000, 0x00038000, Packet3::SET_RESOURCE),
        (0x0003c000, 0x0003c600, Packet3::SET_SAMPLER),
        (0x0003cff0, 0x0003ff0c, Packet3::SET_CTL_CONST),
        (0x0003a200, 0x0003a500, Packet3::SET_LOOP_CONST),
        (0x0003a500, 0x0003a518, Packet3::SET_BOOL_CONST),
    ];
    for (w, (start, end, opcode)) in ws.iter().zip(expected.iter()) {
        assert_eq!(w.start, *start);
        assert_eq!(w.end, *end);
        assert_eq!(w.opcode, *opcode);
        assert!(w.start < w.end);
    }
}

#[test]
fn windows_never_overlap() {
    let ws = register_windows();
    for i in 0..ws.len() {
        for j in 0..ws.len() {
            if i != j {
                assert!(ws[i].end <= ws[j].start || ws[j].end <= ws[i].start);
            }
        }
    }
}

#[test]
fn each_window_routes_to_its_opcode() {
    let ws = register_windows();
    for w in &ws {
        // First register of the window: index 0.
        assert_eq!(route(w.start, 1), Route::Windowed { opcode: w.opcode, index: 0 });
        // Last register of the window.
        let last = w.end - 4;
        assert_eq!(
            route(last, 1),
            Route::Windowed { opcode: w.opcode, index: (last - w.start) >> 2 }
        );
    }
}

#[test]
fn window_bounds_are_start_inclusive_end_exclusive() {
    // One past the context window's end is outside every window.
    assert_eq!(route(0x29000, 1), Route::Legacy { word: (1 << 8) | (0x29000 >> 2) });
    // The shared boundary 0x3a500 belongs to the boolean-constant window,
    // not the loop-constant window that ends there.
    assert_eq!(
        route(0x3a500, 1),
        Route::Windowed { opcode: Packet3::SET_BOOL_CONST, index: 0 }
    );
}

#[test]
fn unmatched_address_takes_legacy_form() {
    // The legacy word packs the count into bits [.. 8] and the register
    // offset below; every address gets a result, there is no error.
    assert_eq!(route(0, 0), Route::Legacy { word: 0 });
    assert_eq!(route(0x100, 2), Route::Legacy { word: (2 << 8) | 0x40 });
    assert_eq!(
        route(0xFFFFFFFC, 1),
        Route::Legacy { word: (1 << 8) | (0xFFFFFFFCu32 >> 2) }
    );
}
