//! The register router: a fixed table of register address windows, each
//! owned by one packet opcode, and the routing of an absolute register
//! address to the window that contains it or to the legacy immediate
//! form when none does.

use vstd::prelude::*;
use crate::pm4::Packet3;

verus! {

pub const SET_CONFIG_REG__OFFSET: u32 = 0x00008000;

pub const SET_CONFIG_REG__END: u32 = 0x0000ac00;

pub const SET_CONTEXT_REG__OFFSET: u32 = 0x00028000;

pub const SET_CONTEXT_REG__END: u32 = 0x00029000;

pub const SET_RESOURCE__OFFSET: u32 = 0x00030000;

pub const SET_RESOURCE__END: u32 = 0x00038000;

pub const SET_SAMPLER__OFFSET: u32 = 0x0003c000;

pub const SET_SAMPLER__END: u32 = 0x0003c600;

pub const SET_CTL_CONST__OFFSET: u32 = 0x0003cff0;

pub const SET_CTL_CONST__END: u32 = 0x0003ff0c;

pub const SET_LOOP_CONST__OFFSET: u32 = 0x0003a200;

pub const SET_LOOP_CONST__END: u32 = 0x0003a500;

pub const SET_BOOL_CONST__OFFSET: u32 = 0x0003a500;

pub const SET_BOOL_CONST__END: u32 = 0x0003a518;

/// One register aperture: a contiguous address range `[start, end)`
/// addressed through one specific packet opcode.
#[derive(Clone, Copy, Debug)]
pub struct RegisterWindow {
    pub name: &'static str,
    pub start: u32,
    pub end: u32,
    pub opcode: Packet3,
}

/// The fixed, priority-ordered window table. It never changes for the
/// life of the process.
pub open spec fn spec_windows() -> Seq<RegisterWindow> {
    seq![
        (RegisterWindow {
            name: "config",
            start: SET_CONFIG_REG__OFFSET,
            end: SET_CONFIG_REG__END,
            opcode: Packet3::SET_CONFIG_REG,
        }),
        (RegisterWindow {
            name: "context",
            start: SET_CONTEXT_REG__OFFSET,
            end: SET_CONTEXT_REG__END,
            opcode: Packet3::SET_CONTEXT_REG,
        }),
        (RegisterWindow {
            name: "resource",
            start: SET_RESOURCE__OFFSET,
            end: SET_RESOURCE__END,
            opcode: Packet3::SET_RESOURCE,
        }),
        (RegisterWindow {
            name: "sampler",
            start: SET_SAMPLER__OFFSET,
            end: SET_SAMPLER__END,
            opcode: Packet3::SET_SAMPLER,
        }),
        (RegisterWindow {
            name: "ctl const",
            start: SET_CTL_CONST__OFFSET,
            end: SET_CTL_CONST__END,
            opcode: Packet3::SET_CTL_CONST,
        }),
        (RegisterWindow {
            name: "loop const",
            start: SET_LOOP_CONST__OFFSET,
            end: SET_LOOP_CONST__END,
            opcode: Packet3::SET_LOOP_CONST,
        }),
        (RegisterWindow {
            name: "bool const",
            start: SET_BOOL_CONST__OFFSET,
            end: SET_BOOL_CONST__END,
            opcode: Packet3::SET_BOOL_CONST,
        }),
    ]
}

/// The window table as an ordinary vector, for callers that want to walk
/// or display it.
pub fn register_windows() -> (ws: Vec<RegisterWindow>)
    ensures
        ws@ == spec_windows(),
{
    let ws = vec![
        RegisterWindow {
            name: "config",
            start: SET_CONFIG_REG__OFFSET,
            end: SET_CONFIG_REG__END,
            opcode: Packet3::SET_CONFIG_REG,
        },
        RegisterWindow {
            name: "context",
            start: SET_CONTEXT_REG__OFFSET,
            end: SET_CONTEXT_REG__END,
            opcode: Packet3::SET_CONTEXT_REG,
        },
        RegisterWindow {
            name: "resource",
            start: SET_RESOURCE__OFFSET,
            end: SET_RESOURCE__END,
            opcode: Packet3::SET_RESOURCE,
        },
        RegisterWindow {
            name: "sampler",
            start: SET_SAMPLER__OFFSET,
            end: SET_SAMPLER__END,
            opcode: Packet3::SET_SAMPLER,
        },
        RegisterWindow {
            name: "ctl const",
            start: SET_CTL_CONST__OFFSET,
            end: SET_CTL_CONST__END,
            opcode: Packet3::SET_CTL_CONST,
        },
        RegisterWindow {
            name: "loop const",
            start: SET_LOOP_CONST__OFFSET,
            end: SET_LOOP_CONST__END,
            opcode: Packet3::SET_LOOP_CONST,
        },
        RegisterWindow {
            name: "bool const",
            start: SET_BOOL_CONST__OFFSET,
            end: SET_BOOL_CONST__END,
            opcode: Packet3::SET_BOOL_CONST,
        },
    ];
    proof {
        assert(ws@ =~= spec_windows());
    }
    ws
}

/// The first window at or after position `i` whose range contains `reg`.
pub open spec fn spec_find_from(ws: Seq<RegisterWindow>, reg: u32, i: int) -> Option<RegisterWindow>
    decreases ws.len() - i,
{
    if i < 0 || i >= ws.len() {
        None
    } else if ws[i].start <= reg < ws[i].end {
        Some(ws[i])
    } else {
        spec_find_from(ws, reg, i + 1)
    }
}

/// The window the router chooses for `reg`: the first one in the fixed
/// table whose range contains it, if any.
pub open spec fn spec_route(reg: u32) -> Option<RegisterWindow> {
    spec_find_from(spec_windows(), reg, 0)
}

/// How a register write reaches the hardware.
#[derive(Clone, Copy, Debug, PartialEq, Eq, Structural)]
pub enum Route {
    /// The windowed form: a type-3 packet with this opcode, followed by
    /// the register's index within its window.
    Windowed { opcode: Packet3, index: u32 },
    /// The legacy immediate form for addresses outside every window: a
    /// single word, no type-3 header, and the caller appends the data
    /// words directly.
    Legacy { word: u32 },
}

/// Route a register address: scan the window table in priority order and
/// take the first window containing `reg`, computing the register's
/// 4-byte-granular index within it; fall back to the legacy immediate
/// form, which packs the count and the register offset into one word.
/// Every address routes somewhere; there is no error.
pub fn route(reg: u32, num: u32) -> (r: Route)
    ensures
        match spec_route(reg) {
            Some(w) => r == (Route::Windowed {
                opcode: w.opcode,
                index: ((reg - w.start) as u32) >> 2,
            }),
            None => r == (Route::Legacy { word: (num << 8) | (reg >> 2) }),
        },
{
    proof {
        reveal_with_fuel(spec_find_from, 9);
    }
    if reg >= SET_CONFIG_REG__OFFSET && reg < SET_CONFIG_REG__END {
        Route::Windowed { opcode: Packet3::SET_CONFIG_REG, index: (reg - SET_CONFIG_REG__OFFSET) >> 2 }
    } else if reg >= SET_CONTEXT_REG__OFFSET && reg < SET_CONTEXT_REG__END {
        Route::Windowed {
            opcode: Packet3::SET_CONTEXT_REG,
            index: (reg - SET_CONTEXT_REG__OFFSET) >> 2,
        }
    } else if reg >= SET_RESOURCE__OFFSET && reg < SET_RESOURCE__END {
        Route::Windowed { opcode: Packet3::SET_RESOURCE, index: (reg - SET_RESOURCE__OFFSET) >> 2 }
    } else if reg >= SET_SAMPLER__OFFSET && reg < SET_SAMPLER__END {
        Route::Windowed { opcode: Packet3::SET_SAMPLER, index: (reg - SET_SAMPLER__OFFSET) >> 2 }
    } else if reg >= SET_CTL_CONST__OFFSET && reg < SET_CTL_CONST__END {
        Route::Windowed { opcode: Packet3::SET_CTL_CONST, index: (reg - SET_CTL_CONST__OFFSET) >> 2 }
    } else if reg >= SET_LOOP_CONST__OFFSET && reg < SET_LOOP_CONST__END {
        Route::Windowed {
            opcode: Packet3::SET_LOOP_CONST,
            index: (reg - SET_LOOP_CONST__OFFSET) >> 2,
        }
    } else if reg >= SET_BOOL_CONST__OFFSET && reg < SET_BOOL_CONST__END {
        Route::Windowed {
            opcode: Packet3::SET_BOOL_CONST,
            index: (reg - SET_BOOL_CONST__OFFSET) >> 2,
        }
    } else {
        Route::Legacy { word: (num << 8) | (reg >> 2) }
    }
}

/// No two windows of the fixed table overlap: for any two distinct
/// positions, one window's range ends before the other's begins.
pub proof fn lemma_windows_disjoint()
    ensures
        forall|i: int, j: int|
            #![trigger spec_windows()[i], spec_windows()[j]]
            0 <= i < spec_windows().len() && 0 <= j < spec_windows().len() && i != j
                ==> spec_windows()[i].end <= spec_windows()[j].start || spec_windows()[j].end
                <= spec_windows()[i].start,
{
}

/// The router's choice is canonical: a chosen window is in the table and
/// is the unique window whose range contains the address; when no window
/// is chosen, no window in the table contains the address.
pub proof fn lemma_route_unique(reg: u32)
    ensures
        match spec_route(reg) {
            Some(w) => {
                &&& spec_windows().contains(w)
                &&& w.start <= reg < w.end
                &&& forall|i: int|
                    0 <= i < spec_windows().len() && (#[trigger] spec_windows()[i]).start <= reg
                        < spec_windows()[i].end ==> spec_windows()[i] == w
            },
            None => forall|i: int|
                0 <= i < spec_windows().len() ==> !((#[trigger] spec_windows()[i]).start <= reg
                    < spec_windows()[i].end),
        },
{
    reveal_with_fuel(spec_find_from, 9);
    match spec_route(reg) {
        Some(w) => {
            assert(spec_windows().contains(w)) by {
                if SET_CONFIG_REG__OFFSET <= reg < SET_CONFIG_REG__END {
                    assert(spec_windows()[0] == w);
                } else if SET_CONTEXT_REG__OFFSET <= reg < SET_CONTEXT_REG__END {
                    assert(spec_windows()[1] == w);
                } else if SET_RESOURCE__OFFSET <= reg < SET_RESOURCE__END {
                    assert(spec_windows()[2] == w);
                } else if SET_SAMPLER__OFFSET <= reg < SET_SAMPLER__END {
                    assert(spec_windows()[3] == w);
                } else if SET_CTL_CONST__OFFSET <= reg < SET_CTL_CONST__END {
                    assert(spec_windows()[4] == w);
                } else if SET_LOOP_CONST__OFFSET <= reg < SET_LOOP_CONST__END {
                    assert(spec_windows()[5] == w);
                } else {
                    assert(spec_windows()[6] == w);
                }
            }
        },
        None => {
        },
    }
}

} // verus!
