//! The PM4 packet wire format: opcode space, type-3 header encoding, and
//! the packet decoder that segments a raw word stream back into packets.

use vstd::prelude::*;

verus! {

/// The type-3 packet opcode space. The hardware defines more opcodes than
/// this library ever emits, so decoding maps an unrecognized byte to
/// `UNKNOWN` instead of failing.
#[allow(non_camel_case_types)]
#[derive(Clone, Copy, Debug, PartialEq, Eq, Structural)]
pub enum Packet3 {
    NOP,
    SET_BASE,
    CLEAR_STATE,
    INDEX_BUFFER_SIZE,
    DISPATCH_DIRECT,
    DISPATCH_INDIRECT,
    INDIRECT_BUFFER_END,
    MODE_CONTROL,
    SET_PREDICATION,
    REG_RMW,
    COND_EXEC,
    PRED_EXEC,
    DRAW_INDIRECT,
    DRAW_INDEX_INDIRECT,
    INDEX_BASE,
    DRAW_INDEX_2,
    CONTEXT_CONTROL,
    DRAW_INDEX_OFFSET,
    INDEX_TYPE,
    DRAW_INDEX,
    DRAW_INDEX_AUTO,
    DRAW_INDEX_IMMD,
    NUM_INSTANCES,
    DRAW_INDEX_MULTI_AUTO,
    STRMOUT_BUFFER_UPDATE,
    DRAW_INDEX_OFFSET_2,
    DRAW_INDEX_MULTI_ELEMENT,
    MEM_SEMAPHORE,
    MPEG_INDEX,
    COPY_DW,
    WAIT_REG_MEM,
    MEM_WRITE,
    INDIRECT_BUFFER,
    CP_DMA,
    PFP_SYNC_ME,
    SURFACE_SYNC,
    ME_INITIALIZE,
    COND_WRITE,
    EVENT_WRITE,
    EVENT_WRITE_EOP,
    EVENT_WRITE_EOS,
    PREAMBLE_CNTL,
    RB_OFFSET,
    ALU_PS_CONST_BUFFER_COPY,
    ALU_VS_CONST_BUFFER_COPY,
    ALU_PS_CONST_UPDATE,
    ALU_VS_CONST_UPDATE,
    ONE_REG_WRITE,
    SET_CONFIG_REG,
    SET_CONTEXT_REG,
    SET_ALU_CONST,
    SET_BOOL_CONST,
    SET_LOOP_CONST,
    SET_RESOURCE,
    SET_SAMPLER,
    SET_CTL_CONST,
    SET_RESOURCE_OFFSET,
    SET_ALU_CONST_VS,
    SET_ALU_CONST_DI,
    SET_CONTEXT_REG_INDIRECT,
    SET_RESOURCE_INDIRECT,
    SET_APPEND_CNT,
    EVENT_WRITE_7E,
    UNKNOWN(u8),
}

impl Packet3 {
    /// The numeric code of this opcode, as it appears in a packet header.
    pub open spec fn spec_code(self) -> u32 {
        match self {
            Packet3::NOP => 0x10,
            Packet3::SET_BASE => 0x11,
            Packet3::CLEAR_STATE => 0x12,
            Packet3::INDEX_BUFFER_SIZE => 0x13,
            Packet3::DISPATCH_DIRECT => 0x15,
            Packet3::DISPATCH_INDIRECT => 0x16,
            Packet3::INDIRECT_BUFFER_END => 0x17,
            Packet3::MODE_CONTROL => 0x18,
            Packet3::SET_PREDICATION => 0x20,
            Packet3::REG_RMW => 0x21,
            Packet3::COND_EXEC => 0x22,
            Packet3::PRED_EXEC => 0x23,
            Packet3::DRAW_INDIRECT => 0x24,
            Packet3::DRAW_INDEX_INDIRECT => 0x25,
            Packet3::INDEX_BASE => 0x26,
            Packet3::DRAW_INDEX_2 => 0x27,
            Packet3::CONTEXT_CONTROL => 0x28,
            Packet3::DRAW_INDEX_OFFSET => 0x29,
            Packet3::INDEX_TYPE => 0x2A,
            Packet3::DRAW_INDEX => 0x2B,
            Packet3::DRAW_INDEX_AUTO => 0x2D,
            Packet3::DRAW_INDEX_IMMD => 0x2E,
            Packet3::NUM_INSTANCES => 0x2F,
            Packet3::DRAW_INDEX_MULTI_AUTO => 0x30,
            Packet3::STRMOUT_BUFFER_UPDATE => 0x34,
            Packet3::DRAW_INDEX_OFFSET_2 => 0x35,
            Packet3::DRAW_INDEX_MULTI_ELEMENT => 0x36,
            Packet3::MEM_SEMAPHORE => 0x39,
            Packet3::MPEG_INDEX => 0x3A,
            Packet3::COPY_DW => 0x3B,
            Packet3::WAIT_REG_MEM => 0x3C,
            Packet3::MEM_WRITE => 0x3D,
            Packet3::INDIRECT_BUFFER => 0x32,
            Packet3::CP_DMA => 0x41,
            Packet3::PFP_SYNC_ME => 0x42,
            Packet3::SURFACE_SYNC => 0x43,
            Packet3::ME_INITIALIZE => 0x44,
            Packet3::COND_WRITE => 0x45,
            Packet3::EVENT_WRITE => 0x46,
            Packet3::EVENT_WRITE_EOP => 0x47,
            Packet3::EVENT_WRITE_EOS => 0x48,
            Packet3::PREAMBLE_CNTL => 0x4A,
            Packet3::RB_OFFSET => 0x4B,
            Packet3::ALU_PS_CONST_BUFFER_COPY => 0x4C,
            Packet3::ALU_VS_CONST_BUFFER_COPY => 0x4D,
            Packet3::ALU_PS_CONST_UPDATE => 0x4E,
            Packet3::ALU_VS_CONST_UPDATE => 0x4F,
            Packet3::ONE_REG_WRITE => 0x57,
            Packet3::SET_CONFIG_REG => 0x68,
            Packet3::SET_CONTEXT_REG => 0x69,
            Packet3::SET_ALU_CONST => 0x6A,
            Packet3::SET_BOOL_CONST => 0x6B,
            Packet3::SET_LOOP_CONST => 0x6C,
            Packet3::SET_RESOURCE => 0x6D,
            Packet3::SET_SAMPLER => 0x6E,
            Packet3::SET_CTL_CONST => 0x6F,
            Packet3::SET_RESOURCE_OFFSET => 0x70,
            Packet3::SET_ALU_CONST_VS => 0x71,
            Packet3::SET_ALU_CONST_DI => 0x72,
            Packet3::SET_CONTEXT_REG_INDIRECT => 0x73,
            Packet3::SET_RESOURCE_INDIRECT => 0x74,
            Packet3::SET_APPEND_CNT => 0x75,
            Packet3::EVENT_WRITE_7E => 0x7E,
            Packet3::UNKNOWN(c) => c as u32,
        }
    }

    pub fn code(self) -> (c: u32)
        ensures
            c == self.spec_code(),
    {
        match self {
            Packet3::NOP => 0x10,
            Packet3::SET_BASE => 0x11,
            Packet3::CLEAR_STATE => 0x12,
            Packet3::INDEX_BUFFER_SIZE => 0x13,
            Packet3::DISPATCH_DIRECT => 0x15,
            Packet3::DISPATCH_INDIRECT => 0x16,
            Packet3::INDIRECT_BUFFER_END => 0x17,
            Packet3::MODE_CONTROL => 0x18,
            Packet3::SET_PREDICATION => 0x20,
            Packet3::REG_RMW => 0x21,
            Packet3::COND_EXEC => 0x22,
            Packet3::PRED_EXEC => 0x23,
            Packet3::DRAW_INDIRECT => 0x24,
            Packet3::DRAW_INDEX_INDIRECT => 0x25,
            Packet3::INDEX_BASE => 0x26,
            Packet3::DRAW_INDEX_2 => 0x27,
            Packet3::CONTEXT_CONTROL => 0x28,
            Packet3::DRAW_INDEX_OFFSET => 0x29,
            Packet3::INDEX_TYPE => 0x2A,
            Packet3::DRAW_INDEX => 0x2B,
            Packet3::DRAW_INDEX_AUTO => 0x2D,
            Packet3::DRAW_INDEX_IMMD => 0x2E,
            Packet3::NUM_INSTANCES => 0x2F,
            Packet3::DRAW_INDEX_MULTI_AUTO => 0x30,
            Packet3::STRMOUT_BUFFER_UPDATE => 0x34,
            Packet3::DRAW_INDEX_OFFSET_2 => 0x35,
            Packet3::DRAW_INDEX_MULTI_ELEMENT => 0x36,
            Packet3::MEM_SEMAPHORE => 0x39,
            Packet3::MPEG_INDEX => 0x3A,
            Packet3::COPY_DW => 0x3B,
            Packet3::WAIT_REG_MEM => 0x3C,
            Packet3::MEM_WRITE => 0x3D,
            Packet3::INDIRECT_BUFFER => 0x32,
            Packet3::CP_DMA => 0x41,
            Packet3::PFP_SYNC_ME => 0x42,
            Packet3::SURFACE_SYNC => 0x43,
            Packet3::ME_INITIALIZE => 0x44,
            Packet3::COND_WRITE => 0x45,
            Packet3::EVENT_WRITE => 0x46,
            Packet3::EVENT_WRITE_EOP => 0x47,
            Packet3::EVENT_WRITE_EOS => 0x48,
            Packet3::PREAMBLE_CNTL => 0x4A,
            Packet3::RB_OFFSET => 0x4B,
            Packet3::ALU_PS_CONST_BUFFER_COPY => 0x4C,
            Packet3::ALU_VS_CONST_BUFFER_COPY => 0x4D,
            Packet3::ALU_PS_CONST_UPDATE => 0x4E,
            Packet3::ALU_VS_CONST_UPDATE => 0x4F,
            Packet3::ONE_REG_WRITE => 0x57,
            Packet3::SET_CONFIG_REG => 0x68,
            Packet3::SET_CONTEXT_REG => 0x69,
            Packet3::SET_ALU_CONST => 0x6A,
            Packet3::SET_BOOL_CONST => 0x6B,
            Packet3::SET_LOOP_CONST => 0x6C,
            Packet3::SET_RESOURCE => 0x6D,
            Packet3::SET_SAMPLER => 0x6E,
            Packet3::SET_CTL_CONST => 0x6F,
            Packet3::SET_RESOURCE_OFFSET => 0x70,
            Packet3::SET_ALU_CONST_VS => 0x71,
            Packet3::SET_ALU_CONST_DI => 0x72,
            Packet3::SET_CONTEXT_REG_INDIRECT => 0x73,
            Packet3::SET_RESOURCE_INDIRECT => 0x74,
            Packet3::SET_APPEND_CNT => 0x75,
            Packet3::EVENT_WRITE_7E => 0x7E,
            Packet3::UNKNOWN(c) => c as u32,
        }
    }

    /// The opcode a header byte names, with `UNKNOWN` for every byte that
    /// no named opcode uses.
    pub open spec fn spec_from_code(code: u8) -> Packet3 {
        if code == 0x10 {
            Packet3::NOP
        } else if code == 0x11 {
            Packet3::SET_BASE
        } else if code == 0x12 {
            Packet3::CLEAR_STATE
        } else if code == 0x13 {
            Packet3::INDEX_BUFFER_SIZE
        } else if code == 0x15 {
            Packet3::DISPATCH_DIRECT
        } else if code == 0x16 {
            Packet3::DISPATCH_INDIRECT
        } else if code == 0x17 {
            Packet3::INDIRECT_BUFFER_END
        } else if code == 0x18 {
            Packet3::MODE_CONTROL
        } else if code == 0x20 {
            Packet3::SET_PREDICATION
        } else if code == 0x21 {
            Packet3::REG_RMW
        } else if code == 0x22 {
            Packet3::COND_EXEC
        } else if code == 0x23 {
            Packet3::PRED_EXEC
        } else if code == 0x24 {
            Packet3::DRAW_INDIRECT
        } else if code == 0x25 {
            Packet3::DRAW_INDEX_INDIRECT
        } else if code == 0x26 {
            Packet3::INDEX_BASE
        } else if code == 0x27 {
            Packet3::DRAW_INDEX_2
        } else if code == 0x28 {
            Packet3::CONTEXT_CONTROL
        } else if code == 0x29 {
            Packet3::DRAW_INDEX_OFFSET
        } else if code == 0x2A {
            Packet3::INDEX_TYPE
        } else if code == 0x2B {
            Packet3::DRAW_INDEX
        } else if code == 0x2D {
            Packet3::DRAW_INDEX_AUTO
        } else if code == 0x2E {
            Packet3::DRAW_INDEX_IMMD
        } else if code == 0x2F {
            Packet3::NUM_INSTANCES
        } else if code == 0x30 {
            Packet3::DRAW_INDEX_MULTI_AUTO
        } else if code == 0x34 {
            Packet3::STRMOUT_BUFFER_UPDATE
        } else if code == 0x35 {
            Packet3::DRAW_INDEX_OFFSET_2
        } else if code == 0x36 {
            Packet3::DRAW_INDEX_MULTI_ELEMENT
        } else if code == 0x39 {
            Packet3::MEM_SEMAPHORE
        } else if code == 0x3A {
            Packet3::MPEG_INDEX
        } else if code == 0x3B {
            Packet3::COPY_DW
        } else if code == 0x3C {
            Packet3::WAIT_REG_MEM
        } else if code == 0x3D {
            Packet3::MEM_WRITE
        } else if code == 0x32 {
            Packet3::INDIRECT_BUFFER
        } else if code == 0x41 {
            Packet3::CP_DMA
        } else if code == 0x42 {
            Packet3::PFP_SYNC_ME
        } else if code == 0x43 {
            Packet3::SURFACE_SYNC
        } else if code == 0x44 {
            Packet3::ME_INITIALIZE
        } else if code == 0x45 {
            Packet3::COND_WRITE
        } else if code == 0x46 {
            Packet3::EVENT_WRITE
        } else if code == 0x47 {
            Packet3::EVENT_WRITE_EOP
        } else if code == 0x48 {
            Packet3::EVENT_WRITE_EOS
        } else if code == 0x4A {
            Packet3::PREAMBLE_CNTL
        } else if code == 0x4B {
            Packet3::RB_OFFSET
        } else if code == 0x4C {
            Packet3::ALU_PS_CONST_BUFFER_COPY
        } else if code == 0x4D {
            Packet3::ALU_VS_CONST_BUFFER_COPY
        } else if code == 0x4E {
            Packet3::ALU_PS_CONST_UPDATE
        } else if code == 0x4F {
            Packet3::ALU_VS_CONST_UPDATE
        } else if code == 0x57 {
            Packet3::ONE_REG_WRITE
        } else if code == 0x68 {
            Packet3::SET_CONFIG_REG
        } else if code == 0x69 {
            Packet3::SET_CONTEXT_REG
        } else if code == 0x6A {
            Packet3::SET_ALU_CONST
        } else if code == 0x6B {
            Packet3::SET_BOOL_CONST
        } else if code == 0x6C {
            Packet3::SET_LOOP_CONST
        } else if code == 0x6D {
            Packet3::SET_RESOURCE
        } else if code == 0x6E {
            Packet3::SET_SAMPLER
        } else if code == 0x6F {
            Packet3::SET_CTL_CONST
        } else if code == 0x70 {
            Packet3::SET_RESOURCE_OFFSET
        } else if code == 0x71 {
            Packet3::SET_ALU_CONST_VS
        } else if code == 0x72 {
            Packet3::SET_ALU_CONST_DI
        } else if code == 0x73 {
            Packet3::SET_CONTEXT_REG_INDIRECT
        } else if code == 0x74 {
            Packet3::SET_RESOURCE_INDIRECT
        } else if code == 0x75 {
            Packet3::SET_APPEND_CNT
        } else if code == 0x7E {
            Packet3::EVENT_WRITE_7E
        } else {
            Packet3::UNKNOWN(code)
        }
    }

    pub fn from_code(code: u8) -> (op: Packet3)
        ensures
            op == Packet3::spec_from_code(code),
    {
        match code {
            0x10 => Packet3::NOP,
            0x11 => Packet3::SET_BASE,
            0x12 => Packet3::CLEAR_STATE,
            0x13 => Packet3::INDEX_BUFFER_SIZE,
            0x15 => Packet3::DISPATCH_DIRECT,
            0x16 => Packet3::DISPATCH_INDIRECT,
            0x17 => Packet3::INDIRECT_BUFFER_END,
            0x18 => Packet3::MODE_CONTROL,
            0x20 => Packet3::SET_PREDICATION,
            0x21 => Packet3::REG_RMW,
            0x22 => Packet3::COND_EXEC,
            0x23 => Packet3::PRED_EXEC,
            0x24 => Packet3::DRAW_INDIRECT,
            0x25 => Packet3::DRAW_INDEX_INDIRECT,
            0x26 => Packet3::INDEX_BASE,
            0x27 => Packet3::DRAW_INDEX_2,
            0x28 => Packet3::CONTEXT_CONTROL,
            0x29 => Packet3::DRAW_INDEX_OFFSET,
            0x2A => Packet3::INDEX_TYPE,
            0x2B => Packet3::DRAW_INDEX,
            0x2D => Packet3::DRAW_INDEX_AUTO,
            0x2E => Packet3::DRAW_INDEX_IMMD,
            0x2F => Packet3::NUM_INSTANCES,
            0x30 => Packet3::DRAW_INDEX_MULTI_AUTO,
            0x34 => Packet3::STRMOUT_BUFFER_UPDATE,
            0x35 => Packet3::DRAW_INDEX_OFFSET_2,
            0x36 => Packet3::DRAW_INDEX_MULTI_ELEMENT,
            0x39 => Packet3::MEM_SEMAPHORE,
            0x3A => Packet3::MPEG_INDEX,
            0x3B => Packet3::COPY_DW,
            0x3C => Packet3::WAIT_REG_MEM,
            0x3D => Packet3::MEM_WRITE,
            0x32 => Packet3::INDIRECT_BUFFER,
            0x41 => Packet3::CP_DMA,
            0x42 => Packet3::PFP_SYNC_ME,
            0x43 => Packet3::SURFACE_SYNC,
            0x44 => Packet3::ME_INITIALIZE,
            0x45 => Packet3::COND_WRITE,
            0x46 => Packet3::EVENT_WRITE,
            0x47 => Packet3::EVENT_WRITE_EOP,
            0x48 => Packet3::EVENT_WRITE_EOS,
            0x4A => Packet3::PREAMBLE_CNTL,
            0x4B => Packet3::RB_OFFSET,
            0x4C => Packet3::ALU_PS_CONST_BUFFER_COPY,
            0x4D => Packet3::ALU_VS_CONST_BUFFER_COPY,
            0x4E => Packet3::ALU_PS_CONST_UPDATE,
            0x4F => Packet3::ALU_VS_CONST_UPDATE,
            0x57 => Packet3::ONE_REG_WRITE,
            0x68 => Packet3::SET_CONFIG_REG,
            0x69 => Packet3::SET_CONTEXT_REG,
            0x6A => Packet3::SET_ALU_CONST,
            0x6B => Packet3::SET_BOOL_CONST,
            0x6C => Packet3::SET_LOOP_CONST,
            0x6D => Packet3::SET_RESOURCE,
            0x6E => Packet3::SET_SAMPLER,
            0x6F => Packet3::SET_CTL_CONST,
            0x70 => Packet3::SET_RESOURCE_OFFSET,
            0x71 => Packet3::SET_ALU_CONST_VS,
            0x72 => Packet3::SET_ALU_CONST_DI,
            0x73 => Packet3::SET_CONTEXT_REG_INDIRECT,
            0x74 => Packet3::SET_RESOURCE_INDIRECT,
            0x75 => Packet3::SET_APPEND_CNT,
            0x7E => Packet3::EVENT_WRITE_7E,
            _ => Packet3::UNKNOWN(code),
        }
    }
}

/// The name-to-code mapping is total and loses nothing: reading any byte
/// back through `spec_from_code` reproduces that byte's numeric code.
pub proof fn lemma_opcode_code_round_trip(code: u8)
    ensures
        Packet3::spec_from_code(code).spec_code() == code,
{
}

/// No two named opcodes share a code: reading a named opcode's code back
/// through `spec_from_code` gives that same opcode.
pub proof fn lemma_opcode_name_round_trip(op: Packet3)
    requires
        !(op is UNKNOWN),
    ensures
        Packet3::spec_from_code(op.spec_code() as u8) == op,
{
}

/// A type-3 packet header: bits [31:30] hold the fixed type selector 3,
/// bits [29:16] the 14-bit length-minus-one field, bits [15:8] the opcode,
/// and bit [0] the predicate bit. All other bits are zero.
pub open spec fn spec_packet3(code: u32, n: u32, pred: bool) -> u32 {
    (3u32 << 30) | ((n & 0x3FFF) << 16) | ((code & 0xFF) << 8) | (if pred {
        1u32
    } else {
        0u32
    })
}

/// The type selector of a header word.
pub open spec fn packet_type(header: u32) -> u32 {
    header >> 30
}

/// The raw 14-bit length field of a header word.
pub open spec fn packet_len_field(header: u32) -> u32 {
    (header >> 16) & 0x3FFF
}

/// The number of body words a header declares: the length field plus one.
pub open spec fn packet_body_len(header: u32) -> int {
    packet_len_field(header) + 1
}

/// The opcode byte of a header word.
pub open spec fn packet_opcode_field(header: u32) -> u32 {
    (header >> 8) & 0xFF
}

/// The predicate bit of a header word.
pub open spec fn packet_pred_bit(header: u32) -> u32 {
    header & 1
}

/// Reading the fields of a freshly encoded header gives back what was
/// encoded: type 3, the length and opcode truncated to their fields, and
/// the predicate bit.
pub proof fn lemma_packet3_fields(code: u32, n: u32, pred: bool)
    ensures
        packet_type(spec_packet3(code, n, pred)) == 3,
        packet_len_field(spec_packet3(code, n, pred)) == n & 0x3FFF,
        packet_opcode_field(spec_packet3(code, n, pred)) == code & 0xFF,
        packet_pred_bit(spec_packet3(code, n, pred)) == (if pred {
            1u32
        } else {
            0u32
        }),
        n < 0x4000 ==> packet_len_field(spec_packet3(code, n, pred)) == n,
        code < 0x100 ==> packet_opcode_field(spec_packet3(code, n, pred)) == code,
{
    let p: u32 = if pred {
        1u32
    } else {
        0u32
    };
    let h = spec_packet3(code, n, pred);
    assert((3u32 << 30) | ((n & 0x3FFF) << 16) | ((code & 0xFF) << 8) | p == h);
    assert({
        let h = (3u32 << 30) | ((n & 0x3FFF) << 16) | ((code & 0xFF) << 8) | p;
        h >> 30 == 3 && (h >> 16) & 0x3FFF == n & 0x3FFF && (h >> 8) & 0xFF == code & 0xFF && h & 1
            == p && (n < 0x4000 ==> n & 0x3FFF == n) && (code < 0x100 ==> code & 0xFF == code)
    }) by (bit_vector)
        requires
            p == 0 || p == 1,
    ;
}

/// Encode a type-3 packet header from an opcode, a length field value and
/// a conditional-execution flag. The length field must equal the number of
/// data words that follow the header, minus one.
pub fn packet3(op: Packet3, n: u32, c: u32) -> (header: u32)
    ensures
        header == spec_packet3(op.spec_code(), n, c != 0),
{
    let code = op.code();
    (3u32 << 30) | ((n & 0x3FFF) << 16) | ((code & 0xFF) << 8) | (if c != 0 {
        1u32
    } else {
        0u32
    })
}

/// Event type for a cache-flush-and-invalidate event that also writes a
/// timestamp.
pub const CACHE_FLUSH_AND_INV_EVENT_TS: u32 = 0x14;

/// Event type for a plain cache-flush-and-invalidate event.
pub const CACHE_FLUSH_AND_INV_EVENT: u32 = 0x16;

/// The event-index field of an event packet body word.
pub fn event_index(n: u32) -> (r: u32)
    ensures
        r == n << 8,
{
    n << 8
}

/// The data-select field of a fence packet body word.
pub fn data_sel(n: u32) -> (r: u32)
    ensures
        r == n << 29,
{
    n << 29
}

/// The interrupt-select field of a fence packet body word.
pub fn int_sel(n: u32) -> (r: u32)
    ensures
        r == n << 24,
{
    n << 24
}

/// One decoded packet: the header word and the body words the header
/// declared. The body length is always derived from the header, never
/// supplied independently.
#[derive(Debug)]
pub struct Packet {
    pub header: u32,
    pub words: Vec<u32>,
}

impl View for Packet {
    type V = (u32, Seq<u32>);

    open spec fn view(&self) -> (u32, Seq<u32>) {
        (self.header, self.words@)
    }
}

/// The model of a packet list: each packet as its header and body words.
pub open spec fn packets_view(ps: Seq<Packet>) -> Seq<(u32, Seq<u32>)> {
    ps.map_values(|p: Packet| p@)
}

/// Why a stream cannot be decoded further.
#[derive(Clone, Copy, Debug, PartialEq, Eq, Structural)]
pub enum DecodeErrorKind {
    /// A header declared a packet type other than 3; no other type is
    /// supported.
    UnsupportedType,
    /// The final header declared more body words than remain in the
    /// stream.
    TruncatedStream,
}

/// A decode failure: what went wrong, the word offset of the offending
/// header, and every packet that was decoded before it, intact.
#[derive(Debug)]
pub struct DecodeError {
    pub kind: DecodeErrorKind,
    pub offset: usize,
    pub packets: Vec<Packet>,
}

/// What decoding a word stream yields: the packets before the first
/// undecodable position, the error there if any, and the word offset at
/// which decoding stopped (the stream's length exactly when no error).
pub open spec fn spec_split(s: Seq<u32>) -> (Seq<(u32, Seq<u32>)>, Option<DecodeErrorKind>, int)
    decreases s.len(),
{
    if s.len() == 0 {
        (Seq::<(u32, Seq<u32>)>::empty(), None::<DecodeErrorKind>, 0int)
    } else {
        let header = s[0];
        if packet_type(header) != 3 {
            (Seq::<(u32, Seq<u32>)>::empty(), Some(DecodeErrorKind::UnsupportedType), 0int)
        } else {
            let n = packet_body_len(header);
            if s.len() < 1 + n {
                (Seq::<(u32, Seq<u32>)>::empty(), Some(DecodeErrorKind::TruncatedStream), 0int)
            } else {
                let rest = spec_split(s.skip(1 + n));
                (seq![(header, s.subrange(1, 1 + n))] + rest.0, rest.1, 1 + n + rest.2)
            }
        }
    }
}

/// A well-formed packet at the model level: a type-3 header whose length
/// field declares exactly the body that accompanies it.
pub open spec fn wf_packet(p: (u32, Seq<u32>)) -> bool {
    packet_type(p.0) == 3 && p.1.len() == packet_body_len(p.0)
}

/// The flat word stream a sequence of packets occupies: each packet's
/// header followed by its body words, in order.
pub open spec fn spec_encode(ps: Seq<(u32, Seq<u32>)>) -> Seq<u32>
    decreases ps.len(),
{
    if ps.len() == 0 {
        Seq::<u32>::empty()
    } else {
        seq![ps[0].0] + ps[0].1 + spec_encode(ps.skip(1))
    }
}

/// Decoding a stream that begins with the words of well-formed packets
/// first reproduces exactly those packets, then continues into whatever
/// follows them: the remaining packets, error and stopping offset are
/// those of the trailing words alone, shifted past the prefix.
pub proof fn lemma_split_encode_prefix(ps: Seq<(u32, Seq<u32>)>, tail: Seq<u32>)
    requires
        forall|i: int| 0 <= i < ps.len() ==> wf_packet(#[trigger] ps[i]),
    ensures
        spec_split(spec_encode(ps) + tail).0 == ps + spec_split(tail).0,
        spec_split(spec_encode(ps) + tail).1 == spec_split(tail).1,
        spec_split(spec_encode(ps) + tail).2 == spec_encode(ps).len() + spec_split(tail).2,
    decreases ps.len(),
{
    let s = spec_encode(ps) + tail;
    if ps.len() == 0 {
        assert(s =~= tail);
        assert(ps + spec_split(tail).0 =~= spec_split(tail).0);
    } else {
        let h = ps[0].0;
        let body = ps[0].1;
        let n = packet_body_len(h);
        assert(wf_packet(ps[0]));
        assert(spec_encode(ps) == seq![h] + body + spec_encode(ps.skip(1)));
        assert(s[0] == h);
        assert(s.len() == 1 + n + spec_encode(ps.skip(1)).len() + tail.len());
        assert(s.subrange(1, 1 + n) =~= body);
        assert(s.skip(1 + n) =~= spec_encode(ps.skip(1)) + tail);
        assert(forall|i: int|
            0 <= i < ps.skip(1).len() ==> wf_packet(#[trigger] ps.skip(1)[i]));
        lemma_split_encode_prefix(ps.skip(1), tail);
        assert(spec_split(s).0 =~~= ps + spec_split(tail).0) by {
            assert(spec_split(s).0 =~~= seq![(h, body)] + (ps.skip(1) + spec_split(tail).0));
            assert(seq![(h, body)] + (ps.skip(1) + spec_split(tail).0) =~~= ps + spec_split(
                tail,
            ).0);
        }
    }
}

/// Round-trip law: decoding the stream that a sequence of well-formed
/// packets occupies reproduces those packets exactly, header and body
/// bit-identical, with no error and the whole stream consumed.
pub proof fn lemma_decode_encode(ps: Seq<(u32, Seq<u32>)>)
    requires
        forall|i: int| 0 <= i < ps.len() ==> wf_packet(#[trigger] ps[i]),
    ensures
        spec_split(spec_encode(ps)).0 == ps,
        spec_split(spec_encode(ps)).1 == None::<DecodeErrorKind>,
        spec_split(spec_encode(ps)).2 == spec_encode(ps).len(),
{
    lemma_split_encode_prefix(ps, Seq::<u32>::empty());
    assert(spec_encode(ps) + Seq::<u32>::empty() =~= spec_encode(ps));
    assert(ps + spec_split(Seq::<u32>::empty()).0 =~= ps);
}

/// Truncation law: a stream of well-formed packets followed by a type-3
/// header that declares more body words than remain decodes to exactly
/// the leading packets and the truncated-stream error at that header's
/// offset — never to a short packet.
pub proof fn lemma_split_truncated(ps: Seq<(u32, Seq<u32>)>, header: u32, rest: Seq<u32>)
    requires
        forall|i: int| 0 <= i < ps.len() ==> wf_packet(#[trigger] ps[i]),
        packet_type(header) == 3,
        rest.len() < packet_body_len(header),
    ensures
        spec_split(spec_encode(ps) + seq![header] + rest).0 == ps,
        spec_split(spec_encode(ps) + seq![header] + rest).1 == Some(
            DecodeErrorKind::TruncatedStream,
        ),
        spec_split(spec_encode(ps) + seq![header] + rest).2 == spec_encode(ps).len(),
{
    let tail = seq![header] + rest;
    assert(spec_encode(ps) + seq![header] + rest =~= spec_encode(ps) + tail);
    assert(tail[0] == header);
    assert(tail.len() < 1 + packet_body_len(header));
    lemma_split_encode_prefix(ps, tail);
    assert(ps + spec_split(tail).0 =~= ps);
}

/// Unsupported-type law: a stream of well-formed packets followed by a
/// header whose type is not 3 decodes to exactly the leading packets,
/// intact, and the unsupported-type error at that header's offset.
pub proof fn lemma_split_unsupported(ps: Seq<(u32, Seq<u32>)>, header: u32, rest: Seq<u32>)
    requires
        forall|i: int| 0 <= i < ps.len() ==> wf_packet(#[trigger] ps[i]),
        packet_type(header) != 3,
    ensures
        spec_split(spec_encode(ps) + seq![header] + rest).0 == ps,
        spec_split(spec_encode(ps) + seq![header] + rest).1 == Some(
            DecodeErrorKind::UnsupportedType,
        ),
        spec_split(spec_encode(ps) + seq![header] + rest).2 == spec_encode(ps).len(),
{
    let tail = seq![header] + rest;
    assert(spec_encode(ps) + seq![header] + rest =~= spec_encode(ps) + tail);
    assert(tail[0] == header);
    lemma_split_encode_prefix(ps, tail);
    assert(ps + spec_split(tail).0 =~= ps);
}

/// Decoding that reports no error has consumed the input exactly: the
/// stopping offset is the stream's length.
pub proof fn lemma_split_ok_consumes_all(s: Seq<u32>)
    requires
        spec_split(s).1 == None::<DecodeErrorKind>,
    ensures
        spec_split(s).2 == s.len(),
    decreases s.len(),
{
    if s.len() != 0 {
        let n = packet_body_len(s[0]);
        lemma_split_ok_consumes_all(s.skip(1 + n));
    }
}

/// Segment a raw word stream into packets: read a header, take the body
/// words it declares, repeat until the input is exhausted. A header whose
/// type is not 3 or whose declared body would read past the end of input
/// stops decoding with an error that keeps the packets decoded so far.
pub fn split(stream: &[u32]) -> (r: Result<Vec<Packet>, DecodeError>)
    ensures
        match r {
            Ok(packets) => {
                &&& spec_split(stream@).1 == None::<DecodeErrorKind>
                &&& packets_view(packets@) == spec_split(stream@).0
            },
            Err(e) => {
                &&& spec_split(stream@).1 == Some(e.kind)
                &&& packets_view(e.packets@) == spec_split(stream@).0
                &&& e.offset == spec_split(stream@).2
            },
        },
{
    let ghost whole = spec_split(stream@);
    let mut packets: Vec<Packet> = Vec::new();
    let mut i: usize = 0;
    proof {
        assert(stream@.skip(0) =~= stream@);
        assert(packets_view(packets@) =~= Seq::<(u32, Seq<u32>)>::empty());
    }
    while i < stream.len()
        invariant
            i <= stream.len(),
            whole == spec_split(stream@),
            whole.0 == packets_view(packets@) + spec_split(stream@.skip(i as int)).0,
            whole.1 == spec_split(stream@.skip(i as int)).1,
            whole.2 == i + spec_split(stream@.skip(i as int)).2,
        decreases stream.len() - i,
    {
        let ghost tail = stream@.skip(i as int);
        let header = stream[i];
        assert(tail[0] == header);
        if header >> 30 != 3 {
            return Err(DecodeError {
                kind: DecodeErrorKind::UnsupportedType,
                offset: i,
                packets,
            });
        }
        let field: u32 = (header >> 16) & 0x3FFF;
        assert((header >> 16) & 0x3FFF <= 0x3FFF) by (bit_vector);
        let len: u32 = field + 1;
        assert(len == packet_body_len(header));
        if (stream.len() - i) - 1 < len as usize {
            assert(tail.len() < 1 + packet_body_len(header));
            return Err(DecodeError {
                kind: DecodeErrorKind::TruncatedStream,
                offset: i,
                packets,
            });
        }
        assert(tail.len() >= 1 + packet_body_len(header));
        let body_len = len as usize;
        let mut words: Vec<u32> = Vec::new();
        let mut j: usize = 0;
        while j < body_len
            invariant
                j <= body_len,
                i + 1 + body_len <= stream.len(),
                words@ == stream@.subrange(i + 1, i + 1 + j),
            decreases body_len - j,
        {
            let w = stream[i + 1 + j];
            words.push(w);
            proof {
                assert(words@ =~= stream@.subrange(i as int + 1, i as int + 1 + j + 1));
            }
            j = j + 1;
        }
        proof {
            assert(stream@.subrange(i + 1, i + 1 + body_len) =~= tail.subrange(
                1,
                1 + packet_body_len(header),
            ));
        }
        let packet = Packet { header, words };
        packets.push(packet);
        proof {
            let n = packet_body_len(header);
            let step = spec_split(tail);
            assert(stream@.skip(i + 1 + body_len) =~= tail.skip(1 + n));
            assert(packets_view(packets@) =~= packets_view(packets@.drop_last()) + seq![
                (header, tail.subrange(1, 1 + n)),
            ]);
            assert(whole.0 =~= packets_view(packets@) + spec_split(tail.skip(1 + n)).0);
        }
        i = i + 1 + body_len;
    }
    proof {
        assert(stream@.skip(i as int) =~= Seq::<u32>::empty());
        assert(whole.0 =~= packets_view(packets@));
    }
    Ok(packets)
}

} // verus!
