//! The command stream builder: an append-only instruction buffer of
//! 32-bit words, a side table of debug annotations keyed by word
//! position, and the ordered relocation list the kernel driver patches
//! before execution.

use vstd::prelude::*;
use std::collections::HashMap;
use crate::pm4::{
    packet3, spec_packet3, spec_split, spec_encode, wf_packet, packet_len_field,
    packet_body_len, lemma_decode_encode, lemma_packet3_fields, DecodeErrorKind,
};
use crate::router::{route, spec_route, Route};

verus! {

broadcast use vstd::std_specs::hash::group_hash_axioms;

/// One relocation record: an opaque buffer-object handle, the memory
/// domains the buffer may be read from, the domain it may be written to,
/// and driver flags. The order of records matches the order in which the
/// address-bearing words they describe were emitted.
#[derive(Clone, Copy, Debug, PartialEq, Eq, Structural)]
pub struct DrmRadeonCsReloc {
    pub handle: u32,
    pub read_domains: u32,
    pub write_domain: u32,
    pub flags: u32,
}

/// The words a single `set_reg_n` call appends: for a windowed address, a
/// type-3 packet header and the register's index word; for an address
/// outside every window, the one-word legacy immediate form.
pub open spec fn spec_set_reg_n_words(reg: u32, num: u32) -> Seq<u32> {
    match spec_route(reg) {
        Some(w) => seq![
            spec_packet3(w.opcode.spec_code(), num, false),
            ((reg - w.start) as u32) >> 2,
        ],
        None => seq![(num << 8) | (reg >> 2)],
    }
}

/// An in-progress command stream. Created empty, mutated only by the
/// append operations below, and handed to the submission assembler once
/// complete.
pub struct CS {
    ib: Vec<u32>,
    relocs: Vec<DrmRadeonCsReloc>,
    labels: HashMap<usize, String>,
}

impl CS {
    /// The instruction buffer: every word emitted so far, in order.
    pub closed spec fn spec_ib(&self) -> Seq<u32> {
        self.ib@
    }

    /// The relocation list, in emission order.
    pub closed spec fn spec_relocs(&self) -> Seq<DrmRadeonCsReloc> {
        self.relocs@
    }

    /// The annotation table: word position to debug label text.
    pub closed spec fn spec_labels(&self) -> Map<usize, Seq<char>> {
        self.labels@.map_values(|s: String| s@)
    }

    /// Append one word to the instruction buffer. Always succeeds.
    pub fn emit(&mut self, data: u32)
        ensures
            final(self).spec_ib() == old(self).spec_ib().push(data),
            final(self).spec_relocs() == old(self).spec_relocs(),
            final(self).spec_labels() == old(self).spec_labels(),
    {
        self.ib.push(data);
    }

    /// Append a sequence of words in order, as repeated `emit` calls
    /// would.
    pub fn write(&mut self, data: &[u32])
        ensures
            final(self).spec_ib() == old(self).spec_ib() + data@,
            final(self).spec_relocs() == old(self).spec_relocs(),
            final(self).spec_labels() == old(self).spec_labels(),
    {
        self.ib.extend_from_slice(data);
    }

    /// Attach a debug label to the next-to-be-written word position. A
    /// later label at the same position overwrites the earlier one. The
    /// label never reaches the wire.
    pub fn write_label(&mut self, label: &str)
        ensures
            final(self).spec_ib() == old(self).spec_ib(),
            final(self).spec_relocs() == old(self).spec_relocs(),
            final(self).spec_labels() == old(self).spec_labels().insert(
                old(self).spec_ib().len() as usize,
                label@,
            ),
    {
        let pos = self.ib.len();
        self.labels.insert(pos, label.to_owned());
        proof {
            assert(final(self).spec_labels() =~= old(self).spec_labels().insert(
                old(self).spec_ib().len() as usize,
                label@,
            ));
        }
    }

    /// Append one relocation record. No command word is emitted; the
    /// caller has emitted the address-bearing words the record refers to.
    pub fn write_reloc(&mut self, handle: u32, read_domains: u32, write_domain: u32, flags: u32)
        ensures
            final(self).spec_ib() == old(self).spec_ib(),
            final(self).spec_relocs() == old(self).spec_relocs().push(
                DrmRadeonCsReloc { handle, read_domains, write_domain, flags },
            ),
            final(self).spec_labels() == old(self).spec_labels(),
    {
        self.relocs.push(DrmRadeonCsReloc { handle, read_domains, write_domain, flags });
    }

    /// Write the packet or legacy header for `num` upcoming data words
    /// without emitting the values; the caller must follow with exactly
    /// `num` `emit` calls. For a windowed address this appends a type-3
    /// header whose length field is `num` (index word plus `num` values
    /// make `num + 1` body words, one more than the field) and the
    /// register's index word; otherwise the one-word legacy form.
    pub fn set_reg_n(&mut self, reg: u32, num: u32)
        ensures
            final(self).spec_ib() == old(self).spec_ib() + spec_set_reg_n_words(reg, num),
            final(self).spec_relocs() == old(self).spec_relocs(),
            final(self).spec_labels() == old(self).spec_labels(),
    {
        let ghost ib0 = self.spec_ib();
        match route(reg, num) {
            Route::Windowed { opcode, index } => {
                let header = packet3(opcode, num, 0);
                self.emit(header);
                self.emit(index);
                proof {
                    assert(final(self).spec_ib() =~= ib0 + spec_set_reg_n_words(reg, num));
                }
            },
            Route::Legacy { word } => {
                self.emit(word);
                proof {
                    assert(final(self).spec_ib() =~= ib0 + spec_set_reg_n_words(reg, num));
                }
            },
        }
    }

    /// The instruction buffer words emitted so far, for submission or
    /// display.
    pub fn ib_words(&self) -> (r: &Vec<u32>)
        ensures
            r@ == self.spec_ib(),
    {
        &self.ib
    }

    /// The relocation records appended so far, for submission or display.
    pub fn reloc_records(&self) -> (r: &Vec<DrmRadeonCsReloc>)
        ensures
            r@ == self.spec_relocs(),
    {
        &self.relocs
    }

    /// The debug label attached at a word position, if any.
    pub fn label_at(&self, pos: usize) -> (r: Option<&String>)
        ensures
            match r {
                Some(s) => self.spec_labels().contains_key(pos) && s@ == self.spec_labels()[pos],
                None => !self.spec_labels().contains_key(pos),
            },
    {
        self.labels.get(&pos)
    }

    /// Write one register through the one-register form: the header for a
    /// single value, then the value itself.
    pub fn set_reg(&mut self, reg: u32, value: u32)
        ensures
            final(self).spec_ib() == old(self).spec_ib() + spec_set_reg_n_words(reg, 1).push(
                value,
            ),
            final(self).spec_relocs() == old(self).spec_relocs(),
            final(self).spec_labels() == old(self).spec_labels(),
    {
        let ghost ib0 = self.spec_ib();
        self.set_reg_n(reg, 1);
        self.emit(value);
        proof {
            assert(final(self).spec_ib() =~= ib0 + spec_set_reg_n_words(reg, 1).push(value));
        }
    }
}

/// The register values describing one color buffer, as pipeline-setup
/// code hands them to the recipe that programs the color-buffer block.
pub struct ColorBuffer {
    pub base: u32,
    pub pitch: u32,
    pub slice: u32,
    pub view: u32,
    pub info: u32,
    pub attrib: u32,
    pub dim: u32,
    pub clear_word0: u32,
    pub clear_word1: u32,
    pub clear_word2: u32,
    pub clear_word3: u32,
}

/// Where a shader program lives and how many registers it needs, as
/// pipeline-setup code hands it to the shader-setup recipes.
pub struct ShaderConfig {
    pub shader_addr: u32,
    pub shader_size: u32,
    pub num_gprs: u32,
    pub stack_size: u32,
    pub export_mode: u32,
    pub clamp_consts: u32,
}

/// One vertex-buffer resource descriptor.
pub struct VtxRes {
    pub byteoffset: u32,
    pub bytesize: u32,
    pub stride: u32,
    pub vtxcount: u32,
}

/// The parameters of one draw call.
pub struct DrawInfo<'a> {
    pub indirect: bool,
    pub indexed: bool,
    pub index_size: u32,
    pub user_buffer: Option<&'a [u32]>,
    pub instance_count: u32,
}

/// Round-trip law for register writes: the words `set_reg_n(reg, num)`
/// appends for a windowed address, followed by exactly `num` data words,
/// decode as one single packet whose length field equals `num` and whose
/// body is the index word plus the `num` values — `num + 1` words in all,
/// reconstructed exactly. The length field is fourteen bits wide, so the
/// law holds for every count the field can carry.
pub proof fn lemma_set_reg_n_decodes(reg: u32, num: u32, values: Seq<u32>)
    requires
        spec_route(reg).is_some(),
        num < 0x4000,
        values.len() == num,
    ensures
        ({
            let w = spec_route(reg).unwrap();
            let header = spec_packet3(w.opcode.spec_code(), num, false);
            let body = seq![((reg - w.start) as u32) >> 2] + values;
            let s = spec_set_reg_n_words(reg, num) + values;
            &&& spec_split(s).0 == seq![(header, body)]
            &&& spec_split(s).1 == None::<DecodeErrorKind>
            &&& spec_split(s).2 == s.len()
            &&& packet_len_field(header) == num
            &&& body.len() == num + 1
        }),
{
    let w = spec_route(reg).unwrap();
    let header = spec_packet3(w.opcode.spec_code(), num, false);
    let idx = ((reg - w.start) as u32) >> 2;
    let body = seq![idx] + values;
    let s = spec_set_reg_n_words(reg, num) + values;
    lemma_packet3_fields(w.opcode.spec_code(), num, false);
    assert(packet_body_len(header) == num + 1);
    assert(wf_packet((header, body)));
    let ps = seq![(header, body)];
    assert(forall|i: int| 0 <= i < ps.len() ==> wf_packet(#[trigger] ps[i]));
    lemma_decode_encode(ps);
    assert(spec_encode(ps.skip(1)) =~= Seq::<u32>::empty());
    assert(spec_encode(ps) =~= s);
}

impl Default for CS {
    /// An empty command stream: no words, no relocations, no labels.
    fn default() -> (cs: CS)
        ensures
            cs.spec_ib() == Seq::<u32>::empty(),
            cs.spec_relocs() == Seq::<DrmRadeonCsReloc>::empty(),
            cs.spec_labels() == Map::<usize, Seq<char>>::empty(),
    {
        CS { ib: Vec::new(), relocs: Vec::new(), labels: HashMap::new() }
    }
}

} // verus!
