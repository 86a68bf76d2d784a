//! The submission assembler: packaging a finished command stream and its
//! relocation list into the three typed chunks the kernel driver's single
//! submission entry point consumes.

use vstd::prelude::*;
use crate::cs::{CS, DrmRadeonCsReloc};

verus! {

/// The four words one relocation record occupies on the wire, in fixed
/// order: handle, read-domain mask, write-domain mask, flags.
pub open spec fn spec_reloc_words(rs: Seq<DrmRadeonCsReloc>) -> Seq<u32>
    decreases rs.len(),
{
    if rs.len() == 0 {
        Seq::<u32>::empty()
    } else {
        seq![rs[0].handle, rs[0].read_domains, rs[0].write_domain, rs[0].flags]
            + spec_reloc_words(rs.skip(1))
    }
}

pub const RADEON_CHUNK_ID_RELOCS: u32 = 0x01;

pub const RADEON_CHUNK_ID_IB: u32 = 0x02;

pub const RADEON_CHUNK_ID_FLAGS: u32 = 0x03;

/// One typed payload section of a submission: its kind, its declared
/// length in 32-bit words, and the backing words themselves.
pub struct Chunk {
    pub chunk_id: u32,
    pub length_dw: u32,
    pub data: Vec<u32>,
}

/// Package a finished command stream as the three chunks of one
/// submission, in the fixed order the driver expects: the instruction
/// buffer, the relocation list (four words per record, so its declared
/// word count is four times the record count), and the reserved two-word
/// flags chunk, currently always zero. The stream itself is read, never
/// changed.
pub fn assemble(cs: &CS) -> (chunks: Vec<Chunk>)
    requires
        cs.spec_ib().len() <= u32::MAX,
        cs.spec_relocs().len() * 4 <= u32::MAX,
    ensures
        chunks@.len() == 3,
        chunks@[0].chunk_id == RADEON_CHUNK_ID_IB,
        chunks@[0].length_dw == cs.spec_ib().len(),
        chunks@[0].data@ == cs.spec_ib(),
        chunks@[1].chunk_id == RADEON_CHUNK_ID_RELOCS,
        chunks@[1].length_dw == cs.spec_relocs().len() * 4,
        chunks@[1].data@ == spec_reloc_words(cs.spec_relocs()),
        chunks@[2].chunk_id == RADEON_CHUNK_ID_FLAGS,
        chunks@[2].length_dw == 2,
        chunks@[2].data@ == seq![0u32, 0u32],
{
    let ib = cs.ib_words();
    let mut ib_data: Vec<u32> = Vec::new();
    let mut i: usize = 0;
    while i < ib.len()
        invariant
            i <= ib.len(),
            ib@ == cs.spec_ib(),
            ib_data@ == cs.spec_ib().take(i as int),
        decreases ib.len() - i,
    {
        ib_data.push(ib[i]);
        proof {
            assert(ib_data@ =~= cs.spec_ib().take(i + 1));
        }
        i = i + 1;
    }
    proof {
        assert(cs.spec_ib().take(ib@.len() as int) =~= cs.spec_ib());
    }
    let chunk0 = Chunk {
        chunk_id: RADEON_CHUNK_ID_IB,
        length_dw: ib.len() as u32,
        data: ib_data,
    };

    let relocs = cs.reloc_records();
    let mut reloc_data: Vec<u32> = Vec::new();
    let mut j: usize = 0;
    while j < relocs.len()
        invariant
            j <= relocs.len(),
            relocs@ == cs.spec_relocs(),
            reloc_data@ == spec_reloc_words(cs.spec_relocs().take(j as int)),
        decreases relocs.len() - j,
    {
        let r = relocs[j];
        reloc_data.push(r.handle);
        reloc_data.push(r.read_domains);
        reloc_data.push(r.write_domain);
        reloc_data.push(r.flags);
        proof {
            let rs = cs.spec_relocs();
            lemma_reloc_words_append(rs.take(j as int), seq![rs[j as int]]);
            assert(rs.take(j + 1) =~= rs.take(j as int) + seq![rs[j as int]]);
            assert(seq![rs[j as int]].skip(1) =~= Seq::<DrmRadeonCsReloc>::empty());
            assert(spec_reloc_words(Seq::<DrmRadeonCsReloc>::empty()) =~= Seq::<u32>::empty());
            assert(spec_reloc_words(seq![rs[j as int]]) =~= seq![
                rs[j as int].handle,
                rs[j as int].read_domains,
                rs[j as int].write_domain,
                rs[j as int].flags,
            ]);
            assert(reloc_data@ =~= spec_reloc_words(rs.take(j + 1)));
        }
        j = j + 1;
    }
    proof {
        assert(cs.spec_relocs().take(relocs@.len() as int) =~= cs.spec_relocs());
    }
    let chunk1 = Chunk {
        chunk_id: RADEON_CHUNK_ID_RELOCS,
        length_dw: (relocs.len() as u32) * 4,
        data: reloc_data,
    };

    let mut flags_data: Vec<u32> = Vec::new();
    flags_data.push(0);
    flags_data.push(0);
    proof {
        assert(flags_data@ =~= seq![0u32, 0u32]);
    }
    let chunk2 = Chunk { chunk_id: RADEON_CHUNK_ID_FLAGS, length_dw: 2, data: flags_data };

    let mut chunks: Vec<Chunk> = Vec::new();
    chunks.push(chunk0);
    chunks.push(chunk1);
    chunks.push(chunk2);
    chunks
}

/// Flattening relocation records into words distributes over
/// concatenation of record lists.
pub proof fn lemma_reloc_words_append(a: Seq<DrmRadeonCsReloc>, b: Seq<DrmRadeonCsReloc>)
    ensures
        spec_reloc_words(a + b) == spec_reloc_words(a) + spec_reloc_words(b),
    decreases a.len(),
{
    if a.len() == 0 {
        assert(a + b =~= b);
        assert(spec_reloc_words(a) + spec_reloc_words(b) =~= spec_reloc_words(b));
    } else {
        assert((a + b).len() > 0);
        assert((a + b)[0] == a[0]);
        assert((a + b).skip(1) =~= a.skip(1) + b);
        lemma_reloc_words_append(a.skip(1), b);
        assert(spec_reloc_words(a + b) =~= spec_reloc_words(a) + spec_reloc_words(b));
    }
}

} // verus!
