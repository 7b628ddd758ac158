use vstd::prelude::*;

verus! {

/// Height of a block in the chain.
pub type BlockNumber = u64;

/// A 256-bit block hash, held as four 64-bit words, most significant first.
#[derive(Clone, Copy, Debug, PartialEq, Eq, Structural, Hash)]
pub struct BlockHash {
    pub w0: u64,
    pub w1: u64,
    pub w2: u64,
    pub w3: u64,
}

impl BlockHash {
    /// Builds a hash from its four words, most significant first.
    pub fn new(w0: u64, w1: u64, w2: u64, w3: u64) -> (r: BlockHash)
        ensures
            r == (BlockHash { w0, w1, w2, w3 }),
    {
        BlockHash { w0, w1, w2, w3 }
    }

    /// Reads a hash from exactly 32 bytes, big-endian; any other length gives `None`.
    pub fn from_slice(b: &[u8]) -> (r: Option<BlockHash>)
        ensures
            r is Some <==> b@.len() == 32,
            r matches Some(h) ==> h.w0 == word_at(b@, 0) && h.w1 == word_at(b@, 8) && h.w2 == word_at(
                b@,
                16,
            ) && h.w3 == word_at(b@, 24),
    {
        if b.len() != 32 {
            return None;
        }
        Some(
            BlockHash {
                w0: read_word(b, 0),
                w1: read_word(b, 8),
                w2: read_word(b, 16),
                w3: read_word(b, 24),
            },
        )
    }

    /// The 32 bytes of the hash, big-endian.
    pub fn to_bytes(&self) -> (r: Vec<u8>)
        ensures
            r@.len() == 32,
            word_at(r@, 0) == self.w0,
            word_at(r@, 8) == self.w1,
            word_at(r@, 16) == self.w2,
            word_at(r@, 24) == self.w3,
    {
        let mut r: Vec<u8> = Vec::new();
        push_word(&mut r, self.w0);
        push_word(&mut r, self.w1);
        push_word(&mut r, self.w2);
        push_word(&mut r, self.w3);
        r
    }

    /// The word that picks the bucket of a hash in a `DigestSet`.
    pub open spec fn bucket_key(self) -> u64 {
        self.w0
    }
}

/// The big-endian word of the eight bytes `b0` (most significant) to `b7`.
pub open spec fn be_word(b0: u8, b1: u8, b2: u8, b3: u8, b4: u8, b5: u8, b6: u8, b7: u8) -> u64 {
    (b0 as u64) << 56u64 | (b1 as u64) << 48u64 | (b2 as u64) << 40u64 | (b3 as u64) << 32u64 | (
    b4 as u64) << 24u64 | (b5 as u64) << 16u64 | (b6 as u64) << 8u64 | (b7 as u64)
}

/// The big-endian word of the eight bytes of `b` from index `i`.
pub open spec fn word_at(b: Seq<u8>, i: int) -> u64 {
    be_word(b[i], b[i + 1], b[i + 2], b[i + 3], b[i + 4], b[i + 5], b[i + 6], b[i + 7])
}

fn read_word(b: &[u8], i: usize) -> (r: u64)
    requires
        i + 8 <= b@.len(),
    ensures
        r == word_at(b@, i as int),
{
    (b[i] as u64) << 56u64 | (b[i + 1] as u64) << 48u64 | (b[i + 2] as u64) << 40u64 | (b[i + 3] as u64)
        << 32u64 | (b[i + 4] as u64) << 24u64 | (b[i + 5] as u64) << 16u64 | (b[i + 6] as u64)
        << 8u64 | (b[i + 7] as u64)
}

proof fn lemma_word_bytes(w: u64)
    ensures
        be_word(
            (w >> 56u64) as u8,
            (w >> 48u64) as u8,
            (w >> 40u64) as u8,
            (w >> 32u64) as u8,
            (w >> 24u64) as u8,
            (w >> 16u64) as u8,
            (w >> 8u64) as u8,
            w as u8,
        ) == w,
{
    assert(((((w >> 56u64) as u8) as u64) << 56u64 | (((w >> 48u64) as u8) as u64) << 48u64 | (((w
        >> 40u64) as u8) as u64) << 40u64 | (((w >> 32u64) as u8) as u64) << 32u64 | (((w >> 24u64)
        as u8) as u64) << 24u64 | (((w >> 16u64) as u8) as u64) << 16u64 | (((w >> 8u64) as u8)
        as u64) << 8u64 | ((w as u8) as u64)) == w) by (bit_vector);
}

/// Appends the eight bytes of `w`, big-endian.
fn push_word(r: &mut Vec<u8>, w: u64)
    ensures
        final(r)@.len() == old(r)@.len() + 8,
        final(r)@.subrange(0, old(r)@.len() as int) == old(r)@,
        word_at(final(r)@, old(r)@.len() as int) == w,
{
    let ghost start = r@.len() as int;
    r.push((w >> 56u64) as u8);
    r.push((w >> 48u64) as u8);
    r.push((w >> 40u64) as u8);
    r.push((w >> 32u64) as u8);
    r.push((w >> 24u64) as u8);
    r.push((w >> 16u64) as u8);
    r.push((w >> 8u64) as u8);
    r.push(w as u8);
    proof {
        lemma_word_bytes(w);
        assert(r@.subrange(0, start) =~= old(r)@);
    }
}

} // verus!
