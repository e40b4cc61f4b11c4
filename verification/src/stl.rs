//! Binary STL encoding.
//!
//! The on-disk layout is fixed and little-endian: an 80-byte zero header, a
//! 4-byte unsigned triangle count, then one 50-byte record per triangle
//! (normal, three vertices, each component 4 bytes, and a 2-byte attribute
//! count of zero). `stl_encoding` pins the whole buffer byte for byte.

use vstd::prelude::*;
use vstd::pervasive::VecAdditionalExecFns;
use crate::geometry::{Triangle, Vector3};

verus! {

/// Little-endian byte encoding of a 32-bit word, lowest byte first.
pub open spec fn le4(w: u32) -> Seq<u8> {
    seq![
        (w & 0xff) as u8,
        ((w >> 8) & 0xff) as u8,
        ((w >> 16) & 0xff) as u8,
        ((w >> 24) & 0xff) as u8,
    ]
}

/// The 32-bit word whose little-endian encoding is the 4-byte sequence `s`.
pub open spec fn word_of_le4(s: Seq<u8>) -> u32
    recommends
        s.len() == 4,
{
    (s[0] as u32) | ((s[1] as u32) << 8) | ((s[2] as u32) << 16) | ((s[3] as u32) << 24)
}

/// Decoding the little-endian encoding of a word gives the word back.
pub proof fn lemma_le4_word(w: u32)
    ensures
        word_of_le4(le4(w)) == w,
{
    assert({
        &&& w & 0xff < 256
        &&& (w >> 8) & 0xff < 256
        &&& (w >> 16) & 0xff < 256
        &&& (w >> 24) & 0xff < 256
    }) by (bit_vector);
    assert(w == (w & 0xff) | (((w >> 8) & 0xff) << 8) | (((w >> 16) & 0xff) << 16) | (((w >> 24)
        & 0xff) << 24)) by (bit_vector);
}

/// The twelve bytes of one vector: each component little-endian, x, y, z.
pub open spec fn vector_bytes(v: Vector3) -> Seq<u8> {
    le4(v.x) + le4(v.y) + le4(v.z)
}

/// The 50-byte record of one triangle: normal, the three vertices in their
/// stored order, and a zero attribute byte count.
pub open spec fn triangle_record(t: Triangle) -> Seq<u8> {
    vector_bytes(t.normal) + vector_bytes(t.vertices@[0]) + vector_bytes(t.vertices@[1])
        + vector_bytes(t.vertices@[2]) + seq![0u8, 0u8]
}

/// The records of a triangle sequence, in order.
pub open spec fn records(ts: Seq<Triangle>) -> Seq<u8>
    decreases ts.len(),
{
    if ts.len() == 0 {
        Seq::empty()
    } else {
        records(ts.drop_last()) + triangle_record(ts.last())
    }
}

/// Each record is 50 bytes long.
pub proof fn lemma_records_len(ts: Seq<Triangle>)
    ensures
        records(ts).len() == 50 * ts.len(),
    decreases ts.len(),
{
    if ts.len() > 0 {
        lemma_records_len(ts.drop_last());
    }
}

/// The 84 bytes that precede the records before the count is patched in:
/// the zero header and a zero placeholder count.
pub open spec fn preamble() -> Seq<u8> {
    Seq::new(84, |i: int| 0u8)
}

/// The complete binary STL buffer for a triangle sequence: the zero header,
/// the little-endian triangle count, and the records in order.
pub open spec fn stl_encoding(ts: Seq<Triangle>) -> Seq<u8> {
    Seq::new(80, |i: int| 0u8) + le4(ts.len() as u32) + records(ts)
}

/// Law: round trip. The encoded buffer is exactly 84 bytes plus one 50-byte
/// record per triangle, the count field at offset 80, read little-endian,
/// equals the number of triangles, and the 80-byte header region is all
/// zero — so the count field and the number of records that follow the
/// preamble always agree.
pub proof fn lemma_stl_round_trip(ts: Seq<Triangle>)
    requires
        ts.len() < 0x1_0000_0000,
    ensures
        stl_encoding(ts).len() == 84 + 50 * ts.len(),
        word_of_le4(stl_encoding(ts).subrange(80, 84)) == ts.len(),
        forall|i: int| 0 <= i < 80 ==> stl_encoding(ts)[i] == 0,
{
    lemma_records_len(ts);
    lemma_le4_word(ts.len() as u32);
    assert(stl_encoding(ts).subrange(80, 84) =~= le4(ts.len() as u32));
}

/// Writer for STL (STereoLithography) files in binary format.
///
/// The buffer always holds the zero header, a placeholder count of zero, and
/// the records of the triangles written so far; `finalize` patches the count
/// in place.
pub struct StlWriter {
    /// The buffer containing the STL data.
    pub buffer: Vec<u8>,
    /// The number of triangles written.
    pub triangle_count: u32,
    /// The triangles written so far.
    pub written: Ghost<Seq<Triangle>>,
}

impl StlWriter {
    /// The writer's invariant: the count matches the triangles written, and
    /// the buffer is the preamble followed by their records.
    pub open spec fn wf(self) -> bool {
        &&& self.triangle_count as int == self.written@.len()
        &&& self.buffer@ == preamble() + records(self.written@)
    }

    /// Creates a new STL writer holding the header and a placeholder count.
    pub fn new() -> (r: Self)
        ensures
            r.wf(),
            r.written@ == Seq::<Triangle>::empty(),
    {
        let mut buffer: Vec<u8> = Vec::new();
        let mut i: usize = 0;
        while i < 84
            invariant
                i <= 84,
                buffer@ == Seq::new(i as nat, |j: int| 0u8),
            decreases 84 - i,
        {
            buffer.push(0u8);
            proof {
                assert(buffer@ =~= Seq::new((i + 1) as nat, |j: int| 0u8));
            }
            i += 1;
        }
        let r = Self { buffer, triangle_count: 0, written: Ghost(Seq::empty()) };
        proof {
            assert(r.buffer@ =~= preamble() + records(r.written@));
        }
        r
    }

    /// Appends one 32-bit word to the buffer, little-endian.
    fn push_word(buffer: &mut Vec<u8>, w: u32)
        ensures
            final(buffer)@ == old(buffer)@ + le4(w),
    {
        buffer.push((w & 0xff) as u8);
        buffer.push(((w >> 8) & 0xff) as u8);
        buffer.push(((w >> 16) & 0xff) as u8);
        buffer.push(((w >> 24) & 0xff) as u8);
        proof {
            assert(buffer@ =~= old(buffer)@ + le4(w));
        }
    }

    /// Writes one triangle record to the buffer.
    ///
    /// The count field of the format is 32 bits wide, so no more than
    /// 0xffff_ffff triangles can ever be recorded.
    pub fn write_triangle(&mut self, triangle: &Triangle)
        requires
            old(self).wf(),
            old(self).triangle_count < 0xffff_ffffu32,
        ensures
            final(self).wf(),
            final(self).written@ == old(self).written@.push(*triangle),
            final(self).triangle_count == old(self).triangle_count + 1,
    {
        Self::push_word(&mut self.buffer, triangle.normal.x);
        Self::push_word(&mut self.buffer, triangle.normal.y);
        Self::push_word(&mut self.buffer, triangle.normal.z);
        Self::push_word(&mut self.buffer, triangle.vertices[0].x);
        Self::push_word(&mut self.buffer, triangle.vertices[0].y);
        Self::push_word(&mut self.buffer, triangle.vertices[0].z);
        Self::push_word(&mut self.buffer, triangle.vertices[1].x);
        Self::push_word(&mut self.buffer, triangle.vertices[1].y);
        Self::push_word(&mut self.buffer, triangle.vertices[1].z);
        Self::push_word(&mut self.buffer, triangle.vertices[2].x);
        Self::push_word(&mut self.buffer, triangle.vertices[2].y);
        Self::push_word(&mut self.buffer, triangle.vertices[2].z);
        self.buffer.push(0u8);
        self.buffer.push(0u8);
        self.triangle_count = self.triangle_count + 1;
        self.written = Ghost(old(self).written@.push(*triangle));
        proof {
            let w = old(self).written@;
            assert(self.written@.drop_last() =~= w);
            assert(records(self.written@) == records(w) + triangle_record(*triangle));
            assert(self.buffer@ =~= preamble() + records(self.written@));
        }
    }

    /// Finalizes the STL data: patches the triangle count into the buffer in
    /// place and returns the buffer, which is then exactly the binary STL
    /// encoding of the triangles written.
    pub fn finalize(self) -> (r: Vec<u8>)
        requires
            self.wf(),
        ensures
            r@ == stl_encoding(self.written@),
    {
        let mut buffer = self.buffer;
        let c = self.triangle_count;
        proof {
            lemma_records_len(self.written@);
        }
        buffer.set(80, (c & 0xff) as u8);
        buffer.set(81, ((c >> 8) & 0xff) as u8);
        buffer.set(82, ((c >> 16) & 0xff) as u8);
        buffer.set(83, ((c >> 24) & 0xff) as u8);
        proof {
            assert(buffer@ =~= stl_encoding(self.written@));
        }
        buffer
    }
}

impl Default for StlWriter {
    /// A fresh writer, as `StlWriter::new` returns it.
    fn default() -> (r: Self)
        ensures
            r.wf(),
            r.written@ == Seq::<Triangle>::empty(),
    {
        Self::new()
    }
}

} // verus!
