use vstd::prelude::*;

verus! {

/// Size in bytes of one `SphereData` record as the shader reads it.
pub const SPHERE_DATA_SIZE: usize = 16;

/// IEEE-754 single-precision bit pattern of `1.0`.
pub const ONE_F32_BITS: u32 = 0x3f80_0000;

/// The four bytes of `w`, least significant first: how a 32-bit scalar sits in a
/// host-shareable GPU buffer.
pub open spec fn le_bytes(w: u32) -> Seq<u8> {
    seq![
        (w & 0xff) as u8,
        ((w >> 8u32) & 0xff) as u8,
        ((w >> 16u32) & 0xff) as u8,
        ((w >> 24u32) & 0xff) as u8,
    ]
}

/// The 32-bit scalar stored little-endian in `b[i..i + 4]`.
pub open spec fn le_word(b: Seq<u8>, i: int) -> u32 {
    (b[i] as u32) | ((b[i + 1] as u32) << 8u32) | ((b[i + 2] as u32) << 16u32) | ((b[i + 3]
        as u32) << 24u32)
}

/// The sphere that the compute shader ray-traces.
///
/// Each component is kept as the bit pattern of a 32-bit float, so the record is
/// exactly what the uniform buffer carries: `center` then `radius`, no padding.
#[derive(Clone, Copy, Debug, PartialEq, Eq)]
pub struct SphereData {
    pub center: [u32; 3],
    pub radius: u32,
}

impl SphereData {
    /// The uniform-buffer image of this record: three center components and the
    /// radius, four little-endian bytes each.
    pub open spec fn bytes(self) -> Seq<u8> {
        le_bytes(self.center@[0]) + le_bytes(self.center@[1]) + le_bytes(self.center@[2])
            + le_bytes(self.radius)
    }

    pub fn new(center: [u32; 3], radius: u32) -> (r: SphereData)
        ensures
            r.center@ == center@,
            r.radius == radius,
    {
        SphereData { center, radius }
    }

    /// The unit sphere at the origin.
    pub fn unit() -> (r: SphereData)
        ensures
            r == (SphereData { center: [0u32, 0u32, 0u32], radius: ONE_F32_BITS }),
            r.center@ == seq![0u32, 0u32, 0u32],
    {
        let r = SphereData { center: [0, 0, 0], radius: ONE_F32_BITS };
        assert(r.center@ =~= seq![0u32, 0u32, 0u32]);
        r
    }

    /// The bytes to upload into the uniform buffer.
    pub fn to_bytes(&self) -> (r: Vec<u8>)
        ensures
            r@ == self.bytes(),
            r@.len() == SPHERE_DATA_SIZE,
    {
        let mut out: Vec<u8> = Vec::with_capacity(SPHERE_DATA_SIZE);
        push_word(&mut out, self.center[0]);
        push_word(&mut out, self.center[1]);
        push_word(&mut out, self.center[2]);
        push_word(&mut out, self.radius);
        assert(out@ =~= self.bytes());
        out
    }

    /// Reads a record back from a uniform-buffer image; `None` unless `b` holds
    /// exactly one record.
    pub fn from_bytes(b: &[u8]) -> (r: Option<SphereData>)
        ensures
            r is Some <==> b@.len() == SPHERE_DATA_SIZE,
            r is Some ==> r->0.bytes() == b@,
    {
        if b.len() != SPHERE_DATA_SIZE {
            return None;
        }
        let c0 = read_word(b, 0);
        let c1 = read_word(b, 4);
        let c2 = read_word(b, 8);
        let rad = read_word(b, 12);
        let s = SphereData { center: [c0, c1, c2], radius: rad };
        proof {
            lemma_word_bytes(b@, 0);
            lemma_word_bytes(b@, 4);
            lemma_word_bytes(b@, 8);
            lemma_word_bytes(b@, 12);
            assert(s.bytes() =~= b@);
        }
        Some(s)
    }
}

fn push_word(out: &mut Vec<u8>, w: u32)
    ensures
        final(out)@ == old(out)@ + le_bytes(w),
{
    out.push((w & 0xff) as u8);
    out.push(((w >> 8u32) & 0xff) as u8);
    out.push(((w >> 16u32) & 0xff) as u8);
    out.push(((w >> 24u32) & 0xff) as u8);
    assert(final(out)@ =~= old(out)@ + le_bytes(w));
}

fn read_word(b: &[u8], i: usize) -> (r: u32)
    requires
        i + 4 <= b@.len(),
    ensures
        r == le_word(b@, i as int),
{
    (b[i] as u32) | ((b[i + 1] as u32) << 8u32) | ((b[i + 2] as u32) << 16u32) | ((b[i + 3]
        as u32) << 24u32)
}

/// Reading a word back from its own bytes gives the word.
pub proof fn lemma_bytes_word(w: u32)
    ensures
        le_word(le_bytes(w), 0) == w,
{
    let b0 = (w & 0xff) as u8;
    let b1 = ((w >> 8u32) & 0xff) as u8;
    let b2 = ((w >> 16u32) & 0xff) as u8;
    let b3 = ((w >> 24u32) & 0xff) as u8;
    assert((b0 as u32) | ((b1 as u32) << 8u32) | ((b2 as u32) << 16u32) | ((b3 as u32)
        << 24u32) == w) by (bit_vector)
        requires
            b0 == (w & 0xff) as u8,
            b1 == ((w >> 8u32) & 0xff) as u8,
            b2 == ((w >> 16u32) & 0xff) as u8,
            b3 == ((w >> 24u32) & 0xff) as u8,
    ;
}

/// Writing out a word read from four bytes gives those bytes.
pub proof fn lemma_word_bytes(b: Seq<u8>, i: int)
    requires
        0 <= i,
        i + 4 <= b.len(),
    ensures
        le_bytes(le_word(b, i)) == b.subrange(i, i + 4),
{
    let b0 = b[i];
    let b1 = b[i + 1];
    let b2 = b[i + 2];
    let b3 = b[i + 3];
    let w = le_word(b, i);
    assert(w == (b0 as u32) | ((b1 as u32) << 8u32) | ((b2 as u32) << 16u32) | ((b3 as u32)
        << 24u32));
    assert((w & 0xff) as u8 == b0 && ((w >> 8u32) & 0xff) as u8 == b1 && ((w >> 16u32) & 0xff)
        as u8 == b2 && ((w >> 24u32) & 0xff) as u8 == b3) by (bit_vector)
        requires
            w == (b0 as u32) | ((b1 as u32) << 8u32) | ((b2 as u32) << 16u32) | ((b3 as u32)
                << 24u32),
    ;
    assert(le_bytes(w) =~= b.subrange(i, i + 4));
}

/// A record survives the trip through the uniform buffer: its image is sixteen
/// bytes holding the three center components and then the radius, each as four
/// little-endian bytes with no padding between them; reading each word back at
/// those offsets gives the record's values, so two records with the same image are
/// the same record.
pub proof fn lemma_upload_round_trip(s: SphereData, t: SphereData)
    ensures
        s.bytes().len() == SPHERE_DATA_SIZE,
        s.bytes().subrange(0, 4) == le_bytes(s.center@[0]),
        s.bytes().subrange(4, 8) == le_bytes(s.center@[1]),
        s.bytes().subrange(8, 12) == le_bytes(s.center@[2]),
        s.bytes().subrange(12, 16) == le_bytes(s.radius),
        le_word(s.bytes(), 0) == s.center@[0],
        le_word(s.bytes(), 4) == s.center@[1],
        le_word(s.bytes(), 8) == s.center@[2],
        le_word(s.bytes(), 12) == s.radius,
        s.bytes() == t.bytes() ==> s.center@ == t.center@ && s.radius == t.radius,
{
    let b = s.bytes();
    assert(b.subrange(0, 4) =~= le_bytes(s.center@[0]));
    assert(b.subrange(4, 8) =~= le_bytes(s.center@[1]));
    assert(b.subrange(8, 12) =~= le_bytes(s.center@[2]));
    assert(b.subrange(12, 16) =~= le_bytes(s.radius));
    lemma_bytes_word(s.center@[0]);
    lemma_bytes_word(s.center@[1]);
    lemma_bytes_word(s.center@[2]);
    lemma_bytes_word(s.radius);
    lemma_word_at(b, 0, le_bytes(s.center@[0]));
    lemma_word_at(b, 4, le_bytes(s.center@[1]));
    lemma_word_at(b, 8, le_bytes(s.center@[2]));
    lemma_word_at(b, 12, le_bytes(s.radius));
    if b == t.bytes() {
        let c = t.bytes();
        lemma_bytes_word(t.center@[0]);
        lemma_bytes_word(t.center@[1]);
        lemma_bytes_word(t.center@[2]);
        lemma_bytes_word(t.radius);
        assert(c.subrange(0, 4) =~= le_bytes(t.center@[0]));
        assert(c.subrange(4, 8) =~= le_bytes(t.center@[1]));
        assert(c.subrange(8, 12) =~= le_bytes(t.center@[2]));
        assert(c.subrange(12, 16) =~= le_bytes(t.radius));
        lemma_word_at(c, 0, le_bytes(t.center@[0]));
        lemma_word_at(c, 4, le_bytes(t.center@[1]));
        lemma_word_at(c, 8, le_bytes(t.center@[2]));
        lemma_word_at(c, 12, le_bytes(t.radius));
        assert(s.center@ =~= t.center@);
    }
}

/// The word at offset `i` depends only on the four bytes there.
proof fn lemma_word_at(b: Seq<u8>, i: int, part: Seq<u8>)
    requires
        0 <= i,
        i + 4 <= b.len(),
        b.subrange(i, i + 4) == part,
    ensures
        le_word(b, i) == le_word(part, 0),
{
    assert(b[i] == part[0] && b[i + 1] == part[1] && b[i + 2] == part[2] && b[i + 3] == part[3]);
}

} // verus!
