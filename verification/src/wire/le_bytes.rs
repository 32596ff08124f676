//! Little-endian encoding and decoding of the fixed-width integers that make up
//! every packed message of the protocol.

use vstd::prelude::*;

verus! {

/// The two bytes of `v`, least significant first.
pub open spec fn u16_le(v: u16) -> Seq<u8> {
    seq![(v & 0xff) as u8, ((v >> 8u16) & 0xff) as u8]
}

/// The four bytes of `v`, least significant first.
pub open spec fn u32_le(v: u32) -> Seq<u8> {
    seq![
        (v & 0xff) as u8,
        ((v >> 8u32) & 0xff) as u8,
        ((v >> 16u32) & 0xff) as u8,
        ((v >> 24u32) & 0xff) as u8,
    ]
}

/// The eight bytes of `v`, least significant first.
pub open spec fn u64_le(v: u64) -> Seq<u8> {
    seq![
        (v & 0xff) as u8,
        ((v >> 8u64) & 0xff) as u8,
        ((v >> 16u64) & 0xff) as u8,
        ((v >> 24u64) & 0xff) as u8,
        ((v >> 32u64) & 0xff) as u8,
        ((v >> 40u64) & 0xff) as u8,
        ((v >> 48u64) & 0xff) as u8,
        ((v >> 56u64) & 0xff) as u8,
    ]
}

/// The value of two little-endian bytes.
pub open spec fn u16_from_le(b0: u8, b1: u8) -> u16 {
    (b0 as u16) | ((b1 as u16) << 8u16)
}

/// The value of four little-endian bytes.
pub open spec fn u32_from_le(b0: u8, b1: u8, b2: u8, b3: u8) -> u32 {
    (b0 as u32) | ((b1 as u32) << 8u32) | ((b2 as u32) << 16u32) | ((b3 as u32) << 24u32)
}

/// The value of eight little-endian bytes.
pub open spec fn u64_from_le(b: Seq<u8>) -> u64 {
    (b[0] as u64) | ((b[1] as u64) << 8u64) | ((b[2] as u64) << 16u64) | ((b[3] as u64)
        << 24u64) | ((b[4] as u64) << 32u64) | ((b[5] as u64) << 40u64) | ((b[6] as u64)
        << 48u64) | ((b[7] as u64) << 56u64)
}

/// The 16-bit value stored little-endian at `off` in `s`.
pub open spec fn seq_u16_at(s: Seq<u8>, off: int) -> u16 {
    u16_from_le(s[off], s[off + 1])
}

/// The 32-bit value stored little-endian at `off` in `s`.
pub open spec fn seq_u32_at(s: Seq<u8>, off: int) -> u32 {
    u32_from_le(s[off], s[off + 1], s[off + 2], s[off + 3])
}

/// The 64-bit value stored little-endian at `off` in `s`.
pub open spec fn seq_u64_at(s: Seq<u8>, off: int) -> u64 {
    u64_from_le(s.subrange(off, off + 8))
}

/// Decoding the encoding of a 16-bit value gives the value back.
pub proof fn lemma_u16_roundtrip(v: u16)
    ensures
        u16_from_le(u16_le(v)[0], u16_le(v)[1]) == v,
{
    let b0 = (v & 0xff) as u8;
    let b1 = ((v >> 8u16) & 0xff) as u8;
    assert((b0 as u16) | ((b1 as u16) << 8u16) == v) by (bit_vector)
        requires
            b0 == (v & 0xff) as u8,
            b1 == ((v >> 8u16) & 0xff) as u8,
    ;
}

/// Decoding the encoding of a 32-bit value gives the value back.
pub proof fn lemma_u32_roundtrip(v: u32)
    ensures
        u32_from_le(u32_le(v)[0], u32_le(v)[1], u32_le(v)[2], u32_le(v)[3]) == v,
{
    let b0 = (v & 0xff) as u8;
    let b1 = ((v >> 8u32) & 0xff) as u8;
    let b2 = ((v >> 16u32) & 0xff) as u8;
    let b3 = ((v >> 24u32) & 0xff) as u8;
    assert((b0 as u32) | ((b1 as u32) << 8u32) | ((b2 as u32) << 16u32) | ((b3 as u32) << 24u32)
        == v) by (bit_vector)
        requires
            b0 == (v & 0xff) as u8,
            b1 == ((v >> 8u32) & 0xff) as u8,
            b2 == ((v >> 16u32) & 0xff) as u8,
            b3 == ((v >> 24u32) & 0xff) as u8,
    ;
}

/// Appends the little-endian bytes of `v`.
pub fn push_u16_le(out: &mut Vec<u8>, v: u16)
    ensures
        final(out)@ == old(out)@ + u16_le(v),
{
    out.push((v & 0xff) as u8);
    out.push(((v >> 8u16) & 0xff) as u8);
    assert(out@ =~= old(out)@ + u16_le(v));
}

/// Appends the little-endian bytes of `v`.
pub fn push_u32_le(out: &mut Vec<u8>, v: u32)
    ensures
        final(out)@ == old(out)@ + u32_le(v),
{
    out.push((v & 0xff) as u8);
    out.push(((v >> 8u32) & 0xff) as u8);
    out.push(((v >> 16u32) & 0xff) as u8);
    out.push(((v >> 24u32) & 0xff) as u8);
    assert(out@ =~= old(out)@ + u32_le(v));
}

/// Reads the little-endian 16-bit value at `off`.
pub fn read_u16_le(b: &[u8], off: usize) -> (r: u16)
    requires
        off + 2 <= b@.len(),
    ensures
        r == seq_u16_at(b@, off as int),
{
    (b[off] as u16) | ((b[off + 1] as u16) << 8u16)
}

/// Reads the little-endian 32-bit value at `off`.
pub fn read_u32_le(b: &[u8], off: usize) -> (r: u32)
    requires
        off + 4 <= b@.len(),
    ensures
        r == seq_u32_at(b@, off as int),
{
    (b[off] as u32) | ((b[off + 1] as u32) << 8u32) | ((b[off + 2] as u32) << 16u32) | ((b[off
        + 3] as u32) << 24u32)
}

/// Encoding the decoding of four bytes gives the bytes back.
pub proof fn lemma_u32_decode_roundtrip(b0: u8, b1: u8, b2: u8, b3: u8)
    ensures
        u32_le(u32_from_le(b0, b1, b2, b3)) == seq![b0, b1, b2, b3],
{
    let v = u32_from_le(b0, b1, b2, b3);
    assert((v & 0xff) as u8 == b0 && ((v >> 8u32) & 0xff) as u8 == b1 && ((v >> 16u32) & 0xff) as u8
        == b2 && ((v >> 24u32) & 0xff) as u8 == b3) by (bit_vector)
        requires
            v == (b0 as u32) | ((b1 as u32) << 8u32) | ((b2 as u32) << 16u32) | ((b3 as u32)
                << 24u32),
    ;
    assert(u32_le(v) =~= seq![b0, b1, b2, b3]);
}

/// Encoding the decoding of two bytes gives the bytes back.
pub proof fn lemma_u16_decode_roundtrip(b0: u8, b1: u8)
    ensures
        u16_le(u16_from_le(b0, b1)) == seq![b0, b1],
{
    let v = u16_from_le(b0, b1);
    assert((v & 0xff) as u8 == b0 && ((v >> 8u16) & 0xff) as u8 == b1) by (bit_vector)
        requires
            v == (b0 as u16) | ((b1 as u16) << 8u16),
    ;
    assert(u16_le(v) =~= seq![b0, b1]);
}

/// The little-endian bytes of each value of `s`, one after the other.
pub open spec fn u64s_le(s: Seq<u64>) -> Seq<u8>
    decreases s.len(),
{
    if s.len() == 0 {
        Seq::empty()
    } else {
        u64s_le(s.drop_last()) + u64_le(s.last())
    }
}

/// The `n` little-endian 32-bit values stored one after the other from `off` in `s`.
pub open spec fn seq_u32s_at(s: Seq<u8>, off: int, n: nat) -> Seq<u32> {
    Seq::new(n, |i: int| seq_u32_at(s, off + 4 * i))
}

/// Appends the little-endian bytes of `v`.
pub fn push_u64_le(out: &mut Vec<u8>, v: u64)
    ensures
        final(out)@ == old(out)@ + u64_le(v),
{
    out.push((v & 0xff) as u8);
    out.push(((v >> 8u64) & 0xff) as u8);
    out.push(((v >> 16u64) & 0xff) as u8);
    out.push(((v >> 24u64) & 0xff) as u8);
    out.push(((v >> 32u64) & 0xff) as u8);
    out.push(((v >> 40u64) & 0xff) as u8);
    out.push(((v >> 48u64) & 0xff) as u8);
    out.push(((v >> 56u64) & 0xff) as u8);
    assert(out@ =~= old(out)@ + u64_le(v));
}

/// Appends the little-endian bytes of each value of `vals`, in order.
pub fn push_u64s_le(out: &mut Vec<u8>, vals: &[u64])
    ensures
        final(out)@ == old(out)@ + u64s_le(vals@),
{
    let mut i: usize = 0;
    while i < vals.len()
        invariant
            i <= vals@.len(),
            out@ == old(out)@ + u64s_le(vals@.take(i as int)),
        decreases vals@.len() - i,
    {
        let ghost before = out@;
        push_u64_le(out, vals[i]);
        assert(vals@.take(i + 1).drop_last() =~= vals@.take(i as int));
        assert(out@ =~= old(out)@ + u64s_le(vals@.take(i + 1)));
        i = i + 1;
    }
    assert(vals@.take(vals@.len() as int) =~= vals@);
}

/// Reads `N` little-endian 32-bit values stored one after the other from `off`.
pub fn read_u32_array<const N: usize>(b: &[u8], off: usize) -> (r: [u32; N])
    requires
        off + 4 * N <= b@.len(),
    ensures
        r@ == seq_u32s_at(b@, off as int, N as nat),
{
    let mut r = [0u32; N];
    let mut i: usize = 0;
    while i < N
        invariant
            i <= N,
            off + 4 * N <= b@.len(),
            r@.len() == N,
            forall|j: int| 0 <= j < i ==> r@[j] == seq_u32_at(b@, off + 4 * j),
        decreases N - i,
    {
        assert(4 * i + 4 <= 4 * N) by (nonlinear_arith)
            requires
                i < N,
        ;
        assert(b@.len() == b.len());
        assert(off + 4 * i + 4 <= b.len());
        r[i] = read_u32_le(b, off + 4 * i);
        i = i + 1;
    }
    assert(r@ =~= seq_u32s_at(b@, off as int, N as nat));
    r
}

/// The encoding of `n` 64-bit values takes eight bytes per value.
pub proof fn lemma_u64s_le_len(s: Seq<u64>)
    ensures
        u64s_le(s).len() == 8 * s.len(),
    decreases s.len(),
{
    if s.len() > 0 {
        lemma_u64s_le_len(s.drop_last());
    }
}

/// Decoding the encoding of a 64-bit value gives the value back.
pub proof fn lemma_u64_roundtrip(v: u64)
    ensures
        u64_from_le(u64_le(v)) == v,
{
    let b = u64_le(v);
    let b0 = b[0];
    let b1 = b[1];
    let b2 = b[2];
    let b3 = b[3];
    let b4 = b[4];
    let b5 = b[5];
    let b6 = b[6];
    let b7 = b[7];
    assert((b0 as u64) | ((b1 as u64) << 8u64) | ((b2 as u64) << 16u64) | ((b3 as u64) << 24u64)
        | ((b4 as u64) << 32u64) | ((b5 as u64) << 40u64) | ((b6 as u64) << 48u64) | ((b7 as u64)
        << 56u64) == v) by (bit_vector)
        requires
            b0 == (v & 0xff) as u8,
            b1 == ((v >> 8u64) & 0xff) as u8,
            b2 == ((v >> 16u64) & 0xff) as u8,
            b3 == ((v >> 24u64) & 0xff) as u8,
            b4 == ((v >> 32u64) & 0xff) as u8,
            b5 == ((v >> 40u64) & 0xff) as u8,
            b6 == ((v >> 48u64) & 0xff) as u8,
            b7 == ((v >> 56u64) & 0xff) as u8,
    ;
}

/// Byte `j` of value `i` in the encoding of a sequence of 64-bit values is byte `j` of
/// the encoding of that value: value `i` occupies bytes `8 * i` to `8 * i + 8`.
pub proof fn lemma_u64s_le_index(s: Seq<u64>, i: int)
    requires
        0 <= i < s.len(),
    ensures
        u64s_le(s).len() == 8 * s.len(),
        forall|j: int| 0 <= j < 8 ==> #[trigger] u64s_le(s)[8 * i + j] == u64_le(s[i])[j],
    decreases s.len(),
{
    lemma_u64s_le_len(s);
    lemma_u64s_le_len(s.drop_last());
    if i < s.len() - 1 {
        lemma_u64s_le_index(s.drop_last(), i);
        assert forall|j: int| 0 <= j < 8 implies #[trigger] u64s_le(s)[8 * i + j] == u64_le(
            s[i],
        )[j] by {
            assert(u64s_le(s.drop_last())[8 * i + j] == u64_le(s.drop_last()[i])[j]);
        }
    }
}

/// Value `i` of a sequence of 64-bit values is read back from its encoding at byte
/// `8 * i`.
pub proof fn lemma_u64s_le_at(s: Seq<u64>, i: int)
    requires
        0 <= i < s.len(),
    ensures
        seq_u64_at(u64s_le(s), 8 * i) == s[i],
{
    lemma_u64s_le_index(s, i);
    lemma_u64_roundtrip(s[i]);
    assert(u64s_le(s).subrange(8 * i, 8 * i + 8) =~= u64_le(s[i])) by {
        assert forall|j: int| 0 <= j < 8 implies u64s_le(s).subrange(8 * i, 8 * i + 8)[j]
            == u64_le(s[i])[j] by {
            assert(u64s_le(s)[8 * i + j] == u64_le(s[i])[j]);
        }
    }
}

/// Reads the little-endian 64-bit value at `off`.
pub fn read_u64_le(b: &[u8], off: usize) -> (r: u64)
    requires
        off + 8 <= b@.len(),
    ensures
        r == seq_u64_at(b@, off as int),
{
    let r = (b[off] as u64) | ((b[off + 1] as u64) << 8u64) | ((b[off + 2] as u64) << 16u64) | ((
    b[off + 3] as u64) << 24u64) | ((b[off + 4] as u64) << 32u64) | ((b[off + 5] as u64)
        << 40u64) | ((b[off + 6] as u64) << 48u64) | ((b[off + 7] as u64) << 56u64);
    assert(b@.subrange(off as int, off + 8)[0] == b@[off as int]);
    r
}

/// Reads `N` bytes from `off`.
pub fn read_u8_array<const N: usize>(b: &[u8], off: usize) -> (r: [u8; N])
    requires
        off + N <= b@.len(),
    ensures
        r@ == b@.subrange(off as int, off + N),
{
    let mut r = [0u8; N];
    let mut i: usize = 0;
    while i < N
        invariant
            i <= N,
            off + N <= b@.len(),
            r@.len() == N,
            forall|j: int| 0 <= j < i ==> r@[j] == b@[off + j],
        decreases N - i,
    {
        assert(b@.len() == b.len());
        r[i] = b[off + i];
        i = i + 1;
    }
    assert(r@ =~= b@.subrange(off as int, off + N));
    r
}

} // verus!
