//! Byte-level helpers shared by the decoder and the companion-instruction
//! matcher: range equality, little-endian 16- and 64-bit fields.

use vstd::prelude::*;

verus! {

/// The unsigned value of the two little-endian bytes at `i` of `s`.
pub open spec fn le16(s: Seq<u8>, i: int) -> int
    recommends
        0 <= i,
        i + 2 <= s.len(),
{
    s[i] + 0x100 * s[i + 1]
}

/// The unsigned value of the eight little-endian bytes of `s`.
pub open spec fn le64(s: Seq<u8>) -> int
    recommends
        s.len() == 8,
{
    s[0] + 0x100 * s[1] + 0x1_0000 * s[2] + 0x100_0000 * s[3] + 0x1_0000_0000 * s[4]
        + 0x100_0000_0000 * s[5] + 0x1_0000_0000_0000 * s[6] + 0x100_0000_0000_0000 * s[7]
}

/// The eight little-endian bytes of `t`.
pub open spec fn le64_bytes(t: u64) -> Seq<u8> {
    seq![
        (t as int % 0x100) as u8,
        (t as int / 0x100 % 0x100) as u8,
        (t as int / 0x1_0000 % 0x100) as u8,
        (t as int / 0x100_0000 % 0x100) as u8,
        (t as int / 0x1_0000_0000 % 0x100) as u8,
        (t as int / 0x100_0000_0000 % 0x100) as u8,
        (t as int / 0x1_0000_0000_0000 % 0x100) as u8,
        (t as int / 0x100_0000_0000_0000 % 0x100) as u8,
    ]
}

/// Encoding and decoding of a 64-bit little-endian field invert each other.
pub proof fn lemma_le64_roundtrip(t: u64)
    ensures
        le64(le64_bytes(t)) == t as int,
{
    let ti = t as int;
    vstd::arithmetic::div_mod::lemma_div_denominator(ti, 0x100, 0x100);
    vstd::arithmetic::div_mod::lemma_div_denominator(ti, 0x1_0000, 0x100);
    vstd::arithmetic::div_mod::lemma_div_denominator(ti, 0x100_0000, 0x100);
    vstd::arithmetic::div_mod::lemma_div_denominator(ti, 0x1_0000_0000, 0x100);
    vstd::arithmetic::div_mod::lemma_div_denominator(ti, 0x100_0000_0000, 0x100);
    vstd::arithmetic::div_mod::lemma_div_denominator(ti, 0x1_0000_0000_0000, 0x100);
    assert(ti / 0x100_0000_0000_0000 < 0x100);
    assert(ti == 0x100 * (ti / 0x100) + ti % 0x100);
    assert(ti / 0x100 == 0x100 * (ti / 0x1_0000) + (ti / 0x100) % 0x100);
    assert(ti / 0x1_0000 == 0x100 * (ti / 0x100_0000) + (ti / 0x1_0000) % 0x100);
    assert(ti / 0x100_0000 == 0x100 * (ti / 0x1_0000_0000) + (ti / 0x100_0000) % 0x100);
    assert(ti / 0x1_0000_0000 == 0x100 * (ti / 0x100_0000_0000) + (ti / 0x1_0000_0000) % 0x100);
    assert(ti / 0x100_0000_0000 == 0x100 * (ti / 0x1_0000_0000_0000) + (ti / 0x100_0000_0000)
        % 0x100);
    assert(ti / 0x1_0000_0000_0000 == 0x100 * (ti / 0x100_0000_0000_0000) + (ti
        / 0x1_0000_0000_0000) % 0x100);
    assert(ti / 0x100_0000_0000_0000 % 0x100 == ti / 0x100_0000_0000_0000);
}

/// Reads the little-endian 16-bit field at `i` of `data`.
pub fn read_u16_le(data: &Vec<u8>, i: usize) -> (r: usize)
    requires
        i + 2 <= data@.len(),
    ensures
        r == le16(data@, i as int),
        r < 0x1_0000,
{
    let n = data.len();
    assert(i + 2 <= n);
    data[i] as usize + 0x100 * (data[i + 1] as usize)
}

/// Reads the little-endian 64-bit field at `i` of `data`.
pub fn read_u64_le(data: &Vec<u8>, i: usize) -> (r: u64)
    requires
        i + 8 <= data@.len(),
    ensures
        r == le64(data@.subrange(i as int, i as int + 8)),
{
    let n = data.len();
    assert(i + 8 <= n);
    let s: Ghost<Seq<u8>> = Ghost(data@.subrange(i as int, i as int + 8));
    let r: u64 = data[i] as u64 + 0x100 * (data[i + 1] as u64) + 0x1_0000 * (data[i + 2] as u64)
        + 0x100_0000 * (data[i + 3] as u64) + 0x1_0000_0000 * (data[i + 4] as u64)
        + 0x100_0000_0000 * (data[i + 5] as u64) + 0x1_0000_0000_0000 * (data[i + 6] as u64)
        + 0x100_0000_0000_0000 * (data[i + 7] as u64);
    assert(r == le64(s@));
    r
}

/// Appends the eight little-endian bytes of `t` to `out`.
pub fn push_u64_le(out: &mut Vec<u8>, t: u64)
    ensures
        final(out)@ == old(out)@ + le64_bytes(t),
{
    out.push((t % 0x100) as u8);
    out.push((t / 0x100 % 0x100) as u8);
    out.push((t / 0x1_0000 % 0x100) as u8);
    out.push((t / 0x100_0000 % 0x100) as u8);
    out.push((t / 0x1_0000_0000 % 0x100) as u8);
    out.push((t / 0x100_0000_0000 % 0x100) as u8);
    out.push((t / 0x1_0000_0000_0000 % 0x100) as u8);
    out.push((t / 0x100_0000_0000_0000 % 0x100) as u8);
    assert(final(out)@ =~= old(out)@ + le64_bytes(t));
}

/// Copies `data[from .. from + len]` into a fresh vector.
pub fn copy_range(data: &Vec<u8>, from: usize, len: usize) -> (r: Vec<u8>)
    requires
        from + len <= data@.len(),
    ensures
        r@ == data@.subrange(from as int, from as int + len),
{
    let n = data.len();
    let mut r: Vec<u8> = Vec::new();
    let mut i: usize = 0;
    while i < len
        invariant
            i <= len,
            from + len <= data@.len(),
            data@.len() == n,
            r@ == data@.subrange(from as int, from as int + i),
        decreases len - i,
    {
        r.push(data[from + i]);
        assert(r@ =~= data@.subrange(from as int, from as int + i + 1));
        i = i + 1;
    }
    r
}

/// Appends all of `src` to `out`.
pub fn push_all(out: &mut Vec<u8>, src: &Vec<u8>)
    ensures
        final(out)@ == old(out)@ + src@,
{
    let n = src.len();
    let mut i: usize = 0;
    while i < n
        invariant
            i <= n,
            src@.len() == n,
            out@ == old(out)@ + src@.subrange(0, i as int),
        decreases n - i,
    {
        out.push(src[i]);
        assert(out@ =~= old(out)@ + src@.subrange(0, i + 1 as int));
        i = i + 1;
    }
    assert(out@ =~= old(out)@ + src@);
}

/// True when `a[a_from .. a_from + len]` and `b[b_from .. b_from + len]` hold
/// the same bytes.
pub fn range_eq(a: &Vec<u8>, a_from: usize, b: &Vec<u8>, b_from: usize, len: usize) -> (r: bool)
    requires
        a_from + len <= a@.len(),
        b_from + len <= b@.len(),
    ensures
        r == (a@.subrange(a_from as int, a_from as int + len) == b@.subrange(
            b_from as int,
            b_from as int + len,
        )),
{
    let a_len = a.len();
    let b_len = b.len();
    let mut i: usize = 0;
    while i < len
        invariant
            i <= len,
            a_from + len <= a@.len(),
            b_from + len <= b@.len(),
            a@.len() == a_len,
            b@.len() == b_len,
            forall|j: int| 0 <= j < i ==> a@[a_from + j] == #[trigger] b@[b_from + j],
        decreases len - i,
    {
        if a[a_from + i] != b[b_from + i] {
            assert(a@.subrange(a_from as int, a_from as int + len)[i as int] != b@.subrange(
                b_from as int,
                b_from as int + len,
            )[i as int]);
            return false;
        }
        i = i + 1;
    }
    proof {
        assert forall|k: int| 0 <= k < len implies #[trigger] a@.subrange(
            a_from as int,
            a_from as int + len,
        )[k] == b@.subrange(b_from as int, b_from as int + len)[k] by {
            assert(a@[a_from + k] == b@[b_from + k]);
        }
        assert(a@.subrange(a_from as int, a_from as int + len) =~= b@.subrange(
            b_from as int,
            b_from as int + len,
        ));
    }
    true
}

/// True when the two byte vectors hold the same bytes.
pub fn bytes_eq(a: &Vec<u8>, b: &Vec<u8>) -> (r: bool)
    ensures
        r == (a@ == b@),
{
    if a.len() != b.len() {
        assert(a@ != b@);
        return false;
    }
    let r = range_eq(a, 0, b, 0, a.len());
    proof {
        assert(a@.subrange(0, a@.len() as int) =~= a@);
        assert(b@.subrange(0, b@.len() as int) =~= b@);
    }
    r
}

} // verus!
