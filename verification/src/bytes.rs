//! Little-endian integers in byte buffers.
use vstd::prelude::*;

verus! {

/// The 16-bit value whose little-endian image is the first two bytes of `s`.
pub open spec fn le_u16(s: Seq<u8>) -> u16
    recommends
        s.len() >= 2,
{
    (s[0] as int + 256 * (s[1] as int)) as u16
}

/// The 32-bit value whose little-endian image is the first four bytes of `s`.
pub open spec fn le_u32(s: Seq<u8>) -> u32
    recommends
        s.len() >= 4,
{
    (s[0] as int + 256 * (s[1] as int) + 65536 * (s[2] as int) + 16777216 * (s[3] as int)) as u32
}

/// The little-endian image of a 16-bit value.
pub open spec fn u16_le(x: u16) -> Seq<u8> {
    seq![(x % 256) as u8, (x / 256) as u8]
}

/// The little-endian image of a 32-bit value.
pub open spec fn u32_le(x: u32) -> Seq<u8> {
    seq![
        (x % 256) as u8,
        ((x / 256) % 256) as u8,
        ((x / 65536) % 256) as u8,
        (x / 16777216) as u8,
    ]
}

/// Reading back the image of a 16-bit value gives the value, whatever follows
/// the image in the buffer.
pub proof fn lemma_le_u16_round_trip(x: u16, rest: Seq<u8>)
    ensures
        le_u16(u16_le(x) + rest) == x,
        u16_le(x).len() == 2,
{
}

/// Reading back the image of a 32-bit value gives the value, whatever follows
/// the image in the buffer.
pub proof fn lemma_le_u32_round_trip(x: u32, rest: Seq<u8>)
    ensures
        le_u32(u32_le(x) + rest) == x,
        u32_le(x).len() == 4,
{
}

/// Writing out the value read from two bytes gives those two bytes.
pub proof fn lemma_u16_le_of_le_u16(s: Seq<u8>)
    requires
        s.len() == 2,
    ensures
        u16_le(le_u16(s)) == s,
{
    assert(u16_le(le_u16(s)) =~= s);
}

/// Reads a little-endian 16-bit value at `at`.
pub fn read_u16_le(buf: &[u8], at: usize) -> (r: u16)
    requires
        at + 2 <= buf@.len(),
    ensures
        r == le_u16(buf@.subrange(at as int, at + 2)),
{
    let lo: u16 = buf[at] as u16;
    let hi: u16 = buf[at + 1] as u16;
    lo + 256 * hi
}

/// Reads a little-endian 32-bit value at `at`.
pub fn read_u32_le(buf: &[u8], at: usize) -> (r: u32)
    requires
        at + 4 <= buf@.len(),
    ensures
        r == le_u32(buf@.subrange(at as int, at + 4)),
{
    let b0: u32 = buf[at] as u32;
    let b1: u32 = buf[at + 1] as u32;
    let b2: u32 = buf[at + 2] as u32;
    let b3: u32 = buf[at + 3] as u32;
    b0 + 256 * b1 + 65536 * b2 + 16777216 * b3
}

/// Writes a 16-bit value at `at`, low byte first, and leaves every other byte
/// as it was.
pub fn write_u16_le(buf: &mut [u8], at: usize, x: u16)
    requires
        at + 2 <= old(buf)@.len(),
    ensures
        final(buf)@ == old(buf)@.subrange(0, at as int) + u16_le(x) + old(buf)@.subrange(
            at + 2,
            old(buf)@.len() as int,
        ),
{
    buf[at] = (x % 256) as u8;
    buf[at + 1] = (x / 256) as u8;
    assert(buf@ =~= old(buf)@.subrange(0, at as int) + u16_le(x) + old(buf)@.subrange(
        at + 2,
        old(buf)@.len() as int,
    ));
}

/// Writes a 32-bit value at `at`, low byte first, and leaves every other byte
/// as it was.
pub fn write_u32_le(buf: &mut [u8], at: usize, x: u32)
    requires
        at + 4 <= old(buf)@.len(),
    ensures
        final(buf)@ == old(buf)@.subrange(0, at as int) + u32_le(x) + old(buf)@.subrange(
            at + 4,
            old(buf)@.len() as int,
        ),
{
    buf[at] = (x % 256) as u8;
    buf[at + 1] = ((x / 256) % 256) as u8;
    buf[at + 2] = ((x / 65536) % 256) as u8;
    buf[at + 3] = (x / 16777216) as u8;
    assert(buf@ =~= old(buf)@.subrange(0, at as int) + u32_le(x) + old(buf)@.subrange(
        at + 4,
        old(buf)@.len() as int,
    ));
}

/// Copies a slice into a vector.
pub fn copy_to_vec(s: &[u8]) -> (v: Vec<u8>)
    ensures
        v@ == s@,
{
    let mut v: Vec<u8> = Vec::new();
    let mut i: usize = 0;
    while i < s.len()
        invariant
            i <= s@.len(),
            v@ == s@.subrange(0, i as int),
        decreases s@.len() - i,
    {
        v.push(s[i]);
        assert(v@ =~= s@.subrange(0, i + 1));
        i = i + 1;
    }
    assert(s@.subrange(0, i as int) =~= s@);
    v
}

/// The four bytes of a 32-bit value, low byte first.
pub fn u32_to_le_bytes(x: u32) -> (r: [u8; 4])
    ensures
        r@ == u32_le(x),
{
    let r: [u8; 4] = [
        (x % 256) as u8,
        ((x / 256) % 256) as u8,
        ((x / 65536) % 256) as u8,
        (x / 16777216) as u8,
    ];
    assert(r@ =~= u32_le(x));
    r
}

} // verus!
