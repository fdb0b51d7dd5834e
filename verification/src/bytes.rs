//! Big-endian numbers in byte strings.
use vstd::prelude::*;

verus! {

/// The low 16 bits of `n`, high byte first.
pub open spec fn be16(n: nat) -> Seq<u8> {
    seq![(n / 256 % 256) as u8, (n % 256) as u8]
}

/// The low 32 bits of `n`, high byte first.
pub open spec fn be32(n: nat) -> Seq<u8> {
    seq![
        (n / 0x100_0000 % 256) as u8,
        (n / 0x1_0000 % 256) as u8,
        (n / 256 % 256) as u8,
        (n % 256) as u8,
    ]
}

/// The 32-bit two's complement of `v`.
pub open spec fn twos(v: i32) -> nat {
    if v < 0 {
        (v + 0x1_0000_0000) as nat
    } else {
        v as nat
    }
}

/// The signed number whose two's complement is `n`.
pub open spec fn signed(n: nat) -> i32
    recommends
        n < 0x1_0000_0000,
{
    if n < 0x8000_0000 {
        n as i32
    } else {
        (n - 0x1_0000_0000) as i32
    }
}

/// The number that two bytes encode.
pub open spec fn from_be16(b: Seq<u8>) -> nat {
    (b[0] * 256 + b[1]) as nat
}

/// The number that four bytes encode.
pub open spec fn from_be32(b: Seq<u8>) -> nat {
    (b[0] * 0x100_0000 + b[1] * 0x1_0000 + b[2] * 256 + b[3]) as nat
}

/// Reading back a written number yields its low 16 bits.
pub broadcast proof fn lemma_be16(n: nat)
    requires
        n < 0x1_0000,
    ensures
        from_be16(#[trigger] be16(n)) == n,
{
}

/// Reading back a written number yields its low 32 bits.
pub proof fn lemma_be32(n: nat)
    requires
        n < 0x1_0000_0000,
    ensures
        from_be32(be32(n)) == n,
{
}

/// `n` in two bytes, reduced to its low 16 bits.
pub fn put_be16(out: &mut Vec<u8>, n: usize)
    ensures
        final(out)@ == old(out)@ + be16(n as nat),
{
    out.push((n / 256 % 256) as u8);
    out.push((n % 256) as u8);
    assert(out@ =~= old(out)@ + be16(n as nat));
}

/// `n` in four bytes.
pub fn put_be32(out: &mut Vec<u8>, n: u32)
    ensures
        final(out)@ == old(out)@ + be32(n as nat),
{
    out.push((n / 0x100_0000 % 256) as u8);
    out.push((n / 0x1_0000 % 256) as u8);
    out.push((n / 256 % 256) as u8);
    out.push((n % 256) as u8);
    assert(out@ =~= old(out)@ + be32(n as nat));
}

/// The two's complement of `v`.
pub fn to_twos(v: i32) -> (r: u32)
    ensures
        r == twos(v),
{
    if v < 0 {
        (v as i64 + 0x1_0000_0000) as u32
    } else {
        v as u32
    }
}

/// The signed number whose two's complement is `n`.
pub fn to_signed(n: u32) -> (r: i32)
    ensures
        r == signed(n as nat),
{
    if n < 0x8000_0000 {
        n as i32
    } else {
        (n as i64 - 0x1_0000_0000) as i32
    }
}

/// The number in the two bytes from `at` on.
pub fn get_be16(bytes: &[u8], at: usize) -> (r: u16)
    requires
        at + 2 <= bytes@.len(),
    ensures
        r == from_be16(bytes@.subrange(at as int, at + 2)),
{
    bytes[at] as u16 * 256 + bytes[at + 1] as u16
}

/// The number in the four bytes from `at` on.
pub fn get_be32(bytes: &[u8], at: usize) -> (r: u32)
    requires
        at + 4 <= bytes@.len(),
    ensures
        r == from_be32(bytes@.subrange(at as int, at + 4)),
{
    bytes[at] as u32 * 0x100_0000 + bytes[at + 1] as u32 * 0x1_0000 + bytes[at + 2] as u32 * 256
        + bytes[at + 3] as u32
}

} // verus!
