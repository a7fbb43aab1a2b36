//! Little-endian integers and zero padding inside fixed byte regions.

use vstd::arithmetic::div_mod::{lemma_fundamental_div_mod, lemma_fundamental_div_mod_converse};
use vstd::prelude::*;

verus! {

/// The four bytes of `x`, least significant first.
pub open spec fn u32_le(x: u32) -> Seq<u8> {
    seq![
        (x % 256) as u8,
        ((x / 256) % 256) as u8,
        ((x / 65536) % 256) as u8,
        (x / 16777216) as u8,
    ]
}

/// The number whose least significant byte is `s[0]`.
pub open spec fn le_u32(s: Seq<u8>) -> u32
    recommends
        s.len() >= 4,
{
    (s[0] as int + 256 * (s[1] as int) + 65536 * (s[2] as int) + 16777216 * (s[3] as int)) as u32
}

/// `n` zero bytes.
pub open spec fn zeros(n: nat) -> Seq<u8> {
    Seq::new(n, |i: int| 0u8)
}

/// `src` cut or zero-filled on the right to exactly `n` bytes.
pub open spec fn fit_to(src: Seq<u8>, n: nat) -> Seq<u8> {
    Seq::new(n, |i: int| if i < src.len() { src[i] } else { 0u8 })
}

/// Decoding undoes encoding.
pub proof fn lemma_le_u32_of_u32_le(x: u32)
    ensures
        u32_le(x).len() == 4,
        le_u32(u32_le(x)) == x,
{
    let h1: int = x as int / 256;
    let h2: int = h1 / 256;
    let b0: int = x as int % 256;
    let b1: int = h1 % 256;
    let b2: int = h2 % 256;
    let b3: int = h2 / 256;
    lemma_fundamental_div_mod(x as int, 256);
    lemma_fundamental_div_mod(h1, 256);
    lemma_fundamental_div_mod(h2, 256);
    assert(x == b0 + 256 * b1 + 65536 * b2 + 16777216 * b3);
    lemma_split_le(b0, b1, b2, b3);
}

/// Encoding undoes decoding, whatever follows the first four bytes.
pub proof fn lemma_u32_le_of_le_u32(s: Seq<u8>)
    requires
        s.len() >= 4,
    ensures
        u32_le(le_u32(s)) == s.subrange(0, 4),
{
    let b0: int = s[0] as int;
    let b1: int = s[1] as int;
    let b2: int = s[2] as int;
    let b3: int = s[3] as int;
    let x: int = b0 + 256 * b1 + 65536 * b2 + 16777216 * b3;
    lemma_split_le(b0, b1, b2, b3);
    assert(le_u32(s) as int == x);
    assert(u32_le(le_u32(s)) =~= s.subrange(0, 4));
}

/// The four base-256 digits of a number are found by division and remainder.
proof fn lemma_split_le(b0: int, b1: int, b2: int, b3: int)
    requires
        0 <= b0 < 256,
        0 <= b1 < 256,
        0 <= b2 < 256,
        0 <= b3 < 256,
    ensures
        ({
            let x: int = b0 + 256 * b1 + 65536 * b2 + 16777216 * b3;
            &&& 0 <= x <= 0xffff_ffff
            &&& x % 256 == b0
            &&& (x / 256) % 256 == b1
            &&& (x / 65536) % 256 == b2
            &&& x / 16777216 == b3
        }),
{
    let x: int = b0 + 256 * b1 + 65536 * b2 + 16777216 * b3;
    let h1: int = b1 + 256 * b2 + 65536 * b3;
    let h2: int = b2 + 256 * b3;
    lemma_fundamental_div_mod_converse(x, 256, h1, b0);
    lemma_fundamental_div_mod_converse(h1, 256, h2, b1);
    lemma_fundamental_div_mod_converse(x, 65536, h2, b0 + 256 * b1);
    lemma_fundamental_div_mod_converse(h2, 256, b3, b2);
    lemma_fundamental_div_mod_converse(x, 16777216, b3, b0 + 256 * b1 + 65536 * b2);
}

/// Encodes `x` with its least significant byte first.
pub fn u32_to_le_bytes(x: u32) -> (bytes: [u8; 4])
    ensures
        bytes@ == u32_le(x),
{
    let bytes: [u8; 4] = [
        (x % 256) as u8,
        ((x / 256) % 256) as u8,
        ((x / 65536) % 256) as u8,
        (x / 16777216) as u8,
    ];
    assert(bytes@ =~= u32_le(x));
    bytes
}

/// Reads the little-endian number in the first four bytes of `bytes`.
pub fn u32_from_le_bytes(bytes: &[u8]) -> (x: u32)
    requires
        bytes@.len() >= 4,
    ensures
        x == le_u32(bytes@),
{
    let b0: u32 = bytes[0] as u32;
    let b1: u32 = bytes[1] as u32;
    let b2: u32 = bytes[2] as u32;
    let b3: u32 = bytes[3] as u32;
    b0 + 256 * b1 + 65536 * b2 + 16777216 * b3
}

/// Copies `src` into a fresh array of `N` bytes: what does not fit is cut
/// off, what is missing is zero.
pub fn copy_bytes_to_array<const N: usize>(src: &[u8]) -> (dest: [u8; N])
    ensures
        dest@ == fit_to(src@, N as nat),
{
    let mut dest: [u8; N] = [0u8; N];
    let len: usize = if src.len() < N { src.len() } else { N };
    let mut i: usize = 0;
    while i < len
        invariant
            i <= len,
            len <= N,
            len <= src@.len(),
            dest@.len() == N,
            forall|j: int| 0 <= j < i ==> dest@[j] == src@[j],
            forall|j: int| i <= j < N ==> dest@[j] == 0u8,
        decreases len - i,
    {
        dest[i] = src[i];
        i += 1;
    }
    assert(dest@ =~= fit_to(src@, N as nat));
    dest
}

} // verus!
