//! Byte-level helpers of the sensor wire format: big-endian fields and the
//! two's-complement frame checksum.

use vstd::prelude::*;

verus! {

/// Sum of all bytes of `s`, as an unbounded integer.
pub open spec fn byte_sum(s: Seq<u8>) -> int
    decreases s.len(),
{
    if s.len() == 0 {
        0
    } else {
        byte_sum(s.drop_last()) + s.last() as int
    }
}

/// The checksum of `s`: the two's-complement negation of the byte sum, taken
/// modulo 256. It is the one byte `c` for which `byte_sum(s) + c` is a
/// multiple of 256.
pub open spec fn checksum_of(s: Seq<u8>) -> u8 {
    ((256 - byte_sum(s) % 256) % 256) as u8
}

/// The 16-bit value whose high byte is `hi` and whose low byte is `lo`.
pub open spec fn u16_be(hi: u8, lo: u8) -> u16 {
    (hi as int * 256 + lo as int) as u16
}

/// `byte_sum` distributes over appending one byte.
pub proof fn lemma_byte_sum_push(s: Seq<u8>, b: u8)
    ensures
        byte_sum(s.push(b)) == byte_sum(s) + b as int,
{
    assert(s.push(b).drop_last() =~= s);
}

/// Reads a big-endian `u16` from the first two bytes of `data`.
pub fn read_u16_be(data: &[u8]) -> (r: u16)
    requires
        data@.len() >= 2,
    ensures
        r == u16_be(data@[0], data@[1]),
        r as int == data@[0] as int * 256 + data@[1] as int,
{
    let hi: u8 = data[0];
    let lo: u8 = data[1];
    let r: u16 = ((hi as u16) << 8) | (lo as u16);
    assert(r == (hi as u16) * 256 + (lo as u16)) by (bit_vector)
        requires
            r == ((hi as u16) << 8) | (lo as u16),
    ;
    r
}

/// Computes the frame checksum of `data`: `NOT(sum of bytes) + 1`, all in
/// 8-bit wrapping arithmetic.
pub fn calculate_checksum(data: &[u8]) -> (c: u8)
    ensures
        c == checksum_of(data@),
        (byte_sum(data@) + c as int) % 256 == 0,
{
    let mut acc: u8 = 0;
    let mut i: usize = 0;
    while i < data.len()
        invariant
            i <= data@.len(),
            acc as int == byte_sum(data@.subrange(0, i as int)) % 256,
        decreases data@.len() - i,
    {
        let b: u8 = data[i];
        proof {
            let prev = data@.subrange(0, i as int);
            assert(data@.subrange(0, i + 1) =~= prev.push(b));
            lemma_byte_sum_push(prev, b);
        }
        acc = acc.wrapping_add(b);
        i = i + 1;
    }
    assert(data@.subrange(0, i as int) =~= data@);
    let c: u8 = (!acc).wrapping_add(1);
    assert(c as int == (256 - acc as int) % 256) by (bit_vector)
        requires
            c == (!acc).wrapping_add(1u8),
    ;
    c
}

} // verus!
