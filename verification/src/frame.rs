//! The size framing itself: the five-byte prefix, the patched in-stream size
//! field, and the function that applies both to a raw `.lzma` stream.

use vstd::bytes::lemma_auto_spec_u64_to_from_le_bytes;
use vstd::bytes::spec_u64_to_le_bytes;
use vstd::bytes::spec_u64_to_le_bytes_to_open;
use vstd::bytes::u64_to_le_bytes;
use vstd::prelude::*;

verus! {

/// Length of the little-endian size prefix inserted in front of the stream.
pub const SIZE_PREFIX_LEN: usize = 5;

/// Offset, in the framed buffer, of the stream's own eight-byte size field:
/// the field sits at bytes `[5, 13)` of a `.lzma` stream, which the five-byte
/// prefix shifts to `[10, 18)`.
pub const HEADER_SIZE_OFFSET: usize = 10;

/// Length of a `.lzma` stream header: one properties byte, four bytes of
/// dictionary size, eight bytes of uncompressed size.
pub const LZMA_HEADER_LEN: usize = 13;

/// The eight-byte placeholder that the encoder leaves in the size field of a
/// stream whose total size was not declared up front: all bits set, meaning
/// "size unknown".
pub open spec fn unknown_size_field() -> Seq<u8> {
    Seq::new(8, |i: int| 0xFFu8)
}

/// The five-byte size prefix: the low five bytes of `n`, little-endian.
pub open spec fn size_prefix(n: u64) -> Seq<u8> {
    spec_u64_to_le_bytes(n).take(SIZE_PREFIX_LEN as int)
}

/// `stream` with its size field — bytes `[5, 13)` of a `.lzma` stream —
/// replaced by the eight little-endian bytes of `n`.
pub open spec fn with_declared_size(stream: Seq<u8>, n: u64) -> Seq<u8>
    recommends
        stream.len() >= LZMA_HEADER_LEN,
{
    stream.take(5) + spec_u64_to_le_bytes(n) + stream.skip(13)
}

/// The full framed layout: the five-byte size prefix, then the stream with
/// its size field set to `n`.
pub open spec fn framed(stream: Seq<u8>, n: u64) -> Seq<u8>
    recommends
        stream.len() >= LZMA_HEADER_LEN,
{
    size_prefix(n) + with_declared_size(stream, n)
}

/// Turns a raw `.lzma` stream into the framed layout: inserts the low five
/// bytes of `original_size` at the front, one byte at a time from the most
/// significant of the five down, then overwrites the stream's size field
/// (now at bytes `[10, 18)`) with all eight little-endian bytes.
pub fn fix_header_size(original_size: u64, data: &mut Vec<u8>)
    requires
        old(data)@.len() >= LZMA_HEADER_LEN,
    ensures
        final(data)@ == framed(old(data)@, original_size),
{
    proof {
        lemma_auto_spec_u64_to_from_le_bytes();
    }
    let size_bytes = u64_to_le_bytes(original_size);
    let mut i: usize = SIZE_PREFIX_LEN;
    while i > 0
        invariant
            size_bytes@ == spec_u64_to_le_bytes(original_size),
            size_bytes@.len() == 8,
            i <= SIZE_PREFIX_LEN,
            data@ == size_bytes@.subrange(i as int, SIZE_PREFIX_LEN as int) + old(data)@,
        decreases i,
    {
        i = i - 1;
        data.insert(0, size_bytes[i]);
        proof {
            assert(data@ =~= size_bytes@.subrange(i as int, SIZE_PREFIX_LEN as int) + old(
                data,
            )@);
        }
    }
    let mut j: usize = 0;
    while j < 8
        invariant
            size_bytes@ == spec_u64_to_le_bytes(original_size),
            size_bytes@.len() == 8,
            j <= 8,
            data@.len() == old(data)@.len() + 5,
            old(data)@.len() >= LZMA_HEADER_LEN,
            forall|k: int|
                0 <= k < data@.len() && !(10 <= k < 10 + j) ==> data@[k] == (size_prefix(
                    original_size,
                ) + old(data)@)[k],
            forall|k: int| 10 <= k < 10 + j ==> data@[k] == size_bytes@[k - 10],
        decreases 8 - j,
    {
        data[HEADER_SIZE_OFFSET + j] = size_bytes[j];
        j = j + 1;
    }
    proof {
        assert(data@ =~= framed(old(data)@, original_size));
    }
}

/// The number that a byte sequence denotes when read as a little-endian
/// integer: byte 0 is the least significant.
pub open spec fn le_value(s: Seq<u8>) -> nat
    decreases s.len(),
{
    if s.len() == 0 {
        0
    } else {
        (s[0] as nat) + 256 * le_value(s.drop_first())
    }
}

/// Reading the five-byte prefix as a little-endian number gives the size
/// modulo 2^40; reading all eight little-endian bytes gives it exactly.
pub proof fn lemma_le_value_of_size(n: u64)
    ensures
        le_value(size_prefix(n)) == n % 0x100_0000_0000,
        le_value(spec_u64_to_le_bytes(n)) == n,
{
    lemma_auto_spec_u64_to_from_le_bytes();
    spec_u64_to_le_bytes_to_open(n);
    assert((n & 0xff) < 0x100 && ((n >> 8) & 0xff) < 0x100 && ((n >> 16) & 0xff) < 0x100 && ((n
        >> 24) & 0xff) < 0x100 && ((n >> 32) & 0xff) < 0x100 && ((n >> 40) & 0xff) < 0x100 && ((
    n >> 48) & 0xff) < 0x100 && ((n >> 56) & 0xff) < 0x100) by (bit_vector);
    let b0 = (n & 0xff) as u8;
    let b1 = ((n >> 8) & 0xff) as u8;
    let b2 = ((n >> 16) & 0xff) as u8;
    let b3 = ((n >> 24) & 0xff) as u8;
    let b4 = ((n >> 32) & 0xff) as u8;
    let b5 = ((n >> 40) & 0xff) as u8;
    let b6 = ((n >> 48) & 0xff) as u8;
    let b7 = ((n >> 56) & 0xff) as u8;
    let s7 = seq![b7];
    let s6 = seq![b6, b7];
    let s5 = seq![b5, b6, b7];
    let s4 = seq![b4, b5, b6, b7];
    let s3 = seq![b3, b4, b5, b6, b7];
    let s2 = seq![b2, b3, b4, b5, b6, b7];
    let s1 = seq![b1, b2, b3, b4, b5, b6, b7];
    let s0 = seq![b0, b1, b2, b3, b4, b5, b6, b7];
    assert(s7.drop_first() =~= Seq::<u8>::empty());
    assert(s6.drop_first() =~= s7);
    assert(s5.drop_first() =~= s6);
    assert(s4.drop_first() =~= s5);
    assert(s3.drop_first() =~= s4);
    assert(s2.drop_first() =~= s3);
    assert(s1.drop_first() =~= s2);
    assert(s0.drop_first() =~= s1);
    assert(spec_u64_to_le_bytes(n) =~= s0);
    assert(le_value(Seq::<u8>::empty()) == 0);
    assert(le_value(s7) == b7 as nat);
    assert(le_value(s6) == (b6 as nat) + 0x100 * (b7 as nat));
    assert(le_value(s5) == (b5 as nat) + 0x100 * (b6 as nat) + 0x10000 * (b7 as nat));
    assert(le_value(s4) == (b4 as nat) + 0x100 * (b5 as nat) + 0x10000 * (b6 as nat) + 0x1000000
        * (b7 as nat));
    assert(le_value(s3) == (b3 as nat) + 0x100 * (b4 as nat) + 0x10000 * (b5 as nat) + 0x1000000
        * (b6 as nat) + 0x100000000 * (b7 as nat));
    assert(le_value(s2) == (b2 as nat) + 0x100 * (b3 as nat) + 0x10000 * (b4 as nat) + 0x1000000
        * (b5 as nat) + 0x100000000 * (b6 as nat) + 0x10000000000 * (b7 as nat));
    assert(le_value(s1) == (b1 as nat) + 0x100 * (b2 as nat) + 0x10000 * (b3 as nat) + 0x1000000
        * (b4 as nat) + 0x100000000 * (b5 as nat) + 0x10000000000 * (b6 as nat)
        + 0x1000000000000 * (b7 as nat));
    assert(le_value(s0) == (b0 as nat) + 0x100 * (b1 as nat) + 0x10000 * (b2 as nat) + 0x1000000
        * (b3 as nat) + 0x100000000 * (b4 as nat) + 0x10000000000 * (b5 as nat)
        + 0x1000000000000 * (b6 as nat) + 0x100000000000000 * (b7 as nat));
    assert((n & 0xff) + 0x100 * ((n >> 8) & 0xff) + 0x10000 * ((n >> 16) & 0xff) + 0x1000000 * ((
    n >> 24) & 0xff) + 0x100000000 * ((n >> 32) & 0xff) + 0x10000000000 * ((n >> 40) & 0xff)
        + 0x1000000000000 * ((n >> 48) & 0xff) + 0x100000000000000 * ((n >> 56) & 0xff)
        == n) by (bit_vector);
    let p4 = seq![b4];
    let p3 = seq![b3, b4];
    let p2 = seq![b2, b3, b4];
    let p1 = seq![b1, b2, b3, b4];
    let p0 = seq![b0, b1, b2, b3, b4];
    assert(p4.drop_first() =~= Seq::<u8>::empty());
    assert(p3.drop_first() =~= p4);
    assert(p2.drop_first() =~= p3);
    assert(p1.drop_first() =~= p2);
    assert(p0.drop_first() =~= p1);
    assert(size_prefix(n) =~= p0);
    assert(le_value(p4) == b4 as nat);
    assert(le_value(p3) == (b3 as nat) + 0x100 * (b4 as nat));
    assert(le_value(p2) == (b2 as nat) + 0x100 * (b3 as nat) + 0x10000 * (b4 as nat));
    assert(le_value(p1) == (b1 as nat) + 0x100 * (b2 as nat) + 0x10000 * (b3 as nat) + 0x1000000
        * (b4 as nat));
    assert(le_value(p0) == (b0 as nat) + 0x100 * (b1 as nat) + 0x10000 * (b2 as nat) + 0x1000000
        * (b3 as nat) + 0x100000000 * (b4 as nat));
    assert((n & 0xff) + 0x100 * ((n >> 8) & 0xff) + 0x10000 * ((n >> 16) & 0xff) + 0x1000000 * ((
    n >> 24) & 0xff) + 0x100000000 * ((n >> 32) & 0xff) == n % 0x100_0000_0000) by (bit_vector);
}

/// Header correctness of a framed buffer: after framing a stream for size
/// `n`, the buffer is five bytes longer than the stream, its bytes `[0, 5)`
/// read as a little-endian number give `n` modulo 2^40, and its bytes
/// `[10, 18)` read as a little-endian number give `n` exactly.
pub proof fn lemma_framed_header(stream: Seq<u8>, n: u64)
    requires
        stream.len() >= LZMA_HEADER_LEN,
    ensures
        framed(stream, n).len() == stream.len() + 5,
        framed(stream, n).subrange(0, 5) == size_prefix(n),
        framed(stream, n).subrange(10, 18) == spec_u64_to_le_bytes(n),
        le_value(framed(stream, n).subrange(0, 5)) == n % 0x100_0000_0000,
        le_value(framed(stream, n).subrange(10, 18)) == n,
{
    lemma_auto_spec_u64_to_from_le_bytes();
    lemma_le_value_of_size(n);
    assert(framed(stream, n).subrange(0, 5) =~= size_prefix(n));
    assert(framed(stream, n).subrange(10, 18) =~= spec_u64_to_le_bytes(n));
}

} // verus!
