//! Facts about masks and shifts of bytes and words, stated once for all
//! values and proved by bit blasting.

use vstd::prelude::*;

verus! {

/// Masks of a byte as remainders, and the flag manipulations the registers use.
pub proof fn lemma_byte_masks()
    ensures
        forall|x: u8| #[trigger] (x & 0x01u8) <= 1,
        forall|x: u8| #[trigger] (x & 0x03u8) < 4 && (x < 4 ==> x & 0x03u8 == x),
        forall|x: u8| #[trigger] (x & 0x07u8) == x % 8,
        forall|x: u8| #[trigger] (x & 0x0fu8) == x % 16,
        forall|x: u8| #[trigger] (x & 0x1fu8) == x % 32,
        forall|x: u8| #[trigger] (x & 0x3fu8) == x % 64,
        forall|x: u8| #[trigger] (x & 0x7fu8) == x % 128,
        forall|x: u8| #[trigger] (x & 0xbfu8) <= 0xbf,
        forall|x: u8| #[trigger] (x & 0xffu8) == x,
        forall|x: u8| #[trigger] (x & !(0x03u8 | 0x04u8)) == x & 0xf8u8,
        forall|x: u8| #[trigger] (x & (0x03u8 | 0x04u8)) == x & 0x07u8,
        forall|x: u8| #[trigger] (x | 0u8) == x,
        forall|x: u8| #[trigger] ((x | 0x01u8) & 0x01u8) != 0,
        forall|x: u8| #[trigger] ((x | 0x02u8) & 0x01u8) == x & 0x01u8,
        forall|x: u8| #[trigger] ((x | 0x04u8) | 0x04u8) == x | 0x04u8,
        forall|x: u8| #[trigger] (0x80u8 | (x & 0x3fu8)) <= 0xbf,
        forall|a: u8, m: u8, c: u8| #[trigger] (((((a & 0xf8u8) | 0x80u8) | m) | c) & 0x80u8) != 0,
        forall|x: u8, y: u8| #[trigger] (((x & 0x01u8) << 1u8) | (y & 0x01u8)) < 4,
{
    assert({
        &&& forall|x: u8| #[trigger] (x & 0x01u8) <= 1
        &&& forall|x: u8| #[trigger] (x & 0x03u8) < 4 && (x < 4 ==> x & 0x03u8 == x)
        &&& forall|x: u8| #[trigger] (x & 0x07u8) == x % 8
        &&& forall|x: u8| #[trigger] (x & 0x0fu8) == x % 16
        &&& forall|x: u8| #[trigger] (x & 0x1fu8) == x % 32
        &&& forall|x: u8| #[trigger] (x & 0x3fu8) == x % 64
        &&& forall|x: u8| #[trigger] (x & 0x7fu8) == x % 128
        &&& forall|x: u8| #[trigger] (x & 0xbfu8) <= 0xbf
        &&& forall|x: u8| #[trigger] (x & 0xffu8) == x
        &&& forall|x: u8| #[trigger] (x & !(0x03u8 | 0x04u8)) == x & 0xf8u8
        &&& forall|x: u8| #[trigger] (x & (0x03u8 | 0x04u8)) == x & 0x07u8
        &&& forall|x: u8| #[trigger] (x | 0u8) == x
        &&& forall|x: u8| #[trigger] ((x | 0x01u8) & 0x01u8) != 0
        &&& forall|x: u8| #[trigger] ((x | 0x02u8) & 0x01u8) == x & 0x01u8
        &&& forall|x: u8| #[trigger] ((x | 0x04u8) | 0x04u8) == x | 0x04u8
        &&& forall|x: u8| #[trigger] (0x80u8 | (x & 0x3fu8)) <= 0xbf
        &&& forall|a: u8, m: u8, c: u8| #[trigger] (((((a & 0xf8u8) | 0x80u8) | m) | c) & 0x80u8) != 0
        &&& forall|x: u8, y: u8| #[trigger] (((x & 0x01u8) << 1u8) | (y & 0x01u8)) < 4
    }) by (bit_vector);
}

/// Masks of words as remainders, and a word split into its bytes.
pub proof fn lemma_word_masks()
    ensures
        forall|x: u16| #[trigger] (x & 0x1fu16) < 32,
        forall|x: u16| #[trigger] (x & 0x7fu16) == x % 128,
        forall|x: u16| #[trigger] (x & 0xffu16) == x % 256,
        forall|x: u16| #[trigger] (x & 0x1ffu16) == x % 512,
        forall|x: u16| #[trigger] (x & 0x1fffu16) == x % 0x2000,
        forall|x: u16| #[trigger] (x >> 8u16) == x / 256,
        forall|d: u16, l: u16| d <= 1 && l < 256 ==> #[trigger] ((d << 8u16) | l) == d * 256 + l,
        forall|x: u64| #[trigger] (x & 0x1ffu64) == x % 512,
        forall|x: u64| #[trigger] (x & 0xffu64) == x % 256,
        forall|x: u64| x < 512 ==> #[trigger] ((x >> 8u64) as u8 & 0x01u8) == (x / 256) as u8,
        forall|d: u64, l: u64| d <= 1 && l <= 255 ==> #[trigger] ((d << 8u64) | l) == d * 256 + l,
        forall|x: usize| #[trigger] (x & 0x07usize) == x % 8,
{
    assert({
        &&& forall|x: u16| #[trigger] (x & 0x1fu16) < 32
        &&& forall|x: u16| #[trigger] (x & 0x7fu16) == x % 128
        &&& forall|x: u16| #[trigger] (x & 0xffu16) == x % 256
        &&& forall|x: u16| #[trigger] (x & 0x1ffu16) == x % 512
        &&& forall|x: u16| #[trigger] (x & 0x1fffu16) == x % 0x2000
        &&& forall|x: u16| #[trigger] (x >> 8u16) == x / 256
        &&& forall|d: u16, l: u16| d <= 1 && l < 256 ==> #[trigger] ((d << 8u16) | l) == d * 256 + l
        &&& forall|x: u64| #[trigger] (x & 0x1ffu64) == x % 512
        &&& forall|x: u64| #[trigger] (x & 0xffu64) == x % 256
        &&& forall|x: u64| x < 512 ==> #[trigger] ((x >> 8u64) as u8 & 0x01u8) == (x / 256) as u8
        &&& forall|d: u64, l: u64| d <= 1 && l <= 255 ==> #[trigger] ((d << 8u64) | l) == d * 256 + l
        &&& forall|x: usize| #[trigger] (x & 0x07usize) == x % 8
    }) by (bit_vector);
}

} // verus!
