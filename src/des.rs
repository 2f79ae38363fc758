//! The block cipher: key schedule, block transform and byte/word packing.
//!
//! The specification functions below state the cipher on mathematical values;
//! the executable engine is proved to compute exactly them.

use vstd::prelude::*;
use crate::error::Result;
use crate::tables::{BIGBYTE, BYTEBIT, FP_TABLE, IP_TABLE, PC1, PC2, SP1, SP2, SP3, SP4, SP5, SP6, SP7, SP8, TOTROT};

verus! {

// ----------------------------------------------------------------------------
// Packing
// ----------------------------------------------------------------------------

/// The big-endian 32-bit word of four bytes.
pub open spec fn word_of(b0: u8, b1: u8, b2: u8, b3: u8) -> u32 {
    ((b0 as u32) << 24u32) | ((b1 as u32) << 16u32) | ((b2 as u32) << 8u32) | (b3 as u32)
}

/// Byte `k` (0 is the most significant) of a word.
pub open spec fn byte_of(w: u32, k: int) -> u8 {
    ((w >> ((24 - 8 * k) as u32)) & 0xffu32) as u8
}

/// An 8-byte block as two big-endian words.
pub open spec fn pack(b: Seq<u8>) -> (u32, u32) {
    (word_of(b[0], b[1], b[2], b[3]), word_of(b[4], b[5], b[6], b[7]))
}

/// Two words as an 8-byte block, most significant byte first.
pub open spec fn unpack(w: (u32, u32)) -> Seq<u8> {
    seq![
        byte_of(w.0, 0), byte_of(w.0, 1), byte_of(w.0, 2), byte_of(w.0, 3),
        byte_of(w.1, 0), byte_of(w.1, 1), byte_of(w.1, 2), byte_of(w.1, 3),
    ]
}

proof fn lemma_word_bytes(b0: u8, b1: u8, b2: u8, b3: u8)
    ensures
        byte_of(word_of(b0, b1, b2, b3), 0) == b0,
        byte_of(word_of(b0, b1, b2, b3), 1) == b1,
        byte_of(word_of(b0, b1, b2, b3), 2) == b2,
        byte_of(word_of(b0, b1, b2, b3), 3) == b3,
{
    assert(
        (((((b0 as u32) << 24u32) | ((b1 as u32) << 16u32) | ((b2 as u32) << 8u32) | (b3 as u32)) >> 24u32) & 0xffu32) as u8 == b0
        && (((((b0 as u32) << 24u32) | ((b1 as u32) << 16u32) | ((b2 as u32) << 8u32) | (b3 as u32)) >> 16u32) & 0xffu32) as u8 == b1
        && (((((b0 as u32) << 24u32) | ((b1 as u32) << 16u32) | ((b2 as u32) << 8u32) | (b3 as u32)) >> 8u32) & 0xffu32) as u8 == b2
        && (((((b0 as u32) << 24u32) | ((b1 as u32) << 16u32) | ((b2 as u32) << 8u32) | (b3 as u32)) >> 0u32) & 0xffu32) as u8 == b3
    ) by (bit_vector);
}

proof fn lemma_bytes_word(w: u32)
    ensures
        word_of(byte_of(w, 0), byte_of(w, 1), byte_of(w, 2), byte_of(w, 3)) == w,
{
    assert(
        ((((((w >> 24u32) & 0xffu32) as u8) as u32) << 24u32)
        | (((((w >> 16u32) & 0xffu32) as u8) as u32) << 16u32)
        | (((((w >> 8u32) & 0xffu32) as u8) as u32) << 8u32)
        | ((((w >> 0u32) & 0xffu32) as u8) as u32)) == w
    ) by (bit_vector);
}

/// Unpacking a packed block gives the block back.
pub proof fn lemma_unpack_pack(b: Seq<u8>)
    requires
        b.len() == 8,
    ensures
        unpack(pack(b)) == b,
{
    lemma_word_bytes(b[0], b[1], b[2], b[3]);
    lemma_word_bytes(b[4], b[5], b[6], b[7]);
    assert(unpack(pack(b)) =~= b);
}

/// Packing an unpacked pair of words gives the words back.
pub proof fn lemma_pack_unpack(w: (u32, u32))
    ensures
        pack(unpack(w)) == w,
{
    lemma_bytes_word(w.0);
    lemma_bytes_word(w.1);
}

// ----------------------------------------------------------------------------
// Initial and final permutation
// ----------------------------------------------------------------------------

/// Exchanges the bits of `x >> s` selected by `m` with the same bits of `y`.
pub open spec fn swap_step(x: u32, y: u32, s: u32, m: u32) -> (u32, u32) {
    let work = ((x >> s) ^ y) & m;
    (x ^ (work << s), y ^ work)
}

/// Exchanges the odd-numbered bits of the two words.
pub open spec fn mix_odd(x: u32, y: u32) -> (u32, u32) {
    let work = (x ^ y) & 0xaaaaaaaau32;
    (x ^ work, y ^ work)
}

/// Rotation left by one bit.
pub open spec fn rotl1(x: u32) -> u32 {
    (x << 1u32) | (x >> 31u32)
}

/// Rotation right by one bit.
pub open spec fn rotr1(x: u32) -> u32 {
    (x << 31u32) | (x >> 1u32)
}

/// The initial permutation on the block's two words, followed by the one-bit
/// rotations that the round function expects.
pub open spec fn initial_permutation(l: u32, r: u32) -> (u32, u32) {
    let (l, r) = swap_step(l, r, 4, 0x0f0f0f0f);
    let (l, r) = swap_step(l, r, 16, 0x0000ffff);
    let (r, l) = swap_step(r, l, 2, 0x33333333);
    let (r, l) = swap_step(r, l, 8, 0x00ff00ff);
    let r = rotl1(r);
    let (l, r) = mix_odd(l, r);
    (rotl1(l), r)
}

/// The final permutation: undoes the rotations, then the inverse bit moves;
/// the result is the output block's (first word, second word).
pub open spec fn final_permutation(l: u32, r: u32) -> (u32, u32) {
    let r = rotr1(r);
    let (l, r) = mix_odd(l, r);
    let l = rotr1(l);
    let (l, r) = swap_step(l, r, 8, 0x00ff00ff);
    let (l, r) = swap_step(l, r, 2, 0x33333333);
    let (r, l) = swap_step(r, l, 16, 0x0000ffff);
    let (r, l) = swap_step(r, l, 4, 0x0f0f0f0f);
    (r, l)
}

proof fn lemma_swap_step_involutive(x: u32, y: u32, s: u32, m: u32)
    requires
        s < 32,
        (m << s) >> s == m,
    ensures
        swap_step(swap_step(x, y, s, m).0, swap_step(x, y, s, m).1, s, m) == (x, y),
{
    let work = ((x >> s) ^ y) & m;
    let x1 = x ^ (work << s);
    let y1 = y ^ work;
    let work2 = ((x1 >> s) ^ y1) & m;
    assert(work2 == work && x1 ^ (work2 << s) == x && y1 ^ work2 == y) by (bit_vector)
        requires
            s < 32,
            (m << s) >> s == m,
            work == ((x >> s) ^ y) & m,
            x1 == x ^ (work << s),
            y1 == y ^ work,
            work2 == ((x1 >> s) ^ y1) & m,
    ;
}

proof fn lemma_mix_odd_involutive(x: u32, y: u32)
    ensures
        mix_odd(mix_odd(x, y).0, mix_odd(x, y).1) == (x, y),
        mix_odd(mix_odd(x, y).1, mix_odd(x, y).0) == (y, x),
{
    let w = (x ^ y) & 0xaaaaaaaau32;
    assert(((((x ^ w) ^ (y ^ w)) & 0xaaaaaaaau32) == w) && ((((y ^ w) ^ (x ^ w)) & 0xaaaaaaaau32) == w)
        && ((x ^ w) ^ w == x) && ((y ^ w) ^ w == y))
        by (bit_vector)
        requires
            w == (x ^ y) & 0xaaaaaaaau32,
    ;
}

proof fn lemma_rotations(x: u32)
    ensures
        rotl1(rotr1(x)) == x,
        rotr1(rotl1(x)) == x,
{
    assert(((((x << 31u32) | (x >> 1u32)) << 1u32) | (((x << 31u32) | (x >> 1u32)) >> 31u32)) == x
        && ((((x << 1u32) | (x >> 31u32)) << 31u32) | (((x << 1u32) | (x >> 31u32)) >> 1u32)) == x)
        by (bit_vector);
}

proof fn lemma_swap_masks()
    ensures
        (0x0f0f0f0fu32 << 4u32) >> 4u32 == 0x0f0f0f0fu32,
        (0x0000ffffu32 << 16u32) >> 16u32 == 0x0000ffffu32,
        (0x33333333u32 << 2u32) >> 2u32 == 0x33333333u32,
        (0x00ff00ffu32 << 8u32) >> 8u32 == 0x00ff00ffu32,
{
    assert((0x0f0f0f0fu32 << 4u32) >> 4u32 == 0x0f0f0f0fu32) by (bit_vector);
    assert((0x0000ffffu32 << 16u32) >> 16u32 == 0x0000ffffu32) by (bit_vector);
    assert((0x33333333u32 << 2u32) >> 2u32 == 0x33333333u32) by (bit_vector);
    assert((0x00ff00ffu32 << 8u32) >> 8u32 == 0x00ff00ffu32) by (bit_vector);
}

/// The initial permutation undoes the final one, with the two halves exchanged.
pub proof fn lemma_initial_after_final(l: u32, r: u32)
    ensures
        initial_permutation(final_permutation(l, r).0, final_permutation(l, r).1) == (r, l),
{
    lemma_swap_masks();
    let r1 = rotr1(r);
    let (l2, r2) = mix_odd(l, r1);
    let l3 = rotr1(l2);
    let (l4, r4) = swap_step(l3, r2, 8, 0x00ff00ff);
    let (l5, r5) = swap_step(l4, r4, 2, 0x33333333);
    let (r6, l6) = swap_step(r5, l5, 16, 0x0000ffff);
    let (r7, l7) = swap_step(r6, l6, 4, 0x0f0f0f0f);
    assert(final_permutation(l, r) == (r7, l7));
    lemma_swap_step_involutive(r6, l6, 4, 0x0f0f0f0f);
    lemma_swap_step_involutive(r5, l5, 16, 0x0000ffff);
    lemma_swap_step_involutive(l4, r4, 2, 0x33333333);
    lemma_swap_step_involutive(l3, r2, 8, 0x00ff00ff);
    lemma_rotations(l2);
    lemma_mix_odd_involutive(l, r1);
    lemma_rotations(r);
}

/// The final permutation undoes the initial one, once the halves are exchanged.
pub proof fn lemma_final_after_initial(a: u32, b: u32)
    ensures
        final_permutation(initial_permutation(a, b).1, initial_permutation(a, b).0) == (a, b),
{
    lemma_swap_masks();
    let (l1, r1) = swap_step(a, b, 4, 0x0f0f0f0f);
    let (l2, r2) = swap_step(l1, r1, 16, 0x0000ffff);
    let (r3, l3) = swap_step(r2, l2, 2, 0x33333333);
    let (r4, l4) = swap_step(r3, l3, 8, 0x00ff00ff);
    let r5 = rotl1(r4);
    let (l6, r6) = mix_odd(l4, r5);
    let l7 = rotl1(l6);
    assert(initial_permutation(a, b) == (l7, r6));
    lemma_rotations(l6);
    lemma_mix_odd_involutive(l4, r5);
    lemma_rotations(r4);
    lemma_swap_step_involutive(r3, l3, 8, 0x00ff00ff);
    lemma_swap_step_involutive(r2, l2, 2, 0x33333333);
    lemma_swap_step_involutive(l1, r1, 16, 0x0000ffff);
    lemma_swap_step_involutive(a, b, 4, 0x0f0f0f0f);
}

/// Bit `n` (1..=64, most significant first) of a block held as two words.
pub open spec fn block_bit(w: (u32, u32), n: int) -> u32 {
    if n <= 32 {
        (w.0 >> ((32 - n) as u32)) & 1u32
    } else {
        (w.1 >> ((64 - n) as u32)) & 1u32
    }
}

/// With each half rotated back right by one bit, `initial_permutation` is the
/// standard initial permutation of the block.
pub proof fn lemma_initial_permutation_standard(l: u32, r: u32)
    ensures
        forall|k: int|
            1 <= k <= 64 ==> #[trigger] block_bit(
                (rotr1(initial_permutation(l, r).0), rotr1(initial_permutation(l, r).1)),
                k,
            ) == block_bit((l, r), IP_TABLE@[k - 1] as int),
{
    let w1 = ((l >> 4u32) ^ r) & 0x0f0f0f0fu32;
    let l1 = l ^ (w1 << 4u32);
    let r1 = r ^ w1;
    let w2 = ((l1 >> 16u32) ^ r1) & 0x0000ffffu32;
    let l2 = l1 ^ (w2 << 16u32);
    let r2 = r1 ^ w2;
    let w3 = ((r2 >> 2u32) ^ l2) & 0x33333333u32;
    let r3 = r2 ^ (w3 << 2u32);
    let l3 = l2 ^ w3;
    let w4 = ((r3 >> 8u32) ^ l3) & 0x00ff00ffu32;
    let r4 = r3 ^ (w4 << 8u32);
    let l4 = l3 ^ w4;
    let r5 = (r4 << 1u32) | (r4 >> 31u32);
    let w6 = (l4 ^ r5) & 0xaaaaaaaau32;
    let l6 = l4 ^ w6;
    let r6 = r5 ^ w6;
    let l7 = (l6 << 1u32) | (l6 >> 31u32);
    let o0 = (l7 << 31u32) | (l7 >> 1u32);
    let o1 = (r6 << 31u32) | (r6 >> 1u32);
    assert(initial_permutation(l, r) == (l7, r6));
    assert(((o0 >> 31u32) & 1u32) == ((r >> 6u32) & 1u32)
            && ((o0 >> 30u32) & 1u32) == ((r >> 14u32) & 1u32)
            && ((o0 >> 29u32) & 1u32) == ((r >> 22u32) & 1u32)
            && ((o0 >> 28u32) & 1u32) == ((r >> 30u32) & 1u32)
            && ((o0 >> 27u32) & 1u32) == ((l >> 6u32) & 1u32)
            && ((o0 >> 26u32) & 1u32) == ((l >> 14u32) & 1u32)
            && ((o0 >> 25u32) & 1u32) == ((l >> 22u32) & 1u32)
            && ((o0 >> 24u32) & 1u32) == ((l >> 30u32) & 1u32)
            && ((o0 >> 23u32) & 1u32) == ((r >> 4u32) & 1u32)
            && ((o0 >> 22u32) & 1u32) == ((r >> 12u32) & 1u32)
            && ((o0 >> 21u32) & 1u32) == ((r >> 20u32) & 1u32)
            && ((o0 >> 20u32) & 1u32) == ((r >> 28u32) & 1u32)
            && ((o0 >> 19u32) & 1u32) == ((l >> 4u32) & 1u32)
            && ((o0 >> 18u32) & 1u32) == ((l >> 12u32) & 1u32)
            && ((o0 >> 17u32) & 1u32) == ((l >> 20u32) & 1u32)
            && ((o0 >> 16u32) & 1u32) == ((l >> 28u32) & 1u32)
            && ((o0 >> 15u32) & 1u32) == ((r >> 2u32) & 1u32)
            && ((o0 >> 14u32) & 1u32) == ((r >> 10u32) & 1u32)
            && ((o0 >> 13u32) & 1u32) == ((r >> 18u32) & 1u32)
            && ((o0 >> 12u32) & 1u32) == ((r >> 26u32) & 1u32)
            && ((o0 >> 11u32) & 1u32) == ((l >> 2u32) & 1u32)
            && ((o0 >> 10u32) & 1u32) == ((l >> 10u32) & 1u32)
            && ((o0 >> 9u32) & 1u32) == ((l >> 18u32) & 1u32)
            && ((o0 >> 8u32) & 1u32) == ((l >> 26u32) & 1u32)
            && ((o0 >> 7u32) & 1u32) == ((r >> 0u32) & 1u32)
            && ((o0 >> 6u32) & 1u32) == ((r >> 8u32) & 1u32)
            && ((o0 >> 5u32) & 1u32) == ((r >> 16u32) & 1u32)
            && ((o0 >> 4u32) & 1u32) == ((r >> 24u32) & 1u32)
            && ((o0 >> 3u32) & 1u32) == ((l >> 0u32) & 1u32)
            && ((o0 >> 2u32) & 1u32) == ((l >> 8u32) & 1u32)
            && ((o0 >> 1u32) & 1u32) == ((l >> 16u32) & 1u32)
            && ((o0 >> 0u32) & 1u32) == ((l >> 24u32) & 1u32)
            && ((o1 >> 31u32) & 1u32) == ((r >> 7u32) & 1u32)
            && ((o1 >> 30u32) & 1u32) == ((r >> 15u32) & 1u32)
            && ((o1 >> 29u32) & 1u32) == ((r >> 23u32) & 1u32)
            && ((o1 >> 28u32) & 1u32) == ((r >> 31u32) & 1u32)
            && ((o1 >> 27u32) & 1u32) == ((l >> 7u32) & 1u32)
            && ((o1 >> 26u32) & 1u32) == ((l >> 15u32) & 1u32)
            && ((o1 >> 25u32) & 1u32) == ((l >> 23u32) & 1u32)
            && ((o1 >> 24u32) & 1u32) == ((l >> 31u32) & 1u32)
            && ((o1 >> 23u32) & 1u32) == ((r >> 5u32) & 1u32)
            && ((o1 >> 22u32) & 1u32) == ((r >> 13u32) & 1u32)
            && ((o1 >> 21u32) & 1u32) == ((r >> 21u32) & 1u32)
            && ((o1 >> 20u32) & 1u32) == ((r >> 29u32) & 1u32)
            && ((o1 >> 19u32) & 1u32) == ((l >> 5u32) & 1u32)
            && ((o1 >> 18u32) & 1u32) == ((l >> 13u32) & 1u32)
            && ((o1 >> 17u32) & 1u32) == ((l >> 21u32) & 1u32)
            && ((o1 >> 16u32) & 1u32) == ((l >> 29u32) & 1u32)
            && ((o1 >> 15u32) & 1u32) == ((r >> 3u32) & 1u32)
            && ((o1 >> 14u32) & 1u32) == ((r >> 11u32) & 1u32)
            && ((o1 >> 13u32) & 1u32) == ((r >> 19u32) & 1u32)
            && ((o1 >> 12u32) & 1u32) == ((r >> 27u32) & 1u32)
            && ((o1 >> 11u32) & 1u32) == ((l >> 3u32) & 1u32)
            && ((o1 >> 10u32) & 1u32) == ((l >> 11u32) & 1u32)
            && ((o1 >> 9u32) & 1u32) == ((l >> 19u32) & 1u32)
            && ((o1 >> 8u32) & 1u32) == ((l >> 27u32) & 1u32)
            && ((o1 >> 7u32) & 1u32) == ((r >> 1u32) & 1u32)
            && ((o1 >> 6u32) & 1u32) == ((r >> 9u32) & 1u32)
            && ((o1 >> 5u32) & 1u32) == ((r >> 17u32) & 1u32)
            && ((o1 >> 4u32) & 1u32) == ((r >> 25u32) & 1u32)
            && ((o1 >> 3u32) & 1u32) == ((l >> 1u32) & 1u32)
            && ((o1 >> 2u32) & 1u32) == ((l >> 9u32) & 1u32)
            && ((o1 >> 1u32) & 1u32) == ((l >> 17u32) & 1u32)
            && ((o1 >> 0u32) & 1u32) == ((l >> 25u32) & 1u32)) by (bit_vector)
        requires
            w1 == ((l >> 4u32) ^ r) & 0x0f0f0f0fu32,
            l1 == l ^ (w1 << 4u32),
            r1 == r ^ w1,
            w2 == ((l1 >> 16u32) ^ r1) & 0x0000ffffu32,
            l2 == l1 ^ (w2 << 16u32),
            r2 == r1 ^ w2,
            w3 == ((r2 >> 2u32) ^ l2) & 0x33333333u32,
            r3 == r2 ^ (w3 << 2u32),
            l3 == l2 ^ w3,
            w4 == ((r3 >> 8u32) ^ l3) & 0x00ff00ffu32,
            r4 == r3 ^ (w4 << 8u32),
            l4 == l3 ^ w4,
            r5 == (r4 << 1u32) | (r4 >> 31u32),
            w6 == (l4 ^ r5) & 0xaaaaaaaau32,
            l6 == l4 ^ w6,
            r6 == r5 ^ w6,
            l7 == (l6 << 1u32) | (l6 >> 31u32),
            o0 == (l7 << 31u32) | (l7 >> 1u32),
            o1 == (r6 << 31u32) | (r6 >> 1u32),
    ;
    assert forall|k: int| 1 <= k <= 64 implies #[trigger] block_bit((o0, o1), k) == block_bit(
        (l, r),
        IP_TABLE@[k - 1] as int,
    ) by {
        assert(k == 1 || k == 2 || k == 3 || k == 4 || k == 5 || k == 6 || k == 7 || k == 8 || k == 9 || k == 10 || k == 11 || k == 12 || k == 13 || k == 14 || k == 15 || k == 16 || k == 17 || k == 18 || k == 19 || k == 20 || k == 21 || k == 22 || k == 23 || k == 24 || k == 25 || k == 26 || k == 27 || k == 28 || k == 29 || k == 30 || k == 31 || k == 32 || k == 33 || k == 34 || k == 35 || k == 36 || k == 37 || k == 38 || k == 39 || k == 40 || k == 41 || k == 42 || k == 43 || k == 44 || k == 45 || k == 46 || k == 47 || k == 48 || k == 49 || k == 50 || k == 51 || k == 52 || k == 53 || k == 54 || k == 55 || k == 56 || k == 57 || k == 58 || k == 59 || k == 60 || k == 61 || k == 62 || k == 63 || k == 64);
    }
}

/// Applied to the halves rotated left by one bit, `final_permutation` is the
/// standard final permutation of the block right half first, left half second.
pub proof fn lemma_final_permutation_standard(l: u32, r: u32)
    ensures
        forall|k: int|
            1 <= k <= 64 ==> #[trigger] block_bit(final_permutation(rotl1(l), rotl1(r)), k) == block_bit(
                (r, l),
                FP_TABLE@[k - 1] as int,
            ),
{
    let a = (l << 1u32) | (l >> 31u32);
    let b = (r << 1u32) | (r >> 31u32);
    let r1 = (b << 31u32) | (b >> 1u32);
    let w2 = (a ^ r1) & 0xaaaaaaaau32;
    let l2 = a ^ w2;
    let r2 = r1 ^ w2;
    let l3 = (l2 << 31u32) | (l2 >> 1u32);
    let w4 = ((l3 >> 8u32) ^ r2) & 0x00ff00ffu32;
    let l4 = l3 ^ (w4 << 8u32);
    let r4 = r2 ^ w4;
    let w5 = ((l4 >> 2u32) ^ r4) & 0x33333333u32;
    let l5 = l4 ^ (w5 << 2u32);
    let r5 = r4 ^ w5;
    let w6 = ((r5 >> 16u32) ^ l5) & 0x0000ffffu32;
    let r6 = r5 ^ (w6 << 16u32);
    let l6 = l5 ^ w6;
    let w7 = ((r6 >> 4u32) ^ l6) & 0x0f0f0f0fu32;
    let f0 = r6 ^ (w7 << 4u32);
    let f1 = l6 ^ w7;
    assert(final_permutation(rotl1(l), rotl1(r)) == (f0, f1));
    assert(((f0 >> 31u32) & 1u32) == ((l >> 24u32) & 1u32)
            && ((f0 >> 30u32) & 1u32) == ((r >> 24u32) & 1u32)
            && ((f0 >> 29u32) & 1u32) == ((l >> 16u32) & 1u32)
            && ((f0 >> 28u32) & 1u32) == ((r >> 16u32) & 1u32)
            && ((f0 >> 27u32) & 1u32) == ((l >> 8u32) & 1u32)
            && ((f0 >> 26u32) & 1u32) == ((r >> 8u32) & 1u32)
            && ((f0 >> 25u32) & 1u32) == ((l >> 0u32) & 1u32)
            && ((f0 >> 24u32) & 1u32) == ((r >> 0u32) & 1u32)
            && ((f0 >> 23u32) & 1u32) == ((l >> 25u32) & 1u32)
            && ((f0 >> 22u32) & 1u32) == ((r >> 25u32) & 1u32)
            && ((f0 >> 21u32) & 1u32) == ((l >> 17u32) & 1u32)
            && ((f0 >> 20u32) & 1u32) == ((r >> 17u32) & 1u32)
            && ((f0 >> 19u32) & 1u32) == ((l >> 9u32) & 1u32)
            && ((f0 >> 18u32) & 1u32) == ((r >> 9u32) & 1u32)
            && ((f0 >> 17u32) & 1u32) == ((l >> 1u32) & 1u32)
            && ((f0 >> 16u32) & 1u32) == ((r >> 1u32) & 1u32)
            && ((f0 >> 15u32) & 1u32) == ((l >> 26u32) & 1u32)
            && ((f0 >> 14u32) & 1u32) == ((r >> 26u32) & 1u32)
            && ((f0 >> 13u32) & 1u32) == ((l >> 18u32) & 1u32)
            && ((f0 >> 12u32) & 1u32) == ((r >> 18u32) & 1u32)
            && ((f0 >> 11u32) & 1u32) == ((l >> 10u32) & 1u32)
            && ((f0 >> 10u32) & 1u32) == ((r >> 10u32) & 1u32)
            && ((f0 >> 9u32) & 1u32) == ((l >> 2u32) & 1u32)
            && ((f0 >> 8u32) & 1u32) == ((r >> 2u32) & 1u32)
            && ((f0 >> 7u32) & 1u32) == ((l >> 27u32) & 1u32)
            && ((f0 >> 6u32) & 1u32) == ((r >> 27u32) & 1u32)
            && ((f0 >> 5u32) & 1u32) == ((l >> 19u32) & 1u32)
            && ((f0 >> 4u32) & 1u32) == ((r >> 19u32) & 1u32)
            && ((f0 >> 3u32) & 1u32) == ((l >> 11u32) & 1u32)
            && ((f0 >> 2u32) & 1u32) == ((r >> 11u32) & 1u32)
            && ((f0 >> 1u32) & 1u32) == ((l >> 3u32) & 1u32)
            && ((f0 >> 0u32) & 1u32) == ((r >> 3u32) & 1u32)
            && ((f1 >> 31u32) & 1u32) == ((l >> 28u32) & 1u32)
            && ((f1 >> 30u32) & 1u32) == ((r >> 28u32) & 1u32)
            && ((f1 >> 29u32) & 1u32) == ((l >> 20u32) & 1u32)
            && ((f1 >> 28u32) & 1u32) == ((r >> 20u32) & 1u32)
            && ((f1 >> 27u32) & 1u32) == ((l >> 12u32) & 1u32)
            && ((f1 >> 26u32) & 1u32) == ((r >> 12u32) & 1u32)
            && ((f1 >> 25u32) & 1u32) == ((l >> 4u32) & 1u32)
            && ((f1 >> 24u32) & 1u32) == ((r >> 4u32) & 1u32)
            && ((f1 >> 23u32) & 1u32) == ((l >> 29u32) & 1u32)
            && ((f1 >> 22u32) & 1u32) == ((r >> 29u32) & 1u32)
            && ((f1 >> 21u32) & 1u32) == ((l >> 21u32) & 1u32)
            && ((f1 >> 20u32) & 1u32) == ((r >> 21u32) & 1u32)
            && ((f1 >> 19u32) & 1u32) == ((l >> 13u32) & 1u32)
            && ((f1 >> 18u32) & 1u32) == ((r >> 13u32) & 1u32)
            && ((f1 >> 17u32) & 1u32) == ((l >> 5u32) & 1u32)
            && ((f1 >> 16u32) & 1u32) == ((r >> 5u32) & 1u32)
            && ((f1 >> 15u32) & 1u32) == ((l >> 30u32) & 1u32)
            && ((f1 >> 14u32) & 1u32) == ((r >> 30u32) & 1u32)
            && ((f1 >> 13u32) & 1u32) == ((l >> 22u32) & 1u32)
            && ((f1 >> 12u32) & 1u32) == ((r >> 22u32) & 1u32)
            && ((f1 >> 11u32) & 1u32) == ((l >> 14u32) & 1u32)
            && ((f1 >> 10u32) & 1u32) == ((r >> 14u32) & 1u32)
            && ((f1 >> 9u32) & 1u32) == ((l >> 6u32) & 1u32)
            && ((f1 >> 8u32) & 1u32) == ((r >> 6u32) & 1u32)
            && ((f1 >> 7u32) & 1u32) == ((l >> 31u32) & 1u32)
            && ((f1 >> 6u32) & 1u32) == ((r >> 31u32) & 1u32)
            && ((f1 >> 5u32) & 1u32) == ((l >> 23u32) & 1u32)
            && ((f1 >> 4u32) & 1u32) == ((r >> 23u32) & 1u32)
            && ((f1 >> 3u32) & 1u32) == ((l >> 15u32) & 1u32)
            && ((f1 >> 2u32) & 1u32) == ((r >> 15u32) & 1u32)
            && ((f1 >> 1u32) & 1u32) == ((l >> 7u32) & 1u32)
            && ((f1 >> 0u32) & 1u32) == ((r >> 7u32) & 1u32)) by (bit_vector)
        requires
            a == (l << 1u32) | (l >> 31u32),
            b == (r << 1u32) | (r >> 31u32),
            r1 == (b << 31u32) | (b >> 1u32),
            w2 == (a ^ r1) & 0xaaaaaaaau32,
            l2 == a ^ w2,
            r2 == r1 ^ w2,
            l3 == (l2 << 31u32) | (l2 >> 1u32),
            w4 == ((l3 >> 8u32) ^ r2) & 0x00ff00ffu32,
            l4 == l3 ^ (w4 << 8u32),
            r4 == r2 ^ w4,
            w5 == ((l4 >> 2u32) ^ r4) & 0x33333333u32,
            l5 == l4 ^ (w5 << 2u32),
            r5 == r4 ^ w5,
            w6 == ((r5 >> 16u32) ^ l5) & 0x0000ffffu32,
            r6 == r5 ^ (w6 << 16u32),
            l6 == l5 ^ w6,
            w7 == ((r6 >> 4u32) ^ l6) & 0x0f0f0f0fu32,
            f0 == r6 ^ (w7 << 4u32),
            f1 == l6 ^ w7,
    ;
    assert forall|k: int| 1 <= k <= 64 implies #[trigger] block_bit((f0, f1), k) == block_bit(
        (r, l),
        FP_TABLE@[k - 1] as int,
    ) by {
        assert(k == 1 || k == 2 || k == 3 || k == 4 || k == 5 || k == 6 || k == 7 || k == 8 || k == 9 || k == 10 || k == 11 || k == 12 || k == 13 || k == 14 || k == 15 || k == 16 || k == 17 || k == 18 || k == 19 || k == 20 || k == 21 || k == 22 || k == 23 || k == 24 || k == 25 || k == 26 || k == 27 || k == 28 || k == 29 || k == 30 || k == 31 || k == 32 || k == 33 || k == 34 || k == 35 || k == 36 || k == 37 || k == 38 || k == 39 || k == 40 || k == 41 || k == 42 || k == 43 || k == 44 || k == 45 || k == 46 || k == 47 || k == 48 || k == 49 || k == 50 || k == 51 || k == 52 || k == 53 || k == 54 || k == 55 || k == 56 || k == 57 || k == 58 || k == 59 || k == 60 || k == 61 || k == 62 || k == 63 || k == 64);
    }
}

// ----------------------------------------------------------------------------
// Round function and rounds
// ----------------------------------------------------------------------------

/// The round function on one half: eight table lookups on 6-bit windows of
/// the half (rotated right by 4 for the first four) mixed with two subkey
/// words, combined by bitwise or.
pub open spec fn feistel(x: u32, k0: u32, k1: u32) -> u32 {
    let w = ((x << 28u32) | (x >> 4u32)) ^ k0;
    let u = x ^ k1;
    SP7@[(w & 0x3fu32) as int] | SP5@[((w >> 8u32) & 0x3fu32) as int]
        | SP3@[((w >> 16u32) & 0x3fu32) as int] | SP1@[((w >> 24u32) & 0x3fu32) as int]
        | SP8@[(u & 0x3fu32) as int] | SP6@[((u >> 8u32) & 0x3fu32) as int]
        | SP4@[((u >> 16u32) & 0x3fu32) as int] | SP2@[((u >> 24u32) & 0x3fu32) as int]
}

/// Half-round `j` (0..16) on the pair (left, right), with subkey words
/// `2j` and `2j + 1`: even rounds update the left half, odd ones the right.
pub open spec fn half_round(ks: Seq<u32>, j: int, s: (u32, u32)) -> (u32, u32) {
    if j % 2 == 0 {
        (s.0 ^ feistel(s.1, ks[2 * j], ks[2 * j + 1]), s.1)
    } else {
        (s.0, s.1 ^ feistel(s.0, ks[2 * j], ks[2 * j + 1]))
    }
}

/// The first `n` half-rounds applied to `s`.
pub open spec fn rounds(ks: Seq<u32>, s: (u32, u32), n: nat) -> (u32, u32)
    decreases n,
{
    if n == 0 {
        s
    } else {
        half_round(ks, n - 1, rounds(ks, s, (n - 1) as nat))
    }
}

/// The block transform on two words under a 32-word schedule.
pub open spec fn transform_words(ks: Seq<u32>, w: (u32, u32)) -> (u32, u32) {
    let s = rounds(ks, initial_permutation(w.0, w.1), 16);
    final_permutation(s.0, s.1)
}

/// The block transform on an 8-byte block under a 32-word schedule.
pub open spec fn transform_block(ks: Seq<u32>, b: Seq<u8>) -> Seq<u8> {
    unpack(transform_words(ks, pack(b)))
}

// ----------------------------------------------------------------------------
// Key schedule
// ----------------------------------------------------------------------------

/// Bit `l` (0..64) of the key; within each byte the least significant bit
/// comes first.
pub open spec fn key_bit(key: Seq<u8>, l: int) -> bool {
    key[l / 8] & (BYTEBIT@[l % 8] as u8) != 0
}

/// Position `j` (0..56) after the first key selection.
pub open spec fn selected_bit(key: Seq<u8>, j: int) -> bool {
    key_bit(key, PC1@[j] as int)
}

/// Position `j` (0..56) in round `i`, after both 28-bit halves have been
/// rotated left by the round's cumulative amount.
pub open spec fn rotated_bit(key: Seq<u8>, i: int, j: int) -> bool {
    let l = j + TOTROT@[i] as int;
    if j < 28 {
        if l < 28 { selected_bit(key, l) } else { selected_bit(key, l - 28) }
    } else {
        if l < 56 { selected_bit(key, l) } else { selected_bit(key, l - 28) }
    }
}

/// The first `n` (0..=24) bits of half `h` (0 or 1) of round `i`'s raw
/// subkey: bit `23 - j` is the rotated position that the second selection
/// names at `24 h + j`.
pub open spec fn raw_subkey(key: Seq<u8>, i: int, h: int, n: nat) -> u32
    decreases n,
{
    if n == 0 {
        0
    } else {
        raw_subkey(key, i, h, (n - 1) as nat) | (if rotated_bit(key, i, PC2@[24 * h + n - 1] as int) {
            BIGBYTE@[n - 1]
        } else {
            0
        })
    }
}

/// First word of a cooked subkey pair: the 6-bit groups 1, 3, 5, 7 of the
/// raw pair, laid out for the round function's first four lookups.
pub open spec fn cook_even(raw0: u32, raw1: u32) -> u32 {
    ((raw0 & 0x00fc0000u32) << 6u32) | ((raw0 & 0x00000fc0u32) << 10u32)
        | ((raw1 & 0x00fc0000u32) >> 10u32) | ((raw1 & 0x00000fc0u32) >> 6u32)
}

/// Second word of a cooked subkey pair: the 6-bit groups 2, 4, 6, 8.
pub open spec fn cook_odd(raw0: u32, raw1: u32) -> u32 {
    ((raw0 & 0x0003f000u32) << 12u32) | ((raw0 & 0x0000003fu32) << 16u32)
        | ((raw1 & 0x0003f000u32) >> 4u32) | (raw1 & 0x0000003fu32)
}

/// Word `h` (0 or 1) of round `i`'s cooked subkey.
pub open spec fn round_key(key: Seq<u8>, i: int, h: int) -> u32 {
    let raw0 = raw_subkey(key, i, 0, 24);
    let raw1 = raw_subkey(key, i, 1, 24);
    if h == 0 { cook_even(raw0, raw1) } else { cook_odd(raw0, raw1) }
}

/// The round whose subkey sits in slot `s`: the same round for encryption,
/// round `15 - s` for decryption.
pub open spec fn slot_round(s: int, encrypt: bool) -> int {
    if encrypt { s } else { 15 - s }
}

/// The 32-word schedule of a key: slot `s` holds words `2s` and `2s + 1`.
pub open spec fn key_schedule(key: Seq<u8>, encrypt: bool) -> Seq<u32> {
    Seq::new(32, |m: int| round_key(key, slot_round(m / 2, encrypt), m % 2))
}

/// One block encrypted (`encrypt`) or decrypted under an 8-byte key.
#[verifier::opaque]
pub open spec fn des_cipher(key: Seq<u8>, block: Seq<u8>, encrypt: bool) -> Seq<u8> {
    transform_block(key_schedule(key, encrypt), block)
}

// ----------------------------------------------------------------------------
// Ignored key bits
// ----------------------------------------------------------------------------

proof fn lemma_low_bits_mask(a: u8, b: u8, m: u8)
    requires
        a & 0x7fu8 == b & 0x7fu8,
        m & 0x80u8 == 0,
    ensures
        (a & m) == (b & m),
{
    assert((a & m) == (b & m)) by (bit_vector)
        requires
            a & 0x7fu8 == b & 0x7fu8,
            m & 0x80u8 == 0,
    ;
}

proof fn lemma_raw_subkey_same(k1: Seq<u8>, k2: Seq<u8>, i: int, h: int, n: nat)
    requires
        forall|j: int| 0 <= j < 56 ==> #[trigger] rotated_bit(k1, i, j) == rotated_bit(k2, i, j),
        0 <= h < 2,
        n <= 24,
    ensures
        raw_subkey(k1, i, h, n) == raw_subkey(k2, i, h, n),
    decreases n,
{
    if n > 0 {
        lemma_raw_subkey_same(k1, k2, i, h, (n - 1) as nat);
        assert(PC2@[24 * h + n - 1] < 56);
    }
}

/// The most significant bit of each key byte takes no part in the cipher:
/// keys that differ only there have the same schedule, so they encrypt and
/// decrypt every block alike.
pub proof fn lemma_high_key_bits_ignored(k1: Seq<u8>, k2: Seq<u8>, encrypt: bool)
    requires
        k1.len() == 8,
        k2.len() == 8,
        forall|i: int| 0 <= i < 8 ==> #[trigger] k1[i] & 0x7fu8 == k2[i] & 0x7fu8,
    ensures
        key_schedule(k1, encrypt) == key_schedule(k2, encrypt),
        forall|b: Seq<u8>| #[trigger] des_cipher(k1, b, encrypt) == des_cipher(k2, b, encrypt),
{
    assert forall|j: int| 0 <= j < 56 implies #[trigger] selected_bit(k1, j) == selected_bit(k2, j) by {
        let l = PC1@[j] as int;
        assert(0 <= l < 64 && l % 8 != 7);
        assert((BYTEBIT@[l % 8] as u8) & 0x80u8 == 0) by {
            let m = BYTEBIT@[l % 8] as u8;
            assert(m == 1 || m == 2 || m == 4 || m == 8 || m == 16 || m == 32 || m == 64);
            assert((m == 1 || m == 2 || m == 4 || m == 8 || m == 16 || m == 32 || m == 64) ==> m & 0x80u8 == 0)
                by (bit_vector);
        }
        lemma_low_bits_mask(k1[l / 8], k2[l / 8], BYTEBIT@[l % 8] as u8);
    }
    assert forall|m: int| 0 <= m < 32 implies #[trigger] key_schedule(k1, encrypt)[m] == key_schedule(k2, encrypt)[m] by {
        let i = slot_round(m / 2, encrypt);
        assert forall|j: int| 0 <= j < 56 implies #[trigger] rotated_bit(k1, i, j) == rotated_bit(k2, i, j) by {
            assert(TOTROT@[i] <= 28);
        }
        lemma_raw_subkey_same(k1, k2, i, 0, 24);
        lemma_raw_subkey_same(k1, k2, i, 1, 24);
    }
    assert(key_schedule(k1, encrypt) =~= key_schedule(k2, encrypt));
    reveal(des_cipher);
}

// ----------------------------------------------------------------------------
// Inversion
// ----------------------------------------------------------------------------

/// The decryption schedule holds the encryption schedule's slots in reverse order.
pub proof fn lemma_schedule_reversed(key: Seq<u8>, s: int, h: int)
    requires
        0 <= s < 16,
        0 <= h < 2,
    ensures
        key_schedule(key, false)[2 * s + h] == key_schedule(key, true)[2 * (15 - s) + h],
{
    assert((2 * s + h) / 2 == s && (2 * s + h) % 2 == h);
    assert((2 * (15 - s) + h) / 2 == 15 - s && (2 * (15 - s) + h) % 2 == h);
}

proof fn lemma_xor_twice(x: u32, f: u32)
    ensures
        (x ^ f) ^ f == x,
{
    assert((x ^ f) ^ f == x) by (bit_vector);
}

/// Running the half-rounds with the slots reversed, from the exchanged
/// halves of the output, walks the encryption back: after `n` steps it stands
/// at the exchanged state of step `16 - n`.
proof fn lemma_rounds_reversed(ke: Seq<u32>, kd: Seq<u32>, s0: (u32, u32), n: nat)
    requires
        n <= 16,
        ke.len() == 32,
        kd.len() == 32,
        forall|j: int, h: int| 0 <= j < 16 && 0 <= h < 2 ==> #[trigger] kd[2 * j + h] == ke[2 * (15 - j) + h],
    ensures
        ({
            let e16 = rounds(ke, s0, 16);
            let e = rounds(ke, s0, (16 - n) as nat);
            rounds(kd, (e16.1, e16.0), n) == (e.1, e.0)
        }),
    decreases n,
{
    if n > 0 {
        lemma_rounds_reversed(ke, kd, s0, (n - 1) as nat);
        let j = 15 - (n - 1);
        let a = rounds(ke, s0, j as nat);
        let a2 = rounds(ke, s0, (j + 1) as nat);
        assert(a2 == half_round(ke, j, a));
        assert(kd[2 * (n - 1) + 0] == ke[2 * j + 0]);
        assert(kd[2 * (n - 1) + 1] == ke[2 * j + 1]);
        let f = feistel(if j % 2 == 0 { a.1 } else { a.0 }, ke[2 * j], ke[2 * j + 1]);
        lemma_xor_twice(a.0, f);
        lemma_xor_twice(a.1, f);
    }
}

/// A transformed block is again 8 bytes.
pub proof fn lemma_cipher_len(key: Seq<u8>, block: Seq<u8>, encrypt: bool)
    ensures
        des_cipher(key, block, encrypt).len() == 8,
{
    reveal(des_cipher);
}

/// Two schedules whose slots stand in reverse order of each other undo each
/// other's block transform.
proof fn lemma_transform_inverse(ka: Seq<u32>, kb: Seq<u32>, block: Seq<u8>)
    requires
        block.len() == 8,
        ka.len() == 32,
        kb.len() == 32,
        forall|j: int, h: int| 0 <= j < 16 && 0 <= h < 2 ==> #[trigger] kb[2 * j + h] == ka[2 * (15 - j) + h],
    ensures
        transform_block(kb, transform_block(ka, block)) == block,
{
    let w = pack(block);
    let s0 = initial_permutation(w.0, w.1);
    let e16 = rounds(ka, s0, 16);
    let c = final_permutation(e16.0, e16.1);
    lemma_pack_unpack(c);
    lemma_initial_after_final(e16.0, e16.1);
    lemma_rounds_reversed(ka, kb, s0, 16);
    assert(rounds(ka, s0, 0) == s0);
    lemma_final_after_initial(w.0, w.1);
    lemma_unpack_pack(block);
}

/// Decryption under a key undoes encryption under the same key, for every
/// key and every 8-byte block.
pub proof fn lemma_decrypt_encrypt(key: Seq<u8>, block: Seq<u8>)
    requires
        block.len() == 8,
    ensures
        des_cipher(key, des_cipher(key, block, true), false) == block,
{
    reveal(des_cipher);
    let ke = key_schedule(key, true);
    let kd = key_schedule(key, false);
    assert forall|j: int, h: int| 0 <= j < 16 && 0 <= h < 2 implies #[trigger] kd[2 * j + h] == ke[2 * (15 - j) + h] by {
        lemma_schedule_reversed(key, j, h);
    }
    lemma_transform_inverse(ke, kd, block);
}

/// Encryption under a key undoes decryption under the same key, for every
/// key and every 8-byte block.
pub proof fn lemma_encrypt_decrypt(key: Seq<u8>, block: Seq<u8>)
    requires
        block.len() == 8,
    ensures
        des_cipher(key, des_cipher(key, block, false), true) == block,
{
    reveal(des_cipher);
    let ke = key_schedule(key, true);
    let kd = key_schedule(key, false);
    assert forall|j: int, h: int| 0 <= j < 16 && 0 <= h < 2 implies #[trigger] ke[2 * j + h] == kd[2 * (15 - j) + h] by {
        lemma_schedule_reversed(key, 15 - j, h);
    }
    lemma_transform_inverse(kd, ke, block);
}

// ----------------------------------------------------------------------------
// The engine
// ----------------------------------------------------------------------------

/// The schedule that the cooking pass makes of 32 raw words: each pair of raw
/// words becomes a pair of cooked words.
pub open spec fn cooked(raw: Seq<u32>) -> Seq<u32> {
    Seq::new(
        32,
        |m: int|
            if m % 2 == 0 {
                cook_even(raw[2 * (m / 2)], raw[2 * (m / 2) + 1])
            } else {
                cook_odd(raw[2 * (m / 2)], raw[2 * (m / 2) + 1])
            },
    )
}

proof fn lemma_windows(w: u32)
    ensures
        (w & 0x3fu32) < 64,
        ((w >> 8u32) & 0x3fu32) < 64,
        ((w >> 16u32) & 0x3fu32) < 64,
        ((w >> 24u32) & 0x3fu32) < 64,
{
    assert((w & 0x3fu32) < 64 && ((w >> 8u32) & 0x3fu32) < 64 && ((w >> 16u32) & 0x3fu32) < 64
        && ((w >> 24u32) & 0x3fu32) < 64) by (bit_vector);
}

proof fn lemma_or_zero(x: u32)
    ensures
        x | 0u32 == x,
{
    assert(x | 0u32 == x) by (bit_vector);
}

/// The engine: the subkey schedule of the key loaded last, consumed by the
/// block transform.
#[derive(Debug, Clone)]
pub struct VncDesEngine {
    kn_l: [u32; 32],
}

impl Default for VncDesEngine {
    fn default() -> (r: Self)
        ensures
            forall|i: int| 0 <= i < 32 ==> r.schedule()[i] == 0,
    {
        Self::new()
    }
}

impl VncDesEngine {
    /// The schedule the engine holds.
    pub closed spec fn schedule(&self) -> Seq<u32> {
        self.kn_l@
    }

    /// An engine with an all-zero schedule.
    pub fn new() -> (r: Self)
        ensures
            forall|i: int| 0 <= i < 32 ==> r.schedule()[i] == 0,
    {
        Self { kn_l: [0; 32] }
    }

    /// The schedule words the engine holds.
    pub fn subkeys(&self) -> (r: [u32; 32])
        ensures
            r@ == self.schedule(),
    {
        self.kn_l
    }

    /// Erases the schedule.
    pub fn clear_key(&mut self)
        ensures
            forall|i: int| 0 <= i < 32 ==> final(self).schedule()[i] == 0,
    {
        self.kn_l = [0; 32];
    }

    /// Loads the schedule of `hex_key` for encryption (`encrypt`) or decryption.
    pub fn deskey(&mut self, hex_key: &[u8; 8], encrypt: bool)
        ensures
            final(self).schedule() == key_schedule(hex_key@, encrypt),
    {
        let ghost key = hex_key@;
        let mut pc1m = [0u8; 56];
        let mut pcr = [0u8; 56];
        let mut kn = [0u32; 32];

        let mut j: usize = 0;
        while j < 56
            invariant
                j <= 56,
                key == hex_key@,
                forall|k: int| 0 <= k < j ==> pc1m[k] == (if selected_bit(key, k) { 1u8 } else { 0u8 }),
            decreases 56 - j,
        {
            let l = PC1[j] as usize;
            let m = l % 8;
            let bit = (hex_key[l / 8] & BYTEBIT[m] as u8) != 0;
            pc1m[j] = if bit {
                1
            } else {
                0
            };
            j += 1;
        }

        let mut i: usize = 0;
        while i < 16
            invariant
                i <= 16,
                forall|k: int| 0 <= k < 56 ==> pc1m[k] == (if selected_bit(key, k) { 1u8 } else { 0u8 }),
                forall|s: int|
                    0 <= s < 16 && slot_round(s, encrypt) < i ==> kn[2 * s] == raw_subkey(
                        key,
                        slot_round(s, encrypt),
                        0,
                        24,
                    ) && kn[2 * s + 1] == raw_subkey(key, slot_round(s, encrypt), 1, 24),
            decreases 16 - i,
        {
            let m = if encrypt {
                i * 2
            } else {
                (15 - i) * 2
            };
            let n = m + 1;
            let ghost slot = m as int / 2;
            assert(slot_round(slot, encrypt) == i);
            kn[m] = 0;
            kn[n] = 0;

            let rot = TOTROT[i] as usize;
            let mut j: usize = 0;
            while j < 28
                invariant
                    j <= 28,
                    i < 16,
                    rot == TOTROT@[i as int],
                    forall|k: int| 0 <= k < 56 ==> pc1m[k] == (if selected_bit(key, k) { 1u8 } else { 0u8 }),
                    forall|k: int| 0 <= k < j ==> pcr[k] == (if rotated_bit(key, i as int, k) { 1u8 } else { 0u8 }),
                decreases 28 - j,
            {
                let l = j + rot;
                pcr[j] = if l < 28 {
                    pc1m[l]
                } else {
                    pc1m[l - 28]
                };
                j += 1;
            }
            while j < 56
                invariant
                    28 <= j <= 56,
                    i < 16,
                    rot == TOTROT@[i as int],
                    forall|k: int| 0 <= k < 56 ==> pc1m[k] == (if selected_bit(key, k) { 1u8 } else { 0u8 }),
                    forall|k: int| 0 <= k < j ==> pcr[k] == (if rotated_bit(key, i as int, k) { 1u8 } else { 0u8 }),
                decreases 56 - j,
            {
                let l = j + rot;
                pcr[j] = if l < 56 {
                    pc1m[l]
                } else {
                    pc1m[l - 28]
                };
                j += 1;
            }

            j = 0;
            while j < 24
                invariant
                    j <= 24,
                    i < 16,
                    m == 2 * slot,
                    n == m + 1,
                    0 <= slot < 16,
                    slot_round(slot, encrypt) == i,
                    forall|k: int| 0 <= k < 56 ==> pcr[k] == (if rotated_bit(key, i as int, k) { 1u8 } else { 0u8 }),
                    kn[m as int] == raw_subkey(key, i as int, 0, j as nat),
                    kn[n as int] == raw_subkey(key, i as int, 1, j as nat),
                    forall|s: int|
                        0 <= s < 16 && slot_round(s, encrypt) < i ==> kn[2 * s] == raw_subkey(
                            key,
                            slot_round(s, encrypt),
                            0,
                            24,
                        ) && kn[2 * s + 1] == raw_subkey(key, slot_round(s, encrypt), 1, 24),
                decreases 24 - j,
            {
                proof {
                    lemma_or_zero(kn[m as int]);
                    lemma_or_zero(kn[n as int]);
                }
                if pcr[PC2[j] as usize] != 0 {
                    kn[m] |= BIGBYTE[j];
                }
                if pcr[PC2[j + 24] as usize] != 0 {
                    kn[n] |= BIGBYTE[j];
                }
                j += 1;
            }
            i += 1;
        }

        self.cookey(&kn);
        assert(self.kn_l@ =~= key_schedule(key, encrypt)) by {
            assert forall|m: int| 0 <= m < 32 implies self.kn_l@[m] == key_schedule(key, encrypt)[m] by {
                let s = m / 2;
                assert(slot_round(s, encrypt) < 16);
            }
        }
    }

    /// Rearranges 32 raw subkey words into the layout the round function reads.
    fn cookey(&mut self, raw1: &[u32; 32])
        ensures
            final(self).schedule() == cooked(raw1@),
    {
        let mut dough = [0u32; 32];
        let mut i: usize = 0;
        while i < 16
            invariant
                i <= 16,
                forall|k: int| 0 <= k < 2 * i ==> dough[k] == cooked(raw1@)[k],
            decreases 16 - i,
        {
            let raw0 = raw1[i * 2];
            let raw1v = raw1[i * 2 + 1];
            dough[i * 2] = ((raw0 & 0x00fc0000u32) << 6u32) | ((raw0 & 0x00000fc0u32) << 10u32)
                | ((raw1v & 0x00fc0000u32) >> 10u32) | ((raw1v & 0x00000fc0u32) >> 6u32);
            dough[i * 2 + 1] = ((raw0 & 0x0003f000u32) << 12u32) | ((raw0 & 0x0000003fu32) << 16u32)
                | ((raw1v & 0x0003f000u32) >> 4u32) | (raw1v & 0x0000003fu32);
            assert((2 * i as int) / 2 == i && (2 * i as int + 1) / 2 == i);
            i += 1;
        }
        self.kn_l = dough;
        assert(self.kn_l@ =~= cooked(raw1@));
    }

    /// The two big-endian words of an 8-byte block.
    pub fn scrunch(outof: &[u8; 8]) -> (r: [u32; 2])
        ensures
            (r[0], r[1]) == pack(outof@),
    {
        [
            ((outof[0] as u32) << 24u32) | ((outof[1] as u32) << 16u32) | ((outof[2] as u32) << 8u32)
                | (outof[3] as u32),
            ((outof[4] as u32) << 24u32) | ((outof[5] as u32) << 16u32) | ((outof[6] as u32) << 8u32)
                | (outof[7] as u32),
        ]
    }

    /// The 8-byte block of two words, most significant byte first.
    pub fn unscrun(outof: &[u32; 2]) -> (r: [u8; 8])
        ensures
            r@ == unpack((outof[0], outof[1])),
    {
        let r = [
            ((outof[0] >> 24u32) & 0xffu32) as u8,
            ((outof[0] >> 16u32) & 0xffu32) as u8,
            ((outof[0] >> 8u32) & 0xffu32) as u8,
            ((outof[0] >> 0u32) & 0xffu32) as u8,
            ((outof[1] >> 24u32) & 0xffu32) as u8,
            ((outof[1] >> 16u32) & 0xffu32) as u8,
            ((outof[1] >> 8u32) & 0xffu32) as u8,
            ((outof[1] >> 0u32) & 0xffu32) as u8,
        ];
        assert(r@ =~= unpack((outof[0], outof[1])));
        r
    }

    /// The round function of one half with two subkey words.
    fn round_fn(x: u32, k0: u32, k1: u32) -> (r: u32)
        ensures
            r == feistel(x, k0, k1),
    {
        let work = ((x << 28u32) | (x >> 4u32)) ^ k0;
        proof {
            lemma_windows(work);
        }
        let fval = SP7[(work & 0x3fu32) as usize] | SP5[((work >> 8u32) & 0x3fu32) as usize]
            | SP3[((work >> 16u32) & 0x3fu32) as usize] | SP1[((work >> 24u32) & 0x3fu32) as usize];
        let work = x ^ k1;
        proof {
            lemma_windows(work);
        }
        fval | SP8[(work & 0x3fu32) as usize] | SP6[((work >> 8u32) & 0x3fu32) as usize]
            | SP4[((work >> 16u32) & 0x3fu32) as usize] | SP2[((work >> 24u32) & 0x3fu32) as usize]
    }

    /// The block transform on two words under the loaded schedule: initial
    /// permutation, sixteen half-rounds, final permutation.
    fn desfunc(&self, block: &mut [u32; 2])
        ensures
            (final(block)[0], final(block)[1]) == transform_words(self.schedule(), (old(block)[0], old(block)[1])),
    {
        let ghost ks = self.kn_l@;
        let mut leftt = block[0];
        let mut right = block[1];

        let mut work = ((leftt >> 4u32) ^ right) & 0x0f0f0f0fu32;
        right ^= work;
        leftt ^= work << 4u32;
        work = ((leftt >> 16u32) ^ right) & 0x0000ffffu32;
        right ^= work;
        leftt ^= work << 16u32;
        work = ((right >> 2u32) ^ leftt) & 0x33333333u32;
        leftt ^= work;
        right ^= work << 2u32;
        work = ((right >> 8u32) ^ leftt) & 0x00ff00ffu32;
        leftt ^= work;
        right ^= work << 8u32;
        right = (right << 1u32) | (right >> 31u32);
        work = (leftt ^ right) & 0xaaaaaaaau32;
        leftt ^= work;
        right ^= work;
        leftt = (leftt << 1u32) | (leftt >> 31u32);

        let ghost s0 = (leftt, right);
        assert(s0 == initial_permutation(old(block)[0], old(block)[1]));

        let mut round: usize = 0;
        while round < 8
            invariant
                round <= 8,
                ks == self.kn_l@,
                (leftt, right) == rounds(ks, s0, (2 * round) as nat),
            decreases 8 - round,
        {
            let key_idx = round * 4;
            leftt ^= Self::round_fn(right, self.kn_l[key_idx], self.kn_l[key_idx + 1]);
            assert((leftt, right) == rounds(ks, s0, (2 * round + 1) as nat));
            right ^= Self::round_fn(leftt, self.kn_l[key_idx + 2], self.kn_l[key_idx + 3]);
            assert((leftt, right) == rounds(ks, s0, (2 * round + 2) as nat));
            round += 1;
        }

        right = (right << 31u32) | (right >> 1u32);
        work = (leftt ^ right) & 0xaaaaaaaau32;
        leftt ^= work;
        right ^= work;
        leftt = (leftt << 31u32) | (leftt >> 1u32);
        work = ((leftt >> 8u32) ^ right) & 0x00ff00ffu32;
        right ^= work;
        leftt ^= work << 8u32;
        work = ((leftt >> 2u32) ^ right) & 0x33333333u32;
        right ^= work;
        leftt ^= work << 2u32;
        work = ((right >> 16u32) ^ leftt) & 0x0000ffffu32;
        leftt ^= work;
        right ^= work << 16u32;
        work = ((right >> 4u32) ^ leftt) & 0x0f0f0f0fu32;
        leftt ^= work;
        right ^= work << 4u32;

        block[0] = right;
        block[1] = leftt;
    }

    /// Transforms one block under the loaded schedule.
    pub fn des(&mut self, from: &[u8; 8], to: &mut [u8; 8])
        ensures
            final(to)@ == transform_block(old(self).schedule(), from@),
            *final(self) == *old(self),
    {
        let mut work = Self::scrunch(from);
        self.desfunc(&mut work);
        *to = Self::unscrun(&work);
    }

    /// Encrypts `src` under `key` into `dst`, then erases the schedule.
    pub fn encrypt(&mut self, dst: &mut [u8; 8], src: &[u8; 8], key: &[u8; 8]) -> (r: Result<()>)
        ensures
            r is Ok,
            final(dst)@ == des_cipher(key@, src@, true),
            forall|i: int| 0 <= i < 32 ==> final(self).schedule()[i] == 0,
    {
        reveal(des_cipher);
        self.deskey(key, true);
        self.des(src, dst);
        self.clear_key();
        Ok(())
    }

    /// Decrypts `src` under `key` into `dst`, then erases the schedule.
    pub fn decrypt(&mut self, dst: &mut [u8; 8], src: &[u8; 8], key: &[u8; 8]) -> (r: Result<()>)
        ensures
            r is Ok,
            final(dst)@ == des_cipher(key@, src@, false),
            forall|i: int| 0 <= i < 32 ==> final(self).schedule()[i] == 0,
    {
        reveal(des_cipher);
        self.deskey(key, false);
        self.des(src, dst);
        self.clear_key();
        Ok(())
    }
}

} // verus!
