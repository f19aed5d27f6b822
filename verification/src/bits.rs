//! Bits of a number, by division.

use vstd::prelude::*;

verus! {

/// The value of the bit with the given place: 1, 2, 4 and so on.
pub open spec fn weight(place: int) -> int
    decreases place,
{
    if place <= 0 {
        1
    } else {
        2 * weight(place - 1)
    }
}

/// The bit with the given place of a number is 1.
pub open spec fn has_bit(number: int, place: int) -> bool {
    (number / weight(place)) % 2 == 1
}

proof fn byte_masks(b: u8)
    by (bit_vector)
    ensures
        (b & (1u8 << 0u8) != 0) <==> (b / 1) % 2 == 1,
        (b & (1u8 << 1u8) != 0) <==> (b / 2) % 2 == 1,
        (b & (1u8 << 2u8) != 0) <==> (b / 4) % 2 == 1,
        (b & (1u8 << 3u8) != 0) <==> (b / 8) % 2 == 1,
        (b & (1u8 << 4u8) != 0) <==> (b / 16) % 2 == 1,
        (b & (1u8 << 5u8) != 0) <==> (b / 32) % 2 == 1,
        (b & (1u8 << 6u8) != 0) <==> (b / 64) % 2 == 1,
        (b & (1u8 << 7u8) != 0) <==> (b / 128) % 2 == 1,
{
}

/// A shifted one picks the bit of its place out of a byte.
pub proof fn shifted_one_picks_a_bit(b: u8, place: int)
    requires
        0 <= place < 8,
    ensures
        (b & (1u8 << place) != 0) <==> has_bit(b as int, place),
{
    byte_masks(b);
    weights();
}

/// The first weights.
pub proof fn weights()
    ensures
        weight(0) == 1,
        weight(1) == 2,
        weight(2) == 4,
        weight(3) == 8,
        weight(4) == 16,
        weight(5) == 32,
        weight(6) == 64,
        weight(7) == 128,
        weight(8) == 256,
        weight(9) == 512,
        weight(10) == 1024,
        weight(11) == 2048,
{
    reveal_with_fuel(weight, 13);
}

proof fn word_masks(w: u16)
    by (bit_vector)
    ensures
        (w & 0x0001 != 0) <==> (w / 1) % 2 == 1,
        (w & 0x0002 != 0) <==> (w / 2) % 2 == 1,
        (w & 0x0004 != 0) <==> (w / 4) % 2 == 1,
        (w & 0x0008 != 0) <==> (w / 8) % 2 == 1,
        (w & 0x0010 != 0) <==> (w / 16) % 2 == 1,
        (w & 0x0020 != 0) <==> (w / 32) % 2 == 1,
        (w & 0x0040 != 0) <==> (w / 64) % 2 == 1,
        (w & 0x0200 != 0) <==> (w / 512) % 2 == 1,
        (w & 0x0400 != 0) <==> (w / 1024) % 2 == 1,
        (w & 0x0800 != 0) <==> (w / 2048) % 2 == 1,
        (w & 0x001b != 0) <==> ((w / 1) % 2 == 1 || (w / 2) % 2 == 1 || (w / 8) % 2 == 1 || (w / 16)
            % 2 == 1),
{
}

/// The masks of port states and port changes pick the bits of their places out of a
/// word.
pub proof fn port_masks_pick_bits(w: u16)
    ensures
        (w & 0x0001 != 0) <==> has_bit(w as int, 0),
        (w & 0x0002 != 0) <==> has_bit(w as int, 1),
        (w & 0x0004 != 0) <==> has_bit(w as int, 2),
        (w & 0x0008 != 0) <==> has_bit(w as int, 3),
        (w & 0x0010 != 0) <==> has_bit(w as int, 4),
        (w & 0x0020 != 0) <==> has_bit(w as int, 5),
        (w & 0x0040 != 0) <==> has_bit(w as int, 6),
        (w & 0x0200 != 0) <==> has_bit(w as int, 9),
        (w & 0x0400 != 0) <==> has_bit(w as int, 10),
        (w & 0x0800 != 0) <==> has_bit(w as int, 11),
        (w & 0x001b != 0) <==> (has_bit(w as int, 0) || has_bit(w as int, 1) || has_bit(w as int, 3)
            || has_bit(w as int, 4)),
{
    word_masks(w);
    weights();
}

/// The low byte of a word is its rest at a division by 256.
pub proof fn low_byte_is_the_rest(w: u16)
    ensures
        w as u8 == w % 256,
{
    assert(w as u8 == w % 256) by (bit_vector);
}

proof fn hub_masks(b: u8)
    by (bit_vector)
    ensures
        (b & 0x01 != 0) <==> (b / 1) % 2 == 1,
        (b & 0x02 != 0) <==> (b / 2) % 2 == 1,
{
}

/// The masks of the changes of a hub pick the two lowest bits out of a byte.
pub proof fn hub_masks_pick_bits(b: u8)
    ensures
        (b & 0x01 != 0) <==> has_bit(b as int, 0),
        (b & 0x02 != 0) <==> has_bit(b as int, 1),
{
    hub_masks(b);
    weights();
}

proof fn stall_mask(w: u32)
    by (bit_vector)
    ensures
        (w & 0x0002 != 0) <==> (w / 2) % 2 == 1,
{
}

/// The mask of a stalled transfer picks its bit out of the error bits.
pub proof fn stall_mask_picks_a_bit(w: u32)
    ensures
        (w & 0x0002 != 0) <==> has_bit(w as int, 1),
{
    stall_mask(w);
    weights();
}

} // verus!
