//! Single-bit masks over eight-bit registers, and the facts about masked
//! set/clear/toggle writes that the GPIO layer is proved against.

use vstd::prelude::*;

verus! {

/// Bitmask with all zeros except for bit `n`: what the hardware manuals call
/// the pin's BITn mask.
pub open spec fn mask_of(n: u8) -> u8 {
    if n == 0 {
        0x01
    } else if n == 1 {
        0x02
    } else if n == 2 {
        0x04
    } else if n == 3 {
        0x08
    } else if n == 4 {
        0x10
    } else if n == 5 {
        0x20
    } else if n == 6 {
        0x40
    } else {
        0x80
    }
}

/// Bitmask with all ones except for bit `n`; the complement of `mask_of(n)`.
pub open spec fn clr_mask_of(n: u8) -> u8 {
    if n == 0 {
        0xfe
    } else if n == 1 {
        0xfd
    } else if n == 2 {
        0xfb
    } else if n == 3 {
        0xf7
    } else if n == 4 {
        0xef
    } else if n == 5 {
        0xdf
    } else if n == 6 {
        0xbf
    } else {
        0x7f
    }
}

/// True when bit `n` of `x` is set.
pub open spec fn bit(x: u8, n: u8) -> bool {
    x & mask_of(n) != 0
}

/// Setting bit `n` by a masked OR sets exactly that bit: bit `n` reads one
/// afterwards, and every other bit keeps its prior value.
pub proof fn lemma_set_effect(x: u8, n: u8, j: u8)
    by (bit_vector)
    requires
        n < 8,
        j < 8,
    ensures
        bit(x | mask_of(n), j) == (j == n || bit(x, j)),
{
}

/// Clearing bit `n` by a masked AND clears exactly that bit.
pub proof fn lemma_clear_effect(x: u8, n: u8, j: u8)
    by (bit_vector)
    requires
        n < 8,
        j < 8,
    ensures
        bit(x & clr_mask_of(n), j) == (j != n && bit(x, j)),
{
}

/// Toggling bit `n` by a masked XOR flips exactly that bit.
pub proof fn lemma_toggle_effect(x: u8, n: u8, j: u8)
    by (bit_vector)
    requires
        n < 8,
        j < 8,
    ensures
        bit(x ^ mask_of(n), j) == if j == n {
            !bit(x, j)
        } else {
            bit(x, j)
        },
{
}

/// Setting a bit that was clear and then clearing it again restores the
/// original register value.
pub proof fn lemma_set_then_clear(x: u8, n: u8)
    by (bit_vector)
    requires
        n < 8,
        !bit(x, n),
    ensures
        (x | mask_of(n)) & clr_mask_of(n) == x,
{
}

/// Toggling the same bit twice restores the original register value.
pub proof fn lemma_double_toggle(x: u8, n: u8)
    by (bit_vector)
    requires
        n < 8,
    ensures
        (x ^ mask_of(n)) ^ mask_of(n) == x,
{
}

} // verus!
