//! Bit-level facts shared by the single-bit flag sets of the runtime.
use vstd::prelude::*;

verus! {

/// `f` is one of the sixteen single-bit values of a `u16`.
pub open spec fn is_bit16(f: u16) -> bool {
    f == 0x1 || f == 0x2 || f == 0x4 || f == 0x8 || f == 0x10 || f == 0x20 || f == 0x40
        || f == 0x80 || f == 0x100 || f == 0x200 || f == 0x400 || f == 0x800 || f == 0x1000
        || f == 0x2000 || f == 0x4000 || f == 0x8000
}

/// Every bit of `g` is set in `x`.
pub open spec fn has16(x: u16, g: u16) -> bool {
    x & g == g
}

/// `f` is one of the eight single-bit values of a `u8`.
pub open spec fn is_bit8(f: u8) -> bool {
    f == 0x1 || f == 0x2 || f == 0x4 || f == 0x8 || f == 0x10 || f == 0x20 || f == 0x40 || f
        == 0x80
}

/// Every bit of `g` is set in `x`.
pub open spec fn has8(x: u8, g: u8) -> bool {
    x & g == g
}

/// `f` is a single-bit value of a `u32` below bit 16.
pub open spec fn is_bit32(f: u32) -> bool {
    f == 0x1 || f == 0x2 || f == 0x4 || f == 0x8 || f == 0x10 || f == 0x20 || f == 0x40
        || f == 0x80 || f == 0x100 || f == 0x200 || f == 0x400 || f == 0x800 || f == 0x1000
        || f == 0x2000 || f == 0x4000 || f == 0x8000
}

/// Every bit of `g` is set in `x`.
pub open spec fn has32(x: u32, g: u32) -> bool {
    x & g == g
}

proof fn lemma_or_bit16(x: u16, f: u16, g: u16)
    by (bit_vector)
    requires
        is_bit16(f),
        is_bit16(g),
    ensures
        has16(x | f, g) == (has16(x, g) || f == g),
        x | f != 0,
        !has16(0, g),
{
}

/// Setting the single bit `f` adds exactly `f` to the set of present bits.
pub proof fn lemma_with16(x: u16, f: u16)
    requires
        is_bit16(f),
    ensures
        x | f != 0,
        forall|g: u16| is_bit16(g) ==> #[trigger] has16(x | f, g) == (has16(x, g) || f == g),
        forall|g: u16| is_bit16(g) ==> !#[trigger] has16(0, g),
{
    lemma_or_bit16(x, f, f);
    assert forall|g: u16| is_bit16(g) implies #[trigger] has16(x | f, g) == (has16(x, g) || f
        == g) by {
        lemma_or_bit16(x, f, g);
    }
    assert forall|g: u16| is_bit16(g) implies !#[trigger] has16(0, g) by {
        lemma_or_bit16(x, f, g);
    }
}

proof fn lemma_or_bit8(x: u8, f: u8, g: u8)
    by (bit_vector)
    requires
        is_bit8(f),
        is_bit8(g),
    ensures
        has8(x | f, g) == (has8(x, g) || f == g),
        x | f != 0,
        !has8(0, g),
{
}

/// Setting the single bit `f` adds exactly `f` to the set of present bits.
pub proof fn lemma_with8(x: u8, f: u8)
    requires
        is_bit8(f),
    ensures
        x | f != 0,
        forall|g: u8| is_bit8(g) ==> #[trigger] has8(x | f, g) == (has8(x, g) || f == g),
        forall|g: u8| is_bit8(g) ==> !#[trigger] has8(0, g),
{
    lemma_or_bit8(x, f, f);
    assert forall|g: u8| is_bit8(g) implies #[trigger] has8(x | f, g) == (has8(x, g) || f
        == g) by {
        lemma_or_bit8(x, f, g);
    }
    assert forall|g: u8| is_bit8(g) implies !#[trigger] has8(0, g) by {
        lemma_or_bit8(x, f, g);
    }
}

proof fn lemma_or_bit32(x: u32, f: u32, g: u32)
    by (bit_vector)
    requires
        is_bit32(f),
        is_bit32(g),
    ensures
        has32(x | f, g) == (has32(x, g) || f == g),
        x | f != 0,
        !has32(0, g),
{
}

/// Setting the single bit `f` adds exactly `f` to the set of present bits.
pub proof fn lemma_with32(x: u32, f: u32)
    requires
        is_bit32(f),
    ensures
        x | f != 0,
        forall|g: u32| is_bit32(g) ==> #[trigger] has32(x | f, g) == (has32(x, g) || f == g),
        forall|g: u32| is_bit32(g) ==> !#[trigger] has32(0, g),
{
    lemma_or_bit32(x, f, f);
    assert forall|g: u32| is_bit32(g) implies #[trigger] has32(x | f, g) == (has32(x, g) || f
        == g) by {
        lemma_or_bit32(x, f, g);
    }
    assert forall|g: u32| is_bit32(g) implies !#[trigger] has32(0, g) by {
        lemma_or_bit32(x, f, g);
    }
}

} // verus!
