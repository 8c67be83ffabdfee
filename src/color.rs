//! Packed 24-bit `0xRRGGBB` colors.
use vstd::prelude::*;

verus! {

/// The packed value of three 8-bit channels.
pub open spec fn packed(r: u8, g: u8, b: u8) -> int {
    r as int * 65536 + g as int * 256 + b as int
}

/// Packs three 8-bit channels into a 24-bit `0xRRGGBB` value.
pub fn pack_rgb(r: u8, g: u8, b: u8) -> (c: u32)
    ensures
        c == packed(r, g, b),
        c < 0x100_0000,
{
    let c = ((r as u32) << 16) | ((g as u32) << 8) | (b as u32);
    assert(c == r as u32 * 65536 + g as u32 * 256 + b as u32 && c < 0x100_0000) by (bit_vector)
        requires
            c == ((r as u32) << 16) | ((g as u32) << 8) | (b as u32),
    ;
    c
}

/// Splits a packed color into its red, green and blue channels; bits above
/// the low 24 are ignored.
pub fn unpack_rgb(c: u32) -> (rgb: (u8, u8, u8))
    ensures
        rgb.0 == (c / 65536) % 256,
        rgb.1 == (c / 256) % 256,
        rgb.2 == c % 256,
{
    let r = ((c >> 16) & 0xff) as u8;
    let g = ((c >> 8) & 0xff) as u8;
    let b = (c & 0xff) as u8;
    assert(((c >> 16) & 0xff) == (c / 65536) % 256) by (bit_vector);
    assert(((c >> 8) & 0xff) == (c / 256) % 256) by (bit_vector);
    assert((c & 0xff) == c % 256) by (bit_vector);
    (r, g, b)
}

/// Unpacking a packed color gives back the channels it was made of.
pub proof fn lemma_unpack_pack(r: u8, g: u8, b: u8)
    ensures
        (packed(r, g, b) / 65536) % 256 == r,
        (packed(r, g, b) / 256) % 256 == g,
        packed(r, g, b) % 256 == b,
{
    let (ri, gi, bi) = (r as int, g as int, b as int);
    assert(packed(r, g, b) == ri * 65536 + (gi * 256 + bi));
    assert(0 <= gi * 256 + bi < 65536);
    vstd::arithmetic::div_mod::lemma_fundamental_div_mod_converse(
        packed(r, g, b),
        65536,
        ri,
        gi * 256 + bi,
    );
    assert(packed(r, g, b) == (ri * 256 + gi) * 256 + bi);
    vstd::arithmetic::div_mod::lemma_fundamental_div_mod_converse(
        packed(r, g, b),
        256,
        ri * 256 + gi,
        bi,
    );
    vstd::arithmetic::div_mod::lemma_fundamental_div_mod_converse(ri * 256 + gi, 256, ri, gi);
    vstd::arithmetic::div_mod::lemma_fundamental_div_mod_converse(ri, 256, 0, ri);
}

} // verus!
