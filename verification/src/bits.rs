//! Bits and bit fields of register words.
//!
//! Every register and data structure of the xHC is a word, or an array of words, whose bits and
//! bit ranges carry the fields. This module gives the mathematical meaning of reading and writing
//! a bit or a field, the executable functions that do so, and the laws that relate them: a field
//! reads back what was written into it, and writing one field leaves every other field as it was.
use vstd::prelude::*;

verus! {

// ---------------------------------------------------------------------------------------------
// 32-bit words
// ---------------------------------------------------------------------------------------------

/// The mask of the `width` lowest bits of a 32-bit word.
pub open spec fn mask32(width: u32) -> u32 {
    !(0xffff_ffffu32 << width)
}

/// The bit `i` of `x`.
pub open spec fn bit32(x: u32, i: u32) -> bool {
    (x >> i) & 1u32 == 1u32
}

/// `x` with its bit `i` set to `b`.
pub open spec fn with_bit32(x: u32, i: u32, b: bool) -> u32 {
    if b {
        x | (1u32 << i)
    } else {
        x & !(1u32 << i)
    }
}

/// The value of the `width` bits of `x` that start at the bit `lo`.
pub open spec fn field32(x: u32, lo: u32, width: u32) -> u32 {
    (x >> lo) & mask32(width)
}

/// `x` with the `width` bits that start at the bit `lo` replaced by `v`.
pub open spec fn with_field32(x: u32, lo: u32, width: u32, v: u32) -> u32 {
    (x & !(mask32(width) << lo)) | (v << lo)
}

/// `x` with its `lo` lowest bits cleared.
pub open spec fn clear_low32(x: u32, lo: u32) -> u32 {
    x >> lo << lo
}

/// `x` with its bits from `lo` upwards replaced by those of `v`.
pub open spec fn with_high32(x: u32, lo: u32, v: u32) -> u32 {
    (x & mask32(lo)) | (v & !mask32(lo))
}

/// The range `lo .. lo + width` is a valid, non-empty bit range of a 32-bit word.
pub open spec fn range32(lo: u32, width: u32) -> bool {
    0 < width && width < 32 && lo < 32 && lo + width <= 32
}

/// The values of the masks of every width below 32.
pub proof fn lemma_mask32_values()
    ensures
        mask32(1) == 0x1,
        mask32(2) == 0x3,
        mask32(3) == 0x7,
        mask32(4) == 0xf,
        mask32(5) == 0x1f,
        mask32(6) == 0x3f,
        mask32(7) == 0x7f,
        mask32(8) == 0xff,
        mask32(9) == 0x1ff,
        mask32(10) == 0x3ff,
        mask32(11) == 0x7ff,
        mask32(12) == 0xfff,
        mask32(13) == 0x1fff,
        mask32(14) == 0x3fff,
        mask32(15) == 0x7fff,
        mask32(16) == 0xffff,
        mask32(17) == 0x1_ffff,
        mask32(18) == 0x3_ffff,
        mask32(19) == 0x7_ffff,
        mask32(20) == 0xf_ffff,
        mask32(21) == 0x1f_ffff,
        mask32(22) == 0x3f_ffff,
        mask32(23) == 0x7f_ffff,
        mask32(24) == 0xff_ffff,
        mask32(25) == 0x1ff_ffff,
        mask32(26) == 0x3ff_ffff,
        mask32(27) == 0x7ff_ffff,
        mask32(28) == 0xfff_ffff,
        mask32(29) == 0x1fff_ffff,
        mask32(30) == 0x3fff_ffff,
        mask32(31) == 0x7fff_ffff,
{
    assert({
        &&& mask32(1) == 0x1
        &&& mask32(2) == 0x3
        &&& mask32(3) == 0x7
        &&& mask32(4) == 0xf
        &&& mask32(5) == 0x1f
        &&& mask32(6) == 0x3f
        &&& mask32(7) == 0x7f
        &&& mask32(8) == 0xff
        &&& mask32(9) == 0x1ff
        &&& mask32(10) == 0x3ff
        &&& mask32(11) == 0x7ff
        &&& mask32(12) == 0xfff
        &&& mask32(13) == 0x1fff
        &&& mask32(14) == 0x3fff
        &&& mask32(15) == 0x7fff
        &&& mask32(16) == 0xffff
        &&& mask32(17) == 0x1_ffff
        &&& mask32(18) == 0x3_ffff
        &&& mask32(19) == 0x7_ffff
        &&& mask32(20) == 0xf_ffff
        &&& mask32(21) == 0x1f_ffff
        &&& mask32(22) == 0x3f_ffff
        &&& mask32(23) == 0x7f_ffff
        &&& mask32(24) == 0xff_ffff
        &&& mask32(25) == 0x1ff_ffff
        &&& mask32(26) == 0x3ff_ffff
        &&& mask32(27) == 0x7ff_ffff
        &&& mask32(28) == 0xfff_ffff
        &&& mask32(29) == 0x1fff_ffff
        &&& mask32(30) == 0x3fff_ffff
        &&& mask32(31) == 0x7fff_ffff
    }) by (bit_vector);
}

/// A field is never larger than the mask of its width.
pub proof fn lemma_field32_bound(x: u32, lo: u32, width: u32)
    ensures
        field32(x, lo, width) <= mask32(width),
{
    assert(((x >> lo) & mask32(width)) <= mask32(width)) by (bit_vector);
}

/// Returns the bit `i` of `x`.
pub fn get_bit_u32(x: u32, i: u32) -> (r: bool)
    requires
        i < 32,
    ensures
        r == bit32(x, i),
{
    (x >> i) & 1 == 1
}

/// Returns `x` with its bit `i` set to `b`.
pub fn set_bit_u32(x: u32, i: u32, b: bool) -> (r: u32)
    requires
        i < 32,
    ensures
        r == with_bit32(x, i, b),
{
    if b {
        x | (1u32 << i)
    } else {
        x & !(1u32 << i)
    }
}

/// Returns the value of the `width` bits of `x` that start at the bit `lo`.
pub fn get_bits_u32(x: u32, lo: u32, width: u32) -> (r: u32)
    requires
        range32(lo, width),
    ensures
        r == field32(x, lo, width),
        r <= mask32(width),
{
    proof {
        lemma_field32_bound(x, lo, width);
    }
    (x >> lo) & !(0xffff_ffffu32 << width)
}

/// Returns `x` with the `width` bits that start at the bit `lo` replaced by `v`.
pub fn set_bits_u32(x: u32, lo: u32, width: u32, v: u32) -> (r: u32)
    requires
        range32(lo, width),
        v <= mask32(width),
    ensures
        r == with_field32(x, lo, width, v),
{
    (x & !(!(0xffff_ffffu32 << width) << lo)) | (v << lo)
}

/// Returns `x` with its bits from `lo` upwards replaced by those of `v`.
pub fn set_high_bits_u32(x: u32, lo: u32, v: u32) -> (r: u32)
    requires
        0 < lo < 32,
    ensures
        r == with_high32(x, lo, v),
{
    (x & !(0xffff_ffffu32 << lo)) | (v & !!(0xffff_ffffu32 << lo))
}

/// Writing a bit and reading it back gives the value that was written.
pub proof fn lemma_bit32_with_bit32_same(x: u32, i: u32, b: bool)
    requires
        i < 32,
    ensures
        bit32(with_bit32(x, i, b), i) == b,
{
    assert(bit32(with_bit32(x, i, b), i) == b) by (bit_vector)
        requires
            i < 32u32,
    ;
}

/// Writing a bit leaves every other bit unchanged.
pub proof fn lemma_bit32_with_bit32_other(x: u32, i: u32, j: u32, b: bool)
    requires
        i < 32,
        j < 32,
        i != j,
    ensures
        bit32(with_bit32(x, i, b), j) == bit32(x, j),
{
    assert(bit32(with_bit32(x, i, b), j) == bit32(x, j)) by (bit_vector)
        requires
            i < 32u32,
            j < 32u32,
            i != j,
    ;
}

/// Writing a field and reading it back gives the value that was written.
pub proof fn lemma_field32_with_field32_same(x: u32, lo: u32, width: u32, v: u32)
    requires
        range32(lo, width),
        v <= mask32(width),
    ensures
        field32(with_field32(x, lo, width, v), lo, width) == v,
{
    assert(field32(with_field32(x, lo, width, v), lo, width) == v) by (bit_vector)
        requires
            0u32 < width,
            width < 32u32,
            lo < 32u32,
            lo + width <= 32u32,
            v <= mask32(width),
    ;
}

/// Writing a field leaves every field that does not overlap it unchanged.
pub proof fn lemma_field32_with_field32_other(
    x: u32,
    lo: u32,
    width: u32,
    v: u32,
    lo2: u32,
    width2: u32,
)
    requires
        range32(lo, width),
        range32(lo2, width2),
        v <= mask32(width),
        lo2 + width2 <= lo || lo + width <= lo2,
    ensures
        field32(with_field32(x, lo, width, v), lo2, width2) == field32(x, lo2, width2),
{
    assert(field32(with_field32(x, lo, width, v), lo2, width2) == field32(x, lo2, width2))
        by (bit_vector)
        requires
            0u32 < width,
            width < 32u32,
            lo < 32u32,
            lo + width <= 32u32,
            0u32 < width2,
            width2 < 32u32,
            lo2 < 32u32,
            lo2 + width2 <= 32u32,
            v <= mask32(width),
            lo2 + width2 <= lo || lo + width <= lo2,
    ;
}

/// Writing a field leaves every bit outside it unchanged.
pub proof fn lemma_bit32_with_field32_other(x: u32, lo: u32, width: u32, v: u32, i: u32)
    requires
        range32(lo, width),
        v <= mask32(width),
        i < 32,
        i < lo || lo + width <= i,
    ensures
        bit32(with_field32(x, lo, width, v), i) == bit32(x, i),
{
    assert(bit32(with_field32(x, lo, width, v), i) == bit32(x, i)) by (bit_vector)
        requires
            0u32 < width,
            width < 32u32,
            lo < 32u32,
            lo + width <= 32u32,
            v <= mask32(width),
            i < 32u32,
            i < lo || lo + width <= i,
    ;
}

/// Writing a bit leaves every field that does not hold it unchanged.
pub proof fn lemma_field32_with_bit32_other(x: u32, i: u32, b: bool, lo: u32, width: u32)
    requires
        range32(lo, width),
        i < 32,
        i < lo || lo + width <= i,
    ensures
        field32(with_bit32(x, i, b), lo, width) == field32(x, lo, width),
{
    assert(field32(with_bit32(x, i, b), lo, width) == field32(x, lo, width)) by (bit_vector)
        requires
            0u32 < width,
            width < 32u32,
            lo < 32u32,
            lo + width <= 32u32,
            i < 32u32,
            i < lo || lo + width <= i,
    ;
}

/// Writing back the value that a field holds leaves the word unchanged.
pub proof fn lemma_with_field32_of_field32(x: u32, lo: u32, width: u32)
    requires
        range32(lo, width),
    ensures
        with_field32(x, lo, width, field32(x, lo, width)) == x,
{
    assert(with_field32(x, lo, width, field32(x, lo, width)) == x) by (bit_vector)
        requires
            0u32 < width,
            width < 32u32,
            lo < 32u32,
            lo + width <= 32u32,
    ;
}

/// Writing back the value that a bit holds leaves the word unchanged.
pub proof fn lemma_with_bit32_of_bit32(x: u32, i: u32)
    requires
        i < 32,
    ensures
        with_bit32(x, i, bit32(x, i)) == x,
{
    assert(with_bit32(x, i, bit32(x, i)) == x) by (bit_vector)
        requires
            i < 32u32,
    ;
}

/// Writing a bit or a field of a word that fits in 16 bits, inside its low 16 bits, gives a
/// word that still fits in 16 bits.
pub proof fn lemma_16bit_writes_stay_16bit(x: u32, i: u32, b: bool, lo: u32, width: u32, v: u32)
    requires
        x <= 0xffff,
    ensures
        i < 16 ==> with_bit32(x, i, b) <= 0xffff,
        range32(lo, width) && lo + width <= 16 && v <= mask32(width) ==> with_field32(
            x,
            lo,
            width,
            v,
        ) <= 0xffff,
{
    assert(i < 16 ==> with_bit32(x, i, b) <= 0xffff) by (bit_vector)
        requires
            x <= 0xffffu32,
    ;
    assert(0u32 < width && lo + width <= 16u32 && v <= mask32(width) ==> with_field32(
        x,
        lo,
        width,
        v,
    ) <= 0xffff) by (bit_vector)
        requires
            x <= 0xffffu32,
    ;
}

/// Replacing the bits from `lo` upwards by those of a value whose `lo` lowest bits are clear,
/// and then clearing the `lo` lowest bits, gives that value back.
pub proof fn lemma_clear_low32_with_high32(x: u32, lo: u32, v: u32)
    requires
        0 < lo < 32,
        v & mask32(lo) == 0,
    ensures
        clear_low32(with_high32(x, lo, v), lo) == v,
        field32(with_high32(x, lo, v), 0, lo) == field32(x, 0, lo),
{
    assert(clear_low32(with_high32(x, lo, v), lo) == v && field32(with_high32(x, lo, v), 0, lo)
        == field32(x, 0, lo)) by (bit_vector)
        requires
            0u32 < lo,
            lo < 32u32,
            v & mask32(lo) == 0,
    ;
}

/// A word is a multiple of `2^lo` exactly when its `lo` lowest bits are clear.
pub proof fn lemma_aligned32(x: u32)
    ensures
        (x % 4 == 0) == (x & mask32(2) == 0),
        (x % 8 == 0) == (x & mask32(3) == 0),
        (x % 16 == 0) == (x & mask32(4) == 0),
        (x % 32 == 0) == (x & mask32(5) == 0),
        (x % 64 == 0) == (x & mask32(6) == 0),
{
    assert({
        &&& (x % 4 == 0) == (x & mask32(2) == 0)
        &&& (x % 8 == 0) == (x & mask32(3) == 0)
        &&& (x % 16 == 0) == (x & mask32(4) == 0)
        &&& (x % 32 == 0) == (x & mask32(5) == 0)
        &&& (x % 64 == 0) == (x & mask32(6) == 0)
    }) by (bit_vector);
}


// ---------------------------------------------------------------------------------------------
// 64-bit words
// ---------------------------------------------------------------------------------------------

/// The mask of the `width` lowest bits of a 64-bit word.
pub open spec fn mask64(width: u64) -> u64 {
    !(0xffff_ffff_ffff_ffffu64 << width)
}

/// The bit `i` of `x`.
pub open spec fn bit64(x: u64, i: u64) -> bool {
    (x >> i) & 1u64 == 1u64
}

/// `x` with its bit `i` set to `b`.
pub open spec fn with_bit64(x: u64, i: u64, b: bool) -> u64 {
    if b {
        x | (1u64 << i)
    } else {
        x & !(1u64 << i)
    }
}

/// The value of the `width` bits of `x` that start at the bit `lo`.
pub open spec fn field64(x: u64, lo: u64, width: u64) -> u64 {
    (x >> lo) & mask64(width)
}

/// `x` with the `width` bits that start at the bit `lo` replaced by `v`.
pub open spec fn with_field64(x: u64, lo: u64, width: u64, v: u64) -> u64 {
    (x & !(mask64(width) << lo)) | (v << lo)
}

/// `x` with its `lo` lowest bits cleared.
pub open spec fn clear_low64(x: u64, lo: u64) -> u64 {
    x >> lo << lo
}

/// `x` with its bits from `lo` upwards replaced by those of `v`.
pub open spec fn with_high64(x: u64, lo: u64, v: u64) -> u64 {
    (x & mask64(lo)) | (v & !mask64(lo))
}

/// The range `lo .. lo + width` is a valid, non-empty bit range of a 64-bit word.
pub open spec fn range64(lo: u64, width: u64) -> bool {
    0 < width && width < 64 && lo < 64 && lo + width <= 64
}

/// The low 32 bits of `v`.
pub open spec fn low32(v: u64) -> u32 {
    (v & 0xffff_ffffu64) as u32
}

/// The high 32 bits of `v`.
pub open spec fn high32(v: u64) -> u32 {
    (v >> 32u64) as u32
}

/// The 64-bit value whose low 32 bits are `lo` and whose high 32 bits are `hi`.
pub open spec fn join64(lo: u32, hi: u32) -> u64 {
    ((hi as u64) << 32u64) | (lo as u64)
}

/// The values of the masks of the widths that 64-bit registers use.
pub proof fn lemma_mask64_values()
    ensures
        mask64(3) == 0x7,
        mask64(4) == 0xf,
        mask64(6) == 0x3f,
        mask64(32) == 0xffff_ffff,
        mask64(58) == 0x3ff_ffff_ffff_ffff,
        mask64(60) == 0xfff_ffff_ffff_ffff,
{
    assert({
        &&& mask64(3) == 0x7
        &&& mask64(4) == 0xf
        &&& mask64(6) == 0x3f
        &&& mask64(32) == 0xffff_ffff
        &&& mask64(58) == 0x3ff_ffff_ffff_ffff
        &&& mask64(60) == 0xfff_ffff_ffff_ffff
    }) by (bit_vector);
}

/// A field is never larger than the mask of its width.
pub proof fn lemma_field64_bound(x: u64, lo: u64, width: u64)
    ensures
        field64(x, lo, width) <= mask64(width),
{
    assert(((x >> lo) & mask64(width)) <= mask64(width)) by (bit_vector);
}

/// Returns the bit `i` of `x`.
pub fn get_bit_u64(x: u64, i: u64) -> (r: bool)
    requires
        i < 64,
    ensures
        r == bit64(x, i),
{
    (x >> i) & 1 == 1
}

/// Returns `x` with its bit `i` set to `b`.
pub fn set_bit_u64(x: u64, i: u64, b: bool) -> (r: u64)
    requires
        i < 64,
    ensures
        r == with_bit64(x, i, b),
{
    if b {
        x | (1u64 << i)
    } else {
        x & !(1u64 << i)
    }
}

/// Returns the value of the `width` bits of `x` that start at the bit `lo`.
pub fn get_bits_u64(x: u64, lo: u64, width: u64) -> (r: u64)
    requires
        range64(lo, width),
    ensures
        r == field64(x, lo, width),
        r <= mask64(width),
{
    proof {
        lemma_field64_bound(x, lo, width);
    }
    (x >> lo) & !(0xffff_ffff_ffff_ffffu64 << width)
}

/// Returns `x` with the `width` bits that start at the bit `lo` replaced by `v`.
pub fn set_bits_u64(x: u64, lo: u64, width: u64, v: u64) -> (r: u64)
    requires
        range64(lo, width),
        v <= mask64(width),
    ensures
        r == with_field64(x, lo, width, v),
{
    (x & !(!(0xffff_ffff_ffff_ffffu64 << width) << lo)) | (v << lo)
}

/// Returns `x` with its bits from `lo` upwards replaced by those of `v`.
pub fn set_high_bits_u64(x: u64, lo: u64, v: u64) -> (r: u64)
    requires
        0 < lo < 64,
    ensures
        r == with_high64(x, lo, v),
{
    (x & !(0xffff_ffff_ffff_ffffu64 << lo)) | (v & !!(0xffff_ffff_ffff_ffffu64 << lo))
}

/// Returns the low 32 bits of `v`.
pub fn low_half(v: u64) -> (r: u32)
    ensures
        r == low32(v),
{
    (v & 0xffff_ffff) as u32
}

/// Returns the high 32 bits of `v`.
pub fn high_half(v: u64) -> (r: u32)
    ensures
        r == high32(v),
{
    (v >> 32) as u32
}

/// Returns the 64-bit value whose low 32 bits are `lo` and whose high 32 bits are `hi`.
pub fn join_halves(lo: u32, hi: u32) -> (r: u64)
    ensures
        r == join64(lo, hi),
{
    ((hi as u64) << 32) | (lo as u64)
}

/// Writing a bit and reading it back gives the value that was written.
pub proof fn lemma_bit64_with_bit64_same(x: u64, i: u64, b: bool)
    requires
        i < 64,
    ensures
        bit64(with_bit64(x, i, b), i) == b,
{
    assert(bit64(with_bit64(x, i, b), i) == b) by (bit_vector)
        requires
            i < 64u64,
    ;
}

/// Writing a bit leaves every other bit unchanged.
pub proof fn lemma_bit64_with_bit64_other(x: u64, i: u64, j: u64, b: bool)
    requires
        i < 64,
        j < 64,
        i != j,
    ensures
        bit64(with_bit64(x, i, b), j) == bit64(x, j),
{
    assert(bit64(with_bit64(x, i, b), j) == bit64(x, j)) by (bit_vector)
        requires
            i < 64u64,
            j < 64u64,
            i != j,
    ;
}

/// Writing a field and reading it back gives the value that was written.
pub proof fn lemma_field64_with_field64_same(x: u64, lo: u64, width: u64, v: u64)
    requires
        range64(lo, width),
        v <= mask64(width),
    ensures
        field64(with_field64(x, lo, width, v), lo, width) == v,
{
    assert(field64(with_field64(x, lo, width, v), lo, width) == v) by (bit_vector)
        requires
            0u64 < width,
            width < 64u64,
            lo < 64u64,
            lo + width <= 64u64,
            v <= mask64(width),
    ;
}

/// Writing a field leaves every bit outside it unchanged.
pub proof fn lemma_bit64_with_field64_other(x: u64, lo: u64, width: u64, v: u64, i: u64)
    requires
        range64(lo, width),
        v <= mask64(width),
        i < 64,
        i < lo || lo + width <= i,
    ensures
        bit64(with_field64(x, lo, width, v), i) == bit64(x, i),
{
    assert(bit64(with_field64(x, lo, width, v), i) == bit64(x, i)) by (bit_vector)
        requires
            0u64 < width,
            width < 64u64,
            lo < 64u64,
            lo + width <= 64u64,
            v <= mask64(width),
            i < 64u64,
            i < lo || lo + width <= i,
    ;
}

/// Writing a bit leaves every field that does not hold it unchanged.
pub proof fn lemma_field64_with_bit64_other(x: u64, i: u64, b: bool, lo: u64, width: u64)
    requires
        range64(lo, width),
        i < 64,
        i < lo || lo + width <= i,
    ensures
        field64(with_bit64(x, i, b), lo, width) == field64(x, lo, width),
{
    assert(field64(with_bit64(x, i, b), lo, width) == field64(x, lo, width)) by (bit_vector)
        requires
            0u64 < width,
            width < 64u64,
            lo < 64u64,
            lo + width <= 64u64,
            i < 64u64,
            i < lo || lo + width <= i,
    ;
}

/// Replacing the bits from `lo` upwards by those of a value whose `lo` lowest bits are clear,
/// and then clearing the `lo` lowest bits, gives that value back; the `lo` lowest bits keep
/// their value.
pub proof fn lemma_clear_low64_with_high64(x: u64, lo: u64, v: u64)
    requires
        0 < lo < 64,
        v & mask64(lo) == 0,
    ensures
        clear_low64(with_high64(x, lo, v), lo) == v,
        field64(with_high64(x, lo, v), 0, lo) == field64(x, 0, lo),
{
    assert(clear_low64(with_high64(x, lo, v), lo) == v && field64(with_high64(x, lo, v), 0, lo)
        == field64(x, 0, lo)) by (bit_vector)
        requires
            0u64 < lo,
            lo < 64u64,
            v & mask64(lo) == 0,
    ;
}

/// A 64-bit word is a multiple of `2^lo` exactly when its `lo` lowest bits are clear.
pub proof fn lemma_aligned64(x: u64)
    ensures
        (x % 4 == 0) == (x & mask64(2) == 0),
        (x % 16 == 0) == (x & mask64(4) == 0),
        (x % 32 == 0) == (x & mask64(5) == 0),
        (x % 64 == 0) == (x & mask64(6) == 0),
{
    assert({
        &&& (x % 4 == 0) == (x & mask64(2) == 0)
        &&& (x % 16 == 0) == (x & mask64(4) == 0)
        &&& (x % 32 == 0) == (x & mask64(5) == 0)
        &&& (x % 64 == 0) == (x & mask64(6) == 0)
    }) by (bit_vector);
}

/// Splitting a 64-bit value into its halves and joining them gives it back, and joining two
/// halves and splitting the result gives them back.
pub proof fn lemma_join64_halves(v: u64, lo: u32, hi: u32)
    ensures
        join64(low32(v), high32(v)) == v,
        low32(join64(lo, hi)) == lo,
        high32(join64(lo, hi)) == hi,
{
    assert(join64(low32(v), high32(v)) == v) by (bit_vector);
    assert(low32(join64(lo, hi)) == lo && high32(join64(lo, hi)) == hi) by (bit_vector);
}

/// The low half of a multiple of `2^lo`, for `lo` below 32, is itself a multiple of `2^lo`.
pub proof fn lemma_low32_aligned(v: u64)
    ensures
        v % 16 == 0 ==> low32(v) % 16 == 0,
        v % 64 == 0 ==> low32(v) % 64 == 0,
{
    assert(v % 16 == 0 ==> low32(v) % 16 == 0) by (bit_vector);
    assert(v % 64 == 0 ==> low32(v) % 64 == 0) by (bit_vector);
}


/// Every field of the word 0 is 0.
pub proof fn lemma_field32_of_zero(lo: u32, width: u32)
    ensures
        field32(0, lo, width) == 0,
        !bit32(0, lo),
{
    assert(field32(0, lo, width) == 0 && !bit32(0, lo)) by (bit_vector);
}

/// A 64-bit value kept as a pointer whose `lo` lowest bits are clear, split into a low Dword
/// whose bits from `lo` upwards are replaced and a high Dword, reads back as that value.
pub proof fn lemma_join64_with_high32(x: u32, lo: u32, v: u64)
    requires
        0 < lo < 32,
        low32(v) & mask32(lo) == 0,
    ensures
        join64(clear_low32(with_high32(x, lo, low32(v)), lo), high32(v)) == v,
{
    lemma_clear_low32_with_high32(x, lo, low32(v));
    lemma_join64_halves(v, 0, 0);
}

} // verus!
