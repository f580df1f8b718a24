//! Bit-fields of a 32-bit register word.
//!
//! A field is named by the position of its lowest bit (`shift`) and by the
//! number of bits it holds (`width`). What a field holds, and what a word
//! becomes when a field is rewritten, are stated here in plain arithmetic, so
//! that a caller can reason about register values without bit-level proofs.
//! The lemmas `lemma_read`, `lemma_write`, `lemma_set` and `lemma_clear` tie
//! the mask-and-shift expressions of the accessors to that arithmetic; the
//! lemmas after them state what holds of every field of every register.
use vstd::arithmetic::div_mod::{lemma_div_multiples_vanish, lemma_mod_bound, lemma_small_mod};
use vstd::arithmetic::mul::lemma_mul_inequality;
use vstd::arithmetic::power2::{lemma2_to64, lemma_pow2_adds, lemma_pow2_strictly_increases, pow2};
use vstd::bits::{
    lemma_u32_low_bits_mask_is_mod, lemma_u32_shl_is_mul, lemma_u32_shr_is_div,
    lemma_u64_shl_is_mul,
};
use vstd::prelude::*;

verus! {

/// Two to the power `n`, for `n` up to the width of a register word.
///
/// Written out as a table, so that `span(4)` is known to be 16 wherever it
/// is used.
#[verifier::inline]
pub open spec fn span(n: u32) -> int {
    if n == 0 {
        0x1
    } else if n == 1 {
        0x2
    } else if n == 2 {
        0x4
    } else if n == 3 {
        0x8
    } else if n == 4 {
        0x10
    } else if n == 5 {
        0x20
    } else if n == 6 {
        0x40
    } else if n == 7 {
        0x80
    } else if n == 8 {
        0x100
    } else if n == 9 {
        0x200
    } else if n == 10 {
        0x400
    } else if n == 11 {
        0x800
    } else if n == 12 {
        0x1000
    } else if n == 13 {
        0x2000
    } else if n == 14 {
        0x4000
    } else if n == 15 {
        0x8000
    } else if n == 16 {
        0x1_0000
    } else if n == 17 {
        0x2_0000
    } else if n == 18 {
        0x4_0000
    } else if n == 19 {
        0x8_0000
    } else if n == 20 {
        0x10_0000
    } else if n == 21 {
        0x20_0000
    } else if n == 22 {
        0x40_0000
    } else if n == 23 {
        0x80_0000
    } else if n == 24 {
        0x100_0000
    } else if n == 25 {
        0x200_0000
    } else if n == 26 {
        0x400_0000
    } else if n == 27 {
        0x800_0000
    } else if n == 28 {
        0x1000_0000
    } else if n == 29 {
        0x2000_0000
    } else if n == 30 {
        0x4000_0000
    } else if n == 31 {
        0x8000_0000
    } else {
        0x1_0000_0000
    }
}

/// Whether `width` bits starting at bit `shift` lie inside a register word.
pub open spec fn is_field(shift: u32, width: u32) -> bool {
    1 <= width && shift + width <= 32
}

/// Whether two fields share no bit.
pub open spec fn disjoint(shift_a: u32, width_a: u32, shift_b: u32, width_b: u32) -> bool {
    shift_a + width_a <= shift_b || shift_b + width_b <= shift_a
}

/// The word whose set bits are exactly those of the field.
#[verifier::inline]
pub open spec fn field_mask(shift: u32, width: u32) -> int {
    (span(width) - 1) * span(shift)
}

/// The number held by the field of `raw`.
pub open spec fn field(raw: u32, shift: u32, width: u32) -> int {
    (raw as int / span(shift)) % span(width)
}

/// Whether the one-bit field at `bit` holds 1.
pub open spec fn flag(raw: u32, bit: u32) -> bool {
    field(raw, bit, 1) == 1
}

/// `raw` with `value` in the field and every other bit as it was.
pub open spec fn with_field(raw: u32, shift: u32, width: u32, value: int) -> int {
    raw - field(raw, shift, width) * span(shift) + value * span(shift)
}

/// `raw` with the one-bit field at `bit` holding `on`.
pub open spec fn with_flag(raw: u32, bit: u32, on: bool) -> int {
    with_field(raw, bit, 1, if on { 1 } else { 0 })
}

/// Whether every field that shares no bit with the given one holds in `new`
/// what it held in `old`.
pub open spec fn rest_is_kept(old: u32, new: u32, shift: u32, width: u32) -> bool {
    forall|s: u32, w: u32|
        is_field(s, w) && disjoint(shift, width, s, w) ==> #[trigger] field(new, s, w)
            == field(old, s, w)
}

/// Two to the power `n`, as the library lemmas on shifts and masks know it.
spec fn two_to(n: u32) -> int {
    pow2(n as nat) as int
}

/// `field_mask`, over `two_to`.
spec fn pow2_mask(shift: u32, width: u32) -> int {
    (two_to(width) - 1) * two_to(shift)
}

/// `field`, over `two_to`.
spec fn pow2_field(raw: u32, shift: u32, width: u32) -> int {
    (raw as int / two_to(shift)) % two_to(width)
}

/// `with_field`, over `two_to`.
spec fn pow2_with_field(raw: u32, shift: u32, width: u32, value: int) -> int {
    raw - pow2_field(raw, shift, width) * two_to(shift) + value * two_to(shift)
}

/// The all-ones number of `width` bits, as a word.
spec fn ones(width: u32) -> u32 {
    (two_to(width) - 1) as u32
}

/// The word that the accessors build when they write a field.
spec fn written(raw: u32, mask: u32, shift: u32, value: u32) -> u32 {
    (raw & !mask) | (mask & (value << shift))
}

/// The table of `span` holds the powers of two.
proof fn lemma_span_is_two_to(n: u32)
    requires
        n <= 32,
    ensures
        span(n) == two_to(n),
{
    lemma2_to64();
}

/// The definitions over the table and those over `two_to` agree.
proof fn lemma_same(raw: u32, shift: u32, width: u32, value: int)
    requires
        is_field(shift, width),
    ensures
        span(shift) == two_to(shift),
        span(width) == two_to(width),
        field_mask(shift, width) == pow2_mask(shift, width),
        field(raw, shift, width) == pow2_field(raw, shift, width),
        with_field(raw, shift, width, value) == pow2_with_field(raw, shift, width, value),
{
    lemma_span_is_two_to(shift);
    lemma_span_is_two_to(width);
}

/// How large a power of two of at most 32 can be.
proof fn lemma_two_to_bounds(n: u32)
    requires
        n <= 32,
    ensures
        1 <= two_to(n) <= 0x1_0000_0000,
        n < 32 ==> two_to(n) <= 0x8000_0000,
        1 <= n ==> 2 <= two_to(n),
{
    lemma2_to64();
    if n < 31 {
        lemma_pow2_strictly_increases(n as nat, 31);
    }
    if 1 < n {
        lemma_pow2_strictly_increases(1, n as nat);
    }
    if 0 < n {
        lemma_pow2_strictly_increases(0, n as nat);
    }
}

proof fn lemma_two_to_adds(a: u32, b: u32)
    requires
        a + b <= 32,
    ensures
        two_to(a) * two_to(b) == two_to((a + b) as u32),
{
    lemma_pow2_adds(a as nat, b as nat);
}

/// Masking with the low `width` bits keeps the remainder modulo `two_to(width)`.
proof fn lemma_low_bits(x: u32, width: u32)
    requires
        width <= 32,
    ensures
        x & ones(width) == x as int % two_to(width),
{
    lemma_two_to_bounds(width);
    if width < 32 {
        lemma_u32_low_bits_mask_is_mod(x, width as nat);
    } else {
        lemma2_to64();
        assert(x & 0xFFFF_FFFFu32 == x) by (bit_vector);
        lemma_small_mod(x as nat, two_to(width) as nat);
    }
}

/// The all-ones number of `width` bits is one less than a single bit moved
/// up by `width`.
proof fn lemma_ones_is_shifted_one(width: u32)
    requires
        width <= 32,
    ensures
        ones(width) as u64 == (1u64 << width) - 1,
{
    lemma_two_to_bounds(width);
    lemma_u64_shl_is_mul(1, width as u64);
}

/// The mask of a field is its all-ones number moved up by `shift`, and
/// moving it down again loses nothing.
proof fn lemma_mask_is_shifted_ones(shift: u32, width: u32)
    requires
        is_field(shift, width),
    ensures
        0 < pow2_mask(shift, width) <= u32::MAX,
        pow2_mask(shift, width) == ones(width) << shift,
        (ones(width) << shift) >> shift == ones(width),
{
    let low: u32 = ones(width);
    let unit: int = two_to(shift);
    lemma_two_to_adds(width, shift);
    lemma_two_to_bounds(width);
    lemma_two_to_bounds(shift);
    lemma_two_to_bounds((width + shift) as u32);
    assert(low * unit == two_to(width) * unit - unit) by (nonlinear_arith)
        requires
            low == two_to(width) - 1,
    ;
    assert(0 < low * unit) by (nonlinear_arith)
        requires
            0 < low,
            0 < unit,
    ;
    lemma_u32_shl_is_mul(low, shift);
    lemma_u32_shr_is_div(low << shift, shift);
    lemma_div_multiples_vanish(low as int, unit);
}

/// Fields that share no bit have masks that share no bit.
proof fn lemma_masks_of_disjoint_fields(shift_a: u32, width_a: u32, shift_b: u32, width_b: u32)
    requires
        is_field(shift_a, width_a),
        is_field(shift_b, width_b),
        disjoint(shift_a, width_a, shift_b, width_b),
    ensures
        (pow2_mask(shift_a, width_a) as u32) & (pow2_mask(shift_b, width_b) as u32) == 0,
{
    let a: u32 = ones(width_a);
    let b: u32 = ones(width_b);
    lemma_mask_is_shifted_ones(shift_a, width_a);
    lemma_mask_is_shifted_ones(shift_b, width_b);
    lemma_ones_is_shifted_one(width_a);
    lemma_ones_is_shifted_one(width_b);
    assert((a << shift_a) & (b << shift_b) == 0) by (bit_vector)
        requires
            1 <= width_a && shift_a + width_a <= 32,
            1 <= width_b && shift_b + width_b <= 32,
            shift_a + width_a <= shift_b || shift_b + width_b <= shift_a,
            a as u64 == (1u64 << width_a) - 1,
            b as u64 == (1u64 << width_b) - 1,
    ;
}

/// A number that fits a field is a word that the field's width leaves whole.
proof fn lemma_fitting_value(width: u32, value: int)
    requires
        1 <= width <= 32,
        0 <= value < two_to(width),
    ensures
        value <= u32::MAX,
        value % two_to(width) == value,
        (value as u32) & ones(width) == value,
{
    lemma_two_to_bounds(width);
    lemma_small_mod(value as nat, two_to(width) as nat);
    lemma_low_bits(value as u32, width);
}

/// What the mask-and-shift expression of a getter yields.
proof fn lemma_pow2_read(raw: u32, mask: u32, shift: u32, width: u32)
    requires
        is_field(shift, width),
        mask == pow2_mask(shift, width),
    ensures
        (raw & mask) >> shift == pow2_field(raw, shift, width),
        raw & mask == pow2_field(raw, shift, width) * two_to(shift),
        (raw & mask != 0) == (pow2_field(raw, shift, width) != 0),
        0 <= pow2_field(raw, shift, width) < two_to(width),
{
    let low: u32 = ones(width);
    lemma_mask_is_shifted_ones(shift, width);
    lemma_two_to_bounds(width);
    lemma_two_to_bounds(shift);
    assert((raw & (low << shift)) >> shift == (raw >> shift) & low) by (bit_vector)
        requires
            shift < 32,
            (low << shift) >> shift == low,
    ;
    lemma_u32_shr_is_div(raw, shift);
    lemma_low_bits(raw >> shift, width);
    let f: u32 = (raw & mask) >> shift;
    assert(raw & (low << shift) == ((raw & (low << shift)) >> shift) << shift) by (bit_vector)
        requires
            shift < 32,
    ;
    lemma_mod_bound((raw >> shift) as int, two_to(width));
    lemma_mul_inequality(f as int, low as int, two_to(shift));
    lemma_u32_shl_is_mul(f, shift);
    assert((f * two_to(shift) != 0) == (f != 0)) by (nonlinear_arith)
        requires
            0 <= f,
            1 <= two_to(shift),
    ;
}

/// What the expression of a setter yields.
proof fn lemma_pow2_written(raw: u32, mask: u32, shift: u32, width: u32, value: u32)
    requires
        is_field(shift, width),
        mask == pow2_mask(shift, width),
    ensures
        written(raw, mask, shift, value) == pow2_with_field(
            raw,
            shift,
            width,
            value as int % two_to(width),
        ),
        value < two_to(width) ==> mask & (value << shift) == value << shift,
        value < two_to(width) ==> value << shift == value * two_to(shift),
        shift == 0 ==> value << shift == value,
{
    let low: u32 = ones(width);
    let cut: u32 = value & low;
    lemma_mask_is_shifted_ones(shift, width);
    lemma_low_bits(value, width);
    lemma_pow2_read(raw, mask, shift, width);
    lemma_two_to_bounds(width);
    lemma_two_to_bounds(shift);
    lemma_mod_bound(value as int, two_to(width));
    lemma_mul_inequality(cut as int, low as int, two_to(shift));
    lemma_u32_shl_is_mul(cut, shift);
    assert((low << shift) & (value << shift) == (value & low) << shift) by (bit_vector);
    let put: u32 = mask & (value << shift);
    assert((raw & !mask) | (mask & put) == raw - (raw & mask) + (mask & put)) by (bit_vector);
    assert(mask & put == put) by (bit_vector)
        requires
            put == mask & (value << shift),
    ;
    assert(value << 0 == value) by (bit_vector);
    if value < two_to(width) {
        lemma_small_mod(value as nat, two_to(width) as nat);
    }
}

/// A field holds what was last written to it.
proof fn lemma_pow2_reads_back(raw: u32, mask: u32, shift: u32, width: u32, value: u32)
    requires
        is_field(shift, width),
        mask == pow2_mask(shift, width),
        value < two_to(width),
    ensures
        pow2_field(written(raw, mask, shift, value), shift, width) == value,
{
    let low: u32 = ones(width);
    lemma_mask_is_shifted_ones(shift, width);
    lemma_fitting_value(width, value as int);
    lemma_pow2_read(written(raw, mask, shift, value), mask, shift, width);
    assert((((raw & !mask) | (mask & (value << shift))) & mask) >> shift == value) by (bit_vector)
        requires
            shift < 32,
            mask == low << shift,
            (low << shift) >> shift == low,
            value & low == value,
    ;
}

/// A field that shares no bit with the one written holds what it held.
proof fn lemma_pow2_isolated(
    raw: u32,
    mask: u32,
    shift: u32,
    width: u32,
    value: u32,
    other_shift: u32,
    other_width: u32,
)
    requires
        is_field(shift, width),
        is_field(other_shift, other_width),
        disjoint(shift, width, other_shift, other_width),
        mask == pow2_mask(shift, width),
    ensures
        pow2_field(written(raw, mask, shift, value), other_shift, other_width) == pow2_field(
            raw,
            other_shift,
            other_width,
        ),
{
    lemma_mask_is_shifted_ones(other_shift, other_width);
    let other: u32 = pow2_mask(other_shift, other_width) as u32;
    lemma_masks_of_disjoint_fields(shift, width, other_shift, other_width);
    lemma_pow2_read(written(raw, mask, shift, value), other, other_shift, other_width);
    lemma_pow2_read(raw, other, other_shift, other_width);
    assert(((raw & !mask) | (mask & (value << shift))) & other == raw & other) by (bit_vector)
        requires
            mask & other == 0,
    ;
}

/// The word with `value` in the field is the one that a setter builds.
proof fn lemma_with_field_is_written(raw: u32, shift: u32, width: u32, value: int) -> (mask: u32)
    requires
        is_field(shift, width),
        0 <= value < span(width),
    ensures
        mask == field_mask(shift, width),
        mask == pow2_mask(shift, width),
        value <= u32::MAX,
        value < two_to(width),
        with_field(raw, shift, width, value) == written(raw, mask, shift, value as u32),
{
    lemma_same(raw, shift, width, value);
    lemma_mask_is_shifted_ones(shift, width);
    lemma_fitting_value(width, value);
    let mask: u32 = pow2_mask(shift, width) as u32;
    lemma_pow2_written(raw, mask, shift, width, value as u32);
    mask
}

/// Reading a field: the mask-and-shift expression yields the field's number.
///
/// The second and third clauses cover a field that is matched or tested in
/// place, without being moved down first.
pub proof fn lemma_read(raw: u32, mask: u32, shift: u32, width: u32)
    requires
        is_field(shift, width),
        mask == field_mask(shift, width),
    ensures
        (raw & mask) >> shift == field(raw, shift, width),
        raw & mask == field(raw, shift, width) * span(shift),
        (raw & mask != 0) == (field(raw, shift, width) != 0),
        0 <= field(raw, shift, width) < span(width),
{
    lemma_same(raw, shift, width, 0);
    lemma_pow2_read(raw, mask, shift, width);
}

/// Writing a field: clearing the field's bits and or-ing in the new number
/// yields the word with that number in the field, from which the number
/// reads back, and in which every other field is as it was.
///
/// The clauses on `value << shift` cover the accessors that leave out the
/// mask or the shift where they change nothing.
pub proof fn lemma_write(raw: u32, mask: u32, shift: u32, width: u32, value: u32)
    requires
        is_field(shift, width),
        mask == field_mask(shift, width),
        value < span(width),
    ensures
        ({
            let new: u32 = (raw & !mask) | (mask & (value << shift));
            &&& new == with_field(raw, shift, width, value as int)
            &&& field(new, shift, width) == value
            &&& rest_is_kept(raw, new, shift, width)
        }),
        mask & (value << shift) == value << shift,
        value << shift == value * span(shift),
        shift == 0 ==> value << shift == value,
{
    let new: u32 = written(raw, mask, shift, value);
    lemma_same(raw, shift, width, value as int);
    lemma_same(new, shift, width, value as int);
    lemma_small_mod(value as nat, two_to(width) as nat);
    lemma_pow2_written(raw, mask, shift, width, value);
    lemma_pow2_reads_back(raw, mask, shift, width, value);
    lemma_rest_is_kept(raw, shift, width, value as int);
}

/// The number held by the field of `raw`.
///
/// For a caller that wants the number itself where the accessor hands out a
/// value of an enumeration, as when the field holds a pattern that reads as
/// `Reserved`.
pub fn extract(raw: u32, shift: u32, width: u32) -> (r: u32)
    requires
        is_field(shift, width),
    ensures
        r == field(raw, shift, width),
{
    proof {
        lemma_same(raw, shift, width, 0);
        lemma_two_to_bounds(width);
        lemma_u32_shr_is_div(raw, shift);
        if width < 32 {
            lemma_u32_shl_is_mul(1, width);
        }
        lemma_low_bits(raw >> shift, width);
    }
    let low: u32 = if width == 32 {
        u32::MAX
    } else {
        (1u32 << width) - 1
    };
    (raw >> shift) & low
}

/// Setting every bit of a field.
pub proof fn lemma_set(raw: u32, mask: u32, shift: u32, width: u32)
    requires
        is_field(shift, width),
        mask == field_mask(shift, width),
    ensures
        raw | mask == with_field(raw, shift, width, span(width) - 1),
        field(raw | mask, shift, width) == span(width) - 1,
        rest_is_kept(raw, raw | mask, shift, width),
{
    let top: u32 = ones(width);
    lemma_same(raw, shift, width, 0);
    lemma_two_to_bounds(width);
    lemma_mask_is_shifted_ones(shift, width);
    assert((raw & !mask) | (mask & mask) == raw | mask) by (bit_vector);
    lemma_write(raw, mask, shift, width, top);
}

/// Clearing every bit of a field.
pub proof fn lemma_clear(raw: u32, mask: u32, shift: u32, width: u32)
    requires
        is_field(shift, width),
        mask == field_mask(shift, width),
    ensures
        raw & !mask == with_field(raw, shift, width, 0),
        field(raw & !mask, shift, width) == 0,
        rest_is_kept(raw, raw & !mask, shift, width),
{
    lemma_same(raw, shift, width, 0);
    lemma_two_to_bounds(width);
    assert((raw & !mask) | (mask & (0u32 << shift)) == raw & !mask) by (bit_vector);
    lemma_write(raw, mask, shift, width, 0);
}

/// A field holds no number at or above its span: such a number cannot be
/// written to it whole, which is why a setter takes none.
pub proof fn lemma_field_is_below_span(raw: u32, shift: u32, width: u32)
    requires
        is_field(shift, width),
    ensures
        0 <= field(raw, shift, width) < span(width),
{
    lemma_read(raw, field_mask(shift, width) as u32, shift, width);
}

/// A rewritten word is a register word again.
pub proof fn lemma_with_field_fits(raw: u32, shift: u32, width: u32, value: int)
    requires
        is_field(shift, width),
        0 <= value < span(width),
    ensures
        0 <= with_field(raw, shift, width, value) <= u32::MAX,
{
    let mask: u32 = lemma_with_field_is_written(raw, shift, width, value);
}

/// A field holds what was last written to it.
pub proof fn lemma_field_reads_back(raw: u32, shift: u32, width: u32, value: int)
    requires
        is_field(shift, width),
        0 <= value < span(width),
    ensures
        field(with_field(raw, shift, width, value) as u32, shift, width) == value,
{
    let mask: u32 = lemma_with_field_is_written(raw, shift, width, value);
    lemma_same(written(raw, mask, shift, value as u32), shift, width, value);
    lemma_pow2_reads_back(raw, mask, shift, width, value as u32);
}

/// Writing to a field leaves every bit outside it alone: a field that
/// shares no bit with it holds what it held before.
pub proof fn lemma_field_is_isolated(
    raw: u32,
    shift: u32,
    width: u32,
    value: int,
    other_shift: u32,
    other_width: u32,
)
    requires
        is_field(shift, width),
        is_field(other_shift, other_width),
        disjoint(shift, width, other_shift, other_width),
        0 <= value < span(width),
    ensures
        field(with_field(raw, shift, width, value) as u32, other_shift, other_width) == field(
            raw,
            other_shift,
            other_width,
        ),
{
    let mask: u32 = lemma_with_field_is_written(raw, shift, width, value);
    lemma_same(written(raw, mask, shift, value as u32), other_shift, other_width, 0);
    lemma_same(raw, other_shift, other_width, 0);
    lemma_pow2_isolated(raw, mask, shift, width, value as u32, other_shift, other_width);
}

/// The same, of all other fields at once.
pub proof fn lemma_rest_is_kept(raw: u32, shift: u32, width: u32, value: int)
    requires
        is_field(shift, width),
        0 <= value < span(width),
    ensures
        rest_is_kept(raw, with_field(raw, shift, width, value) as u32, shift, width),
{
    let new: u32 = with_field(raw, shift, width, value) as u32;
    assert forall|s: u32, w: u32| is_field(s, w) && disjoint(shift, width, s, w) implies
        #[trigger] field(new, s, w) == field(raw, s, w)
    by {
        lemma_field_is_isolated(raw, shift, width, value, s, w);
    }
}

/// Writing to a field changes no bit outside the field's mask.
pub proof fn lemma_bits_outside_are_kept(raw: u32, shift: u32, width: u32, value: int)
    requires
        is_field(shift, width),
        0 <= value < span(width),
    ensures
        ({
            let mask: u32 = field_mask(shift, width) as u32;
            (with_field(raw, shift, width, value) as u32) & !mask == raw & !mask
        }),
{
    let mask: u32 = lemma_with_field_is_written(raw, shift, width, value);
    let v: u32 = value as u32;
    assert(((raw & !mask) | (mask & (v << shift))) & !mask == raw & !mask) by (bit_vector);
}

/// Writing back what a field holds changes nothing.
pub proof fn lemma_write_back_is_identity(raw: u32, shift: u32, width: u32)
    ensures
        with_field(raw, shift, width, field(raw, shift, width)) == raw,
{
}

/// Of two writes to one field only the second counts.
pub proof fn lemma_last_write_wins(raw: u32, shift: u32, width: u32, first: int, second: int)
    requires
        is_field(shift, width),
        0 <= first < span(width),
    ensures
        with_field(with_field(raw, shift, width, first) as u32, shift, width, second)
            == with_field(raw, shift, width, second),
{
    lemma_with_field_fits(raw, shift, width, first);
    lemma_field_reads_back(raw, shift, width, first);
}

/// Every field of the zero word holds zero, and every flag of it is off.
pub proof fn lemma_zero_word(shift: u32, width: u32)
    ensures
        field(0, shift, width) == 0,
        !flag(0, shift),
{
}

} // verus!
