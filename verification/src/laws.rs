//! What holds of the decoders in this library, beyond the contract of each.

use crate::decode::FromFixedBytes;
use crate::pair::PairField;
use crate::endian::{Be, Le, Ne};
use crate::primitive::FixedInt;
use crate::wire::{
    be_bytes, bytes_in, le_bytes, le_value, lemma_bytes_len, lemma_value_of_bytes, ByteOrder,
};
use vstd::prelude::*;

verus! {

/// Round trip, little-endian: the wire form of `value`, its bit pattern
/// written least significant byte first, is as wide as the decoder reads, and
/// `value` is the only value that it denotes.
pub proof fn lemma_round_trip_le<T: FixedInt>(value: T, decoded: Le<T>)
    requires
        Le::<T>::decodes_to(le_bytes(T::pattern_of(value), T::byte_width()), decoded),
    ensures
        le_bytes(T::pattern_of(value), T::byte_width()).len() == Le::<T>::wire_width(),
        decoded.0 == value,
{
    T::lemma_pattern_of(value);
    lemma_bytes_len(ByteOrder::LittleEndian, T::pattern_of(value), T::byte_width());
    lemma_value_of_bytes(ByteOrder::LittleEndian, T::pattern_of(value), T::byte_width());
}

/// Round trip, big-endian: the wire form of `value`, its bit pattern written
/// most significant byte first, is as wide as the decoder reads, and `value`
/// is the only value that it denotes.
pub proof fn lemma_round_trip_be<T: FixedInt>(value: T, decoded: Be<T>)
    requires
        Be::<T>::decodes_to(be_bytes(T::pattern_of(value), T::byte_width()), decoded),
    ensures
        be_bytes(T::pattern_of(value), T::byte_width()).len() == Be::<T>::wire_width(),
        decoded.0 == value,
{
    T::lemma_pattern_of(value);
    lemma_bytes_len(ByteOrder::BigEndian, T::pattern_of(value), T::byte_width());
    lemma_value_of_bytes(ByteOrder::BigEndian, T::pattern_of(value), T::byte_width());
}

/// Round trip, native-endian, as far as it can be said without knowing the
/// machine: whichever of the two byte orders `order` is, the wire form of
/// `value` in it is as wide as the decoder reads and denotes `value`.
pub proof fn lemma_round_trip_ne<T: FixedInt>(value: T, order: ByteOrder)
    ensures
        bytes_in(order, T::pattern_of(value), T::byte_width()).len() == Ne::<T>::wire_width(),
        Ne::<T>::decodes_to(bytes_in(order, T::pattern_of(value), T::byte_width()), Ne(value)),
{
    T::lemma_pattern_of(value);
    lemma_bytes_len(order, T::pattern_of(value), T::byte_width());
    lemma_value_of_bytes(order, T::pattern_of(value), T::byte_width());
}

/// Round trip of a bare byte: its wire form is the byte itself, and the byte
/// is the only value that it denotes.
pub proof fn lemma_round_trip_byte(value: u8, decoded: u8)
    requires
        <u8 as FromFixedBytes>::decodes_to(seq![value], decoded),
    ensures
        seq![value].len() == <u8 as FromFixedBytes>::wire_width(),
        decoded == value,
{
}

/// Which element of an array fails: with `available` bytes, fewer than the
/// `count` elements of `width` bytes take, the failing element is the one
/// whose bytes the source runs out in. It is a real element, every element
/// before it fits in what is there, and what is left over for it is too little.
pub proof fn lemma_failing_element(available: nat, count: nat, width: nat)
    requires
        available < count * width,
    ensures
        width > 0,
        available / width < count,
        (available / width) * width <= available < (available / width + 1) * width,
        available % width == available - (available / width) * width,
        available % width < width,
{
    assert(width > 0) by (nonlinear_arith)
        requires
            available < count * width,
    ;
    vstd::arithmetic::div_mod::lemma_fundamental_div_mod(available as int, width as int);
    let index = available / width;
    assert(index * width == width * index) by (nonlinear_arith);
    assert((index + 1) * width == index * width + width) by (nonlinear_arith);
    assert(index < count) by (nonlinear_arith)
        requires
            index * width <= available,
            available < count * width,
            width > 0,
    ;
}

/// An array's failure names the failing element and goes no further: with
/// `available` bytes, fewer than the array takes, the locator's index is that
/// of the element in which the source runs out, the inner locator is the one
/// that this element reports on the bytes left over for it, and the bytes
/// consumed are those of the elements before it and of what that element
/// consumed itself.
pub proof fn lemma_array_short_read<T: FromFixedBytes, const N: usize>(available: nat)
    requires
        available < <[T; N] as FromFixedBytes>::wire_width(),
    ensures
        ({
            let index = available / T::wire_width();
            let left = (available - index * T::wire_width()) as nat;
            let short = <[T; N] as FromFixedBytes>::short_read(available);
            &&& index < N
            &&& left < T::wire_width()
            &&& short.declaring_type == "array"@
            &&& short.field.index == index
            &&& short.field.inner == T::short_read(left).field
            &&& short.needed == T::short_read(left).needed
            &&& short.consumed == index * T::wire_width() + T::short_read(left).consumed
        }),
{
    lemma_failing_element(available, N as nat, T::wire_width());
}

/// Fail-fast in a pair: where the source holds too little for the first
/// field, the pair fails exactly as the first field does. It reports the first
/// field's read error under position 0, and has consumed what the first field
/// consumed before its refused read and nothing after it: the second field is
/// not tried.
pub proof fn lemma_pair_fails_fast<A: FromFixedBytes, B: FromFixedBytes>(available: nat)
    requires
        available < A::wire_width(),
    ensures
        available < <(A, B) as FromFixedBytes>::wire_width(),
        ({
            let first = A::short_read(available);
            let pair = <(A, B) as FromFixedBytes>::short_read(available);
            &&& pair.field == PairField::<A::FieldEnum, B::FieldEnum>::Position0(first.field)
            &&& pair.consumed == first.consumed
            &&& pair.needed == first.needed
        }),
{
}

/// A pair whose first field fits fails in the second: it has consumed the
/// first field whole and then what the second consumed before its refused
/// read, and reports the second field's failure under position 1.
pub proof fn lemma_pair_fails_in_second<A: FromFixedBytes, B: FromFixedBytes>(available: nat)
    requires
        A::wire_width() <= available < <(A, B) as FromFixedBytes>::wire_width(),
    ensures
        ({
            let left = (available - A::wire_width()) as nat;
            let second = B::short_read(left);
            let pair = <(A, B) as FromFixedBytes>::short_read(available);
            &&& left < B::wire_width()
            &&& pair.field == PairField::<A::FieldEnum, B::FieldEnum>::Position1(second.field)
            &&& pair.consumed == A::wire_width() + second.consumed
            &&& pair.needed == second.needed
        }),
{
}

/// The width of a composite is the sum of the widths of its parts: a pair is
/// as wide as its two fields together, and an array as wide as its elements
/// together. With the decode contract this is what the cursor moves by on
/// success, no more and no less.
pub proof fn lemma_composite_widths<A: FromFixedBytes, B: FromFixedBytes, const N: usize>()
    ensures
        <(A, B) as FromFixedBytes>::wire_width() == A::wire_width() + B::wire_width(),
        <[A; N] as FromFixedBytes>::wire_width() == N * A::wire_width(),
        <[A; 0] as FromFixedBytes>::wire_width() == 0,
        <[A; 1] as FromFixedBytes>::wire_width() == A::wire_width(),
{
}

} // verus!
