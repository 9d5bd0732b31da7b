//! Integers on the wire: the integer types that the endian wrappers hold, and
//! the decoders of the wrappers and of the bare byte.

use crate::decode::{FromFixedBytes, ShortRead};
use crate::endian::{Be, Le, Ne};
use crate::failure::ByteReadFailure;
use crate::locator::PrimitiveField;
use crate::source::{ByteSource, ReadError};
use crate::wire::{be_value, le_value, patterns, value_in, ByteOrder};
use vstd::prelude::*;

verus! {

/// The endian tag of a wrapper: which byte order its decoder reads.
#[derive(Clone, Copy, Debug, PartialEq, Eq, Structural)]
pub enum Endian {
    /// Least significant byte first.
    Little,
    /// Most significant byte first.
    Big,
    /// The byte order of the machine that runs the decoder.
    Native,
}

/// The name of the wrapper with the tag `tag`.
pub open spec fn tag_text(tag: Endian) -> Seq<char> {
    match tag {
        Endian::Little => "Le"@,
        Endian::Big => "Be"@,
        Endian::Native => "Ne"@,
    }
}

/// The name under which a wrapped integer declares itself in a failure: the
/// wrapper and, in angle brackets, the integer type.
pub open spec fn wrapper_name(tag: Endian, int_name: Seq<char>) -> Seq<char> {
    tag_text(tag) + "<"@ + int_name + ">"@
}

/// An integer type of a fixed width that the endian wrappers can hold.
pub trait FixedInt: Copy {
    /// The number of bytes of the type.
    spec fn byte_width() -> nat;

    /// The value that the bit pattern `pattern` stands for.
    spec fn from_pattern(pattern: nat) -> Self;

    /// The bit pattern that stands for `value`.
    spec fn pattern_of(value: Self) -> nat;

    /// The name of the type.
    spec fn int_name() -> Seq<char>;

    /// Every value has a bit pattern within the width, and it stands for that
    /// value.
    proof fn lemma_pattern_of(value: Self)
        ensures
            Self::pattern_of(value) < patterns(Self::byte_width()),
            Self::from_pattern(Self::pattern_of(value)) == value,
    ;

    /// The name of this type inside the wrapper with the tag `tag`.
    fn wrapped_name(tag: Endian) -> (name: &'static str)
        ensures
            name@ == wrapper_name(tag, Self::int_name()),
    ;

    /// Reads one integer of this type in the byte order `order`.
    ///
    /// The read succeeds exactly when the source holds `byte_width()` bytes;
    /// every bit pattern is a value. A refused read is handed on as it is.
    fn read(stream: &mut ByteSource, order: ByteOrder) -> (r: Result<Self, ReadError>)
        ensures
            final(stream).bytes() == old(stream).bytes(),
            final(stream).consumed() <= final(stream).bytes().len(),
            match r {
                Ok(value) => {
                    &&& old(stream).available() >= Self::byte_width()
                    &&& value == Self::from_pattern(
                        value_in(order, old(stream).upcoming(Self::byte_width())),
                    )
                    &&& final(stream).consumed() == old(stream).consumed() + Self::byte_width()
                    &&& final(stream).outcomes() == old(stream).outcomes().push(true)
                },
                Err(error) => {
                    &&& old(stream).available() < Self::byte_width()
                    &&& error.needed == Self::byte_width()
                    &&& error.available == old(stream).available()
                    &&& final(stream).consumed() == old(stream).consumed()
                    &&& final(stream).outcomes() == old(stream).outcomes().push(false)
                },
            },
    ;
}

/// What the decoder of a wrapped integer reports on a short read: the read of
/// the whole integer was refused, and nothing was consumed.
pub open spec fn short_primitive(declaring_type: Seq<char>, width: nat) -> ShortRead<
    PrimitiveField,
> {
    ShortRead { declaring_type, field: PrimitiveField, consumed: 0, needed: width }
}

impl<T: FixedInt> FromFixedBytes for Le<T> {
    type FieldEnum = PrimitiveField;

    open spec fn obeys_layout() -> bool {
        true
    }

    open spec fn wire_width() -> nat {
        T::byte_width()
    }

    open spec fn decodes_to(bytes: Seq<u8>, value: Self) -> bool {
        value.0 == T::from_pattern(le_value(bytes))
    }

    open spec fn short_read(available: nat) -> ShortRead<PrimitiveField> {
        short_primitive(wrapper_name(Endian::Little, T::int_name()), T::byte_width())
    }

    fn from_fixed_bytes(stream: &mut ByteSource) -> (r: Result<Self, ByteReadFailure<PrimitiveField>>) {
        match T::read(stream, ByteOrder::LittleEndian) {
            Ok(value) => Ok(Le(value)),
            Err(inner) => Err(
                ByteReadFailure {
                    inner,
                    declaring_type: T::wrapped_name(Endian::Little),
                    field: PrimitiveField,
                },
            ),
        }
    }
}

impl<T: FixedInt> FromFixedBytes for Be<T> {
    type FieldEnum = PrimitiveField;

    open spec fn obeys_layout() -> bool {
        true
    }

    open spec fn wire_width() -> nat {
        T::byte_width()
    }

    open spec fn decodes_to(bytes: Seq<u8>, value: Self) -> bool {
        value.0 == T::from_pattern(be_value(bytes))
    }

    open spec fn short_read(available: nat) -> ShortRead<PrimitiveField> {
        short_primitive(wrapper_name(Endian::Big, T::int_name()), T::byte_width())
    }

    fn from_fixed_bytes(stream: &mut ByteSource) -> (r: Result<Self, ByteReadFailure<PrimitiveField>>) {
        match T::read(stream, ByteOrder::BigEndian) {
            Ok(value) => Ok(Be(value)),
            Err(inner) => Err(
                ByteReadFailure {
                    inner,
                    declaring_type: T::wrapped_name(Endian::Big),
                    field: PrimitiveField,
                },
            ),
        }
    }
}

/// `u16::from_ne_bytes` of std, which reads two bytes in the byte order of
/// the machine. Its documentation gives the result as that of `from_le_bytes`
/// on a little-endian machine and that of `from_be_bytes` on a big-endian one;
/// the contract claims that it is one of the two and not which.
#[verifier::external_body]
fn u16_from_native_bytes(bytes: [u8; 2]) -> (value: u16)
    ensures
        value == bytes@[0] + 256 * bytes@[1] || value == 256 * bytes@[0] + bytes@[1],
{
    u16::from_ne_bytes(bytes)
}

/// The byte order of the machine, found by reading the bytes `01 00` in it.
fn native_order() -> ByteOrder {
    let probe: u16 = u16_from_native_bytes([1u8, 0u8]);
    order_of_probe(probe)
}

/// The byte order that a reading of the bytes `01 00` shows: little-endian
/// where they read as 1, big-endian where they read as anything else.
pub open spec fn probed_order(probe: u16) -> ByteOrder {
    if probe == 1 {
        ByteOrder::LittleEndian
    } else {
        ByteOrder::BigEndian
    }
}

/// Tells the byte order from `probe`, the number that the bytes `01 00` were
/// read as. Those bytes write 1 with the least significant byte first and 256
/// with the most significant byte first; for either of the two, the order
/// returned is the one in which they write `probe`.
pub fn order_of_probe(probe: u16) -> (order: ByteOrder)
    ensures
        order == probed_order(probe),
        probe == 1 || probe == 256 ==> value_in(order, seq![1u8, 0u8]) == probe,
{
    proof {
        let bytes = seq![1u8, 0u8];
        reveal_with_fuel(le_value, 3);
        reveal_with_fuel(be_value, 3);
        assert(bytes.drop_first() =~= seq![0u8]);
        assert(bytes.drop_first().drop_first() =~= Seq::<u8>::empty());
        assert(bytes.drop_last() =~= seq![1u8]);
        assert(bytes.drop_last().drop_last() =~= Seq::<u8>::empty());
        assert(le_value(bytes) == 1);
        assert(be_value(bytes) == 256);
    }
    if probe == 1 {
        ByteOrder::LittleEndian
    } else {
        ByteOrder::BigEndian
    }
}

impl<T: FixedInt> FromFixedBytes for Ne<T> {
    type FieldEnum = PrimitiveField;

    open spec fn obeys_layout() -> bool {
        true
    }

    open spec fn wire_width() -> nat {
        T::byte_width()
    }

    /// Which of the two orders the machine has is not part of the model: the
    /// value is the one that the bytes write in one of them.
    open spec fn decodes_to(bytes: Seq<u8>, value: Self) -> bool {
        ||| value.0 == T::from_pattern(le_value(bytes))
        ||| value.0 == T::from_pattern(be_value(bytes))
    }

    open spec fn short_read(available: nat) -> ShortRead<PrimitiveField> {
        short_primitive(wrapper_name(Endian::Native, T::int_name()), T::byte_width())
    }

    fn from_fixed_bytes(stream: &mut ByteSource) -> (r: Result<Self, ByteReadFailure<PrimitiveField>>) {
        match T::read(stream, native_order()) {
            Ok(value) => Ok(Ne(value)),
            Err(inner) => Err(
                ByteReadFailure {
                    inner,
                    declaring_type: T::wrapped_name(Endian::Native),
                    field: PrimitiveField,
                },
            ),
        }
    }
}

/// A bare byte is its own wire form.
impl FromFixedBytes for u8 {
    type FieldEnum = PrimitiveField;

    open spec fn obeys_layout() -> bool {
        true
    }

    open spec fn wire_width() -> nat {
        1
    }

    open spec fn decodes_to(bytes: Seq<u8>, value: Self) -> bool {
        value == bytes.first()
    }

    open spec fn short_read(available: nat) -> ShortRead<PrimitiveField> {
        short_primitive("u8"@, 1)
    }

    fn from_fixed_bytes(stream: &mut ByteSource) -> (r: Result<Self, ByteReadFailure<PrimitiveField>>) {
        proof {
            reveal_with_fuel(le_value, 2);
        }
        match <u8 as FixedInt>::read(stream, ByteOrder::LittleEndian) {
            Ok(value) => Ok(value),
            Err(inner) => Err(ByteReadFailure { inner, declaring_type: "u8", field: PrimitiveField }),
        }
    }
}

} // verus!
