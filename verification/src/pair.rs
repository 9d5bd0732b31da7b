//! The pair: the composite of two decodable types, one after the other, with
//! its fields known by their positions.

use crate::decode::{
    lemma_served_then_refused, lemma_served_then_served, decode_field, FromFixedBytes, ShortRead,
};
use crate::failure::ByteReadFailure;
use crate::locator::{positional_field_text, render_positional_field, Locator};
use crate::source::ByteSource;
use vstd::prelude::*;

verus! {

/// The locator of a pair: which of the two fields could not be read, and that
/// field's own locator.
#[derive(Debug, PartialEq, Eq)]
pub enum PairField<First, Second> {
    /// The field at position 0.
    Position0(First),
    /// The field at position 1.
    Position1(Second),
}

impl<First: Locator, Second: Locator> Locator for PairField<First, Second> {
    open spec fn obeys_rendering() -> bool {
        First::obeys_rendering() && Second::obeys_rendering()
    }

    /// The rendering of the inner locator, then the position of the field.
    open spec fn rendering(&self) -> Seq<char> {
        match self {
            PairField::Position0(inner) => positional_field_text(inner.rendering(), 0),
            PairField::Position1(inner) => positional_field_text(inner.rendering(), 1),
        }
    }

    fn render(&self) -> (s: String) {
        match self {
            PairField::Position0(inner) => {
                let inner_text = inner.render();
                render_positional_field(inner_text.as_str(), 0)
            },
            PairField::Position1(inner) => {
                let inner_text = inner.render();
                render_positional_field(inner_text.as_str(), 1)
            },
        }
    }
}

/// The failure of a pair whose first field failed as `first` says: the same
/// read was refused after the same bytes, now in the pair's name and under
/// position 0.
pub open spec fn short_in_first<First, Second>(first: ShortRead<First>) -> ShortRead<
    PairField<First, Second>,
> {
    ShortRead {
        declaring_type: "tuple"@,
        field: PairField::Position0(first.field),
        consumed: first.consumed,
        needed: first.needed,
    }
}

/// The failure of a pair whose first field, of `width` bytes, was read whole
/// and whose second field failed as `second` says.
pub open spec fn short_in_second<First, Second>(width: nat, second: ShortRead<Second>) -> ShortRead<
    PairField<First, Second>,
> {
    ShortRead {
        declaring_type: "tuple"@,
        field: PairField::Position1(second.field),
        consumed: width + second.consumed,
        needed: second.needed,
    }
}

impl<A: FromFixedBytes, B: FromFixedBytes> FromFixedBytes for (A, B) {
    type FieldEnum = PairField<A::FieldEnum, B::FieldEnum>;

    open spec fn obeys_layout() -> bool {
        A::obeys_layout() && B::obeys_layout()
    }

    /// The wire form of a pair is the wire form of its first field and then
    /// that of its second, with nothing between them.
    open spec fn wire_width() -> nat {
        A::wire_width() + B::wire_width()
    }

    open spec fn decodes_to(bytes: Seq<u8>, value: Self) -> bool {
        &&& A::decodes_to(bytes.subrange(0, A::wire_width() as int), value.0)
        &&& B::decodes_to(
            bytes.subrange(A::wire_width() as int, (A::wire_width() + B::wire_width()) as int),
            value.1,
        )
    }

    /// Where the first field does not fit, the pair fails as the first field
    /// does, and the second is not tried. Where it fits, the pair fails as the
    /// second field does on the bytes that the first leaves.
    open spec fn short_read(available: nat) -> ShortRead<PairField<A::FieldEnum, B::FieldEnum>> {
        if available < A::wire_width() {
            short_in_first(A::short_read(available))
        } else {
            short_in_second(
                A::wire_width(),
                B::short_read((available - A::wire_width()) as nat),
            )
        }
    }

    fn from_fixed_bytes(stream: &mut ByteSource) -> (r: Result<
        Self,
        ByteReadFailure<PairField<A::FieldEnum, B::FieldEnum>>,
    >)
        ensures
            r matches Err(failure) ==> failure.declaring_type@ == "tuple"@,
    {
        let ghost log = stream.outcomes();
        let wrap_first = |inner: A::FieldEnum| -> (l: PairField<A::FieldEnum, B::FieldEnum>)
            ensures
                l == PairField::<A::FieldEnum, B::FieldEnum>::Position0(inner),
            { PairField::Position0(inner) };
        let first: A = match decode_field(stream, "tuple", wrap_first) {
            Ok(value) => value,
            Err(failure) => {
                return Err(failure);
            },
        };
        let ghost asked = stream.outcomes();
        let wrap_second = |inner: B::FieldEnum| -> (l: PairField<A::FieldEnum, B::FieldEnum>)
            ensures
                l == PairField::<A::FieldEnum, B::FieldEnum>::Position1(inner),
            { PairField::Position1(inner) };
        let second: B = match decode_field(stream, "tuple", wrap_second) {
            Ok(value) => value,
            Err(failure) => {
                proof {
                    if Self::obeys_layout() {
                        lemma_served_then_refused(log, asked, stream.outcomes());
                    }
                }
                return Err(failure);
            },
        };
        proof {
            if Self::obeys_layout() {
                lemma_served_then_served(log, asked, stream.outcomes());
                let bytes = old(stream).upcoming(Self::wire_width());
                assert(bytes.subrange(0, A::wire_width() as int) =~= old(stream).upcoming(
                    A::wire_width(),
                ));
                assert(bytes.subrange(
                    A::wire_width() as int,
                    (A::wire_width() + B::wire_width()) as int,
                ) =~= old(stream).bytes().subrange(
                    (old(stream).consumed() + A::wire_width()) as int,
                    (old(stream).consumed() + A::wire_width() + B::wire_width()) as int,
                ));
            }
        }
        Ok((first, second))
    }
}

} // verus!
