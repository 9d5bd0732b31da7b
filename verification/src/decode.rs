//! The decode protocol: what every decodable type promises, and the step by
//! which a composite type decodes one of its fields.

use crate::failure::ByteReadFailure;
use crate::locator::Locator;
use crate::source::ByteSource;
use vstd::prelude::*;

verus! {

/// What a decoder reports when the source holds fewer bytes than the type's
/// wire form: the failure, and how far the decoder got.
pub struct ShortRead<FieldEnum> {
    /// The name of the type that reports the failure.
    pub declaring_type: Seq<char>,
    /// The locator of the leaf whose read was refused.
    pub field: FieldEnum,
    /// The bytes consumed by the reads that were served before the refused one.
    pub consumed: nat,
    /// The number of bytes that the refused read asked for.
    pub needed: nat,
}

/// The log `after` continues the log `before`, and every read that it adds was
/// served.
pub open spec fn all_served(before: Seq<bool>, after: Seq<bool>) -> bool {
    &&& before.is_prefix_of(after)
    &&& forall|i: int| before.len() <= i < after.len() ==> after[i]
}

/// The log `after` continues the log `before` by at least one read; the last
/// read that it adds was refused and every one before that was served. So the
/// first refusal is also the last thing that was asked of the source.
pub open spec fn stopped_at_refusal(before: Seq<bool>, after: Seq<bool>) -> bool {
    &&& before.is_prefix_of(after)
    &&& before.len() < after.len()
    &&& forall|i: int| before.len() <= i < after.len() - 1 ==> after[i]
    &&& !after[after.len() - 1]
}

/// Reads that were all served, followed by reads that were all served, are
/// reads that were all served.
pub proof fn lemma_served_then_served(first: Seq<bool>, second: Seq<bool>, third: Seq<bool>)
    requires
        all_served(first, second),
        all_served(second, third),
    ensures
        all_served(first, third),
{
    assert forall|i: int| first.len() <= i < third.len() implies third[i] by {
        if i < second.len() {
            assert(second[i] == third[i]);
        }
    }
}

/// Reads that were all served, followed by reads that stopped at a refusal,
/// are reads that stopped at a refusal.
pub proof fn lemma_served_then_refused(first: Seq<bool>, second: Seq<bool>, third: Seq<bool>)
    requires
        all_served(first, second),
        stopped_at_refusal(second, third),
    ensures
        stopped_at_refusal(first, third),
{
    assert forall|i: int| first.len() <= i < third.len() - 1 implies third[i] by {
        if i < second.len() {
            assert(second[i] == third[i]);
        }
    }
}

/// A decoder read a whole wire form of `width` bytes: between the source
/// `before` and the source `after` the buffer is the same, the cursor has moved
/// by exactly `width`, and every read that was asked was served.
pub open spec fn read_through(before: ByteSource, after: ByteSource, width: nat) -> bool {
    &&& after.bytes() == before.bytes()
    &&& after.consumed() == before.consumed() + width
    &&& after.consumed() <= after.bytes().len()
    &&& all_served(before.outcomes(), after.outcomes())
}

/// A decoder stopped at a refused read: between the source `before` and the
/// source `after` the buffer is the same, the cursor has moved past what the
/// served reads consumed and no further, and the refused read was the last
/// that was asked.
pub open spec fn stopped_short(before: ByteSource, after: ByteSource, consumed: nat) -> bool {
    &&& after.bytes() == before.bytes()
    &&& after.consumed() == before.consumed() + consumed
    &&& after.consumed() <= after.bytes().len()
    &&& stopped_at_refusal(before.outcomes(), after.outcomes())
}

/// Whether `failure` is the failure that `short` describes, reported when
/// `available` bytes were left.
pub open spec fn reports<FieldEnum>(
    failure: ByteReadFailure<FieldEnum>,
    short: ShortRead<FieldEnum>,
    available: nat,
) -> bool {
    &&& failure.inner.needed == short.needed
    &&& failure.inner.available == available - short.consumed
    &&& failure.declaring_type@ == short.declaring_type
    &&& failure.field == short.field
}

/// A type that is decoded from a fixed number of bytes.
///
/// The wire form of a type is a fixed number of bytes, `wire_width()`. Decoding
/// succeeds exactly when the source holds that many, consumes exactly those,
/// and yields a value that they denote. When the source holds fewer, decoding
/// stops at the first read that is refused and reports where it was, as
/// `short_read` says.
///
/// An implementation is held to this where it sets `obeys_layout()`; one that
/// leaves the four spec functions as they are promises nothing.
pub trait FromFixedBytes: Sized {
    /// The locator type of this type.
    type FieldEnum: Locator;

    /// Whether `from_fixed_bytes` is held to the layout that `wire_width`,
    /// `decodes_to` and `short_read` describe.
    open spec fn obeys_layout() -> bool {
        false
    }

    /// The number of bytes in the wire form of this type.
    open spec fn wire_width() -> nat {
        0
    }

    /// Whether `value` is a value that the wire form `bytes` denotes.
    open spec fn decodes_to(bytes: Seq<u8>, value: Self) -> bool {
        true
    }

    /// What decoding reports when only `available` bytes are left, for
    /// `available` below `wire_width()`.
    open spec fn short_read(available: nat) -> ShortRead<Self::FieldEnum> {
        arbitrary()
    }

    /// Decodes one value from the bytes at the cursor of `stream`.
    fn from_fixed_bytes(stream: &mut ByteSource) -> (r: Result<
        Self,
        ByteReadFailure<Self::FieldEnum>,
    >)
        ensures
            Self::obeys_layout() ==> match r {
                Ok(value) => {
                    &&& old(stream).available() >= Self::wire_width()
                    &&& Self::decodes_to(old(stream).upcoming(Self::wire_width()), value)
                    &&& read_through(*old(stream), *final(stream), Self::wire_width())
                },
                Err(failure) => {
                    let short = Self::short_read(old(stream).available());
                    &&& old(stream).available() < Self::wire_width()
                    &&& reports(failure, short, old(stream).available())
                    &&& stopped_short(*old(stream), *final(stream), short.consumed)
                },
            },
    ;
}

/// Decodes one field of a composite type.
///
/// The field's own decoder runs on `stream`. Its value is handed on as it is.
/// Its failure is lifted at once into a failure of the composite type: the
/// declaring type becomes `declaring_type` and the locator is wrapped by
/// `wrap`, the composite's variant for this field. Nothing else is asked of
/// the source, so a composite that returns this failure has read no later
/// field.
pub fn decode_field<T, L, F>(stream: &mut ByteSource, declaring_type: &'static str, wrap: F) -> (r:
    Result<T, ByteReadFailure<L>>) where T: FromFixedBytes, F: FnOnce(T::FieldEnum) -> L
    requires
        forall|inner: T::FieldEnum| wrap.requires((inner,)),
    ensures
        r matches Err(failure) ==> {
            &&& failure.declaring_type == declaring_type
            &&& exists|inner: T::FieldEnum| wrap.ensures((inner,), failure.field)
        },
        T::obeys_layout() ==> match r {
            Ok(value) => {
                &&& old(stream).available() >= T::wire_width()
                &&& T::decodes_to(old(stream).upcoming(T::wire_width()), value)
                &&& read_through(*old(stream), *final(stream), T::wire_width())
            },
            Err(failure) => {
                let short = T::short_read(old(stream).available());
                &&& old(stream).available() < T::wire_width()
                &&& failure.inner.needed == short.needed
                &&& failure.inner.available == old(stream).available() - short.consumed
                &&& wrap.ensures((short.field,), failure.field)
                &&& stopped_short(*old(stream), *final(stream), short.consumed)
            },
        },
{
    match T::from_fixed_bytes(stream) {
        Ok(value) => Ok(value),
        Err(failure) => Err(failure.map_field(declaring_type, wrap)),
    }
}

} // verus!
