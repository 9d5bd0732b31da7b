//! Fixed arrays: `N` elements of one decodable type, one after the other.

use crate::decode::{
    all_served, lemma_served_then_refused, lemma_served_then_served, FromFixedBytes, ShortRead,
};
use crate::failure::ByteReadFailure;
use crate::locator::ArrayElementLocator;
use crate::source::ByteSource;
use vstd::arithmetic::div_mod::lemma_fundamental_div_mod_converse;
use vstd::prelude::*;

verus! {

/// `TryFrom<Vec<T>>` for `[T; N]` of std, which turns a vector of exactly `N`
/// elements into the array of those elements, in the vector's order, and
/// refuses a vector of any other length. The contract leaves such vectors out
/// and claims that the array holds what the vector held.
#[verifier::external_body]
fn array_from_vec<T, const N: usize>(items: Vec<T>) -> (array: [T; N])
    requires
        items@.len() == N,
    ensures
        array@ == items@,
{
    <[T; N]>::try_from(items).ok().unwrap()
}

/// The bytes of element `index` inside the wire form `bytes` of an array whose
/// elements are `width` bytes wide.
pub open spec fn element_bytes(bytes: Seq<u8>, index: int, width: nat) -> Seq<u8> {
    bytes.subrange(index * width, index * width + width)
}

/// Where in the wire form of an array the elements stand: element `index` of
/// `count` starts `index * width` bytes in and ends within the `count * width`
/// bytes of the whole.
pub proof fn lemma_element_span(index: nat, count: nat, width: nat)
    requires
        index < count,
    ensures
        index * width + width == (index + 1) * width,
        (index + 1) * width <= count * width,
        0 <= index * width,
{
    assert(index * width + width == (index + 1) * width) by (nonlinear_arith);
    assert((index + 1) * width <= count * width) by (nonlinear_arith)
        requires
            index + 1 <= count,
    ;
}

impl<T: FromFixedBytes, const N: usize> FromFixedBytes for [T; N] {
    type FieldEnum = ArrayElementLocator<T::FieldEnum>;

    open spec fn obeys_layout() -> bool {
        T::obeys_layout()
    }

    /// The wire form of an array is its elements' wire forms, one after the
    /// other, with nothing between them.
    open spec fn wire_width() -> nat {
        N as nat * T::wire_width()
    }

    open spec fn decodes_to(bytes: Seq<u8>, value: Self) -> bool {
        forall|i: int|
            0 <= i < N ==> T::decodes_to(element_bytes(bytes, i, T::wire_width()), #[trigger] value@[i])
    }

    /// With `available` bytes the elements before index `available / width`
    /// are read whole, and that element fails as it does on the bytes that
    /// are left over.
    open spec fn short_read(available: nat) -> ShortRead<ArrayElementLocator<T::FieldEnum>> {
        let width = T::wire_width();
        let index = available / width;
        let element = T::short_read(available % width);
        ShortRead {
            declaring_type: "array"@,
            field: ArrayElementLocator { index: index as usize, inner: element.field },
            consumed: index * width + element.consumed,
            needed: element.needed,
        }
    }

    fn from_fixed_bytes(stream: &mut ByteSource) -> (r: Result<
        Self,
        ByteReadFailure<ArrayElementLocator<T::FieldEnum>>,
    >)
        ensures
            r matches Err(failure) ==> failure.declaring_type@ == "array"@ && failure.field.index
                < N,
    {
        let ghost width = T::wire_width();
        let ghost start = stream.consumed();
        let ghost total = stream.available();
        let ghost log = stream.outcomes();
        let _ = stream.position();
        let mut items: Vec<T> = Vec::new();
        let mut i: usize = 0;
        while i < N
            invariant
                i <= N,
                items@.len() == i,
                width == T::wire_width(),
                start == old(stream).consumed(),
                total == old(stream).available(),
                log == old(stream).outcomes(),
                start <= old(stream).bytes().len(),
                T::obeys_layout() ==> {
                    &&& stream.bytes() == old(stream).bytes()
                    &&& stream.consumed() == start + i * width
                    &&& stream.consumed() <= stream.bytes().len()
                    &&& all_served(log, stream.outcomes())
                    &&& forall|k: int|
                        0 <= k < i ==> T::decodes_to(
                            stream.bytes().subrange(start + k * width, start + k * width + width),
                            #[trigger] items@[k],
                        )
                },
            decreases N - i,
        {
            let ghost asked = stream.outcomes();
            match T::from_fixed_bytes(stream) {
                Ok(item) => {
                    items.push(item);
                    proof {
                        lemma_element_span(i as nat, N as nat, width);
                        if T::obeys_layout() {
                            lemma_served_then_served(log, asked, stream.outcomes());
                            assert forall|k: int| 0 <= k < i + 1 implies T::decodes_to(
                                stream.bytes().subrange(start + k * width, start + k * width + width),
                                #[trigger] items@[k],
                            ) by {
                                if k == i {
                                    assert(items@[k] == item);
                                }
                            }
                        }
                    }
                },
                Err(failure) => {
                    let index = i;
                    let wrap = |inner: T::FieldEnum| -> (l: ArrayElementLocator<T::FieldEnum>)
                        ensures
                            l == (ArrayElementLocator { index, inner }),
                        { ArrayElementLocator { index, inner } };
                    let mapped = failure.map_field("array", wrap);
                    proof {
                        if T::obeys_layout() {
                            let left = (total - i * width) as nat;
                            lemma_element_span(i as nat, N as nat, width);
                            lemma_served_then_refused(log, asked, stream.outcomes());
                            assert(left < width);
                            assert(total == i * width + left);
                            assert(total < N * width);
                            lemma_fundamental_div_mod_converse(
                                total as int,
                                width as int,
                                i as int,
                                left as int,
                            );
                        }
                    }
                    return Err(mapped);
                },
            }
            i = i + 1;
        }
        let array = array_from_vec::<T, N>(items);
        proof {
            if T::obeys_layout() {
                let bytes = old(stream).upcoming(Self::wire_width());
                assert forall|k: int| 0 <= k < N implies T::decodes_to(
                    element_bytes(bytes, k, width),
                    #[trigger] array@[k],
                ) by {
                    lemma_element_span(k as nat, N as nat, width);
                    assert(element_bytes(bytes, k, width) =~= stream.bytes().subrange(
                        start + k * width,
                        start + k * width + width,
                    ));
                }
            }
        }
        Ok(array)
    }
}

} // verus!
