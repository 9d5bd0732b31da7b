//! The names that belong to a composite type's locator: that of the locator
//! type itself and those of its variants, one per field.

use crate::text::{decimal, decimal_text};
use vstd::prelude::*;
use vstd::string::StringExecFns;

verus! {

/// The name of the locator type of the type called `declaring_type`.
pub open spec fn locator_name_text(declaring_type: Seq<char>) -> Seq<char> {
    "__FIELDS_OF_"@ + declaring_type
}

/// The name of the locator's variant for a field: the field's own name where
/// it has one, and `Inner` followed by its position where it has none.
pub open spec fn variant_name_text(name: Option<Seq<char>>, position: nat) -> Seq<char> {
    match name {
        Some(name) => name,
        None => "Inner"@ + decimal(position),
    }
}

/// Names the locator type of the type called `declaring_type`.
pub fn locator_name(declaring_type: &str) -> (name: String)
    ensures
        name@ == locator_name_text(declaring_type@),
{
    String::from_str("__FIELDS_OF_").concat(declaring_type)
}

/// Names the locator's variant for the field at `position`, called `name` if
/// it is called anything.
pub fn variant_name(name: Option<&str>, position: usize) -> (variant: String)
    ensures
        variant@ == variant_name_text(
            match name {
                Some(name) => Some(name@),
                None => None,
            },
            position as nat,
        ),
{
    match name {
        Some(name) => String::from_str(name),
        None => {
            let position_text = decimal_text(position);
            String::from_str("Inner").concat(position_text.as_str())
        },
    }
}

} // verus!
