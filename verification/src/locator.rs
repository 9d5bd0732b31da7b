//! Field locators: values that say which part of a decodable type was being
//! read when a read failed, and how they are rendered for a message.

use crate::text::{decimal, decimal_text};
use vstd::prelude::*;
use vstd::string::StringExecFns;

verus! {

/// A value that identifies the part of a type that could not be read.
///
/// Every decodable type has one locator type. A composite type's locator has
/// one variant per field, each wrapping the locator of that field's type, so a
/// locator value is a path from the type down to the leaf whose read failed.
pub trait Locator {
    /// Whether `render` is held to `rendering`. An implementation that leaves
    /// this at `false` promises nothing about the text it produces.
    open spec fn obeys_rendering() -> bool {
        false
    }

    /// The text that stands for this locator in a message.
    open spec fn rendering(&self) -> Seq<char> {
        Seq::empty()
    }

    /// Renders this locator for a message.
    fn render(&self) -> (s: String)
        ensures
            Self::obeys_rendering() ==> s@ == self.rendering(),
    ;
}

/// The locator of an integer: a leaf, with nothing below it.
#[derive(Clone, Copy, Debug, PartialEq, Eq, Structural)]
pub struct PrimitiveField;

impl Locator for PrimitiveField {
    open spec fn obeys_rendering() -> bool {
        true
    }

    open spec fn rendering(&self) -> Seq<char> {
        "primitive value"@
    }

    fn render(&self) -> (s: String) {
        String::from_str("primitive value")
    }
}

/// The locator of a fixed array: the index of the element that could not be
/// read, and that element's own locator.
#[derive(Debug, PartialEq, Eq)]
pub struct ArrayElementLocator<Inner> {
    pub index: usize,
    pub inner: Inner,
}

/// The text that stands for the element at `index` of an array.
pub open spec fn element_text(index: nat) -> Seq<char> {
    "element at index "@ + decimal(index)
}

impl<Inner> Locator for ArrayElementLocator<Inner> {
    open spec fn obeys_rendering() -> bool {
        true
    }

    open spec fn rendering(&self) -> Seq<char> {
        element_text(self.index as nat)
    }

    fn render(&self) -> (s: String) {
        let index = decimal_text(self.index);
        String::from_str("element at index ").concat(index.as_str())
    }
}

/// The text that stands for the field called `name`, above what was being read
/// inside it: the rendering of the inner locator, then the field.
pub open spec fn named_field_text(inner: Seq<char>, name: Seq<char>) -> Seq<char> {
    inner + " of `"@ + name + "` field"@
}

/// The text that stands for the unnamed field at position `index`, above what
/// was being read inside it.
pub open spec fn positional_field_text(inner: Seq<char>, index: nat) -> Seq<char> {
    inner + " of position "@ + decimal(index) + " field"@
}

/// Renders one step of a field path: the named field `name`, given the
/// rendering `inner` of the locator that it wraps.
pub fn render_named_field(inner: &str, name: &str) -> (s: String)
    ensures
        s@ == named_field_text(inner@, name@),
{
    let mut s = String::from_str(inner);
    s.append(" of `");
    s.append(name);
    s.append("` field");
    s
}

/// Renders one step of a field path: the unnamed field at position `index`,
/// given the rendering `inner` of the locator that it wraps.
pub fn render_positional_field(inner: &str, index: usize) -> (s: String)
    ensures
        s@ == positional_field_text(inner@, index as nat),
{
    let position = decimal_text(index);
    let mut s = String::from_str(inner);
    s.append(" of position ");
    s.append(position.as_str());
    s.append(" field");
    s
}

} // verus!
