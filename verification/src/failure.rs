//! The one error of this library: a read that failed, with the type that was
//! being decoded and the locator of the field inside it.

use crate::locator::Locator;
use crate::source::ReadError;
use vstd::string::StringExecFns;
use vstd::prelude::*;

verus! {

/// A failed read: the source's error, the name of the type that was being
/// decoded, and the locator of the part of it that could not be read.
#[derive(Debug, PartialEq, Eq)]
pub struct ByteReadFailure<FieldEnum> {
    pub inner: ReadError,
    pub declaring_type: &'static str,
    pub field: FieldEnum,
}

impl<FieldEnum> ByteReadFailure<FieldEnum> {
    /// Lifts a field's failure into the failure of the type that holds the
    /// field: the source's error is kept, the declaring type becomes
    /// `other_type_name`, and the locator becomes what `f` makes of it.
    pub fn map_field<OtherFieldEnum, F>(self, other_type_name: &'static str, f: F) -> (mapped:
        ByteReadFailure<OtherFieldEnum>) where F: FnOnce(FieldEnum) -> OtherFieldEnum
        requires
            f.requires((self.field,)),
        ensures
            mapped.inner == self.inner,
            mapped.declaring_type == other_type_name,
            f.ensures((self.field,), mapped.field),
    {
        let ByteReadFailure { inner, declaring_type: _, field } = self;
        ByteReadFailure { inner, declaring_type: other_type_name, field: f(field) }
    }
}

/// The message of a failure, from the rendering of its locator, the name of
/// the declaring type and the text of the source's error.
pub open spec fn failure_text(field: Seq<char>, declaring_type: Seq<char>, inner: Seq<char>) -> Seq<
    char,
> {
    "unable to read "@ + field + " of "@ + declaring_type + ": "@ + inner
}

/// Builds the message of a failure from its three rendered parts.
pub fn compose_message(field: &str, declaring_type: &str, inner: &str) -> (s: String)
    ensures
        s@ == failure_text(field@, declaring_type@, inner@),
{
    let mut s = String::from_str("unable to read ");
    s.append(field);
    s.append(" of ");
    s.append(declaring_type);
    s.append(": ");
    s.append(inner);
    s
}

impl<FieldEnum: Locator> ByteReadFailure<FieldEnum> {
    /// The message of this failure. It is pinned down wherever the locator's
    /// rendering is.
    pub fn message(&self) -> (s: String)
        ensures
            FieldEnum::obeys_rendering() ==> s@ == failure_text(
                self.field.rendering(),
                self.declaring_type@,
                self.inner.text(),
            ),
    {
        let field = self.field.render();
        let inner = self.inner.render();
        compose_message(field.as_str(), self.declaring_type, inner.as_str())
    }
}

} // verus!
