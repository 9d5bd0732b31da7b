//! Decoding of values with a fixed byte layout, with failures that name the
//! field that could not be read.
//!
//! A decodable type implements [`FromFixedBytes`]: it reads its wire form, a
//! fixed number of bytes, from a [`ByteSource`] and yields the value, or a
//! [`ByteReadFailure`] that holds the type's name and a locator, a path of
//! fields down to the integer whose read was refused. Integers are read
//! through the endian wrappers [`Le`], [`Be`] and [`Ne`], arrays element by
//! element, and a composite type field by field with [`decode_field`].

pub mod array;
pub mod decode;
pub mod endian;
pub mod failure;
pub mod ints;
pub mod laws;
pub mod locator;
pub mod naming;
pub mod pair;
pub mod primitive;
pub mod source;
pub mod text;
pub mod wire;

pub use decode::{decode_field, FromFixedBytes};
pub use failure::{compose_message, ByteReadFailure};
pub use locator::{
    render_named_field, render_positional_field, ArrayElementLocator, Locator, PrimitiveField,
};
pub use naming::{locator_name, variant_name};
pub use pair::PairField;
pub use endian::{Be, Le, Ne};
pub use primitive::{Endian, FixedInt};
pub use source::{ByteSource, ReadError};
pub use wire::ByteOrder;
