//! The error type of the configuration serializer and deserializer.

use vstd::prelude::*;

verus! {

/// The kind of a serializer or deserializer failure.
#[derive(Clone, Copy, Debug, PartialEq, Eq, Structural)]
pub enum SerializerErrorKind {
    /// The underlying reader or writer failed.
    Io,
    /// The read text is not well-formed.
    Syntax,
    /// The value could not be turned into text.
    Serialization,
}

/// A serializer or deserializer failure: its kind and a description
/// message.
#[derive(Debug)]
pub struct SerializerError {
    kind: SerializerErrorKind,
    msg: String,
}

impl SerializerError {
    /// The kind of the failure.
    pub closed spec fn spec_kind(&self) -> SerializerErrorKind {
        self.kind
    }

    /// The description message.
    pub closed spec fn spec_msg(&self) -> Seq<char> {
        self.msg@
    }

    /// Instantiate a new `SerializerError` with a description message.
    pub fn new(kind: SerializerErrorKind, msg: String) -> (r: SerializerError)
        ensures
            r.spec_kind() == kind,
            r.spec_msg() == msg@,
    {
        SerializerError { kind, msg }
    }

    /// The kind of the failure.
    pub fn kind(&self) -> (r: SerializerErrorKind)
        ensures
            r == self.spec_kind(),
    {
        self.kind
    }

    /// The description message.
    pub fn message(&self) -> (r: &str)
        ensures
            r@ == self.spec_msg(),
    {
        self.msg.as_str()
    }
}

} // verus!
