//! The closed set of extraction failures.

use vstd::prelude::*;

use crate::namespace::NamespaceId;

verus! {

/// The error type for `Parser`.
#[derive(Debug)]
pub enum Error {
    /// Format not matching expectations.
    ///
    /// Indicates the byte position in the stream.
    Format(usize),
    /// The source contains a feature not supported by the parser: a `page`
    /// element with more than one `revision` element.
    ///
    /// Indicates the byte position in the stream.
    NotSupported(usize),
    /// Error from the XML reader, carrying the reader's own diagnostic.
    XmlReader(String),
    /// Namespace id could not be converted to the selected namespace type.
    Namespace {
        /// The raw identifier with no counterpart in the selected type.
        id: NamespaceId,
        /// The byte position in the stream.
        position: usize,
    },
}

/// The mathematical shape of an error. The payload of a reader failure is
/// opaque and carries over into the model only as its kind.
#[verifier::ext_equal]
pub enum ErrorModel {
    /// Format not matching expectations, at a byte position.
    Format(usize),
    /// More than one `revision` element under one `page`, at a byte position.
    NotSupported(usize),
    /// A failure of the underlying XML reader.
    XmlReader,
    /// An unconvertible namespace id, with the id and the byte position.
    Namespace {
        /// The raw identifier with no counterpart in the selected type.
        id: NamespaceId,
        /// The byte position in the stream.
        position: usize,
    },
}

impl View for Error {
    type V = ErrorModel;

    open spec fn view(&self) -> ErrorModel {
        match self {
            Error::Format(position) => ErrorModel::Format(*position),
            Error::NotSupported(position) => ErrorModel::NotSupported(*position),
            Error::XmlReader(_) => ErrorModel::XmlReader,
            Error::Namespace { id, position } => ErrorModel::Namespace {
                id: *id,
                position: *position,
            },
        }
    }
}

} // verus!
