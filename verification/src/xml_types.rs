//! Declarations of the XML reader's types.
//!
//! These make the opaque types of the `quick_xml` crate nameable in
//! signatures and fields; nothing is assumed about their contents.

use vstd::prelude::*;

verus! {

/// Declares `quick_xml::NsReader`, the namespace-resolving streaming reader.
#[verifier::external_type_specification]
#[verifier::external_body]
#[verifier::reject_recursive_types(R)]
pub struct ExNsReader<R>(quick_xml::NsReader<R>);

/// Declares `quick_xml::events::BytesStart`, the borrowed content of a
/// start tag.
#[verifier::external_type_specification]
#[verifier::external_body]
pub struct ExBytesStart<'a>(quick_xml::events::BytesStart<'a>);

/// Declares `quick_xml::name::ResolveResult`, the namespace bound to an
/// element.
#[verifier::external_type_specification]
#[verifier::external_body]
pub struct ExResolveResult<'a>(quick_xml::name::ResolveResult<'a>);

/// Declares `quick_xml::Decoder`, the reader's text decoder.
#[verifier::external_type_specification]
#[verifier::external_body]
pub struct ExDecoder(quick_xml::Decoder);

} // verus!
