//! The boundary to the lexical event source.
//!
//! Everything here is trusted: these are the declarations and wrappers
//! through which the verified core reaches the XML reader of the `quick_xml`
//! crate. The wrappers only convert between the reader's borrowed values and
//! the plain owned values of [`XmlEvent`]; all interpretation of events is
//! verified code elsewhere.

use vstd::prelude::*;

use crate::error::Error;
use crate::events::XmlEvent;

verus! {

/// Relies on `quick_xml::NsReader::from_reader` and on the reader's
/// configuration: self-closing elements are expanded into a start tag
/// followed by an end tag, so the events never contain an empty-element
/// event.
#[verifier::external_body]
pub(crate) fn reader_new<R>(source: R) -> (r: quick_xml::NsReader<R>) {
    let mut reader = quick_xml::NsReader::from_reader(source);
    reader.config_mut().expand_empty_elements = true;
    reader
}

/// Relies on `quick_xml::Reader::buffer_position`: the byte position of the
/// reader, used for diagnostics only.
#[verifier::external_body]
pub(crate) fn reader_position<R>(reader: &quick_xml::NsReader<R>) -> (r: usize) {
    reader.buffer_position() as usize
}

/// Relies on `quick_xml::name::ResolveResult` for the namespace bound to a
/// start tag, on `quick_xml::events::BytesStart::local_name` and
/// `BytesStart::attributes` for its local name and attributes, and on
/// `quick_xml::events::attributes::Attribute::decode_and_unescape_value`
/// for each attribute's decoded value. Attributes that the reader cannot
/// parse or decode are left out, as the reader leaves out unparsable
/// attributes.
#[verifier::external_body]
fn start_event(
    decoder: quick_xml::Decoder,
    ns: quick_xml::name::ResolveResult<'_>,
    e: &quick_xml::events::BytesStart<'_>,
) -> (r: XmlEvent) {
    let namespace = (match ns {
        quick_xml::name::ResolveResult::Bound(n) => Some(n.0.to_vec()),
        _ => None,
    });
    let name = e.local_name().as_ref().to_vec();
    let mut attrs: Vec<(Vec<u8>, String)> = Vec::new();
    for a in e.attributes().filter_map(|x| x.ok()) {
        if let Ok(v) = a.decode_and_unescape_value(decoder) {
            attrs.push((a.key.as_ref().to_vec(), v.into_owned()));
        }
    }
    XmlEvent::Start { namespace, name, attrs }
}

/// Relies on `quick_xml::NsReader::read_resolved_event_into` for the next
/// lexical event with the namespace bound to its element, and on
/// `quick_xml::events::BytesText::unescape` for the resolved character data
/// of a text event. Any failure of the reader comes back as the
/// reader-failure variant of [`Error`], rendered to its own diagnostic.
#[verifier::external_body]
pub(crate) fn read_lex_event<R: std::io::BufRead>(
    reader: &mut quick_xml::NsReader<R>,
    buf: &mut Vec<u8>,
) -> (r: Result<XmlEvent, Error>)
    ensures
        r matches Err(e) ==> e@ is XmlReader,
{
    buf.clear();
    let decoder = reader.decoder();
    match reader.read_resolved_event_into(buf) {
        Err(e) => Err(Error::XmlReader(format!("{}", e))),
        Ok((ns, quick_xml::events::Event::Start(e))) => Ok(start_event(decoder, ns, &e)),
        Ok((_, quick_xml::events::Event::End(_))) => Ok(XmlEvent::End),
        Ok((_, quick_xml::events::Event::Text(t))) => match t.unescape() {
            Ok(s) => Ok(XmlEvent::Text(s.into_owned())),
            Err(e) => Err(Error::XmlReader(format!("{}", e))),
        },
        Ok((_, quick_xml::events::Event::Eof)) => Ok(XmlEvent::Eof),
        Ok(_) => Ok(XmlEvent::Other),
    }
}

} // verus!
