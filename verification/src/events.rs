//! Plain lexical events, as the extraction core consumes them.
//!
//! The event source tokenizes raw bytes and resolves escapes; the core only
//! ever sees values of [`XmlEvent`]. Start tags carry the namespace bound to
//! the element, the local element name, and the already-decoded attributes.

use vstd::prelude::*;
use vstd::string::StringSliceAdditionalSpecFns;

verus! {

/// One lexical event of the document.
pub enum XmlEvent {
    /// A start tag, with its bound namespace, local name and attributes.
    /// Self-closing elements arrive as a start tag followed by an end tag.
    Start {
        /// The namespace URI bound to the element, if any.
        namespace: Option<Vec<u8>>,
        /// The local element name.
        name: Vec<u8>,
        /// Attribute keys with their decoded values, in document order.
        attrs: Vec<(Vec<u8>, String)>,
    },
    /// An end tag.
    End,
    /// Character data, with escapes already resolved.
    Text(String),
    /// Anything else between tags: comments, processing instructions,
    /// declarations, CDATA sections.
    Other,
    /// The end of the input.
    Eof,
}

/// The mathematical shape of a lexical event.
#[verifier::ext_equal]
pub enum EventModel {
    /// A start tag.
    Start {
        /// The namespace URI bound to the element, if any.
        namespace: Option<Seq<u8>>,
        /// The local element name.
        name: Seq<u8>,
        /// Attribute keys with their values, in document order.
        attrs: Seq<(Seq<u8>, Seq<char>)>,
    },
    /// An end tag.
    End,
    /// Character data.
    Text(Seq<char>),
    /// Anything else between tags.
    Other,
    /// The end of the input.
    Eof,
}

/// The view of an optional owned namespace.
pub open spec fn opt_vec_view(namespace: &Option<Vec<u8>>) -> Option<Seq<u8>> {
    match namespace {
        Some(v) => Some(v@),
        None => None,
    }
}

/// The view of a start tag's attribute list.
pub open spec fn attrs_view(attrs: Vec<(Vec<u8>, String)>) -> Seq<(Seq<u8>, Seq<char>)> {
    attrs@.map_values(|p: (Vec<u8>, String)| (p.0@, p.1@))
}

impl View for XmlEvent {
    type V = EventModel;

    open spec fn view(&self) -> EventModel {
        match self {
            XmlEvent::Start { namespace, name, attrs } => EventModel::Start {
                namespace: opt_vec_view(namespace),
                name: name@,
                attrs: attrs_view(*attrs),
            },
            XmlEvent::End => EventModel::End,
            XmlEvent::Text(s) => EventModel::Text(s@),
            XmlEvent::Other => EventModel::Other,
            XmlEvent::Eof => EventModel::Eof,
        }
    }
}

/// The namespace URI of the recognized export schema.
pub open spec fn export_namespace() -> Seq<u8> {
    "http://www.mediawiki.org/xml/export-0.10/".spec_bytes()
}

/// The root element's local name.
pub open spec fn mediawiki_name() -> Seq<u8> {
    "mediawiki".spec_bytes()
}

/// The page element's local name.
pub open spec fn page_name() -> Seq<u8> {
    "page".spec_bytes()
}

/// The namespace element's local name.
pub open spec fn ns_name() -> Seq<u8> {
    "ns".spec_bytes()
}

/// The title element's local name, also the key of the redirect element's
/// title attribute.
pub open spec fn title_name() -> Seq<u8> {
    "title".spec_bytes()
}

/// The redirect element's local name.
pub open spec fn redirect_name() -> Seq<u8> {
    "redirect".spec_bytes()
}

/// The revision element's local name.
pub open spec fn revision_name() -> Seq<u8> {
    "revision".spec_bytes()
}

/// The format element's local name.
pub open spec fn format_name() -> Seq<u8> {
    "format".spec_bytes()
}

/// The model element's local name.
pub open spec fn model_name() -> Seq<u8> {
    "model".spec_bytes()
}

/// The text element's local name.
pub open spec fn text_name() -> Seq<u8> {
    "text".spec_bytes()
}

/// Byte-for-byte equality of two slices.
pub fn bytes_eq(a: &[u8], b: &[u8]) -> (r: bool)
    ensures
        r == (a@ == b@),
{
    if a.len() != b.len() {
        return false;
    }
    let mut i: usize = 0;
    while i < a.len()
        invariant
            0 <= i <= a@.len(),
            a@.len() == b@.len(),
            forall|k: int| 0 <= k < i ==> a@[k] == b@[k],
        decreases a@.len() - i,
    {
        if a[i] != b[i] {
            return false;
        }
        i = i + 1;
    }
    proof {
        assert(a@ =~= b@);
    }
    true
}

/// Whether a byte slice spells a given name.
pub(crate) fn name_is(name: &[u8], expected: &str) -> (r: bool)
    ensures
        r == (name@ == expected.spec_bytes()),
{
    bytes_eq(name, expected.as_bytes())
}

/// The view of an optional byte slice.
pub open spec fn opt_bytes_view(namespace: Option<&[u8]>) -> Option<Seq<u8>> {
    match namespace {
        Some(b) => Some(b@),
        None => None,
    }
}

/// Whether a bound namespace is the recognized export namespace.
pub open spec fn spec_match_namespace(namespace: Option<Seq<u8>>) -> bool {
    match namespace {
        Some(ns) => ns == export_namespace(),
        None => false,
    }
}

/// Decides whether an element's bound namespace is the recognized export
/// namespace. An unbound element never matches.
pub fn match_namespace(namespace: Option<&[u8]>) -> (r: bool)
    ensures
        r == spec_match_namespace(opt_bytes_view(namespace)),
{
    match namespace {
        None => false,
        Some(ns) => bytes_eq(ns, "http://www.mediawiki.org/xml/export-0.10/".as_bytes()),
    }
}

/// Decides whether an optional owned namespace is the recognized export
/// namespace.
pub(crate) fn recognized_namespace(namespace: &Option<Vec<u8>>) -> (r: bool)
    ensures
        r == spec_match_namespace(opt_vec_view(namespace)),
{
    match namespace {
        None => false,
        Some(v) => match_namespace(Some(v.as_slice())),
    }
}

/// The value of the first attribute whose key is `title`, if any.
pub open spec fn first_title_attr(attrs: Seq<(Seq<u8>, Seq<char>)>) -> Option<Seq<char>>
    decreases attrs.len(),
{
    if attrs.len() == 0 {
        None
    } else if attrs[0].0 == title_name() {
        Some(attrs[0].1)
    } else {
        first_title_attr(attrs.drop_first())
    }
}

proof fn lemma_first_title_attr_skip(attrs: Seq<(Seq<u8>, Seq<char>)>, i: int)
    requires
        0 <= i <= attrs.len(),
        forall|k: int| 0 <= k < i ==> attrs[k].0 != title_name(),
    ensures
        first_title_attr(attrs) == first_title_attr(attrs.skip(i)),
    decreases i,
{
    if i > 0 {
        assert(attrs.skip(0) =~= attrs);
        assert(attrs.drop_first() =~= attrs.skip(1));
        lemma_first_title_attr_skip(attrs.drop_first(), i - 1);
        assert(attrs.drop_first().skip(i - 1) =~= attrs.skip(i));
    } else {
        assert(attrs.skip(0) =~= attrs);
    }
}

/// Looks up the value of the first `title` attribute of a start tag.
pub fn find_title_attr(attrs: &Vec<(Vec<u8>, String)>) -> (r: Option<String>)
    ensures
        (match r {
            Some(s) => first_title_attr(attrs_view(*attrs)) == Some(s@),
            None => first_title_attr(attrs_view(*attrs)) is None,
        }),
{
    let ghost av = attrs_view(*attrs);
    let mut i: usize = 0;
    while i < attrs.len()
        invariant
            0 <= i <= attrs@.len(),
            av == attrs@.map_values(|p: (Vec<u8>, String)| (p.0@, p.1@)),
            av.len() == attrs@.len(),
            forall|k: int| 0 <= k < i ==> av[k].0 != title_name(),
        decreases attrs@.len() - i,
    {
        if name_is(attrs[i].0.as_slice(), "title") {
            proof {
                lemma_first_title_attr_skip(av, i as int);
                assert(av.skip(i as int)[0] == av[i as int]);
            }
            return Some(attrs[i].1.clone());
        }
        i = i + 1;
    }
    proof {
        lemma_first_title_attr_skip(av, av.len() as int);
        assert(av.skip(av.len() as int) =~= Seq::<(Seq<u8>, Seq<char>)>::empty());
    }
    None
}

} // verus!
