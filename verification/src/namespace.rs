//! The raw namespace identifier and its conversion to caller-chosen types.

use vstd::prelude::*;

verus! {

/// The raw namespace category code of a page, as it stands in the dump.
///
/// It wraps a signed integer because that is the wire representation of the
/// `ns` element's text. Callers that want a closed enumeration of namespaces
/// implement [`FromNamespaceId`] for their own type and drive the parser with
/// it; [`NamespaceId`] itself converts losslessly and never fails.
#[derive(Debug, Clone, Copy, Ord, PartialOrd, Eq, PartialEq, Structural, Hash, Default)]
pub struct NamespaceId(pub i32);

impl NamespaceId {
    /// Creates a `NamespaceId` from an `i32`.
    pub fn new(n: i32) -> (r: Self)
        ensures
            r.0 == n,
    {
        Self(n)
    }

    /// Returns the wrapped integer.
    pub fn into_inner(self) -> (r: i32)
        ensures
            r == self.0,
    {
        self.0
    }
}

impl From<i32> for NamespaceId {
    fn from(n: i32) -> (r: Self) {
        Self(n)
    }
}

impl vstd::std_specs::convert::FromSpecImpl<i32> for NamespaceId {
    open spec fn obeys_from_spec() -> bool {
        true
    }

    open spec fn from_spec(n: i32) -> Self {
        NamespaceId(n)
    }
}

impl From<NamespaceId> for i32 {
    fn from(id: NamespaceId) -> (r: Self) {
        id.0
    }
}

impl vstd::std_specs::convert::FromSpecImpl<NamespaceId> for i32 {
    open spec fn obeys_from_spec() -> bool {
        true
    }

    open spec fn from_spec(id: NamespaceId) -> Self {
        id.0
    }
}

/// A fallible conversion from [`NamespaceId`], chosen by the caller.
///
/// The parser is generic over the namespace representation; it knows nothing
/// of how many namespaces exist or what they mean. An implementor states the
/// conversion once as `spec_from_namespace_id` and proves that the executable
/// conversion returns exactly that.
pub trait FromNamespaceId: Sized {
    /// What the conversion returns, stated as a mathematical function.
    spec fn spec_from_namespace_id(id: NamespaceId) -> Option<Self>;

    /// Converts fallibly from `NamespaceId`.
    fn from_namespace_id(id: NamespaceId) -> (r: Option<Self>)
        ensures
            r == Self::spec_from_namespace_id(id),
    ;
}

impl FromNamespaceId for NamespaceId {
    open spec fn spec_from_namespace_id(id: NamespaceId) -> Option<Self> {
        Some(id)
    }

    fn from_namespace_id(id: NamespaceId) -> (r: Option<Self>) {
        Some(id)
    }
}

/// The built-in namespaces that every MediaWiki installation defines,
/// covering the raw identifiers -2 through 15.
///
/// Identifiers outside that range have no counterpart here, so driving the
/// parser with this type rejects pages of any other namespace.
#[derive(Debug, Eq, PartialEq, Structural, Ord, PartialOrd, Clone, Copy, Hash)]
pub enum Namespace {
    Media,
    Special,
    Main,
    Talk,
    User,
    UserTalk,
    Project,
    ProjectTalk,
    File,
    FileTalk,
    MediaWiki,
    MediaWikiTalk,
    Template,
    TemplateTalk,
    Help,
    HelpTalk,
    Category,
    CategoryTalk,
}

impl FromNamespaceId for Namespace {
    open spec fn spec_from_namespace_id(id: NamespaceId) -> Option<Self> {
        match id.0 {
            -2 => Some(Namespace::Media),
            -1 => Some(Namespace::Special),
            0 => Some(Namespace::Main),
            1 => Some(Namespace::Talk),
            2 => Some(Namespace::User),
            3 => Some(Namespace::UserTalk),
            4 => Some(Namespace::Project),
            5 => Some(Namespace::ProjectTalk),
            6 => Some(Namespace::File),
            7 => Some(Namespace::FileTalk),
            8 => Some(Namespace::MediaWiki),
            9 => Some(Namespace::MediaWikiTalk),
            10 => Some(Namespace::Template),
            11 => Some(Namespace::TemplateTalk),
            12 => Some(Namespace::Help),
            13 => Some(Namespace::HelpTalk),
            14 => Some(Namespace::Category),
            15 => Some(Namespace::CategoryTalk),
            _ => None,
        }
    }

    fn from_namespace_id(id: NamespaceId) -> (r: Option<Self>) {
        match id.0 {
            -2 => Some(Namespace::Media),
            -1 => Some(Namespace::Special),
            0 => Some(Namespace::Main),
            1 => Some(Namespace::Talk),
            2 => Some(Namespace::User),
            3 => Some(Namespace::UserTalk),
            4 => Some(Namespace::Project),
            5 => Some(Namespace::ProjectTalk),
            6 => Some(Namespace::File),
            7 => Some(Namespace::FileTalk),
            8 => Some(Namespace::MediaWiki),
            9 => Some(Namespace::MediaWikiTalk),
            10 => Some(Namespace::Template),
            11 => Some(Namespace::TemplateTalk),
            12 => Some(Namespace::Help),
            13 => Some(Namespace::HelpTalk),
            14 => Some(Namespace::Category),
            15 => Some(Namespace::CategoryTalk),
            _ => None,
        }
    }
}

} // verus!
