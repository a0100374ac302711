//! The record produced for each `page` element.

use vstd::prelude::*;

verus! {

/// Parsed page.
///
/// Generic over the namespace type `N`, selected by the caller.
///
/// Older export schemas lack the `format` and `model` elements inside
/// `revision`, so the corresponding fields can be `None`.
#[derive(Debug, Clone, PartialEq, Eq, PartialOrd, Ord, Hash, Default)]
pub struct Page<N> {
    /// The format of the revision, from the text content of the `format`
    /// element in the `revision` element; `None` if that element is absent.
    pub format: Option<String>,
    /// The model of the revision, from the text content of the `model`
    /// element in the `revision` element; `None` if that element is absent.
    pub model: Option<String>,
    /// The namespace of the page, converted from the integer text content of
    /// the `ns` element in the `page` element.
    pub namespace: N,
    /// The text of the revision, from the text content of the `text` element
    /// in the `revision` element.
    pub text: String,
    /// The title of the page, from the text content of the `title` element
    /// in the `page` element.
    pub title: String,
    /// The redirect target, from the `title` attribute of the `redirect`
    /// element in the `page` element; `None` for pages that are not
    /// redirects.
    pub redirect_title: Option<String>,
}

/// The view of an optional owned string.
pub open spec fn opt_string_view(o: &Option<String>) -> Option<Seq<char>> {
    match o {
        Some(s) => Some(s@),
        None => None,
    }
}

/// The mathematical shape of a parsed page.
#[verifier::ext_equal]
pub struct PageModel<N> {
    /// The format of the revision, if its element is present.
    pub format: Option<Seq<char>>,
    /// The model of the revision, if its element is present.
    pub model: Option<Seq<char>>,
    /// The namespace of the page.
    pub namespace: N,
    /// The text of the revision.
    pub text: Seq<char>,
    /// The title of the page.
    pub title: Seq<char>,
    /// The redirect target, if the page is a redirect.
    pub redirect_title: Option<Seq<char>>,
}

impl<N> View for Page<N> {
    type V = PageModel<N>;

    open spec fn view(&self) -> PageModel<N> {
        PageModel {
            format: opt_string_view(&self.format),
            model: opt_string_view(&self.model),
            namespace: self.namespace,
            text: self.text@,
            title: self.title@,
            redirect_title: opt_string_view(&self.redirect_title),
        }
    }
}

} // verus!
