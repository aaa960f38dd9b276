//! Markup queries: which elements of a page a selector matches.
//!
//! Parsing and matching are done by `crabquery`. This module states what the
//! crawler relies on, decides which selectors may be handed to it, and lays
//! out the matches of several selectors in the order of their dispatch.

use crate::errors::CrablerError;
use vstd::prelude::*;
use vstd::string::*;

verus! {

/// A parsed page. Opaque: it is only made, queried and dropped.
#[verifier::external_type_specification]
#[verifier::external_body]
pub struct ExDocument(crabquery::Document);

/// An element of a parsed page. Opaque: it is only handed to handlers.
#[verifier::external_type_specification]
#[verifier::external_body]
pub struct ExElement(crabquery::Element);

/// The text that a parsed page was made from.
pub uninterp spec fn document_markup(document: crabquery::Document) -> Seq<char>;

/// The elements of the page with text `markup` that `selector` matches, in
/// the order in which `crabquery` yields them. An element stands for a place
/// in the page, as its accessors show it.
pub uninterp spec fn selected(markup: Seq<char>, selector: Seq<char>) -> Seq<crabquery::Element>;

/// The byte `#`, which begins an id.
pub const HASH: u8 = 0x23;

/// The byte `.`, which begins a class.
pub const DOT: u8 = 0x2e;

/// The byte `[`, which begins an attribute.
pub const OPENING: u8 = 0x5b;

/// The byte `]`, which ends an attribute.
pub const CLOSING: u8 = 0x5d;

/// The byte `=`, which stands between an attribute's name and its value.
pub const EQUALS: u8 = 0x3d;

/// The first byte that is not an ASCII character.
pub const ASCII_END: u8 = 0x80;

/// Whether `c` is an ASCII blank: a space, a tab, a line feed, a vertical
/// tab, a form feed or a carriage return.
pub open spec fn is_blank(c: u8) -> bool {
    c == 0x20 || 0x09 <= c <= 0x0d
}

/// Whether `c` ends a part of a selector: `#`, `.`, `[`, `]`, `=` or a blank.
pub open spec fn is_delimiter(c: u8) -> bool {
    c == HASH || c == DOT || c == OPENING || c == CLOSING || c == EQUALS || is_blank(c)
}

/// Whether what stands just before the place `end` is an attribute's name:
/// the nearest delimiter before that place is an opening bracket.
pub open spec fn in_attribute_name(selector: Seq<u8>, end: int) -> bool
    decreases end,
{
    if end <= 0 || end > selector.len() {
        false
    } else if selector[end - 1] == OPENING {
        true
    } else if is_delimiter(selector[end - 1]) {
        false
    } else {
        in_attribute_name(selector, end - 1)
    }
}

/// Whether a selector, given by its UTF-8 bytes, can be handed to the
/// matcher.
///
/// The matcher splits a selector at blanks and at `#`, `.`, `[` and `]`. Of
/// a part that begins with `[` it takes what stands before the first `=` as
/// the name of an attribute, and cuts the last byte off that name. So the
/// name must not be empty and must end in an ASCII character: each `=` that
/// follows an attribute's name follows a byte below 0x80 other than the
/// opening bracket. (This leaves out a few selectors that the matcher would
/// take all the same: it also splits at blanks outside ASCII, and it reads
/// no further in a part between blanks that holds `>`.)
pub open spec fn selector_parses(selector: Seq<u8>) -> bool {
    forall|k: int|
        0 <= k < selector.len() && selector[k] == EQUALS && #[trigger] in_attribute_name(
            selector,
            k,
        ) ==> selector[k - 1] != OPENING && selector[k - 1] < ASCII_END
}

/// Decides [`selector_parses`].
pub fn selector_supported(selector: &str) -> (supported: bool)
    ensures
        supported == selector_parses(selector.spec_bytes()),
{
    let bytes = selector.as_bytes();
    let mut open: bool = false;
    let mut i: usize = 0;
    while i < bytes.len()
        invariant
            i <= bytes@.len(),
            bytes@ == selector.spec_bytes(),
            open == in_attribute_name(bytes@, i as int),
            forall|k: int|
                0 <= k < i && bytes@[k] == EQUALS && #[trigger] in_attribute_name(bytes@, k)
                    ==> bytes@[k - 1] != OPENING && bytes@[k - 1] < ASCII_END,
        decreases bytes@.len() - i,
    {
        let c: u8 = bytes[i];
        if c == EQUALS && open {
            let before: u8 = bytes[i - 1];
            if before == OPENING || before >= ASCII_END {
                return false;
            }
        }
        let blank = c == 0x20 || (0x09 <= c && c <= 0x0d);
        open = c == OPENING || (open && !(c == HASH || c == DOT || c == CLOSING || c == EQUALS
            || blank));
        i = i + 1;
    }
    true
}

/// Parses a page with `crabquery::Document::from`. The page remembers the
/// text it was made from; parsing accepts every text.
#[verifier::external_body]
pub(crate) fn parse_document(markup: &str) -> (document: crabquery::Document)
    ensures
        document_markup(document) == markup@,
{
    crabquery::Document::from(markup)
}

/// Queries a page with `crabquery::Document::select`: the matches of
/// `selector` in the page, which depend on the page's text and the selector
/// alone. The matcher panics on a selector in which an attribute that is
/// compared with a value has no name, or a name that ends in a character
/// outside ASCII; [`selector_parses`] rules these out.
#[verifier::external_body]
pub(crate) fn select_elements(document: &crabquery::Document, selector: &str) -> (elements: Vec<
    crabquery::Element,
>)
    requires
        selector_parses(selector.spec_bytes()),
    ensures
        elements@ == selected(document_markup(*document), selector@),
{
    document.select(selector)
}

/// One invocation of a selector's handler: the selector and the element that
/// it matched.
pub struct HtmlDispatch {
    pub selector: String,
    pub element: crabquery::Element,
}

/// The invocations for one selector: one for each element, in their order.
pub open spec fn matches_of(selector: String, elements: Seq<crabquery::Element>) -> Seq<
    HtmlDispatch,
> {
    elements.map_values(|element: crabquery::Element| HtmlDispatch { selector, element })
}

/// Pairs each element that `selector` matched with the selector.
pub fn pair_matches(selector: &String, elements: Vec<crabquery::Element>) -> (dispatches: Vec<
    HtmlDispatch,
>)
    ensures
        dispatches@ == matches_of(*selector, elements@),
{
    let mut dispatches: Vec<HtmlDispatch> = Vec::new();
    for element in iter: elements
        invariant
            iter.seq() == elements@,
            dispatches@ == matches_of(*selector, elements@.take(iter.index())),
    {
        dispatches.push(HtmlDispatch { selector: selector.clone(), element });
    }
    dispatches
}

/// Whether a selector, given by its text, can be handed to the matcher.
pub open spec fn selector_text_parses(selector: Seq<char>) -> bool {
    selector_parses(vstd::utf8::encode_utf8(selector))
}

/// Whether `owned` holds the same selectors as `bound`: as many, and at each
/// place the same text.
pub open spec fn same_selectors(owned: Seq<String>, bound: Seq<&str>) -> bool {
    &&& owned.len() == bound.len()
    &&& forall|i: int| 0 <= i < bound.len() ==> (#[trigger] owned[i])@ == bound[i]@
}

/// Copies the selectors that handlers are bound to, keeping their order, so
/// that they can be held while the handlers are invoked.
pub fn owned_selectors(bound: &Vec<&str>) -> (selectors: Vec<String>)
    ensures
        same_selectors(selectors@, bound@),
{
    let mut selectors: Vec<String> = Vec::new();
    let mut i: usize = 0;
    while i < bound.len()
        invariant
            i <= bound@.len(),
            same_selectors(selectors@, bound@.take(i as int)),
        decreases bound@.len() - i,
    {
        selectors.push(bound[i].to_owned());
        i = i + 1;
    }
    selectors
}

/// The invocations of the selectors' handlers for a page with text `markup`:
/// selector by selector in the order in which they were bound, and for each
/// selector element by element in the order of the page.
pub open spec fn dispatch_order(markup: Seq<char>, selectors: Seq<String>) -> Seq<HtmlDispatch>
    decreases selectors.len(),
{
    if selectors.len() == 0 {
        Seq::empty()
    } else {
        dispatch_order(markup, selectors.drop_last()) + matches_of(
            selectors.last(),
            selected(markup, selectors.last()@),
        )
    }
}

/// Whether `index` is the place of the first selector that cannot be handed
/// to the matcher.
pub open spec fn first_unsupported(selectors: Seq<String>, index: int) -> bool {
    &&& 0 <= index < selectors.len()
    &&& !selector_text_parses(selectors[index]@)
    &&& forall|j: int| 0 <= j < index ==> selector_text_parses(#[trigger] selectors[j]@)
}

/// Lays out the invocations of the selectors' handlers for a page, in the
/// order of their dispatch.
///
/// Fails on the first selector that cannot be handed to the matcher, and
/// names it.
pub fn html_dispatches(document: &crabquery::Document, selectors: &Vec<String>) -> (result: Result<
    Vec<HtmlDispatch>,
    CrablerError,
>)
    ensures
        match result {
            Ok(dispatches) => {
                &&& forall|j: int|
                    0 <= j < selectors@.len() ==> selector_text_parses(#[trigger] selectors@[j]@)
                &&& dispatches@ == dispatch_order(document_markup(*document), selectors@)
            },
            Err(error) => exists|index: int|
                {
                    &&& #[trigger] first_unsupported(selectors@, index)
                    &&& error == CrablerError::Selector(selectors@[index])
                },
        },
{
    let mut dispatches: Vec<HtmlDispatch> = Vec::new();
    let mut i: usize = 0;
    while i < selectors.len()
        invariant
            i <= selectors@.len(),
            forall|j: int| 0 <= j < i ==> selector_text_parses(#[trigger] selectors@[j]@),
            dispatches@ == dispatch_order(document_markup(*document), selectors@.take(i as int)),
        decreases selectors@.len() - i,
    {
        let selector = &selectors[i];
        if !selector_supported(selector.as_str()) {
            assert(first_unsupported(selectors@, i as int));
            return Err(CrablerError::Selector(selector.clone()));
        }
        let elements = select_elements(document, selector.as_str());
        let mut matches = pair_matches(selector, elements);
        proof {
            let done = selectors@.take(i as int);
            let next = selectors@.take(i + 1);
            assert(next.drop_last() =~= done);
        }
        dispatches.append(&mut matches);
        i = i + 1;
    }
    assert(selectors@.take(i as int) =~= selectors@);
    Ok(dispatches)
}

} // verus!
