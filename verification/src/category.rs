//! The category document of a blog: the terms of its `category` elements.

use vstd::prelude::*;
use vstd::slice::slice_subrange;
use vstd::string::*;
use crate::text::strings_view;
use crate::xml::{
    attributes_view, document_events, events_view, next_event, open_scanner, pending_events,
    read_attributes, reading_view, tag_attributes, XmlAttribute, XmlAttributeView, XmlEvent,
    XmlEventView, XmlTag, XmlTagView,
};

verus! {

/// The error of reading a category document.
#[derive(Clone, Copy, Debug, PartialEq, Eq, Structural)]
pub struct ParseCategoryError;

/// Where a scan of a category document stands.
#[derive(Clone, Copy, Debug, PartialEq, Eq, Structural)]
pub enum ScanState {
    /// No `app:categories` element has been opened yet.
    BeforeRoot,
    /// Inside the `app:categories` element.
    InRoot,
    /// The `app:categories` element has been closed.
    Done,
}

/// The namespace of the Atom Publishing Protocol.
pub open spec fn app_namespace() -> Seq<u8> {
    "http://www.w3.org/2007/app".spec_bytes()
}

/// The namespace of Atom.
pub open spec fn atom_namespace() -> Seq<u8> {
    "http://www.w3.org/2005/Atom".spec_bytes()
}

/// The local name of the document's root element.
pub open spec fn root_name() -> Seq<u8> {
    "categories".spec_bytes()
}

/// The local name of a category element.
pub open spec fn category_name() -> Seq<u8> {
    "category".spec_bytes()
}

/// The key of the attribute that holds a category's term.
pub open spec fn term_key() -> Seq<u8> {
    "term".spec_bytes()
}

/// The index of the first colon of a name at or after `from`; the length of
/// the name where there is none.
pub open spec fn first_colon(name: Seq<u8>, from: int) -> int
    decreases name.len() - from,
{
    if from < 0 || from >= name.len() {
        name.len() as int
    } else if name[from] == 58u8 {
        from
    } else {
        first_colon(name, from + 1)
    }
}

/// A qualified name without its prefix: what follows the first colon.
pub open spec fn local_name(name: Seq<u8>) -> Seq<u8> {
    let i = first_colon(name, 0);
    if i < name.len() {
        name.skip(i + 1)
    } else {
        name
    }
}

/// Whether a tag has the given namespace and local name.
pub open spec fn tag_is(tag: XmlTagView, namespace: Seq<u8>, local: Seq<u8>) -> bool {
    &&& tag.namespace is Some
    &&& tag.namespace->0 == namespace
    &&& local_name(tag.name) == local
}

/// Whether the event opens the root element.
pub open spec fn is_root_start(event: XmlEventView) -> bool {
    event matches XmlEventView::Start(tag) && tag_is(tag, app_namespace(), root_name())
}

/// Whether the event is the root element in its empty form, which refers
/// to a document elsewhere.
pub open spec fn is_root_empty(event: XmlEventView) -> bool {
    event matches XmlEventView::Empty(tag) && tag_is(tag, app_namespace(), root_name())
}

/// The terms `acc` followed by the values of the attributes named `term`
/// from index `i` on; `None` where an attribute from there on is malformed
/// or a `term` has no readable value.
pub open spec fn terms_from(attrs: Seq<Option<XmlAttributeView>>, i: int, acc: Seq<Seq<char>>) -> Option<
    Seq<Seq<char>>,
>
    decreases attrs.len() - i,
{
    if i < 0 || i >= attrs.len() {
        Some(acc)
    } else {
        match attrs[i] {
            None => None,
            Some(a) => if a.key == term_key() {
                match a.value {
                    Some(v) => terms_from(attrs, i + 1, acc.push(v)),
                    None => None,
                }
            } else {
                terms_from(attrs, i + 1, acc)
            },
        }
    }
}

/// The terms `acc` followed by those of a `category` tag.
pub open spec fn category_terms(tag: XmlTagView, acc: Seq<Seq<char>>) -> Option<Seq<Seq<char>>> {
    terms_from(tag_attributes(tag.content, tag.name.len() as int), 0, acc)
}

/// The state and the terms after one event that is not the end of the
/// document; `None` where the event is refused. The root element in its
/// empty form is refused in every state, and a start tag of the root in
/// every state but the first.
pub open spec fn step(state: ScanState, event: XmlEventView, acc: Seq<Seq<char>>) -> Option<
    (ScanState, Seq<Seq<char>>),
> {
    if is_root_empty(event) {
        None
    } else if is_root_start(event) {
        if state == ScanState::BeforeRoot {
            Some((ScanState::InRoot, acc))
        } else {
            None
        }
    } else {
        match state {
            ScanState::BeforeRoot => Some((ScanState::BeforeRoot, acc)),
            ScanState::InRoot => match event {
                XmlEventView::Empty(tag) => if tag_is(tag, atom_namespace(), category_name()) {
                    match category_terms(tag, acc) {
                        Some(terms) => Some((ScanState::InRoot, terms)),
                        None => None,
                    }
                } else {
                    Some((ScanState::InRoot, acc))
                },
                XmlEventView::End(tag) => if tag_is(tag, app_namespace(), root_name()) {
                    Some((ScanState::Done, acc))
                } else {
                    Some((ScanState::InRoot, acc))
                },
                _ => Some((ScanState::InRoot, acc)),
            },
            ScanState::Done => Some((ScanState::Done, acc)),
        }
    }
}

/// The terms that a scan gives from a state on: those collected when the
/// document ends after its root element was closed.
pub open spec fn scan(events: Seq<Option<XmlEventView>>, state: ScanState, acc: Seq<Seq<char>>) -> Option<
    Seq<Seq<char>>,
>
    decreases events.len(),
{
    if events.len() == 0 {
        None
    } else {
        match events[0] {
            None => None,
            Some(XmlEventView::Eof) => if state == ScanState::Done {
                Some(acc)
            } else {
                None
            },
            Some(event) => match step(state, event, acc) {
                Some((next, terms)) => scan(events.drop_first(), next, terms),
                None => None,
            },
        }
    }
}

/// The category terms of a document's events.
pub open spec fn categories_of(events: Seq<Option<XmlEventView>>) -> Option<Seq<Seq<char>>> {
    scan(events, ScanState::BeforeRoot, Seq::empty())
}

/// Whether `r` gives exactly the terms `expected`, or fails where there are none.
pub open spec fn is_scan_result(
    r: Result<Vec<String>, ParseCategoryError>,
    expected: Option<Seq<Seq<char>>>,
) -> bool {
    match expected {
        Some(terms) => r is Ok && strings_view(r->Ok_0@) == terms,
        None => r is Err,
    }
}

/// What a scan refuses: the root element in its empty form, wherever it
/// stands; a start tag of the root once a root has been opened, be it still
/// open or closed; an error of the tokenizer; and a document that ends
/// before its root was opened and closed.
pub proof fn lemma_scan_refusals(
    events: Seq<Option<XmlEventView>>,
    state: ScanState,
    acc: Seq<Seq<char>>,
)
    requires
        events.len() > 0,
    ensures
        events[0] is None ==> scan(events, state, acc) is None,
        events[0] == Some(XmlEventView::Eof) && state != ScanState::Done ==> scan(events, state, acc)
            is None,
        events[0] == Some(XmlEventView::Eof) && state == ScanState::Done ==> scan(events, state, acc)
            == Some(acc),
        events[0] is Some && is_root_empty(events[0]->0) ==> scan(events, state, acc) is None,
        events[0] is Some && is_root_start(events[0]->0) && state != ScanState::BeforeRoot ==> scan(
            events,
            state,
            acc,
        ) is None,
{
}

/// A root opened inside an open root is refused, whatever follows.
pub proof fn lemma_nested_root_refused(
    first: XmlEventView,
    second: XmlEventView,
    rest: Seq<Option<XmlEventView>>,
)
    requires
        is_root_start(first),
        is_root_start(second),
    ensures
        categories_of(seq![Some(first), Some(second)] + rest) is None,
{
    let events = seq![Some(first), Some(second)] + rest;
    assert(events[0] == Some(first));
    assert(events.drop_first()[0] == Some(second));
    assert(step(ScanState::BeforeRoot, first, Seq::<Seq<char>>::empty()) == Some(
        (ScanState::InRoot, Seq::<Seq<char>>::empty()),
    ));
    assert(step(ScanState::InRoot, second, Seq::<Seq<char>>::empty()) is None);
    lemma_scan_refusals(events.drop_first(), ScanState::InRoot, Seq::<Seq<char>>::empty());
}

/// Whether two byte strings are equal.
pub fn bytes_eq(a: &[u8], b: &[u8]) -> (r: bool)
    ensures
        r == (a@ == b@),
{
    if a.len() != b.len() {
        return false;
    }
    let mut i: usize = 0;
    while i < a.len()
        invariant
            i <= a.len(),
            a.len() == b.len(),
            forall|j: int| 0 <= j < i ==> a@[j] == b@[j],
        decreases a.len() - i,
    {
        if a[i] != b[i] {
            return false;
        }
        i = i + 1;
    }
    assert(a@ =~= b@);
    true
}

/// Whether a qualified name has the given local name.
pub fn has_local_name(name: &[u8], local: &[u8]) -> (r: bool)
    ensures
        r == (local_name(name@) == local@),
{
    let mut i: usize = 0;
    while i < name.len() && name[i] != 58u8
        invariant
            i <= name.len(),
            first_colon(name@, 0) == first_colon(name@, i as int),
        decreases name.len() - i,
    {
        i = i + 1;
    }
    if i < name.len() {
        let rest = slice_subrange(name, i + 1, name.len());
        bytes_eq(rest, local)
    } else {
        bytes_eq(name, local)
    }
}

/// Whether a tag has the given namespace and local name.
pub fn tag_matches(tag: &XmlTag, namespace: &str, local: &str) -> (r: bool)
    ensures
        r == tag_is(tag@, namespace.spec_bytes(), local.spec_bytes()),
{
    match &tag.namespace {
        Some(ns) => bytes_eq(ns.as_slice(), namespace.as_bytes()) && has_local_name(
            tag.name.as_slice(),
            local.as_bytes(),
        ),
        None => false,
    }
}

/// Appends to `terms` the values of the attributes named `term`.
pub fn collect_terms(attrs: &Vec<Option<XmlAttribute>>, terms: &mut Vec<String>) -> (ok: bool)
    ensures
        match terms_from(attributes_view(attrs@), 0, strings_view(old(terms)@)) {
            Some(all) => ok && strings_view(final(terms)@) == all,
            None => !ok,
        },
{
    let mut i: usize = 0;
    while i < attrs.len()
        invariant
            i <= attrs.len(),
            terms_from(attributes_view(attrs@), 0, strings_view(old(terms)@)) == terms_from(
                attributes_view(attrs@),
                i as int,
                strings_view(terms@),
            ),
        decreases attrs.len() - i,
    {
        match &attrs[i] {
            None => {
                return false;
            },
            Some(a) => {
                if bytes_eq(a.key.as_slice(), "term".as_bytes()) {
                    match &a.value {
                        Some(v) => {
                            let ghost before = terms@;
                            terms.push(v.clone());
                            assert(strings_view(terms@) =~= strings_view(before).push(v@));
                        },
                        None => {
                            return false;
                        },
                    }
                }
            },
        }
        i = i + 1;
    }
    true
}

/// Takes one event that is not the end of the document: the next state, with
/// the terms of a `category` element appended, or `None` where the event is
/// refused.
pub fn advance(state: ScanState, event: &XmlEvent, terms: &mut Vec<String>) -> (r: Option<
    ScanState,
>)
    ensures
        match step(state, event@, strings_view(old(terms)@)) {
            Some((next, all)) => r == Some(next) && strings_view(final(terms)@) == all,
            None => r is None,
        },
{
    let root = match event {
        XmlEvent::Start(tag) => tag_matches(tag, "http://www.w3.org/2007/app", "categories"),
        XmlEvent::Empty(tag) => tag_matches(tag, "http://www.w3.org/2007/app", "categories"),
        _ => false,
    };
    if root {
        return match (event, state) {
            (XmlEvent::Start(_), ScanState::BeforeRoot) => Some(ScanState::InRoot),
            _ => None,
        };
    }
    match state {
        ScanState::BeforeRoot => Some(ScanState::BeforeRoot),
        ScanState::InRoot => match event {
            XmlEvent::Empty(tag) => if tag_matches(tag, "http://www.w3.org/2005/Atom", "category") {
                let attrs = read_attributes(tag.content.as_slice(), tag.name.len());
                if collect_terms(&attrs, terms) {
                    Some(ScanState::InRoot)
                } else {
                    None
                }
            } else {
                Some(ScanState::InRoot)
            },
            XmlEvent::End(tag) => if tag_matches(tag, "http://www.w3.org/2007/app", "categories") {
                Some(ScanState::Done)
            } else {
                Some(ScanState::InRoot)
            },
            _ => Some(ScanState::InRoot),
        },
        ScanState::Done => Some(ScanState::Done),
    }
}

/// The category terms of a list of events, in order.
pub fn categories_from_events(events: &Vec<Option<XmlEvent>>) -> (r: Result<
    Vec<String>,
    ParseCategoryError,
>)
    ensures
        is_scan_result(r, categories_of(events_view(events@))),
{
    let mut state = ScanState::BeforeRoot;
    let mut terms: Vec<String> = Vec::new();
    let mut i: usize = 0;
    assert(events_view(events@).skip(0) =~= events_view(events@));
    assert(strings_view(terms@) =~= Seq::<Seq<char>>::empty());
    while i < events.len()
        invariant
            i <= events.len(),
            categories_of(events_view(events@)) == scan(
                events_view(events@).skip(i as int),
                state,
                strings_view(terms@),
            ),
        decreases events.len() - i,
    {
        assert(events_view(events@).skip(i as int).drop_first() =~= events_view(events@).skip(
            i + 1,
        ));
        assert(events_view(events@).skip(i as int)[0] == reading_view(events@[i as int]));
        match &events[i] {
            None => {
                return Err(ParseCategoryError);
            },
            Some(XmlEvent::Eof) => {
                return match state {
                    ScanState::Done => Ok(terms),
                    _ => Err(ParseCategoryError),
                };
            },
            Some(event) => {
                match advance(state, event, &mut terms) {
                    Some(next) => {
                        state = next;
                    },
                    None => {
                        return Err(ParseCategoryError);
                    },
                }
            },
        }
        i = i + 1;
    }
    Err(ParseCategoryError)
}

/// The category terms of a category document, in document order.
pub fn from_category_document_xml(xml: &str) -> (r: Result<Vec<String>, ParseCategoryError>)
    ensures
        is_scan_result(r, categories_of(document_events(xml@))),
{
    let mut scanner = open_scanner(xml);
    let mut state = ScanState::BeforeRoot;
    let mut terms: Vec<String> = Vec::new();
    assert(strings_view(terms@) =~= Seq::<Seq<char>>::empty());
    loop
        invariant
            categories_of(document_events(xml@)) == scan(
                pending_events(scanner),
                state,
                strings_view(terms@),
            ),
        decreases pending_events(scanner).len(),
    {
        match next_event(&mut scanner) {
            None => {
                return Err(ParseCategoryError);
            },
            Some(XmlEvent::Eof) => {
                return match state {
                    ScanState::Done => Ok(terms),
                    _ => Err(ParseCategoryError),
                };
            },
            Some(event) => {
                match advance(state, &event, &mut terms) {
                    Some(next) => {
                        state = next;
                    },
                    None => {
                        return Err(ParseCategoryError);
                    },
                }
            },
        }
    }
}

} // verus!
