//! The Atom documents of the blog host, read with `atom_syndication`, and the
//! plain values that the entry rules work on.

use vstd::prelude::*;
use crate::datetime::FixedDateTime;
use crate::text::strings_view;

verus! {

/// `atom_syndication::Feed`, a parsed feed document. Its contents are
/// reached through the functions below.
#[verifier::external_type_specification]
#[verifier::external_body]
pub struct ExFeed(atom_syndication::Feed);

/// A link of a feed or of an entry.
#[derive(Debug)]
pub struct AtomLink {
    pub rel: String,
    pub href: String,
}

/// An extension element without children: its qualified name and its text.
#[derive(Debug)]
pub struct ExtensionLeaf {
    pub name: String,
    pub value: Option<String>,
}

/// An extension element with the children that it holds under one local name.
#[derive(Debug)]
pub struct ExtensionNode {
    pub name: String,
    pub children: Vec<ExtensionLeaf>,
}

/// The standard Atom fields of an entry that the entry rules read.
#[derive(Debug)]
pub struct EntryFields {
    pub authors: Vec<String>,
    pub categories: Vec<String>,
    /// The text of the content element: `None` where the entry has no such
    /// element, `Some(None)` where the element has no text.
    pub content: Option<Option<String>>,
    pub links: Vec<AtomLink>,
    pub title: String,
}

/// The `updated` time of an entry and its `published` time, if it has one.
#[derive(Debug)]
pub struct EntryTimes {
    pub updated: FixedDateTime,
    pub published: Option<FixedDateTime>,
}

/// The mathematical value of an `AtomLink`.
pub struct AtomLinkView {
    pub rel: Seq<char>,
    pub href: Seq<char>,
}

impl View for AtomLink {
    type V = AtomLinkView;

    open spec fn view(&self) -> AtomLinkView {
        AtomLinkView { rel: self.rel@, href: self.href@ }
    }
}

/// The values of a list of links, in order.
pub open spec fn links_view(links: Seq<AtomLink>) -> Seq<AtomLinkView> {
    Seq::new(links.len(), |i: int| links[i]@)
}

/// The mathematical value of an `ExtensionLeaf`.
pub struct ExtensionLeafView {
    pub name: Seq<char>,
    pub value: Option<Seq<char>>,
}

impl View for ExtensionLeaf {
    type V = ExtensionLeafView;

    open spec fn view(&self) -> ExtensionLeafView {
        ExtensionLeafView {
            name: self.name@,
            value: match self.value {
                Some(v) => Some(v@),
                None => None,
            },
        }
    }
}

/// The values of a list of extension elements, in order.
pub open spec fn leaves_view(leaves: Seq<ExtensionLeaf>) -> Seq<ExtensionLeafView> {
    Seq::new(leaves.len(), |i: int| leaves[i]@)
}

/// The mathematical value of an `ExtensionNode`.
pub struct ExtensionNodeView {
    pub name: Seq<char>,
    pub children: Seq<ExtensionLeafView>,
}

impl View for ExtensionNode {
    type V = ExtensionNodeView;

    open spec fn view(&self) -> ExtensionNodeView {
        ExtensionNodeView { name: self.name@, children: leaves_view(self.children@) }
    }
}

/// The values of a list of extension elements with children, in order.
pub open spec fn nodes_view(nodes: Seq<ExtensionNode>) -> Seq<ExtensionNodeView> {
    Seq::new(nodes.len(), |i: int| nodes[i]@)
}

/// The mathematical value of an `EntryFields`.
pub struct EntryFieldsView {
    pub authors: Seq<Seq<char>>,
    pub categories: Seq<Seq<char>>,
    pub content: Option<Option<Seq<char>>>,
    pub links: Seq<AtomLinkView>,
    pub title: Seq<char>,
}

impl View for EntryFields {
    type V = EntryFieldsView;

    open spec fn view(&self) -> EntryFieldsView {
        EntryFieldsView {
            authors: strings_view(self.authors@),
            categories: strings_view(self.categories@),
            content: match self.content {
                Some(Some(text)) => Some(Some(text@)),
                Some(None) => Some(None),
                None => None,
            },
            links: links_view(self.links@),
            title: self.title@,
        }
    }
}

/// The feed that `atom_syndication` reads from a document; `None` where it
/// rejects the document.
pub uninterp spec fn atom_feed(xml: Seq<char>) -> Option<atom_syndication::Feed>;

/// The links of a feed, in document order.
pub uninterp spec fn feed_links(feed: atom_syndication::Feed) -> Seq<AtomLinkView>;

/// The number of entries of a feed.
pub uninterp spec fn feed_len(feed: atom_syndication::Feed) -> nat;

/// The standard fields of the entry at an index of a feed.
pub uninterp spec fn entry_fields(feed: atom_syndication::Feed, i: int) -> EntryFieldsView;

/// The times of the entry at an index of a feed.
pub uninterp spec fn entry_times(feed: atom_syndication::Feed, i: int) -> EntryTimes;

/// The extension elements that the entry at an index holds under a namespace
/// prefix and a local name, in document order; empty where it holds none.
pub uninterp spec fn entry_extensions(
    feed: atom_syndication::Feed,
    i: int,
    prefix: Seq<char>,
    local: Seq<char>,
) -> Seq<ExtensionLeafView>;

/// The same elements, each with the children that it holds under `child`.
pub uninterp spec fn entry_nested_extensions(
    feed: atom_syndication::Feed,
    i: int,
    prefix: Seq<char>,
    local: Seq<char>,
    child: Seq<char>,
) -> Seq<ExtensionNodeView>;

/// Calls `atom_syndication::Feed::from_str`, which reads a whole feed
/// document. The parser's result is only named, as `atom_feed`.
#[verifier::external_body]
pub(crate) fn parse_feed(xml: &str) -> (r: Option<atom_syndication::Feed>)
    ensures
        r == atom_feed(xml@),
{
    xml.parse::<atom_syndication::Feed>().ok()
}

/// Copies `rel` and `href` of each link in the feed's public field `links`.
#[verifier::external_body]
pub(crate) fn read_feed_links(feed: &atom_syndication::Feed) -> (r: Vec<AtomLink>)
    ensures
        links_view(r@) == feed_links(*feed),
{
    feed.links.iter().map(|l| AtomLink { rel: l.rel.clone(), href: l.href.clone() }).collect()
}

/// The length of the feed's public field `entries`.
#[verifier::external_body]
pub(crate) fn feed_entry_count(feed: &atom_syndication::Feed) -> (r: usize)
    ensures
        r == feed_len(*feed),
{
    feed.entries.len()
}

/// Copies from the public fields of the entry at an index the authors' names, the categories'
/// terms, the content's text, the links and the title's text.
#[verifier::external_body]
pub(crate) fn read_entry_fields(feed: &atom_syndication::Feed, i: usize) -> (r: EntryFields)
    requires
        i < feed_len(*feed),
    ensures
        r@ == entry_fields(*feed, i as int),
{
    let entry = &feed.entries[i];
    EntryFields {
        authors: entry.authors.iter().map(|p| p.name.clone()).collect(),
        categories: entry.categories.iter().map(|c| c.term.clone()).collect(),
        content: entry.content.as_ref().map(|c| c.value.clone()),
        links: entry.links.iter().map(
            |l| AtomLink { rel: l.rel.clone(), href: l.href.clone() },
        ).collect(),
        title: entry.title.value.clone(),
    }
}

/// Reads the fields `updated` and `published` of the entry at an index through chrono's
/// `timestamp`, `timestamp_subsec_nanos` and `offset`.
#[verifier::external_body]
pub(crate) fn read_entry_times(feed: &atom_syndication::Feed, i: usize) -> (r: EntryTimes)
    requires
        i < feed_len(*feed),
    ensures
        r == entry_times(*feed, i as int),
{
    let entry = &feed.entries[i];
    let plain = |t: &atom_syndication::FixedDateTime| FixedDateTime {
        timestamp: t.timestamp(),
        nanos: t.timestamp_subsec_nanos(),
        offset: t.offset().local_minus_utc(),
    };
    EntryTimes { updated: plain(&entry.updated), published: entry.published.as_ref().map(plain) }
}

/// Looks up the field `extensions` of the entry at an index by prefix and local name and
/// copies the name and the text of each element found.
#[verifier::external_body]
pub(crate) fn read_extensions(
    feed: &atom_syndication::Feed,
    i: usize,
    prefix: &str,
    local: &str,
) -> (r: Vec<ExtensionLeaf>)
    requires
        i < feed_len(*feed),
    ensures
        leaves_view(r@) == entry_extensions(*feed, i as int, prefix@, local@),
{
    feed.entries[i].extensions.get(prefix).and_then(|m| m.get(local)).into_iter().flatten().map(
        |x| ExtensionLeaf { name: x.name.clone(), value: x.value.clone() },
    ).collect()
}

/// The same lookup, with for each element found the name and the text of the
/// children that its public field `children` holds under `child`.
#[verifier::external_body]
pub(crate) fn read_nested_extensions(
    feed: &atom_syndication::Feed,
    i: usize,
    prefix: &str,
    local: &str,
    child: &str,
) -> (r: Vec<ExtensionNode>)
    requires
        i < feed_len(*feed),
    ensures
        nodes_view(r@) == entry_nested_extensions(*feed, i as int, prefix@, local@, child@),
{
    feed.entries[i].extensions.get(prefix).and_then(|m| m.get(local)).into_iter().flatten().map(
        |x| ExtensionNode {
            name: x.name.clone(),
            children: x.children.get(child).into_iter().flatten().map(
                |y| ExtensionLeaf { name: y.name.clone(), value: y.value.clone() },
            ).collect(),
        },
    ).collect()
}

} // verus!
