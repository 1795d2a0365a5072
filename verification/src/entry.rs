//! A blog entry, and the rules that make one from the fields of an Atom entry.

use vstd::prelude::*;
use crate::atom::{
    entry_extensions, entry_fields, entry_nested_extensions, entry_times, feed_len,
    leaves_view, links_view, nodes_view, read_entry_fields, read_entry_times, read_extensions,
    read_nested_extensions, AtomLink, AtomLinkView, EntryFields, EntryFieldsView, EntryTimes,
    ExtensionLeaf, ExtensionLeafView, ExtensionNode, ExtensionNodeView,
};
use crate::datetime::{parse_date_time, parsed_date_time, FixedDateTime};
use crate::entry_id::EntryId;
use crate::text::{first_match, last_path_segment, last_segment, option_view, str_eq, strings_view};

verus! {

/// A blog entry as the host returns it.
#[derive(Debug, Eq, PartialEq)]
pub struct Entry {
    pub author_name: String,
    pub categories: Vec<String>,
    pub content: String,
    pub draft: bool,
    pub edit_url: String,
    pub edited: FixedDateTime,
    pub id: EntryId,
    pub published: FixedDateTime,
    pub title: String,
    pub updated: FixedDateTime,
    pub url: String,
}

/// The mathematical value of an `Entry`.
pub struct EntryView {
    pub author_name: Seq<char>,
    pub categories: Seq<Seq<char>>,
    pub content: Seq<char>,
    pub draft: bool,
    pub edit_url: Seq<char>,
    pub edited: FixedDateTime,
    pub id: Seq<char>,
    pub published: FixedDateTime,
    pub title: Seq<char>,
    pub updated: FixedDateTime,
    pub url: Seq<char>,
}

impl View for Entry {
    type V = EntryView;

    open spec fn view(&self) -> EntryView {
        EntryView {
            author_name: self.author_name@,
            categories: strings_view(self.categories@),
            content: self.content@,
            draft: self.draft,
            edit_url: self.edit_url@,
            edited: self.edited,
            id: self.id@,
            published: self.published,
            title: self.title@,
            updated: self.updated,
            url: self.url@,
        }
    }
}

/// The error of reading an entry or a feed: some required part is missing or
/// malformed.
#[derive(Clone, Copy, Debug, PartialEq, Eq, Structural)]
pub struct ParseEntry;

/// All that the entry rules read of one Atom entry.
#[derive(Debug)]
pub struct EntrySource {
    pub fields: EntryFields,
    pub times: EntryTimes,
    /// The extension elements under the prefix `app` and the name `edited`.
    pub edited: Vec<ExtensionLeaf>,
    /// Those under `app` and `control`, each with its children named `draft`.
    pub control: Vec<ExtensionNode>,
}

/// The mathematical value of an `EntrySource`.
pub struct EntrySourceView {
    pub fields: EntryFieldsView,
    pub times: EntryTimes,
    pub edited: Seq<ExtensionLeafView>,
    pub control: Seq<ExtensionNodeView>,
}

impl View for EntrySource {
    type V = EntrySourceView;

    open spec fn view(&self) -> EntrySourceView {
        EntrySourceView {
            fields: self.fields@,
            times: self.times,
            edited: leaves_view(self.edited@),
            control: nodes_view(self.control@),
        }
    }
}

/// The `rel` of each link, in order.
pub open spec fn link_rels(links: Seq<AtomLinkView>) -> Seq<Seq<char>> {
    Seq::new(links.len(), |i: int| links[i].rel)
}

/// The qualified name of each element, in order.
pub open spec fn leaf_names(leaves: Seq<ExtensionLeafView>) -> Seq<Seq<char>> {
    Seq::new(leaves.len(), |i: int| leaves[i].name)
}

/// The qualified name of each element, in order.
pub open spec fn node_names(nodes: Seq<ExtensionNodeView>) -> Seq<Seq<char>> {
    Seq::new(nodes.len(), |i: int| nodes[i].name)
}

/// The text of a content element that is there and has one.
pub open spec fn content_text(content: Option<Option<Seq<char>>>) -> Option<Seq<char>> {
    match content {
        Some(Some(text)) => Some(text),
        _ => None,
    }
}

/// The `href` of the first link with the given `rel`.
pub open spec fn link_href(links: Seq<AtomLinkView>, rel: Seq<char>) -> Option<Seq<char>> {
    let i = first_match(link_rels(links), rel, 0);
    if i < links.len() {
        Some(links[i].href)
    } else {
        None
    }
}

/// The text of the first element with the given qualified name.
pub open spec fn leaf_value(leaves: Seq<ExtensionLeafView>, name: Seq<char>) -> Option<Seq<char>> {
    let i = first_match(leaf_names(leaves), name, 0);
    if i < leaves.len() {
        leaves[i].value
    } else {
        None
    }
}

/// The text at the path `app:control` / `app:draft`.
pub open spec fn draft_value(control: Seq<ExtensionNodeView>) -> Option<Seq<char>> {
    let i = first_match(node_names(control), "app:control"@, 0);
    if i < control.len() {
        leaf_value(control[i].children, "app:draft"@)
    } else {
        None
    }
}

/// The time that the text of `app:edited` stands for.
pub open spec fn edited_time(edited: Seq<ExtensionLeafView>) -> Option<FixedDateTime> {
    match leaf_value(edited, "app:edited"@) {
        Some(text) => parsed_date_time(text),
        None => None,
    }
}

/// The identifier's text: the last path segment of the `edit` link.
pub open spec fn id_text(links: Seq<AtomLinkView>) -> Option<Seq<char>> {
    match link_href(links, "edit"@) {
        Some(href) => if last_segment(href).len() > 0 {
            Some(last_segment(href))
        } else {
            None
        },
        None => None,
    }
}

/// Whether the source has every part that an entry requires.
pub open spec fn entry_complete(s: EntrySourceView) -> bool {
    &&& s.fields.authors.len() > 0
    &&& content_text(s.fields.content) is Some
    &&& edited_time(s.edited) is Some
    &&& id_text(s.fields.links) is Some
    &&& s.times.published is Some
    &&& link_href(s.fields.links, "alternate"@) is Some
}

/// The entry that the rules make of a source; `None` where a required part
/// is missing or malformed.
pub open spec fn entry_of(s: EntrySourceView) -> Option<EntryView> {
    if entry_complete(s) {
        Some(
            EntryView {
                author_name: s.fields.authors[0],
                categories: s.fields.categories,
                content: content_text(s.fields.content)->0,
                draft: draft_value(s.control) == Some("yes"@),
                edit_url: link_href(s.fields.links, "edit"@)->0,
                edited: edited_time(s.edited)->0,
                id: id_text(s.fields.links)->0,
                published: s.times.published->0,
                title: s.fields.title,
                updated: s.times.updated,
                url: link_href(s.fields.links, "alternate"@)->0,
            },
        )
    } else {
        None
    }
}

/// Whether `r` is the entry of the source, or the failure to make one.
pub open spec fn is_entry_of(r: Result<Entry, ParseEntry>, s: EntrySourceView) -> bool {
    match entry_of(s) {
        Some(v) => r is Ok && r->Ok_0@ == v,
        None => r is Err,
    }
}

/// The source of the Atom entry at an index of a feed: its fields, its times
/// and the two extension lookups that the rules need.
pub open spec fn entry_source(feed: atom_syndication::Feed, i: int) -> EntrySourceView {
    EntrySourceView {
        fields: entry_fields(feed, i),
        times: entry_times(feed, i),
        edited: entry_extensions(feed, i, "app"@, "edited"@),
        control: entry_nested_extensions(feed, i, "app"@, "control"@, "draft"@),
    }
}

/// The index of the first link with the given `rel`.
pub fn find_link(links: &Vec<AtomLink>, rel: &str) -> (r: Option<usize>)
    ensures
        match r {
            Some(i) => i < links.len() && i == first_match(link_rels(links_view(links@)), rel@, 0),
            None => first_match(link_rels(links_view(links@)), rel@, 0) == links.len(),
        },
{
    let mut i: usize = 0;
    while i < links.len()
        invariant
            i <= links.len(),
            first_match(link_rels(links_view(links@)), rel@, 0) == first_match(
                link_rels(links_view(links@)),
                rel@,
                i as int,
            ),
        decreases links.len() - i,
    {
        if str_eq(links[i].rel.as_str(), rel) {
            return Some(i);
        }
        i = i + 1;
    }
    None
}

/// The index of the first element with the given qualified name.
pub fn find_leaf(leaves: &Vec<ExtensionLeaf>, name: &str) -> (r: Option<usize>)
    ensures
        match r {
            Some(i) => i < leaves.len() && i == first_match(leaf_names(leaves_view(leaves@)), name@, 0),
            None => first_match(leaf_names(leaves_view(leaves@)), name@, 0) == leaves.len(),
        },
{
    let mut i: usize = 0;
    while i < leaves.len()
        invariant
            i <= leaves.len(),
            first_match(leaf_names(leaves_view(leaves@)), name@, 0) == first_match(
                leaf_names(leaves_view(leaves@)),
                name@,
                i as int,
            ),
        decreases leaves.len() - i,
    {
        if str_eq(leaves[i].name.as_str(), name) {
            return Some(i);
        }
        i = i + 1;
    }
    None
}

/// The index of the first element with the given qualified name.
pub fn find_node(nodes: &Vec<ExtensionNode>, name: &str) -> (r: Option<usize>)
    ensures
        match r {
            Some(i) => i < nodes.len() && i == first_match(node_names(nodes_view(nodes@)), name@, 0),
            None => first_match(node_names(nodes_view(nodes@)), name@, 0) == nodes.len(),
        },
{
    let mut i: usize = 0;
    while i < nodes.len()
        invariant
            i <= nodes.len(),
            first_match(node_names(nodes_view(nodes@)), name@, 0) == first_match(
                node_names(nodes_view(nodes@)),
                name@,
                i as int,
            ),
        decreases nodes.len() - i,
    {
        if str_eq(nodes[i].name.as_str(), name) {
            return Some(i);
        }
        i = i + 1;
    }
    None
}

/// The text of the first element with the given qualified name.
pub fn get_leaf_value(leaves: &Vec<ExtensionLeaf>, name: &str) -> (r: Option<String>)
    ensures
        option_view(r) == leaf_value(leaves_view(leaves@), name@),
{
    match find_leaf(leaves, name) {
        Some(i) => leaves[i].value.clone(),
        None => None,
    }
}

/// Whether the text at `app:control` / `app:draft` is `yes`.
pub fn get_draft(control: &Vec<ExtensionNode>) -> (r: bool)
    ensures
        r == (draft_value(nodes_view(control@)) == Some("yes"@)),
{
    match find_node(control, "app:control") {
        Some(i) => match get_leaf_value(&control[i].children, "app:draft") {
            Some(text) => str_eq(text.as_str(), "yes"),
            None => false,
        },
        None => false,
    }
}

/// The time in `app:edited`.
pub fn get_edited(edited: &Vec<ExtensionLeaf>) -> (r: Option<FixedDateTime>)
    ensures
        r == edited_time(leaves_view(edited@)),
{
    match get_leaf_value(edited, "app:edited") {
        Some(text) => parse_date_time(text.as_str()),
        None => None,
    }
}

/// The `href` of the first link with the given `rel`.
pub fn get_link_href(links: &Vec<AtomLink>, rel: &str) -> (r: Option<String>)
    ensures
        option_view(r) == link_href(links_view(links@), rel@),
{
    match find_link(links, rel) {
        Some(i) => Some(links[i].href.clone()),
        None => None,
    }
}

/// The URL of the `edit` link.
pub fn get_edit_url(links: &Vec<AtomLink>) -> (r: Option<String>)
    ensures
        option_view(r) == link_href(links_view(links@), "edit"@),
{
    get_link_href(links, "edit")
}

/// The URL of the `alternate` link.
pub fn get_url(links: &Vec<AtomLink>) -> (r: Option<String>)
    ensures
        option_view(r) == link_href(links_view(links@), "alternate"@),
{
    get_link_href(links, "alternate")
}

/// The identifier in the last path segment of the `edit` link.
pub fn get_id(links: &Vec<AtomLink>) -> (r: Option<EntryId>)
    ensures
        match r {
            Some(id) => Some(id@) == id_text(links_view(links@)),
            None => id_text(links_view(links@)) is None,
        },
{
    match get_link_href(links, "edit") {
        Some(href) => {
            let segment = last_path_segment(href.as_str());
            match EntryId::parse(segment.as_str()) {
                Ok(id) => Some(id),
                Err(_) => None,
            }
        },
        None => None,
    }
}

/// Makes the entry of a source, or fails where a required part is missing.
pub fn assemble_entry(source: EntrySource) -> (r: Result<Entry, ParseEntry>)
    ensures
        is_entry_of(r, source@),
{
    let EntrySource { fields, times, edited, control } = source;
    let EntryFields { authors, categories, content, links, title } = fields;
    if authors.len() == 0 {
        return Err(ParseEntry);
    }
    let author_name = authors[0].clone();
    let content = match content {
        Some(Some(c)) => c,
        _ => {
            return Err(ParseEntry);
        },
    };
    let draft = get_draft(&control);
    let edited = match get_edited(&edited) {
        Some(t) => t,
        None => {
            return Err(ParseEntry);
        },
    };
    let edit_url = match get_edit_url(&links) {
        Some(u) => u,
        None => {
            return Err(ParseEntry);
        },
    };
    let id = match get_id(&links) {
        Some(id) => id,
        None => {
            return Err(ParseEntry);
        },
    };
    let published = match times.published {
        Some(t) => t,
        None => {
            return Err(ParseEntry);
        },
    };
    let url = match get_url(&links) {
        Some(u) => u,
        None => {
            return Err(ParseEntry);
        },
    };
    Ok(
        Entry {
            author_name,
            categories,
            content,
            draft,
            edit_url,
            edited,
            id,
            published,
            title,
            updated: times.updated,
            url,
        },
    )
}

/// Reads from the Atom entry at an index all that the entry rules need.
pub fn read_entry_source(feed: &atom_syndication::Feed, i: usize) -> (r: EntrySource)
    requires
        i < feed_len(*feed),
    ensures
        r@ == entry_source(*feed, i as int),
{
    EntrySource {
        fields: read_entry_fields(feed, i),
        times: read_entry_times(feed, i),
        edited: read_extensions(feed, i, "app", "edited"),
        control: read_nested_extensions(feed, i, "app", "control", "draft"),
    }
}

/// The blog entry of the Atom entry at an index of a feed.
pub fn to_entry(feed: &atom_syndication::Feed, i: usize) -> (r: Result<Entry, ParseEntry>)
    requires
        i < feed_len(*feed),
    ensures
        is_entry_of(r, entry_source(*feed, i as int)),
{
    assemble_entry(read_entry_source(feed, i))
}

} // verus!
