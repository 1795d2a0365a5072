//! The bodies that the blog host answers with, each under the type of the
//! document that it holds, and their conversion into entries and lists.

use vstd::prelude::*;
use vstd::string::*;
use crate::atom::{
    atom_feed, feed_entry_count, feed_len, feed_links, links_view, parse_feed, read_feed_links,
    AtomLink, AtomLinkView,
};
use crate::category::{categories_of, from_category_document_xml, ParseCategoryError};
use crate::entry::{
    entry_of, entry_source, get_link_href, is_entry_of, link_href, to_entry, Entry, ParseEntry,
};
use crate::entry_id::EntryId;
use crate::text::{option_view, strings_view, strip_prefix};
use crate::url::{get_url_parameter, url_parameter};
use crate::xml::document_events;

verus! {

/// The answer to the creation of an entry: the entry as the host keeps it.
pub type CreateEntryResponse = MemberResponse;

/// The answer to the deletion of an entry.
pub type DeleteEntryResponse = EmptyResponse;

/// The answer to the request for one entry.
pub type GetEntryResponse = MemberResponse;

/// The answer to the request for a blog's categories.
pub type ListCategoriesResponse = CategoryDocumentResponse;

/// The answer to the request for a page of entries.
pub type ListEntriesResponse = CollectionResponse;

/// The answer to the update of an entry: the entry as the host keeps it.
pub type UpdateEntryResponse = MemberResponse;

/// A page of entry identifiers with the cursor of the next page, if any.
pub type PartialList = (Option<String>, Vec<EntryId>);

/// The XML declaration that an entry document may start with.
pub open spec fn xml_declaration() -> Seq<char> {
    "<?xml version=\"1.0\" encoding=\"utf-8\"?>"@
}

/// An entry document without its declaration, inside a `feed` element.
pub open spec fn wrapped_entry(body: Seq<char>) -> Seq<char> {
    if xml_declaration().is_prefix_of(body) {
        "<feed>"@ + body.skip(xml_declaration().len() as int) + "</feed>"@
    } else {
        "<feed>"@ + body + "</feed>"@
    }
}

/// The cursor of the next page: the `page` parameter of the `next` link.
pub open spec fn next_page(links: Seq<AtomLinkView>) -> Option<Seq<char>> {
    match link_href(links, "next"@) {
        Some(href) => url_parameter(href, "page"@),
        None => None,
    }
}

/// Whether every entry of the feed has all that an entry requires.
pub open spec fn feed_complete(feed: atom_syndication::Feed) -> bool {
    forall|i: int| 0 <= i < feed_len(feed) ==> entry_of(#[trigger] entry_source(feed, i)) is Some
}

/// Whether the entries are those of the feed, in order.
pub open spec fn entries_match(entries: Seq<Entry>, feed: atom_syndication::Feed) -> bool {
    &&& entries.len() == feed_len(feed)
    &&& forall|i: int|
        0 <= i < entries.len() ==> Some((#[trigger] entries[i])@) == entry_of(
            entry_source(feed, i),
        )
}

/// Whether the identifiers are those of the feed's entries, in order.
pub open spec fn ids_match(ids: Seq<EntryId>, feed: atom_syndication::Feed) -> bool {
    &&& ids.len() == feed_len(feed)
    &&& forall|i: int|
        0 <= i < ids.len() ==> {
            &&& entry_of(entry_source(feed, i)) is Some
            &&& (#[trigger] ids[i])@ == entry_of(entry_source(feed, i))->0.id
        }
}

/// Whether `r` is the first entry of the feed, or the failure to make one.
pub open spec fn is_first_entry(r: Result<Entry, ParseEntry>, feed: atom_syndication::Feed) -> bool {
    if feed_len(feed) > 0 {
        is_entry_of(r, entry_source(feed, 0))
    } else {
        r is Err
    }
}

/// Reads an entry document as a feed of that one entry.
pub fn from_entry_xml(body: &str) -> (r: Result<atom_syndication::Feed, ParseEntry>)
    ensures
        match atom_feed(wrapped_entry(body@)) {
            Some(feed) => r == Ok::<atom_syndication::Feed, ParseEntry>(feed),
            None => r is Err,
        },
{
    let rest = match strip_prefix(body, "<?xml version=\"1.0\" encoding=\"utf-8\"?>") {
        Some(rest) => rest,
        None => body,
    };
    let mut xml = String::from_str("<feed>");
    xml.append(rest);
    xml.append("</feed>");
    match parse_feed(xml.as_str()) {
        Some(feed) => Ok(feed),
        None => Err(ParseEntry),
    }
}

/// Reads a feed document.
pub fn from_feed_xml(body: &str) -> (r: Result<atom_syndication::Feed, ParseEntry>)
    ensures
        match atom_feed(body@) {
            Some(feed) => r == Ok::<atom_syndication::Feed, ParseEntry>(feed),
            None => r is Err,
        },
{
    match parse_feed(body) {
        Some(feed) => Ok(feed),
        None => Err(ParseEntry),
    }
}

/// The first entry of a feed; fails where the feed has none.
pub fn first_entry(feed: &atom_syndication::Feed) -> (r: Result<Entry, ParseEntry>)
    ensures
        is_first_entry(r, *feed),
{
    if feed_entry_count(feed) == 0 {
        return Err(ParseEntry);
    }
    to_entry(feed, 0)
}

/// The cursor of the page after this feed.
pub fn get_next_page(links: &Vec<AtomLink>) -> (r: Option<String>)
    ensures
        option_view(r) == next_page(links_view(links@)),
{
    match get_link_href(links, "next") {
        Some(href) => get_url_parameter(href.as_str(), "page"),
        None => None,
    }
}

/// The entries of a feed with the cursor of the next page; fails at the first
/// entry that cannot be made.
pub fn partial_list(feed: &atom_syndication::Feed) -> (r: Result<
    (Option<String>, Vec<Entry>),
    ParseEntry,
>)
    ensures
        r is Ok <==> feed_complete(*feed),
        r matches Ok(list) ==> option_view(list.0) == next_page(feed_links(*feed))
            && entries_match(list.1@, *feed),
{
    let links = read_feed_links(feed);
    let cursor = get_next_page(&links);
    let n = feed_entry_count(feed);
    let mut entries: Vec<Entry> = Vec::new();
    let mut i: usize = 0;
    while i < n
        invariant
            i <= n,
            n == feed_len(*feed),
            entries@.len() == i,
            forall|j: int| 0 <= j < i ==> entry_of(#[trigger] entry_source(*feed, j)) is Some,
            forall|j: int|
                0 <= j < i ==> Some((#[trigger] entries@[j])@) == entry_of(
                    entry_source(*feed, j),
                ),
        decreases n - i,
    {
        match to_entry(feed, i) {
            Ok(e) => {
                entries.push(e);
            },
            Err(_) => {
                assert(entry_of(entry_source(*feed, i as int)) is None);
                return Err(ParseEntry);
            },
        }
        i = i + 1;
    }
    Ok((cursor, entries))
}

/// The identifiers of the entries, in order.
pub fn entry_ids(entries: &Vec<Entry>) -> (r: Vec<EntryId>)
    ensures
        r@.len() == entries@.len(),
        forall|i: int| 0 <= i < r@.len() ==> (#[trigger] r@[i])@ == entries@[i].id@,
{
    let mut ids: Vec<EntryId> = Vec::new();
    let mut i: usize = 0;
    while i < entries.len()
        invariant
            i <= entries.len(),
            ids@.len() == i,
            forall|j: int| 0 <= j < i ==> (#[trigger] ids@[j])@ == entries@[j].id@,
        decreases entries.len() - i,
    {
        ids.push(entries[i].id.clone());
        i = i + 1;
    }
    ids
}

/// The two projections of one feed agree: the identifiers of the short list
/// are those of the entries of the full list, in the same order.
pub proof fn lemma_ids_of_entries(
    feed: atom_syndication::Feed,
    entries: Seq<Entry>,
    ids: Seq<EntryId>,
)
    requires
        entries_match(entries, feed),
        ids_match(ids, feed),
    ensures
        ids.len() == entries.len(),
        forall|i: int| 0 <= i < ids.len() ==> (#[trigger] ids[i])@ == entries[i]@.id,
{
}

/// The body of an answer that holds one entry.
#[derive(Clone, Debug, Eq, PartialEq)]
pub struct MemberResponse {
    body: String,
}

impl View for MemberResponse {
    type V = Seq<char>;

    closed spec fn view(&self) -> Seq<char> {
        self.body@
    }
}

impl MemberResponse {
    /// Holds the body as it is.
    pub fn new(body: String) -> (r: Self)
        ensures
            r@ == body@,
    {
        MemberResponse { body }
    }

    /// The body.
    pub fn to_string(&self) -> (r: String)
        ensures
            r@ == self@,
    {
        self.body.clone()
    }

    /// The body.
    pub fn into_string(self) -> (r: String)
        ensures
            r@ == self@,
    {
        self.body
    }

    /// The entry that the body holds.
    pub fn to_entry(&self) -> (r: Result<Entry, ParseEntry>)
        ensures
            match atom_feed(wrapped_entry(self@)) {
                Some(feed) => is_first_entry(r, feed),
                None => r is Err,
            },
    {
        match from_entry_xml(self.body.as_str()) {
            Ok(feed) => first_entry(&feed),
            Err(_) => Err(ParseEntry),
        }
    }
}

impl From<String> for MemberResponse {
    fn from(body: String) -> (r: Self)
        ensures
            r@ == body@,
    {
        MemberResponse { body }
    }
}

impl vstd::std_specs::convert::FromSpecImpl<String> for MemberResponse {
    open spec fn obeys_from_spec() -> bool {
        true
    }

    closed spec fn from_spec(body: String) -> Self {
        MemberResponse { body }
    }
}

impl From<MemberResponse> for String {
    fn from(response: MemberResponse) -> (r: String)
        ensures
            r@ == response@,
    {
        response.body
    }
}

impl vstd::std_specs::convert::FromSpecImpl<MemberResponse> for String {
    open spec fn obeys_from_spec() -> bool {
        true
    }

    closed spec fn from_spec(response: MemberResponse) -> String {
        response.body
    }
}

impl MemberResponse {
    /// A response made from a body holds that body, and gives it back.
    pub proof fn lemma_from_string(body: String)
        ensures
            <MemberResponse as vstd::std_specs::convert::FromSpec<String>>::from_spec(body)@ == body@,
            <String as vstd::std_specs::convert::FromSpec<MemberResponse>>::from_spec(
                <MemberResponse as vstd::std_specs::convert::FromSpec<String>>::from_spec(body),
            )@ == body@,
    {
    }
}

impl TryFrom<MemberResponse> for Entry {
    type Error = ParseEntry;

    fn try_from(response: MemberResponse) -> (r: Result<Self, Self::Error>)
        ensures
            match atom_feed(wrapped_entry(response@)) {
                Some(feed) => is_first_entry(r, feed),
                None => r is Err,
            },
    {
        response.to_entry()
    }
}

/// What the conversion gives is stated on `try_from` itself.
impl vstd::std_specs::convert::TryFromSpecImpl<MemberResponse> for Entry {
    open spec fn obeys_try_from_spec() -> bool {
        false
    }

    open spec fn try_from_spec(response: MemberResponse) -> Result<Self, Self::Error> {
        Err(ParseEntry)
    }
}

/// The answer to a request that returns nothing.
#[derive(Clone, Copy, Debug, Eq, PartialEq, Structural)]
pub struct EmptyResponse;

impl EmptyResponse {
    /// The empty string, whatever body the answer was made from.
    pub fn to_string(&self) -> (r: String)
        ensures
            r@.len() == 0,
    {
        String::new()
    }

    /// The empty string, whatever body the answer was made from.
    pub fn into_string(self) -> (r: String)
        ensures
            r@.len() == 0,
    {
        String::new()
    }
}

impl From<String> for EmptyResponse {
    fn from(body: String) -> (r: Self) {
        EmptyResponse
    }
}

impl vstd::std_specs::convert::FromSpecImpl<String> for EmptyResponse {
    open spec fn obeys_from_spec() -> bool {
        true
    }

    open spec fn from_spec(body: String) -> Self {
        EmptyResponse
    }
}

impl From<EmptyResponse> for String {
    fn from(response: EmptyResponse) -> (r: String)
        ensures
            r@.len() == 0,
    {
        String::new()
    }
}

/// What the conversion gives is stated on `from` itself.
impl vstd::std_specs::convert::FromSpecImpl<EmptyResponse> for String {
    open spec fn obeys_from_spec() -> bool {
        false
    }

    open spec fn from_spec(response: EmptyResponse) -> String {
        arbitrary()
    }
}

/// The body of an answer that holds a feed of entries.
#[derive(Clone, Debug, Eq, PartialEq)]
pub struct CollectionResponse {
    body: String,
}

impl View for CollectionResponse {
    type V = Seq<char>;

    closed spec fn view(&self) -> Seq<char> {
        self.body@
    }
}

impl CollectionResponse {
    /// Holds the body as it is.
    pub fn new(body: String) -> (r: Self)
        ensures
            r@ == body@,
    {
        CollectionResponse { body }
    }

    /// The body.
    pub fn to_string(&self) -> (r: String)
        ensures
            r@ == self@,
    {
        self.body.clone()
    }

    /// The body.
    pub fn into_string(self) -> (r: String)
        ensures
            r@ == self@,
    {
        self.body
    }

    /// The entries of the feed with the cursor of the next page.
    pub fn to_entries(&self) -> (r: Result<(Option<String>, Vec<Entry>), ParseEntry>)
        ensures
            match atom_feed(self@) {
                Some(feed) => {
                    &&& r is Ok <==> feed_complete(feed)
                    &&& r matches Ok(list) ==> option_view(list.0) == next_page(feed_links(feed))
                        && entries_match(list.1@, feed)
                },
                None => r is Err,
            },
    {
        match from_feed_xml(self.body.as_str()) {
            Ok(feed) => partial_list(&feed),
            Err(_) => Err(ParseEntry),
        }
    }

    /// The identifiers of the feed's entries with the cursor of the next page.
    pub fn to_partial_list(&self) -> (r: Result<PartialList, ParseEntry>)
        ensures
            match atom_feed(self@) {
                Some(feed) => {
                    &&& r is Ok <==> feed_complete(feed)
                    &&& r matches Ok(list) ==> option_view(list.0) == next_page(feed_links(feed))
                        && ids_match(list.1@, feed)
                },
                None => r is Err,
            },
    {
        match self.to_entries() {
            Ok((cursor, entries)) => {
                let ids = entry_ids(&entries);
                Ok((cursor, ids))
            },
            Err(_) => Err(ParseEntry),
        }
    }
}

impl From<String> for CollectionResponse {
    fn from(body: String) -> (r: Self)
        ensures
            r@ == body@,
    {
        CollectionResponse { body }
    }
}

impl vstd::std_specs::convert::FromSpecImpl<String> for CollectionResponse {
    open spec fn obeys_from_spec() -> bool {
        true
    }

    closed spec fn from_spec(body: String) -> Self {
        CollectionResponse { body }
    }
}

impl From<CollectionResponse> for String {
    fn from(response: CollectionResponse) -> (r: String)
        ensures
            r@ == response@,
    {
        response.body
    }
}

impl vstd::std_specs::convert::FromSpecImpl<CollectionResponse> for String {
    open spec fn obeys_from_spec() -> bool {
        true
    }

    closed spec fn from_spec(response: CollectionResponse) -> String {
        response.body
    }
}

impl CollectionResponse {
    /// A response made from a body holds that body, and gives it back.
    pub proof fn lemma_from_string(body: String)
        ensures
            <CollectionResponse as vstd::std_specs::convert::FromSpec<String>>::from_spec(body)@ == body@,
            <String as vstd::std_specs::convert::FromSpec<CollectionResponse>>::from_spec(
                <CollectionResponse as vstd::std_specs::convert::FromSpec<String>>::from_spec(body),
            )@ == body@,
    {
    }
}

impl TryFrom<CollectionResponse> for (Option<String>, Vec<EntryId>) {
    type Error = ParseEntry;

    fn try_from(response: CollectionResponse) -> (r: Result<Self, Self::Error>)
        ensures
            match atom_feed(response@) {
                Some(feed) => {
                    &&& r is Ok <==> feed_complete(feed)
                    &&& r matches Ok(list) ==> option_view(list.0) == next_page(feed_links(feed))
                        && ids_match(list.1@, feed)
                },
                None => r is Err,
            },
    {
        response.to_partial_list()
    }
}

/// What the conversion gives is stated on `try_from` itself.
impl vstd::std_specs::convert::TryFromSpecImpl<CollectionResponse> for (Option<String>, Vec<EntryId>) {
    open spec fn obeys_try_from_spec() -> bool {
        false
    }

    open spec fn try_from_spec(response: CollectionResponse) -> Result<Self, Self::Error> {
        Err(ParseEntry)
    }
}

impl TryFrom<CollectionResponse> for (Option<String>, Vec<Entry>) {
    type Error = ParseEntry;

    fn try_from(response: CollectionResponse) -> (r: Result<Self, Self::Error>)
        ensures
            match atom_feed(response@) {
                Some(feed) => {
                    &&& r is Ok <==> feed_complete(feed)
                    &&& r matches Ok(list) ==> option_view(list.0) == next_page(feed_links(feed))
                        && entries_match(list.1@, feed)
                },
                None => r is Err,
            },
    {
        response.to_entries()
    }
}

/// What the conversion gives is stated on `try_from` itself.
impl vstd::std_specs::convert::TryFromSpecImpl<CollectionResponse> for (Option<String>, Vec<Entry>) {
    open spec fn obeys_try_from_spec() -> bool {
        false
    }

    open spec fn try_from_spec(response: CollectionResponse) -> Result<Self, Self::Error> {
        Err(ParseEntry)
    }
}

/// The body of an answer that holds a category document.
#[derive(Clone, Debug, Eq, PartialEq)]
pub struct CategoryDocumentResponse {
    body: String,
}

impl View for CategoryDocumentResponse {
    type V = Seq<char>;

    closed spec fn view(&self) -> Seq<char> {
        self.body@
    }
}

impl CategoryDocumentResponse {
    /// Holds the body as it is.
    pub fn new(body: String) -> (r: Self)
        ensures
            r@ == body@,
    {
        CategoryDocumentResponse { body }
    }

    /// The body.
    pub fn to_string(&self) -> (r: String)
        ensures
            r@ == self@,
    {
        self.body.clone()
    }

    /// The body.
    pub fn into_string(self) -> (r: String)
        ensures
            r@ == self@,
    {
        self.body
    }

    /// The category terms that the body holds.
    pub fn to_categories(&self) -> (r: Result<Vec<String>, ParseCategoryError>)
        ensures
            match categories_of(document_events(self@)) {
                Some(terms) => r is Ok && strings_view(r->Ok_0@) == terms,
                None => r is Err,
            },
    {
        from_category_document_xml(self.body.as_str())
    }
}

impl From<String> for CategoryDocumentResponse {
    fn from(body: String) -> (r: Self)
        ensures
            r@ == body@,
    {
        CategoryDocumentResponse { body }
    }
}

impl vstd::std_specs::convert::FromSpecImpl<String> for CategoryDocumentResponse {
    open spec fn obeys_from_spec() -> bool {
        true
    }

    closed spec fn from_spec(body: String) -> Self {
        CategoryDocumentResponse { body }
    }
}

impl From<CategoryDocumentResponse> for String {
    fn from(response: CategoryDocumentResponse) -> (r: String)
        ensures
            r@ == response@,
    {
        response.body
    }
}

impl vstd::std_specs::convert::FromSpecImpl<CategoryDocumentResponse> for String {
    open spec fn obeys_from_spec() -> bool {
        true
    }

    closed spec fn from_spec(response: CategoryDocumentResponse) -> String {
        response.body
    }
}

impl CategoryDocumentResponse {
    /// A response made from a body holds that body, and gives it back.
    pub proof fn lemma_from_string(body: String)
        ensures
            <CategoryDocumentResponse as vstd::std_specs::convert::FromSpec<String>>::from_spec(body)@ == body@,
            <String as vstd::std_specs::convert::FromSpec<CategoryDocumentResponse>>::from_spec(
                <CategoryDocumentResponse as vstd::std_specs::convert::FromSpec<String>>::from_spec(body),
            )@ == body@,
    {
    }
}

impl TryFrom<CategoryDocumentResponse> for Vec<String> {
    type Error = ParseCategoryError;

    fn try_from(response: CategoryDocumentResponse) -> (r: Result<Self, Self::Error>)
        ensures
            match categories_of(document_events(response@)) {
                Some(terms) => r is Ok && strings_view(r->Ok_0@) == terms,
                None => r is Err,
            },
    {
        response.to_categories()
    }
}

/// What the conversion gives is stated on `try_from` itself.
impl vstd::std_specs::convert::TryFromSpecImpl<CategoryDocumentResponse> for Vec<String> {
    open spec fn obeys_try_from_spec() -> bool {
        false
    }

    open spec fn try_from_spec(response: CategoryDocumentResponse) -> Result<Self, Self::Error> {
        Err(ParseCategoryError)
    }
}

} // verus!
