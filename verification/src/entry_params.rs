//! Parameters of an entry to create or update, and their Atom document.

use vstd::prelude::*;
use vstd::string::*;
use vstd::std_specs::iter::IteratorSpec;
use crate::text::strings_view;

verus! {

/// What an entry is created or updated with.
#[derive(Clone, Debug, Eq, PartialEq)]
pub struct EntryParams {
    author_name: String,
    title: String,
    content: String,
    updated: String,
    categories: Vec<String>,
    draft: bool,
}

/// The mathematical value of an `EntryParams`.
pub struct EntryParamsView {
    pub author_name: Seq<char>,
    pub title: Seq<char>,
    pub content: Seq<char>,
    pub updated: Seq<char>,
    pub categories: Seq<Seq<char>>,
    pub draft: bool,
}

impl View for EntryParams {
    type V = EntryParamsView;

    closed spec fn view(&self) -> EntryParamsView {
        EntryParamsView {
            author_name: self.author_name@,
            title: self.title@,
            content: self.content@,
            updated: self.updated@,
            categories: strings_view(self.categories@),
            draft: self.draft,
        }
    }
}

/// What one character becomes in XML text or in an attribute value.
pub open spec fn escape_char(c: char) -> Seq<char> {
    if c == '"' {
        "&quot;"@
    } else if c == '&' {
        "&amp;"@
    } else if c == '\'' {
        "&apos;"@
    } else if c == '<' {
        "&lt;"@
    } else if c == '>' {
        "&gt;"@
    } else {
        seq![c]
    }
}

/// The text with each of its characters escaped, in order.
pub open spec fn escape(s: Seq<char>) -> Seq<char>
    decreases s.len(),
{
    if s.len() == 0 {
        Seq::empty()
    } else {
        escape(s.drop_last()) + escape_char(s.last())
    }
}

/// One `category` element per term, in order, each on a line of its own.
pub open spec fn categories_xml(terms: Seq<Seq<char>>) -> Seq<char>
    decreases terms.len(),
{
    if terms.len() == 0 {
        Seq::empty()
    } else {
        categories_xml(terms.drop_last()) + "  <category term=\""@ + escape(terms.last())
            + "\" />\n"@
    }
}

/// The text of the draft flag.
pub open spec fn draft_text(draft: bool) -> Seq<char> {
    if draft {
        "yes"@
    } else {
        "no"@
    }
}

/// The Atom entry document of the parameters.
pub open spec fn entry_xml(p: EntryParamsView) -> Seq<char> {
    "<?xml version=\"1.0\" encoding=\"utf-8\"?>\n<entry xmlns=\"http://www.w3.org/2005/Atom\"\n       xmlns:app=\"http://www.w3.org/2007/app\">\n  <title>"@
        + escape(p.title) + "</title>\n  <author><name>"@ + escape(p.author_name)
        + "</name></author>\n  <content type=\"text/plain\">"@ + escape(p.content)
        + "</content>\n  <updated>"@ + escape(p.updated) + "</updated>\n"@ + categories_xml(
        p.categories,
    ) + "  <app:control>\n    <app:draft>"@ + draft_text(p.draft)
        + "</app:draft>\n  </app:control>\n</entry>"@
}

/// Appends the escaped form of `s` to `t`.
pub fn escape_into(t: &mut String, s: &str)
    ensures
        final(t)@ == old(t)@ + escape(s@),
{
    broadcast use vstd::string::group_string_axioms;

    let mut it = s.chars();
    let ghost mut done: Seq<char> = Seq::empty();
    assert(old(t)@ + escape(done) =~= old(t)@);
    loop
        invariant
            done + it.remaining() == s@,
            t@ == old(t)@ + escape(done),
        ensures
            done == s@,
        decreases s@.len() - done.len(),
    {
        let ghost before = done;
        let ghost rest = it.remaining();
        match it.next() {
            Some(c) => {
                proof {
                    done = done.push(c);
                    assert(done.drop_last() =~= before);
                    assert(done + it.remaining() =~= before + rest);
                }
                let ghost prev = t@;
                if c == '"' {
                    t.append("&quot;");
                } else if c == '&' {
                    t.append("&amp;");
                } else if c == '\'' {
                    t.append("&apos;");
                } else if c == '<' {
                    t.append("&lt;");
                } else if c == '>' {
                    t.append("&gt;");
                } else {
                    t.push(c);
                    assert(prev.push(c) =~= prev + seq![c]);
                }
                assert(t@ == prev + escape_char(c));
                assert(t@ =~= old(t)@ + escape(done));
            },
            None => {
                assert(done =~= s@);
                break;
            },
        }
    }
}

/// The escaped form of `s`.
pub fn escape_text(s: &str) -> (r: String)
    ensures
        r@ == escape(s@),
{
    let mut t = String::new();
    escape_into(&mut t, s);
    assert(t@ =~= escape(s@));
    t
}

impl EntryParams {
    /// Holds the six values as they are given.
    pub fn new(
        author_name: String,
        title: String,
        content: String,
        updated: String,
        categories: Vec<String>,
        draft: bool,
    ) -> (r: EntryParams)
        ensures
            r@ == (EntryParamsView {
                author_name: author_name@,
                title: title@,
                content: content@,
                updated: updated@,
                categories: strings_view(categories@),
                draft,
            }),
    {
        EntryParams { author_name, title, content, updated, categories, draft }
    }

    /// Writes the parameters as an Atom entry document.
    pub fn into_xml(self) -> (r: String)
        ensures
            r@ == entry_xml(self@),
    {
        let mut s = String::new();
        s.append(
            "<?xml version=\"1.0\" encoding=\"utf-8\"?>\n<entry xmlns=\"http://www.w3.org/2005/Atom\"\n       xmlns:app=\"http://www.w3.org/2007/app\">\n  <title>",
        );
        escape_into(&mut s, self.title.as_str());
        s.append("</title>\n  <author><name>");
        escape_into(&mut s, self.author_name.as_str());
        s.append("</name></author>\n  <content type=\"text/plain\">");
        escape_into(&mut s, self.content.as_str());
        s.append("</content>\n  <updated>");
        escape_into(&mut s, self.updated.as_str());
        s.append("</updated>\n");
        let ghost head = s@;
        let ghost terms = strings_view(self.categories@);
        let n: usize = self.categories.len();
        let mut i: usize = 0;
        assert(head + categories_xml(terms.take(0)) =~= head);
        while i < n
            invariant
                i <= n,
                n == self.categories.len(),
                terms == strings_view(self.categories@),
                s@ == head + categories_xml(terms.take(i as int)),
            decreases n - i,
        {
            let ghost prev = s@;
            s.append("  <category term=\"");
            escape_into(&mut s, self.categories[i].as_str());
            s.append("\" />\n");
            proof {
                let next = terms.take(i + 1);
                assert(next.drop_last() =~= terms.take(i as int));
                assert(next.last() == self.categories@[i as int]@);
                assert(s@ =~= head + categories_xml(next));
            }
            i = i + 1;
        }
        assert(terms.take(n as int) =~= terms);
        s.append("  <app:control>\n    <app:draft>");
        s.append(if self.draft { "yes" } else { "no" });
        s.append("</app:draft>\n  </app:control>\n</entry>");
        assert(s@ =~= entry_xml(self@));
        s
    }
}

/// The text with each of the five entities replaced by its character, from
/// the left; every other character stays.
pub open spec fn unescape(s: Seq<char>) -> Seq<char>
    decreases s.len(),
{
    if s.len() == 0 {
        s
    } else if s.len() >= 6 && s.subrange(0, 6) == seq!['&', 'q', 'u', 'o', 't', ';'] {
        seq!['"'] + unescape(s.skip(6))
    } else if s.len() >= 5 && s.subrange(0, 5) == seq!['&', 'a', 'm', 'p', ';'] {
        seq!['&'] + unescape(s.skip(5))
    } else if s.len() >= 6 && s.subrange(0, 6) == seq!['&', 'a', 'p', 'o', 's', ';'] {
        seq!['\''] + unescape(s.skip(6))
    } else if s.len() >= 4 && s.subrange(0, 4) == seq!['&', 'l', 't', ';'] {
        seq!['<'] + unescape(s.skip(4))
    } else if s.len() >= 4 && s.subrange(0, 4) == seq!['&', 'g', 't', ';'] {
        seq!['>'] + unescape(s.skip(4))
    } else {
        seq![s[0]] + unescape(s.skip(1))
    }
}

/// Escaping goes character by character from the front as well.
pub proof fn lemma_escape_front(c: char, t: Seq<char>)
    ensures
        escape(seq![c] + t) == escape_char(c) + escape(t),
    decreases t.len(),
{
    let s = seq![c] + t;
    if t.len() == 0 {
        assert(s.drop_last() =~= Seq::<char>::empty());
        assert(s.last() == c);
        assert(escape(s.drop_last()) =~= Seq::<char>::empty());
        assert(escape(t) =~= Seq::<char>::empty());
        assert(escape(s) =~= escape_char(c) + escape(t));
    } else {
        lemma_escape_front(c, t.drop_last());
        assert(s.drop_last() =~= seq![c] + t.drop_last());
        assert(s.last() == t.last());
        assert(escape(s) =~= escape_char(c) + escape(t));
    }
}

/// Unescaping takes the escaped form of one character back to the character,
/// whatever follows it.
pub proof fn lemma_unescape_char(c: char, r: Seq<char>)
    ensures
        unescape(escape_char(c) + r) == seq![c] + unescape(r),
{
    reveal_strlit("&quot;");
    reveal_strlit("&amp;");
    reveal_strlit("&apos;");
    reveal_strlit("&lt;");
    reveal_strlit("&gt;");
    let e = escape_char(c);
    let s = e + r;
    if c == '"' {
        assert(e =~= seq!['&', 'q', 'u', 'o', 't', ';']);
        assert(s.subrange(0, 6) =~= e);
        assert(s.skip(6) =~= r);
    } else if c == '&' {
        assert(e =~= seq!['&', 'a', 'm', 'p', ';']);
        assert(s.subrange(0, 5) =~= e);
        assert(s.skip(5) =~= r);
        assert(s.len() >= 6 ==> s.subrange(0, 6)[1] == 'a');
    } else if c == '\'' {
        assert(e =~= seq!['&', 'a', 'p', 'o', 's', ';']);
        assert(s.subrange(0, 6) =~= e);
        assert(s.skip(6) =~= r);
        assert(s.subrange(0, 5)[2] == 'p');
    } else if c == '<' {
        assert(e =~= seq!['&', 'l', 't', ';']);
        assert(s.subrange(0, 4) =~= e);
        assert(s.skip(4) =~= r);
        assert(s.len() >= 6 ==> s.subrange(0, 6)[1] == 'l');
        assert(s.len() >= 5 ==> s.subrange(0, 5)[1] == 'l');
    } else if c == '>' {
        assert(e =~= seq!['&', 'g', 't', ';']);
        assert(s.subrange(0, 4) =~= e);
        assert(s.skip(4) =~= r);
        assert(s.len() >= 6 ==> s.subrange(0, 6)[1] == 'g');
        assert(s.len() >= 5 ==> s.subrange(0, 5)[1] == 'g');
        assert(s.subrange(0, 4)[1] == 'g');
    } else {
        assert(e =~= seq![c]);
        assert(s[0] == c);
        assert(s.skip(1) =~= r);
        assert(s.len() >= 6 ==> s.subrange(0, 6)[0] == c);
        assert(s.len() >= 5 ==> s.subrange(0, 5)[0] == c);
        assert(s.len() >= 4 ==> s.subrange(0, 4)[0] == c);
    }
}

/// Unescaping an escaped text gives the text back: each of the five
/// characters, and every other one, survives the round trip, and an entity
/// that the text already holds is not unescaped twice.
pub proof fn lemma_unescape_escape(s: Seq<char>)
    ensures
        unescape(escape(s)) == s,
    decreases s.len(),
{
    if s.len() == 0 {
    } else {
        let c = s[0];
        let t = s.skip(1);
        assert(s =~= seq![c] + t);
        lemma_escape_front(c, t);
        lemma_unescape_char(c, escape(t));
        lemma_unescape_escape(t);
    }
}

/// Whether a character is one of the four that escaping never leaves in a
/// text: the two quotes and the two angle brackets.
pub open spec fn is_markup(c: char) -> bool {
    c == '"' || c == '\'' || c == '<' || c == '>'
}

/// The index of the first `c` in a text; the length of the text where it
/// holds none.
pub open spec fn index_of(s: Seq<char>, c: char) -> int
    decreases s.len(),
{
    if s.len() == 0 {
        0
    } else if s[0] == c {
        0
    } else {
        1 + index_of(s.skip(1), c)
    }
}

/// What stands in a text before its first `c`.
pub open spec fn text_before(s: Seq<char>, c: char) -> Seq<char> {
    s.take(index_of(s, c))
}

/// An escaped text holds no quote and no angle bracket.
pub proof fn lemma_escaped_has_no_markup(s: Seq<char>, i: int)
    requires
        0 <= i < escape(s).len(),
    ensures
        !is_markup(escape(s)[i]),
    decreases s.len(),
{
    reveal_strlit("&quot;");
    reveal_strlit("&amp;");
    reveal_strlit("&apos;");
    reveal_strlit("&lt;");
    reveal_strlit("&gt;");
    if s.len() > 0 {
        let head = escape(s.drop_last());
        let last = escape_char(s.last());
        assert(escape(s) == head + last);
        if i < head.len() {
            lemma_escaped_has_no_markup(s.drop_last(), i);
            assert(escape(s)[i] == head[i]);
        } else {
            assert(escape(s)[i] == last[i - head.len()]);
        }
    }
}

/// A text without `c`, followed by `c`, is what stands before the first `c`.
pub proof fn lemma_text_before(a: Seq<char>, c: char, rest: Seq<char>)
    requires
        forall|i: int| 0 <= i < a.len() ==> a[i] != c,
    ensures
        text_before(a + seq![c] + rest, c) == a,
    decreases a.len(),
{
    let s = a + seq![c] + rest;
    if a.len() == 0 {
        assert(s[0] == c);
        assert(s.take(0) =~= a);
    } else {
        assert(s[0] == a[0]);
        let b = a.skip(1);
        assert(s.skip(1) =~= b + seq![c] + rest);
        assert forall|i: int| 0 <= i < b.len() implies b[i] != c by {
            assert(b[i] == a[i + 1]);
        }
        lemma_text_before(b, c, rest);
        assert(index_of(s, c) == 1 + index_of(s.skip(1), c));
        assert(index_of(s.skip(1), c) == b.len()) by {
            assert(text_before(s.skip(1), c).len() == b.len());
            lemma_index_in_range(s.skip(1), c);
        }
        assert(s.take(a.len() as int) =~= a);
    }
}

/// The index of the first `c` lies within the text or at its end.
pub proof fn lemma_index_in_range(s: Seq<char>, c: char)
    ensures
        0 <= index_of(s, c) <= s.len(),
    decreases s.len(),
{
    if s.len() > 0 && s[0] != c {
        lemma_index_in_range(s.skip(1), c);
    }
}

/// A value written into a document is read back: whatever follows it, the
/// text up to the next quote or angle bracket, unescaped, is the value. So
/// the text of an element is read back up to the `<` of its end tag, and the
/// value of an attribute up to its closing `"`.
pub proof fn lemma_written_value_is_read_back(value: Seq<char>, c: char, rest: Seq<char>)
    requires
        is_markup(c),
    ensures
        unescape(text_before(escape(value) + seq![c] + rest, c)) == value,
{
    let e = escape(value);
    assert forall|i: int| 0 <= i < e.len() implies e[i] != c by {
        lemma_escaped_has_no_markup(value, i);
    }
    lemma_text_before(e, c, rest);
    lemma_unescape_escape(value);
}

/// The value that is read in a document from a place on: the text up to the
/// next `c`, unescaped.
pub open spec fn value_at(doc: Seq<char>, at: int, c: char) -> Seq<char> {
    unescape(text_before(doc.skip(at), c))
}

/// Where the text of the title starts in the document of `p`.
pub open spec fn title_at() -> int {
    "<?xml version=\"1.0\" encoding=\"utf-8\"?>\n<entry xmlns=\"http://www.w3.org/2005/Atom\"\n       xmlns:app=\"http://www.w3.org/2007/app\">\n  <title>"@.len() as int
}

/// Where the author's name starts.
pub open spec fn author_at(p: EntryParamsView) -> int {
    title_at() + escape(p.title).len() + "</title>\n  <author><name>"@.len()
}

/// Where the text of the content starts.
pub open spec fn content_at(p: EntryParamsView) -> int {
    author_at(p) + escape(p.author_name).len() + "</name></author>\n  <content type=\"text/plain\">"@.len()
}

/// Where the text of the time of update starts.
pub open spec fn updated_at(p: EntryParamsView) -> int {
    content_at(p) + escape(p.content).len() + "</content>\n  <updated>"@.len()
}

/// Where the category elements start.
pub open spec fn categories_at(p: EntryParamsView) -> int {
    updated_at(p) + escape(p.updated).len() + "</updated>\n"@.len()
}

/// Where the term of the category of index `k` starts.
pub open spec fn category_at(p: EntryParamsView, k: int) -> int {
    categories_at(p) + categories_xml(p.categories.take(k)).len() + "  <category term=\""@.len()
}

/// Where the text of the draft flag starts.
pub open spec fn draft_at(p: EntryParamsView) -> int {
    categories_at(p) + categories_xml(p.categories).len() + "  <app:control>\n    <app:draft>"@.len()
}

/// The category elements of two lists, one after the other, are those of
/// the lists joined.
pub proof fn lemma_categories_concat(a: Seq<Seq<char>>, b: Seq<Seq<char>>)
    ensures
        categories_xml(a + b) == categories_xml(a) + categories_xml(b),
    decreases b.len(),
{
    if b.len() == 0 {
        assert(a + b =~= a);
        assert(categories_xml(a) + categories_xml(b) =~= categories_xml(a));
    } else {
        lemma_categories_concat(a, b.drop_last());
        assert((a + b).drop_last() =~= a + b.drop_last());
        assert((a + b).last() == b.last());
        assert(categories_xml(a + b) =~= categories_xml(a) + categories_xml(b));
    }
}

/// An escaped value that stands in a document between `before` and a text
/// that starts with `c` is read back at the end of `before`.
pub proof fn lemma_value_at(
    doc: Seq<char>,
    before: Seq<char>,
    value: Seq<char>,
    c: char,
    after: Seq<char>,
)
    requires
        doc == before + escape(value) + after,
        after.len() > 0,
        after[0] == c,
        is_markup(c),
    ensures
        value_at(doc, before.len() as int, c) == value,
{
    let rest = after.skip(1);
    assert(after =~= seq![c] + rest);
    assert(doc.skip(before.len() as int) =~= escape(value) + seq![c] + rest);
    lemma_written_value_is_read_back(value, c, rest);
}

/// Each fixed piece of the document that follows a value starts with the
/// character that ends the value: `<`, or `"` after a category's term.
proof fn lemma_pieces_start()
    ensures
        "</title>\n  <author><name>"@.len() > 0 && "</title>\n  <author><name>"@[0] == '<',
        "</name></author>\n  <content type=\"text/plain\">"@.len() > 0 && "</name></author>\n  <content type=\"text/plain\">"@[0] == '<',
        "</content>\n  <updated>"@.len() > 0 && "</content>\n  <updated>"@[0] == '<',
        "</updated>\n"@.len() > 0 && "</updated>\n"@[0] == '<',
        "</app:draft>\n  </app:control>\n</entry>"@.len() > 0 && "</app:draft>\n  </app:control>\n</entry>"@[0] == '<',
        "\" />\n"@.len() > 0 && "\" />\n"@[0] == '"',
{
    reveal_strlit("</title>\n  <author><name>");
    reveal_strlit("</name></author>\n  <content type=\"text/plain\">");
    reveal_strlit("</content>\n  <updated>");
    reveal_strlit("</updated>\n");
    reveal_strlit("</app:draft>\n  </app:control>\n</entry>");
    reveal_strlit("\" />\n");
}

/// What follows the time of update in the document of `p`.
pub open spec fn after_updated(p: EntryParamsView) -> Seq<char> {
    "</updated>\n"@ + categories_xml(p.categories) + "  <app:control>\n    <app:draft>"@ + draft_text(p.draft) + "</app:draft>\n  </app:control>\n</entry>"@
}

/// What follows the content.
pub open spec fn after_content(p: EntryParamsView) -> Seq<char> {
    "</content>\n  <updated>"@ + escape(p.updated) + after_updated(p)
}

/// What follows the author's name.
pub open spec fn after_author(p: EntryParamsView) -> Seq<char> {
    "</name></author>\n  <content type=\"text/plain\">"@ + escape(p.content) + after_content(p)
}

/// What follows the title.
pub open spec fn after_title(p: EntryParamsView) -> Seq<char> {
    "</title>\n  <author><name>"@ + escape(p.author_name) + after_author(p)
}

/// The title is read back at its place.
proof fn lemma_title_is_read_back(p: EntryParamsView)
    ensures
        value_at(entry_xml(p), title_at(), '<') == p.title,
{
    lemma_pieces_start();
    let d = entry_xml(p);
    assert(d =~= "<?xml version=\"1.0\" encoding=\"utf-8\"?>\n<entry xmlns=\"http://www.w3.org/2005/Atom\"\n       xmlns:app=\"http://www.w3.org/2007/app\">\n  <title>"@ + escape(p.title) + after_title(p));
    lemma_value_at(d, "<?xml version=\"1.0\" encoding=\"utf-8\"?>\n<entry xmlns=\"http://www.w3.org/2005/Atom\"\n       xmlns:app=\"http://www.w3.org/2007/app\">\n  <title>"@, p.title, '<', after_title(p));
}

/// The author's name is read back at its place.
proof fn lemma_author_is_read_back(p: EntryParamsView)
    ensures
        value_at(entry_xml(p), author_at(p), '<') == p.author_name,
{
    lemma_pieces_start();
    let d = entry_xml(p);
    let before = "<?xml version=\"1.0\" encoding=\"utf-8\"?>\n<entry xmlns=\"http://www.w3.org/2005/Atom\"\n       xmlns:app=\"http://www.w3.org/2007/app\">\n  <title>"@ + escape(p.title) + "</title>\n  <author><name>"@;
    assert(d =~= before + escape(p.author_name) + after_author(p));
    lemma_value_at(d, before, p.author_name, '<', after_author(p));
}

/// The content is read back at its place.
proof fn lemma_content_is_read_back(p: EntryParamsView)
    ensures
        value_at(entry_xml(p), content_at(p), '<') == p.content,
{
    lemma_pieces_start();
    let d = entry_xml(p);
    let before = "<?xml version=\"1.0\" encoding=\"utf-8\"?>\n<entry xmlns=\"http://www.w3.org/2005/Atom\"\n       xmlns:app=\"http://www.w3.org/2007/app\">\n  <title>"@ + escape(p.title) + "</title>\n  <author><name>"@ + escape(p.author_name) + "</name></author>\n  <content type=\"text/plain\">"@;
    assert(d =~= before + escape(p.content) + after_content(p));
    lemma_value_at(d, before, p.content, '<', after_content(p));
}

/// The time of update is read back at its place.
proof fn lemma_updated_is_read_back(p: EntryParamsView)
    ensures
        value_at(entry_xml(p), updated_at(p), '<') == p.updated,
{
    lemma_pieces_start();
    let d = entry_xml(p);
    let before = "<?xml version=\"1.0\" encoding=\"utf-8\"?>\n<entry xmlns=\"http://www.w3.org/2005/Atom\"\n       xmlns:app=\"http://www.w3.org/2007/app\">\n  <title>"@ + escape(p.title) + "</title>\n  <author><name>"@ + escape(p.author_name) + "</name></author>\n  <content type=\"text/plain\">"@ + escape(p.content)
        + "</content>\n  <updated>"@;
    assert(d =~= before + escape(p.updated) + after_updated(p));
    lemma_value_at(d, before, p.updated, '<', after_updated(p));
}

/// The title, the author's name, the content and the time of update are
/// read back from the document of the parameters: each at its place, up to
/// the next `<`, unescaped.
pub proof fn lemma_elements_are_read_back(p: EntryParamsView)
    ensures
        value_at(entry_xml(p), title_at(), '<') == p.title,
        value_at(entry_xml(p), author_at(p), '<') == p.author_name,
        value_at(entry_xml(p), content_at(p), '<') == p.content,
        value_at(entry_xml(p), updated_at(p), '<') == p.updated,
{
    lemma_title_is_read_back(p);
    lemma_author_is_read_back(p);
    lemma_content_is_read_back(p);
    lemma_updated_is_read_back(p);
}

/// The document of the parameters up to its category elements.
pub open spec fn document_head(p: EntryParamsView) -> Seq<char> {
    "<?xml version=\"1.0\" encoding=\"utf-8\"?>\n<entry xmlns=\"http://www.w3.org/2005/Atom\"\n       xmlns:app=\"http://www.w3.org/2007/app\">\n  <title>"@ + escape(p.title) + "</title>\n  <author><name>"@ + escape(p.author_name) + "</name></author>\n  <content type=\"text/plain\">"@ + escape(p.content) + "</content>\n  <updated>"@ + escape(
        p.updated,
    ) + "</updated>\n"@
}

/// The document of the parameters after its category elements.
pub open spec fn document_tail(p: EntryParamsView) -> Seq<char> {
    "  <app:control>\n    <app:draft>"@ + draft_text(p.draft) + "</app:draft>\n  </app:control>\n</entry>"@
}

/// The document is its head, its category elements and its tail.
pub proof fn lemma_document_parts(p: EntryParamsView)
    ensures
        entry_xml(p) == document_head(p) + categories_xml(p.categories) + document_tail(p),
        document_head(p).len() == categories_at(p),
{
    assert(entry_xml(p) =~= document_head(p) + categories_xml(p.categories) + document_tail(p));
}

/// The term of each category is read back from the document of the
/// parameters: at the place of the category of index `k`, up to the next
/// `"`, unescaped. The categories so come in their order, none left out.
pub proof fn lemma_category_is_read_back(p: EntryParamsView, k: int)
    requires
        0 <= k < p.categories.len(),
    ensures
        value_at(entry_xml(p), category_at(p, k), '"') == p.categories[k],
{
    lemma_pieces_start();
    lemma_document_parts(p);
    let d = entry_xml(p);
    let cats = p.categories;
    let head = cats.take(k);
    let upto = cats.take(k + 1);
    let others = cats.skip(k + 1);
    assert(cats =~= upto + others);
    lemma_categories_concat(upto, others);
    assert(upto.drop_last() =~= head);
    assert(upto.last() == cats[k]);
    let c0 = "  <category term=\""@;
    let c1 = "\" />\n"@;
    let ch = categories_xml(head);
    let co = categories_xml(others);
    let e = escape(cats[k]);
    assert(categories_xml(upto) == ch + c0 + e + c1);
    assert(categories_xml(cats) == ch + c0 + e + c1 + co);
    let dh = document_head(p);
    let dt = document_tail(p);
    let before = dh + ch + c0;
    let after = c1 + co + dt;
    assert(dh + (ch + c0 + e + c1 + co) + dt =~= before + e + after);
    lemma_value_at(d, before, cats[k], '"', after);
}

/// The draft flag is read back from the document of the parameters: at its
/// place, up to the next `<`, stands `yes` for a draft and `no` otherwise.
pub proof fn lemma_draft_is_read_back(p: EntryParamsView)
    ensures
        text_before(entry_xml(p).skip(draft_at(p)), '<') == draft_text(p.draft),
        draft_text(p.draft) == "yes"@ <==> p.draft,
{
    lemma_pieces_start();
    lemma_document_parts(p);
    reveal_strlit("yes");
    reveal_strlit("no");
    let d = entry_xml(p);
    let dt = draft_text(p.draft);
    let l6 = "</app:draft>\n  </app:control>\n</entry>"@;
    let before = document_head(p) + categories_xml(p.categories) + "  <app:control>\n    <app:draft>"@;
    let rest = l6.skip(1);
    assert(l6 =~= seq!['<'] + rest);
    assert(d =~= before + dt + l6);
    assert(d.skip(before.len() as int) =~= dt + seq!['<'] + rest);
    assert(before.len() == draft_at(p));
    lemma_text_before(dt, '<', rest);
}

} // verus!
