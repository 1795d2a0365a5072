use hatena_blog_api::entry_params::{escape_into, escape_text};
use hatena_blog_api::response::{first_entry, from_entry_xml};
use hatena_blog_api::EntryParams;

fn new_dummy() -> EntryParams {
    EntryParams::new(
        "AUTHOR_NAME".to_string(),
        "TITLE".to_string(),
        "CONTENT".to_string(),
        "2020-02-07T00:00:00Z".to_string(),
        vec!["CATEGORY".to_string()],
        true,
    )
}

#[test]
fn into_xml() {
    let entry = new_dummy();
    assert_eq!(
        entry.into_xml(),
        r#"<?xml version="1.0" encoding="utf-8"?>
<entry xmlns="http://www.w3.org/2005/Atom"
       xmlns:app="http://www.w3.org/2007/app">
  <title>TITLE</title>
  <author><name>AUTHOR_NAME</name></author>
  <content type="text/plain">CONTENT</content>
  <updated>2020-02-07T00:00:00Z</updated>
  <category term="CATEGORY" />
  <app:control>
    <app:draft>yes</app:draft>
  </app:control>
</entry>"#
    );
}

#[test]
fn into_xml_without_categories_and_not_a_draft() {
    let params = EntryParams::new(
        "A".to_string(),
        "T".to_string(),
        "C".to_string(),
        "U".to_string(),
        vec![],
        false,
    );
    assert_eq!(
        params.into_xml(),
        "<?xml version=\"1.0\" encoding=\"utf-8\"?>\n<entry xmlns=\"http://www.w3.org/2005/Atom\"\n       xmlns:app=\"http://www.w3.org/2007/app\">\n  <title>T</title>\n  <author><name>A</name></author>\n  <content type=\"text/plain\">C</content>\n  <updated>U</updated>\n  <app:control>\n    <app:draft>no</app:draft>\n  </app:control>\n</entry>"
    );
}

#[test]
fn into_xml_escapes_every_value_and_keeps_the_order_of_categories() {
    let params = EntryParams::new(
        "a&b".to_string(),
        "<t>".to_string(),
        "\"c\"".to_string(),
        "'u'".to_string(),
        vec!["x<y".to_string(), "x<y".to_string(), "z".to_string()],
        false,
    );
    let xml = params.into_xml();
    assert!(xml.contains("  <title>&lt;t&gt;</title>\n"));
    assert!(xml.contains("  <author><name>a&amp;b</name></author>\n"));
    assert!(xml.contains("  <content type=\"text/plain\">&quot;c&quot;</content>\n"));
    assert!(xml.contains("  <updated>&apos;u&apos;</updated>\n"));
    assert!(xml.contains(
        "  <category term=\"x&lt;y\" />\n  <category term=\"x&lt;y\" />\n  <category term=\"z\" />\n  <app:control>"
    ));
}

#[test]
fn escape_replaces_the_five_characters_only() {
    assert_eq!(escape_text("\""), "&quot;");
    assert_eq!(escape_text("&"), "&amp;");
    assert_eq!(escape_text("'"), "&apos;");
    assert_eq!(escape_text("<"), "&lt;");
    assert_eq!(escape_text(">"), "&gt;");
    assert_eq!(escape_text(""), "");
    assert_eq!(escape_text("abc 日本語 \n\t#;"), "abc 日本語 \n\t#;");
    assert_eq!(escape_text("a<b>&\"c'"), "a&lt;b&gt;&amp;&quot;c&apos;");
}

#[test]
fn escape_escapes_an_escaped_ampersand_again() {
    assert_eq!(escape_text("&amp;"), "&amp;amp;");
    assert_eq!(escape_text("&#38;"), "&amp;#38;");
}

#[test]
fn escape_into_appends() {
    let mut t = "x=".to_string();
    escape_into(&mut t, "<");
    assert_eq!(t, "x=&lt;");
}

fn unescape(s: &str) -> String {
    s.replace("&quot;", "\"")
        .replace("&apos;", "'")
        .replace("&lt;", "<")
        .replace("&gt;", ">")
        .replace("&amp;", "&")
}

#[test]
fn escaped_text_unescapes_to_the_text() {
    for s in ["\"", "&", "'", "<", ">", "&amp;", "&lt;b&gt;", "a & b < c > d \" e ' f"] {
        assert_eq!(unescape(&escape_text(s)), s);
    }
}

#[test]
fn serialized_params_are_read_back() {
    let params = EntryParams::new(
        "bouzuya & <co>".to_string(),
        "A \"title\" <1>".to_string(),
        "it's > 1 && < 3".to_string(),
        "2020-02-07T00:00:00Z".to_string(),
        vec!["a&b".to_string(), "c".to_string(), "a&b".to_string()],
        true,
    );
    let xml = params.into_xml();
    // The written document has no links and no times of publication or
    // edition; they are added here as the host would.
    let xml = xml.replace(
        "  <app:control>",
        "  <link rel=\"edit\" href=\"https://example.com/atom/entry/1\"/>\n  <link rel=\"alternate\" href=\"https://example.com/entry/1\"/>\n  <published>2020-02-07T00:00:01Z</published>\n  <app:edited>2020-02-07T00:00:02Z</app:edited>\n  <app:control>",
    );
    let feed = from_entry_xml(&xml).unwrap();
    let entry = first_entry(&feed).unwrap();
    assert_eq!(entry.title, "A \"title\" <1>");
    assert_eq!(entry.author_name, "bouzuya & <co>");
    assert_eq!(entry.content, "it's > 1 && < 3");
    assert_eq!(entry.categories, vec!["a&b".to_string(), "c".to_string(), "a&b".to_string()]);
    assert!(entry.draft);
    assert_eq!(entry.updated.timestamp, 1581033600);
    assert_eq!(entry.updated.offset, 0);
}

fn value_after<'a>(doc: &'a str, start: &str, end: char) -> &'a str {
    let at = doc.find(start).unwrap() + start.len();
    let rest = &doc[at..];
    &rest[..rest.find(end).unwrap()]
}

#[test]
fn written_values_are_read_back_at_their_places() {
    let params = EntryParams::new(
        "a<b>&\"c'".to_string(),
        "</title><title>&lt;".to_string(),
        "x &amp; y".to_string(),
        "2020-02-07T00:00:00Z".to_string(),
        vec!["\" />".to_string(), "b".to_string(), "\" />".to_string()],
        false,
    );
    let xml = params.into_xml();
    assert_eq!(unescape(value_after(&xml, "  <title>", '<')), "</title><title>&lt;");
    assert_eq!(unescape(value_after(&xml, "  <author><name>", '<')), "a<b>&\"c'");
    assert_eq!(unescape(value_after(&xml, "  <content type=\"text/plain\">", '<')), "x &amp; y");
    assert_eq!(unescape(value_after(&xml, "  <updated>", '<')), "2020-02-07T00:00:00Z");
    assert_eq!(value_after(&xml, "    <app:draft>", '<'), "no");
    let terms: Vec<String> = xml
        .split("  <category term=\"")
        .skip(1)
        .map(|piece| unescape(&piece[..piece.find('"').unwrap()]))
        .collect();
    assert_eq!(terms, vec!["\" />".to_string(), "b".to_string(), "\" />".to_string()]);
    for c in ['<', '>', '"', '\''] {
        assert!(!escape_text("a<b>&\"c' d").contains(c));
    }
}
