use hatena_blog_api::category::{
    advance, bytes_eq, categories_from_events, collect_terms, from_category_document_xml,
    has_local_name, tag_matches, ScanState,
};
use hatena_blog_api::xml::{XmlAttribute, XmlEvent, XmlTag};
use hatena_blog_api::ParseCategoryError;

const APP: &str = "http://www.w3.org/2007/app";
const ATOM: &str = "http://www.w3.org/2005/Atom";

fn tag(namespace: Option<&str>, name: &str, content: &str) -> XmlTag {
    XmlTag {
        namespace: namespace.map(|n| n.as_bytes().to_vec()),
        name: name.as_bytes().to_vec(),
        content: content.as_bytes().to_vec(),
    }
}

fn root_start() -> Option<XmlEvent> {
    Some(XmlEvent::Start(tag(Some(APP), "app:categories", "app:categories fixed=\"no\"")))
}

fn root_end() -> Option<XmlEvent> {
    Some(XmlEvent::End(tag(Some(APP), "app:categories", "app:categories")))
}

fn category(term: &str) -> Option<XmlEvent> {
    let content = format!("atom:category term=\"{}\" ", term);
    Some(XmlEvent::Empty(tag(Some(ATOM), "atom:category", &content)))
}

fn strings(terms: &[&str]) -> Vec<String> {
    terms.iter().map(|s| s.to_string()).collect()
}

#[test]
fn two_categories_in_document_order() {
    let xml = "<app:categories xmlns:app=\"http://www.w3.org/2007/app\" xmlns:atom=\"http://www.w3.org/2005/Atom\"><atom:category term=\"Perl\"/><atom:category term=\"Scala\"/></app:categories>";
    assert_eq!(from_category_document_xml(xml), Ok(strings(&["Perl", "Scala"])));
}

#[test]
fn self_closing_root_is_not_supported() {
    let xml = "<?xml version=\"1.0\" encoding=\"utf-8\"?>\n<app:categories xmlns:app=\"http://www.w3.org/2007/app\" href=\"http://example.com/cats/big3\" />";
    assert_eq!(from_category_document_xml(xml), Err(ParseCategoryError));
}

#[test]
fn second_root_is_refused() {
    let xml = "<r xmlns:app=\"http://www.w3.org/2007/app\"><app:categories></app:categories><app:categories></app:categories></r>";
    assert_eq!(from_category_document_xml(xml), Err(ParseCategoryError));
    let xml = "<r xmlns:app=\"http://www.w3.org/2007/app\"><app:categories></app:categories><app:categories/></r>";
    assert_eq!(from_category_document_xml(xml), Err(ParseCategoryError));
}

#[test]
fn root_inside_an_open_root_is_refused() {
    let xml = r#"<app:categories xmlns:app="http://www.w3.org/2007/app"><app:categories></app:categories></app:categories>"#;
    assert_eq!(from_category_document_xml(xml), Err(ParseCategoryError));
    let xml = r#"<app:categories xmlns:app="http://www.w3.org/2007/app"><app:categories href="http://example.com/cats"/></app:categories>"#;
    assert_eq!(from_category_document_xml(xml), Err(ParseCategoryError));
    let xml = r#"<app:categories xmlns:app="http://www.w3.org/2007/app" xmlns:atom="http://www.w3.org/2005/Atom"><atom:category term="Perl"/><app:categories><atom:category term="Scala"/></app:categories></app:categories>"#;
    assert_eq!(from_category_document_xml(xml), Err(ParseCategoryError));
}

#[test]
fn document_that_ends_early_is_refused() {
    let xml = "<app:categories xmlns:app=\"http://www.w3.org/2007/app\" xmlns:atom=\"http://www.w3.org/2005/Atom\"><atom:category term=\"Perl\"/>";
    assert_eq!(from_category_document_xml(xml), Err(ParseCategoryError));
}

#[test]
fn document_without_a_root_is_refused() {
    assert_eq!(from_category_document_xml(""), Err(ParseCategoryError));
    assert_eq!(from_category_document_xml("<a><b/></a>"), Err(ParseCategoryError));
    // the same names without the namespace are not the root
    assert_eq!(
        from_category_document_xml("<app:categories></app:categories>"),
        Err(ParseCategoryError)
    );
}

#[test]
fn tokenization_error_is_refused() {
    let xml = "<app:categories xmlns:app=\"http://www.w3.org/2007/app\"><a></b></app:categories>";
    assert_eq!(from_category_document_xml(xml), Err(ParseCategoryError));
}

#[test]
fn empty_root_has_no_categories() {
    let xml = "<categories xmlns=\"http://www.w3.org/2007/app\"></categories>";
    assert_eq!(from_category_document_xml(xml), Ok(strings(&[])));
}

#[test]
fn duplicates_are_kept_and_values_are_unescaped() {
    let xml = "<app:categories xmlns:app=\"http://www.w3.org/2007/app\" xmlns:atom=\"http://www.w3.org/2005/Atom\">\n  <atom:category term=\"A&amp;B\" />\n  <atom:category term=\"C\" scheme=\"s\" />\n  <atom:category term=\"A&amp;B\" />\n  <atom:category label=\"no term\" />\n  <other term=\"ignored\" />\n  <atom:category term=\"not empty\"></atom:category>\n</app:categories>";
    assert_eq!(from_category_document_xml(xml), Ok(strings(&["A&B", "C", "A&B"])));
}

#[test]
fn malformed_attribute_of_a_category_is_refused() {
    let xml = "<app:categories xmlns:app=\"http://www.w3.org/2007/app\" xmlns:atom=\"http://www.w3.org/2005/Atom\"><atom:category term=Perl /></app:categories>";
    assert_eq!(from_category_document_xml(xml), Err(ParseCategoryError));
    let xml = "<app:categories xmlns:app=\"http://www.w3.org/2007/app\" xmlns:atom=\"http://www.w3.org/2005/Atom\"><atom:category term=\"&bogus;\" /></app:categories>";
    assert_eq!(from_category_document_xml(xml), Err(ParseCategoryError));
}

#[test]
fn events_are_scanned_as_a_document_is() {
    let events = vec![
        Some(XmlEvent::Other),
        root_start(),
        category("Perl"),
        Some(XmlEvent::Other),
        category("Scala"),
        root_end(),
        Some(XmlEvent::Eof),
    ];
    assert_eq!(categories_from_events(&events), Ok(strings(&["Perl", "Scala"])));
}

#[test]
fn events_that_are_refused() {
    // nothing at all, not even the end of the document
    assert_eq!(categories_from_events(&vec![]), Err(ParseCategoryError));
    // no root
    assert_eq!(categories_from_events(&vec![Some(XmlEvent::Eof)]), Err(ParseCategoryError));
    // an error of the tokenizer
    assert_eq!(
        categories_from_events(&vec![root_start(), None, root_end(), Some(XmlEvent::Eof)]),
        Err(ParseCategoryError)
    );
    // the end of the document inside the root
    assert_eq!(
        categories_from_events(&vec![root_start(), category("a"), Some(XmlEvent::Eof)]),
        Err(ParseCategoryError)
    );
    // a second root
    assert_eq!(
        categories_from_events(&vec![root_start(), root_end(), root_start(), root_end(), Some(XmlEvent::Eof)]),
        Err(ParseCategoryError)
    );
    // a root inside an open root
    assert_eq!(
        categories_from_events(&vec![root_start(), root_start(), root_end(), root_end(), Some(XmlEvent::Eof)]),
        Err(ParseCategoryError)
    );
    let inner = Some(XmlEvent::Empty(tag(Some(APP), "app:categories", "app:categories")));
    assert_eq!(
        categories_from_events(&vec![root_start(), inner, root_end(), Some(XmlEvent::Eof)]),
        Err(ParseCategoryError)
    );
    // the root as an empty element
    let empty_root = Some(XmlEvent::Empty(tag(Some(APP), "app:categories", "app:categories href=\"x\" ")));
    assert_eq!(
        categories_from_events(&vec![empty_root, Some(XmlEvent::Eof)]),
        Err(ParseCategoryError)
    );
    // the list ends without the end of the document
    assert_eq!(
        categories_from_events(&vec![root_start(), root_end()]),
        Err(ParseCategoryError)
    );
}

#[test]
fn events_after_the_end_of_the_document_are_not_read() {
    let events = vec![root_start(), root_end(), Some(XmlEvent::Eof), None];
    assert_eq!(categories_from_events(&events), Ok(strings(&[])));
}

#[test]
fn one_event_moves_the_scan() {
    let mut terms = vec![];
    let start = root_start().unwrap();
    let end = root_end().unwrap();
    assert_eq!(advance(ScanState::BeforeRoot, &start, &mut terms), Some(ScanState::InRoot));
    assert_eq!(advance(ScanState::BeforeRoot, &end, &mut terms), Some(ScanState::BeforeRoot));
    assert_eq!(advance(ScanState::InRoot, &start, &mut terms), None);
    let empty_root = XmlEvent::Empty(tag(Some(APP), "app:categories", "app:categories href=\"x\" "));
    assert_eq!(advance(ScanState::BeforeRoot, &empty_root, &mut terms), None);
    assert_eq!(advance(ScanState::InRoot, &empty_root, &mut terms), None);
    assert_eq!(advance(ScanState::Done, &empty_root, &mut terms), None);
    assert_eq!(advance(ScanState::InRoot, &XmlEvent::Other, &mut terms), Some(ScanState::InRoot));
    assert_eq!(advance(ScanState::InRoot, &end, &mut terms), Some(ScanState::Done));
    assert_eq!(advance(ScanState::Done, &end, &mut terms), Some(ScanState::Done));
    assert_eq!(advance(ScanState::Done, &start, &mut terms), None);
    assert_eq!(advance(ScanState::Done, &XmlEvent::Other, &mut terms), Some(ScanState::Done));
    assert!(terms.is_empty());
    let perl = category("Perl").unwrap();
    assert_eq!(advance(ScanState::BeforeRoot, &perl, &mut terms), Some(ScanState::BeforeRoot));
    assert!(terms.is_empty());
    assert_eq!(advance(ScanState::InRoot, &perl, &mut terms), Some(ScanState::InRoot));
    assert_eq!(terms, strings(&["Perl"]));
}

#[test]
fn terms_are_collected_from_attributes() {
    let attr = |key: &str, value: Option<&str>| {
        Some(XmlAttribute { key: key.as_bytes().to_vec(), value: value.map(|v| v.to_string()) })
    };
    let mut terms = strings(&["first"]);
    assert!(collect_terms(
        &vec![attr("term", Some("a")), attr("label", None), attr("term", Some("b"))],
        &mut terms
    ));
    assert_eq!(terms, strings(&["first", "a", "b"]));
    let mut terms = vec![];
    assert!(!collect_terms(&vec![attr("term", None)], &mut terms));
    assert!(!collect_terms(&vec![attr("label", Some("x")), None], &mut terms));
}

#[test]
fn names_are_compared_without_their_prefix() {
    assert!(has_local_name(b"app:categories", b"categories"));
    assert!(has_local_name(b"categories", b"categories"));
    assert!(has_local_name(b"a:b:c", b"b:c"));
    assert!(has_local_name(b"a:", b""));
    assert!(!has_local_name(b"app:categories", b"app:categories"));
    assert!(!has_local_name(b"app:category", b"categories"));
    assert!(bytes_eq(b"abc", b"abc"));
    assert!(!bytes_eq(b"abc", b"abd"));
    assert!(!bytes_eq(b"abc", b"ab"));
    assert!(tag_matches(&tag(Some(APP), "x:categories", ""), APP, "categories"));
    assert!(!tag_matches(&tag(Some(ATOM), "x:categories", ""), APP, "categories"));
    assert!(!tag_matches(&tag(None, "categories", ""), APP, "categories"));
}
