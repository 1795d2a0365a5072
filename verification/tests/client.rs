use hatena_blog_api::client::{response_body, status_error};
use hatena_blog_api::{
    CategoryDocumentResponse, ClientError, ParseCategoryError, ParseEntry, CollectionResponse, CreateEntryResponse,
    DeleteEntryResponse, Entry, EntryId, EntryParams, GetEntryResponse, ListCategoriesResponse,
    ListEntriesResponse, MemberResponse, PartialList, UpdateEntryResponse,
};

const ENTRY_XML: &str = r#"<?xml version="1.0" encoding="utf-8"?>
<entry xmlns="http://www.w3.org/2005/Atom"
       xmlns:app="http://www.w3.org/2007/app">
  <id>tag:blog.hatena.ne.jp,2013:blog-test_user-20000000000000-3000000000000000</id>
  <link rel="edit" href="https://blog.hatena.ne.jp/test_user/test_blog/atom/entry/2500000000"/>
  <link rel="alternate" type="text/html" href="http://test_blog.hatenablog.com/entry/2013/09/02/112823"/>
  <author><name>test_user</name></author>
  <title>記事タイトル</title>
  <updated>2013-09-02T11:28:23+09:00</updated>
  <published>2013-09-02T11:28:23+09:00</published>
  <app:edited>2013-09-02T11:28:23+09:00</app:edited>
  <summary type="text"> 記事本文 リスト1 リスト2 内容 </summary>
  <content type="text/x-hatena-syntax">
** 記事本文
- リスト1
- リスト2
内容
  </content>
  <hatena:formatted-content type="text/html" xmlns:hatena="http://www.hatena.ne.jp/info/xmlns#">
    <div class="section">
    <h4>記事本文</h4>
    <ul>
    <li>リスト1</li>
    <li>リスト2</li>
    </ul><p>内容</p>
    </div>
  </hatena:formatted-content>
  <category term="Scala" />
  <category term="Perl" />
  <app:control>
    <app:draft>no</app:draft>
  </app:control>
</entry>"#;

const FEED_XML: &str = r#"<?xml version="1.0" encoding="utf-8"?>
<feed xmlns="http://www.w3.org/2005/Atom"
      xmlns:app="http://www.w3.org/2007/app">
  <link rel="first" href="https://blog.hatena.ne.jp/test_user/test_blog/atom/entry" />
  <link rel="next" href="https://blog.hatena.ne.jp/test_user/test_blog/atom/entry?page=1377584217" />
  <title>ブログタイトル</title>
  <link rel="alternate" href="http://test_blog.hatenablog.com/"/>
  <updated>2013-08-27T15:17:06+09:00</updated>
  <author>
    <name>test_user</name>
  </author>
  <generator uri="http://blog.hatena.ne.jp/" version="100000000">Hatena::Blog</generator>
  <id>hatenablog://blog/2000000000000</id>
  <entry>
    <id>tag:blog.hatena.ne.jp,2013:blog-test_user-20000000000000-3000000000000000</id>
    <link rel="edit" href="https://blog.hatena.ne.jp/test_user/test_blog/atom/entry/2500000000"/>
    <link rel="alternate" type="text/html" href="http://test_blog.hatenablog.com/entry/2013/09/02/112823"/>
    <author><name>test_user</name></author>
    <title>記事タイトル</title>
    <updated>2013-09-02T11:28:23+09:00</updated>
    <published>2013-09-02T11:28:23+09:00</published>
    <app:edited>2013-09-02T11:28:23+09:00</app:edited>
    <summary type="text"> 記事本文 リスト1 リスト2 内容 </summary>
    <content type="text/x-hatena-syntax">
** 記事本文
- リスト1
- リスト2
内容
    </content>
    <hatena:formatted-content type="text/html" xmlns:hatena="http://www.hatena.ne.jp/info/xmlns#">
      <div class="section">
      <h4>記事本文</h4>
      <ul>
      <li>リスト1</li>
      <li>リスト2</li>
      </ul><p>内容</p>
      </div>
    </hatena:formatted-content>
    <category term="Scala" />
    <category term="Perl" />
    <app:control>
      <app:draft>no</app:draft>
    </app:control>
  </entry>
</feed>"#;

const CATEGORY_DOCUMENT_XML: &str = r#"<?xml version="1.0" encoding="utf-8"?>
<app:categories
    xmlns:app="http://www.w3.org/2007/app"
    xmlns:atom="http://www.w3.org/2005/Atom"
    fixed="no">
  <atom:category term="Perl" />
  <atom:category term="Scala" />
</app:categories>"#;

fn params() -> EntryParams {
    EntryParams::new(
        "test_user".to_string(),
        "記事タイトル".to_string(),
        "** 記事本文".to_string(),
        "2013-09-02T11:28:23+09:00".to_string(),
        vec!["Scala".to_string()],
        false,
    )
}

#[test]
fn collection_uri() {
    assert_eq!(
        hatena_blog_api::client::collection_uri("BASE_URL", "HATENA_ID", "BLOG_ID", None),
        "BASE_URL/HATENA_ID/BLOG_ID/atom/entry"
    )
}

#[test]
fn member_uri() {
    let entry_id = "ENTRY_ID".parse::<EntryId>().unwrap();
    assert_eq!(
        hatena_blog_api::client::member_uri("BASE_URL", "HATENA_ID", "BLOG_ID", &entry_id),
        "BASE_URL/HATENA_ID/BLOG_ID/atom/entry/ENTRY_ID"
    );
}

#[test]
fn category_document_uri() {
    assert_eq!(
        hatena_blog_api::client::category_document_uri("BASE_URL", "HATENA_ID", "BLOG_ID"),
        "BASE_URL/HATENA_ID/BLOG_ID/atom/category"
    );
}

#[test]
fn collection_uri_encodes_the_page() {
    assert_eq!(
        hatena_blog_api::client::collection_uri("B", "H", "G", Some("1377584217")),
        "B/H/G/atom/entry?page=1377584217"
    );
    assert_eq!(
        hatena_blog_api::client::collection_uri("B", "H", "G", Some("a b&c=d/é~")),
        "B/H/G/atom/entry?page=a%20b%26c%3Dd%2F%C3%A9~"
    );
    assert_eq!(hatena_blog_api::client::collection_uri("B", "H", "G", Some("")), "B/H/G/atom/entry?page=");
}

#[test]
fn create_entry() {
    assert_eq!(
        hatena_blog_api::client::collection_uri("https://blog.hatena.ne.jp", "test_user", "test_blog", None),
        "https://blog.hatena.ne.jp/test_user/test_blog/atom/entry"
    );
    assert!(params().into_xml().contains("<title>記事タイトル</title>"));
    let response = CreateEntryResponse::from(response_body(201, ENTRY_XML.to_string()).unwrap());
    assert_eq!(response.to_string(), ENTRY_XML);
    let entry = response.to_entry().unwrap();
    assert_eq!(entry.title, "記事タイトル");
}

#[test]
fn delete_entry() {
    let entry_id = "2500000000".parse::<EntryId>().unwrap();
    assert_eq!(
        hatena_blog_api::client::member_uri("https://blog.hatena.ne.jp", "test_user", "test_blog", &entry_id),
        "https://blog.hatena.ne.jp/test_user/test_blog/atom/entry/2500000000"
    );
    let response = DeleteEntryResponse::from(response_body(200, "ignored".to_string()).unwrap());
    assert_eq!(response.to_string(), "");
    assert_eq!(response.into_string(), "");
    assert_eq!(String::from(response), "");
}

#[test]
fn get_entry() {
    let response = GetEntryResponse::from(response_body(200, ENTRY_XML.to_string()).unwrap());
    assert_eq!(response.to_string(), ENTRY_XML);
    let entry: Entry = Entry::try_from(response).unwrap();
    assert_eq!(entry.id.to_string(), "2500000000");
    assert_eq!(
        entry.edit_url,
        "https://blog.hatena.ne.jp/test_user/test_blog/atom/entry/2500000000"
    );
    assert_eq!(entry.url, "http://test_blog.hatenablog.com/entry/2013/09/02/112823");
    assert_eq!(entry.author_name, "test_user");
    assert_eq!(entry.content, "\n** 記事本文\n- リスト1\n- リスト2\n内容\n  ");
    assert_eq!(entry.categories, vec!["Scala".to_string(), "Perl".to_string()]);
    assert!(!entry.draft);
    assert_eq!(entry.updated.timestamp, 1378088903);
    assert_eq!(entry.updated.nanos, 0);
    assert_eq!(entry.updated.offset, 32400);
    assert_eq!(entry.published, entry.updated);
    assert_eq!(entry.edited, entry.updated);
}

#[test]
fn list_categories() {
    let response =
        ListCategoriesResponse::from(response_body(200, CATEGORY_DOCUMENT_XML.to_string()).unwrap());
    assert_eq!(response.to_string(), CATEGORY_DOCUMENT_XML);
    assert_eq!(
        response.to_categories(),
        Ok(vec!["Perl".to_string(), "Scala".to_string()])
    );
    assert_eq!(
        Vec::<String>::try_from(response),
        Ok(vec!["Perl".to_string(), "Scala".to_string()])
    );
}

#[test]
fn list_entries_in_page() {
    let response = ListEntriesResponse::from(response_body(200, FEED_XML.to_string()).unwrap());
    assert_eq!(response.to_string(), FEED_XML);
    let (next, ids): PartialList = response.to_partial_list().unwrap();
    assert_eq!(next, Some("1377584217".to_string()));
    assert_eq!(ids, vec!["2500000000".parse::<EntryId>().unwrap()]);
    let (next, entries) = response.to_entries().unwrap();
    assert_eq!(next, Some("1377584217".to_string()));
    assert_eq!(entries.len(), 1);
    assert_eq!(entries[0].title, "記事タイトル");
    let list: PartialList = PartialList::try_from(response.clone()).unwrap();
    assert_eq!(list.1.len(), 1);
    let full: (Option<String>, Vec<Entry>) = response.try_into().unwrap();
    assert_eq!(full.1, entries);
}

#[test]
fn update_entry() {
    let response = UpdateEntryResponse::from(response_body(200, ENTRY_XML.to_string()).unwrap());
    assert_eq!(response.clone().into_string(), ENTRY_XML);
    assert_eq!(String::from(response.clone()), ENTRY_XML);
    assert_eq!(response, MemberResponse::new(ENTRY_XML.to_string()));
    assert!(response.to_entry().is_ok());
}

#[test]
fn feed_without_a_next_link_has_no_cursor() {
    let xml = FEED_XML.replace(
        "  <link rel=\"next\" href=\"https://blog.hatena.ne.jp/test_user/test_blog/atom/entry?page=1377584217\" />\n",
        "",
    );
    assert!(!xml.contains("rel=\"next\""));
    let (next, ids) = CollectionResponse::new(xml).to_partial_list().unwrap();
    assert_eq!(next, None);
    assert_eq!(ids.len(), 1);
}

#[test]
fn next_link_without_a_page_has_no_cursor() {
    let xml = FEED_XML.replace("entry?page=1377584217", "entry?foo=1&amp;bar=2");
    let (next, _) = CollectionResponse::new(xml).to_partial_list().unwrap();
    assert_eq!(next, None);
    let xml = FEED_XML.replace("entry?page=1377584217", "entry?a=0&amp;page=x%20y&amp;page=z");
    let (next, _) = CollectionResponse::new(xml).to_partial_list().unwrap();
    assert_eq!(next, Some("x y".to_string()));
    let xml = FEED_XML.replace(
        "https://blog.hatena.ne.jp/test_user/test_blog/atom/entry?page=1377584217",
        "not a url?page=1",
    );
    let (next, _) = CollectionResponse::new(xml).to_partial_list().unwrap();
    assert_eq!(next, None);
}

#[test]
fn feed_with_an_incomplete_entry_fails() {
    let xml = FEED_XML.replace("    <app:edited>2013-09-02T11:28:23+09:00</app:edited>\n", "");
    assert!(CollectionResponse::new(xml.clone()).to_partial_list().is_err());
    assert!(CollectionResponse::new(xml).to_entries().is_err());
    assert!(CollectionResponse::new("<feed".to_string()).to_entries().is_err());
    assert!(CategoryDocumentResponse::new("<feed".to_string()).to_categories().is_err());
}

#[test]
fn category_conversion_fails_with_the_category_error() {
    let body = r#"<app:categories xmlns:app="http://www.w3.org/2007/app" href="http://example.com/cats"/>"#;
    let response = CategoryDocumentResponse::from(body.to_string());
    assert_eq!(response.to_categories(), Err(ParseCategoryError));
    assert_eq!(Vec::<String>::try_from(response), Err(ParseCategoryError));
    let nested = r#"<app:categories xmlns:app="http://www.w3.org/2007/app"><app:categories></app:categories></app:categories>"#;
    assert_eq!(
        Vec::<String>::try_from(CategoryDocumentResponse::from(nested.to_string())),
        Err(ParseCategoryError)
    );
    assert_eq!(CollectionResponse::new(body.to_string()).to_entries(), Err(ParseEntry));
}

#[test]
fn status_maps_to_its_error() {
    assert!(matches!(status_error(400), Some(ClientError::BadRequest)));
    assert!(matches!(status_error(401), Some(ClientError::Unauthorized)));
    assert!(matches!(status_error(404), Some(ClientError::NotFound)));
    assert!(matches!(status_error(405), Some(ClientError::MethodNotAllowed)));
    assert!(matches!(status_error(500), Some(ClientError::InternalServerError)));
    for status in [100u16, 199, 300, 301, 402, 403, 418, 499, 501, 503, 999] {
        assert!(matches!(status_error(status), Some(ClientError::UnknownStatusCode)));
        assert!(matches!(
            response_body(status, "x".to_string()),
            Err(ClientError::UnknownStatusCode)
        ));
    }
    for status in [200u16, 201, 204, 299] {
        assert!(status_error(status).is_none());
        assert_eq!(response_body(status, "body".to_string()).unwrap(), "body");
    }
    assert!(matches!(response_body(401, "body".to_string()), Err(ClientError::Unauthorized)));
    assert!(matches!(response_body(404, "body".to_string()), Err(ClientError::NotFound)));
    assert!(matches!(response_body(500, String::new()), Err(ClientError::InternalServerError)));
}
