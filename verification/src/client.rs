//! What a client of the blog host computes around its requests: the
//! addresses that it asks and the meaning of the status that comes back.

use vstd::prelude::*;
use vstd::string::*;
use crate::entry_id::EntryId;

verus! {

/// Why an answer is refused: the kind of its status. A failure to send the
/// request or to read the answer is the caller's to report.
#[derive(Clone, Copy, Debug, PartialEq, Eq, Structural)]
pub enum ClientError {
    BadRequest,
    Unauthorized,
    NotFound,
    MethodNotAllowed,
    InternalServerError,
    UnknownStatusCode,
}

/// Whether a byte stands for itself in a percent-encoded text: an ASCII
/// letter or digit, `-`, `.`, `_` or `~`.
pub open spec fn is_unreserved(b: u8) -> bool {
    ||| 0x30 <= b <= 0x39
    ||| 0x41 <= b <= 0x5a
    ||| 0x61 <= b <= 0x7a
    ||| b == 0x2d
    ||| b == 0x2e
    ||| b == 0x5f
    ||| b == 0x7e
}

/// The upper-case hexadecimal digit of a number below 16.
pub open spec fn hex_digit(n: u8) -> char {
    if n < 10 {
        ((0x30 + n) as u8) as char
    } else {
        ((0x37 + n) as u8) as char
    }
}

/// A byte as percent-encoding writes it.
pub open spec fn encoded_byte(b: u8) -> Seq<char> {
    if is_unreserved(b) {
        seq![b as char]
    } else {
        seq!['%', hex_digit(b / 16), hex_digit(b % 16)]
    }
}

/// The bytes as percent-encoding writes them, in order.
pub open spec fn encoded_bytes(bytes: Seq<u8>) -> Seq<char>
    decreases bytes.len(),
{
    if bytes.len() == 0 {
        Seq::empty()
    } else {
        encoded_bytes(bytes.drop_last()) + encoded_byte(bytes.last())
    }
}

/// The percent-encoded form of a text: that of its bytes in UTF-8.
pub open spec fn percent_encoded(s: Seq<char>) -> Seq<char> {
    encoded_bytes(vstd::utf8::encode_utf8(s))
}

/// Calls `urlencoding::encode`, which percent-encodes every byte of the
/// UTF-8 text but ASCII letters, digits, `-`, `_`, `.` and `~`, as `%` and
/// two upper-case hexadecimal digits.
#[verifier::external_body]
pub(crate) fn percent_encode(s: &str) -> (r: String)
    ensures
        r@ == percent_encoded(s@),
{
    urlencoding::encode(s).into_owned()
}

/// Whether a status is one of success, from 200 to 299.
pub open spec fn is_success(status: u16) -> bool {
    200 <= status < 300
}

/// The error that a status other than success stands for.
pub open spec fn error_of_status(status: u16) -> ClientError {
    if status == 400 {
        ClientError::BadRequest
    } else if status == 401 {
        ClientError::Unauthorized
    } else if status == 404 {
        ClientError::NotFound
    } else if status == 405 {
        ClientError::MethodNotAllowed
    } else if status == 500 {
        ClientError::InternalServerError
    } else {
        ClientError::UnknownStatusCode
    }
}

/// The root of a blog's addresses.
pub open spec fn blog_root(base_url: Seq<char>, hatena_id: Seq<char>, blog_id: Seq<char>) -> Seq<
    char,
> {
    base_url + "/"@ + hatena_id + "/"@ + blog_id
}

/// The query that asks for a page of the collection.
pub open spec fn page_query(page: Option<Seq<char>>) -> Seq<char> {
    match page {
        Some(p) => "?page="@ + percent_encoded(p),
        None => Seq::empty(),
    }
}

/// The error of a status; `None` for a status of success.
pub fn status_error(status: u16) -> (r: Option<ClientError>)
    ensures
        is_success(status) <==> r is None,
        !is_success(status) ==> r == Some(error_of_status(status)),
{
    if 200 <= status && status < 300 {
        None
    } else if status == 400 {
        Some(ClientError::BadRequest)
    } else if status == 401 {
        Some(ClientError::Unauthorized)
    } else if status == 404 {
        Some(ClientError::NotFound)
    } else if status == 405 {
        Some(ClientError::MethodNotAllowed)
    } else if status == 500 {
        Some(ClientError::InternalServerError)
    } else {
        Some(ClientError::UnknownStatusCode)
    }
}

/// The outcome of an answer: its body as it is for a status of success, and
/// the error of the status otherwise.
pub fn response_body(status: u16, body: String) -> (r: Result<String, ClientError>)
    ensures
        is_success(status) ==> r == Ok::<String, ClientError>(body),
        !is_success(status) ==> r == Err::<String, ClientError>(error_of_status(status)),
{
    match status_error(status) {
        None => Ok(body),
        Some(e) => Err(e),
    }
}

/// The root of a blog's addresses.
fn root_uri(base_url: &str, hatena_id: &str, blog_id: &str) -> (r: String)
    ensures
        r@ == blog_root(base_url@, hatena_id@, blog_id@),
{
    let mut s = String::from_str(base_url);
    s.append("/");
    s.append(hatena_id);
    s.append("/");
    s.append(blog_id);
    s
}

/// The address of a blog's category document.
pub fn category_document_uri(base_url: &str, hatena_id: &str, blog_id: &str) -> (r: String)
    ensures
        r@ == blog_root(base_url@, hatena_id@, blog_id@) + "/atom/category"@,
{
    let mut s = root_uri(base_url, hatena_id, blog_id);
    s.append("/atom/category");
    s
}

/// The address of a blog's collection of entries, or of one page of it.
pub fn collection_uri(base_url: &str, hatena_id: &str, blog_id: &str, page: Option<&str>) -> (r:
    String)
    ensures
        r@ == blog_root(base_url@, hatena_id@, blog_id@) + "/atom/entry"@ + page_query(
            match page {
                Some(p) => Some(p@),
                None => None,
            },
        ),
{
    let mut s = root_uri(base_url, hatena_id, blog_id);
    s.append("/atom/entry");
    match page {
        Some(p) => {
            let ghost before = s@;
            s.append("?page=");
            let encoded = percent_encode(p);
            s.append(encoded.as_str());
            assert(s@ =~= before + page_query(Some(p@)));
        },
        None => {
            assert(s@ =~= s@ + page_query(None));
        },
    }
    s
}

/// The address of one entry.
pub fn member_uri(base_url: &str, hatena_id: &str, blog_id: &str, entry_id: &EntryId) -> (r: String)
    ensures
        r@ == blog_root(base_url@, hatena_id@, blog_id@) + "/atom/entry/"@ + entry_id@,
{
    let mut s = root_uri(base_url, hatena_id, blog_id);
    s.append("/atom/entry/");
    s.append(entry_id.as_str());
    s
}

} // verus!
