//! Typed records for a blog host's Atom Publishing Protocol API, with the
//! rules that read its Atom documents and write its entry documents.

pub mod atom;
pub mod category;
pub mod client;
pub mod datetime;
pub mod entry;
pub mod entry_id;
pub mod entry_params;
pub mod response;
pub mod text;
pub mod url;
pub mod xml;

pub use crate::category::ParseCategoryError;
pub use crate::client::ClientError;
pub use crate::datetime::FixedDateTime;
pub use crate::entry::Entry;
pub use crate::entry::ParseEntry;
pub use crate::entry::ParseEntry as ParseEntryError;
pub use crate::entry_id::EntryId;
pub use crate::entry_id::EntryIdParseError;
pub use crate::entry_params::EntryParams;
pub use crate::response::CategoryDocumentResponse;
pub use crate::response::CollectionResponse;
pub use crate::response::CreateEntryResponse;
pub use crate::response::DeleteEntryResponse;
pub use crate::response::EmptyResponse;
pub use crate::response::GetEntryResponse;
pub use crate::response::ListCategoriesResponse;
pub use crate::response::ListEntriesResponse;
pub use crate::response::MemberResponse;
pub use crate::response::PartialList;
pub use crate::response::UpdateEntryResponse;
