//! Identifier of a blog entry: a string that is never empty.

use vstd::prelude::*;

verus! {

/// A validated entry identifier. Two identifiers are equal with `==` when
/// their texts are.
#[derive(Debug, Eq, Hash)]
pub struct EntryId(String);

/// The error of parsing an entry identifier from the empty string.
#[derive(Debug, Eq, PartialEq)]
pub struct EntryIdParseError {
    _private: (),
}

impl View for EntryId {
    type V = Seq<char>;

    closed spec fn view(&self) -> Seq<char> {
        self.0@
    }
}

/// The text of the identifier that a string is parsed to; `None` for the
/// empty string, which is no identifier.
pub open spec fn entry_id_text(s: Seq<char>) -> Option<Seq<char>> {
    if s.len() == 0 {
        None
    } else {
        Some(s)
    }
}

/// Parsing a string that is not empty and writing the identifier out again
/// gives the string back; the empty string is never parsed.
pub proof fn lemma_parse_round_trip(s: Seq<char>)
    ensures
        s.len() > 0 ==> entry_id_text(s) == Some(s),
        s.len() == 0 ==> entry_id_text(s) is None,
{
}

impl EntryId {
    #[verifier::type_invariant]
    spec fn nonempty(self) -> bool {
        self.0@.len() > 0
    }

    /// Accepts every string but the empty one, and keeps it verbatim.
    pub fn parse(s: &str) -> (r: Result<EntryId, EntryIdParseError>)
        ensures
            match entry_id_text(s@) {
                Some(text) => r is Ok && r->Ok_0@ == text,
                None => r is Err,
            },
    {
        if s.is_empty() {
            return Err(EntryIdParseError { _private: () });
        }
        Ok(EntryId(s.to_owned()))
    }

    /// The identifier's text, which is never empty.
    pub fn as_str(&self) -> (r: &str)
        ensures
            r@ == self@,
            r@.len() > 0,
    {
        proof {
            use_type_invariant(self);
        }
        self.0.as_str()
    }

    /// The string that the identifier was parsed from.
    pub fn to_string(&self) -> (r: String)
        ensures
            r@ == self@,
            r@.len() > 0,
    {
        proof {
            use_type_invariant(self);
        }
        self.0.clone()
    }
}

impl PartialEq for EntryId {
    fn eq(&self, other: &Self) -> (r: bool) {
        self.0 == other.0
    }
}

impl vstd::std_specs::cmp::PartialEqSpecImpl for EntryId {
    open spec fn obeys_eq_spec() -> bool {
        true
    }

    open spec fn eq_spec(&self, other: &Self) -> bool {
        self@ == other@
    }
}

impl Clone for EntryId {
    fn clone(&self) -> (r: Self)
        ensures
            r@ == self@,
    {
        proof {
            use_type_invariant(self);
        }
        EntryId(self.0.clone())
    }
}

impl std::str::FromStr for EntryId {
    type Err = EntryIdParseError;

    fn from_str(s: &str) -> (r: Result<Self, Self::Err>)
        ensures
            match entry_id_text(s@) {
                Some(text) => r is Ok && r->Ok_0@ == text,
                None => r is Err,
            },
    {
        EntryId::parse(s)
    }
}

} // verus!
