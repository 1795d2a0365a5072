//! Small helpers on strings and lists of strings shared by the other modules.

use vstd::prelude::*;
use vstd::string::*;
use vstd::std_specs::iter::IteratorSpec;

verus! {

/// The character sequences of a list of strings, in order.
pub open spec fn strings_view(v: Seq<String>) -> Seq<Seq<char>> {
    Seq::new(v.len(), |i: int| v[i]@)
}

/// The character sequence of a string that may be absent.
pub open spec fn option_view(s: Option<String>) -> Option<Seq<char>> {
    match s {
        Some(t) => Some(t@),
        None => None,
    }
}

/// The index of the first of `keys`, at or after `from`, that equals `key`;
/// the length of `keys` where there is none.
pub open spec fn first_match(keys: Seq<Seq<char>>, key: Seq<char>, from: int) -> int
    decreases keys.len() - from,
{
    if from < 0 || from >= keys.len() {
        keys.len() as int
    } else if keys[from] == key {
        from
    } else {
        first_match(keys, key, from + 1)
    }
}

/// What follows the last `/` of the text; the whole text where it has none.
pub open spec fn last_segment(s: Seq<char>) -> Seq<char>
    decreases s.len(),
{
    if s.len() == 0 {
        Seq::empty()
    } else if s.last() == '/' {
        Seq::empty()
    } else {
        last_segment(s.drop_last()).push(s.last())
    }
}

/// `String::push` appends one character to the string.
pub assume_specification[ String::push ](s: &mut String, c: char)
    ensures
        final(s)@ == old(s)@.push(c),
;

/// `str::strip_prefix` with a string as the pattern: the rest of `s` where
/// `s` starts with `prefix`, and `None` where it does not.
#[verifier::external_body]
pub(crate) fn strip_prefix<'a>(s: &'a str, prefix: &str) -> (r: Option<&'a str>)
    ensures
        match r {
            Some(rest) => prefix@.is_prefix_of(s@) && rest@ == s@.skip(prefix@.len() as int),
            None => !prefix@.is_prefix_of(s@),
        },
{
    s.strip_prefix(prefix)
}

/// Whether two strings hold the same characters.
pub fn str_eq(a: &str, b: &str) -> (r: bool)
    ensures
        r == (a@ == b@),
{
    let x = a.to_owned();
    let y = b.to_owned();
    x == y
}

/// The part of `s` after its last `/`.
pub fn last_path_segment(s: &str) -> (r: String)
    ensures
        r@ == last_segment(s@),
{
    broadcast use vstd::string::group_string_axioms;

    let mut out = String::new();
    let mut it = s.chars();
    let ghost mut done: Seq<char> = Seq::empty();
    loop
        invariant
            done + it.remaining() == s@,
            out@ == last_segment(done),
        ensures
            done == s@,
        decreases s@.len() - done.len(),
    {
        let ghost before = done;
        let ghost rest = it.remaining();
        match it.next() {
            Some(c) => {
                proof {
                    done = done.push(c);
                    assert(done.drop_last() =~= before);
                    assert(done + it.remaining() =~= before + rest);
                }
                if c == '/' {
                    out = String::new();
                } else {
                    out.push(c);
                }
            },
            None => {
                assert(done =~= s@);
                break;
            },
        }
    }
    out
}

} // verus!
