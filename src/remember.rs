//! The remembered-identity format: the file holds the last login name, and
//! reading it back trims it and treats a blank file as no name.

use vstd::prelude::*;
use crate::text::{is_ws, trim, trim_end, trim_start, trimmed};

verus! {

/// The file contents written for `name`: the name itself, overwriting.
pub open spec fn stored(name: Seq<char>) -> Seq<char> {
    name
}

/// The name read back from file contents.
pub open spec fn recalled(contents: Seq<char>) -> Option<Seq<char>> {
    if trimmed(contents).len() == 0 {
        None
    } else {
        Some(trimmed(contents))
    }
}

/// The name read back from a file that may be missing or unreadable (`None`).
pub open spec fn recalled_file(contents: Option<Seq<char>>) -> Option<Seq<char>> {
    match contents {
        Some(c) => recalled(c),
        None => None,
    }
}

/// `s` has no whitespace at either end.
pub open spec fn is_trim(s: Seq<char>) -> bool {
    s.len() > 0 ==> !is_ws(s[0]) && !is_ws(s.last())
}

/// The contents to write so that `name` is remembered.
pub fn contents_for(name: &str) -> (r: String)
    ensures
        r@ == stored(name@),
{
    name.to_owned()
}

/// The remembered name held in `contents`: trimmed, and none when blank.
pub fn recall(contents: &str) -> (r: Option<String>)
    ensures
        match r {
            Some(n) => recalled(contents@) == Some(n@),
            None => recalled(contents@) is None,
        },
{
    let t = trim(contents);
    if t.as_str().unicode_len() == 0 {
        None
    } else {
        Some(t)
    }
}

/// A name with no whitespace at either end is its own trimmed form.
pub proof fn lemma_trim_of_trim(s: Seq<char>)
    requires
        is_trim(s),
    ensures
        trimmed(s) == s,
{
    assert(trim_start(s) == s);
    assert(trim_end(s) == s);
}

/// Writing a name and reading it back gives the name trimmed, or no name
/// when it is blank; a name without surrounding whitespace comes back
/// unchanged, and the empty name comes back as none.
pub proof fn lemma_round_trip(name: Seq<char>)
    ensures
        recalled(stored(name)) == (if trimmed(name).len() == 0 {
            None
        } else {
            Some(trimmed(name))
        }),
        is_trim(name) && name.len() > 0 ==> recalled(stored(name)) == Some(name),
        name.len() == 0 ==> recalled(stored(name)) is None,
{
    if is_trim(name) {
        lemma_trim_of_trim(name);
    }
}

} // verus!
