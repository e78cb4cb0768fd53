//! Strings as sequences of characters: the views that contracts speak of, and
//! the few string operations the resolver needs.

use vstd::prelude::*;

verus! {

/// The contents of a list of strings.
pub open spec fn texts(list: Seq<String>) -> Seq<Seq<char>> {
    Seq::new(list.len(), |i: int| list[i]@)
}

/// The contents of a string that may be absent.
pub open spec fn opt_text(value: Option<String>) -> Option<Seq<char>> {
    match value {
        Some(s) => Some(s@),
        None => None,
    }
}

/// The contents of a list of strings that may be absent.
pub open spec fn opt_texts(value: Option<Vec<String>>) -> Option<Seq<Seq<char>>> {
    match value {
        Some(list) => Some(texts(list@)),
        None => None,
    }
}

/// The contents of a result whose error is a message.
pub open spec fn unit_outcome(value: Result<(), String>) -> Result<(), Seq<char>> {
    match value {
        Ok(_) => Ok(()),
        Err(message) => Err(message@),
    }
}

/// What `Debug` prints for a string: the string between double quotes, with
/// quotes, backslashes and unprintable characters escaped.
pub uninterp spec fn debug_quoted(text: Seq<char>) -> Seq<char>;

/// `Debug` of `str`, through `format!`. The text depends on the characters
/// alone; nothing else is claimed of it.
#[verifier::external_body]
pub(crate) fn debug_quote(text: &str) -> (quoted: String)
    ensures
        quoted@ == debug_quoted(text@),
{
    format!("{:?}", text)
}

/// Whether `text` begins with `prefix`.
pub fn starts_with(text: &str, prefix: &str) -> (found: bool)
    ensures
        found == prefix@.is_prefix_of(text@),
{
    let wanted: usize = prefix.unicode_len();
    if wanted > text.unicode_len() {
        return false;
    }
    let head = String::from_str(text.substring_char(0, wanted));
    head == String::from_str(prefix)
}

/// `first` followed by `second`.
pub fn joined(first: &str, second: &str) -> (whole: String)
    ensures
        whole@ == first@ + second@,
{
    let mut whole = String::from_str(first);
    whole.append(second);
    whole
}

/// A copy of a list of strings.
pub fn clone_texts(list: &Vec<String>) -> (copy: Vec<String>)
    ensures
        texts(copy@) == texts(list@),
{
    let mut copy: Vec<String> = Vec::new();
    let mut i: usize = 0;
    while i < list.len()
        invariant
            i <= list.len(),
            copy.len() == i,
            forall|j: int| 0 <= j < i ==> copy[j]@ == list[j]@,
        decreases list.len() - i,
    {
        copy.push(list[i].clone());
        i += 1;
    }
    assert(texts(copy@) =~= texts(list@));
    copy
}

} // verus!
