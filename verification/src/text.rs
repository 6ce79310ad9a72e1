//! Small verified helpers on strings, stated over their character sequences.

use vstd::prelude::*;
use vstd::string::*;

verus! {

/// The characters of an optional string.
pub open spec fn opt_text(s: Option<String>) -> Option<Seq<char>> {
    match s {
        Some(t) => Some(t@),
        None => None,
    }
}

/// A copy of an optional string.
pub fn clone_opt(s: &Option<String>) -> (copy: Option<String>)
    ensures
        opt_text(copy) == opt_text(*s),
        copy is Some <==> s is Some,
{
    match s {
        Some(t) => Some(t.clone()),
        None => None,
    }
}

/// Whether two strings hold the same characters.
pub fn text_eq(a: &str, b: &str) -> (same: bool)
    ensures
        same == (a@ == b@),
{
    String::from_str(a) == String::from_str(b)
}

/// `first` followed by `second`.
pub fn join(first: &str, second: &str) -> (joined: String)
    ensures
        joined@ == first@ + second@,
{
    let mut joined = String::from_str(first);
    joined.append(second);
    joined
}

/// Whether `i` is the position of the only space in `s`.
pub open spec fn only_space_at(s: Seq<char>, i: int) -> bool {
    &&& 0 <= i < s.len()
    &&& s[i] == ' '
    &&& forall|j: int| 0 <= j < s.len() && j != i ==> s[j] != ' '
}

/// The position of the only space in `s`, if it holds exactly one.
pub fn find_only_space(s: &str) -> (at: Option<usize>)
    ensures
        match at {
            Some(i) => only_space_at(s@, i as int),
            None => forall|i: int| !only_space_at(s@, i),
        },
{
    let mut first: Option<usize> = None;
    let mut spaces: usize = 0;
    let mut pos: usize = 0;
    let length: usize = s.unicode_len();
    for c in it: s.chars()
        invariant
            it.seq() == s@,
            length == s@.len(),
            pos == it.index(),
            spaces <= pos <= length,
            spaces == 0 ==> first is None && forall|j: int| 0 <= j < pos ==> s@[j] != ' ',
            spaces == 1 ==> first is Some && first->0 < pos && s@[first->0 as int] == ' '
                && forall|j: int| 0 <= j < pos && j != first->0 ==> s@[j] != ' ',
            spaces >= 2 ==> exists|j: int, k: int|
                0 <= j < k < pos && s@[j] == ' ' && s@[k] == ' ',
    {
        if c == ' ' {
            if spaces == 0 {
                first = Some(pos);
            }
            spaces = spaces + 1;
        }
        pos = pos + 1;
    }
    if spaces == 1 {
        first
    } else {
        None
    }
}

} // verus!
