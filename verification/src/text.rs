//! Character sequences: the view under which paths are read.

use vstd::prelude::*;

verus! {

/// What follows `prefix` in `s`, if `s` begins with `prefix`.
pub open spec fn after_prefix(s: Seq<char>, prefix: Seq<char>) -> Option<Seq<char>> {
    if prefix.is_prefix_of(s) {
        Some(s.skip(prefix.len() as int))
    } else {
        None
    }
}

/// What follows `prefix` in `prefix + rest` is `rest`.
pub proof fn lemma_after_prefix_concat(prefix: Seq<char>, rest: Seq<char>)
    ensures
        after_prefix(prefix + rest, prefix) == Some(rest),
{
    assert((prefix + rest).subrange(0, prefix.len() as int) =~= prefix);
    assert((prefix + rest).skip(prefix.len() as int) =~= rest);
}

/// No two `/` stand next to each other in `s`.
pub open spec fn no_double_slash(s: Seq<char>) -> bool {
    forall|i: int, j: int|
        0 <= i && j == i + 1 && j < s.len() ==> !(#[trigger] s[i] == '/' && #[trigger] s[j] == '/')
}

/// `path` begins with `/` and holds no two `/` in a row.
pub open spec fn is_clean_path(path: Seq<char>) -> bool {
    &&& path.len() > 0
    &&& path[0] == '/'
    &&& no_double_slash(path)
}

/// The characters of `s`, in order.
pub fn chars_of(s: &str) -> (chars: Vec<char>)
    ensures
        chars@ == s@,
{
    let mut chars: Vec<char> = Vec::new();
    for c in it: s.chars()
        invariant
            it.seq() == s@,
            chars@ == s@.take(it.index()),
    {
        chars.push(c);
    }
    chars
}

/// Splits `prefix` off the front of `chars`.
pub fn strip_prefix<'a>(chars: &'a [char], prefix: &str) -> (rest: Option<&'a [char]>)
    ensures
        match rest {
            Some(r) => after_prefix(chars@, prefix@) == Some(r@),
            None => after_prefix(chars@, prefix@) is None,
        },
{
    let mut i: usize = 0;
    for c in it: prefix.chars()
        invariant
            it.seq() == prefix@,
            i == it.index(),
            i <= chars@.len(),
            chars@.take(i as int) == prefix@.take(i as int),
    {
        if i >= chars.len() || chars[i] != c {
            return None;
        }
        i += 1;
    }
    let (_, rest) = chars.split_at(i);
    Some(rest)
}

/// Whether `chars` spells exactly `word`.
pub fn spells(chars: &[char], word: &str) -> (same: bool)
    ensures
        same == (chars@ == word@),
{
    match strip_prefix(chars, word) {
        Some(rest) => {
            assert(rest@.len() == 0 ==> chars@ =~= word@);
            rest.len() == 0
        },
        None => false,
    }
}

} // verus!
