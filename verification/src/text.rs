//! Texts and `/`-separated paths, stated over their character sequences.

use vstd::prelude::*;
use vstd::string::*;

verus! {

/// Name of the marker file that identifies a directory as a seed's payload root.
pub const TOHUMRC_FILENAME: &'static str = ".tohumrc";

/// Sparse pattern that selects every marker file of a silo and nothing else.
pub const TOHUMRC_GLOB_PATTERN: &'static str = "**/.tohumrc";

/// Name of the version-control metadata directory that a walk never enters.
pub const GIT_DIR_NAME: &'static str = ".git";

/// Whether two string slices hold the same characters.
pub fn same_text(a: &str, b: &str) -> (same: bool)
    ensures
        same == (a@ == b@),
{
    let x = String::from_str(a);
    let y = String::from_str(b);
    x == y
}

/// Finds the first occurrence of a character.
pub fn find_char(s: &str, c: char) -> (found: Option<usize>)
    ensures
        match found {
            Some(i) => i < s@.len() && s@[i as int] == c && forall|j: int|
                0 <= j < i ==> s@[j] != c,
            None => forall|j: int| 0 <= j < s@.len() ==> s@[j] != c,
        },
{
    let n = s.unicode_len();
    let mut i: usize = 0;
    while i < n
        invariant
            n == s@.len(),
            i <= n,
            forall|j: int| 0 <= j < i ==> s@[j] != c,
        decreases n - i,
    {
        if s.get_char(i) == c {
            return Some(i);
        }
        i += 1;
    }
    None
}

/// The parts of a path written one after the other with `/` between them.
pub open spec fn joined(parts: Seq<String>) -> Seq<char>
    decreases parts.len(),
{
    if parts.len() == 0 {
        Seq::empty()
    } else if parts.len() == 1 {
        parts[0]@
    } else {
        joined(parts.drop_last()) + seq!['/'] + parts.last()@
    }
}

fn join_first(parts: &Vec<String>, count: usize) -> (text: String)
    requires
        count <= parts.len(),
    ensures
        text@ == joined(parts@.take(count as int)),
{
    let mut text = String::new();
    let mut i: usize = 0;
    while i < count
        invariant
            i <= count <= parts.len(),
            text@ == joined(parts@.take(i as int)),
        decreases count - i,
    {
        proof {
            assert(parts@.take(i + 1).drop_last() == parts@.take(i as int));
            reveal_strlit("/");
        }
        if i > 0 {
            text.append("/");
        }
        text.append(parts[i].as_str());
        i += 1;
    }
    text
}

/// Writes the parts of a path as one `/`-separated text.
pub fn join_parts(parts: &Vec<String>) -> (text: String)
    ensures
        text@ == joined(parts@),
{
    assert(parts@.take(parts@.len() as int) == parts@);
    join_first(parts, parts.len())
}

/// The parts of a path without the last; none of a path that has none.
pub open spec fn parent_parts(parts: Seq<String>) -> Seq<String> {
    if parts.len() == 0 {
        parts
    } else {
        parts.drop_last()
    }
}

/// Writes the parent of a path as one `/`-separated text: the path without
/// its last part.
pub fn join_parent(parts: &Vec<String>) -> (text: String)
    ensures
        text@ == joined(parent_parts(parts@)),
{
    if parts.len() == 0 {
        return String::new();
    }
    join_first(parts, parts.len() - 1)
}

/// A path followed by one more component, as a `/`-separated text: an absolute
/// component replaces the path, an empty path adds no separator, and a path that
/// already ends in `/` gets none added.
pub open spec fn extended(base: Seq<char>, name: Seq<char>) -> Seq<char> {
    if name.len() > 0 && name[0] == '/' {
        name
    } else if base.len() == 0 || base.last() == '/' {
        base + name
    } else {
        base + seq!['/'] + name
    }
}

/// Appends one component to a `/`-separated path.
pub fn join_path(base: &str, name: &str) -> (path: String)
    ensures
        path@ == extended(base@, name@),
{
    let base_len = base.unicode_len();
    let name_len = name.unicode_len();
    if name_len > 0 && name.get_char(0) == '/' {
        return String::from_str(name);
    }
    let mut path = String::from_str(base);
    if base_len > 0 && base.get_char(base_len - 1) != '/' {
        proof {
            reveal_strlit("/");
        }
        path.append("/");
    }
    path.append(name);
    path
}

} // verus!
