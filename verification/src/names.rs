//! Which names a document may have. A name is joined to the data directory
//! only if, read as a path on any platform, it can neither climb out of the
//! directory nor replace it.

use crate::paths::is_separator;
use vstd::prelude::*;

verus! {

/// Whether `name` begins at a root: with a separator.
pub open spec fn is_rooted(name: Seq<char>) -> bool {
    name.len() > 0 && is_separator(name[0])
}

/// Whether `name` begins with a drive prefix: a character and a colon.
pub open spec fn has_prefix(name: Seq<char>) -> bool {
    name.len() >= 2 && name[1] == ':'
}

/// Whether the segment `..` stands in `name` at `at`: two full stops between
/// separators or the ends of the name.
pub open spec fn parent_segment_at(name: Seq<char>, at: int) -> bool {
    &&& 0 <= at
    &&& at + 2 <= name.len()
    &&& at == 0 || is_separator(name[at - 1])
    &&& name[at] == '.'
    &&& name[at + 1] == '.'
    &&& at + 2 == name.len() || is_separator(name[at + 2])
}

/// Whether a segment of `name` is `..`, the parent directory.
pub open spec fn has_parent_segment(name: Seq<char>) -> bool {
    exists|at: int| parent_segment_at(name, at)
}

/// Whether `name` is fit to be joined to the data directory: it begins at no
/// root and with no prefix, and no segment of it is the parent directory.
pub open spec fn confined(name: Seq<char>) -> bool {
    &&& !is_rooted(name)
    &&& !has_prefix(name)
    &&& !has_parent_segment(name)
}

/// Tells whether `c` is a path separator.
pub fn separates(c: char) -> (yes: bool)
    ensures
        yes == is_separator(c),
{
    c == '/' || c == '\\'
}

/// Tells whether `name` is fit to be joined to the data directory.
pub fn is_confined(name: &str) -> (yes: bool)
    ensures
        yes == confined(name@),
{
    let len = name.unicode_len();
    if len > 0 && separates(name.get_char(0)) {
        return false;
    }
    if len >= 2 && name.get_char(1) == ':' {
        return false;
    }
    let mut at: usize = 0;
    while at < len && len - at >= 2
        invariant
            len == name@.len(),
            at <= len,
            forall|before: int| 0 <= before < at ==> !parent_segment_at(name@, before),
        decreases len - at,
    {
        let begins = at == 0 || separates(name.get_char(at - 1));
        if begins && name.get_char(at) == '.' && name.get_char(at + 1) == '.' {
            if len - at == 2 || separates(name.get_char(at + 2)) {
                assert(parent_segment_at(name@, at as int));
                return false;
            }
        }
        at += 1;
    }
    true
}

} // verus!
