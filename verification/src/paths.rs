//! Path arithmetic. Paths are carried as text; the arithmetic itself is
//! `std::path`'s, reached through four small wrappers. What each call returns
//! is given a name, which stands for the result on the platform the library
//! is built for. Nothing is claimed of a name but that equal arguments give
//! equal results.

use vstd::prelude::*;

verus! {

/// The result of `std::path::Path::parent` on the path written `path`, on the
/// platform the library is built for: the path without its final component,
/// or `None` when it ends in a root or is empty.
pub uninterp spec fn parent_of(path: Seq<char>) -> Option<Seq<char>>;

/// The result of `std::path::Path::join`: `name` adjoined to `base`.
pub uninterp spec fn joined(base: Seq<char>, name: Seq<char>) -> Seq<char>;

/// The result of `std::path::Path::with_extension`: `path` with the extension
/// of its file name replaced by `extension`.
pub uninterp spec fn with_extension_of(path: Seq<char>, extension: Seq<char>) -> Seq<char>;

/// The text that `std::path::Path`'s `Debug` impl writes for `path`: the path
/// between double quotes, with escapes.
pub uninterp spec fn debug_text(path: Seq<char>) -> Seq<char>;

/// Calls `std::path::Path::parent`. Trusted: the result is `parent_of` of the
/// argument, which says nothing beyond "the same path has the same parent".
#[verifier::external_body]
pub(crate) fn path_parent(path: &str) -> (r: Option<String>)
    ensures
        match r {
            Some(p) => parent_of(path@) == Some(p@),
            None => parent_of(path@).is_none(),
        },
{
    match std::path::Path::new(path).parent() {
        Some(p) => Some(p.to_string_lossy().into_owned()),
        None => None,
    }
}

/// Calls `std::path::Path::join`. Trusted: the result is `joined` of the
/// arguments.
#[verifier::external_body]
pub(crate) fn path_join(base: &str, name: &str) -> (r: String)
    ensures
        r@ == joined(base@, name@),
{
    std::path::Path::new(base).join(name).to_string_lossy().into_owned()
}

/// Whether `c` separates the components of a path on some platform.
pub open spec fn is_separator(c: char) -> bool {
    c == '/' || c == '\\'
}

/// Whether `text` holds no path separator.
pub open spec fn free_of_separators(text: Seq<char>) -> bool {
    forall|i: int| 0 <= i < text.len() ==> !is_separator(#[trigger] text[i])
}

/// Calls `std::path::Path::with_extension`, which panics on an extension
/// that holds a path separator: such extensions are kept out. Trusted: the
/// result is `with_extension_of` of the arguments.
#[verifier::external_body]
pub(crate) fn path_with_extension(path: &str, extension: &str) -> (r: String)
    requires
        free_of_separators(extension@),
    ensures
        r@ == with_extension_of(path@, extension@),
{
    std::path::Path::new(path).with_extension(extension).to_string_lossy().into_owned()
}

/// Formats a path with `std::path::Path`'s `Debug` impl. Trusted: the result
/// is `debug_text` of the argument.
#[verifier::external_body]
pub(crate) fn path_debug(path: &str) -> (r: String)
    ensures
        r@ == debug_text(path@),
{
    format!("{:?}", std::path::Path::new(path))
}

/// The directory an executable is installed in: the parent of its path, or
/// the current directory `.` for a path that has none.
pub open spec fn install_dir(parent: Option<Seq<char>>) -> Seq<char> {
    match parent {
        Some(dir) => dir,
        None => "."@,
    }
}

/// The data directory of an executable at `exe`: the folder `data` beside it.
pub open spec fn data_dir_of(exe: Seq<char>) -> Seq<char> {
    joined(install_dir(parent_of(exe)), "data"@)
}

/// The document `name` in the data directory `base`.
pub open spec fn document_path(base: Seq<char>, name: Seq<char>) -> Seq<char> {
    joined(base, name)
}

/// The temporary sibling that a write to `path` goes through: `path` with
/// its extension replaced by `tmp` or, where that is `path` itself, `path`
/// with `.tmp` added at the end.
pub open spec fn temp_sibling(path: Seq<char>) -> Seq<char> {
    if with_extension_of(path, "tmp"@) == path {
        path + ".tmp"@
    } else {
        with_extension_of(path, "tmp"@)
    }
}

/// The temporary sibling of a path is never the path itself.
pub proof fn lemma_temp_sibling_differs(path: Seq<char>)
    ensures
        temp_sibling(path) != path,
{
    reveal_strlit(".tmp");
    assert((path + ".tmp"@).len() == path.len() + 4);
}

/// Picks the installation directory from the parent of the executable's path.
pub fn install_dir_from(parent: Option<String>) -> (dir: String)
    ensures
        dir@ == install_dir(match parent { Some(p) => Some(p@), None => None }),
{
    match parent {
        Some(dir) => dir,
        None => String::from_str("."),
    }
}

/// Computes the temporary sibling that a write to `path` goes through.
pub fn temp_beside(path: &String) -> (tmp: String)
    ensures
        tmp@ == temp_sibling(path@),
        tmp@ != path@,
{
    proof {
        reveal_strlit("tmp");
        lemma_temp_sibling_differs(path@);
    }
    let swapped = path_with_extension(path.as_str(), "tmp");
    if swapped == *path {
        let mut tmp = path.clone();
        tmp.append(".tmp");
        tmp
    } else {
        swapped
    }
}

/// Computes the data directory that belongs to the executable at `exe`.
pub fn data_dir_beside(exe: &str) -> (base: String)
    ensures
        base@ == data_dir_of(exe@),
{
    let dir = install_dir_from(path_parent(exe));
    path_join(dir.as_str(), "data")
}

} // verus!
