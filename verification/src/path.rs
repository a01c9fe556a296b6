//! Paths as text, composed by the platform's own rules.

use vstd::prelude::*;

verus! {

/// `segment` adjoined to `base`, as `Path::join` of the target platform has
/// it.
pub uninterp spec fn path_join(base: Seq<char>, segment: Seq<char>) -> Seq<char>;

/// `path` without its final component, as `Path::parent` of the target
/// platform has it; `None` where the path ends in a root or is empty.
pub uninterp spec fn path_parent(path: Seq<char>) -> Option<Seq<char>>;

/// Calls `Path::join`. Taken on trust: the joined path is `path_join` of the
/// two paths. Both are UTF-8, and so is what is made of them, so that nothing
/// is lost where the result is turned into a string.
#[verifier::external_body]
pub(crate) fn join(base: &str, segment: &str) -> (joined: String)
    ensures
        joined@ == path_join(base@, segment@),
{
    std::path::Path::new(base).join(segment).to_string_lossy().into_owned()
}

/// Calls `Path::parent`. Taken on trust: the answer is `path_parent` of the
/// path, which is `None` exactly where the call finds no parent.
#[verifier::external_body]
pub(crate) fn parent(path: &str) -> (dir: Option<String>)
    ensures
        match dir {
            Some(d) => path_parent(path@) == Some(d@),
            None => path_parent(path@) is None,
        },
{
    match std::path::Path::new(path).parent() {
        Some(dir) => Some(dir.to_string_lossy().into_owned()),
        None => None,
    }
}

/// Whether two strings hold the same characters.
pub(crate) fn same(left: &str, right: &str) -> (equal: bool)
    ensures
        equal == (left@ == right@),
{
    left.to_owned() == right.to_owned()
}

/// The texts of a list of strings.
pub open spec fn texts(strings: Seq<String>) -> Seq<Seq<char>> {
    strings.map_values(|s: String| s@)
}

/// The texts of a list with one more string are the texts of the list with one
/// more text.
pub proof fn lemma_texts_push(strings: Seq<String>, last: String)
    ensures
        texts(strings.push(last)) == texts(strings).push(last@),
{
    assert(texts(strings.push(last)) =~= texts(strings).push(last@));
}

} // verus!
