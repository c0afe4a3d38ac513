use vstd::prelude::*;

verus! {

/// The parent that `std::path::Path::parent` finds for a path, over the path's characters.
pub uninterp spec fn parent_of(p: Seq<char>) -> Option<Seq<char>>;

/// The path that `std::path::Path::join` builds from a base and a pushed part.
pub uninterp spec fn joined(base: Seq<char>, part: Seq<char>) -> Seq<char>;

/// Relies on `std::path::Path::parent`: the path without its last component, or
/// `None` where the path ends in a root or a prefix (or is empty). The parent of a
/// path given as text is text again, so its display loses nothing.
#[verifier::external_body]
pub(crate) fn path_parent(p: &str) -> (r: Option<String>)
    ensures
        r is Some <==> parent_of(p@) is Some,
        r is Some ==> parent_of(p@) == Some(r->0@),
{
    match std::path::Path::new(p).parent() {
        Some(q) => Some(q.display().to_string()),
        None => None,
    }
}

/// Relies on `std::path::Path::join`: `part` pushed onto `base`. A path built from
/// text is text again, so its display loses nothing.
#[verifier::external_body]
pub(crate) fn join_path(base: &str, part: &str) -> (r: String)
    ensures
        r@ == joined(base@, part@),
{
    std::path::Path::new(base).join(part).display().to_string()
}

} // verus!
