//! Where a repository's working copy lives.
use vstd::prelude::*;

verus! {

/// What `camino::Utf8Path::join` returns for `base` and `part`.
pub uninterp spec fn joined(base: Seq<char>, part: Seq<char>) -> Seq<char>;

/// Relies on `camino::Utf8Path::join`: adjoins `part` to `base`, a function of
/// the two strings alone.
#[verifier::external_body]
pub(crate) fn join(base: &str, part: &str) -> (r: String)
    ensures
        r@ == joined(base@, part@),
{
    camino::Utf8Path::new(base).join(part).into_string()
}

/// The working copy of repository `name` under `root`: `<root>/repos/<name>`.
pub open spec fn working_copy(root: Seq<char>, name: Seq<char>) -> Seq<char> {
    joined(joined(root, "repos"@), name)
}

pub fn working_copy_path(root: &str, name: &str) -> (r: String)
    ensures
        r@ == working_copy(root@, name@),
{
    let repos = join(root, "repos");
    join(repos.as_str(), name)
}

} // verus!
