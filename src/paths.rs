//! Where the lock file and the socket live.
//!
//! Every path is a fixed suffix of the user's application-support root, so
//! every instance run by the same user computes the same paths.
use vstd::prelude::*;
use vstd::string::*;

verus! {

/// The application-support subdirectory of the launcher, relative to the
/// user's application-support root, with its leading separator.
pub open spec fn bundle_suffix() -> Seq<char> {
    seq!['/', 'r', 'u', 'n', 'n', 'e', 'r']
}

/// The lock file inside the support directory, with its leading separator.
pub open spec fn lock_suffix() -> Seq<char> {
    seq!['/', 'l', 'o', 'c', 'k', 'f', 'i', 'l', 'e', '.', 'l', 'o', 'c', 'k']
}

/// The socket inside the support directory, with its leading separator.
pub open spec fn socket_suffix() -> Seq<char> {
    seq!['/', 'i', 'p', 'c', '.', 's', 'o', 'c', 'k']
}

/// The support directory for a given application-support root.
pub open spec fn support_dir_of(root: Seq<char>) -> Seq<char> {
    root + bundle_suffix()
}

/// The lock file for a given support directory.
pub open spec fn lock_path_of(dir: Seq<char>) -> Seq<char> {
    dir + lock_suffix()
}

/// The socket path for a given support directory.
pub open spec fn socket_path_of(dir: Seq<char>) -> Seq<char> {
    dir + socket_suffix()
}

/// Appends `suffix` to `base`.
fn join(base: &str, suffix: &str) -> (r: String)
    ensures
        r@ == base@ + suffix@,
{
    let mut r = String::from_str(base);
    r.append(suffix);
    r
}

/// The support directory of the launcher under the user's
/// application-support root `root`.
pub fn app_support_path(root: &str) -> (r: String)
    ensures
        r@ == support_dir_of(root@),
{
    let suffix = "/runner";
    proof {
        reveal_strlit("/runner");
        assert(suffix@ =~= bundle_suffix());
    }
    join(root, suffix)
}

/// The lock file inside the support directory `path`.
///
/// This only computes the path; creating the directory when it is missing is
/// the first action of [`crate::launch::Launch`].
pub fn check_for_appsupport_dir(path: &String) -> (r: String)
    ensures
        r@ == lock_path_of(path@),
{
    let suffix = "/lockfile.lock";
    proof {
        reveal_strlit("/lockfile.lock");
        assert(suffix@ =~= lock_suffix());
    }
    join(path.as_str(), suffix)
}

/// The socket path inside the support directory `path`.
pub fn socket_path(path: &String) -> (r: String)
    ensures
        r@ == socket_path_of(path@),
{
    let suffix = "/ipc.sock";
    proof {
        reveal_strlit("/ipc.sock");
        assert(suffix@ =~= socket_suffix());
    }
    join(path.as_str(), suffix)
}

/// The lock file and the socket are distinct files of one directory: neither
/// path is the other, whatever the directory.
pub proof fn lemma_lock_and_socket_differ(dir: Seq<char>)
    ensures
        lock_path_of(dir) != socket_path_of(dir),
{
    assert(lock_path_of(dir).len() != socket_path_of(dir).len());
}

} // verus!
