//! Making sure that a directory exists before anything is written into it.
//! The caller probes and creates; the rules are here.

use vstd::prelude::*;
use vstd::string::StringExecFns;
use crate::error::CustomError;
use crate::paths::spec_artifact_directory;
use crate::paths::spec_cache_directory;

verus! {

/// What to do where a directory is still unusable after the attempt to
/// create it.
#[derive(Clone, Copy, Debug, PartialEq, Eq, Structural)]
pub enum DirectoryPolicy {
    /// Give up with an error.
    Strict,
    /// Go on; the write that follows will fail or not.
    BestEffort,
}

/// Whether a directory has to be created, given whether a probe found it.
pub open spec fn spec_must_create(is_directory: bool) -> bool {
    !is_directory
}

/// Whether a directory is usable, given whether a probe found it and, where
/// it did not, whether it was then created.
pub open spec fn spec_usable_after(is_directory: bool, created: bool) -> bool {
    is_directory || created
}

/// Whether `ancestor` is a directory above `path`: the part of `path` that
/// ends before one of its separators, the first character aside.
pub open spec fn spec_is_ancestor(ancestor: Seq<char>, path: Seq<char>) -> bool {
    exists|cut: int|
        0 < cut < path.len() && path[cut] == '/' && ancestor == #[trigger] path.subrange(0, cut)
}

/// The directories that exist once `path` was created with its missing
/// parents: the path and every directory above it.
pub open spec fn spec_created_with(path: Seq<char>) -> Set<Seq<char>> {
    Set::new(|made: Seq<char>| made == path || spec_is_ancestor(made, path))
}

/// The directories of a file system after `path` was ensured on it, and
/// whether `path` is then usable. `creatable` says whether creating the
/// directory, with its missing parents, would succeed.
pub open spec fn spec_ensure_directory(
    directories: Set<Seq<char>>,
    path: Seq<char>,
    creatable: bool,
) -> (Set<Seq<char>>, bool) {
    let present = directories.contains(path);
    let created = spec_must_create(present) && creatable;
    (
        if created {
            directories.union(spec_created_with(path))
        } else {
            directories
        },
        spec_usable_after(present, created),
    )
}

/// The text of the error for a directory that could not be made usable.
pub open spec fn spec_unusable_text(path: Seq<char>) -> Seq<char> {
    "directory is not usable: "@ + path
}

/// What the policy makes of a directory at `path` that was ensured and is
/// `usable` or not.
pub open spec fn spec_require_directory(policy: DirectoryPolicy, path: Seq<char>, usable: bool) -> Result<
    (),
    Seq<char>,
> {
    if usable || policy == DirectoryPolicy::BestEffort {
        Ok(())
    } else {
        Err(spec_unusable_text(path))
    }
}

pub fn must_create(is_directory: bool) -> (create: bool)
    ensures
        create == spec_must_create(is_directory),
{
    !is_directory
}

pub fn usable_after(is_directory: bool, created: bool) -> (usable: bool)
    ensures
        usable == spec_usable_after(is_directory, created),
{
    is_directory || created
}

/// Fails with an `IoError` exactly where the policy is strict and the
/// directory is not usable.
pub fn require_directory(policy: DirectoryPolicy, path: &str, usable: bool) -> (outcome: Result<
    (),
    CustomError,
>)
    ensures
        match spec_require_directory(policy, path@, usable) {
            Ok(_) => outcome is Ok,
            Err(text) => outcome matches Err(CustomError::IoError(t)) && t@ == text,
        },
{
    if usable {
        return Ok(());
    }
    match policy {
        DirectoryPolicy::BestEffort => Ok(()),
        DirectoryPolicy::Strict => Err(
            CustomError::IoError(String::from_str("directory is not usable: ").concat(path)),
        ),
    }
}

/// Ensuring a directory that is not there and can be created makes it usable
/// and adds it and the directories above it, and nothing else, to the file
/// system. Ensuring it once more finds it usable and changes nothing, whether
/// or not it could be created again.
pub proof fn law_ensure_directory_is_idempotent(
    directories: Set<Seq<char>>,
    path: Seq<char>,
    creatable_again: bool,
)
    requires
        !directories.contains(path),
    ensures
        ({
            let made = directories.union(spec_created_with(path));
            &&& spec_ensure_directory(directories, path, true) == (made, true)
            &&& spec_ensure_directory(made, path, creatable_again) == (made, true)
        }),
{
}

/// A directory that is ensured is usable afterwards exactly where it is then
/// part of the file system. Every directory that was there stays; each new
/// one is the path or lies above it; and where the path was created, every
/// directory above it is there too.
pub proof fn law_ensure_directory_reports_truth(
    directories: Set<Seq<char>>,
    path: Seq<char>,
    creatable: bool,
)
    ensures
        ({
            let (after, usable) = spec_ensure_directory(directories, path, creatable);
            &&& usable == after.contains(path)
            &&& forall|other: Seq<char>| directories.contains(other) ==> after.contains(other)
            &&& forall|other: Seq<char>|
                after.contains(other) && !directories.contains(other) ==> other == path
                    || spec_is_ancestor(other, path)
            &&& !directories.contains(path) && creatable ==> forall|above: Seq<char>|
                spec_is_ancestor(above, path) ==> after.contains(above)
        }),
{
}

/// Ensuring the cache directory or the snapshot directory of a user, where
/// it is missing and can be created, brings the user's `Desktop` directory
/// with it.
pub proof fn law_ensuring_brings_desktop(directories: Set<Seq<char>>, home: Seq<char>)
    ensures
        !directories.contains(spec_cache_directory(home)) ==> ({
            let after = spec_ensure_directory(directories, spec_cache_directory(home), true).0;
            after.contains(home + "/Desktop"@) && after.contains(spec_cache_directory(home))
        }),
        !directories.contains(spec_artifact_directory(home)) ==> ({
            let after = spec_ensure_directory(directories, spec_artifact_directory(home), true).0;
            after.contains(home + "/Desktop"@) && after.contains(spec_artifact_directory(home))
        }),
{
    reveal_strlit("/Desktop");
    reveal_strlit("/Desktop/camera");
    reveal_strlit("/Desktop/detections");
    let cut: int = home.len() as int + 8;
    let cache = spec_cache_directory(home);
    let shots = spec_artifact_directory(home);
    assert(cache[cut] == '/');
    assert(cache.subrange(0, cut) =~= home + "/Desktop"@);
    assert(spec_is_ancestor(home + "/Desktop"@, cache));
    assert(shots[cut] == '/');
    assert(shots.subrange(0, cut) =~= home + "/Desktop"@);
    assert(spec_is_ancestor(home + "/Desktop"@, shots));
}

} // verus!
