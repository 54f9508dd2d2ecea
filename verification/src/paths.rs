//! Where staged definitions and snapshots live, as text.

use vstd::prelude::*;
use vstd::string::StringExecFns;
use crate::detector::DetectorClass;
use crate::detector::law_definition_names_distinct;
use crate::detector::law_labels_distinct;

verus! {

/// The directory that holds the staged definition files of the user whose
/// home directory is `home`.
pub open spec fn spec_cache_directory(home: Seq<char>) -> Seq<char> {
    home + "/Desktop/camera"@
}

/// The directory that holds the snapshots of the user whose home directory is
/// `home`.
pub open spec fn spec_artifact_directory(home: Seq<char>) -> Seq<char> {
    home + "/Desktop/detections"@
}

/// The file `name` inside `directory`.
pub open spec fn spec_staged_path(directory: Seq<char>, name: Seq<char>) -> Seq<char> {
    directory + "/"@ + name
}

/// The snapshot inside `directory` that is named by a label and the second in
/// which it was taken.
pub open spec fn spec_artifact_path(directory: Seq<char>, label: Seq<char>, stamp: Seq<char>) -> Seq<
    char,
> {
    directory + "/"@ + label + "_"@ + stamp + ".jpg"@
}

pub fn cache_directory(home: &str) -> (directory: String)
    ensures
        directory@ == spec_cache_directory(home@),
{
    String::from_str(home).concat("/Desktop/camera")
}

pub fn artifact_directory(home: &str) -> (directory: String)
    ensures
        directory@ == spec_artifact_directory(home@),
{
    String::from_str(home).concat("/Desktop/detections")
}

pub fn staged_path(directory: &str, name: &str) -> (path: String)
    ensures
        path@ == spec_staged_path(directory@, name@),
{
    String::from_str(directory).concat("/").concat(name)
}

pub fn artifact_path(directory: &str, label: &str, stamp: &str) -> (path: String)
    ensures
        path@ == spec_artifact_path(directory@, label@, stamp@),
{
    String::from_str(directory).concat("/").concat(label).concat("_").concat(stamp).concat(".jpg")
}

/// Snapshots of two different classes never share a path inside one
/// directory, whatever the seconds in which they were taken: in particular
/// not when both were taken in the same second.
pub proof fn law_artifact_paths_differ_by_class(
    directory: Seq<char>,
    a: DetectorClass,
    b: DetectorClass,
    stamp_a: Seq<char>,
    stamp_b: Seq<char>,
)
    requires
        a != b,
    ensures
        spec_artifact_path(directory, a.spec_label(), stamp_a) != spec_artifact_path(
            directory,
            b.spec_label(),
            stamp_b,
        ),
{
    law_labels_distinct(a, b);
    reveal_strlit("/");
    let pa = spec_artifact_path(directory, a.spec_label(), stamp_a);
    let pb = spec_artifact_path(directory, b.spec_label(), stamp_b);
    let at = directory.len() + 1;
    assert(pa[at as int] == a.spec_label()[0]);
    assert(pb[at as int] == b.spec_label()[0]);
}

/// The definitions of two different classes are staged at different paths
/// of one directory, so that staging one never overwrites another.
pub proof fn law_staged_paths_differ_by_class(directory: Seq<char>, a: DetectorClass, b: DetectorClass)
    requires
        a != b,
    ensures
        spec_staged_path(directory, a.spec_definition_name()) != spec_staged_path(
            directory,
            b.spec_definition_name(),
        ),
{
    law_definition_names_distinct(a, b);
    let pa = spec_staged_path(directory, a.spec_definition_name());
    let pb = spec_staged_path(directory, b.spec_definition_name());
    let skip = (directory + "/"@).len() as int;
    assert(pa.subrange(skip, pa.len() as int) =~= a.spec_definition_name());
    assert(pb.subrange(skip, pb.len() as int) =~= b.spec_definition_name());
}

} // verus!
