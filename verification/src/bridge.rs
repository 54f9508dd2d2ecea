//! From a detection to a snapshot on disk, and from a bundled definition to
//! its staged file: what is written where.

use vstd::prelude::*;
use vstd::string::StringExecFns;
use crate::detector::DetectorClass;
use crate::host::home_directory;
use crate::error::CustomError;
use crate::error::CustomErrorView;
use crate::moment::Moment;
use crate::paths::artifact_directory;
use crate::paths::artifact_path;
use crate::paths::cache_directory;
use crate::paths::spec_artifact_directory;
use crate::paths::spec_artifact_path;
use crate::paths::spec_cache_directory;
use crate::paths::spec_staged_path;
use crate::paths::staged_path;

verus! {

/// What follows a detection: the line for the user, the directory that has to
/// exist, and the file to write the annotated frame to.
#[derive(Clone, Debug, PartialEq, Eq)]
pub struct Snapshot {
    pub notice: String,
    pub directory: String,
    pub path: String,
}

/// How one definition is staged: the prefix of its temporary file, the
/// directory that has to exist, and the file that the detector opens.
#[derive(Clone, Debug, PartialEq, Eq)]
pub struct Staging {
    pub temp_prefix: String,
    pub directory: String,
    pub destination: String,
}

/// A staging by the text of its three parts.
pub struct StagingView {
    pub temp_prefix: Seq<char>,
    pub directory: Seq<char>,
    pub destination: Seq<char>,
}

impl View for Staging {
    type V = StagingView;

    open spec fn view(&self) -> StagingView {
        StagingView {
            temp_prefix: self.temp_prefix@,
            directory: self.directory@,
            destination: self.destination@,
        }
    }
}

impl Snapshot {
    /// Whether this is the snapshot of `class` taken at `stamp` for some
    /// user.
    pub open spec fn is_snapshot_at(&self, class: DetectorClass, stamp: Seq<char>) -> bool {
        exists|home: Seq<char>| #[trigger] self.describes(class, home, stamp)
    }

    /// Whether this is the snapshot of `class` taken at `stamp` for the user
    /// whose home directory is `home`.
    pub open spec fn describes(&self, class: DetectorClass, home: Seq<char>, stamp: Seq<char>) -> bool {
        &&& self.notice@ == class.spec_notice()
        &&& self.directory@ == spec_artifact_directory(home)
        &&& self.path@ == spec_artifact_path(spec_artifact_directory(home), class.spec_label(), stamp)
    }
}

impl Staging {
    /// Whether this stages the definition `name` for some user.
    pub open spec fn is_staging_of(&self, name: Seq<char>) -> bool {
        exists|home: Seq<char>| #[trigger] self.describes(home, name)
    }

    /// Whether this stages the definition `name` for the user whose home
    /// directory is `home`.
    pub open spec fn describes(&self, home: Seq<char>, name: Seq<char>) -> bool {
        &&& self.temp_prefix@ == name
        &&& self.directory@ == spec_cache_directory(home)
        &&& self.destination@ == spec_staged_path(spec_cache_directory(home), name)
    }
}

/// The snapshot of `class` taken at `stamp` for the user whose home directory
/// is `home`.
pub fn plan_snapshot(class: DetectorClass, home: &str, stamp: &str) -> (snapshot: Snapshot)
    ensures
        snapshot.describes(class, home@, stamp@),
{
    let directory = artifact_directory(home);
    let path = artifact_path(directory.as_str(), class.label(), stamp);
    Snapshot { notice: String::from_str(class.notice()), directory, path }
}

/// The staging of the definition `name` for the user whose home directory is
/// `home`.
pub fn plan_staging(home: &str, name: &str) -> (staging: Staging)
    ensures
        staging.describes(home@, name@),
{
    let directory = cache_directory(home);
    let destination = staged_path(directory.as_str(), name);
    Staging { temp_prefix: String::from_str(name), directory, destination }
}

/// The snapshot of `class` taken at `moment` for the current user, or `None`
/// where the moment has no stamp or the machine names no home directory.
pub fn on_detected(class: DetectorClass, moment: Moment) -> (snapshot: Option<Snapshot>)
    ensures
        moment.spec_stamp() is None ==> snapshot is None,
        snapshot matches Some(s) ==> moment.spec_stamp() is Some && s.is_snapshot_at(
            class,
            moment.spec_stamp().unwrap(),
        ),
{
    let stamp = moment.stamp();
    let home = match stamp {
        Some(_) => home_directory(),
        None => None,
    };
    snapshot_for(class, home, stamp)
}

/// The staging of the definition `name` for the current user, or `None` where
/// the machine names no home directory.
pub fn locate_staging(name: &str) -> (staging: Option<Staging>)
    ensures
        staging matches Some(s) ==> s.is_staging_of(name@),
{
    let home = home_directory();
    staging_for(home, name)
}

/// The snapshot of `class`, given the stamp of its moment and what the
/// machine says of the user's home directory: the snapshot planned under
/// that directory with that stamp, or `None` exactly where either is absent.
pub fn snapshot_for(class: DetectorClass, home: Option<String>, stamp: Option<String>) -> (snapshot:
    Option<Snapshot>)
    ensures
        match (home, stamp) {
            (Some(named), Some(text)) => snapshot matches Some(s) && s.describes(
                class,
                named@,
                text@,
            ),
            _ => snapshot is None,
        },
{
    match (home, stamp) {
        (Some(named), Some(text)) => Some(plan_snapshot(class, named.as_str(), text.as_str())),
        _ => None,
    }
}

/// The text of the error for a snapshot that the encoder did not write.
pub open spec fn spec_unwritten_text(path: Seq<char>) -> Seq<char> {
    "snapshot was not written: "@ + path
}

/// What becomes of a snapshot at `path` that the encoder reports as
/// `written` or not: one that was not written is a failure of the engine.
pub fn require_written(path: &str, written: bool) -> (outcome: Result<(), CustomError>)
    ensures
        match outcome {
            Ok(_) => written,
            Err(error) => !written && error@ == CustomErrorView::OpenCvError(
                spec_unwritten_text(path@),
            ),
        },
{
    if written {
        Ok(())
    } else {
        Err(CustomError::OpenCvError(String::from_str("snapshot was not written: ").concat(path)))
    }
}

/// The staging of the definition `name`, given what the machine says of the
/// user's home directory: the staging planned under that directory, or `None`
/// exactly where the machine names none.
pub fn staging_for(home: Option<String>, name: &str) -> (staging: Option<Staging>)
    ensures
        match home {
            Some(named) => staging matches Some(s) && s.describes(named@, name@),
            None => staging is None,
        },
{
    match home {
        Some(named) => Some(plan_staging(named.as_str(), name)),
        None => None,
    }
}

} // verus!
