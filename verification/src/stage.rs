//! Staging one definition as a state machine. The caller owns the file
//! system: it performs the action that the machine hands out and reports what
//! came of it as the next event.

use vstd::prelude::*;
use crate::bridge::Staging;
use crate::bridge::StagingView;
use crate::error::CustomError;
use crate::error::CustomErrorView;
use crate::provision::require_directory;
use crate::provision::spec_require_directory;
use crate::provision::DirectoryPolicy;

verus! {

/// What the staging is waiting for.
#[derive(Clone, Copy, Debug, PartialEq, Eq, Structural)]
pub enum StagePhase {
    /// The temporary file being created.
    Temp,
    /// The definition being written to it and flushed.
    Content,
    /// The temporary file being made read-only.
    Guard,
    /// The cache directory being ensured.
    Directory,
    /// The probe for an earlier file at the destination.
    Probe,
    /// The earlier file being removed.
    Removal,
    /// The temporary file being copied to the destination.
    Copy,
    /// Nothing: the staging has ended.
    Finished,
}

/// What the caller reports back.
#[derive(Clone, Debug, PartialEq, Eq)]
pub enum StageEvent {
    /// The action succeeded.
    Done,
    /// The action failed, for this reason.
    Failed { reason: String },
    /// The directory was ensured and is usable or not.
    Ensured { usable: bool },
    /// The probe found a file or none.
    Probed { present: bool },
}

/// What the caller is to do next.
#[derive(Clone, Debug, PartialEq, Eq)]
pub enum StageAction {
    /// Create a fresh, uniquely named file in the temporary directory, its
    /// name starting with `prefix`.
    CreateTemp { prefix: String },
    /// Write the definition's bytes to the temporary file and flush it.
    WriteContent,
    /// Make the temporary file read-only.
    MarkReadOnly,
    /// Ensure that the directory exists.
    EnsureDirectory { path: String },
    /// Find out whether there is a file at the path.
    ProbeDestination { path: String },
    /// Remove the file at the path.
    RemoveDestination { path: String },
    /// Copy the temporary file to the destination.
    CopyTemp { destination: String },
    /// Hand the path to the detector: the definition is staged there.
    Finish { path: String },
    /// Give up with the error.
    Abort { error: CustomError },
}

pub enum StageEventView {
    Done,
    Failed { reason: Seq<char> },
    Ensured { usable: bool },
    Probed { present: bool },
}

pub enum StageActionView {
    CreateTemp { prefix: Seq<char> },
    WriteContent,
    MarkReadOnly,
    EnsureDirectory { path: Seq<char> },
    ProbeDestination { path: Seq<char> },
    RemoveDestination { path: Seq<char> },
    CopyTemp { destination: Seq<char> },
    Finish { path: Seq<char> },
    Abort { error: CustomErrorView },
}

impl View for StageEvent {
    type V = StageEventView;

    open spec fn view(&self) -> StageEventView {
        match *self {
            StageEvent::Done => StageEventView::Done,
            StageEvent::Failed { reason } => StageEventView::Failed { reason: reason@ },
            StageEvent::Ensured { usable } => StageEventView::Ensured { usable },
            StageEvent::Probed { present } => StageEventView::Probed { present },
        }
    }
}

impl View for StageAction {
    type V = StageActionView;

    open spec fn view(&self) -> StageActionView {
        match *self {
            StageAction::CreateTemp { prefix } => StageActionView::CreateTemp { prefix: prefix@ },
            StageAction::WriteContent => StageActionView::WriteContent,
            StageAction::MarkReadOnly => StageActionView::MarkReadOnly,
            StageAction::EnsureDirectory { path } => StageActionView::EnsureDirectory {
                path: path@,
            },
            StageAction::ProbeDestination { path } => StageActionView::ProbeDestination {
                path: path@,
            },
            StageAction::RemoveDestination { path } => StageActionView::RemoveDestination {
                path: path@,
            },
            StageAction::CopyTemp { destination } => StageActionView::CopyTemp {
                destination: destination@,
            },
            StageAction::Finish { path } => StageActionView::Finish { path: path@ },
            StageAction::Abort { error } => StageActionView::Abort { error: error@ },
        }
    }
}

/// The machine's answer to an event.
#[derive(Clone, Debug, PartialEq, Eq)]
pub struct StageStep {
    pub phase: StagePhase,
    pub action: StageAction,
}

/// The end of a staging that failed for `reason`.
pub open spec fn spec_abort(reason: Seq<char>) -> (StagePhase, StageActionView) {
    (StagePhase::Finished, StageActionView::Abort { error: CustomErrorView::IoError(reason) })
}

/// The copy of the temporary file to the destination.
pub open spec fn spec_copy(staging: StagingView) -> (StagePhase, StageActionView) {
    (StagePhase::Copy, StageActionView::CopyTemp { destination: staging.destination })
}

/// What the machine does in `phase` when `event` arrives: the next phase and
/// the action to perform, or `None` where the event does not answer the
/// action that led to the phase.
pub open spec fn spec_stage_advance(
    staging: StagingView,
    policy: DirectoryPolicy,
    phase: StagePhase,
    event: StageEventView,
) -> Option<(StagePhase, StageActionView)> {
    match (phase, event) {
        (StagePhase::Temp, StageEventView::Done) => Some(
            (StagePhase::Content, StageActionView::WriteContent),
        ),
        (StagePhase::Content, StageEventView::Done) => Some(
            (StagePhase::Guard, StageActionView::MarkReadOnly),
        ),
        (StagePhase::Guard, StageEventView::Done) => Some(
            (StagePhase::Directory, StageActionView::EnsureDirectory { path: staging.directory }),
        ),
        (StagePhase::Directory, StageEventView::Ensured { usable }) => match spec_require_directory(
            policy,
            staging.directory,
            usable,
        ) {
            Ok(_) => Some(
                (
                    StagePhase::Probe,
                    StageActionView::ProbeDestination { path: staging.destination },
                ),
            ),
            Err(text) => Some(spec_abort(text)),
        },
        (StagePhase::Probe, StageEventView::Probed { present }) => if present {
            Some(
                (
                    StagePhase::Removal,
                    StageActionView::RemoveDestination { path: staging.destination },
                ),
            )
        } else {
            Some(spec_copy(staging))
        },
        (StagePhase::Removal, StageEventView::Done) => Some(spec_copy(staging)),
        (StagePhase::Copy, StageEventView::Done) => Some(
            (StagePhase::Finished, StageActionView::Finish { path: staging.destination }),
        ),
        (StagePhase::Temp, StageEventView::Failed { reason }) => Some(spec_abort(reason)),
        (StagePhase::Content, StageEventView::Failed { reason }) => Some(spec_abort(reason)),
        (StagePhase::Guard, StageEventView::Failed { reason }) => Some(spec_abort(reason)),
        (StagePhase::Removal, StageEventView::Failed { reason }) => Some(spec_abort(reason)),
        (StagePhase::Copy, StageEventView::Failed { reason }) => Some(spec_abort(reason)),
        _ => None,
    }
}

/// The phase in which a staging starts, with its first action.
pub fn stage_start(staging: &Staging) -> (step: StageStep)
    ensures
        step.phase == StagePhase::Temp,
        step.action@ == (StageActionView::CreateTemp { prefix: staging@.temp_prefix }),
{
    StageStep {
        phase: StagePhase::Temp,
        action: StageAction::CreateTemp { prefix: staging.temp_prefix.clone() },
    }
}

fn abort(reason: String) -> (step: StageStep)
    ensures
        (step.phase, step.action@) == spec_abort(reason@),
{
    StageStep {
        phase: StagePhase::Finished,
        action: StageAction::Abort { error: CustomError::IoError(reason) },
    }
}

fn copy(staging: &Staging) -> (step: StageStep)
    ensures
        (step.phase, step.action@) == spec_copy(staging@),
{
    StageStep {
        phase: StagePhase::Copy,
        action: StageAction::CopyTemp { destination: staging.destination.clone() },
    }
}

/// Answers `event` in `phase` of the staging `staging`.
pub fn stage_advance(
    staging: &Staging,
    policy: DirectoryPolicy,
    phase: StagePhase,
    event: StageEvent,
) -> (step: Option<StageStep>)
    ensures
        match spec_stage_advance(staging@, policy, phase, event@) {
            Some((next, action)) => step matches Some(s) && s.phase == next && s.action@ == action,
            None => step is None,
        },
{
    match (phase, event) {
        (StagePhase::Temp, StageEvent::Done) => Some(
            StageStep { phase: StagePhase::Content, action: StageAction::WriteContent },
        ),
        (StagePhase::Content, StageEvent::Done) => Some(
            StageStep { phase: StagePhase::Guard, action: StageAction::MarkReadOnly },
        ),
        (StagePhase::Guard, StageEvent::Done) => Some(
            StageStep {
                phase: StagePhase::Directory,
                action: StageAction::EnsureDirectory { path: staging.directory.clone() },
            },
        ),
        (StagePhase::Directory, StageEvent::Ensured { usable }) => {
            match require_directory(policy, staging.directory.as_str(), usable) {
                Ok(_) => Some(
                    StageStep {
                        phase: StagePhase::Probe,
                        action: StageAction::ProbeDestination {
                            path: staging.destination.clone(),
                        },
                    },
                ),
                Err(CustomError::IoError(text)) => Some(abort(text)),
                Err(CustomError::OpenCvError(text)) => Some(abort(text)),
            }
        },
        (StagePhase::Probe, StageEvent::Probed { present }) => {
            if present {
                Some(
                    StageStep {
                        phase: StagePhase::Removal,
                        action: StageAction::RemoveDestination {
                            path: staging.destination.clone(),
                        },
                    },
                )
            } else {
                Some(copy(staging))
            }
        },
        (StagePhase::Removal, StageEvent::Done) => Some(copy(staging)),
        (StagePhase::Copy, StageEvent::Done) => Some(
            StageStep {
                phase: StagePhase::Finished,
                action: StageAction::Finish { path: staging.destination.clone() },
            },
        ),
        (StagePhase::Temp, StageEvent::Failed { reason }) => Some(abort(reason)),
        (StagePhase::Content, StageEvent::Failed { reason }) => Some(abort(reason)),
        (StagePhase::Guard, StageEvent::Failed { reason }) => Some(abort(reason)),
        (StagePhase::Removal, StageEvent::Failed { reason }) => Some(abort(reason)),
        (StagePhase::Copy, StageEvent::Failed { reason }) => Some(abort(reason)),
        _ => None,
    }
}

/// The phase reached and the actions handed out, in order, when the first
/// `n` of `events` arrive one after another from `phase` on; `None` where one
/// of them is not accepted.
pub open spec fn spec_stage_run(
    staging: StagingView,
    policy: DirectoryPolicy,
    phase: StagePhase,
    events: Seq<StageEventView>,
    n: nat,
) -> Option<(StagePhase, Seq<StageActionView>)>
    decreases n,
{
    if n == 0 {
        Some((phase, Seq::empty()))
    } else {
        match spec_stage_run(staging, policy, phase, events, (n - 1) as nat) {
            None => None,
            Some((before, actions)) => match spec_stage_advance(
                staging,
                policy,
                before,
                events[n - 1],
            ) {
                None => None,
                Some((after, action)) => Some((after, actions.push(action))),
            },
        }
    }
}

/// The files of the cache directory, each path with its bytes, after
/// `action` was performed with success on `files` while `content` was being
/// staged. The temporary file lies elsewhere.
pub open spec fn spec_effect(
    action: StageActionView,
    content: Seq<u8>,
    files: Map<Seq<char>, Seq<u8>>,
) -> Map<Seq<char>, Seq<u8>> {
    match action {
        StageActionView::RemoveDestination { path } => files.remove(path),
        StageActionView::CopyTemp { destination } => files.insert(destination, content),
        _ => files,
    }
}

/// The files of the cache directory after the first `n` of `actions` were
/// performed with success, one after another.
pub open spec fn spec_effects(
    actions: Seq<StageActionView>,
    n: nat,
    content: Seq<u8>,
    files: Map<Seq<char>, Seq<u8>>,
) -> Map<Seq<char>, Seq<u8>>
    decreases n,
{
    if n == 0 {
        files
    } else {
        spec_effect(actions[n - 1], content, spec_effects(actions, (n - 1) as nat, content, files))
    }
}

/// The events of a staging in which every action succeeds, after the
/// temporary file was asked for; `present` says whether an earlier file lies
/// at the destination.
pub open spec fn stage_events(present: bool) -> Seq<StageEventView> {
    let head = seq![
        StageEventView::Done,
        StageEventView::Done,
        StageEventView::Done,
        StageEventView::Ensured { usable: true },
        StageEventView::Probed { present },
    ];
    if present {
        head.push(StageEventView::Done).push(StageEventView::Done)
    } else {
        head.push(StageEventView::Done)
    }
}

/// The actions that answer `stage_events`.
pub open spec fn stage_actions(staging: StagingView, present: bool) -> Seq<StageActionView> {
    let head = seq![
        StageActionView::WriteContent,
        StageActionView::MarkReadOnly,
        StageActionView::EnsureDirectory { path: staging.directory },
        StageActionView::ProbeDestination { path: staging.destination },
    ];
    let found = if present {
        head.push(StageActionView::RemoveDestination { path: staging.destination })
    } else {
        head
    };
    found.push(StageActionView::CopyTemp { destination: staging.destination }).push(
        StageActionView::Finish { path: staging.destination },
    )
}

/// A staging in which every action succeeds writes the content, protects the
/// temporary file, ensures the cache directory, removes an earlier file where
/// there is one and only then copies, and ends by handing out the
/// destination, under either policy.
pub proof fn law_stage_order(staging: StagingView, policy: DirectoryPolicy, present: bool)
    ensures
        spec_stage_run(
            staging,
            policy,
            StagePhase::Temp,
            stage_events(present),
            stage_events(present).len(),
        ) == Some((StagePhase::Finished, stage_actions(staging, present))),
{
    reveal_with_fuel(spec_stage_run, 8);
    let events = stage_events(present);
    let out = spec_stage_run(staging, policy, StagePhase::Temp, events, events.len());
    assert(out is Some);
    assert(out.unwrap().1 =~= stage_actions(staging, present));
}

/// A staging in which every action succeeds leaves the content at the
/// destination and every other file of the cache directory as it was,
/// whether or not an earlier file lay there.
pub proof fn law_stage_effect(
    staging: StagingView,
    content: Seq<u8>,
    files: Map<Seq<char>, Seq<u8>>,
)
    ensures
        ({
            let actions = stage_actions(staging, files.contains_key(staging.destination));
            spec_effects(actions, actions.len(), content, files) == files.insert(
                staging.destination,
                content,
            )
        }),
{
    reveal_with_fuel(spec_effects, 8);
    let actions = stage_actions(staging, files.contains_key(staging.destination));
    assert(spec_effects(actions, actions.len(), content, files) =~= files.insert(
        staging.destination,
        content,
    ));
}

/// Staging twice in a row leaves what staging the later content alone
/// leaves: one file at the destination, which holds the later content, and
/// no file that was not there after the first staging.
pub proof fn law_restaging_keeps_latest(
    staging: StagingView,
    first: Seq<u8>,
    latest: Seq<u8>,
    files: Map<Seq<char>, Seq<u8>>,
)
    ensures
        ({
            let once = stage_actions(staging, files.contains_key(staging.destination));
            let between = spec_effects(once, once.len(), first, files);
            let again = stage_actions(staging, between.contains_key(staging.destination));
            let after = spec_effects(again, again.len(), latest, between);
            &&& between.contains_key(staging.destination)
            &&& after == files.insert(staging.destination, latest)
            &&& after[staging.destination] == latest
            &&& after.dom() == between.dom()
        }),
{
    law_stage_effect(staging, first, files);
    let between = files.insert(staging.destination, first);
    law_stage_effect(staging, latest, between);
    assert(between.insert(staging.destination, latest) =~= files.insert(
        staging.destination,
        latest,
    ));
    assert(between.insert(staging.destination, latest).dom() =~= between.dom());
}

/// A failure of any action that can fail ends the staging with an `IoError`
/// that carries the failure's reason; there is no partial success.
pub proof fn law_failure_is_fatal(
    staging: StagingView,
    policy: DirectoryPolicy,
    phase: StagePhase,
    reason: Seq<char>,
)
    requires
        phase != StagePhase::Directory,
        phase != StagePhase::Probe,
        phase != StagePhase::Finished,
    ensures
        spec_stage_advance(staging, policy, phase, StageEventView::Failed { reason }) == Some(
            spec_abort(reason),
        ),
{
}

/// A staging that has ended accepts no further event.
pub proof fn law_finished_is_final(
    staging: StagingView,
    policy: DirectoryPolicy,
    event: StageEventView,
)
    ensures
        spec_stage_advance(staging, policy, StagePhase::Finished, event) is None,
{
}

} // verus!
