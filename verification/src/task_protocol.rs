//! The write protocol of a paired Task commit, its rollback and its recovery, as state machines
//! from the outcome of one durable action to the next action.
use crate::error::{ErrorKind, ErrorView, StorageError};
use crate::error;
use crate::task_journal::RuntimeTaskJournalMarkerState;
use crate::text::{join2, join3, join4, join5};
use vstd::prelude::*;

verus! {

/// One of the two sessions of a pair.
#[derive(Debug, Clone, Copy, PartialEq, Eq, Structural)]
pub enum PairSide {
    First,
    Second,
}

/// What the protocol has done next.
#[derive(Debug, Clone, Copy, PartialEq, Eq, Structural)]
pub enum PairAction {
    /// Publish the undo journal durably, as a prepared marker.
    WriteJournal,
    /// Publish one updated sidecar durably.
    WriteSidecar(PairSide),
    /// Rename the marker.
    RenameMarker(RuntimeTaskJournalMarkerState, RuntimeTaskJournalMarkerState),
    /// Make the names in the journal directory durable.
    SyncMarkers,
    /// Durably put the marker out of action.
    DeactivateMarker(RuntimeTaskJournalMarkerState),
    /// Put the old Tasks of one session back durably.
    RestoreUndo(PairSide),
    /// Durably put the marker out of action where it is there.
    DeactivateIfPresent(RuntimeTaskJournalMarkerState),
    /// Nothing: the protocol is over.
    Finish,
}

/// How far a paired commit has come.
#[derive(Debug, Clone, Copy, PartialEq, Eq, Structural)]
pub enum PairPhase {
    WriteJournal,
    WriteFirst,
    WriteSecond,
    RenameCommitting,
    SyncCommitting,
    RenameCommitted,
    SyncCommitted,
    Deactivate,
    RestoreFirst,
    RestoreSecond,
    RemovePrepared,
    RemoveCommitting,
    RemoveCommitted,
    Finished,
}

/// A paired commit in progress.
pub struct PairTransaction {
    pub phase: PairPhase,
    /// Whether control-plane access has to wait for a recovery.
    pub recovery_required: bool,
    /// The failure that made the commit roll back.
    pub primary: Option<StorageError>,
    /// The failure of putting the first session back.
    pub first_failure: Option<StorageError>,
    /// What the commit is answered, once it is over.
    pub failure: Option<StorageError>,
}

/// What a [`PairTransaction`] holds.
#[verifier::ext_equal]
pub struct PairState {
    pub phase: PairPhase,
    pub recovery_required: bool,
    pub primary: Option<ErrorView>,
    pub first_failure: Option<ErrorView>,
    pub failure: Option<ErrorView>,
}

/// The view of an optional failure.
pub open spec fn opt_error(e: Option<StorageError>) -> Option<ErrorView> {
    match e {
        Some(e) => Some(e@),
        None => None,
    }
}

impl View for PairTransaction {
    type V = PairState;

    open spec fn view(&self) -> PairState {
        PairState {
            phase: self.phase,
            recovery_required: self.recovery_required,
            primary: opt_error(self.primary),
            first_failure: opt_error(self.first_failure),
            failure: opt_error(self.failure),
        }
    }
}

/// The action of a phase.
pub open spec fn phase_action(p: PairPhase) -> PairAction {
    match p {
        PairPhase::WriteJournal => PairAction::WriteJournal,
        PairPhase::WriteFirst => PairAction::WriteSidecar(PairSide::First),
        PairPhase::WriteSecond => PairAction::WriteSidecar(PairSide::Second),
        PairPhase::RenameCommitting => PairAction::RenameMarker(
            RuntimeTaskJournalMarkerState::Prepared,
            RuntimeTaskJournalMarkerState::Committing,
        ),
        PairPhase::SyncCommitting => PairAction::SyncMarkers,
        PairPhase::RenameCommitted => PairAction::RenameMarker(
            RuntimeTaskJournalMarkerState::Committing,
            RuntimeTaskJournalMarkerState::Committed,
        ),
        PairPhase::SyncCommitted => PairAction::SyncMarkers,
        PairPhase::Deactivate => PairAction::DeactivateMarker(
            RuntimeTaskJournalMarkerState::Committed,
        ),
        PairPhase::RestoreFirst => PairAction::RestoreUndo(PairSide::First),
        PairPhase::RestoreSecond => PairAction::RestoreUndo(PairSide::Second),
        PairPhase::RemovePrepared => PairAction::DeactivateIfPresent(
            RuntimeTaskJournalMarkerState::Prepared,
        ),
        PairPhase::RemoveCommitting => PairAction::DeactivateIfPresent(
            RuntimeTaskJournalMarkerState::Committing,
        ),
        PairPhase::RemoveCommitted => PairAction::DeactivateIfPresent(
            RuntimeTaskJournalMarkerState::Committed,
        ),
        PairPhase::Finished => PairAction::Finish,
    }
}

/// The failures of a rollback in one text: each with its session, first before second.
pub open spec fn rollback_text(
    first_id: Seq<char>,
    first: Option<ErrorView>,
    second_id: Seq<char>,
    second: Option<ErrorView>,
) -> Seq<char> {
    "runtime Task transaction rollback failed for "@ + match (first, second) {
        (Some(a), Some(b)) => first_id + ": "@ + a.message + ", "@ + (second_id + ": "@ + b.message),
        (Some(a), None) => first_id + ": "@ + a.message,
        (None, Some(b)) => second_id + ": "@ + b.message,
        (None, None) => Seq::<char>::empty(),
    }
}

/// The commit over, with a failure.
pub open spec fn failed(s: PairState, recovery_required: bool, e: ErrorView) -> PairState {
    PairState { phase: PairPhase::Finished, recovery_required, failure: Some(e), ..s }
}

/// The commit rolling back because of a failure.
pub open spec fn rolling_back(s: PairState, e: ErrorView) -> PairState {
    PairState { phase: PairPhase::RestoreFirst, primary: Some(e), ..s }
}

/// The commit in another phase.
pub open spec fn moved(s: PairState, phase: PairPhase) -> PairState {
    PairState { phase, ..s }
}

/// The message of the failure that a rollback is due to.
pub open spec fn primary_message(s: PairState) -> Seq<char> {
    match s.primary {
        Some(e) => e.message,
        None => Seq::empty(),
    }
}

/// The kind of the failure that a rollback is due to.
pub open spec fn primary_kind(s: PairState) -> ErrorKind {
    match s.primary {
        Some(e) => e.kind,
        None => ErrorKind::Other,
    }
}

/// The failure of a commit whose marker could not be put out of action after the rollback.
pub open spec fn cleanup_failure(s: PairState, e: ErrorView) -> PairState {
    failed(
        s,
        true,
        error::plain_error(
            ErrorKind::Other,
            "runtime Task transaction failed ("@ + primary_message(s)
                + "); rollback succeeded but journal cleanup failed ("@ + e.message
                + "); recovery required"@,
        ),
    )
}

/// The failure of a commit that is durable, but whose marker is not out of action.
pub open spec fn marker_failure(s: PairState, e: ErrorView) -> PairState {
    failed(
        s,
        true,
        error::plain_error(
            ErrorKind::Other,
            "runtime Task transaction committed durably but marker cleanup requires recovery: "@
                + e.message,
        ),
    )
}

/// What the outcome of a phase's action makes of the commit.
pub open spec fn pair_step(
    s: PairState,
    outcome: Result<(), ErrorView>,
    first_id: Seq<char>,
    second_id: Seq<char>,
) -> PairState {
    match s.phase {
        PairPhase::WriteJournal => match outcome {
            Ok(_) => PairState {
                phase: PairPhase::WriteFirst,
                recovery_required: true,
                ..s
            },
            Err(e) => failed(s, s.recovery_required, e),
        },
        PairPhase::WriteFirst => match outcome {
            Ok(_) => moved(s, PairPhase::WriteSecond),
            Err(e) => rolling_back(s, e),
        },
        PairPhase::WriteSecond => match outcome {
            Ok(_) => moved(s, PairPhase::RenameCommitting),
            Err(e) => rolling_back(s, e),
        },
        PairPhase::RenameCommitting => match outcome {
            Ok(_) => moved(s, PairPhase::SyncCommitting),
            Err(e) => rolling_back(s, e),
        },
        PairPhase::SyncCommitting => match outcome {
            Ok(_) => moved(s, PairPhase::RenameCommitted),
            Err(e) => rolling_back(s, e),
        },
        PairPhase::RenameCommitted => match outcome {
            Ok(_) => moved(s, PairPhase::SyncCommitted),
            Err(e) => rolling_back(s, e),
        },
        PairPhase::SyncCommitted => match outcome {
            Ok(_) => moved(s, PairPhase::Deactivate),
            Err(e) => marker_failure(s, e),
        },
        PairPhase::Deactivate => match outcome {
            Ok(_) => PairState {
                phase: PairPhase::Finished,
                recovery_required: false,
                failure: None,
                ..s
            },
            Err(e) => marker_failure(s, e),
        },
        PairPhase::RestoreFirst => PairState {
            phase: PairPhase::RestoreSecond,
            first_failure: match outcome {
                Ok(_) => None,
                Err(e) => Some(e),
            },
            ..s
        },
        PairPhase::RestoreSecond => match (s.first_failure, outcome) {
            (None, Ok(_)) => moved(s, PairPhase::RemovePrepared),
            _ => failed(
                s,
                true,
                error::plain_error(
                    ErrorKind::Other,
                    "runtime Task transaction failed ("@ + primary_message(s) + "); "@
                        + rollback_text(
                        first_id,
                        s.first_failure,
                        second_id,
                        match outcome {
                            Ok(_) => None,
                            Err(e) => Some(e),
                        },
                    ) + "; recovery required"@,
                ),
            ),
        },
        PairPhase::RemovePrepared => match outcome {
            Ok(_) => moved(s, PairPhase::RemoveCommitting),
            Err(e) => cleanup_failure(s, e),
        },
        PairPhase::RemoveCommitting => match outcome {
            Ok(_) => moved(s, PairPhase::RemoveCommitted),
            Err(e) => cleanup_failure(s, e),
        },
        PairPhase::RemoveCommitted => match outcome {
            Ok(_) => failed(
                s,
                false,
                error::plain_error(
                    primary_kind(s),
                    "runtime Task transaction failed and was rolled back: "@ + primary_message(s),
                ),
            ),
            Err(e) => cleanup_failure(s, e),
        },
        PairPhase::Finished => s,
    }
}

/// A paired commit that has not begun.
pub open spec fn pair_start(recovery_required: bool) -> PairState {
    PairState {
        phase: PairPhase::WriteJournal,
        recovery_required,
        primary: None,
        first_failure: None,
        failure: None,
    }
}

/// The failures of a rollback in one text.
fn rollback_message(
    first_id: &str,
    first: &Option<StorageError>,
    second_id: &str,
    second: &Option<StorageError>,
) -> (r: String)
    ensures
        r@ == rollback_text(first_id@, opt_error(*first), second_id@, opt_error(*second)),
{
    let list = match (first, second) {
        (Some(a), Some(b)) => {
            let x = join4(first_id, ": ", &a.message, ", ");
            let y = join3(second_id, ": ", &b.message);
            join2(&x, &y)
        },
        (Some(a), None) => join3(first_id, ": ", &a.message),
        (None, Some(b)) => join3(second_id, ": ", &b.message),
        (None, None) => String::new(),
    };
    join2("runtime Task transaction rollback failed for ", &list)
}

impl PairTransaction {
    /// A paired commit that has not begun.
    pub fn begin(recovery_required: bool) -> (r: PairTransaction)
        ensures
            r@ == pair_start(recovery_required),
    {
        PairTransaction {
            phase: PairPhase::WriteJournal,
            recovery_required,
            primary: None,
            first_failure: None,
            failure: None,
        }
    }

    /// What to do now.
    pub fn action(&self) -> (r: PairAction)
        ensures
            r == phase_action(self.phase),
    {
        match self.phase {
            PairPhase::WriteJournal => PairAction::WriteJournal,
            PairPhase::WriteFirst => PairAction::WriteSidecar(PairSide::First),
            PairPhase::WriteSecond => PairAction::WriteSidecar(PairSide::Second),
            PairPhase::RenameCommitting => PairAction::RenameMarker(
                RuntimeTaskJournalMarkerState::Prepared,
                RuntimeTaskJournalMarkerState::Committing,
            ),
            PairPhase::SyncCommitting => PairAction::SyncMarkers,
            PairPhase::RenameCommitted => PairAction::RenameMarker(
                RuntimeTaskJournalMarkerState::Committing,
                RuntimeTaskJournalMarkerState::Committed,
            ),
            PairPhase::SyncCommitted => PairAction::SyncMarkers,
            PairPhase::Deactivate => PairAction::DeactivateMarker(
                RuntimeTaskJournalMarkerState::Committed,
            ),
            PairPhase::RestoreFirst => PairAction::RestoreUndo(PairSide::First),
            PairPhase::RestoreSecond => PairAction::RestoreUndo(PairSide::Second),
            PairPhase::RemovePrepared => PairAction::DeactivateIfPresent(
                RuntimeTaskJournalMarkerState::Prepared,
            ),
            PairPhase::RemoveCommitting => PairAction::DeactivateIfPresent(
                RuntimeTaskJournalMarkerState::Committing,
            ),
            PairPhase::RemoveCommitted => PairAction::DeactivateIfPresent(
                RuntimeTaskJournalMarkerState::Committed,
            ),
            PairPhase::Finished => PairAction::Finish,
        }
    }

    fn fail(self, recovery_required: bool, e: StorageError) -> (r: PairTransaction)
        ensures
            r@ == failed(self@, recovery_required, e@),
    {
        PairTransaction {
            phase: PairPhase::Finished,
            recovery_required,
            failure: Some(e),
            ..self
        }
    }

    fn roll_back(self, e: StorageError) -> (r: PairTransaction)
        ensures
            r@ == rolling_back(self@, e@),
    {
        PairTransaction { phase: PairPhase::RestoreFirst, primary: Some(e), ..self }
    }

    fn advance(self, phase: PairPhase) -> (r: PairTransaction)
        ensures
            r@ == moved(self@, phase),
    {
        PairTransaction { phase, ..self }
    }

    fn primary_text(&self) -> (r: String)
        ensures
            r@ == primary_message(self@),
    {
        match &self.primary {
            Some(e) => e.message.clone(),
            None => String::new(),
        }
    }

    fn fail_cleanup(self, e: StorageError) -> (r: PairTransaction)
        ensures
            r@ == cleanup_failure(self@, e@),
    {
        let message = join5(
            "runtime Task transaction failed (",
            &self.primary_text(),
            "); rollback succeeded but journal cleanup failed (",
            &e.message,
            "); recovery required",
        );
        self.fail(true, StorageError::new(ErrorKind::Other, message))
    }

    fn fail_marker(self, e: StorageError) -> (r: PairTransaction)
        ensures
            r@ == marker_failure(self@, e@),
    {
        let message = join2(
            "runtime Task transaction committed durably but marker cleanup requires recovery: ",
            &e.message,
        );
        self.fail(true, StorageError::new(ErrorKind::Other, message))
    }

    /// Takes the outcome of the action that was due.
    pub fn step(self, outcome: Result<(), StorageError>, first_id: &str, second_id: &str) -> (r:
        PairTransaction)
        ensures
            r@ == pair_step(self@, error::plain_view(outcome), first_id@, second_id@),
    {
        match self.phase {
            PairPhase::WriteJournal => match outcome {
                Ok(_) => PairTransaction {
                    phase: PairPhase::WriteFirst,
                    recovery_required: true,
                    ..self
                },
                Err(e) => {
                    let flag = self.recovery_required;
                    self.fail(flag, e)
                },
            },
            PairPhase::WriteFirst => match outcome {
                Ok(_) => self.advance(PairPhase::WriteSecond),
                Err(e) => self.roll_back(e),
            },
            PairPhase::WriteSecond => match outcome {
                Ok(_) => self.advance(PairPhase::RenameCommitting),
                Err(e) => self.roll_back(e),
            },
            PairPhase::RenameCommitting => match outcome {
                Ok(_) => self.advance(PairPhase::SyncCommitting),
                Err(e) => self.roll_back(e),
            },
            PairPhase::SyncCommitting => match outcome {
                Ok(_) => self.advance(PairPhase::RenameCommitted),
                Err(e) => self.roll_back(e),
            },
            PairPhase::RenameCommitted => match outcome {
                Ok(_) => self.advance(PairPhase::SyncCommitted),
                Err(e) => self.roll_back(e),
            },
            PairPhase::SyncCommitted => match outcome {
                Ok(_) => self.advance(PairPhase::Deactivate),
                Err(e) => self.fail_marker(e),
            },
            PairPhase::Deactivate => match outcome {
                Ok(_) => PairTransaction {
                    phase: PairPhase::Finished,
                    recovery_required: false,
                    failure: None,
                    ..self
                },
                Err(e) => self.fail_marker(e),
            },
            PairPhase::RestoreFirst => {
                let first_failure = match outcome {
                    Ok(_) => None,
                    Err(e) => Some(e),
                };
                PairTransaction { phase: PairPhase::RestoreSecond, first_failure, ..self }
            },
            PairPhase::RestoreSecond => {
                let second_failure = match outcome {
                    Ok(_) => None,
                    Err(e) => Some(e),
                };
                if self.first_failure.is_none() && second_failure.is_none() {
                    return self.advance(PairPhase::RemovePrepared);
                }
                let list = rollback_message(
                    first_id,
                    &self.first_failure,
                    second_id,
                    &second_failure,
                );
                let message = join5(
                    "runtime Task transaction failed (",
                    &self.primary_text(),
                    "); ",
                    &list,
                    "; recovery required",
                );
                self.fail(true, StorageError::new(ErrorKind::Other, message))
            },
            PairPhase::RemovePrepared => match outcome {
                Ok(_) => self.advance(PairPhase::RemoveCommitting),
                Err(e) => self.fail_cleanup(e),
            },
            PairPhase::RemoveCommitting => match outcome {
                Ok(_) => self.advance(PairPhase::RemoveCommitted),
                Err(e) => self.fail_cleanup(e),
            },
            PairPhase::RemoveCommitted => match outcome {
                Ok(_) => {
                    let kind = match &self.primary {
                        Some(e) => e.kind,
                        None => ErrorKind::Other,
                    };
                    let message = join2(
                        "runtime Task transaction failed and was rolled back: ",
                        &self.primary_text(),
                    );
                    self.fail(false, StorageError::new(kind, message))
                },
                Err(e) => self.fail_cleanup(e),
            },
            PairPhase::Finished => self,
        }
    }
}

// ------------------------------------------------------------------- the disk

/// Which Tasks a sidecar holds.
#[derive(Debug, Clone, Copy, PartialEq, Eq, Structural)]
pub enum TaskSide {
    Old,
    New,
}

/// The two sidecars and the marker: as a running process sees them, and as a power loss would
/// leave them.
pub struct TaskDisk {
    pub first: TaskSide,
    pub second: TaskSide,
    pub marker: Option<RuntimeTaskJournalMarkerState>,
    pub durable_first: TaskSide,
    pub durable_second: TaskSide,
    pub durable_marker: Option<RuntimeTaskJournalMarkerState>,
}

/// Whether `e` can be the disk after an action on `d` that was reported as done (`ok`) or as
/// failed. A rename that fails has done nothing, and one that is done need not last before the
/// directory is synchronized. A durable write or deactivation that fails may have taken effect
/// or not, for the process and for the disk each.
pub open spec fn performed(a: PairAction, d: TaskDisk, ok: bool, e: TaskDisk) -> bool {
    match a {
        PairAction::WriteJournal => {
            let m = Some(RuntimeTaskJournalMarkerState::Prepared);
            &&& e == (TaskDisk { marker: e.marker, durable_marker: e.durable_marker, ..d })
            &&& e.marker == m || (!ok && e.marker == d.marker)
            &&& e.durable_marker == m || (!ok && e.durable_marker == d.durable_marker)
        },
        PairAction::WriteSidecar(PairSide::First) => {
            &&& e == (TaskDisk { first: e.first, durable_first: e.durable_first, ..d })
            &&& e.first == TaskSide::New || (!ok && e.first == d.first)
            &&& e.durable_first == TaskSide::New || (!ok && e.durable_first == d.durable_first)
        },
        PairAction::WriteSidecar(PairSide::Second) => {
            &&& e == (TaskDisk { second: e.second, durable_second: e.durable_second, ..d })
            &&& e.second == TaskSide::New || (!ok && e.second == d.second)
            &&& e.durable_second == TaskSide::New || (!ok && e.durable_second == d.durable_second)
        },
        PairAction::RestoreUndo(PairSide::First) => {
            &&& e == (TaskDisk { first: e.first, durable_first: e.durable_first, ..d })
            &&& e.first == TaskSide::Old || (!ok && e.first == d.first)
            &&& e.durable_first == TaskSide::Old || (!ok && e.durable_first == d.durable_first)
        },
        PairAction::RestoreUndo(PairSide::Second) => {
            &&& e == (TaskDisk { second: e.second, durable_second: e.durable_second, ..d })
            &&& e.second == TaskSide::Old || (!ok && e.second == d.second)
            &&& e.durable_second == TaskSide::Old || (!ok && e.durable_second == d.durable_second)
        },
        PairAction::RenameMarker(from, to) => if ok {
            &&& e == (TaskDisk { marker: Some(to), durable_marker: e.durable_marker, ..d })
            &&& e.durable_marker == d.durable_marker || e.durable_marker == Some(to)
        } else {
            e == d
        },
        PairAction::SyncMarkers => {
            &&& e == (TaskDisk { durable_marker: e.durable_marker, ..d })
            &&& e.durable_marker == d.marker || (!ok && e.durable_marker == d.durable_marker)
        },
        PairAction::DeactivateMarker(_) => {
            &&& e == (TaskDisk { marker: e.marker, durable_marker: e.durable_marker, ..d })
            &&& e.marker is None || (!ok && e.marker == d.marker)
            &&& e.durable_marker is None || (!ok && e.durable_marker == d.durable_marker)
        },
        PairAction::DeactivateIfPresent(m) => if d.marker == Some(m) {
            &&& e == (TaskDisk { marker: e.marker, durable_marker: e.durable_marker, ..d })
            &&& e.marker is None || (!ok && e.marker == d.marker)
            &&& e.durable_marker is None || (!ok && e.durable_marker == d.durable_marker)
        } else {
            e == d
        },
        PairAction::Finish => e == d,
    }
}

/// The Tasks that a recovery leaves: it undoes a marker that is not committed, and keeps the
/// sidecars as they are otherwise.
pub open spec fn recovered(
    first: TaskSide,
    second: TaskSide,
    marker: Option<RuntimeTaskJournalMarkerState>,
) -> (TaskSide, TaskSide) {
    match marker {
        Some(RuntimeTaskJournalMarkerState::Prepared) => (TaskSide::Old, TaskSide::Old),
        Some(RuntimeTaskJournalMarkerState::Committing) => (TaskSide::Old, TaskSide::Old),
        _ => (first, second),
    }
}

/// Whether a recovery of this process, and one after a power loss, each give both old or both
/// new Tasks.
pub open spec fn recovers_whole(d: TaskDisk) -> bool {
    &&& recovered(d.first, d.second, d.marker).0 == recovered(d.first, d.second, d.marker).1
    &&& recovered(d.durable_first, d.durable_second, d.durable_marker).0 == recovered(
        d.durable_first,
        d.durable_second,
        d.durable_marker,
    ).1
}

/// Both sidecars hold the same Tasks, durably.
pub open spec fn all(d: TaskDisk, t: TaskSide) -> bool {
    d.first == t && d.second == t && d.durable_first == t && d.durable_second == t
}

/// A marker that a recovery undoes.
pub open spec fn undoes(m: Option<RuntimeTaskJournalMarkerState>) -> bool {
    m == Some(RuntimeTaskJournalMarkerState::Prepared) || m == Some(
        RuntimeTaskJournalMarkerState::Committing,
    )
}

/// What holds of the disk in each phase.
pub open spec fn pair_disk(s: PairState, d: TaskDisk) -> bool {
    let prepared = Some(RuntimeTaskJournalMarkerState::Prepared);
    let committing = Some(RuntimeTaskJournalMarkerState::Committing);
    let committed = Some(RuntimeTaskJournalMarkerState::Committed);
    match s.phase {
        PairPhase::WriteJournal => all(d, TaskSide::Old) && d.marker is None
            && d.durable_marker is None,
        PairPhase::WriteFirst => all(d, TaskSide::Old) && d.marker == prepared && d.durable_marker
            == prepared,
        PairPhase::WriteSecond => d.first == TaskSide::New && d.durable_first == TaskSide::New
            && d.second == TaskSide::Old && d.durable_second == TaskSide::Old && d.marker
            == prepared && d.durable_marker == prepared,
        PairPhase::RenameCommitting => all(d, TaskSide::New) && d.marker == prepared
            && d.durable_marker == prepared,
        PairPhase::SyncCommitting => all(d, TaskSide::New) && d.marker == committing && undoes(
            d.durable_marker,
        ),
        PairPhase::RenameCommitted => all(d, TaskSide::New) && d.marker == committing
            && d.durable_marker == committing,
        PairPhase::SyncCommitted => all(d, TaskSide::New) && d.marker == committed && (
        d.durable_marker == committing || d.durable_marker == committed),
        PairPhase::Deactivate => all(d, TaskSide::New) && d.marker == committed && d.durable_marker
            == committed,
        PairPhase::RestoreFirst => undoes(d.marker) && undoes(d.durable_marker),
        PairPhase::RestoreSecond => undoes(d.marker) && undoes(d.durable_marker) && (
        s.first_failure is None ==> d.first == TaskSide::Old && d.durable_first == TaskSide::Old),
        PairPhase::RemovePrepared => all(d, TaskSide::Old) && undoes(d.marker) && undoes(
            d.durable_marker,
        ),
        PairPhase::RemoveCommitting => all(d, TaskSide::Old) && ((d.marker == committing && undoes(
            d.durable_marker,
        )) || (d.marker is None && d.durable_marker is None)),
        PairPhase::RemoveCommitted => all(d, TaskSide::Old) && d.marker is None
            && d.durable_marker is None,
        PairPhase::Finished => match s.failure {
            None => all(d, TaskSide::New) && d.marker is None && d.durable_marker is None
                && !s.recovery_required,
            Some(_) => recovers_whole(d) && (s.recovery_required || (all(d, TaskSide::Old) && (
            d.marker is None || d.marker == prepared))),
        },
    }
}

// ------------------------------------------------------------------------- laws

/// A paired commit begins on a disk with both old sidecars and no marker.
pub proof fn pair_begins(d: TaskDisk, recovery_required: bool)
    requires
        all(d, TaskSide::Old),
        d.marker is None,
        d.durable_marker is None,
    ensures
        pair_disk(pair_start(recovery_required), d),
{
}

/// Whatever the outcome of the action that is due, the disk afterwards is one that the next
/// phase expects.
pub proof fn pair_keeps_its_disk(
    s: PairState,
    d: TaskDisk,
    outcome: Result<(), ErrorView>,
    e: TaskDisk,
    first_id: Seq<char>,
    second_id: Seq<char>,
)
    requires
        pair_disk(s, d),
        performed(phase_action(s.phase), d, outcome is Ok, e),
    ensures
        pair_disk(pair_step(s, outcome, first_id, second_id), e),
{
}

/// A crash or power loss at any point of a paired commit, also in the middle of an action,
/// leaves a disk from which recovery makes both old or both new Tasks: never one of each.
pub proof fn pair_is_atomic_across_crashes(s: PairState, d: TaskDisk, ok: bool, e: TaskDisk)
    requires
        pair_disk(s, d),
        performed(phase_action(s.phase), d, ok, e),
    ensures
        recovers_whole(d),
        recovers_whole(e),
{
}

/// The commit after a history of outcomes.
pub open spec fn pair_run(
    s: PairState,
    outcomes: Seq<Result<(), ErrorView>>,
    first_id: Seq<char>,
    second_id: Seq<char>,
) -> PairState
    decreases outcomes.len(),
{
    if outcomes.len() == 0 {
        s
    } else {
        pair_step(
            pair_run(s, outcomes.drop_last(), first_id, second_id),
            outcomes.last(),
            first_id,
            second_id,
        )
    }
}

/// Whether the disks can follow one another under a history of outcomes.
pub open spec fn pair_history(
    s: PairState,
    outcomes: Seq<Result<(), ErrorView>>,
    disks: Seq<TaskDisk>,
    first_id: Seq<char>,
    second_id: Seq<char>,
) -> bool {
    &&& disks.len() == outcomes.len() + 1
    &&& forall|i: int|
        0 <= i < outcomes.len() ==> performed(
            phase_action(pair_run(s, outcomes.take(i), first_id, second_id).phase),
            disks[i],
            #[trigger] outcomes[i] is Ok,
            disks[i + 1],
        )
}

/// Every history of a paired commit that begins on a clean disk recovers whole at its end,
/// whichever actions failed along the way.
pub proof fn every_pair_history_recovers_whole(
    recovery_required: bool,
    outcomes: Seq<Result<(), ErrorView>>,
    disks: Seq<TaskDisk>,
    first_id: Seq<char>,
    second_id: Seq<char>,
)
    requires
        pair_history(pair_start(recovery_required), outcomes, disks, first_id, second_id),
        all(disks[0], TaskSide::Old),
        disks[0].marker is None,
        disks[0].durable_marker is None,
    ensures
        pair_disk(
            pair_run(pair_start(recovery_required), outcomes, first_id, second_id),
            disks.last(),
        ),
        recovers_whole(disks.last()),
    decreases outcomes.len(),
{
    let start = pair_start(recovery_required);
    if outcomes.len() > 0 {
        let n = outcomes.len() - 1;
        let before = outcomes.drop_last();
        let earlier = disks.drop_last();
        assert forall|i: int| 0 <= i < before.len() implies performed(
            phase_action(pair_run(start, before.take(i), first_id, second_id).phase),
            earlier[i],
            #[trigger] before[i] is Ok,
            earlier[i + 1],
        ) by {
            assert(before.take(i) =~= outcomes.take(i));
            assert(before[i] == outcomes[i]);
            assert(outcomes[i] is Ok == before[i] is Ok);
        }
        every_pair_history_recovers_whole(
            recovery_required,
            before,
            earlier,
            first_id,
            second_id,
        );
        let s = pair_run(start, before, first_id, second_id);
        assert(outcomes.take(n) =~= before);
        assert(earlier.last() == disks[n]);
        assert(outcomes[n] == outcomes.last());
        pair_keeps_its_disk(s, disks[n], outcomes.last(), disks[n + 1], first_id, second_id);
        pair_is_atomic_across_crashes(s, disks[n], outcomes.last() is Ok, disks[n + 1]);
    }
}

/// A commit that is answered with success is durable in both sessions and leaves no marker; one
/// that is answered with failure and asks for no recovery has left both sessions as they were.
pub proof fn pair_answer_is_truthful(s: PairState, d: TaskDisk)
    requires
        pair_disk(s, d),
        s.phase == PairPhase::Finished,
    ensures
        s.failure is None ==> all(d, TaskSide::New) && d.marker is None && d.durable_marker is None
            && !s.recovery_required,
        s.failure is Some && !s.recovery_required ==> all(d, TaskSide::Old),
{
}

// ------------------------------------------------------------------- recovery

/// How far the recovery of one journal has come.
#[derive(Debug, Clone, Copy, PartialEq, Eq, Structural)]
pub enum RecoveryPhase {
    RestoreFirst,
    RestoreSecond,
    Deactivate,
    Finished,
}

/// The recovery of one journal in progress.
pub struct JournalRecovery {
    pub phase: RecoveryPhase,
    pub first_failure: Option<StorageError>,
    pub failure: Option<StorageError>,
}

/// What a [`JournalRecovery`] holds.
#[verifier::ext_equal]
pub struct RecoveryState {
    pub phase: RecoveryPhase,
    pub first_failure: Option<ErrorView>,
    pub failure: Option<ErrorView>,
}

impl View for JournalRecovery {
    type V = RecoveryState;

    open spec fn view(&self) -> RecoveryState {
        RecoveryState {
            phase: self.phase,
            first_failure: opt_error(self.first_failure),
            failure: opt_error(self.failure),
        }
    }
}

/// How the recovery of a journal begins, by what its file name says of it.
pub open spec fn recovery_start(
    marker: Option<RuntimeTaskJournalMarkerState>,
) -> RecoveryState {
    match marker {
        None => RecoveryState {
            phase: RecoveryPhase::Finished,
            first_failure: None,
            failure: Some(
                error::plain_error(
                    ErrorKind::InvalidData,
                    "invalid runtime Task journal marker extension"@,
                ),
            ),
        },
        Some(RuntimeTaskJournalMarkerState::Committed) => RecoveryState {
            phase: RecoveryPhase::Deactivate,
            first_failure: None,
            failure: None,
        },
        Some(_) => RecoveryState {
            phase: RecoveryPhase::RestoreFirst,
            first_failure: None,
            failure: None,
        },
    }
}

/// What the outcome of a recovery action makes of the recovery.
pub open spec fn recovery_step(
    s: RecoveryState,
    outcome: Result<(), ErrorView>,
    first_id: Seq<char>,
    second_id: Seq<char>,
) -> RecoveryState {
    let failure = match outcome {
        Ok(_) => None,
        Err(e) => Some(e),
    };
    match s.phase {
        RecoveryPhase::RestoreFirst => RecoveryState {
            phase: RecoveryPhase::RestoreSecond,
            first_failure: failure,
            ..s
        },
        RecoveryPhase::RestoreSecond => if s.first_failure is None && failure is None {
            RecoveryState { phase: RecoveryPhase::Deactivate, ..s }
        } else {
            RecoveryState {
                phase: RecoveryPhase::Finished,
                failure: Some(
                    error::plain_error(
                        ErrorKind::Other,
                        rollback_text(first_id, s.first_failure, second_id, failure),
                    ),
                ),
                ..s
            }
        },
        RecoveryPhase::Deactivate => RecoveryState {
            phase: RecoveryPhase::Finished,
            failure,
            ..s
        },
        RecoveryPhase::Finished => s,
    }
}

/// The action of a recovery phase; `marker` is the state of the journal's marker.
pub open spec fn recovery_action(
    p: RecoveryPhase,
    marker: RuntimeTaskJournalMarkerState,
) -> PairAction {
    match p {
        RecoveryPhase::RestoreFirst => PairAction::RestoreUndo(PairSide::First),
        RecoveryPhase::RestoreSecond => PairAction::RestoreUndo(PairSide::Second),
        RecoveryPhase::Deactivate => PairAction::DeactivateMarker(marker),
        RecoveryPhase::Finished => PairAction::Finish,
    }
}

impl JournalRecovery {
    /// Begins the recovery of a journal, by what its file name says of it.
    pub fn recover_runtime_task_journal(marker: Option<RuntimeTaskJournalMarkerState>) -> (r:
        JournalRecovery)
        ensures
            r@ == recovery_start(marker),
    {
        match marker {
            None => JournalRecovery {
                phase: RecoveryPhase::Finished,
                first_failure: None,
                failure: Some(
                    StorageError::new(
                        ErrorKind::InvalidData,
                        "invalid runtime Task journal marker extension".to_owned(),
                    ),
                ),
            },
            Some(RuntimeTaskJournalMarkerState::Committed) => JournalRecovery {
                phase: RecoveryPhase::Deactivate,
                first_failure: None,
                failure: None,
            },
            Some(_) => JournalRecovery {
                phase: RecoveryPhase::RestoreFirst,
                first_failure: None,
                failure: None,
            },
        }
    }

    /// What to do now.
    pub fn action(&self, marker: RuntimeTaskJournalMarkerState) -> (r: PairAction)
        ensures
            r == recovery_action(self.phase, marker),
    {
        match self.phase {
            RecoveryPhase::RestoreFirst => PairAction::RestoreUndo(PairSide::First),
            RecoveryPhase::RestoreSecond => PairAction::RestoreUndo(PairSide::Second),
            RecoveryPhase::Deactivate => PairAction::DeactivateMarker(marker),
            RecoveryPhase::Finished => PairAction::Finish,
        }
    }

    /// Takes the outcome of the action that was due.
    pub fn step(self, outcome: Result<(), StorageError>, first_id: &str, second_id: &str) -> (r:
        JournalRecovery)
        ensures
            r@ == recovery_step(self@, error::plain_view(outcome), first_id@, second_id@),
    {
        let failure = match outcome {
            Ok(_) => None,
            Err(e) => Some(e),
        };
        match self.phase {
            RecoveryPhase::RestoreFirst => JournalRecovery {
                phase: RecoveryPhase::RestoreSecond,
                first_failure: failure,
                ..self
            },
            RecoveryPhase::RestoreSecond => {
                if self.first_failure.is_none() && failure.is_none() {
                    return JournalRecovery { phase: RecoveryPhase::Deactivate, ..self };
                }
                let message = rollback_message(
                    first_id,
                    &self.first_failure,
                    second_id,
                    &failure,
                );
                JournalRecovery {
                    phase: RecoveryPhase::Finished,
                    failure: Some(StorageError::new(ErrorKind::Other, message)),
                    ..self
                }
            },
            RecoveryPhase::Deactivate => JournalRecovery {
                phase: RecoveryPhase::Finished,
                failure,
                ..self
            },
            RecoveryPhase::Finished => self,
        }
    }
}

/// What holds of the disk in each phase of a recovery that found the marker `m` and the
/// sidecars `first` and `second` on the disk.
pub open spec fn recovery_disk(
    s: RecoveryState,
    d: TaskDisk,
    m: RuntimeTaskJournalMarkerState,
    first: TaskSide,
    second: TaskSide,
) -> bool {
    let target = recovered(first, second, Some(m));
    match s.phase {
        RecoveryPhase::RestoreFirst => undoes(Some(m)) && d.marker == Some(m) && d.durable_marker
            == Some(m),
        RecoveryPhase::RestoreSecond => undoes(Some(m)) && d.marker == Some(m) && d.durable_marker
            == Some(m) && (s.first_failure is None ==> d.first == TaskSide::Old && d.durable_first
            == TaskSide::Old),
        RecoveryPhase::Deactivate => d.marker == Some(m) && d.durable_marker == Some(m)
            && recovered(d.durable_first, d.durable_second, Some(m)) == target && d.durable_first
            == target.0 && d.durable_second == target.1,
        RecoveryPhase::Finished => recovered(d.durable_first, d.durable_second, d.durable_marker)
            == target && (s.failure is None ==> d.durable_marker is None),
    }
}

/// A recovery begins on whatever disk holds the journal's marker durably.
pub proof fn recovery_begins(d: TaskDisk, m: RuntimeTaskJournalMarkerState)
    requires
        d.marker == Some(m),
        d.durable_marker == Some(m),
    ensures
        recovery_disk(recovery_start(Some(m)), d, m, d.durable_first, d.durable_second),
{
}

/// Recovery gives the same Tasks however often it is cut short: at every point, and after a
/// power loss in the middle of an action, another recovery ends in the Tasks that the marker
/// calls for; and a recovery that reports success has put the marker out of action.
pub proof fn recovery_is_repeatable(
    s: RecoveryState,
    d: TaskDisk,
    m: RuntimeTaskJournalMarkerState,
    first: TaskSide,
    second: TaskSide,
    outcome: Result<(), ErrorView>,
    e: TaskDisk,
    first_id: Seq<char>,
    second_id: Seq<char>,
)
    requires
        recovery_disk(s, d, m, first, second),
        performed(recovery_action(s.phase, m), d, outcome is Ok, e),
    ensures
        recovery_disk(recovery_step(s, outcome, first_id, second_id), e, m, first, second),
        recovered(d.durable_first, d.durable_second, d.durable_marker) == recovered(
            first,
            second,
            Some(m),
        ),
        recovered(e.durable_first, e.durable_second, e.durable_marker) == recovered(
            first,
            second,
            Some(m),
        ),
{
}

/// The commit after its next `n` actions, where each was done.
pub open spec fn pair_done(
    s: PairState,
    n: nat,
    first_id: Seq<char>,
    second_id: Seq<char>,
) -> PairState
    decreases n,
{
    if n == 0 {
        s
    } else {
        pair_step(
            pair_done(s, (n - 1) as nat, first_id, second_id),
            Ok(()),
            first_id,
            second_id,
        )
    }
}

/// Undisturbed, a paired commit writes its journal, then both sidecars, marks the journal as
/// committing and as committed, each made durable, puts the marker out of action, and is answered
/// with success; a recovery is required from the journal on, until it is over.
pub proof fn a_pair_takes_every_action(
    recovery_required: bool,
    first_id: Seq<char>,
    second_id: Seq<char>,
)
    ensures
        ({
            let s = pair_start(recovery_required);
            let at = |n: nat| phase_action(pair_done(s, n, first_id, second_id).phase);
            &&& at(0) == PairAction::WriteJournal
            &&& at(1) == PairAction::WriteSidecar(PairSide::First)
            &&& at(2) == PairAction::WriteSidecar(PairSide::Second)
            &&& at(3) == PairAction::RenameMarker(
                RuntimeTaskJournalMarkerState::Prepared,
                RuntimeTaskJournalMarkerState::Committing,
            )
            &&& at(4) == PairAction::SyncMarkers
            &&& at(5) == PairAction::RenameMarker(
                RuntimeTaskJournalMarkerState::Committing,
                RuntimeTaskJournalMarkerState::Committed,
            )
            &&& at(6) == PairAction::SyncMarkers
            &&& at(7) == PairAction::DeactivateMarker(RuntimeTaskJournalMarkerState::Committed)
            &&& at(8) == PairAction::Finish
            &&& s.recovery_required == recovery_required
            &&& pair_done(s, 1, first_id, second_id).recovery_required
            &&& pair_done(s, 7, first_id, second_id).recovery_required
            &&& !pair_done(s, 8, first_id, second_id).recovery_required
            &&& pair_done(s, 8, first_id, second_id).failure is None
        }),
{
    reveal_with_fuel(pair_done, 9);
}

/// A commit that fails before it is durable puts both sessions back, then takes every marker out of
/// action, and is answered with the kind and the message of what went wrong.
pub proof fn a_failed_pair_is_rolled_back(
    s: PairState,
    e: ErrorView,
    first_id: Seq<char>,
    second_id: Seq<char>,
)
    requires
        s.phase == PairPhase::WriteFirst || s.phase == PairPhase::WriteSecond || s.phase
            == PairPhase::RenameCommitting || s.phase == PairPhase::SyncCommitting || s.phase
            == PairPhase::RenameCommitted,
    ensures
        ({
            let b = pair_step(s, Err(e), first_id, second_id);
            let at = |n: nat| phase_action(pair_done(b, n, first_id, second_id).phase);
            let over = pair_done(b, 5, first_id, second_id);
            &&& at(0) == PairAction::RestoreUndo(PairSide::First)
            &&& at(1) == PairAction::RestoreUndo(PairSide::Second)
            &&& at(2) == PairAction::DeactivateIfPresent(RuntimeTaskJournalMarkerState::Prepared)
            &&& at(3) == PairAction::DeactivateIfPresent(RuntimeTaskJournalMarkerState::Committing)
            &&& at(4) == PairAction::DeactivateIfPresent(RuntimeTaskJournalMarkerState::Committed)
            &&& at(5) == PairAction::Finish
            &&& !over.recovery_required
            &&& over.failure is Some && over.failure->0.kind == e.kind
            &&& over.failure->0.message == "runtime Task transaction failed and was rolled back: "@
                + e.message
        }),
{
    reveal_with_fuel(pair_done, 6);
}

/// A commit whose journal cannot be written has changed nothing and asks for no recovery that was not
/// asked for before. One that fails after it became durable, or whose rollback fails, asks for a
/// recovery; both sessions are put back whether or not the first can be.
pub proof fn when_a_pair_asks_for_recovery(
    s: PairState,
    e: ErrorView,
    outcome: Result<(), ErrorView>,
    first_id: Seq<char>,
    second_id: Seq<char>,
)
    ensures
        s.phase == PairPhase::WriteJournal ==> pair_step(s, Err(e), first_id, second_id)
            == (PairState { phase: PairPhase::Finished, failure: Some(e), ..s }),
        s.phase == PairPhase::SyncCommitted || s.phase == PairPhase::Deactivate || s.phase
            == PairPhase::RestoreSecond || s.phase == PairPhase::RemovePrepared || s.phase
            == PairPhase::RemoveCommitting || s.phase == PairPhase::RemoveCommitted ==> ({
            let t = pair_step(s, Err(e), first_id, second_id);
            t.phase == PairPhase::Finished && t.recovery_required && t.failure is Some
                && t.failure->0.kind == ErrorKind::Other
        }),
        s.phase == PairPhase::RestoreFirst ==> pair_step(s, outcome, first_id, second_id).phase
            == PairPhase::RestoreSecond && (pair_step(
            s,
            outcome,
            first_id,
            second_id,
        ).first_failure is Some <==> outcome is Err),
        s.phase == PairPhase::RestoreSecond && s.first_failure is Some ==> ({
            let t = pair_step(s, outcome, first_id, second_id);
            t.phase == PairPhase::Finished && t.recovery_required && t.failure is Some
        }),
        s.phase == PairPhase::Finished ==> pair_step(s, outcome, first_id, second_id) == s,
{
}

/// A text about a failed rollback names the sessions that could not be put back, with why, and no
/// other.
pub proof fn a_failed_rollback_is_told(
    first_id: Seq<char>,
    a: ErrorView,
    second_id: Seq<char>,
    b: ErrorView,
)
    ensures
        rollback_text(first_id, Some(a), second_id, None)
            == "runtime Task transaction rollback failed for "@ + (first_id + ": "@ + a.message),
        rollback_text(first_id, None, second_id, Some(b))
            == "runtime Task transaction rollback failed for "@ + (second_id + ": "@ + b.message),
        rollback_text(first_id, Some(a), second_id, Some(b))
            == "runtime Task transaction rollback failed for "@ + (first_id + ": "@ + a.message
            + ", "@ + (second_id + ": "@ + b.message)),
{
}

/// The recovery of a journal after its next `n` actions, where each was done.
pub open spec fn recovery_done(
    s: RecoveryState,
    n: nat,
    first_id: Seq<char>,
    second_id: Seq<char>,
) -> RecoveryState
    decreases n,
{
    if n == 0 {
        s
    } else {
        recovery_step(
            recovery_done(s, (n - 1) as nat, first_id, second_id),
            Ok(()),
            first_id,
            second_id,
        )
    }
}

/// A recovery puts both sessions of an unfinished commit back before it takes the marker out of
/// action, and only does the latter for a finished one; a file that no marker's extension marks is
/// refused.
pub proof fn a_recovery_takes_every_action(
    m: RuntimeTaskJournalMarkerState,
    first_id: Seq<char>,
    second_id: Seq<char>,
)
    ensures
        ({
            let s = recovery_start(Some(m));
            let at = |n: nat| recovery_action(recovery_done(s, n, first_id, second_id).phase, m);
            let finished = m == RuntimeTaskJournalMarkerState::Committed;
            &&& !finished ==> at(0) == PairAction::RestoreUndo(PairSide::First)
            &&& !finished ==> at(1) == PairAction::RestoreUndo(PairSide::Second)
            &&& !finished ==> at(2) == PairAction::DeactivateMarker(m)
            &&& !finished ==> at(3) == PairAction::Finish && recovery_done(
                s,
                3,
                first_id,
                second_id,
            ).failure is None
            &&& finished ==> at(0) == PairAction::DeactivateMarker(m)
            &&& finished ==> at(1) == PairAction::Finish && recovery_done(
                s,
                1,
                first_id,
                second_id,
            ).failure is None
        }),
        recovery_start(None).phase == RecoveryPhase::Finished,
        recovery_start(None).failure is Some && recovery_start(None).failure->0.kind
            == ErrorKind::InvalidData,
{
    reveal_with_fuel(recovery_done, 4);
}

/// A recovery that cannot put a session back is over with a failure and leaves the marker in place.
pub proof fn a_failed_recovery_keeps_the_marker(
    s: RecoveryState,
    e: ErrorView,
    outcome: Result<(), ErrorView>,
    first_id: Seq<char>,
    second_id: Seq<char>,
)
    ensures
        s.phase == RecoveryPhase::RestoreFirst ==> recovery_step(s, outcome, first_id, second_id).phase
            == RecoveryPhase::RestoreSecond && (recovery_step(
            s,
            outcome,
            first_id,
            second_id,
        ).first_failure is Some <==> outcome is Err),
        s.phase == RecoveryPhase::RestoreSecond && (s.first_failure is Some || outcome is Err) ==> ({
            let t = recovery_step(s, outcome, first_id, second_id);
            t.phase == RecoveryPhase::Finished && t.failure is Some
        }),
        s.phase == RecoveryPhase::Deactivate ==> recovery_step(s, Err(e), first_id, second_id).failure
            == Some(e),
        s.phase == RecoveryPhase::Finished ==> recovery_step(s, outcome, first_id, second_id) == s,
{
}

/// What is said of these values is said of their own fields: none is left out or exchanged.
pub proof fn nothing_is_left_unseen(a: PairTransaction, b: JournalRecovery)
    ensures
        a@.primary is Some <==> a.primary is Some,
        a.primary is Some ==> a@.primary->0 == a.primary->0@,
        a@.first_failure is Some <==> a.first_failure is Some,
        a.first_failure is Some ==> a@.first_failure->0 == a.first_failure->0@,
        a@.failure is Some <==> a.failure is Some,
        a.failure is Some ==> a@.failure->0 == a.failure->0@,
        a@.phase == a.phase && a@.recovery_required == a.recovery_required,
        b@.first_failure is Some <==> b.first_failure is Some,
        b.first_failure is Some ==> b@.first_failure->0 == b.first_failure->0@,
        b@.failure is Some <==> b.failure is Some,
        b.failure is Some ==> b@.failure->0 == b.failure->0@,
        b@.phase == b.phase,
{
}

} // verus!
