//! The write protocol of a session copy, its rollback and its recovery, as a state machine from
//! the outcome of one action to the next action.
use crate::copy::SessionCopyJournalMarkerState;
use crate::error::{ErrorKind, ErrorView, StorageError};
use crate::error;
use crate::task_protocol;
use crate::text::{join2, join3, join4, join5};
use vstd::prelude::*;

verus! {

/// What the protocol has done next.
#[derive(Debug, Clone, Copy, PartialEq, Eq, Structural)]
pub enum CopyAction {
    /// Publish the journal durably, as a prepared marker.
    WriteJournal,
    /// Write the copy aside, complete and durable, then rename it into place durably.
    WriteTarget,
    /// Publish the copy's search revision.
    PublishRevision,
    RenameMarker(SessionCopyJournalMarkerState, SessionCopyJournalMarkerState),
    /// Make the names in the journal directory durable.
    SyncMarkers,
    /// Put the copy into the index, and then queue it for the search index.
    PublishIndex,
    /// Put the committed target into the index again, give it a fresh search revision and queue
    /// it for the search index.
    Republish,
    /// Durably put the marker out of action.
    Deactivate,
    /// Take the copy out of the index, and out of this process's view of it in any case.
    HideIndex,
    RemoveTarget,
    /// Make the removal of the target durable.
    SyncTarget,
    RemoveStaging,
    /// Make the removal of what was written aside durable.
    SyncStaging,
    /// Queue the removal of the copy from the search index.
    ForgetSearch,
    /// Durably put the marker out of action where it is there.
    DeactivateIfPresent(SessionCopyJournalMarkerState),
    Finish,
}

/// What came of an action.
pub enum CopyOutcome {
    Done,
    /// There was nothing to do it to.
    Absent,
    Failed(StorageError),
}

/// What a [`CopyOutcome`] says.
pub enum CopyOutcomeView {
    Done,
    Absent,
    Failed(ErrorView),
}

impl View for CopyOutcome {
    type V = CopyOutcomeView;

    open spec fn view(&self) -> CopyOutcomeView {
        match *self {
            CopyOutcome::Done => CopyOutcomeView::Done,
            CopyOutcome::Absent => CopyOutcomeView::Absent,
            CopyOutcome::Failed(e) => CopyOutcomeView::Failed(e@),
        }
    }
}

/// How far a copy has come.
#[derive(Debug, Clone, Copy, PartialEq, Eq, Structural)]
pub enum CopyPhase {
    WriteJournal,
    WriteTarget,
    PublishRevision,
    RenameCommitting,
    SyncCommitting,
    RenameCommitted,
    SyncCommitted,
    PublishIndex,
    Deactivate,
    RevertMarker,
    SyncReverted,
    HideIndex,
    RemoveTarget,
    SyncTarget,
    RemoveStaging,
    SyncStaging,
    ForgetSearch,
    RemovePrepared,
    RemoveCommitting,
    RemoveCommitted,
    Finished,
}

/// A copy in progress.
pub struct CopyTransaction {
    pub phase: CopyPhase,
    /// The failure that made the copy roll back.
    pub primary: Option<StorageError>,
    /// What went wrong in the rollback so far, each after the one before.
    pub trouble: Option<String>,
    /// What the copy is answered, once it is over.
    pub failure: Option<StorageError>,
}

/// What a [`CopyTransaction`] holds.
#[verifier::ext_equal]
pub struct CopyState {
    pub phase: CopyPhase,
    pub primary: Option<ErrorView>,
    pub trouble: Option<Seq<char>>,
    pub failure: Option<ErrorView>,
}

impl View for CopyTransaction {
    type V = CopyState;

    open spec fn view(&self) -> CopyState {
        CopyState {
            phase: self.phase,
            primary: task_protocol::opt_error(self.primary),
            trouble: crate::session::opt_text(self.trouble),
            failure: task_protocol::opt_error(self.failure),
        }
    }
}

/// The action of a phase.
pub open spec fn copy_action(p: CopyPhase) -> CopyAction {
    match p {
        CopyPhase::WriteJournal => CopyAction::WriteJournal,
        CopyPhase::WriteTarget => CopyAction::WriteTarget,
        CopyPhase::PublishRevision => CopyAction::PublishRevision,
        CopyPhase::RenameCommitting => CopyAction::RenameMarker(
            SessionCopyJournalMarkerState::Prepared,
            SessionCopyJournalMarkerState::Committing,
        ),
        CopyPhase::SyncCommitting => CopyAction::SyncMarkers,
        CopyPhase::RenameCommitted => CopyAction::RenameMarker(
            SessionCopyJournalMarkerState::Committing,
            SessionCopyJournalMarkerState::Committed,
        ),
        CopyPhase::SyncCommitted => CopyAction::SyncMarkers,
        CopyPhase::PublishIndex => CopyAction::PublishIndex,
        CopyPhase::Deactivate => CopyAction::Deactivate,
        CopyPhase::RevertMarker => CopyAction::RenameMarker(
            SessionCopyJournalMarkerState::Committed,
            SessionCopyJournalMarkerState::Committing,
        ),
        CopyPhase::SyncReverted => CopyAction::SyncMarkers,
        CopyPhase::HideIndex => CopyAction::HideIndex,
        CopyPhase::RemoveTarget => CopyAction::RemoveTarget,
        CopyPhase::SyncTarget => CopyAction::SyncTarget,
        CopyPhase::RemoveStaging => CopyAction::RemoveStaging,
        CopyPhase::SyncStaging => CopyAction::SyncStaging,
        CopyPhase::ForgetSearch => CopyAction::ForgetSearch,
        CopyPhase::RemovePrepared => CopyAction::DeactivateIfPresent(
            SessionCopyJournalMarkerState::Prepared,
        ),
        CopyPhase::RemoveCommitting => CopyAction::DeactivateIfPresent(
            SessionCopyJournalMarkerState::Committing,
        ),
        CopyPhase::RemoveCommitted => CopyAction::DeactivateIfPresent(
            SessionCopyJournalMarkerState::Committed,
        ),
        CopyPhase::Finished => CopyAction::Finish,
    }
}

/// A list of troubles with one more.
pub open spec fn with_trouble(list: Option<Seq<char>>, t: Seq<char>) -> Option<Seq<char>> {
    match list {
        None => Some(t),
        Some(l) => Some(l + "; "@ + t),
    }
}

/// The copy in another phase.
pub open spec fn moved(s: CopyState, phase: CopyPhase) -> CopyState {
    CopyState { phase, ..s }
}

/// The copy in another phase, with one more trouble.
pub open spec fn troubled(s: CopyState, phase: CopyPhase, t: Seq<char>) -> CopyState {
    CopyState { phase, trouble: with_trouble(s.trouble, t), ..s }
}

/// The copy rolling back from `phase` on because of a failure.
pub open spec fn rolling_back(s: CopyState, phase: CopyPhase, e: ErrorView) -> CopyState {
    CopyState { phase, primary: Some(e), ..s }
}

/// The copy over, with a failure.
pub open spec fn failed(s: CopyState, e: ErrorView) -> CopyState {
    CopyState { phase: CopyPhase::Finished, failure: Some(e), ..s }
}

/// The message of the failure that a rollback is due to.
pub open spec fn primary_message(s: CopyState) -> Seq<char> {
    match s.primary {
        Some(e) => e.message,
        None => Seq::empty(),
    }
}

/// The kind of the failure that a rollback is due to.
pub open spec fn primary_kind(s: CopyState) -> ErrorKind {
    match s.primary {
        Some(e) => e.kind,
        None => ErrorKind::Other,
    }
}

/// A failure that leaves a recovery to be done.
pub open spec fn needs_recovery(s: CopyState, middle: Seq<char>, detail: Seq<char>) -> CopyState {
    failed(
        s,
        error::plain_error(
            ErrorKind::Other,
            "session copy failed ("@ + primary_message(s) + middle + detail
                + "); recovery required"@,
        ),
    )
}

/// Where the copy goes on when putting a marker out of action was done or needless.
pub open spec fn marker_gone(s: CopyState, outcome: CopyOutcomeView, next: CopyPhase) -> CopyState {
    match outcome {
        CopyOutcomeView::Failed(e) => needs_recovery(
            s,
            "); rollback succeeded but journal cleanup failed ("@,
            e.message,
        ),
        _ => moved(s, next),
    }
}

/// What the outcome of a phase's action makes of the copy.
pub open spec fn copy_step(
    s: CopyState,
    outcome: CopyOutcomeView,
    target: Seq<char>,
    staging: Seq<char>,
) -> CopyState {
    match s.phase {
        CopyPhase::WriteJournal => match outcome {
            CopyOutcomeView::Failed(e) => failed(s, e),
            _ => moved(s, CopyPhase::WriteTarget),
        },
        CopyPhase::WriteTarget => match outcome {
            CopyOutcomeView::Failed(e) => rolling_back(s, CopyPhase::HideIndex, e),
            _ => moved(s, CopyPhase::PublishRevision),
        },
        CopyPhase::PublishRevision => match outcome {
            CopyOutcomeView::Failed(e) => rolling_back(s, CopyPhase::HideIndex, e),
            _ => moved(s, CopyPhase::RenameCommitting),
        },
        CopyPhase::RenameCommitting => match outcome {
            CopyOutcomeView::Failed(e) => rolling_back(s, CopyPhase::HideIndex, e),
            _ => moved(s, CopyPhase::SyncCommitting),
        },
        CopyPhase::SyncCommitting => match outcome {
            CopyOutcomeView::Failed(e) => rolling_back(s, CopyPhase::HideIndex, e),
            _ => moved(s, CopyPhase::RenameCommitted),
        },
        CopyPhase::RenameCommitted => match outcome {
            CopyOutcomeView::Failed(e) => rolling_back(s, CopyPhase::HideIndex, e),
            _ => moved(s, CopyPhase::SyncCommitted),
        },
        CopyPhase::SyncCommitted => match outcome {
            CopyOutcomeView::Failed(e) => rolling_back(s, CopyPhase::RevertMarker, e),
            _ => moved(s, CopyPhase::PublishIndex),
        },
        CopyPhase::PublishIndex => match outcome {
            CopyOutcomeView::Failed(e) => rolling_back(s, CopyPhase::RevertMarker, e),
            _ => moved(s, CopyPhase::Deactivate),
        },
        CopyPhase::Deactivate => moved(s, CopyPhase::Finished),
        CopyPhase::RevertMarker => match outcome {
            CopyOutcomeView::Failed(e) => needs_recovery(
                s,
                "); could not persist rollback decision ("@,
                e.message,
            ),
            _ => moved(s, CopyPhase::SyncReverted),
        },
        CopyPhase::SyncReverted => match outcome {
            CopyOutcomeView::Failed(e) => needs_recovery(
                s,
                "); could not persist rollback decision ("@,
                e.message,
            ),
            _ => moved(s, CopyPhase::HideIndex),
        },
        CopyPhase::HideIndex => match outcome {
            CopyOutcomeView::Failed(e) => troubled(
                s,
                CopyPhase::RemoveTarget,
                "index cleanup: "@ + e.message,
            ),
            _ => moved(s, CopyPhase::RemoveTarget),
        },
        CopyPhase::RemoveTarget => match outcome {
            CopyOutcomeView::Done => moved(s, CopyPhase::SyncTarget),
            CopyOutcomeView::Absent => moved(s, CopyPhase::RemoveStaging),
            CopyOutcomeView::Failed(e) => troubled(
                s,
                CopyPhase::RemoveStaging,
                "remove "@ + target + ": "@ + e.message,
            ),
        },
        CopyPhase::SyncTarget => match outcome {
            CopyOutcomeView::Failed(e) => troubled(
                s,
                CopyPhase::RemoveStaging,
                "sync cleanup "@ + target + ": "@ + e.message,
            ),
            _ => moved(s, CopyPhase::RemoveStaging),
        },
        CopyPhase::RemoveStaging => match outcome {
            CopyOutcomeView::Done => moved(s, CopyPhase::SyncStaging),
            CopyOutcomeView::Absent => moved(s, CopyPhase::ForgetSearch),
            CopyOutcomeView::Failed(e) => troubled(
                s,
                CopyPhase::ForgetSearch,
                "remove "@ + staging + ": "@ + e.message,
            ),
        },
        CopyPhase::SyncStaging => match outcome {
            CopyOutcomeView::Failed(e) => troubled(
                s,
                CopyPhase::ForgetSearch,
                "sync cleanup "@ + staging + ": "@ + e.message,
            ),
            _ => moved(s, CopyPhase::ForgetSearch),
        },
        CopyPhase::ForgetSearch => match s.trouble {
            Some(t) => needs_recovery(
                s,
                "); rollback failed ("@,
                "session copy rollback incomplete: "@ + t,
            ),
            None => moved(s, CopyPhase::RemovePrepared),
        },
        CopyPhase::RemovePrepared => marker_gone(s, outcome, CopyPhase::RemoveCommitting),
        CopyPhase::RemoveCommitting => marker_gone(s, outcome, CopyPhase::RemoveCommitted),
        CopyPhase::RemoveCommitted => match outcome {
            CopyOutcomeView::Failed(e) => needs_recovery(
                s,
                "); rollback succeeded but journal cleanup failed ("@,
                e.message,
            ),
            _ => failed(
                s,
                error::plain_error(
                    primary_kind(s),
                    "session copy failed and was rolled back: "@ + primary_message(s),
                ),
            ),
        },
        CopyPhase::Finished => s,
    }
}

/// A copy that has not begun.
pub open spec fn copy_start() -> CopyState {
    CopyState { phase: CopyPhase::WriteJournal, primary: None, trouble: None, failure: None }
}

impl CopyTransaction {
    /// A copy that has not begun.
    pub fn begin() -> (r: CopyTransaction)
        ensures
            r@ == copy_start(),
    {
        CopyTransaction {
            phase: CopyPhase::WriteJournal,
            primary: None,
            trouble: None,
            failure: None,
        }
    }

    /// What to do now.
    pub fn action(&self) -> (r: CopyAction)
        ensures
            r == copy_action(self.phase),
    {
        match self.phase {
            CopyPhase::WriteJournal => CopyAction::WriteJournal,
            CopyPhase::WriteTarget => CopyAction::WriteTarget,
            CopyPhase::PublishRevision => CopyAction::PublishRevision,
            CopyPhase::RenameCommitting => CopyAction::RenameMarker(
                SessionCopyJournalMarkerState::Prepared,
                SessionCopyJournalMarkerState::Committing,
            ),
            CopyPhase::SyncCommitting => CopyAction::SyncMarkers,
            CopyPhase::RenameCommitted => CopyAction::RenameMarker(
                SessionCopyJournalMarkerState::Committing,
                SessionCopyJournalMarkerState::Committed,
            ),
            CopyPhase::SyncCommitted => CopyAction::SyncMarkers,
            CopyPhase::PublishIndex => CopyAction::PublishIndex,
            CopyPhase::Deactivate => CopyAction::Deactivate,
            CopyPhase::RevertMarker => CopyAction::RenameMarker(
                SessionCopyJournalMarkerState::Committed,
                SessionCopyJournalMarkerState::Committing,
            ),
            CopyPhase::SyncReverted => CopyAction::SyncMarkers,
            CopyPhase::HideIndex => CopyAction::HideIndex,
            CopyPhase::RemoveTarget => CopyAction::RemoveTarget,
            CopyPhase::SyncTarget => CopyAction::SyncTarget,
            CopyPhase::RemoveStaging => CopyAction::RemoveStaging,
            CopyPhase::SyncStaging => CopyAction::SyncStaging,
            CopyPhase::ForgetSearch => CopyAction::ForgetSearch,
            CopyPhase::RemovePrepared => CopyAction::DeactivateIfPresent(
                SessionCopyJournalMarkerState::Prepared,
            ),
            CopyPhase::RemoveCommitting => CopyAction::DeactivateIfPresent(
                SessionCopyJournalMarkerState::Committing,
            ),
            CopyPhase::RemoveCommitted => CopyAction::DeactivateIfPresent(
                SessionCopyJournalMarkerState::Committed,
            ),
            CopyPhase::Finished => CopyAction::Finish,
        }
    }

    fn advance(self, phase: CopyPhase) -> (r: CopyTransaction)
        ensures
            r@ == moved(self@, phase),
    {
        CopyTransaction { phase, ..self }
    }

    fn roll_back(self, phase: CopyPhase, e: StorageError) -> (r: CopyTransaction)
        ensures
            r@ == rolling_back(self@, phase, e@),
    {
        CopyTransaction { phase, primary: Some(e), ..self }
    }

    fn fail(self, e: StorageError) -> (r: CopyTransaction)
        ensures
            r@ == failed(self@, e@),
    {
        CopyTransaction { phase: CopyPhase::Finished, failure: Some(e), ..self }
    }

    fn note(self, phase: CopyPhase, t: String) -> (r: CopyTransaction)
        ensures
            r@ == troubled(self@, phase, t@),
    {
        let trouble = match &self.trouble {
            None => Some(t),
            Some(l) => Some(join3(l, "; ", &t)),
        };
        CopyTransaction { phase, trouble, ..self }
    }

    fn primary_text(&self) -> (r: String)
        ensures
            r@ == primary_message(self@),
    {
        match &self.primary {
            Some(e) => e.message.clone(),
            None => String::new(),
        }
    }

    fn fail_for_recovery(self, middle: &str, detail: &str) -> (r: CopyTransaction)
        ensures
            r@ == needs_recovery(self@, middle@, detail@),
    {
        let message = join5(
            "session copy failed (",
            &self.primary_text(),
            middle,
            detail,
            "); recovery required",
        );
        self.fail(StorageError::new(ErrorKind::Other, message))
    }

    fn after_marker(self, outcome: CopyOutcome, next: CopyPhase) -> (r: CopyTransaction)
        ensures
            r@ == marker_gone(self@, outcome@, next),
    {
        match outcome {
            CopyOutcome::Failed(e) => self.fail_for_recovery(
                "); rollback succeeded but journal cleanup failed (",
                &e.message,
            ),
            _ => self.advance(next),
        }
    }

    /// Takes the outcome of the action that was due. `target` and `staging` are the directories
    /// of the copy, for messages.
    pub fn step(self, outcome: CopyOutcome, target: &str, staging: &str) -> (r: CopyTransaction)
        ensures
            r@ == copy_step(self@, outcome@, target@, staging@),
    {
        match self.phase {
            CopyPhase::WriteJournal => match outcome {
                CopyOutcome::Failed(e) => self.fail(e),
                _ => self.advance(CopyPhase::WriteTarget),
            },
            CopyPhase::WriteTarget => match outcome {
                CopyOutcome::Failed(e) => self.roll_back(CopyPhase::HideIndex, e),
                _ => self.advance(CopyPhase::PublishRevision),
            },
            CopyPhase::PublishRevision => match outcome {
                CopyOutcome::Failed(e) => self.roll_back(CopyPhase::HideIndex, e),
                _ => self.advance(CopyPhase::RenameCommitting),
            },
            CopyPhase::RenameCommitting => match outcome {
                CopyOutcome::Failed(e) => self.roll_back(CopyPhase::HideIndex, e),
                _ => self.advance(CopyPhase::SyncCommitting),
            },
            CopyPhase::SyncCommitting => match outcome {
                CopyOutcome::Failed(e) => self.roll_back(CopyPhase::HideIndex, e),
                _ => self.advance(CopyPhase::RenameCommitted),
            },
            CopyPhase::RenameCommitted => match outcome {
                CopyOutcome::Failed(e) => self.roll_back(CopyPhase::HideIndex, e),
                _ => self.advance(CopyPhase::SyncCommitted),
            },
            CopyPhase::SyncCommitted => match outcome {
                CopyOutcome::Failed(e) => self.roll_back(CopyPhase::RevertMarker, e),
                _ => self.advance(CopyPhase::PublishIndex),
            },
            CopyPhase::PublishIndex => match outcome {
                CopyOutcome::Failed(e) => self.roll_back(CopyPhase::RevertMarker, e),
                _ => self.advance(CopyPhase::Deactivate),
            },
            CopyPhase::Deactivate => self.advance(CopyPhase::Finished),
            CopyPhase::RevertMarker => match outcome {
                CopyOutcome::Failed(e) => self.fail_for_recovery(
                    "); could not persist rollback decision (",
                    &e.message,
                ),
                _ => self.advance(CopyPhase::SyncReverted),
            },
            CopyPhase::SyncReverted => match outcome {
                CopyOutcome::Failed(e) => self.fail_for_recovery(
                    "); could not persist rollback decision (",
                    &e.message,
                ),
                _ => self.advance(CopyPhase::HideIndex),
            },
            CopyPhase::HideIndex => match outcome {
                CopyOutcome::Failed(e) => self.note(
                    CopyPhase::RemoveTarget,
                    join2("index cleanup: ", &e.message),
                ),
                _ => self.advance(CopyPhase::RemoveTarget),
            },
            CopyPhase::RemoveTarget => match outcome {
                CopyOutcome::Done => self.advance(CopyPhase::SyncTarget),
                CopyOutcome::Absent => self.advance(CopyPhase::RemoveStaging),
                CopyOutcome::Failed(e) => self.note(
                    CopyPhase::RemoveStaging,
                    join4("remove ", target, ": ", &e.message),
                ),
            },
            CopyPhase::SyncTarget => match outcome {
                CopyOutcome::Failed(e) => self.note(
                    CopyPhase::RemoveStaging,
                    join4("sync cleanup ", target, ": ", &e.message),
                ),
                _ => self.advance(CopyPhase::RemoveStaging),
            },
            CopyPhase::RemoveStaging => match outcome {
                CopyOutcome::Done => self.advance(CopyPhase::SyncStaging),
                CopyOutcome::Absent => self.advance(CopyPhase::ForgetSearch),
                CopyOutcome::Failed(e) => self.note(
                    CopyPhase::ForgetSearch,
                    join4("remove ", staging, ": ", &e.message),
                ),
            },
            CopyPhase::SyncStaging => match outcome {
                CopyOutcome::Failed(e) => self.note(
                    CopyPhase::ForgetSearch,
                    join4("sync cleanup ", staging, ": ", &e.message),
                ),
                _ => self.advance(CopyPhase::ForgetSearch),
            },
            CopyPhase::ForgetSearch => {
                let text = match &self.trouble {
                    Some(t) => Some(join2("session copy rollback incomplete: ", t)),
                    None => None,
                };
                match text {
                    Some(t) => self.fail_for_recovery("); rollback failed (", &t),
                    None => self.advance(CopyPhase::RemovePrepared),
                }
            },
            CopyPhase::RemovePrepared => self.after_marker(outcome, CopyPhase::RemoveCommitting),
            CopyPhase::RemoveCommitting => self.after_marker(outcome, CopyPhase::RemoveCommitted),
            CopyPhase::RemoveCommitted => match outcome {
                CopyOutcome::Failed(e) => self.fail_for_recovery(
                    "); rollback succeeded but journal cleanup failed (",
                    &e.message,
                ),
                _ => {
                    let kind = match &self.primary {
                        Some(e) => e.kind,
                        None => ErrorKind::Other,
                    };
                    let message = join2(
                        "session copy failed and was rolled back: ",
                        &self.primary_text(),
                    );
                    self.fail(StorageError::new(kind, message))
                },
            },
            CopyPhase::Finished => self,
        }
    }
}

// --------------------------------------------------------------------- the recovery

/// How far the recovery of a copy has come.
#[derive(Debug, Clone, Copy, PartialEq, Eq, Structural)]
pub enum CopyRecoveryPhase {
    HideIndex,
    RemoveTarget,
    SyncTarget,
    RemoveStaging,
    SyncStaging,
    ForgetSearch,
    /// Publish the committed target again, in the index and for search.
    Republish,
    Deactivate,
    Finished,
}

/// The recovery of a copy in progress.
pub struct CopyRecovery {
    pub phase: CopyRecoveryPhase,
    pub trouble: Option<String>,
    pub failure: Option<StorageError>,
}

/// What a [`CopyRecovery`] holds.
#[verifier::ext_equal]
pub struct CopyRecoveryState {
    pub phase: CopyRecoveryPhase,
    pub trouble: Option<Seq<char>>,
    pub failure: Option<ErrorView>,
}

impl View for CopyRecovery {
    type V = CopyRecoveryState;

    open spec fn view(&self) -> CopyRecoveryState {
        CopyRecoveryState {
            phase: self.phase,
            trouble: crate::session::opt_text(self.trouble),
            failure: task_protocol::opt_error(self.failure),
        }
    }
}

/// How the recovery of a copy begins, by what its journal's file name says of it.
pub open spec fn copy_recovery_start(
    marker: Option<SessionCopyJournalMarkerState>,
) -> CopyRecoveryState {
    match marker {
        None => CopyRecoveryState {
            phase: CopyRecoveryPhase::Finished,
            trouble: None,
            failure: Some(
                error::plain_error(
                    ErrorKind::InvalidData,
                    "invalid session copy journal marker extension"@,
                ),
            ),
        },
        Some(SessionCopyJournalMarkerState::Committed) => CopyRecoveryState {
            phase: CopyRecoveryPhase::Republish,
            trouble: None,
            failure: None,
        },
        Some(_) => CopyRecoveryState {
            phase: CopyRecoveryPhase::HideIndex,
            trouble: None,
            failure: None,
        },
    }
}

/// The recovery in another phase, with one more trouble where an action failed.
pub open spec fn recovery_after(
    s: CopyRecoveryState,
    phase: CopyRecoveryPhase,
    outcome: CopyOutcomeView,
    what: Seq<char>,
) -> CopyRecoveryState {
    match outcome {
        CopyOutcomeView::Failed(e) => CopyRecoveryState {
            phase,
            trouble: with_trouble(s.trouble, what + e.message),
            ..s
        },
        _ => CopyRecoveryState { phase, ..s },
    }
}

/// The recovery over, with what went wrong.
pub open spec fn recovery_over(s: CopyRecoveryState, failure: Option<ErrorView>) -> CopyRecoveryState {
    CopyRecoveryState { phase: CopyRecoveryPhase::Finished, failure, ..s }
}

/// What the outcome of a recovery action makes of the recovery.
pub open spec fn copy_recovery_step(
    s: CopyRecoveryState,
    outcome: CopyOutcomeView,
    target: Seq<char>,
    staging: Seq<char>,
) -> CopyRecoveryState {
    match s.phase {
        CopyRecoveryPhase::HideIndex => recovery_after(
            s,
            CopyRecoveryPhase::RemoveTarget,
            outcome,
            "index cleanup: "@,
        ),
        CopyRecoveryPhase::RemoveTarget => recovery_after(
            s,
            if outcome is Done {
                CopyRecoveryPhase::SyncTarget
            } else {
                CopyRecoveryPhase::RemoveStaging
            },
            outcome,
            "remove "@ + target + ": "@,
        ),
        CopyRecoveryPhase::SyncTarget => recovery_after(
            s,
            CopyRecoveryPhase::RemoveStaging,
            outcome,
            "sync cleanup "@ + target + ": "@,
        ),
        CopyRecoveryPhase::RemoveStaging => recovery_after(
            s,
            if outcome is Done {
                CopyRecoveryPhase::SyncStaging
            } else {
                CopyRecoveryPhase::ForgetSearch
            },
            outcome,
            "remove "@ + staging + ": "@,
        ),
        CopyRecoveryPhase::SyncStaging => recovery_after(
            s,
            CopyRecoveryPhase::ForgetSearch,
            outcome,
            "sync cleanup "@ + staging + ": "@,
        ),
        CopyRecoveryPhase::ForgetSearch => match s.trouble {
            Some(t) => recovery_over(
                s,
                Some(
                    error::plain_error(
                        ErrorKind::Other,
                        "session copy rollback incomplete: "@ + t,
                    ),
                ),
            ),
            None => CopyRecoveryState { phase: CopyRecoveryPhase::Deactivate, ..s },
        },
        CopyRecoveryPhase::Republish => match outcome {
            CopyOutcomeView::Failed(e) => recovery_over(s, Some(e)),
            _ => CopyRecoveryState { phase: CopyRecoveryPhase::Deactivate, ..s },
        },
        CopyRecoveryPhase::Deactivate => match outcome {
            CopyOutcomeView::Failed(e) => recovery_over(s, Some(e)),
            _ => recovery_over(s, None),
        },
        CopyRecoveryPhase::Finished => s,
    }
}

/// The action of a recovery phase.
pub open spec fn copy_recovery_action(p: CopyRecoveryPhase) -> CopyAction {
    match p {
        CopyRecoveryPhase::HideIndex => CopyAction::HideIndex,
        CopyRecoveryPhase::RemoveTarget => CopyAction::RemoveTarget,
        CopyRecoveryPhase::SyncTarget => CopyAction::SyncTarget,
        CopyRecoveryPhase::RemoveStaging => CopyAction::RemoveStaging,
        CopyRecoveryPhase::SyncStaging => CopyAction::SyncStaging,
        CopyRecoveryPhase::ForgetSearch => CopyAction::ForgetSearch,
        CopyRecoveryPhase::Republish => CopyAction::Republish,
        CopyRecoveryPhase::Deactivate => CopyAction::Deactivate,
        CopyRecoveryPhase::Finished => CopyAction::Finish,
    }
}

impl CopyRecovery {
    /// What to do now.
    pub fn action(&self) -> (r: CopyAction)
        ensures
            r == copy_recovery_action(self.phase),
    {
        match self.phase {
            CopyRecoveryPhase::HideIndex => CopyAction::HideIndex,
            CopyRecoveryPhase::RemoveTarget => CopyAction::RemoveTarget,
            CopyRecoveryPhase::SyncTarget => CopyAction::SyncTarget,
            CopyRecoveryPhase::RemoveStaging => CopyAction::RemoveStaging,
            CopyRecoveryPhase::SyncStaging => CopyAction::SyncStaging,
            CopyRecoveryPhase::ForgetSearch => CopyAction::ForgetSearch,
            CopyRecoveryPhase::Republish => CopyAction::Republish,
            CopyRecoveryPhase::Deactivate => CopyAction::Deactivate,
            CopyRecoveryPhase::Finished => CopyAction::Finish,
        }
    }

    /// Begins the recovery of a copy, by what its journal's file name says of it.
    pub fn recover_session_copy_journal(marker: Option<SessionCopyJournalMarkerState>) -> (r:
        CopyRecovery)
        ensures
            r@ == copy_recovery_start(marker),
    {
        match marker {
            None => CopyRecovery {
                phase: CopyRecoveryPhase::Finished,
                trouble: None,
                failure: Some(
                    StorageError::new(
                        ErrorKind::InvalidData,
                        "invalid session copy journal marker extension".to_owned(),
                    ),
                ),
            },
            Some(SessionCopyJournalMarkerState::Committed) => CopyRecovery {
                phase: CopyRecoveryPhase::Republish,
                trouble: None,
                failure: None,
            },
            Some(_) => CopyRecovery {
                phase: CopyRecoveryPhase::HideIndex,
                trouble: None,
                failure: None,
            },
        }
    }

    fn after(self, phase: CopyRecoveryPhase, outcome: CopyOutcome, what: &str) -> (r: CopyRecovery)
        ensures
            r@ == recovery_after(self@, phase, outcome@, what@),
    {
        match outcome {
            CopyOutcome::Failed(e) => {
                let t = join2(what, &e.message);
                let trouble = match &self.trouble {
                    None => Some(t),
                    Some(l) => Some(join3(l, "; ", &t)),
                };
                CopyRecovery { phase, trouble, ..self }
            },
            _ => CopyRecovery { phase, ..self },
        }
    }

    fn over(self, failure: Option<StorageError>) -> (r: CopyRecovery)
        ensures
            r@ == recovery_over(self@, task_protocol::opt_error(failure)),
    {
        CopyRecovery { phase: CopyRecoveryPhase::Finished, failure, ..self }
    }

    /// Takes the outcome of the action that was due.
    pub fn step(self, outcome: CopyOutcome, target: &str, staging: &str) -> (r: CopyRecovery)
        ensures
            r@ == copy_recovery_step(self@, outcome@, target@, staging@),
    {
        let done = match outcome {
            CopyOutcome::Done => true,
            _ => false,
        };
        match self.phase {
            CopyRecoveryPhase::HideIndex => self.after(
                CopyRecoveryPhase::RemoveTarget,
                outcome,
                "index cleanup: ",
            ),
            CopyRecoveryPhase::RemoveTarget => self.after(
                if done {
                    CopyRecoveryPhase::SyncTarget
                } else {
                    CopyRecoveryPhase::RemoveStaging
                },
                outcome,
                &join3("remove ", target, ": "),
            ),
            CopyRecoveryPhase::SyncTarget => self.after(
                CopyRecoveryPhase::RemoveStaging,
                outcome,
                &join3("sync cleanup ", target, ": "),
            ),
            CopyRecoveryPhase::RemoveStaging => self.after(
                if done {
                    CopyRecoveryPhase::SyncStaging
                } else {
                    CopyRecoveryPhase::ForgetSearch
                },
                outcome,
                &join3("remove ", staging, ": "),
            ),
            CopyRecoveryPhase::SyncStaging => self.after(
                CopyRecoveryPhase::ForgetSearch,
                outcome,
                &join3("sync cleanup ", staging, ": "),
            ),
            CopyRecoveryPhase::ForgetSearch => {
                let failure = match &self.trouble {
                    Some(t) => Some(
                        StorageError::new(
                            ErrorKind::Other,
                            join2("session copy rollback incomplete: ", t),
                        ),
                    ),
                    None => None,
                };
                match failure {
                    Some(e) => self.over(Some(e)),
                    None => CopyRecovery { phase: CopyRecoveryPhase::Deactivate, ..self },
                }
            },
            CopyRecoveryPhase::Republish => match outcome {
                CopyOutcome::Failed(e) => self.over(Some(e)),
                _ => CopyRecovery { phase: CopyRecoveryPhase::Deactivate, ..self },
            },
            CopyRecoveryPhase::Deactivate => match outcome {
                CopyOutcome::Failed(e) => self.over(Some(e)),
                _ => self.over(None),
            },
            CopyRecoveryPhase::Finished => self,
        }
    }
}

// ------------------------------------------------------------------------- the disk

/// What stands at the target's place.
#[derive(Debug, Clone, Copy, PartialEq, Eq, Structural)]
pub enum CopyTarget {
    Absent,
    Partial,
    Complete,
}

/// The target, its index entry and the marker: as a running process sees them, and as a power
/// loss would leave them.
pub struct CopyDisk {
    pub target: CopyTarget,
    pub indexed: bool,
    pub marker: Option<SessionCopyJournalMarkerState>,
    pub durable_target: CopyTarget,
    pub durable_indexed: bool,
    pub durable_marker: Option<SessionCopyJournalMarkerState>,
}

/// Whether `e` can be the disk after an action on `d` with some outcome. A rename that fails has
/// done nothing, and one that is done need not last before the directory is synchronized; the
/// copy appears at its place complete or not at all; anything else that fails may have taken
/// effect or not, for the process and for the disk each, and a removal that fails may have taken
/// effect in part.
pub open spec fn performed(a: CopyAction, d: CopyDisk, outcome: CopyOutcomeView, e: CopyDisk) -> bool {
    let ok = !(outcome is Failed);
    let prepared = Some(SessionCopyJournalMarkerState::Prepared);
    match a {
        CopyAction::WriteJournal => {
            &&& e == (CopyDisk { marker: e.marker, durable_marker: e.durable_marker, ..d })
            &&& e.marker == prepared || (!ok && e.marker == d.marker)
            &&& e.durable_marker == prepared || (!ok && e.durable_marker == d.durable_marker)
        },
        CopyAction::WriteTarget => {
            &&& e == (CopyDisk { target: e.target, durable_target: e.durable_target, ..d })
            &&& e.durable_target == CopyTarget::Complete ==> e.target == CopyTarget::Complete
            &&& e.target == CopyTarget::Complete || (!ok && e.target == d.target)
            &&& e.durable_target == CopyTarget::Complete || (!ok && e.durable_target
                == d.durable_target)
        },
        CopyAction::PublishRevision => e == d,
        CopyAction::RenameMarker(from, to) => if ok {
            &&& e == (CopyDisk { marker: Some(to), durable_marker: e.durable_marker, ..d })
            &&& e.durable_marker == d.durable_marker || e.durable_marker == Some(to)
        } else {
            e == d
        },
        CopyAction::SyncMarkers => {
            &&& e == (CopyDisk { durable_marker: e.durable_marker, ..d })
            &&& e.durable_marker == d.marker || (!ok && e.durable_marker == d.durable_marker)
        },
        CopyAction::PublishIndex | CopyAction::Republish => {
            &&& e == (CopyDisk { indexed: e.indexed, durable_indexed: e.durable_indexed, ..d })
            &&& e.indexed || (!ok && e.indexed == d.indexed)
            &&& e.durable_indexed || (!ok && e.durable_indexed == d.durable_indexed)
        },
        CopyAction::Deactivate => {
            &&& e == (CopyDisk { marker: e.marker, durable_marker: e.durable_marker, ..d })
            &&& e.marker is None || (!ok && e.marker == d.marker)
            &&& e.durable_marker is None || (!ok && e.durable_marker == d.durable_marker)
        },
        CopyAction::HideIndex => {
            &&& e == (CopyDisk { indexed: e.indexed, durable_indexed: e.durable_indexed, ..d })
            &&& !e.indexed
            &&& !e.durable_indexed || (!ok && e.durable_indexed == d.durable_indexed)
        },
        CopyAction::RemoveTarget => {
            &&& e == (CopyDisk { target: e.target, durable_target: e.durable_target, ..d })
            &&& ok ==> e.target == CopyTarget::Absent
            &&& outcome is Absent ==> d.target == CopyTarget::Absent && e == d
            &&& d.durable_target == CopyTarget::Absent ==> e.durable_target == CopyTarget::Absent
        },
        CopyAction::SyncTarget => {
            &&& e == (CopyDisk { durable_target: e.durable_target, ..d })
            &&& e.durable_target == d.target || (!ok && e.durable_target == d.durable_target)
        },
        CopyAction::RemoveStaging => e == d,
        CopyAction::SyncStaging => e == d,
        CopyAction::ForgetSearch => e == d,
        CopyAction::DeactivateIfPresent(m) => if d.marker == Some(m) {
            &&& e == (CopyDisk { marker: e.marker, durable_marker: e.durable_marker, ..d })
            &&& e.marker is None || (!ok && e.marker == d.marker)
            &&& e.durable_marker is None || (!ok && e.durable_marker == d.durable_marker)
        } else {
            e == d
        },
        CopyAction::Finish => e == d,
    }
}

/// What a recovery leaves of a copy: it removes one that is not committed, publishes one that is,
/// and without a marker leaves things as they are.
pub open spec fn recovered(
    target: CopyTarget,
    indexed: bool,
    marker: Option<SessionCopyJournalMarkerState>,
) -> (CopyTarget, bool) {
    match marker {
        Some(SessionCopyJournalMarkerState::Prepared) => (CopyTarget::Absent, false),
        Some(SessionCopyJournalMarkerState::Committing) => (CopyTarget::Absent, false),
        Some(SessionCopyJournalMarkerState::Committed) => (target, true),
        None => (target, indexed),
    }
}

/// A complete copy that the index knows, or no trace of one.
pub open spec fn whole(r: (CopyTarget, bool)) -> bool {
    r == (CopyTarget::Complete, true) || r == (CopyTarget::Absent, false)
}

/// Whether a recovery of this process, and one after a power loss, each give a whole copy or
/// none.
pub open spec fn recovers_whole(d: CopyDisk) -> bool {
    whole(recovered(d.target, d.indexed, d.marker)) && whole(
        recovered(d.durable_target, d.durable_indexed, d.durable_marker),
    )
}

/// No trace of the copy but its marker.
pub open spec fn no_copy(d: CopyDisk) -> bool {
    d.target == CopyTarget::Absent && d.durable_target == CopyTarget::Absent && !d.indexed
        && !d.durable_indexed
}

/// The copy complete and durable at its place, the index aside.
pub open spec fn complete(d: CopyDisk) -> bool {
    d.target == CopyTarget::Complete && d.durable_target == CopyTarget::Complete
}

/// A marker that a recovery rolls back.
pub open spec fn undoes(m: Option<SessionCopyJournalMarkerState>) -> bool {
    m == Some(SessionCopyJournalMarkerState::Prepared) || m == Some(
        SessionCopyJournalMarkerState::Committing,
    )
}

/// Both markers call for a rollback.
pub open spec fn undone_by_marker(d: CopyDisk) -> bool {
    undoes(d.marker) && undoes(d.durable_marker)
}

/// The index knows nothing of the copy, unless hiding it is among the troubles.
pub open spec fn hidden(s: CopyState, d: CopyDisk) -> bool {
    s.trouble is None ==> !d.indexed && !d.durable_indexed
}

/// Whether the phase comes before any cleanup.
pub open spec fn no_cleanup_yet(p: CopyPhase) -> bool {
    match p {
        CopyPhase::RemoveTarget
        | CopyPhase::SyncTarget
        | CopyPhase::RemoveStaging
        | CopyPhase::SyncStaging
        | CopyPhase::ForgetSearch
        | CopyPhase::RemovePrepared
        | CopyPhase::RemoveCommitting
        | CopyPhase::RemoveCommitted
        | CopyPhase::Finished => false,
        _ => true,
    }
}

/// What holds of the disk in each phase.
pub open spec fn copy_disk(s: CopyState, d: CopyDisk) -> bool {
    let prepared = Some(SessionCopyJournalMarkerState::Prepared);
    let committing = Some(SessionCopyJournalMarkerState::Committing);
    let committed = Some(SessionCopyJournalMarkerState::Committed);
    &&& s.phase != CopyPhase::Finished ==> s.failure is None
    &&& no_cleanup_yet(s.phase) ==> s.trouble is None
    &&& match s.phase {
        CopyPhase::WriteJournal => no_copy(d) && d.marker is None && d.durable_marker is None,
        CopyPhase::WriteTarget => no_copy(d) && d.marker == prepared && d.durable_marker
            == prepared,
        CopyPhase::PublishRevision => complete(d) && d.marker == prepared && d.durable_marker
            == prepared,
        CopyPhase::RenameCommitting => complete(d) && d.marker == prepared && d.durable_marker
            == prepared,
        CopyPhase::SyncCommitting => complete(d) && d.marker == committing && undoes(
            d.durable_marker,
        ),
        CopyPhase::RenameCommitted => complete(d) && d.marker == committing && d.durable_marker
            == committing,
        CopyPhase::SyncCommitted => complete(d) && d.marker == committed && (d.durable_marker
            == committing || d.durable_marker == committed),
        CopyPhase::PublishIndex => complete(d) && d.marker == committed && d.durable_marker
            == committed,
        CopyPhase::Deactivate => complete(d) && d.indexed && d.durable_indexed && d.marker
            == committed && d.durable_marker == committed,
        CopyPhase::RevertMarker => complete(d) && d.marker == committed && (d.durable_marker
            == committing || d.durable_marker == committed),
        CopyPhase::SyncReverted => complete(d) && d.marker == committing && (d.durable_marker
            == committing || d.durable_marker == committed),
        CopyPhase::HideIndex => undone_by_marker(d) && (d.target
            == CopyTarget::Absent ==> d.durable_target == CopyTarget::Absent),
        CopyPhase::RemoveTarget => undone_by_marker(d) && hidden(s, d) && (d.target
            == CopyTarget::Absent ==> d.durable_target == CopyTarget::Absent),
        CopyPhase::SyncTarget => undone_by_marker(d) && hidden(s, d) && d.target
            == CopyTarget::Absent,
        CopyPhase::RemoveStaging | CopyPhase::SyncStaging | CopyPhase::ForgetSearch => {
            undone_by_marker(d) && (s.trouble is None ==> no_copy(d))
        },
        CopyPhase::RemovePrepared => no_copy(d) && undone_by_marker(d),
        CopyPhase::RemoveCommitting => no_copy(d) && ((d.marker == committing && undoes(
            d.durable_marker,
        )) || (d.marker is None && d.durable_marker is None)),
        CopyPhase::RemoveCommitted => no_copy(d) && d.marker is None && d.durable_marker is None,
        CopyPhase::Finished => match s.failure {
            None => complete(d) && d.indexed && d.durable_indexed && (d.marker is None || d.marker
                == committed) && (d.durable_marker is None || d.durable_marker == committed),
            Some(_) => recovers_whole(d),
        },
    }
}

// ------------------------------------------------------------------------------ laws

/// A copy begins on a disk without a trace of it.
pub proof fn copy_begins(d: CopyDisk)
    requires
        no_copy(d),
        d.marker is None,
        d.durable_marker is None,
    ensures
        copy_disk(copy_start(), d),
{
}

/// Whatever the outcome of the action that is due, the disk afterwards is one that the next
/// phase expects.
pub proof fn copy_keeps_its_disk(
    s: CopyState,
    d: CopyDisk,
    outcome: CopyOutcomeView,
    e: CopyDisk,
    target: Seq<char>,
    staging: Seq<char>,
)
    requires
        copy_disk(s, d),
        performed(copy_action(s.phase), d, outcome, e),
    ensures
        copy_disk(copy_step(s, outcome, target, staging), e),
{
}

/// A crash or power loss at any point of a copy, also in the middle of an action, leaves a disk
/// from which recovery makes a complete copy that the index knows, or no trace of one.
pub proof fn copy_is_atomic_across_crashes(
    s: CopyState,
    d: CopyDisk,
    outcome: CopyOutcomeView,
    e: CopyDisk,
)
    requires
        copy_disk(s, d),
        performed(copy_action(s.phase), d, outcome, e),
    ensures
        recovers_whole(d),
        recovers_whole(e),
{
}

/// The copy after a history of outcomes.
pub open spec fn copy_run(
    s: CopyState,
    outcomes: Seq<CopyOutcomeView>,
    target: Seq<char>,
    staging: Seq<char>,
) -> CopyState
    decreases outcomes.len(),
{
    if outcomes.len() == 0 {
        s
    } else {
        copy_step(
            copy_run(s, outcomes.drop_last(), target, staging),
            outcomes.last(),
            target,
            staging,
        )
    }
}

/// Whether the disks can follow one another under a history of outcomes of a copy.
pub open spec fn copy_history(
    outcomes: Seq<CopyOutcomeView>,
    disks: Seq<CopyDisk>,
    target: Seq<char>,
    staging: Seq<char>,
) -> bool {
    &&& disks.len() == outcomes.len() + 1
    &&& forall|i: int|
        0 <= i < outcomes.len() ==> performed(
            copy_action(copy_run(copy_start(), outcomes.take(i), target, staging).phase),
            disks[i],
            #[trigger] outcomes[i],
            disks[i + 1],
        )
}

/// Every history of a copy that begins without a trace of it recovers whole at its end,
/// whichever actions failed along the way.
pub proof fn every_copy_history_recovers_whole(
    outcomes: Seq<CopyOutcomeView>,
    disks: Seq<CopyDisk>,
    target: Seq<char>,
    staging: Seq<char>,
)
    requires
        copy_history(outcomes, disks, target, staging),
        no_copy(disks[0]),
        disks[0].marker is None,
        disks[0].durable_marker is None,
    ensures
        copy_disk(copy_run(copy_start(), outcomes, target, staging), disks.last()),
        recovers_whole(disks.last()),
    decreases outcomes.len(),
{
    if outcomes.len() > 0 {
        let n = outcomes.len() - 1;
        let before = outcomes.drop_last();
        let earlier = disks.drop_last();
        assert forall|i: int| 0 <= i < before.len() implies performed(
            copy_action(copy_run(copy_start(), before.take(i), target, staging).phase),
            earlier[i],
            #[trigger] before[i],
            earlier[i + 1],
        ) by {
            assert(before.take(i) =~= outcomes.take(i));
            assert(before[i] == outcomes[i]);
        }
        every_copy_history_recovers_whole(before, earlier, target, staging);
        let s = copy_run(copy_start(), before, target, staging);
        assert(outcomes.take(n) =~= before);
        assert(earlier.last() == disks[n]);
        assert(outcomes[n] == outcomes.last());
        copy_keeps_its_disk(s, disks[n], outcomes.last(), disks[n + 1], target, staging);
        copy_is_atomic_across_crashes(s, disks[n], outcomes.last(), disks[n + 1]);
    }
}

/// A copy that is answered with success is complete, durable and in the index; one that is
/// answered as rolled back has left no trace, not even a marker.
pub proof fn copy_answer_is_truthful(
    s: CopyState,
    d: CopyDisk,
    outcome: CopyOutcomeView,
    e: CopyDisk,
    target: Seq<char>,
    staging: Seq<char>,
)
    requires
        copy_disk(s, d),
        performed(copy_action(s.phase), d, outcome, e),
    ensures
        s.phase == CopyPhase::Finished && s.failure is None ==> complete(d) && d.indexed
            && d.durable_indexed,
        s.phase == CopyPhase::RemoveCommitted && !(outcome is Failed) ==> no_copy(e)
            && e.marker is None && e.durable_marker is None && copy_step(
            s,
            outcome,
            target,
            staging,
        ).failure == Some(
            error::plain_error(
                primary_kind(s),
                "session copy failed and was rolled back: "@ + primary_message(s),
            ),
        ),
{
}

/// What holds of the disk in each phase of a recovery that found the marker `m`.
pub open spec fn copy_recovery_disk(
    s: CopyRecoveryState,
    d: CopyDisk,
    m: SessionCopyJournalMarkerState,
) -> bool {
    let marked = d.marker == Some(m) && d.durable_marker == Some(m);
    let clean = s.trouble is None ==> !d.indexed && !d.durable_indexed;
    match s.phase {
        CopyRecoveryPhase::HideIndex => undoes(Some(m)) && marked && s.trouble is None && (d.target
            == CopyTarget::Absent ==> d.durable_target == CopyTarget::Absent),
        CopyRecoveryPhase::RemoveTarget => undoes(Some(m)) && marked && clean && (d.target
            == CopyTarget::Absent ==> d.durable_target == CopyTarget::Absent),
        CopyRecoveryPhase::SyncTarget => undoes(Some(m)) && marked && clean && d.target
            == CopyTarget::Absent,
        CopyRecoveryPhase::RemoveStaging
        | CopyRecoveryPhase::SyncStaging
        | CopyRecoveryPhase::ForgetSearch => undoes(Some(m)) && marked && (s.trouble
            is None ==> no_copy(d)),
        CopyRecoveryPhase::Republish => !undoes(Some(m)) && marked && complete(d),
        CopyRecoveryPhase::Deactivate => marked && if undoes(Some(m)) {
            no_copy(d)
        } else {
            complete(d) && d.indexed && d.durable_indexed
        },
        CopyRecoveryPhase::Finished => recovered_as(d, m) && (s.failure is None ==> d.marker is None
            && d.durable_marker is None),
    }
}

/// Whether a recovery of the disk ends in what the marker `m` calls for: the complete copy in the
/// index where it is committed, and no trace of one otherwise.
pub open spec fn recovered_as(d: CopyDisk, m: SessionCopyJournalMarkerState) -> bool {
    let end = if undoes(Some(m)) {
        (CopyTarget::Absent, false)
    } else {
        (CopyTarget::Complete, true)
    };
    recovered(d.target, d.indexed, d.marker) == end && recovered(
        d.durable_target,
        d.durable_indexed,
        d.durable_marker,
    ) == end
}

/// A recovery begins on any disk that holds the journal's marker, with a complete target where
/// the marker is committed, and where what is not seen at the target's place is not on the disk
/// either.
pub proof fn copy_recovery_begins(d: CopyDisk, m: SessionCopyJournalMarkerState)
    requires
        d.marker == Some(m),
        d.durable_marker == Some(m),
        m == SessionCopyJournalMarkerState::Committed ==> complete(d),
        d.target == CopyTarget::Absent ==> d.durable_target == CopyTarget::Absent,
    ensures
        copy_recovery_disk(copy_recovery_start(Some(m)), d, m),
{
}

/// Recovery of a copy ends in the same way however often it is cut short: at every point, and
/// after a power loss in the middle of an action, another recovery ends in what the marker
/// calls for; and a recovery that reports success has put the marker out of action.
pub proof fn copy_recovery_is_repeatable(
    s: CopyRecoveryState,
    d: CopyDisk,
    m: SessionCopyJournalMarkerState,
    outcome: CopyOutcomeView,
    e: CopyDisk,
    target: Seq<char>,
    staging: Seq<char>,
)
    requires
        copy_recovery_disk(s, d, m),
        performed(copy_recovery_action(s.phase), d, outcome, e),
    ensures
        copy_recovery_disk(copy_recovery_step(s, outcome, target, staging), e, m),
        recovered_as(d, m),
        recovered_as(e, m),
{
}

/// The copy after its next `n` actions, where each was done.
pub open spec fn copy_done(s: CopyState, n: nat, target: Seq<char>, staging: Seq<char>) -> CopyState
    decreases n,
{
    if n == 0 {
        s
    } else {
        copy_step(
            copy_done(s, (n - 1) as nat, target, staging),
            CopyOutcomeView::Done,
            target,
            staging,
        )
    }
}

/// Undisturbed, a copy writes its journal, then the target and its search revision, marks the journal
/// as committing and as committed, each made durable, puts the copy into the index, takes the marker
/// out of action, and is answered with success.
pub proof fn a_copy_takes_every_action(target: Seq<char>, staging: Seq<char>)
    ensures
        ({
            let s = copy_start();
            let at = |n: nat| copy_action(copy_done(s, n, target, staging).phase);
            &&& at(0) == CopyAction::WriteJournal
            &&& at(1) == CopyAction::WriteTarget
            &&& at(2) == CopyAction::PublishRevision
            &&& at(3) == CopyAction::RenameMarker(
                SessionCopyJournalMarkerState::Prepared,
                SessionCopyJournalMarkerState::Committing,
            )
            &&& at(4) == CopyAction::SyncMarkers
            &&& at(5) == CopyAction::RenameMarker(
                SessionCopyJournalMarkerState::Committing,
                SessionCopyJournalMarkerState::Committed,
            )
            &&& at(6) == CopyAction::SyncMarkers
            &&& at(7) == CopyAction::PublishIndex
            &&& at(8) == CopyAction::Deactivate
            &&& at(9) == CopyAction::Finish
            &&& copy_done(s, 9, target, staging).failure is None
        }),
{
    reveal_with_fuel(copy_done, 10);
}

proof fn lemma_rollback(c: CopyState, e: ErrorView, target: Seq<char>, staging: Seq<char>)
    requires
        c.phase == CopyPhase::HideIndex,
        c.trouble is None,
        c.primary == Some(e),
    ensures
        copy_done(c, 1, target, staging) == moved(c, CopyPhase::RemoveTarget),
        copy_done(c, 2, target, staging) == moved(c, CopyPhase::SyncTarget),
        copy_done(c, 3, target, staging) == moved(c, CopyPhase::RemoveStaging),
        copy_done(c, 4, target, staging) == moved(c, CopyPhase::SyncStaging),
        copy_done(c, 5, target, staging) == moved(c, CopyPhase::ForgetSearch),
        copy_done(c, 6, target, staging) == moved(c, CopyPhase::RemovePrepared),
        copy_done(c, 7, target, staging) == moved(c, CopyPhase::RemoveCommitting),
        copy_done(c, 8, target, staging) == moved(c, CopyPhase::RemoveCommitted),
        copy_done(c, 9, target, staging).phase == CopyPhase::Finished,
        copy_done(c, 9, target, staging).failure == Some(
            error::plain_error(
                e.kind,
                "session copy failed and was rolled back: "@ + e.message,
            ),
        ),
{
    assert(copy_done(c, 0, target, staging) == c);
    assert(copy_done(c, 1, target, staging) == moved(c, CopyPhase::RemoveTarget));
    assert(copy_done(c, 2, target, staging) == moved(c, CopyPhase::SyncTarget));
    assert(copy_done(c, 3, target, staging) == moved(c, CopyPhase::RemoveStaging));
    assert(copy_done(c, 4, target, staging) == moved(c, CopyPhase::SyncStaging));
    assert(copy_done(c, 5, target, staging) == moved(c, CopyPhase::ForgetSearch));
    assert(copy_done(c, 6, target, staging) == moved(c, CopyPhase::RemovePrepared));
    assert(copy_done(c, 7, target, staging) == moved(c, CopyPhase::RemoveCommitting));
    assert(copy_done(c, 8, target, staging) == moved(c, CopyPhase::RemoveCommitted));
}

/// A copy that fails once its journal is there is rolled back: after a committed marker is taken
/// back, the copy leaves the index, its target and what was written aside are removed durably, the
/// search index forgets it, every marker is taken out of action, and it is answered with the kind and
/// the message of what went wrong.
pub proof fn a_failed_copy_is_rolled_back(
    s: CopyState,
    e: ErrorView,
    target: Seq<char>,
    staging: Seq<char>,
)
    requires
        s.trouble is None,
        s.phase == CopyPhase::WriteTarget || s.phase == CopyPhase::PublishRevision || s.phase
            == CopyPhase::RenameCommitting || s.phase == CopyPhase::SyncCommitting || s.phase
            == CopyPhase::RenameCommitted || s.phase == CopyPhase::SyncCommitted || s.phase
            == CopyPhase::PublishIndex,
    ensures
        ({
            let marked = s.phase == CopyPhase::SyncCommitted || s.phase == CopyPhase::PublishIndex;
            let b = copy_step(s, CopyOutcomeView::Failed(e), target, staging);
            let c = if marked {
                copy_done(b, 2, target, staging)
            } else {
                b
            };
            let at = |n: nat| copy_action(copy_done(c, n, target, staging).phase);
            let over = copy_done(c, 9, target, staging);
            &&& marked ==> copy_action(b.phase) == CopyAction::RenameMarker(
                SessionCopyJournalMarkerState::Committed,
                SessionCopyJournalMarkerState::Committing,
            )
            &&& marked ==> copy_action(copy_done(b, 1, target, staging).phase)
                == CopyAction::SyncMarkers
            &&& at(0) == CopyAction::HideIndex
            &&& at(1) == CopyAction::RemoveTarget
            &&& at(2) == CopyAction::SyncTarget
            &&& at(3) == CopyAction::RemoveStaging
            &&& at(4) == CopyAction::SyncStaging
            &&& at(5) == CopyAction::ForgetSearch
            &&& at(6) == CopyAction::DeactivateIfPresent(SessionCopyJournalMarkerState::Prepared)
            &&& at(7) == CopyAction::DeactivateIfPresent(SessionCopyJournalMarkerState::Committing)
            &&& at(8) == CopyAction::DeactivateIfPresent(SessionCopyJournalMarkerState::Committed)
            &&& at(9) == CopyAction::Finish
            &&& over.failure is Some && over.failure->0.kind == e.kind
            &&& over.failure->0.message == "session copy failed and was rolled back: "@ + e.message
        }),
{
    let b = copy_step(s, CopyOutcomeView::Failed(e), target, staging);
    if s.phase == CopyPhase::SyncCommitted || s.phase == CopyPhase::PublishIndex {
        assert(copy_done(b, 0, target, staging) == b);
        assert(copy_done(b, 1, target, staging) == moved(b, CopyPhase::SyncReverted));
        assert(copy_done(b, 2, target, staging) == moved(b, CopyPhase::HideIndex));
        lemma_rollback(copy_done(b, 2, target, staging), e, target, staging);
    } else {
        lemma_rollback(b, e, target, staging);
    }
}

/// Every failure of a rollback is kept, in order, and the rollback goes on; with any of them the
/// markers stay, and the copy is answered that a recovery is required.
pub proof fn a_troubled_rollback_keeps_the_markers(
    s: CopyState,
    e: ErrorView,
    outcome: CopyOutcomeView,
    target: Seq<char>,
    staging: Seq<char>,
)
    ensures
        s.phase == CopyPhase::HideIndex || s.phase == CopyPhase::RemoveTarget || s.phase
            == CopyPhase::SyncTarget || s.phase == CopyPhase::RemoveStaging || s.phase
            == CopyPhase::SyncStaging ==> ({
            let t = copy_step(s, CopyOutcomeView::Failed(e), target, staging);
            &&& t.trouble is Some && t.failure == s.failure && t.primary == s.primary
            &&& t.phase != CopyPhase::Finished && t.phase != s.phase
            &&& s.trouble is Some ==> s.trouble->0.is_prefix_of(t.trouble->0)
        }),
        s.phase == CopyPhase::HideIndex ==> copy_step(s, outcome, target, staging).phase
            == CopyPhase::RemoveTarget,
        s.phase == CopyPhase::RemoveTarget && !(outcome is Done) ==> copy_step(
            s,
            outcome,
            target,
            staging,
        ).phase == CopyPhase::RemoveStaging,
        s.phase == CopyPhase::RemoveStaging && !(outcome is Done) ==> copy_step(
            s,
            outcome,
            target,
            staging,
        ).phase == CopyPhase::ForgetSearch,
        s.phase == CopyPhase::ForgetSearch && s.trouble is Some ==> ({
            let t = copy_step(s, outcome, target, staging);
            t.phase == CopyPhase::Finished && t.failure is Some && t.failure->0.kind
                == ErrorKind::Other
        }),
        s.phase == CopyPhase::RevertMarker || s.phase == CopyPhase::SyncReverted || s.phase
            == CopyPhase::RemovePrepared || s.phase == CopyPhase::RemoveCommitting || s.phase
            == CopyPhase::RemoveCommitted ==> ({
            let t = copy_step(s, CopyOutcomeView::Failed(e), target, staging);
            t.phase == CopyPhase::Finished && t.failure is Some && t.failure->0.kind
                == ErrorKind::Other
        }),
        s.phase == CopyPhase::WriteJournal ==> copy_step(
            s,
            CopyOutcomeView::Failed(e),
            target,
            staging,
        ) == (CopyState { phase: CopyPhase::Finished, failure: Some(e), ..s }),
        s.phase == CopyPhase::Deactivate ==> copy_step(s, outcome, target, staging) == (CopyState {
            phase: CopyPhase::Finished,
            ..s
        }),
        s.phase == CopyPhase::Finished ==> copy_step(s, outcome, target, staging) == s,
{
}

/// The recovery of a copy after its next `n` actions, where each was done.
pub open spec fn copy_recovery_done(
    s: CopyRecoveryState,
    n: nat,
    target: Seq<char>,
    staging: Seq<char>,
) -> CopyRecoveryState
    decreases n,
{
    if n == 0 {
        s
    } else {
        copy_recovery_step(
            copy_recovery_done(s, (n - 1) as nat, target, staging),
            CopyOutcomeView::Done,
            target,
            staging,
        )
    }
}

/// A recovery removes all of an unfinished copy before it takes the marker out of action, and
/// publishes a finished one again; a file that no marker's extension marks is refused.
pub proof fn a_copy_recovery_takes_every_action(
    m: SessionCopyJournalMarkerState,
    target: Seq<char>,
    staging: Seq<char>,
)
    ensures
        ({
            let s = copy_recovery_start(Some(m));
            let at = |n: nat| copy_recovery_action(copy_recovery_done(s, n, target, staging).phase);
            let finished = m == SessionCopyJournalMarkerState::Committed;
            &&& finished ==> at(0) == CopyAction::Republish
            &&& finished ==> at(1) == CopyAction::Deactivate
            &&& finished ==> at(2) == CopyAction::Finish && copy_recovery_done(
                s,
                2,
                target,
                staging,
            ).failure is None
            &&& !finished ==> at(0) == CopyAction::HideIndex
            &&& !finished ==> at(1) == CopyAction::RemoveTarget
            &&& !finished ==> at(2) == CopyAction::SyncTarget
            &&& !finished ==> at(3) == CopyAction::RemoveStaging
            &&& !finished ==> at(4) == CopyAction::SyncStaging
            &&& !finished ==> at(5) == CopyAction::ForgetSearch
            &&& !finished ==> at(6) == CopyAction::Deactivate
            &&& !finished ==> at(7) == CopyAction::Finish && copy_recovery_done(
                s,
                7,
                target,
                staging,
            ).failure is None
        }),
        copy_recovery_start(None).phase == CopyRecoveryPhase::Finished,
        copy_recovery_start(None).failure is Some && copy_recovery_start(None).failure->0.kind
            == ErrorKind::InvalidData,
{
    reveal_with_fuel(copy_recovery_done, 8);
}

/// A recovery of a copy that fails is answered with the failure, and the marker stays for the next.
pub proof fn a_failed_copy_recovery_keeps_the_marker(
    s: CopyRecoveryState,
    e: ErrorView,
    outcome: CopyOutcomeView,
    target: Seq<char>,
    staging: Seq<char>,
)
    ensures
        s.phase == CopyRecoveryPhase::Republish || s.phase == CopyRecoveryPhase::Deactivate
            ==> copy_recovery_step(s, CopyOutcomeView::Failed(e), target, staging)
            == (CopyRecoveryState {
            phase: CopyRecoveryPhase::Finished,
            failure: Some(e),
            ..s
        }),
        s.phase == CopyRecoveryPhase::ForgetSearch && s.trouble is Some ==> ({
            let t = copy_recovery_step(s, outcome, target, staging);
            t.phase == CopyRecoveryPhase::Finished && t.failure is Some
        }),
        s.phase == CopyRecoveryPhase::HideIndex || s.phase == CopyRecoveryPhase::RemoveTarget
            || s.phase == CopyRecoveryPhase::SyncTarget || s.phase
            == CopyRecoveryPhase::RemoveStaging || s.phase == CopyRecoveryPhase::SyncStaging ==> ({
            let t = copy_recovery_step(s, CopyOutcomeView::Failed(e), target, staging);
            &&& t.trouble is Some && t.failure == s.failure
            &&& t.phase != CopyRecoveryPhase::Finished && t.phase != CopyRecoveryPhase::Deactivate
            &&& s.trouble is Some ==> s.trouble->0.is_prefix_of(t.trouble->0)
        }),
        s.phase == CopyRecoveryPhase::Finished ==> copy_recovery_step(s, outcome, target, staging)
            == s,
{
}

/// What is said of these values is said of their own fields: none is left out or exchanged.
pub proof fn nothing_is_left_unseen(a: CopyTransaction, b: CopyRecovery)
    ensures
        a@.primary is Some <==> a.primary is Some,
        a.primary is Some ==> a@.primary->0 == a.primary->0@,
        a@.trouble is Some <==> a.trouble is Some,
        a.trouble is Some ==> a@.trouble->0 == a.trouble->0@,
        a@.failure is Some <==> a.failure is Some,
        a.failure is Some ==> a@.failure->0 == a.failure->0@,
        a@.phase == a.phase,
        b@.trouble is Some <==> b.trouble is Some,
        b.trouble is Some ==> b@.trouble->0 == b.trouble->0@,
        b@.failure is Some <==> b.failure is Some,
        b.failure is Some ==> b@.failure->0 == b.failure->0@,
        b@.phase == b.phase,
{
}

/// Each outcome of an action is told from the others, and a failure is told as it is.
pub proof fn outcomes_are_told_apart(o: CopyOutcome)
    ensures
        o@ is Done <==> o is Done,
        o@ is Absent <==> o is Absent,
        o@ is Failed <==> o is Failed,
        o is Failed ==> o@->Failed_0 == o->Failed_0@,
{
}

} // verus!
