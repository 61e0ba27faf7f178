//! Finding and checking what a recovery of paired Task commits works on.
use crate::error::{other_io_error, ErrorKind, ErrorView, StorageError};
use crate::error;
use crate::paths::validate_session_id;
use crate::paths;
use crate::task_journal::{runtime_task_journal_paths, DirEntry, JournalView, RuntimeTaskJournalMarkerState, RuntimeTaskTransactionJournal};
use crate::task_journal;
use crate::task_protocol;
use crate::text::{join3, join4, less};
use crate::text;
use vstd::prelude::*;

verus! {

// -------------------------------------------------------------- fail-closed access

/// The error of an access that has to wait for a recovery.
pub open spec fn recovery_needed() -> ErrorView {
    error::plain_error(
        ErrorKind::Other,
        "runtime Task transaction recovery is required before control-plane access"@,
    )
}

/// The error of an access that has to wait for a recovery.
pub fn runtime_task_recovery_error() -> (e: StorageError)
    ensures
        e@ == recovery_needed(),
{
    other_io_error("runtime Task transaction recovery is required before control-plane access")
}

/// The outcome of listing the journal directory.
pub open spec fn listing_view(
    r: Result<Vec<DirEntry>, StorageError>,
) -> Result<Seq<DirEntry>, ErrorView> {
    match r {
        Ok(v) => Ok(v@),
        Err(e) => Err(e@),
    }
}

/// Whether a listing shows a journal; a directory that is not there shows none.
pub open spec fn journals_remain(listing: Result<Seq<DirEntry>, ErrorView>) -> bool {
    match listing {
        Ok(entries) => task_journal::journal_names_of(entries).len() > 0,
        Err(e) => false,
    }
}

/// Whether a listing failed for another reason than that there is no directory.
pub open spec fn listing_failed(listing: Result<Seq<DirEntry>, ErrorView>) -> bool {
    match listing {
        Ok(_) => false,
        Err(e) => e.kind != ErrorKind::NotFound,
    }
}

/// Decides whether ordinary control-plane access may go on: only where the journal directory
/// shows no journal. Gives whether recovery is required, and the answer.
pub fn ensure_no_runtime_task_journal_locked(
    listing: Result<Vec<DirEntry>, StorageError>,
) -> (r: (bool, Result<(), StorageError>))
    ensures
        r.0 == (journals_remain(listing_view(listing)) || listing_failed(listing_view(listing))),
        error::plain_view(r.1) == if listing_failed(listing_view(listing)) {
            Err(listing_view(listing)->Err_0)
        } else if journals_remain(listing_view(listing)) {
            Err(recovery_needed())
        } else {
            Ok(())
        },
{
    match listing {
        Ok(entries) => {
            let names = runtime_task_journal_paths(&entries);
            if names.len() == 0 {
                (false, Ok(()))
            } else {
                (true, Err(runtime_task_recovery_error()))
            }
        },
        Err(e) => {
            if e.kind == ErrorKind::NotFound {
                (false, Ok(()))
            } else {
                (true, Err(e))
            }
        },
    }
}

// -------------------------------------------------------------------- the sweep

/// What a sweep over the journals does next.
#[derive(Debug, Clone, Copy, PartialEq, Eq, Structural)]
pub enum SweepStep {
    /// Read and check the journal at hand.
    Read,
    /// Recover the journal at hand.
    Recover,
    Finished,
}

/// A sweep over the journals in progress.
pub struct RecoverySweep {
    /// The file names of the journals, in order.
    pub names: Vec<String>,
    pub next: usize,
    /// The one pair whose unfinished journal may be recovered, or none to recover all.
    pub pair: Option<(String, String)>,
    pub recovery_required: bool,
    pub step: SweepStep,
    pub failure: Option<StorageError>,
}

/// What a [`RecoverySweep`] holds.
#[verifier::ext_equal]
pub struct SweepView {
    pub names: Seq<Seq<char>>,
    pub next: int,
    pub pair: Option<(Seq<char>, Seq<char>)>,
    pub recovery_required: bool,
    pub step: SweepStep,
    pub failure: Option<ErrorView>,
}

impl View for RecoverySweep {
    type V = SweepView;

    open spec fn view(&self) -> SweepView {
        SweepView {
            names: text::texts(self.names@),
            next: self.next as int,
            pair: match self.pair {
                Some(p) => Some((p.0@, p.1@)),
                None => None,
            },
            recovery_required: self.recovery_required,
            step: self.step,
            failure: task_protocol::opt_error(self.failure),
        }
    }
}

/// The sweep over, with a failure.
pub open spec fn sweep_failed(s: SweepView, recovery_required: bool, e: ErrorView) -> SweepView {
    SweepView { step: SweepStep::Finished, recovery_required, failure: Some(e), ..s }
}

/// The sweep before its journal number `next`, over where there is no such journal.
pub open spec fn sweep_at(s: SweepView, next: int) -> SweepView {
    if next >= s.names.len() {
        SweepView { next, step: SweepStep::Finished, recovery_required: false, ..s }
    } else {
        SweepView { next, step: SweepStep::Read, ..s }
    }
}

/// The state of the marker at hand.
pub open spec fn marker_at_hand(s: SweepView) -> Option<RuntimeTaskJournalMarkerState> {
    task_journal::marker_state(crate::paths::extension_of(s.names[s.next]))
}

/// The error where another pair's commit is unfinished.
pub open spec fn other_pair_pending(
    j: JournalView,
    first: Seq<char>,
    second: Seq<char>,
) -> ErrorView {
    error::plain_error(
        ErrorKind::Other,
        "pending runtime Task transaction for "@ + j.first.session_id + "/"@ + j.second.session_id
            + " must be recovered before accessing "@ + (first + "/"@ + second),
    )
}

/// The sweep after reading the journal at hand.
pub open spec fn sweep_read(s: SweepView, read: Result<JournalView, ErrorView>) -> SweepView {
    match (s.pair, read) {
        (None, Err(e)) => sweep_failed(s, true, e),
        (None, Ok(_)) => SweepView { step: SweepStep::Recover, ..s },
        (Some(_), Err(e)) => sweep_failed(s, s.recovery_required, e),
        (Some(p), Ok(j)) => if marker_at_hand(s) != Some(RuntimeTaskJournalMarkerState::Committed)
            && (j.first.session_id != p.0 || j.second.session_id != p.1) {
            sweep_failed(s, true, other_pair_pending(j, p.0, p.1))
        } else {
            SweepView { step: SweepStep::Recover, ..s }
        },
    }
}

/// The sweep after recovering the journal at hand.
pub open spec fn sweep_recovered(s: SweepView, outcome: Result<(), ErrorView>) -> SweepView {
    match outcome {
        Ok(_) => sweep_at(s, s.next + 1),
        Err(e) => sweep_failed(
            s,
            if s.pair is Some && marker_at_hand(s) == Some(
                RuntimeTaskJournalMarkerState::Committed,
            ) {
                s.recovery_required
            } else {
                true
            },
            e,
        ),
    }
}

impl RecoverySweep {
    fn over(
        names: Vec<String>,
        pair: Option<(String, String)>,
        recovery_required: bool,
    ) -> (r: RecoverySweep)
        ensures
            r@.names == text::texts(names@),
            r@ == sweep_at(
                SweepView {
                    names: text::texts(names@),
                    next: 0,
                    pair: match pair {
                        Some(p) => Some((p.0@, p.1@)),
                        None => None,
                    },
                    recovery_required,
                    step: SweepStep::Read,
                    failure: None,
                },
                0,
            ),
    {
        let done = names.len() == 0;
        RecoverySweep {
            step: if done {
                SweepStep::Finished
            } else {
                SweepStep::Read
            },
            recovery_required: if done {
                false
            } else {
                recovery_required
            },
            names,
            next: 0,
            pair,
            failure: None,
        }
    }

    fn fail(self, recovery_required: bool, e: StorageError) -> (r: RecoverySweep)
        ensures
            r@ == sweep_failed(self@, recovery_required, e@),
    {
        RecoverySweep {
            step: SweepStep::Finished,
            recovery_required,
            failure: Some(e),
            ..self
        }
    }

    /// Begins a sweep over every journal that a listing of the directory shows.
    pub fn recover_all_runtime_task_transactions_locked(
        listing: Result<Vec<DirEntry>, StorageError>,
        recovery_required: bool,
    ) -> (r: RecoverySweep)
        ensures
            r@.pair is None,
            match listing_view(listing) {
                Ok(entries) => exists|names: Seq<String>|
                    text::in_order(names) && names.to_multiset() == task_journal::journal_names_of(
                        entries,
                    ).to_multiset() && r@ == sweep_at(
                        (SweepView {
                            names: text::texts(names),
                            next: 0,
                            pair: None,
                            recovery_required,
                            step: SweepStep::Read,
                            failure: None,
                        }),
                        0,
                    ),
                Err(e) => if e.kind == ErrorKind::NotFound {
                    r@.step == SweepStep::Finished && r@.failure is None && !r@.recovery_required
                } else {
                    r@.step == SweepStep::Finished && r@.failure == Some(e) && r@.recovery_required
                        == recovery_required
                },
            },
    {
        match listing {
            Ok(entries) => {
                let names = runtime_task_journal_paths(&entries);
                let ghost n = names@;
                let r = RecoverySweep::over(names, None, recovery_required);
                assert(text::in_order(n));
                r
            },
            Err(e) => {
                let s = RecoverySweep::over(Vec::new(), None, recovery_required);
                if e.kind == ErrorKind::NotFound {
                    s
                } else {
                    s.fail(recovery_required, e)
                }
            },
        }
    }

    /// Begins a sweep that may recover the unfinished commit of one pair only.
    pub fn recover_runtime_task_transaction_for_pair_locked(
        first_session_id: &str,
        second_session_id: &str,
        listing: Result<Vec<DirEntry>, StorageError>,
        recovery_required: bool,
    ) -> (r: RecoverySweep)
        ensures
            r@.pair == Some((first_session_id@, second_session_id@)),
            if paths::id_check(first_session_id@) is Err {
                r@.step == SweepStep::Finished && r@.failure == Some(
                    paths::id_check(first_session_id@)->Err_0,
                ) && r@.recovery_required == recovery_required
            } else if paths::id_check(second_session_id@) is Err {
                r@.step == SweepStep::Finished && r@.failure == Some(
                    paths::id_check(second_session_id@)->Err_0,
                ) && r@.recovery_required == recovery_required
            } else if !text::text_less(first_session_id@, second_session_id@) {
                r@.step == SweepStep::Finished && r@.failure == Some(
                    error::plain_error(
                        ErrorKind::InvalidInput,
                        "runtime Task recovery pair must be lexically ordered"@,
                    ),
                ) && r@.recovery_required == recovery_required
            } else {
                match listing_view(listing) {
                    Ok(entries) => exists|names: Seq<String>|
                        text::in_order(names) && names.to_multiset() == task_journal::journal_names_of(
                            entries,
                        ).to_multiset() && r@ == sweep_at(
                            (SweepView {
                                names: text::texts(names),
                                next: 0,
                                pair: Some((first_session_id@, second_session_id@)),
                                recovery_required,
                                step: SweepStep::Read,
                                failure: None,
                            }),
                            0,
                        ),
                    Err(e) => if e.kind == ErrorKind::NotFound {
                        r@.step == SweepStep::Finished && r@.failure is None
                            && !r@.recovery_required
                    } else {
                        r@.step == SweepStep::Finished && r@.failure == Some(e)
                            && r@.recovery_required == recovery_required
                    },
                }
            },
    {
        let pair = Some((first_session_id.to_owned(), second_session_id.to_owned()));
        match validate_session_id(first_session_id) {
            Err(e) => {
                return RecoverySweep::over(Vec::new(), pair, recovery_required).fail(
                    recovery_required,
                    e,
                );
            },
            Ok(_) => {},
        }
        match validate_session_id(second_session_id) {
            Err(e) => {
                return RecoverySweep::over(Vec::new(), pair, recovery_required).fail(
                    recovery_required,
                    e,
                );
            },
            Ok(_) => {},
        }
        if !less(first_session_id, second_session_id) {
            return RecoverySweep::over(Vec::new(), pair, recovery_required).fail(
                recovery_required,
                StorageError::new(
                    ErrorKind::InvalidInput,
                    "runtime Task recovery pair must be lexically ordered".to_owned(),
                ),
            );
        }
        match listing {
            Ok(entries) => {
                let names = runtime_task_journal_paths(&entries);
                let ghost n = names@;
                let r = RecoverySweep::over(names, pair, recovery_required);
                assert(text::in_order(n));
                r
            },
            Err(e) => {
                let s = RecoverySweep::over(Vec::new(), pair, recovery_required);
                if e.kind == ErrorKind::NotFound {
                    s
                } else {
                    s.fail(recovery_required, e)
                }
            },
        }
    }

    fn marker(&self) -> (r: Option<RuntimeTaskJournalMarkerState>)
        requires
            self.next < self.names.len(),
        ensures
            r == marker_at_hand(self@),
    {
        RuntimeTaskJournalMarkerState::from_path(&self.names[self.next])
    }

    /// Takes what reading and checking the journal at hand gave.
    pub fn on_read(self, read: Result<&RuntimeTaskTransactionJournal, StorageError>) -> (r:
        RecoverySweep)
        requires
            self.next < self.names.len(),
        ensures
            r@ == sweep_read(
                self@,
                match read {
                    Ok(j) => Ok(j@),
                    Err(e) => Err(e@),
                },
            ),
    {
        match read {
            Err(e) => {
                let flag = if self.pair.is_none() {
                    true
                } else {
                    self.recovery_required
                };
                self.fail(flag, e)
            },
            Ok(j) => {
                let committed = match self.marker() {
                    Some(RuntimeTaskJournalMarkerState::Committed) => true,
                    _ => false,
                };
                let refusal = match &self.pair {
                    None => None,
                    Some(p) => if !committed && (j.first.session_id != p.0 || j.second.session_id
                        != p.1) {
                        let theirs = join4(
                            "pending runtime Task transaction for ",
                            &j.first.session_id,
                            "/",
                            &j.second.session_id,
                        );
                        let ours = join3(&p.0, "/", &p.1);
                        Some(join3(&theirs, " must be recovered before accessing ", &ours))
                    } else {
                        None
                    },
                };
                match refusal {
                    Some(message) => self.fail(true, StorageError::new(ErrorKind::Other, message)),
                    None => RecoverySweep { step: SweepStep::Recover, ..self },
                }
            },
        }
    }

    /// Takes what recovering the journal at hand gave.
    pub fn on_recovered(self, outcome: Result<(), StorageError>) -> (r: RecoverySweep)
        requires
            self.next < self.names.len(),
        ensures
            r@ == sweep_recovered(self@, error::plain_view(outcome)),
    {
        match outcome {
            Ok(_) => {
                let next: usize = self.next + 1;
                if next >= self.names.len() {
                    RecoverySweep {
                        next,
                        step: SweepStep::Finished,
                        recovery_required: false,
                        ..self
                    }
                } else {
                    RecoverySweep { next, step: SweepStep::Read, ..self }
                }
            },
            Err(e) => {
                let committed = match self.marker() {
                    Some(RuntimeTaskJournalMarkerState::Committed) => true,
                    _ => false,
                };
                let flag = if self.pair.is_some() && committed {
                    self.recovery_required
                } else {
                    true
                };
                self.fail(flag, e)
            },
        }
    }
}

/// A sweep over all journals that reports success has recovered every one of them: it only
/// moves on past a journal whose recovery succeeded, and ends well only past the last.
pub proof fn a_successful_sweep_is_complete(
    s: SweepView,
    read: Result<JournalView, ErrorView>,
    outcome: Result<(), ErrorView>,
)
    requires
        0 <= s.next < s.names.len(),
        s.failure is None,
    ensures
        sweep_recovered(s, outcome).step == SweepStep::Finished && sweep_recovered(
            s,
            outcome,
        ).failure is None ==> outcome is Ok && s.next + 1 == s.names.len()
            && !sweep_recovered(s, outcome).recovery_required,
        sweep_read(s, read).step == SweepStep::Finished ==> sweep_read(s, read).failure is Some,
        sweep_read(s, read).step != SweepStep::Finished ==> sweep_read(s, read).next == s.next,
{
}

/// Ordinary access waits exactly while some entry of the journal directory is a journal, or the
/// directory cannot be listed; a directory that is not there holds none.
pub proof fn when_access_waits(entries: Seq<DirEntry>, e: ErrorView)
    ensures
        journals_remain(Ok(entries)) <==> exists|i: int|
            0 <= i < entries.len() && (#[trigger] entries[i]).is_file && task_journal::marker_state(
                paths::extension_of(entries[i].name@),
            ) is Some,
        !listing_failed(Ok(entries)),
        !journals_remain(Err(e)),
        listing_failed(Err(e)) <==> e.kind != ErrorKind::NotFound,
        recovery_needed().kind == ErrorKind::Other && !recovery_needed().authority_conflict,
{
    let names = task_journal::journal_names_of(entries);
    if names.len() > 0 {
        task_journal::every_journal_is_listed(entries, names[0]);
        assert(names.contains(names[0]));
    }
    if exists|i: int|
        0 <= i < entries.len() && (#[trigger] entries[i]).is_file && task_journal::marker_state(
            paths::extension_of(entries[i].name@),
        ) is Some {
        let i = choose|i: int|
            0 <= i < entries.len() && (#[trigger] entries[i]).is_file && task_journal::marker_state(
                paths::extension_of(entries[i].name@),
            ) is Some;
        task_journal::every_journal_is_listed(entries, entries[i].name);
        assert(names.contains(entries[i].name));
    }
}

/// A sweep begins at its first journal, goes on to the next after each recovery, and is over past the
/// last: no recovery is required then, and what was swept is as before.
pub proof fn a_sweep_goes_through_every_journal(s: SweepView, n: int)
    ensures
        n < s.names.len() ==> sweep_at(s, n) == (SweepView { next: n, step: SweepStep::Read, ..s }),
        n >= s.names.len() ==> sweep_at(s, n) == (SweepView {
            next: n,
            step: SweepStep::Finished,
            recovery_required: false,
            ..s
        }),
        s.next + 1 < s.names.len() ==> sweep_recovered(s, Ok(())).step == SweepStep::Read
            && sweep_recovered(s, Ok(())).next == s.next + 1,
        s.next + 1 == s.names.len() ==> sweep_recovered(s, Ok(())).step == SweepStep::Finished
            && !sweep_recovered(s, Ok(())).recovery_required,
        sweep_recovered(s, Ok(())).failure == s.failure,
        sweep_recovered(s, Ok(())).names == s.names && sweep_recovered(s, Ok(())).pair == s.pair,
{
}

/// A journal that was read is recovered, unless the sweep is for one pair and an unfinished commit of
/// another stands in the way: that is refused and leaves a recovery to be done. A finished one is
/// recovered whoever it is of.
pub proof fn which_journals_a_sweep_recovers(s: SweepView, j: JournalView, e: ErrorView)
    ensures
        ({
            let own = s.pair is None || ({
                let (first, second) = s.pair->0;
                j.first.session_id == first && j.second.session_id == second
            });
            let finished = task_journal::marker_state(paths::extension_of(s.names[s.next])) == Some(
                RuntimeTaskJournalMarkerState::Committed,
            );
            &&& own || finished ==> sweep_read(s, Ok(j)) == (SweepView {
                step: SweepStep::Recover,
                ..s
            })
            &&& !own && !finished ==> sweep_read(s, Ok(j)).step == SweepStep::Finished
                && sweep_read(s, Ok(j)).failure is Some && sweep_read(s, Ok(j)).recovery_required
            &&& sweep_read(s, Err(e)).step == SweepStep::Finished && sweep_read(s, Err(e)).failure
                == Some(e)
            &&& sweep_read(s, Err(e)).recovery_required == (s.pair is None || s.recovery_required)
            &&& sweep_recovered(s, Err(e)).step == SweepStep::Finished && sweep_recovered(
                s,
                Err(e),
            ).failure == Some(e)
            &&& sweep_recovered(s, Err(e)).recovery_required == (s.pair is None || !finished
                || s.recovery_required)
        }),
{
}

/// What is said of these values is said of their own fields: none is left out or exchanged.
pub proof fn nothing_is_left_unseen(a: RecoverySweep)
    ensures
        a@.names.len() == a.names@.len(),
        forall|i: int|
            0 <= i < a.names@.len() ==> #[trigger] a@.names[i] == a.names@[i]@,
        a@.pair is Some <==> a.pair is Some,
        a.pair is Some ==> ({
            let (p, q) = a.pair->0;
            let (x, y) = a@.pair->0;
            x == p@ && y == q@
        }),
        a@.failure is Some <==> a.failure is Some,
        a.failure is Some ==> a@.failure->0 == a.failure->0@,
        a@.next == a.next && a@.recovery_required == a.recovery_required,
        a@.step == a.step,
{
}

} // verus!
