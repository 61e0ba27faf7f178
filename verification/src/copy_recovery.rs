//! The steps that write a copy, and the sweep that recovers unfinished copies.
use crate::copy::SessionCopyJournalMarkerState;
use crate::copy;
use crate::error::{ErrorKind, ErrorView, StorageError};
use crate::error;
use crate::paths;
use crate::task_journal::DirEntry;
use crate::task_protocol;
use crate::task_recovery;
use crate::text::sort_texts;
use crate::text;
use vstd::prelude::*;

verus! {

// ----------------------------------------------------------- writing a copy

/// One step of writing a copy aside and publishing its directory.
#[derive(Debug, Clone, PartialEq, Eq)]
pub enum CopyWriteStep {
    CreateStaging,
    CreateChildren,
    CreateAttachments,
    /// Copy the attachment of this name, durably.
    CopyAttachment(String),
    SyncAttachments,
    /// Write the runtime sidecar, durably.
    WriteSidecar,
    /// Write the session file, durably.
    WriteSession,
    SyncStaging,
    RenameToTarget,
    SyncStagingParent,
    SyncTargetParent,
}

/// The names of the regular files in a listing, in its order.
pub open spec fn regular_files(entries: Seq<DirEntry>) -> Seq<String>
    decreases entries.len(),
{
    if entries.len() == 0 {
        Seq::empty()
    } else if entries.last().is_file {
        regular_files(entries.drop_last()).push(entries.last().name)
    } else {
        regular_files(entries.drop_last())
    }
}

/// Whether some entry of a listing is a regular file.
pub fn directory_has_regular_files(entries: &Vec<DirEntry>) -> (r: bool)
    ensures
        r == (exists|i: int| 0 <= i < entries.len() && (#[trigger] entries@[i]).is_file),
{
    let mut i: usize = 0;
    while i < entries.len()
        invariant
            i <= entries.len(),
            forall|j: int| 0 <= j < i ==> !(#[trigger] entries@[j]).is_file,
        decreases entries.len() - i,
    {
        if entries[i].is_file {
            return true;
        }
        i = i + 1;
    }
    false
}

/// The steps that copy the attachments of these names.
pub open spec fn attachment_steps(names: Seq<String>) -> Seq<CopyWriteStep> {
    names.map_values(|n: String| CopyWriteStep::CopyAttachment(n))
}

/// The steps of writing a copy whose source has these attachments.
pub open spec fn copy_write_steps(entries: Seq<DirEntry>) -> Seq<CopyWriteStep> {
    seq![
        CopyWriteStep::CreateStaging,
        CopyWriteStep::CreateChildren,
        CopyWriteStep::CreateAttachments,
    ] + attachment_steps(regular_files(entries)) + seq![
        CopyWriteStep::SyncAttachments,
        CopyWriteStep::WriteSidecar,
        CopyWriteStep::WriteSession,
        CopyWriteStep::SyncStaging,
        CopyWriteStep::RenameToTarget,
        CopyWriteStep::SyncStagingParent,
        CopyWriteStep::SyncTargetParent,
    ]
}

/// The steps of writing a copy, in their order, and whether the copy has attachments. `entries`
/// lists the attachments of the source, and is empty where it has no directory of them.
pub fn write_copied_session(entries: &Vec<DirEntry>) -> (r: (Vec<CopyWriteStep>, bool))
    ensures
        r.0@ == copy_write_steps(entries@),
        r.1 == (exists|i: int| 0 <= i < entries.len() && (#[trigger] entries@[i]).is_file),
{
    let mut steps: Vec<CopyWriteStep> = Vec::new();
    steps.push(CopyWriteStep::CreateStaging);
    steps.push(CopyWriteStep::CreateChildren);
    steps.push(CopyWriteStep::CreateAttachments);
    let ghost first = steps@;
    let mut i: usize = 0;
    assert(attachment_steps(regular_files(entries@.take(0))) =~= Seq::<CopyWriteStep>::empty());
    assert(first =~= first + Seq::<CopyWriteStep>::empty());
    while i < entries.len()
        invariant
            i <= entries.len(),
            steps@ == first + attachment_steps(regular_files(entries@.take(i as int))),
        decreases entries.len() - i,
    {
        proof {
            assert(entries@.take(i + 1).drop_last() =~= entries@.take(i as int));
            assert(entries@.take(i + 1).last() == entries@[i as int]);
        }
        if entries[i].is_file {
            steps.push(CopyWriteStep::CopyAttachment(entries[i].name.clone()));
            proof {
                let before = regular_files(entries@.take(i as int));
                assert(attachment_steps(before.push(entries@[i as int].name)) =~= attachment_steps(
                    before,
                ).push(CopyWriteStep::CopyAttachment(entries@[i as int].name)));
                assert(steps@ =~= first + attachment_steps(
                    regular_files(entries@.take(i + 1)),
                ));
            }
        }
        i = i + 1;
    }
    assert(entries@.take(entries@.len() as int) =~= entries@);
    steps.push(CopyWriteStep::SyncAttachments);
    steps.push(CopyWriteStep::WriteSidecar);
    steps.push(CopyWriteStep::WriteSession);
    steps.push(CopyWriteStep::SyncStaging);
    steps.push(CopyWriteStep::RenameToTarget);
    steps.push(CopyWriteStep::SyncStagingParent);
    steps.push(CopyWriteStep::SyncTargetParent);
    assert(steps@ =~= copy_write_steps(entries@));
    let any = directory_has_regular_files(entries);
    (steps, any)
}

/// The directory of a copy is renamed into place once, after every file of it has been written
/// and its names synchronized, and nothing is written to it afterwards.
pub proof fn a_copy_is_complete_before_it_is_published(entries: Seq<DirEntry>)
    ensures
        ({
            let steps = copy_write_steps(entries);
            let n = steps.len() - 3;
            &&& steps[n] == CopyWriteStep::RenameToTarget
            &&& forall|i: int| 0 <= i < n ==> steps[i] != CopyWriteStep::RenameToTarget
            &&& steps[n - 1] == CopyWriteStep::SyncStaging
            &&& steps[n - 2] == CopyWriteStep::WriteSession
            &&& steps[n - 3] == CopyWriteStep::WriteSidecar
            &&& steps[n - 4] == CopyWriteStep::SyncAttachments
            &&& forall|i: int|
                n < i < steps.len() ==> steps[i] == CopyWriteStep::SyncStagingParent || steps[i]
                    == CopyWriteStep::SyncTargetParent
        }),
{
}

// ------------------------------------------------------------------ the sweep

/// The names of the entries that are copy journals, in the order of the listing.
pub open spec fn copy_journal_names_of(entries: Seq<DirEntry>) -> Seq<String>
    decreases entries.len(),
{
    if entries.len() == 0 {
        Seq::empty()
    } else {
        let head = copy_journal_names_of(entries.drop_last());
        let last = entries.last();
        if last.is_file && copy::copy_marker_state(paths::extension_of(last.name@)) is Some {
            head.push(last.name)
        } else {
            head
        }
    }
}

/// The names of the copy journals in a directory listing, in ascending order.
pub fn session_copy_journal_paths(entries: &Vec<DirEntry>) -> (r: Vec<String>)
    ensures
        text::in_order(r@),
        r@.to_multiset() == copy_journal_names_of(entries@).to_multiset(),
        r.len() == copy_journal_names_of(entries@).len(),
{
    let mut names: Vec<String> = Vec::new();
    let mut i: usize = 0;
    assert(entries@.take(0) =~= Seq::<DirEntry>::empty());
    while i < entries.len()
        invariant
            i <= entries.len(),
            names@ == copy_journal_names_of(entries@.take(i as int)),
        decreases entries.len() - i,
    {
        assert(entries@.take(i + 1).drop_last() =~= entries@.take(i as int));
        if entries[i].is_file && SessionCopyJournalMarkerState::from_path(
            &entries[i].name,
        ).is_some() {
            names.push(entries[i].name.clone());
        }
        i = i + 1;
    }
    assert(entries@.take(entries@.len() as int) =~= entries@);
    sort_texts(names)
}

/// What a sweep over the copy journals does next.
#[derive(Debug, Clone, Copy, PartialEq, Eq, Structural)]
pub enum CopySweepStep {
    /// Read and check the journal at hand.
    Read,
    /// Recover the journal at hand.
    Recover,
    /// Make the names in the journal directory durable.
    SyncDirectory,
    Finished,
}

/// A sweep over the copy journals.
pub struct CopySweep {
    pub names: Vec<String>,
    pub next: usize,
    pub step: CopySweepStep,
    pub failure: Option<StorageError>,
}

/// What a [`CopySweep`] holds.
#[verifier::ext_equal]
pub struct CopySweepView {
    pub names: Seq<Seq<char>>,
    pub next: int,
    pub step: CopySweepStep,
    pub failure: Option<ErrorView>,
}

impl View for CopySweep {
    type V = CopySweepView;

    open spec fn view(&self) -> CopySweepView {
        CopySweepView {
            names: text::texts(self.names@),
            next: self.next as int,
            step: self.step,
            failure: task_protocol::opt_error(self.failure),
        }
    }
}

/// The sweep at the journal of an index, or past the last one.
pub open spec fn copy_sweep_at(s: CopySweepView, next: int) -> CopySweepView {
    CopySweepView {
        next,
        step: if next < s.names.len() {
            CopySweepStep::Read
        } else {
            CopySweepStep::SyncDirectory
        },
        ..s
    }
}

/// A sweep over journals of these names that has not begun.
pub open spec fn copy_sweep_over(names: Seq<Seq<char>>) -> CopySweepView {
    copy_sweep_at(
        CopySweepView { names, next: 0, step: CopySweepStep::Read, failure: None },
        0,
    )
}

/// The sweep over, with a failure.
pub open spec fn copy_sweep_failed(s: CopySweepView, e: ErrorView) -> CopySweepView {
    CopySweepView { step: CopySweepStep::Finished, failure: Some(e), ..s }
}

/// The sweep after the outcome of the step that was due.
pub open spec fn copy_sweep_step(s: CopySweepView, outcome: Result<(), ErrorView>) -> CopySweepView {
    match (s.step, outcome) {
        (CopySweepStep::Finished, _) => s,
        (_, Err(e)) => copy_sweep_failed(s, e),
        (CopySweepStep::Read, Ok(_)) => CopySweepView { step: CopySweepStep::Recover, ..s },
        (CopySweepStep::Recover, Ok(_)) => copy_sweep_at(s, s.next + 1),
        (CopySweepStep::SyncDirectory, Ok(_)) => CopySweepView {
            step: CopySweepStep::Finished,
            ..s
        },
    }
}

impl CopySweep {
    fn over(names: Vec<String>) -> (r: CopySweep)
        ensures
            r@ == copy_sweep_over(text::texts(names@)),
    {
        CopySweep {
            step: if names.len() == 0 {
                CopySweepStep::SyncDirectory
            } else {
                CopySweepStep::Read
            },
            names,
            next: 0,
            failure: None,
        }
    }

    /// Begins a sweep over every copy journal that a listing of the directory shows.
    pub fn recover_all_session_copy_transactions_locked(
        listing: Result<Vec<DirEntry>, StorageError>,
    ) -> (r: CopySweep)
        ensures
            match task_recovery::listing_view(listing) {
                Ok(entries) => exists|names: Seq<String>|
                    #![trigger text::texts(names)]
                    text::in_order(names) && names.to_multiset() == copy_journal_names_of(
                        entries,
                    ).to_multiset() && r@ == copy_sweep_over(text::texts(names)),
                Err(e) => if e.kind == ErrorKind::NotFound {
                    r@ == copy_sweep_over(Seq::empty())
                } else {
                    r@ == copy_sweep_failed(copy_sweep_over(Seq::empty()), e)
                },
            },
    {
        match listing {
            Ok(entries) => {
                let names = session_copy_journal_paths(&entries);
                let ghost n = names@;
                let r = CopySweep::over(names);
                assert(text::in_order(n));
                r
            },
            Err(e) => {
                let s = CopySweep::over(Vec::new());
                assert(s@ == copy_sweep_over(Seq::empty())) by {
                    assert(text::texts(Seq::<String>::empty()) =~= Seq::empty());
                }
                if e.kind == ErrorKind::NotFound {
                    s
                } else {
                    CopySweep { step: CopySweepStep::Finished, failure: Some(e), ..s }
                }
            },
        }
    }

    /// Takes the outcome of the step that was due.
    pub fn step(self, outcome: Result<(), StorageError>) -> (r: CopySweep)
        requires
            self.next < self.names.len() || self.step == CopySweepStep::SyncDirectory || self.step
                == CopySweepStep::Finished,
        ensures
            r@ == copy_sweep_step(self@, error::plain_view(outcome)),
    {
        match outcome {
            Err(e) => match self.step {
                CopySweepStep::Finished => self,
                _ => CopySweep { step: CopySweepStep::Finished, failure: Some(e), ..self },
            },
            Ok(_) => match self.step {
                CopySweepStep::Read => CopySweep { step: CopySweepStep::Recover, ..self },
                CopySweepStep::Recover => {
                    let next: usize = self.next + 1;
                    if next < self.names.len() {
                        CopySweep { next, step: CopySweepStep::Read, ..self }
                    } else {
                        CopySweep { next, step: CopySweepStep::SyncDirectory, ..self }
                    }
                },
                CopySweepStep::SyncDirectory => CopySweep { step: CopySweepStep::Finished, ..self },
                CopySweepStep::Finished => self,
            },
        }
    }
}

/// A sweep over the copy journals that ends without a failure has recovered each of them, in
/// order, and has made the journal directory durable: it moves past a journal only where its
/// recovery succeeded, and synchronizes the directory only past the last.
pub proof fn a_successful_copy_sweep_is_complete(s: CopySweepView, outcome: Result<(), ErrorView>)
    requires
        s.failure is None,
        0 <= s.next <= s.names.len(),
        s.step == CopySweepStep::Read || s.step == CopySweepStep::Recover ==> s.next
            < s.names.len(),
        s.step == CopySweepStep::SyncDirectory ==> s.next == s.names.len(),
    ensures
        ({
            let t = copy_sweep_step(s, outcome);
            &&& t.next != s.next ==> s.step == CopySweepStep::Recover && outcome is Ok && t.next
                == s.next + 1
            &&& t.step == CopySweepStep::SyncDirectory ==> t.next == t.names.len()
            &&& t.step == CopySweepStep::Finished && t.failure is None && s.step
                != CopySweepStep::Finished ==> s.step == CopySweepStep::SyncDirectory && outcome
                is Ok
            &&& t.step == CopySweepStep::Read || t.step == CopySweepStep::Recover ==> t.next
                < t.names.len()
        }),
{
}

/// A copy takes every regular file among the attachments of its source, in the order of the listing,
/// and nothing else.
pub proof fn every_attachment_is_copied(entries: Seq<DirEntry>, name: String)
    ensures
        regular_files(entries).contains(name) <==> exists|i: int|
            0 <= i < entries.len() && (#[trigger] entries[i]).is_file && entries[i].name == name,
        regular_files(entries).len() <= entries.len(),
        (forall|i: int| 0 <= i < entries.len() ==> (#[trigger] entries[i]).is_file) ==> regular_files(
            entries,
        ) =~= entries.map_values(|e: DirEntry| e.name),
    decreases entries.len(),
{
    if entries.len() > 0 {
        let head = entries.drop_last();
        let n = entries.len() - 1;
        every_attachment_is_copied(head, name);
        assert forall|i: int| 0 <= i < n implies head[i] == entries[i] by {}
        let files = regular_files(entries);
        let before = regular_files(head);
        if files.contains(name) {
            let k = choose|k: int| 0 <= k < files.len() && files[k] == name;
            if k < before.len() {
                assert(before[k] == name);
                let i = choose|i: int|
                    0 <= i < head.len() && (#[trigger] head[i]).is_file && head[i].name == name;
                assert(entries[i] == head[i]);
            } else {
                assert(entries[n].is_file);
            }
        }
        if exists|i: int|
            0 <= i < entries.len() && (#[trigger] entries[i]).is_file && entries[i].name == name {
            let i = choose|i: int|
                0 <= i < entries.len() && (#[trigger] entries[i]).is_file && entries[i].name == name;
            if i < n {
                assert(head[i] == entries[i]);
                let k = choose|k: int| 0 <= k < before.len() && before[k] == name;
                assert(files[k] == name);
            } else {
                assert(files.last() == name);
            }
        }
        if forall|i: int| 0 <= i < entries.len() ==> (#[trigger] entries[i]).is_file {
            assert forall|i: int| 0 <= i < head.len() implies (#[trigger] head[i]).is_file by {
                assert(head[i] == entries[i]);
            }
            assert(entries[n].is_file);
            assert(files =~= entries.map_values(|e: DirEntry| e.name));
        }
    }
}

/// The steps of writing a copy: its directories first, then each attachment, and then its files.
pub proof fn a_copy_is_written_in_order(entries: Seq<DirEntry>)
    ensures
        ({
            let steps = copy_write_steps(entries);
            let files = regular_files(entries);
            let n = files.len() as int;
            &&& steps.len() == n + 10
            &&& steps[0] == CopyWriteStep::CreateStaging
            &&& steps[1] == CopyWriteStep::CreateChildren
            &&& steps[2] == CopyWriteStep::CreateAttachments
            &&& forall|i: int|
                0 <= i < files.len() ==> #[trigger] steps[i + 3] == CopyWriteStep::CopyAttachment(
                    files[i],
                )
            &&& steps[n + 3] == CopyWriteStep::SyncAttachments
            &&& steps[n + 4] == CopyWriteStep::WriteSidecar
            &&& steps[n + 5] == CopyWriteStep::WriteSession
            &&& steps[n + 6] == CopyWriteStep::SyncStaging
            &&& steps[n + 7] == CopyWriteStep::RenameToTarget
            &&& steps[n + 8] == CopyWriteStep::SyncStagingParent
            &&& steps[n + 9] == CopyWriteStep::SyncTargetParent
        }),
{
}

/// The journals of a listing are exactly its files that a marker's extension marks.
pub proof fn every_copy_journal_is_listed(entries: Seq<DirEntry>, name: String)
    ensures
        copy_journal_names_of(entries).contains(name) <==> exists|i: int|
            0 <= i < entries.len() && (#[trigger] entries[i]).is_file && entries[i].name == name
                && copy::copy_marker_state(paths::extension_of(name@)) is Some,
        copy_journal_names_of(entries).len() <= entries.len(),
    decreases entries.len(),
{
    if entries.len() > 0 {
        let head = entries.drop_last();
        let n = entries.len() - 1;
        every_copy_journal_is_listed(head, name);
        assert forall|i: int| 0 <= i < n implies head[i] == entries[i] by {}
        let names = copy_journal_names_of(entries);
        let before = copy_journal_names_of(head);
        if names.contains(name) {
            let k = choose|k: int| 0 <= k < names.len() && names[k] == name;
            if k < before.len() {
                assert(before[k] == name);
                let i = choose|i: int|
                    0 <= i < head.len() && (#[trigger] head[i]).is_file && head[i].name == name
                        && copy::copy_marker_state(paths::extension_of(name@)) is Some;
                assert(entries[i] == head[i]);
            } else {
                assert(entries[n].is_file);
            }
        }
        if exists|i: int|
            0 <= i < entries.len() && (#[trigger] entries[i]).is_file && entries[i].name == name
                && copy::copy_marker_state(paths::extension_of(name@)) is Some {
            let i = choose|i: int|
                0 <= i < entries.len() && (#[trigger] entries[i]).is_file && entries[i].name == name
                    && copy::copy_marker_state(paths::extension_of(name@)) is Some;
            if i < n {
                assert(head[i] == entries[i]);
                let k = choose|k: int| 0 <= k < before.len() && before[k] == name;
                assert(names[k] == name);
            } else {
                assert(names.last() == name);
            }
        }
    }
}

/// A sweep over the copy journals reads each and recovers it before it goes on to the next, then
/// synchronizes the directory; the first failure ends it with that failure.
pub proof fn a_copy_sweep_takes_every_step(s: CopySweepView, names: Seq<Seq<char>>, e: ErrorView)
    ensures
        copy_sweep_over(names).names == names && copy_sweep_over(names).next == 0
            && copy_sweep_over(names).failure is None,
        names.len() > 0 ==> copy_sweep_over(names).step == CopySweepStep::Read,
        names.len() == 0 ==> copy_sweep_over(names).step == CopySweepStep::SyncDirectory,
        s.step == CopySweepStep::Read ==> copy_sweep_step(s, Ok(())) == (CopySweepView {
            step: CopySweepStep::Recover,
            ..s
        }),
        s.step == CopySweepStep::Recover && s.next + 1 < s.names.len() ==> copy_sweep_step(s, Ok(()))
            == (CopySweepView { next: s.next + 1, step: CopySweepStep::Read, ..s }),
        s.step == CopySweepStep::Recover && s.next + 1 == s.names.len() ==> copy_sweep_step(s, Ok(()))
            == (CopySweepView { next: s.next + 1, step: CopySweepStep::SyncDirectory, ..s }),
        s.step == CopySweepStep::SyncDirectory ==> copy_sweep_step(s, Ok(())) == (CopySweepView {
            step: CopySweepStep::Finished,
            ..s
        }),
        s.step != CopySweepStep::Finished ==> copy_sweep_step(s, Err(e)) == (CopySweepView {
            step: CopySweepStep::Finished,
            failure: Some(e),
            ..s
        }),
        s.step == CopySweepStep::Finished ==> copy_sweep_step(s, Err(e)) == s,
{
}

/// What is said of these values is said of their own fields: none is left out or exchanged.
pub proof fn nothing_is_left_unseen(a: CopySweep)
    ensures
        a@.names.len() == a.names@.len(),
        forall|i: int|
            0 <= i < a.names@.len() ==> #[trigger] a@.names[i] == a.names@[i]@,
        a@.failure is Some <==> a.failure is Some,
        a.failure is Some ==> a@.failure->0 == a.failure->0@,
        a@.next == a.next && a@.step == a.step,
{
}

} // verus!
