//! Saves that publish what they saved: whether the callback of a save runs, and what it is given.
use crate::error::{ErrorView, StorageError};
use crate::error;
use crate::locked_store::{RebaseStep, RebasingSave, RebaseView};
use crate::locked_store;
use crate::metrics::SaveKind;
use crate::session::{Session, SessionView};
use crate::task_journal;
use vstd::prelude::*;

verus! {

/// After which saves a callback runs.
#[derive(Debug, Clone, Copy, PartialEq, Eq, Structural)]
pub enum PublishRule {
    /// After every save that was tried, whether or not it succeeded.
    Tried,
    /// After a save that succeeded only.
    Committed,
}

/// What a publishing save does next.
#[derive(Debug, Clone, Copy, PartialEq, Eq, Structural)]
pub enum PublishStep {
    /// Save the session as it is now.
    Save,
    /// Load the durable control plane.
    Reload,
    /// Run the callback.
    Publish,
    Finished,
}

/// A rebasing save with a callback, carried out while the session's lock is held. `kind` says
/// which save it is: of the whole session, or of the control plane alone.
pub struct PublishingSave {
    pub kind: SaveKind,
    pub rule: PublishRule,
    pub save: RebasingSave,
    /// Whether the callback may still run.
    pub open: bool,
}

/// What a [`PublishingSave`] holds.
#[verifier::ext_equal]
pub struct PublishingView {
    pub kind: SaveKind,
    pub rule: PublishRule,
    pub save: RebaseView,
    pub open: bool,
}

impl View for PublishingSave {
    type V = PublishingView;

    open spec fn view(&self) -> PublishingView {
        PublishingView { kind: self.kind, rule: self.rule, save: self.save@, open: self.open }
    }
}

/// A publishing save of a session. Where the session could not be prepared, because what is
/// durable could not be loaded or does not allow the save, it is over before it was tried.
pub open spec fn publishing_start(
    kind: SaveKind,
    rule: PublishRule,
    session: SessionView,
    prepared: Result<(), ErrorView>,
) -> PublishingView {
    match prepared {
        Ok(_) => PublishingView {
            kind,
            rule,
            save: locked_store::rebase_start(session),
            open: true,
        },
        Err(e) => PublishingView {
            kind,
            rule,
            save: locked_store::rebase_failed(locked_store::rebase_start(session), e),
            open: false,
        },
    }
}

/// What a publishing save does next.
pub open spec fn publishing_next(s: PublishingView) -> PublishStep {
    match s.save.step {
        RebaseStep::Save => PublishStep::Save,
        RebaseStep::Reload => PublishStep::Reload,
        RebaseStep::Finished => if s.open && (s.rule == PublishRule::Tried || s.save.failure
            is None) {
            PublishStep::Publish
        } else {
            PublishStep::Finished
        },
    }
}

/// A publishing save after the session was saved.
pub open spec fn publishing_saved(s: PublishingView, outcome: Result<(), ErrorView>) -> PublishingView {
    PublishingView { save: locked_store::rebase_saved(s.save, outcome), ..s }
}

/// A publishing save after the durable control plane was loaded.
pub open spec fn publishing_reloaded(
    s: PublishingView,
    loaded: Result<Option<SessionView>, ErrorView>,
) -> PublishingView {
    PublishingView { save: locked_store::rebase_reloaded(s.save, loaded), ..s }
}

/// A publishing save after its callback ran.
pub open spec fn publishing_published(s: PublishingView) -> PublishingView {
    PublishingView { open: false, ..s }
}

impl PublishingSave {
    /// A save of a session that was prepared, or could not be.
    pub fn begin(
        kind: SaveKind,
        rule: PublishRule,
        session: Session,
        prepared: Result<(), StorageError>,
    ) -> (r: PublishingSave)
        ensures
            r@ == publishing_start(kind, rule, session@, error::plain_view(prepared)),
    {
        let save = RebasingSave::begin(session);
        match prepared {
            Ok(_) => PublishingSave { kind, rule, save, open: true },
            Err(e) => PublishingSave {
                kind,
                rule,
                save: RebasingSave { step: RebaseStep::Finished, failure: Some(e), ..save },
                open: false,
            },
        }
    }

    /// What to do now.
    pub fn step(&self) -> (r: PublishStep)
        ensures
            r == publishing_next(self@),
    {
        match self.save.step {
            RebaseStep::Save => PublishStep::Save,
            RebaseStep::Reload => PublishStep::Reload,
            RebaseStep::Finished => if self.open && (self.rule == PublishRule::Tried
                || self.save.failure.is_none()) {
                PublishStep::Publish
            } else {
                PublishStep::Finished
            },
        }
    }

    /// Takes the outcome of saving the session.
    pub fn on_saved(self, outcome: Result<(), StorageError>) -> (r: PublishingSave)
        ensures
            r@ == publishing_saved(self@, error::plain_view(outcome)),
    {
        PublishingSave {
            kind: self.kind,
            rule: self.rule,
            save: self.save.on_saved(outcome),
            open: self.open,
        }
    }

    /// Takes what loading the durable control plane gave.
    pub fn on_reloaded(self, loaded: Result<Option<Session>, StorageError>) -> (r: PublishingSave)
        ensures
            r@ == publishing_reloaded(self@, task_journal::load_view(loaded)),
    {
        PublishingSave {
            kind: self.kind,
            rule: self.rule,
            save: self.save.on_reloaded(loaded),
            open: self.open,
        }
    }

    /// What the callback is given: the session as it was last tried to be saved, and whether it
    /// was.
    pub fn publication(&self) -> (r: (&Session, bool))
        ensures
            r.0@ == self@.save.session,
            r.1 == (self@.save.failure is None),
    {
        (&self.save.session, self.save.failure.is_none())
    }

    /// Takes that the callback ran.
    pub fn on_published(self) -> (r: PublishingSave)
        ensures
            r@ == publishing_published(self@),
    {
        PublishingSave { open: false, ..self }
    }

    /// The session as it is now, and what its caller is answered once the save is over.
    pub fn finish(self) -> (r: (Session, Result<(), StorageError>))
        ensures
            r.0@ == self@.save.session,
            error::plain_view(r.1) == match self@.save.failure {
                Some(e) => Err(e),
                None => Ok(()),
            },
    {
        let answer = match self.save.failure {
            Some(e) => Err(e),
            None => Ok(()),
        };
        (self.save.session, answer)
    }
}

// ------------------------------------------------------------------------------ laws

/// Something that happens to a publishing save.
pub enum PublishEvent {
    Saved(Result<(), ErrorView>),
    Reloaded(Result<Option<SessionView>, ErrorView>),
    Published,
}

/// A publishing save after an event of the step that was due; no other event can happen to it.
pub open spec fn publishing_after(s: PublishingView, e: PublishEvent) -> PublishingView {
    match (publishing_next(s), e) {
        (PublishStep::Save, PublishEvent::Saved(outcome)) => publishing_saved(s, outcome),
        (PublishStep::Reload, PublishEvent::Reloaded(loaded)) => publishing_reloaded(s, loaded),
        (PublishStep::Publish, PublishEvent::Published) => publishing_published(s),
        _ => s,
    }
}

/// A publishing save after a history of events.
pub open spec fn publishing_history(s: PublishingView, events: Seq<PublishEvent>) -> PublishingView
    decreases events.len(),
{
    if events.len() == 0 {
        s
    } else {
        publishing_after(publishing_history(s, events.drop_last()), events.last())
    }
}

/// How often the callback runs in a history.
pub open spec fn publications(s: PublishingView, events: Seq<PublishEvent>) -> nat
    decreases events.len(),
{
    if events.len() == 0 {
        0
    } else {
        let before = publishing_history(s, events.drop_last());
        publications(s, events.drop_last()) + if publishing_next(before) == PublishStep::Publish
            && events.last() is Published {
            1nat
        } else {
            0nat
        }
    }
}

/// A save that could not be prepared is over at once: nothing is saved, the callback never runs,
/// and the caller gets the failure and its session as it was prepared.
pub proof fn an_unprepared_save_does_nothing(
    kind: SaveKind,
    rule: PublishRule,
    session: SessionView,
    e: ErrorView,
    events: Seq<PublishEvent>,
)
    ensures
        ({
            let start = publishing_start(kind, rule, session, Err(e));
            &&& publishing_next(start) == PublishStep::Finished
            &&& publishing_history(start, events) == start
            &&& publications(start, events) == 0
            &&& start.save.session == session
            &&& start.save.failure == Some(e)
        }),
    decreases events.len(),
{
    if events.len() > 0 {
        an_unprepared_save_does_nothing(kind, rule, session, e, events.drop_last());
    }
}

proof fn lemma_publications(
    kind: SaveKind,
    rule: PublishRule,
    session: SessionView,
    events: Seq<PublishEvent>,
)
    ensures
        ({
            let start = publishing_start(kind, rule, session, Ok(()));
            let s = publishing_history(start, events);
            &&& s.kind == kind && s.rule == rule
            &&& s.open ==> publications(start, events) == 0
            &&& !s.open ==> publications(start, events) == 1 && s.save.step == RebaseStep::Finished
                && (rule == PublishRule::Tried || s.save.failure is None)
        }),
    decreases events.len(),
{
    if events.len() > 0 {
        lemma_publications(kind, rule, session, events.drop_last());
    }
}

/// The callback of a save that was tried runs exactly once by the time the save is over, or, where
/// it only follows a success, exactly once after a success and never after a failure. Which of
/// the two saves is made never changes on the way.
pub proof fn a_save_publishes_once(
    kind: SaveKind,
    rule: PublishRule,
    session: SessionView,
    events: Seq<PublishEvent>,
)
    requires
        publishing_next(
            publishing_history(publishing_start(kind, rule, session, Ok(())), events),
        ) == PublishStep::Finished,
    ensures
        ({
            let start = publishing_start(kind, rule, session, Ok(()));
            let end = publishing_history(start, events);
            &&& end.kind == kind
            &&& publications(start, events) == if rule == PublishRule::Tried || end.save.failure
                is None {
                1nat
            } else {
                0nat
            }
        }),
{
    lemma_publications(kind, rule, session, events);
}

/// Running the callback changes neither the session nor the answer, and comes after the last
/// save: what is published is what the caller is answered about.
pub proof fn publishing_comes_last(s: PublishingView)
    requires
        publishing_next(s) == PublishStep::Publish,
    ensures
        s.save.step == RebaseStep::Finished,
        publishing_next(publishing_published(s)) == PublishStep::Finished,
        publishing_published(s).save == s.save,
{
}

/// The callback of a save is due exactly once the save is over, was prepared and has not run it yet;
/// one for committed saves only where the save succeeded.
pub proof fn when_a_callback_is_due(s: PublishingView)
    ensures
        publishing_next(s) == PublishStep::Publish <==> s.open && s.save.step == RebaseStep::Finished
            && (s.rule == PublishRule::Committed ==> s.save.failure is None),
        publishing_next(s) == PublishStep::Save <==> s.save.step == RebaseStep::Save,
        publishing_next(s) == PublishStep::Reload <==> s.save.step == RebaseStep::Reload,
{
}

/// A prepared save starts with the very session it was given, and one that could not be prepared is
/// over with that failure; neither its kind nor its rule changes along the way, and running the
/// callback changes nothing of the session or of the answer.
pub proof fn a_publishing_save_keeps_its_terms(
    s: PublishingView,
    kind: SaveKind,
    rule: PublishRule,
    session: SessionView,
    e: ErrorView,
    outcome: Result<(), ErrorView>,
    loaded: Result<Option<SessionView>, ErrorView>,
)
    ensures
        ({
            let b = publishing_start(kind, rule, session, Ok(()));
            b.kind == kind && b.rule == rule && b.open && b.save.session == session && b.save.step
                == RebaseStep::Save && b.save.failure is None
        }),
        ({
            let b = publishing_start(kind, rule, session, Err(e));
            b.kind == kind && b.rule == rule && !b.open && b.save.session == session && b.save.step
                == RebaseStep::Finished && b.save.failure == Some(e)
        }),
        publishing_saved(s, outcome).kind == s.kind && publishing_saved(s, outcome).rule == s.rule
            && publishing_saved(s, outcome).open == s.open,
        publishing_reloaded(s, loaded).kind == s.kind && publishing_reloaded(s, loaded).rule
            == s.rule && publishing_reloaded(s, loaded).open == s.open,
        publishing_published(s).save == s.save && publishing_published(s).kind == s.kind
            && publishing_published(s).rule == s.rule && !publishing_published(s).open,
        outcome is Ok ==> publishing_saved(s, outcome).save.session == s.save.session,
{
}

/// What is said of these values is said of their own fields: none is left out or exchanged.
pub proof fn nothing_is_left_unseen(a: PublishingSave)
    ensures
        a@.kind == a.kind && a@.rule == a.rule,
        a@.save == a.save@ && a@.open == a.open,
{
}

} // verus!
