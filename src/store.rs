//! The metadata store: every read-modify-write of a build root's metadata document
//! is one transaction under an exclusive advisory lock, and the lock is released on
//! every path, errors included.
//!
//! A transaction is a state machine. Each call of [`StoreTransaction::step`] takes
//! what became of the previous action and answers with the next one; the caller
//! locks, reads and parses, writes (from the start of the file, truncating it) and
//! unlocks.
use vstd::prelude::*;

use crate::common::{BuildMetadata, MetadataError};

verus! {

/// What a transaction does to the document.
#[derive(Debug)]
pub enum StoreUpdate {
    /// Write this document, replacing whatever the file held.
    Create(BuildMetadata),
    /// Count one more attached process.
    Attach,
    /// Count one attached process less, never going below zero.
    Detach,
    /// Only read the document.
    Read,
}

/// Why a transaction failed.
#[derive(Debug, Clone, PartialEq, Eq)]
pub enum StoreError {
    /// The lock could not be taken.
    Lock(String),
    /// The document is missing or could not be parsed.
    Metadata(MetadataError),
    /// The document could not be written.
    Write(String),
    /// The attach counter is at its largest value.
    CounterOverflow,
    /// An event came that the transaction did not ask for.
    Protocol,
}

impl StoreError {
    /// An equal error.
    pub fn duplicate(&self) -> (r: Self)
        ensures
            r == *self,
    {
        match self {
            StoreError::Lock(m) => StoreError::Lock(m.clone()),
            StoreError::Metadata(e) => StoreError::Metadata(
                match e {
                    MetadataError::Missing => MetadataError::Missing,
                    MetadataError::Corrupt { detail } => MetadataError::Corrupt {
                        detail: detail.clone(),
                    },
                    MetadataError::MissingContainerName => MetadataError::MissingContainerName,
                },
            ),
            StoreError::Write(m) => StoreError::Write(m.clone()),
            StoreError::CounterOverflow => StoreError::CounterOverflow,
            StoreError::Protocol => StoreError::Protocol,
        }
    }
}

/// What became of the previous action.
#[derive(Debug)]
pub enum StoreEvent {
    /// It was carried out.
    Succeeded,
    /// The document was read and parsed into this value.
    Loaded(BuildMetadata),
    /// It failed, for the reason given.
    Failed(String),
}

/// The next thing the caller must do.
#[derive(Debug)]
pub enum StoreAction {
    /// Open the document for reading and writing and take its exclusive lock, blocking.
    AcquireLock,
    /// Read and parse the document.
    LoadDocument,
    /// Write this document over the file's whole content.
    SaveDocument(BuildMetadata),
    /// Release the lock.
    ReleaseLock,
    /// Report the outcome; the transaction is over.
    Finish(Result<BuildMetadata, StoreError>),
}

/// Where a transaction is.
#[derive(Debug, Clone, Copy, PartialEq, Eq, Structural)]
pub enum StorePhase {
    Start,
    Locking,
    Loading,
    Saving,
    Releasing,
    Finished,
}

/// Whether the lock is held in a phase, and its release not yet asked for.
pub open spec fn holds_lock(p: StorePhase) -> bool {
    p == StorePhase::Loading || p == StorePhase::Saving
}

/// One transaction on a metadata document.
pub struct StoreTransaction {
    update: StoreUpdate,
    phase: StorePhase,
    document: Option<BuildMetadata>,
    error: Option<StoreError>,
}

/// The document after an update, or why the update cannot be made.
pub open spec fn updated(update: StoreUpdate, doc: BuildMetadata) -> Result<BuildMetadata, StoreError> {
    match update {
        StoreUpdate::Attach => if doc.num_processes_attached == u64::MAX {
            Err(StoreError::CounterOverflow)
        } else {
            Ok(BuildMetadata { num_processes_attached: (doc.num_processes_attached + 1) as u64, ..doc })
        },
        StoreUpdate::Detach => Ok(
            BuildMetadata {
                num_processes_attached: if doc.num_processes_attached == 0 {
                    0
                } else {
                    (doc.num_processes_attached - 1) as u64
                },
                ..doc
            },
        ),
        _ => Ok(doc),
    }
}

impl StoreTransaction {
    pub closed spec fn spec_phase(&self) -> StorePhase {
        self.phase
    }

    pub closed spec fn spec_update(&self) -> StoreUpdate {
        self.update
    }

    /// The document the transaction will report, once it has one.
    pub closed spec fn spec_document(&self) -> Option<BuildMetadata> {
        self.document
    }

    /// The first failure of the transaction, if any.
    pub closed spec fn spec_error(&self) -> Option<StoreError> {
        self.error
    }

    /// What the transaction reports when it is over.
    pub open spec fn spec_outcome(&self) -> Result<BuildMetadata, StoreError> {
        match self.spec_error() {
            Some(e) => Err(e),
            None => match self.spec_document() {
                Some(d) => Ok(d),
                None => Err(StoreError::Protocol),
            },
        }
    }

    /// A transaction that will apply `update`.
    pub fn new(update: StoreUpdate) -> (r: Self)
        ensures
            r.spec_phase() == StorePhase::Start,
            r.spec_update() == update,
            r.spec_document() is None,
            r.spec_error() is None,
    {
        StoreTransaction { update, phase: StorePhase::Start, document: None, error: None }
    }

    pub fn phase(&self) -> (r: StorePhase)
        ensures
            r == self.spec_phase(),
    {
        self.phase
    }

    /// Whether the lock is held and its release not yet asked for.
    pub fn lock_held(&self) -> (r: bool)
        ensures
            r == holds_lock(self.spec_phase()),
    {
        self.phase == StorePhase::Loading || self.phase == StorePhase::Saving
    }

    /// Records the failure and releases the lock.
    fn abandon(&mut self, e: StoreError) -> (r: StoreAction)
        ensures
            final(self).spec_phase() == StorePhase::Releasing,
            final(self).spec_error() == Some(e),
            final(self).spec_document() == old(self).spec_document(),
            final(self).spec_update() == old(self).spec_update(),
            r is ReleaseLock,
    {
        self.error = Some(e);
        self.phase = StorePhase::Releasing;
        StoreAction::ReleaseLock
    }

    /// One step of a transaction: from state `s`, after `e`, the action `r` and state `s2`.
    pub open spec fn step_matches(
        s: StoreTransaction,
        e: StoreEvent,
        r: StoreAction,
        s2: StoreTransaction,
    ) -> bool {
        &&& s2.spec_update() == s.spec_update()
        &&& r is Finish ==> !holds_lock(s2.spec_phase())
        &&& r is Finish ==> s2.spec_phase() == StorePhase::Finished
        &&& holds_lock(s.spec_phase()) ==> holds_lock(s2.spec_phase()) || (r is ReleaseLock
            && s2.spec_phase() == StorePhase::Releasing)
        &&& match s.spec_phase() {
            StorePhase::Start => s2.spec_phase() == StorePhase::Locking
                && r is AcquireLock,
            StorePhase::Locking => match e {
                StoreEvent::Succeeded => match s.spec_update() {
                    StoreUpdate::Create(m) => s2.spec_phase() == StorePhase::Saving
                        && (r matches StoreAction::SaveDocument(x) && x.same_document(m))
                        && (s2.spec_document() matches Some(x) && x.same_document(m)),
                    _ => s2.spec_phase() == StorePhase::Loading && r is LoadDocument,
                },
                StoreEvent::Failed(msg) => s2.spec_phase() == StorePhase::Finished
                    && r == StoreAction::Finish(Err(StoreError::Lock(msg))),
                _ => s2.spec_phase() == StorePhase::Finished && r
                    == StoreAction::Finish(Err(StoreError::Protocol)),
            },
            StorePhase::Loading => match e {
                StoreEvent::Loaded(doc) => match updated(s.spec_update(), doc) {
                    Err(err) => r is ReleaseLock && s2.spec_phase()
                        == StorePhase::Releasing && s2.spec_error() == Some(err),
                    Ok(d) => s2.spec_document() == Some(d) && s2.spec_error()
                        == s.spec_error() && if s.spec_update() is Read {
                        r is ReleaseLock && s2.spec_phase() == StorePhase::Releasing
                    } else {
                        (r matches StoreAction::SaveDocument(x) && x.same_document(d))
                            && s2.spec_phase() == StorePhase::Saving
                    },
                },
                StoreEvent::Failed(msg) => r is ReleaseLock && s2.spec_phase()
                    == StorePhase::Releasing && s2.spec_error() == Some(
                    StoreError::Metadata(MetadataError::Corrupt { detail: msg }),
                ),
                StoreEvent::Succeeded => r is ReleaseLock && s2.spec_phase()
                    == StorePhase::Releasing && s2.spec_error() == Some(
                    StoreError::Protocol,
                ),
            },
            StorePhase::Saving => r is ReleaseLock && s2.spec_phase()
                == StorePhase::Releasing && s2.spec_document()
                == s.spec_document() && s2.spec_error() == match e {
                StoreEvent::Succeeded => s.spec_error(),
                StoreEvent::Failed(msg) => Some(StoreError::Write(msg)),
                StoreEvent::Loaded(_) => Some(StoreError::Protocol),
            },
            StorePhase::Releasing => s2.spec_phase() == StorePhase::Finished && r
                == StoreAction::Finish(s.spec_outcome()),
            StorePhase::Finished => s2.spec_phase() == StorePhase::Finished && r
                == StoreAction::Finish(Err(StoreError::Protocol)),
        }
    }

    /// Takes what became of the previous action (anything, for the first step) and
    /// answers with the next action.
    ///
    /// The lock is asked for first. Once it is held, every path leads to its release
    /// before the outcome is reported: a failure to read, parse or write, an update
    /// that cannot be made, and an unexpected event alike. A document is written only
    /// by a creation, an attach or a detach.
    pub fn step(&mut self, event: StoreEvent) -> (r: StoreAction)
        ensures
            Self::step_matches(*old(self), event, r, *final(self)),
    {
        match self.phase {
            StorePhase::Start => {
                self.phase = StorePhase::Locking;
                StoreAction::AcquireLock
            },
            StorePhase::Locking => match event {
                StoreEvent::Succeeded => {
                    match &self.update {
                        StoreUpdate::Create(m) => {
                            let saved = m.duplicate();
                            let kept = m.duplicate();
                            self.document = Some(kept);
                            self.phase = StorePhase::Saving;
                            StoreAction::SaveDocument(saved)
                        },
                        _ => {
                            self.phase = StorePhase::Loading;
                            StoreAction::LoadDocument
                        },
                    }
                },
                StoreEvent::Failed(msg) => {
                    self.phase = StorePhase::Finished;
                    StoreAction::Finish(Err(StoreError::Lock(msg)))
                },
                StoreEvent::Loaded(_) => {
                    self.phase = StorePhase::Finished;
                    StoreAction::Finish(Err(StoreError::Protocol))
                },
            },
            StorePhase::Loading => match event {
                StoreEvent::Loaded(doc) => {
                    let mut doc = doc;
                    let read_only = match &self.update {
                        StoreUpdate::Attach => {
                            if doc.num_processes_attached == u64::MAX {
                                return self.abandon(StoreError::CounterOverflow);
                            }
                            doc.attach();
                            false
                        },
                        StoreUpdate::Detach => {
                            doc.detach();
                            false
                        },
                        StoreUpdate::Read => true,
                        StoreUpdate::Create(_) => false,
                    };
                    if read_only {
                        self.document = Some(doc);
                        self.phase = StorePhase::Releasing;
                        StoreAction::ReleaseLock
                    } else {
                        let saved = doc.duplicate();
                        self.document = Some(doc);
                        self.phase = StorePhase::Saving;
                        StoreAction::SaveDocument(saved)
                    }
                },
                StoreEvent::Failed(msg) => self.abandon(
                    StoreError::Metadata(MetadataError::Corrupt { detail: msg }),
                ),
                StoreEvent::Succeeded => self.abandon(StoreError::Protocol),
            },
            StorePhase::Saving => match event {
                StoreEvent::Succeeded => {
                    self.phase = StorePhase::Releasing;
                    StoreAction::ReleaseLock
                },
                StoreEvent::Failed(msg) => self.abandon(StoreError::Write(msg)),
                StoreEvent::Loaded(_) => self.abandon(StoreError::Protocol),
            },
            StorePhase::Releasing => {
                self.phase = StorePhase::Finished;
                let outcome = match self.error.take() {
                    Some(e) => Err(e),
                    None => match self.document.take() {
                        Some(d) => Ok(d),
                        None => Err(StoreError::Protocol),
                    },
                };
                StoreAction::Finish(outcome)
            },
            StorePhase::Finished => StoreAction::Finish(Err(StoreError::Protocol)),
        }
    }
}

/// `states`, `events` and `actions` are a run of [`StoreTransaction::step`].
pub open spec fn is_store_run(
    states: Seq<StoreTransaction>,
    events: Seq<StoreEvent>,
    actions: Seq<StoreAction>,
) -> bool {
    &&& states.len() == events.len() + 1
    &&& actions.len() == events.len()
    &&& forall|i: int|
        #![trigger events[i]]
        0 <= i < events.len() ==> StoreTransaction::step_matches(
            states[i],
            events[i],
            actions[i],
            states[i + 1],
        )
}

/// Whether one of the first `k` steps took the lock.
pub open spec fn lock_taken_within(states: Seq<StoreTransaction>, k: int) -> bool
    decreases k,
{
    if k <= 0 {
        false
    } else {
        (states[k - 1].spec_phase() == StorePhase::Locking && holds_lock(states[k].spec_phase()))
            || lock_taken_within(states, k - 1)
    }
}

/// Whether one of the first `k` actions asked for the lock's release.
pub open spec fn release_asked_within(actions: Seq<StoreAction>, k: int) -> bool
    decreases k,
{
    if k <= 0 {
        false
    } else {
        actions[k - 1] is ReleaseLock || release_asked_within(actions, k - 1)
    }
}

proof fn lemma_store_prefix(
    states: Seq<StoreTransaction>,
    events: Seq<StoreEvent>,
    actions: Seq<StoreAction>,
    k: int,
)
    requires
        is_store_run(states, events, actions),
        states[0].spec_phase() == StorePhase::Start,
        0 <= k <= events.len(),
    ensures
        (states[k].spec_phase() == StorePhase::Start || states[k].spec_phase()
            == StorePhase::Locking) ==> !lock_taken_within(states, k),
        states[k].spec_phase() == StorePhase::Releasing ==> release_asked_within(actions, k),
        states[k].spec_phase() == StorePhase::Finished && lock_taken_within(states, k)
            ==> release_asked_within(actions, k),
    decreases k,
{
    if k > 0 {
        lemma_store_prefix(states, events, actions, k - 1);
        assert(StoreTransaction::step_matches(states[k - 1], events[k - 1], actions[k - 1], states[k]));
    }
}

/// Whatever happens in a transaction (a failure to read, parse or write the
/// document, an update that cannot be made, an unexpected event), once it has taken
/// the lock it asks for the lock's release before it reports its outcome.
pub proof fn lemma_lock_released_before_finish(
    states: Seq<StoreTransaction>,
    events: Seq<StoreEvent>,
    actions: Seq<StoreAction>,
)
    requires
        is_store_run(states, events, actions),
        states[0].spec_phase() == StorePhase::Start,
    ensures
        forall|k: int|
            0 < k <= events.len() && #[trigger] actions[k - 1] is Finish && lock_taken_within(
                states,
                k,
            ) ==> release_asked_within(actions, k),
{
    assert forall|k: int|
        0 < k <= events.len() && #[trigger] actions[k - 1] is Finish && lock_taken_within(
            states,
            k,
        ) implies release_asked_within(actions, k) by {
        lemma_store_prefix(states, events, actions, k);
        assert(StoreTransaction::step_matches(states[k - 1], events[k - 1], actions[k - 1], states[k]));
    }
}

} // verus!
