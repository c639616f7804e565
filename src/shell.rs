//! A shell session into a running build: attach to its metadata document, rebuild
//! its driver, open the shell, and detach again however the shell ended.
//!
//! The session is a state machine. Each call of [`ShellSession::step`] takes what
//! became of the previous action and answers with the next one; the caller runs the
//! metadata transactions and the shell.
use vstd::prelude::*;

use crate::common::{BuildDriver, BuildDriverType, BuildMetadata, CommandPlan, MetadataError};
use crate::driver::{Driver, DriverConfig, create_driver_from_build_metadata};
use crate::driver_docker::CONTAINER_NAME_KEY;
use crate::session::SessionOp;
use crate::store::StoreError;

verus! {

/// Where a shell session is.
#[derive(Debug, Clone, Copy, PartialEq, Eq, Structural)]
pub enum ShellPhase {
    Start,
    /// The attach transaction runs.
    Attaching,
    /// The shell is open.
    InShell,
    /// The detach transaction runs.
    Detaching,
    Finished,
}

/// Why a shell session failed.
#[derive(Debug, Clone, PartialEq, Eq)]
pub enum ShellFailure {
    /// The driver could not be rebuilt from the metadata document.
    Metadata(MetadataError),
    /// A metadata transaction failed.
    Store(StoreError),
    /// The shell could not be run; the text says why.
    Shell(String),
}

impl ShellFailure {
    /// An equal failure.
    pub fn duplicate(&self) -> (r: Self)
        ensures
            r == *self,
    {
        match self {
            ShellFailure::Metadata(e) => ShellFailure::Metadata(
                match e {
                    MetadataError::Missing => MetadataError::Missing,
                    MetadataError::Corrupt { detail } => MetadataError::Corrupt {
                        detail: detail.clone(),
                    },
                    MetadataError::MissingContainerName => MetadataError::MissingContainerName,
                },
            ),
            ShellFailure::Store(e) => ShellFailure::Store(e.duplicate()),
            ShellFailure::Shell(m) => ShellFailure::Shell(m.clone()),
        }
    }
}

/// What became of the previous action.
#[derive(Debug)]
pub enum ShellEvent {
    /// The metadata transaction succeeded, leaving this document.
    Document(BuildMetadata),
    /// The metadata transaction failed.
    StoreFailed(StoreError),
    /// The shell ended, whatever its exit status.
    Succeeded,
    /// The shell could not be run.
    Failed(String),
}

/// The next thing the caller must do.
#[derive(Debug)]
pub enum ShellAction {
    /// Run a metadata transaction that applies this change of the attach counter.
    Update(SessionOp),
    /// Run this interactive shell and wait for it.
    OpenShell(CommandPlan),
    /// Report the outcome; the session is over.
    Finish(Result<(), ShellFailure>),
}

/// The reported outcome for a recorded failure.
pub open spec fn shell_outcome(f: Option<ShellFailure>) -> Result<(), ShellFailure> {
    match f {
        Some(x) => Err(x),
        None => Ok(()),
    }
}

/// Whether the driver rebuilt from `m` can be: a container build must name its container.
pub open spec fn restorable(m: BuildMetadata) -> bool {
    m.driver == BuildDriverType::Docker ==> m.driver_metadata@.contains_key(CONTAINER_NAME_KEY@)
}

/// One shell session.
pub struct ShellSession {
    phase: ShellPhase,
    attached: bool,
    failure: Option<ShellFailure>,
}

impl ShellSession {
    pub closed spec fn spec_phase(&self) -> ShellPhase {
        self.phase
    }

    /// Whether the attach transaction succeeded.
    pub closed spec fn spec_attached(&self) -> bool {
        self.attached
    }

    pub closed spec fn spec_failure(&self) -> Option<ShellFailure> {
        self.failure
    }

    /// The shell `p` is that of the driver rebuilt from `m`.
    pub open spec fn shell_of(m: BuildMetadata, p: CommandPlan) -> bool {
        exists|d: Driver|
            #![trigger d.shell_matches(Ok(p))]
            d.spec_kind() == m.driver && d.spec_config() == m.config && (d is Docker
                ==> d->Docker_0.spec_container_name() == m.driver_metadata@[CONTAINER_NAME_KEY@])
                && d.shell_matches(Ok(p))
    }

    /// One step of the session: from state `s`, after `e`, the action `r` and state `s2`.
    pub open spec fn step_matches(s: ShellSession, e: ShellEvent, r: ShellAction, s2: ShellSession) -> bool {
        match s.spec_phase() {
            ShellPhase::Start => {
                &&& s2.spec_phase() == ShellPhase::Attaching
                &&& s2.spec_attached() == s.spec_attached()
                &&& s2.spec_failure() == s.spec_failure()
                &&& r == ShellAction::Update(SessionOp::Attach)
            },
            ShellPhase::Attaching => match e {
                ShellEvent::Document(m) => {
                    &&& s2.spec_attached()
                    &&& if restorable(m) {
                        &&& s2.spec_phase() == ShellPhase::InShell
                        &&& s2.spec_failure() == s.spec_failure()
                        &&& (r matches ShellAction::OpenShell(p) && Self::shell_of(m, p))
                    } else {
                        &&& s2.spec_phase() == ShellPhase::Detaching
                        &&& s2.spec_failure() == Some(
                            ShellFailure::Metadata(MetadataError::MissingContainerName),
                        )
                        &&& r == ShellAction::Update(SessionOp::Detach)
                    }
                },
                _ => {
                    &&& s2.spec_phase() == ShellPhase::Finished
                    &&& s2.spec_attached() == s.spec_attached()
                    &&& r == ShellAction::Finish(
                        Err(
                            ShellFailure::Store(
                                match e {
                                    ShellEvent::StoreFailed(x) => x,
                                    _ => StoreError::Protocol,
                                },
                            ),
                        ),
                    )
                },
            },
            ShellPhase::InShell => {
                &&& s2.spec_phase() == ShellPhase::Detaching
                &&& s2.spec_attached() == s.spec_attached()
                &&& s2.spec_failure() == match e {
                    ShellEvent::Failed(msg) => Some(ShellFailure::Shell(msg)),
                    _ => s.spec_failure(),
                }
                &&& r == ShellAction::Update(SessionOp::Detach)
            },
            ShellPhase::Detaching => {
                &&& s2.spec_phase() == ShellPhase::Finished
                &&& s2.spec_attached() == s.spec_attached()
                &&& s2.spec_failure() == match e {
                    ShellEvent::StoreFailed(x) => if s.spec_failure() is None {
                        Some(ShellFailure::Store(x))
                    } else {
                        s.spec_failure()
                    },
                    _ => s.spec_failure(),
                }
                &&& r == ShellAction::Finish(shell_outcome(s2.spec_failure()))
            },
            ShellPhase::Finished => {
                &&& s2 == s
                &&& r == ShellAction::Finish(shell_outcome(s.spec_failure()))
            },
        }
    }

    /// A session that has not started.
    pub fn new() -> (r: Self)
        ensures
            r.spec_phase() == ShellPhase::Start,
            !r.spec_attached(),
            r.spec_failure() is None,
    {
        ShellSession { phase: ShellPhase::Start, attached: false, failure: None }
    }

    pub fn phase(&self) -> (r: ShellPhase)
        ensures
            r == self.spec_phase(),
    {
        self.phase
    }

    fn outcome(&self) -> (r: Result<(), ShellFailure>)
        ensures
            r == shell_outcome(self.spec_failure()),
    {
        match &self.failure {
            Some(f) => Err(f.duplicate()),
            None => Ok(()),
        }
    }

    /// Takes what became of the previous action (anything, for the first step) and
    /// answers with the next action. `config` holds the settings of the backends.
    ///
    /// Once the attach transaction has succeeded, the session asks for the detach
    /// before it finishes, whether the shell ended well or not and also when the
    /// driver cannot be rebuilt.
    pub fn step(&mut self, config: &DriverConfig, event: ShellEvent) -> (r: ShellAction)
        ensures
            Self::step_matches(*old(self), event, r, *final(self)),
    {
        match self.phase {
            ShellPhase::Start => {
                self.phase = ShellPhase::Attaching;
                ShellAction::Update(SessionOp::Attach)
            },
            ShellPhase::Attaching => match event {
                ShellEvent::Document(m) => {
                    self.attached = true;
                    match create_driver_from_build_metadata(config, &m) {
                        Ok(d) => {
                            let shell = d.drop_into_shell();
                            match shell {
                                Ok(p) => {
                                    self.phase = ShellPhase::InShell;
                                    assert(d.shell_matches(Ok(p)));
                                    ShellAction::OpenShell(p)
                                },
                                Err(_) => {
                                    self.phase = ShellPhase::Detaching;
                                    ShellAction::Update(SessionOp::Detach)
                                },
                            }
                        },
                        Err(e) => {
                            self.failure = Some(ShellFailure::Metadata(e));
                            self.phase = ShellPhase::Detaching;
                            ShellAction::Update(SessionOp::Detach)
                        },
                    }
                },
                ShellEvent::StoreFailed(x) => {
                    self.phase = ShellPhase::Finished;
                    ShellAction::Finish(Err(ShellFailure::Store(x)))
                },
                _ => {
                    self.phase = ShellPhase::Finished;
                    ShellAction::Finish(Err(ShellFailure::Store(StoreError::Protocol)))
                },
            },
            ShellPhase::InShell => {
                if let ShellEvent::Failed(msg) = event {
                    self.failure = Some(ShellFailure::Shell(msg));
                }
                self.phase = ShellPhase::Detaching;
                ShellAction::Update(SessionOp::Detach)
            },
            ShellPhase::Detaching => {
                if let ShellEvent::StoreFailed(x) = event {
                    if self.failure.is_none() {
                        self.failure = Some(ShellFailure::Store(x));
                    }
                }
                self.phase = ShellPhase::Finished;
                ShellAction::Finish(self.outcome())
            },
            ShellPhase::Finished => ShellAction::Finish(self.outcome()),
        }
    }
}

/// How many of `actions` ask for a transaction applying `op`.
pub open spec fn update_requests(actions: Seq<ShellAction>, op: SessionOp) -> nat
    decreases actions.len(),
{
    if actions.len() == 0 {
        0
    } else {
        update_requests(actions.drop_last(), op) + if actions.last() == ShellAction::Update(op) {
            1nat
        } else {
            0nat
        }
    }
}

/// `states`, `events` and `actions` are a run of [`ShellSession::step`].
pub open spec fn is_shell_run(
    states: Seq<ShellSession>,
    events: Seq<ShellEvent>,
    actions: Seq<ShellAction>,
) -> bool {
    &&& states.len() == events.len() + 1
    &&& actions.len() == events.len()
    &&& forall|i: int|
        #![trigger events[i]]
        0 <= i < events.len() ==> ShellSession::step_matches(
            states[i],
            events[i],
            actions[i],
            states[i + 1],
        )
}

/// The attach and detach requests made before a session reached state `s`.
pub open spec fn requests_agree(s: ShellSession, attaches: nat, detaches: nat) -> bool {
    match s.spec_phase() {
        ShellPhase::Start => attaches == 0 && detaches == 0 && !s.spec_attached(),
        ShellPhase::Attaching => attaches == 1 && detaches == 0 && !s.spec_attached(),
        ShellPhase::InShell => attaches == 1 && detaches == 0 && s.spec_attached(),
        ShellPhase::Detaching => attaches == 1 && detaches == 1 && s.spec_attached(),
        ShellPhase::Finished => attaches == 1 && detaches == (if s.spec_attached() {
            1nat
        } else {
            0nat
        }),
    }
}

proof fn lemma_shell_prefix(
    states: Seq<ShellSession>,
    events: Seq<ShellEvent>,
    actions: Seq<ShellAction>,
    k: int,
)
    requires
        is_shell_run(states, events, actions),
        states[0].spec_phase() == ShellPhase::Start,
        !states[0].spec_attached(),
        0 <= k <= events.len(),
    ensures
        requests_agree(
            states[k],
            update_requests(actions.subrange(0, k), SessionOp::Attach),
            update_requests(actions.subrange(0, k), SessionOp::Detach),
        ),
        k > 0 && actions[k - 1] is Finish ==> states[k].spec_phase() == ShellPhase::Finished,
    decreases k,
{
    if k > 0 {
        lemma_shell_prefix(states, events, actions, k - 1);
        assert(ShellSession::step_matches(states[k - 1], events[k - 1], actions[k - 1], states[k]));
        assert(actions.subrange(0, k).drop_last() =~= actions.subrange(0, k - 1));
    } else {
        assert(actions.subrange(0, 0) =~= Seq::<ShellAction>::empty());
    }
}

/// In any shell session, the attach counter is incremented at most once and
/// decremented at most once, never without a preceding increment. When the session
/// has finished, it has decremented exactly when its increment succeeded, however
/// the shell itself ended.
pub proof fn lemma_shell_session_detaches_after_attach(
    states: Seq<ShellSession>,
    events: Seq<ShellEvent>,
    actions: Seq<ShellAction>,
)
    requires
        is_shell_run(states, events, actions),
        states[0].spec_phase() == ShellPhase::Start,
        !states[0].spec_attached(),
    ensures
        update_requests(actions, SessionOp::Detach) <= update_requests(actions, SessionOp::Attach)
            <= 1,
        actions.len() > 0 && actions.last() is Finish ==> update_requests(
            actions,
            SessionOp::Detach,
        ) == (if states.last().spec_attached() {
            1nat
        } else {
            0nat
        }),
{
    let n = events.len() as int;
    lemma_shell_prefix(states, events, actions, n);
    assert(actions.subrange(0, n) =~= actions);
}

} // verus!
