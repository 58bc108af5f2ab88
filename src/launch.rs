//! The startup protocol of one process, as a state machine.
//!
//! The application feeds each outcome of the work it was asked to do back in
//! as an [`Event`], and performs the [`Action`] that comes out:
//!
//! 1. make sure the support directory exists,
//! 2. open (creating it if missing) the lock file,
//! 3. try the exclusive, non-blocking lock; its outcome decides the role,
//! 4. a secondary connects to the socket and exits with status 0,
//!    whatever the connection gave,
//! 5. a primary removes a stale socket file, binds the socket, and starts
//!    the UI, with the listener when the bind succeeded.
use vstd::prelude::*;

verus! {

/// The role of a process, decided once by its lock attempt.
#[derive(Clone, Copy, Debug, PartialEq, Eq, Structural)]
pub enum Role {
    /// Holds the lock: owns the window and the listener.
    Primary,
    /// Found the lock held: notifies the primary and exits.
    Secondary,
}

/// Why a process could not start.
#[derive(Clone, Copy, Debug, PartialEq, Eq, Structural)]
pub enum StartupError {
    /// The support directory could not be created or read.
    DirectoryUnavailable,
    /// The lock file could not be opened or created.
    LockFileIoError,
    /// The lock attempt failed for another reason than a held lock.
    LockFailed,
}

/// What became of making sure that the support directory exists.
#[derive(Clone, Copy, Debug, PartialEq, Eq, Structural)]
pub enum DirProbe {
    /// It was there already.
    Present,
    /// It was missing and this process created it.
    Created,
    /// It was missing, and creating it failed because another process
    /// created it in between.
    CreatedByOther,
    /// It was missing and could not be created.
    Unavailable,
}

/// The outcome of the non-blocking exclusive lock attempt.
#[derive(Clone, Copy, Debug, PartialEq, Eq, Structural)]
pub enum LockAttempt {
    /// The lock is now held by this process.
    Acquired,
    /// Another process holds the lock.
    Contended,
    /// The attempt failed for another reason.
    Failed,
}

/// The outcome of an action, handed back to the state machine.
#[derive(Clone, Copy, Debug, PartialEq, Eq, Structural)]
pub enum Event {
    /// Outcome of [`Action::EnsureDir`].
    DirChecked(DirProbe),
    /// Outcome of [`Action::OpenLockFile`]: whether the file could be opened.
    LockFileOpened(bool),
    /// Outcome of [`Action::TryLock`].
    LockTried(LockAttempt),
    /// Outcome of [`Action::Connect`]: whether the connection was made.
    Connected(bool),
    /// [`Action::RemoveStaleSocket`] was done; its outcome does not matter.
    StaleSocketRemoved,
    /// Outcome of [`Action::BindSocket`]: whether the socket is listening.
    SocketBound(bool),
}

/// The work the application is asked to do next.
#[derive(Clone, Copy, Debug, PartialEq, Eq, Structural)]
pub enum Action {
    /// Check that the support directory exists, and create it if not.
    EnsureDir,
    /// Open the lock file for reading and writing, creating it if missing.
    OpenLockFile,
    /// Try the exclusive lock on the lock file without blocking; keep the
    /// guard for the rest of the process when it is acquired.
    TryLock,
    /// Connect to the socket of the primary instance.
    Connect,
    /// Remove the socket file if there is one.
    RemoveStaleSocket,
    /// Bind a listening socket at the socket path.
    BindSocket,
    /// Start the UI; first start the listener thread when `listening`.
    StartUi { listening: bool },
    /// Exit the process with status 0, creating no window.
    ExitSecondary,
    /// Startup failed.
    Abort(StartupError),
    /// Nothing to do.
    Idle,
}

/// How far a process has got in the protocol.
#[derive(Clone, Copy, Debug, PartialEq, Eq, Structural)]
pub enum Stage {
    PreparingDir,
    OpeningLock,
    Locking,
    Notifying,
    ClearingSocket,
    Binding,
    Running,
    Exited,
    Failed,
}

/// The state of one process in the protocol.
#[derive(Clone, Copy, Debug, PartialEq, Eq, Structural)]
pub struct Launch {
    pub stage: Stage,
    /// `None` until the lock attempt decides it; never changes after that.
    pub role: Option<Role>,
    /// Whether the hand-off listener was bound.
    pub listening: bool,
}

impl Launch {
    /// The role matches the stage: undecided before and at the lock attempt
    /// and after a failure, secondary while notifying and after, primary
    /// from the socket set-up on.
    pub open spec fn wf(self) -> bool {
        match self.stage {
            Stage::PreparingDir | Stage::OpeningLock | Stage::Locking | Stage::Failed => self.role
                is None,
            Stage::Notifying | Stage::Exited => self.role == Some(Role::Secondary),
            Stage::ClearingSocket | Stage::Binding | Stage::Running => self.role == Some(
                Role::Primary,
            ),
        }
    }
}

/// The state a process starts in.
pub open spec fn initial() -> Launch {
    Launch { stage: Stage::PreparingDir, role: None, listening: false }
}

/// The same launch, moved to `stage`.
pub open spec fn at(s: Launch, stage: Stage) -> Launch {
    Launch { stage, ..s }
}

/// The transition table: the next state and the action to perform, for a
/// state and the event that came back. An event that does not belong to the
/// stage leaves the state as it is.
pub open spec fn next(s: Launch, e: Event) -> (Launch, Action) {
    match (s.stage, e) {
        (Stage::PreparingDir, Event::DirChecked(p)) => if p == DirProbe::Unavailable {
            (at(s, Stage::Failed), Action::Abort(StartupError::DirectoryUnavailable))
        } else {
            (at(s, Stage::OpeningLock), Action::OpenLockFile)
        },
        (Stage::OpeningLock, Event::LockFileOpened(ok)) => if ok {
            (at(s, Stage::Locking), Action::TryLock)
        } else {
            (at(s, Stage::Failed), Action::Abort(StartupError::LockFileIoError))
        },
        (Stage::Locking, Event::LockTried(t)) => match t {
            LockAttempt::Acquired => (
                Launch { stage: Stage::ClearingSocket, role: Some(Role::Primary), ..s },
                Action::RemoveStaleSocket,
            ),
            LockAttempt::Contended => (
                Launch { stage: Stage::Notifying, role: Some(Role::Secondary), ..s },
                Action::Connect,
            ),
            LockAttempt::Failed => (at(s, Stage::Failed), Action::Abort(StartupError::LockFailed)),
        },
        (Stage::Notifying, Event::Connected(_)) => (at(s, Stage::Exited), Action::ExitSecondary),
        (Stage::ClearingSocket, Event::StaleSocketRemoved) => (
            at(s, Stage::Binding),
            Action::BindSocket,
        ),
        (Stage::Binding, Event::SocketBound(ok)) => (
            Launch { stage: Stage::Running, listening: ok, ..s },
            Action::StartUi { listening: ok },
        ),
        _ => (s, Action::Idle),
    }
}

/// The state after a run of events from the initial state.
pub open spec fn state_after(events: Seq<Event>) -> Launch
    decreases events.len(),
{
    if events.len() == 0 {
        initial()
    } else {
        next(state_after(events.drop_last()), events.last()).0
    }
}

/// The actions taken along a run of events: the first one, then one per event.
pub open spec fn actions_of(events: Seq<Event>) -> Seq<Action>
    decreases events.len(),
{
    if events.len() == 0 {
        seq![Action::EnsureDir]
    } else {
        actions_of(events.drop_last()).push(next(state_after(events.drop_last()), events.last()).1)
    }
}

impl Launch {
    /// A process that has just started, and the first action it asks for.
    pub fn new() -> (r: (Launch, Action))
        ensures
            r.0 == initial(),
            r.0.wf(),
            r.1 == Action::EnsureDir,
    {
        (Launch { stage: Stage::PreparingDir, role: None, listening: false }, Action::EnsureDir)
    }

    /// Takes the outcome of the last action and returns the next action.
    pub fn step(&mut self, e: Event) -> (a: Action)
        ensures
            (*final(self), a) == next(*old(self), e),
            old(self).wf() ==> final(self).wf(),
            old(self).wf() && old(self).role is Some ==> final(self).role == old(self).role,
            old(self).wf() && final(self).role == Some(Role::Secondary) ==> a !is StartUi,
    {
        let s = *self;
        let (n, a) = match (s.stage, e) {
            (Stage::PreparingDir, Event::DirChecked(p)) => {
                if p == DirProbe::Unavailable {
                    (
                        Launch { stage: Stage::Failed, ..s },
                        Action::Abort(StartupError::DirectoryUnavailable),
                    )
                } else {
                    (Launch { stage: Stage::OpeningLock, ..s }, Action::OpenLockFile)
                }
            },
            (Stage::OpeningLock, Event::LockFileOpened(ok)) => {
                if ok {
                    (Launch { stage: Stage::Locking, ..s }, Action::TryLock)
                } else {
                    (
                        Launch { stage: Stage::Failed, ..s },
                        Action::Abort(StartupError::LockFileIoError),
                    )
                }
            },
            (Stage::Locking, Event::LockTried(t)) => match t {
                LockAttempt::Acquired => (
                    Launch { stage: Stage::ClearingSocket, role: Some(Role::Primary), ..s },
                    Action::RemoveStaleSocket,
                ),
                LockAttempt::Contended => (
                    Launch { stage: Stage::Notifying, role: Some(Role::Secondary), ..s },
                    Action::Connect,
                ),
                LockAttempt::Failed => (
                    Launch { stage: Stage::Failed, ..s },
                    Action::Abort(StartupError::LockFailed),
                ),
            },
            (Stage::Notifying, Event::Connected(_)) => (
                Launch { stage: Stage::Exited, ..s },
                Action::ExitSecondary,
            ),
            (Stage::ClearingSocket, Event::StaleSocketRemoved) => (
                Launch { stage: Stage::Binding, ..s },
                Action::BindSocket,
            ),
            (Stage::Binding, Event::SocketBound(ok)) => (
                Launch { stage: Stage::Running, listening: ok, ..s },
                Action::StartUi { listening: ok },
            ),
            _ => (s, Action::Idle),
        };
        *self = n;
        a
    }
}

/// Every state reached from the initial one is well formed.
pub proof fn lemma_reachable_wf(events: Seq<Event>)
    ensures
        state_after(events).wf(),
    decreases events.len(),
{
    if events.len() > 0 {
        lemma_reachable_wf(events.drop_last());
    }
}

/// Along a run, one action follows the start and one follows each event.
pub proof fn lemma_actions_len(events: Seq<Event>)
    ensures
        actions_of(events).len() == events.len() + 1,
    decreases events.len(),
{
    if events.len() > 0 {
        lemma_actions_len(events.drop_last());
    }
}

/// The role is decided once: as soon as a prefix of a run has a role, every
/// longer prefix has the same one.
pub proof fn lemma_role_decided_once(events: Seq<Event>, k: int)
    requires
        0 <= k <= events.len(),
        state_after(events.take(k)).role is Some,
    ensures
        state_after(events).role == state_after(events.take(k)).role,
    decreases events.len(),
{
    if k < events.len() {
        assert(events.drop_last().take(k) =~= events.take(k));
        lemma_role_decided_once(events.drop_last(), k);
        lemma_reachable_wf(events.drop_last());
    } else {
        assert(events.take(k) =~= events);
    }
}

/// The actions that only a primary instance takes: its socket set-up and
/// starting the UI.
pub open spec fn primary_only(a: Action) -> bool {
    a is RemoveStaleSocket || a is BindSocket || a is StartUi
}

/// A run with an action that only a primary takes belongs to a primary.
proof fn lemma_primary_only_actions(events: Seq<Event>, i: int)
    requires
        0 <= i < actions_of(events).len(),
        primary_only(actions_of(events)[i]),
    ensures
        state_after(events).role == Some(Role::Primary),
    decreases events.len(),
{
    lemma_actions_len(events);
    if events.len() > 0 {
        let prev = events.drop_last();
        lemma_reachable_wf(prev);
        lemma_actions_len(prev);
        if i < actions_of(prev).len() {
            lemma_primary_only_actions(prev, i);
        }
    }
}

/// A secondary instance never creates a window: once a process has become
/// secondary at some point of a run, no action of that run starts the UI.
pub proof fn lemma_secondary_never_starts_ui(events: Seq<Event>, k: int)
    requires
        0 <= k <= events.len(),
        state_after(events.take(k)).role == Some(Role::Secondary),
    ensures
        forall|i: int| 0 <= i < actions_of(events).len() ==> !(actions_of(events)[i] is StartUi),
{
    lemma_role_decided_once(events, k);
    assert forall|i: int| 0 <= i < actions_of(events).len() implies !(
    actions_of(events)[i] is StartUi) by {
        if actions_of(events)[i] is StartUi {
            lemma_primary_only_actions(events, i);
        }
    }
}

/// A secondary instance touches the socket only to connect to it, and does
/// so exactly once; a process that is not secondary never connects.
pub proof fn lemma_connects_once_iff_secondary(events: Seq<Event>)
    ensures
        actions_of(events).filter(|a: Action| a == Action::Connect).len() == if state_after(
            events,
        ).role == Some(Role::Secondary) {
            1nat
        } else {
            0nat
        },
        state_after(events).role == Some(Role::Secondary) ==> forall|i: int|
            0 <= i < actions_of(events).len() ==> !(actions_of(events)[i] is RemoveStaleSocket)
                && !(actions_of(events)[i] is BindSocket),
    decreases events.len(),
{
    let is_connect = |a: Action| a == Action::Connect;
    if events.len() == 0 {
        reveal_with_fuel(Seq::filter, 2);
        assert(seq![Action::EnsureDir].drop_last() =~= Seq::<Action>::empty());
    } else {
        let prev = events.drop_last();
        lemma_connects_once_iff_secondary(prev);
        lemma_reachable_wf(prev);
        let step = next(state_after(prev), events.last());
        actions_of(prev).lemma_filter_push(step.1, is_connect);
        if state_after(events).role == Some(Role::Secondary) {
            assert forall|i: int| 0 <= i < actions_of(events).len() implies !(
            actions_of(events)[i] is RemoveStaleSocket) && !(
            actions_of(events)[i] is BindSocket) by {
                if primary_only(actions_of(events)[i]) {
                    lemma_primary_only_actions(events, i);
                }
            }
        }
    }
}

} // verus!
