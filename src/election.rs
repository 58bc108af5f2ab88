//! Role election through the exclusive advisory lock, across processes.
//!
//! The kernel keeps the lock: it serialises concurrent attempts, grants a
//! non-blocking exclusive attempt exactly when no live process holds the lock,
//! and releases the lock when its holder exits or drops its guard. Whether the
//! lock file exists plays no part: the lock lives in the kernel, the file only
//! names it. The functions below model that behaviour and show what the
//! startup protocol of [`crate::launch`] makes of it.
use crate::launch::{next, state_after, Action, Event, Launch, LockAttempt, Role, Stage};
use crate::listener::{reactions, AcceptOutcome, ListenerAction};
use crate::window::run_posts;
use vstd::prelude::*;

verus! {

/// One non-blocking exclusive attempt by process `pid` on a lock held by
/// `holder`: the new holder, and what the attempt reports.
pub open spec fn try_lock(holder: Option<nat>, pid: nat) -> (Option<nat>, LockAttempt) {
    match holder {
        None => (Some(pid), LockAttempt::Acquired),
        Some(h) => (Some(h), LockAttempt::Contended),
    }
}

/// Process `pid` exits, or drops its guard: a lock it held is free again.
pub open spec fn release(holder: Option<nat>, pid: nat) -> Option<nat> {
    if holder == Some(pid) {
        None
    } else {
        holder
    }
}

/// What the attempts of `pids` report, in the order in which the kernel
/// serialised them, on a lock held by `holder` at first.
pub open spec fn contend(holder: Option<nat>, pids: Seq<nat>) -> Seq<LockAttempt>
    decreases pids.len(),
{
    if pids.len() == 0 {
        Seq::empty()
    } else {
        let (h, t) = try_lock(holder, pids[0]);
        seq![t] + contend(h, pids.drop_first())
    }
}

/// The role a process at its lock attempt takes for the outcome `t`.
pub open spec fn role_after(s: Launch, t: LockAttempt) -> Option<Role> {
    next(s, Event::LockTried(t)).0.role
}

/// On a free lock the first attempt is granted and every later one reports
/// contention; on a held lock every attempt reports contention.
pub proof fn lemma_contend(holder: Option<nat>, pids: Seq<nat>)
    ensures
        contend(holder, pids).len() == pids.len(),
        forall|i: int|
            0 <= i < pids.len() ==> contend(holder, pids)[i] == if holder is None && i == 0 {
                LockAttempt::Acquired
            } else {
                LockAttempt::Contended
            },
    decreases pids.len(),
{
    if pids.len() > 0 {
        let (h, t) = try_lock(holder, pids[0]);
        lemma_contend(h, pids.drop_first());
        assert forall|i: int| 0 < i < pids.len() implies contend(holder, pids)[i]
            == contend(h, pids.drop_first())[i - 1] by {}
    }
}

/// Mutual exclusion: when `n >= 1` processes, each at its lock attempt, race
/// for a lock that nobody holds, exactly one becomes primary (the one whose
/// attempt the kernel served first) and the other `n - 1` become secondary.
/// When a live primary already holds the lock, all of them become secondary.
pub proof fn lemma_exactly_one_primary(
    holder: Option<nat>,
    pids: Seq<nat>,
    runs: Seq<Seq<Event>>,
)
    requires
        pids.len() >= 1,
        runs.len() == pids.len(),
        forall|i: int| 0 <= i < runs.len() ==> (#[trigger] state_after(runs[i])).stage
            == Stage::Locking,
    ensures
        holder is None ==> role_after(state_after(runs[0]), contend(holder, pids)[0]) == Some(
            Role::Primary,
        ),
        forall|i: int|
            0 <= i < pids.len() && (holder is Some || i > 0) ==> role_after(
                #[trigger] state_after(runs[i]),
                contend(holder, pids)[i],
            ) == Some(Role::Secondary),
        holder is None ==> exists|p: int|
            0 <= p < pids.len() && role_after(state_after(runs[p]), contend(holder, pids)[p])
                == Some(Role::Primary) && forall|i: int|
                0 <= i < pids.len() && i != p ==> role_after(
                    #[trigger] state_after(runs[i]),
                    contend(holder, pids)[i],
                ) == Some(Role::Secondary),
{
    lemma_contend(holder, pids);
    if holder is None {
        assert(role_after(state_after(runs[0]), contend(holder, pids)[0]) == Some(Role::Primary));
    }
}

/// A lock is not tied to its file: once the primary `prev` that held it has
/// exited, the next process to try it becomes primary, though the lock file
/// it left behind is still there.
pub proof fn lemma_released_lock_elects_primary(prev: nat, pid: nat, run: Seq<Event>)
    requires
        state_after(run).stage == Stage::Locking,
    ensures
        role_after(state_after(run), try_lock(None, prev).1) == Some(Role::Primary),
        try_lock(release(try_lock(None, prev).0, prev), pid).1 == LockAttempt::Acquired,
        role_after(state_after(run), try_lock(release(try_lock(None, prev).0, prev), pid).1)
            == Some(Role::Primary),
{
}

/// Launch, hand-off and relaunch: process `a`, first on a free lock, becomes
/// primary; `b`, launched while `a` holds the lock, becomes secondary,
/// connects, and exits with status 0 whatever the connection gave; the one
/// connection that `a` accepts reveals `a`'s window exactly once; after `a` is
/// killed, `c` becomes primary and starts by replacing the stale socket.
pub proof fn lemma_launch_handoff_relaunch(
    a: nat,
    b: nat,
    c: nat,
    a_run: Seq<Event>,
    b_run: Seq<Event>,
    c_run: Seq<Event>,
    visible: bool,
)
    requires
        a != b,
        state_after(a_run).stage == Stage::Locking,
        state_after(b_run).stage == Stage::Locking,
        state_after(c_run).stage == Stage::Locking,
    ensures
        next(state_after(a_run), Event::LockTried(try_lock(None, a).1)) == (
            Launch { stage: Stage::ClearingSocket, role: Some(Role::Primary), ..state_after(a_run) },
            Action::RemoveStaleSocket,
        ),
        role_after(state_after(b_run), try_lock(try_lock(None, a).0, b).1) == Some(Role::Secondary),
        next(state_after(b_run), Event::LockTried(try_lock(try_lock(None, a).0, b).1)).1
            == Action::Connect,
        forall|ok: bool|
            next(
                next(state_after(b_run), Event::LockTried(try_lock(try_lock(None, a).0, b).1)).0,
                Event::Connected(ok),
            ).1 == Action::ExitSecondary,
        run_posts(Some(visible), reactions(seq![AcceptOutcome::Connection])) == (Some(true), 1nat),
        role_after(state_after(c_run), try_lock(release(try_lock(None, a).0, a), c).1) == Some(
            Role::Primary,
        ),
        next(state_after(c_run), Event::LockTried(try_lock(release(try_lock(None, a).0, a), c).1)).1
            == Action::RemoveStaleSocket,
{
    let posts = reactions(seq![AcceptOutcome::Connection]);
    assert(posts.len() == 1);
    assert(posts.last() == ListenerAction::PostReveal);
    assert(posts.drop_last() =~= Seq::<ListenerAction>::empty());
    assert(run_posts(Some(visible), posts.drop_last()) == (Some(visible), 0nat));
}

} // verus!
