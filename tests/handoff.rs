use runner::launch::{Action, DirProbe, Event, Launch, LockAttempt, Role};
use runner::listener::{on_accept, AcceptOutcome, ListenerAction};
use runner::window::{Delegate, WindowCommand};

/// The kernel's advisory lock, as the tests stand in for it.
struct FakeLock {
    holder: Option<u32>,
}

impl FakeLock {
    fn try_lock(&mut self, pid: u32) -> LockAttempt {
        match self.holder {
            None => {
                self.holder = Some(pid);
                LockAttempt::Acquired
            }
            Some(_) => LockAttempt::Contended,
        }
    }

    fn release(&mut self, pid: u32) {
        if self.holder == Some(pid) {
            self.holder = None;
        }
    }
}

/// Runs one process up to its lock attempt, and returns it with the action
/// that its lock outcome gave.
fn launch_until_role(lock: &mut FakeLock, pid: u32) -> (Launch, Action) {
    let (mut l, _) = Launch::new();
    assert_eq!(l.step(Event::DirChecked(DirProbe::Present)), Action::OpenLockFile);
    assert_eq!(l.step(Event::LockFileOpened(true)), Action::TryLock);
    let a = l.step(Event::LockTried(lock.try_lock(pid)));
    (l, a)
}

#[test]
fn exactly_one_of_many_launches_is_primary() {
    for n in 1..=8u32 {
        let mut lock = FakeLock { holder: None };
        let mut launches = Vec::new();
        for pid in 0..n {
            let (l, _) = launch_until_role(&mut lock, pid);
            launches.push(l);
        }
        let primaries = launches.iter().filter(|l| l.role == Some(Role::Primary)).count();
        let secondaries = launches.iter().filter(|l| l.role == Some(Role::Secondary)).count();
        assert_eq!(primaries, 1);
        assert_eq!(secondaries, (n - 1) as usize);
    }
}

#[test]
fn released_lock_elects_next_launch() {
    let mut lock = FakeLock { holder: None };
    let (first, _) = launch_until_role(&mut lock, 1);
    assert_eq!(first.role, Some(Role::Primary));
    lock.release(1);
    let (next, a) = launch_until_role(&mut lock, 2);
    assert_eq!(next.role, Some(Role::Primary));
    assert_eq!(a, Action::RemoveStaleSocket);
}

#[test]
fn one_reveal_per_connection_in_order() {
    let outcomes = [
        AcceptOutcome::Connection,
        AcceptOutcome::Failure,
        AcceptOutcome::Connection,
        AcceptOutcome::Failure,
        AcceptOutcome::Failure,
        AcceptOutcome::Connection,
    ];
    let actions: Vec<ListenerAction> = outcomes.iter().map(|o| on_accept(*o)).collect();
    assert_eq!(
        actions,
        vec![
            ListenerAction::PostReveal,
            ListenerAction::KeepListening,
            ListenerAction::PostReveal,
            ListenerAction::KeepListening,
            ListenerAction::KeepListening,
            ListenerAction::PostReveal,
        ]
    );
    let reveals = actions.iter().filter(|a| **a == ListenerAction::PostReveal).count();
    assert_eq!(reveals, 3);
}

#[test]
fn listener_keeps_listening_after_failures() {
    for _ in 0..5 {
        assert_eq!(on_accept(AcceptOutcome::Failure), ListenerAction::KeepListening);
    }
    assert_eq!(on_accept(AcceptOutcome::Connection), ListenerAction::PostReveal);
}

#[test]
fn launch_kill_relaunch_scenario() {
    let mut lock = FakeLock { holder: None };

    // Process A against a fresh directory becomes primary and listens.
    let (mut a, act) = launch_until_role(&mut lock, 1);
    assert_eq!(a.role, Some(Role::Primary));
    assert_eq!(act, Action::RemoveStaleSocket);
    assert_eq!(a.step(Event::StaleSocketRemoved), Action::BindSocket);
    assert_eq!(a.step(Event::SocketBound(true)), Action::StartUi { listening: true });
    assert!(a.listening);
    let mut window = Delegate::new();
    window.window_shown();

    // Process B becomes secondary, connects, and exits with status 0.
    let (mut b, act) = launch_until_role(&mut lock, 2);
    assert_eq!(b.role, Some(Role::Secondary));
    assert_eq!(act, Action::Connect);
    assert_eq!(b.step(Event::Connected(true)), Action::ExitSecondary);
    assert_eq!(b.role, Some(Role::Secondary));

    // A's listener accepts B's connection; A's main thread reveals once.
    let mut reveals = 0;
    let post = on_accept(AcceptOutcome::Connection);
    assert_eq!(post, ListenerAction::PostReveal);
    if post == ListenerAction::PostReveal {
        assert_eq!(window.toggle_window_visibility(), WindowCommand::Nothing);
        reveals += 1;
    }
    assert_eq!(reveals, 1);
    assert_eq!(window.window, Some(true));

    // A is killed, which releases its lock; C becomes primary again and
    // replaces the stale socket before binding a new listener.
    lock.release(1);
    let (mut c, act) = launch_until_role(&mut lock, 3);
    assert_eq!(c.role, Some(Role::Primary));
    assert_eq!(act, Action::RemoveStaleSocket);
    assert_eq!(c.step(Event::StaleSocketRemoved), Action::BindSocket);
    assert_eq!(c.step(Event::SocketBound(true)), Action::StartUi { listening: true });
    assert!(c.listening);
}

#[test]
fn reveal_is_idempotent() {
    let mut d = Delegate { window: Some(false) };
    assert_eq!(d.toggle_window_visibility(), WindowCommand::MakeKeyAndOrderFront);
    assert_eq!(d.toggle_window_visibility(), WindowCommand::Nothing);
    assert_eq!(d.window, Some(true));
}
