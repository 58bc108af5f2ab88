//! What the main thread decides about the launcher's window.
//!
//! The window itself belongs to the GUI toolkit. [`Delegate`] keeps what the
//! decisions read: whether the window exists yet, and whether it is visible.
//! Each method returns the one command the application then sends to the
//! window on the main thread.
use crate::listener::{reactions, AcceptOutcome, ListenerAction};
use vstd::prelude::*;

verus! {

/// A command for the window.
#[derive(Clone, Copy, Debug, PartialEq, Eq, Structural)]
pub enum WindowCommand {
    /// Leave the window as it is.
    Nothing,
    /// Show the window, make it the key window and bring it to the front.
    MakeKeyAndOrderFront,
}

/// The application delegate's view of its window.
#[derive(Clone, Copy, Debug, PartialEq, Eq, Structural)]
pub struct Delegate {
    /// `None` until the window is created; then whether it is visible.
    pub window: Option<bool>,
}

/// The window after a reveal, and the command that does it: a hidden window
/// is shown, a visible one or one not created yet is left alone.
pub open spec fn revealed(window: Option<bool>) -> (Option<bool>, WindowCommand) {
    match window {
        Some(false) => (Some(true), WindowCommand::MakeKeyAndOrderFront),
        _ => (window, WindowCommand::Nothing),
    }
}

/// The window after a run of reveals.
pub open spec fn after_reveals(window: Option<bool>, n: nat) -> Option<bool>
    decreases n,
{
    if n == 0 {
        window
    } else {
        revealed(after_reveals(window, (n - 1) as nat)).0
    }
}

/// The main thread runs the listener's posts in the order they were made:
/// the window after that, and how many reveals ran.
pub open spec fn run_posts(window: Option<bool>, posts: Seq<ListenerAction>) -> (Option<bool>, nat)
    decreases posts.len(),
{
    if posts.len() == 0 {
        (window, 0)
    } else {
        let (w, n) = run_posts(window, posts.drop_last());
        if posts.last() == ListenerAction::PostReveal {
            (revealed(w).0, n + 1)
        } else {
            (w, n)
        }
    }
}

impl Delegate {
    /// A delegate whose window is not created yet.
    pub fn new() -> (r: Delegate)
        ensures
            r.window is None,
    {
        Delegate { window: None }
    }

    /// Records that the window was created and ordered to the front, as the
    /// application does once it has finished launching.
    pub fn window_shown(&mut self)
        ensures
            final(self).window == Some(true),
    {
        self.window = Some(true);
    }

    /// Answers a hand-off from a secondary instance: shows the window and
    /// brings it to the front when it is hidden; a visible window, or one not
    /// created yet, is left alone, so that calling it again changes nothing.
    pub fn toggle_window_visibility(&mut self) -> (r: WindowCommand)
        ensures
            (final(self).window, r) == revealed(old(self).window),
    {
        if self.window == Some(false) {
            self.window = Some(true);
            WindowCommand::MakeKeyAndOrderFront
        } else {
            WindowCommand::Nothing
        }
    }
}

/// Revealing is idempotent: a second reveal changes nothing and sends no
/// command, a visible window stays visible and gets no command, and a window
/// that exists is visible after a reveal.
pub proof fn lemma_reveal_idempotent(window: Option<bool>)
    ensures
        revealed(revealed(window).0) == (revealed(window).0, WindowCommand::Nothing),
        revealed(Some(true)) == (Some(true), WindowCommand::Nothing),
        window is Some ==> revealed(window).0 == Some(true),
{
}

/// Any number `n >= 1` of reveals in a row leaves the window as one reveal
/// does.
pub proof fn lemma_reveals_collapse(window: Option<bool>, n: nat)
    requires
        n >= 1,
    ensures
        after_reveals(window, n) == revealed(window).0,
    decreases n,
{
    if n > 1 {
        lemma_reveals_collapse(window, (n - 1) as nat);
        lemma_reveal_idempotent(window);
    } else {
        assert(after_reveals(window, 0) == window);
    }
}

/// Running, in order, the posts that the listener made for a run of accepts
/// reveals the window once per accepted connection and never otherwise; the
/// window ends as after that many reveals in a row, so visible when it exists
/// and at least one connection came. Failed accepts, whatever their cause,
/// neither stop the run nor reveal anything.
pub proof fn lemma_one_reveal_run_per_connection(window: Option<bool>, outcomes: Seq<AcceptOutcome>)
    ensures
        run_posts(window, reactions(outcomes)).1 == outcomes.filter(
            |o: AcceptOutcome| o == AcceptOutcome::Connection,
        ).len(),
        run_posts(window, reactions(outcomes)).0 == after_reveals(
            window,
            run_posts(window, reactions(outcomes)).1,
        ),
        window is Some && run_posts(window, reactions(outcomes)).1 >= 1 ==> run_posts(
            window,
            reactions(outcomes),
        ).0 == Some(true),
    decreases outcomes.len(),
{
    let is_conn = |o: AcceptOutcome| o == AcceptOutcome::Connection;
    if outcomes.len() == 0 {
        reveal(Seq::filter);
        assert(reactions(outcomes) =~= Seq::<ListenerAction>::empty());
    } else {
        let prev = outcomes.drop_last();
        lemma_one_reveal_run_per_connection(window, prev);
        assert(reactions(prev) =~= reactions(outcomes).drop_last());
        assert(outcomes =~= prev.push(outcomes.last()));
        prev.lemma_filter_push(outcomes.last(), is_conn);
    }
    let n = run_posts(window, reactions(outcomes)).1;
    if n >= 1 {
        lemma_reveals_collapse(window, n);
        lemma_reveal_idempotent(window);
    }
}

} // verus!
