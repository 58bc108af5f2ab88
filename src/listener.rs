//! The hand-off listener of the primary instance.
//!
//! It runs on a background thread for the rest of the process and reacts to
//! each outcome of a blocking `accept` on the socket. A connection carries no
//! data: the connection itself asks for the window. The reveal it posts runs
//! later on the main thread, through a serial first-in first-out queue, so
//! reveals run in the order in which the connections were accepted.
use vstd::prelude::*;

verus! {

/// What one `accept` on the listening socket gave.
#[derive(Clone, Copy, Debug, PartialEq, Eq, Structural)]
pub enum AcceptOutcome {
    /// A secondary instance connected.
    Connection,
    /// The accept failed.
    Failure,
}

/// What the listener does next. There is no action that stops it: it keeps
/// accepting for the life of the process, whatever happens to the socket file.
#[derive(Clone, Copy, Debug, PartialEq, Eq, Structural)]
pub enum ListenerAction {
    /// Post one reveal of the window to the main thread, then accept again.
    PostReveal,
    /// Accept again.
    KeepListening,
}

/// The reaction to one outcome of `accept`.
pub open spec fn reaction(o: AcceptOutcome) -> ListenerAction {
    if o == AcceptOutcome::Connection {
        ListenerAction::PostReveal
    } else {
        ListenerAction::KeepListening
    }
}

/// The reactions to a run of outcomes, in order.
pub open spec fn reactions(outcomes: Seq<AcceptOutcome>) -> Seq<ListenerAction> {
    outcomes.map_values(|o: AcceptOutcome| reaction(o))
}

/// Reacts to one outcome of `accept`: each connection posts exactly one
/// reveal, and a failed accept is passed over so that later hand-offs still
/// work.
pub fn on_accept(o: AcceptOutcome) -> (r: ListenerAction)
    ensures
        r == reaction(o),
        r == ListenerAction::PostReveal <==> o == AcceptOutcome::Connection,
{
    match o {
        AcceptOutcome::Connection => ListenerAction::PostReveal,
        AcceptOutcome::Failure => ListenerAction::KeepListening,
    }
}

/// Over any run of accepts, the listener posts exactly one reveal per
/// connection, as many reveals as there were connections, in the order of the
/// connections; failed accepts post none and do not end the run.
pub proof fn lemma_one_reveal_per_connection(outcomes: Seq<AcceptOutcome>)
    ensures
        reactions(outcomes).len() == outcomes.len(),
        forall|i: int|
            0 <= i < outcomes.len() ==> (reactions(outcomes)[i] == ListenerAction::PostReveal
                <==> outcomes[i] == AcceptOutcome::Connection),
        reactions(outcomes).filter(|a: ListenerAction| a == ListenerAction::PostReveal).len()
            == outcomes.filter(|o: AcceptOutcome| o == AcceptOutcome::Connection).len(),
    decreases outcomes.len(),
{
    let is_reveal = |a: ListenerAction| a == ListenerAction::PostReveal;
    let is_conn = |o: AcceptOutcome| o == AcceptOutcome::Connection;
    if outcomes.len() == 0 {
        reveal(Seq::filter);
        assert(reactions(outcomes) =~= Seq::<ListenerAction>::empty());
    } else {
        let prev = outcomes.drop_last();
        lemma_one_reveal_per_connection(prev);
        assert(reactions(outcomes) =~= reactions(prev).push(reaction(outcomes.last())));
        assert(outcomes =~= prev.push(outcomes.last()));
        reactions(prev).lemma_filter_push(reaction(outcomes.last()), is_reveal);
        prev.lemma_filter_push(outcomes.last(), is_conn);
    }
}

/// The listener outlives anything that happens before a connection: after any
/// run of accepts, failed ones included, and whatever became of the socket
/// file meanwhile (the listener's decisions do not read it), the next
/// accepted connection still posts exactly one reveal.
pub proof fn lemma_listener_survives(outcomes: Seq<AcceptOutcome>)
    ensures
        reactions(outcomes.push(AcceptOutcome::Connection)).len() == outcomes.len() + 1,
        reactions(outcomes.push(AcceptOutcome::Connection)).last() == ListenerAction::PostReveal,
        reactions(outcomes.push(AcceptOutcome::Connection)).drop_last() == reactions(outcomes),
{
    assert(reactions(outcomes.push(AcceptOutcome::Connection)).drop_last() =~= reactions(
        outcomes,
    ));
}

} // verus!
