//! Many sessions sharing the backend slot.
//!
//! The slot is a limiter with one permit: it is granted only while nobody
//! holds it, and a session gives it back when it finishes. The laws below show
//! that, whatever the interleaving of sessions, at most one of them is ever
//! talking to the backend, and that a finished session never keeps the slot.
use vstd::prelude::*;
use crate::forwarder::{accepts, holds_permit, next_phase, remaining_steps, Event, Phase};

verus! {

/// Every session of the gateway, by request number, and who holds the slot.
pub struct Gateway {
    pub sessions: Map<nat, Phase>,
    pub holder: Option<nat>,
}

/// The gateway before any request.
pub open spec fn empty_gateway() -> Gateway {
    Gateway { sessions: Map::empty(), holder: None }
}

/// The slot's holder is exactly the one session in a permit-holding phase.
pub open spec fn gateway_inv(g: Gateway) -> bool {
    &&& forall|id: nat|
        #[trigger] g.sessions.contains_key(id) && holds_permit(g.sessions[id]) ==> g.holder
            == Some(id)
    &&& g.holder matches Some(h) ==> g.sessions.contains_key(h) && holds_permit(g.sessions[h])
}

/// A new request `id` arrives.
pub open spec fn arrive(g: Gateway, id: nat) -> Gateway {
    Gateway { sessions: g.sessions.insert(id, Phase::AwaitingPermit), holder: g.holder }
}

/// Whether event `e` can reach session `id`: the session expects it, and the
/// slot is granted only while free.
pub open spec fn can_deliver(g: Gateway, id: nat, e: Event) -> bool {
    &&& g.sessions.contains_key(id)
    &&& accepts(g.sessions[id], e)
    &&& e is PermitGranted ==> g.holder is None
}

/// Session `id` takes in event `e`; a grant takes the slot, finishing gives it back.
pub open spec fn deliver(g: Gateway, id: nat, e: Event) -> Gateway {
    let p = next_phase(g.sessions[id], e);
    Gateway {
        sessions: g.sessions.insert(id, p),
        holder: if e is PermitGranted {
            Some(id)
        } else if p is Finished {
            None
        } else {
            g.holder
        },
    }
}

/// No session holds the slot before any request.
pub proof fn lemma_empty_gateway_inv()
    ensures
        gateway_inv(empty_gateway()),
{
}

/// A new request leaves the slot as it was.
pub proof fn lemma_arrive_preserves_inv(g: Gateway, id: nat)
    requires
        gateway_inv(g),
        !g.sessions.contains_key(id),
    ensures
        gateway_inv(arrive(g, id)),
{
}

/// Every event that a session can take in keeps the slot's holder and the
/// permit-holding sessions in step.
pub proof fn lemma_deliver_preserves_inv(g: Gateway, id: nat, e: Event)
    requires
        gateway_inv(g),
        can_deliver(g, id, e),
    ensures
        gateway_inv(deliver(g, id, e)),
{
    let g2 = deliver(g, id, e);
    assert forall|j: nat| #[trigger]
        g2.sessions.contains_key(j) && holds_permit(g2.sessions[j]) implies g2.holder == Some(j) by {
        if j != id {
            assert(g.sessions.contains_key(j) && holds_permit(g.sessions[j]));
        }
    }
}

/// At most one session holds the slot, and so at most one backend call is in
/// flight, however many requests there are.
pub proof fn lemma_at_most_one_in_flight(g: Gateway, a: nat, b: nat)
    requires
        gateway_inv(g),
        g.sessions.contains_key(a),
        g.sessions.contains_key(b),
        holds_permit(g.sessions[a]),
        holds_permit(g.sessions[b]),
    ensures
        a == b,
{
}

/// A session that holds the slot gives it back on every path: each event it
/// takes in brings it closer to the end, and the event that ends it, a
/// transport failure included, frees the slot for a waiting session.
pub proof fn lemma_release_on_every_path(g: Gateway, id: nat, e: Event, waiting: nat)
    requires
        gateway_inv(g),
        can_deliver(g, id, e),
        holds_permit(g.sessions[id]),
        g.sessions.contains_key(waiting),
        g.sessions[waiting] is AwaitingPermit,
    ensures
        remaining_steps(deliver(g, id, e).sessions[id]) < remaining_steps(g.sessions[id]),
        e is SendFailed ==> deliver(g, id, e).sessions[id] is Finished,
        deliver(g, id, e).sessions[id] is Finished ==> deliver(g, id, e).holder is None
            && can_deliver(deliver(g, id, e), waiting, Event::PermitGranted),
        !(deliver(g, id, e).sessions[id] is Finished) ==> holds_permit(
            deliver(g, id, e).sessions[id],
        ),
{
    assert(waiting != id);
}

/// One thing that happens at the gateway.
pub enum Happening {
    /// Request `id` arrives.
    Arrival(nat),
    /// Session `id` takes in an event.
    Delivery(nat, Event),
}

/// Whether `h` can happen in `g`: a new request number, or an event that its
/// session can take in.
pub open spec fn can_happen(g: Gateway, h: Happening) -> bool {
    match h {
        Happening::Arrival(id) => !g.sessions.contains_key(id),
        Happening::Delivery(id, e) => can_deliver(g, id, e),
    }
}

/// The gateway after `h`.
pub open spec fn happen(g: Gateway, h: Happening) -> Gateway {
    match h {
        Happening::Arrival(id) => arrive(g, id),
        Happening::Delivery(id, e) => deliver(g, id, e),
    }
}

/// Whether every one of `hs` can happen in turn from `g`.
pub open spec fn valid_run(g: Gateway, hs: Seq<Happening>) -> bool
    decreases hs.len(),
{
    hs.len() == 0 || (can_happen(g, hs[0]) && valid_run(happen(g, hs[0]), hs.drop_first()))
}

/// The gateway after `hs`, one after another.
pub open spec fn run(g: Gateway, hs: Seq<Happening>) -> Gateway
    decreases hs.len(),
{
    if hs.len() == 0 {
        g
    } else {
        run(happen(g, hs[0]), hs.drop_first())
    }
}

/// The slot's invariant holds after every run that starts from it.
pub proof fn lemma_run_preserves_inv(g: Gateway, hs: Seq<Happening>)
    requires
        gateway_inv(g),
        valid_run(g, hs),
    ensures
        gateway_inv(run(g, hs)),
    decreases hs.len(),
{
    if hs.len() > 0 {
        match hs[0] {
            Happening::Arrival(id) => lemma_arrive_preserves_inv(g, id),
            Happening::Delivery(id, e) => lemma_deliver_preserves_inv(g, id, e),
        }
        lemma_run_preserves_inv(happen(g, hs[0]), hs.drop_first());
    }
}

/// However many requests arrive and however their events interleave, at
/// every point at most one session holds the slot, and so at most one
/// backend call is in flight.
pub proof fn lemma_every_run_at_most_one_in_flight(hs: Seq<Happening>, a: nat, b: nat)
    requires
        valid_run(empty_gateway(), hs),
        run(empty_gateway(), hs).sessions.contains_key(a),
        run(empty_gateway(), hs).sessions.contains_key(b),
        holds_permit(run(empty_gateway(), hs).sessions[a]),
        holds_permit(run(empty_gateway(), hs).sessions[b]),
    ensures
        a == b,
{
    lemma_empty_gateway_inv();
    lemma_run_preserves_inv(empty_gateway(), hs);
    lemma_at_most_one_in_flight(run(empty_gateway(), hs), a, b);
}

} // verus!
