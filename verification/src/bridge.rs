//! The request/response bridge: envelopes, response delivery, and a model of
//! the admission protocol.
//!
//! Many concurrent caller tasks submit envelopes into one unbounded
//! multi-producer/single-consumer queue; the sole consumer is the worker
//! loop on its dedicated thread. Each envelope pairs a command with a
//! single-use responder through which exactly one result travels back.
//!
//! The queue and the worker's receive loop themselves run outside the
//! library; `BridgeModel` states their protocol — FIFO admission,
//! dispatch that never waits on a running handler, and silent abandonment —
//! and the lemmas below prove those properties of it.

use vstd::prelude::*;

use crate::command::NetworkCommand;
use crate::command::NetworkResponse;
use crate::fault::CauseChain;

verus! {

#[verifier::external_type_specification]
#[verifier::external_body]
#[verifier::reject_recursive_types(T)]
pub struct ExOneshotSender<T>(tokio::sync::oneshot::Sender<T>);

/// The single-use completion slot a caller waits on: exactly one value may
/// be sent into it, and sending consumes the sender, so a second delivery
/// for the same request cannot even be expressed.
pub type TokioResponder = tokio::sync::oneshot::Sender<Result<NetworkResponse, CauseChain>>;

/// Relies on tokio's `oneshot::Sender::send`: it returns `Ok(())` when the
/// value was placed into the slot, and hands the value back unchanged as
/// `Err` when the receiving half is already gone. Which of the two happens
/// depends on the far side, so only the disjunction is stated.
pub assume_specification<T>[ tokio::sync::oneshot::Sender::<T>::send ](s: tokio::sync::oneshot::Sender<T>, t: T) -> (r: Result<(), T>)
    ensures
        r is Ok || (r matches Err(v) && v == t),
;

/// The request envelope: a command paired with the responder its result
/// must travel back through. Moved, never copied, from the caller into the
/// queue and on to the worker.
pub struct NetworkRequest {
    responder: TokioResponder,
    command: NetworkCommand,
}

impl NetworkRequest {
    pub closed spec fn command_spec(self) -> NetworkCommand {
        self.command
    }

    pub closed spec fn responder_spec(self) -> TokioResponder {
        self.responder
    }

    pub fn new(responder: TokioResponder, command: NetworkCommand) -> (r: NetworkRequest)
        ensures
            r.command_spec() == command,
            r.responder_spec() == responder,
    {
        NetworkRequest { responder, command }
    }

    /// Taken apart by the dispatcher, exactly once per envelope.
    pub fn into_parts(self) -> (r: (TokioResponder, NetworkCommand))
        ensures
            r.0 == self.responder_spec(),
            r.1 == self.command_spec(),
    {
        (self.responder, self.command)
    }
}

/// The tail of execute-and-respond: after the handler has finished, hand its
/// result to the caller through the responder. If the caller has abandoned
/// the request (its receiving half was dropped), the value comes back and is
/// discarded: the worker never fails, blocks or panics merely because a
/// caller stopped listening.
pub fn deliver_result(responder: TokioResponder, result: Result<NetworkResponse, CauseChain>) {
    let _ = responder.send(result);
}

/// The observable state of the bridge: which requests have been admitted to
/// the queue, which the dispatcher has received, which handlers are still
/// running, and which requests their callers have walked away from.
/// Requests are named by the admission ticket they were given.
#[verifier::ext_equal]
pub struct BridgeState {
    /// Every ticket ever admitted, in admission order.
    pub admitted: Seq<u64>,
    /// Every ticket the dispatcher has received, in dispatch order.
    pub dispatched: Seq<u64>,
    /// Admitted tickets the dispatcher has not received yet, oldest first.
    pub pending: Seq<u64>,
    /// Dispatched tickets whose handler has not completed, in spawn order.
    pub running: Seq<u64>,
    /// Tickets whose caller has dropped its receiving half.
    pub abandoned: Set<u64>,
}

/// Tickets are handed out in admission order, starting from zero, and the
/// dispatcher has received exactly the admitted requests it has not left
/// pending.
pub open spec fn bridge_wf(s: BridgeState) -> bool {
    &&& s.admitted == s.dispatched + s.pending
    &&& s.admitted == Seq::new(s.admitted.len(), |i: int| i as u64)
    &&& s.admitted.len() <= u64::MAX
}

/// A caller submits a command: it is admitted at the back of the queue
/// under a fresh ticket.
pub open spec fn spec_submit(s: BridgeState) -> (BridgeState, u64) {
    let id = s.admitted.len() as u64;
    (
        BridgeState {
            admitted: s.admitted.push(id),
            pending: s.pending.push(id),
            ..s
        },
        id,
    )
}

/// The worker receives the oldest pending envelope and spawns its handler.
/// Nothing but the queue's head is consulted: in particular, handlers still
/// running do not gate this step.
pub open spec fn spec_dispatch(s: BridgeState) -> (BridgeState, u64) {
    let id = s.pending[0];
    (
        BridgeState {
            pending: s.pending.drop_first(),
            dispatched: s.dispatched.push(id),
            running: s.running.push(id),
            ..s
        },
        id,
    )
}

pub open spec fn dispatch_enabled(s: BridgeState) -> bool {
    s.pending.len() > 0
}

/// The handler of the running request at position `i` finishes and its
/// delivery is attempted. Whether the caller is still listening plays no
/// part in this step.
pub open spec fn spec_complete(s: BridgeState, i: int) -> BridgeState {
    BridgeState { running: s.running.remove(i), ..s }
}

pub open spec fn complete_enabled(s: BridgeState, i: int) -> bool {
    0 <= i < s.running.len()
}

/// A caller drops its receiving half. No other part of the state moves.
pub open spec fn spec_abandon(s: BridgeState, id: u64) -> BridgeState {
    BridgeState { abandoned: s.abandoned.insert(id), ..s }
}

/// FIFO admission: in any well-formed bridge state the dispatcher has
/// received exactly the oldest admitted requests, in admission order, and
/// the next envelope it receives is the oldest one still pending.
pub proof fn fifo_admission(s: BridgeState)
    requires
        bridge_wf(s),
    ensures
        s.dispatched =~= s.admitted.take(s.dispatched.len() as int),
        forall|i: int| 0 <= i < s.dispatched.len() ==> s.dispatched[i] == s.admitted[i],
        dispatch_enabled(s) ==> spec_dispatch(s).1 == s.admitted[s.dispatched.len() as int],
{
    assert(s.dispatched =~= s.admitted.take(s.dispatched.len() as int));
}

/// Non-blocking dispatch: with two commands pending, both are dispatched
/// back to back, in admission order, without any handler having to complete
/// in between — the running set only grows, and a slow handler admitted
/// first cannot delay the dispatch of the command behind it.
pub proof fn nonblocking_dispatch(s: BridgeState)
    requires
        bridge_wf(s),
        s.pending.len() >= 2,
    ensures
        dispatch_enabled(s),
        dispatch_enabled(spec_dispatch(s).0),
        spec_dispatch(spec_dispatch(s).0).1 == s.pending[1],
        spec_dispatch(s).1 == s.pending[0],
        spec_dispatch(spec_dispatch(s).0).0.dispatched =~= s.dispatched + seq![
            s.pending[0],
            s.pending[1],
        ],
        spec_dispatch(spec_dispatch(s).0).0.running =~= s.running + seq![
            s.pending[0],
            s.pending[1],
        ],
        bridge_wf(spec_dispatch(spec_dispatch(s).0).0),
{
    let s1 = spec_dispatch(s).0;
    let s2 = spec_dispatch(s1).0;
    assert(s1.admitted =~= s1.dispatched + s1.pending);
    assert(s2.admitted =~= s2.dispatched + s2.pending);
    assert(s2.dispatched =~= s.dispatched + seq![s.pending[0], s.pending[1]]);
    assert(s2.running =~= s.running + seq![s.pending[0], s.pending[1]]);
}

/// Abandonment is silent: a caller dropping its receiving half neither
/// disables the completion of the handler it was waiting for nor changes
/// what that completion does to the bridge — the two steps commute.
pub proof fn abandonment_is_silent(s: BridgeState, id: u64, i: int)
    requires
        bridge_wf(s),
        complete_enabled(s, i),
    ensures
        complete_enabled(spec_abandon(s, id), i),
        spec_complete(spec_abandon(s, id), i) == spec_abandon(spec_complete(s, i), id),
        bridge_wf(spec_complete(spec_abandon(s, id), i)),
{
}

/// An executable bridge ledger: what the worker side tracks of the protocol
/// above. Its operations refine the specification steps one for one.
pub struct BridgeModel {
    next_id: u64,
    pending: Vec<u64>,
    running: Vec<u64>,
    dispatched: Ghost<Seq<u64>>,
    abandoned: Ghost<Set<u64>>,
}

impl View for BridgeModel {
    type V = BridgeState;

    closed spec fn view(&self) -> BridgeState {
        BridgeState {
            admitted: Seq::new(self.next_id as nat, |i: int| i as u64),
            dispatched: self.dispatched@,
            pending: self.pending@,
            running: self.running@,
            abandoned: self.abandoned@,
        }
    }
}

impl BridgeModel {
    pub fn new() -> (m: BridgeModel)
        ensures
            bridge_wf(m@),
            m@.admitted =~= Seq::<u64>::empty(),
            m@.running =~= Seq::<u64>::empty(),
            m@.abandoned =~= Set::<u64>::empty(),
    {
        let m = BridgeModel {
            next_id: 0,
            pending: Vec::new(),
            running: Vec::new(),
            dispatched: Ghost(Seq::empty()),
            abandoned: Ghost(Set::empty()),
        };
        proof {
            assert(m@.admitted =~= Seq::<u64>::empty());
            assert(m@.dispatched + m@.pending =~= Seq::<u64>::empty());
        }
        m
    }

    /// Admit one more command, handing back its fresh ticket.
    pub fn submit(&mut self) -> (id: u64)
        requires
            bridge_wf(old(self)@),
            old(self)@.admitted.len() < u64::MAX,
        ensures
            bridge_wf(final(self)@),
            (final(self)@, id) == spec_submit(old(self)@),
            !old(self)@.admitted.contains(id),
    {
        let id = self.next_id;
        self.next_id = self.next_id + 1;
        self.pending.push(id);
        proof {
            assert(self@ =~= spec_submit(old(self)@).0);
            assert forall|j: int| 0 <= j < old(self)@.admitted.len() implies old(
                self,
            )@.admitted[j] != id by {
                assert(old(self)@.admitted[j] == j as u64);
            }
        }
        id
    }

    /// Receive the oldest pending envelope. Only the queue is consulted:
    /// the precondition says nothing of `running`.
    pub fn dispatch_front(&mut self) -> (id: u64)
        requires
            bridge_wf(old(self)@),
            dispatch_enabled(old(self)@),
        ensures
            bridge_wf(final(self)@),
            (final(self)@, id) == spec_dispatch(old(self)@),
            id == old(self)@.admitted[old(self)@.dispatched.len() as int],
    {
        let id = self.pending.remove(0);
        self.running.push(id);
        proof {
            self.dispatched@ = self.dispatched@.push(id);
            assert(self@.pending =~= spec_dispatch(old(self)@).0.pending);
            assert(self@ =~= spec_dispatch(old(self)@).0);
            assert(self@.admitted =~= self@.dispatched + self@.pending);
        }
        id
    }

    /// The running handler at position `i` finishes. Whether its caller is
    /// still listening plays no part: the precondition says nothing of
    /// `abandoned`.
    pub fn complete(&mut self, i: usize) -> (id: u64)
        requires
            bridge_wf(old(self)@),
            complete_enabled(old(self)@, i as int),
        ensures
            bridge_wf(final(self)@),
            final(self)@ == spec_complete(old(self)@, i as int),
            id == old(self)@.running[i as int],
    {
        let id = self.running.remove(i);
        proof {
            assert(self@ =~= spec_complete(old(self)@, i as int));
        }
        id
    }

    /// A caller walks away from the request with the given ticket.
    pub fn abandon(&mut self, id: u64)
        requires
            bridge_wf(old(self)@),
        ensures
            bridge_wf(final(self)@),
            final(self)@ == spec_abandon(old(self)@, id),
    {
        proof {
            self.abandoned@ = self.abandoned@.insert(id);
            assert(self@ =~= spec_abandon(old(self)@, id));
        }
    }
}

} // verus!
