//! Laws relating several operations of the library.

use vstd::prelude::*;
use libp2p::Multiaddr;
use crate::assembly::{planned, StepView};
use crate::bridge::{slot_after_install, submit_result, BridgeError, Command};
use crate::config::{endpoint_text, RoleDescriptor};
use crate::event_loop::{bumped, Action, CloseCause, LoopInput, LoopState, NetEvent};

verus! {

/// Every endpoint of a node is bound, in order, before the node enters its
/// event loop, and the loop is entered once, last.
pub proof fn law_listens_precede_loop(d: RoleDescriptor, topic: Seq<char>)
    ensures
        ({
            let p = planned(d, topic);
            &&& p.last() == StepView::RunLoop
            &&& forall|j: int| 0 <= j < p.len() - 1 ==> !(#[trigger] p[j] is RunLoop)
            &&& forall|i: int|
                0 <= i < d.endpoints@.len() ==> i + 1 < p.len() - 1 && #[trigger] p[i + 1] == StepView::Listen(
                    endpoint_text(d.endpoints@[i]),
                )
        }),
{
    let p = planned(d, topic);
    let n = d.endpoints@.len();
    assert forall|j: int| 0 <= j < p.len() - 1 implies !(#[trigger] p[j] is RunLoop) by {
        if 1 <= j <= n {
            assert(p[j] == StepView::Listen(endpoint_text(d.endpoints@[j - 1])));
        }
    }
}

/// Before a bridge is installed every submission fails with `NotReady`,
/// whatever the channel would have answered. Once installed, a submission
/// succeeds exactly when the channel took the command and otherwise fails with
/// `Closed`: no command is dropped without a reported failure.
pub proof fn law_submit_outcomes(accepted: bool)
    ensures
        submit_result(false, accepted) == Err::<(), BridgeError>(BridgeError::NotReady),
        submit_result(true, accepted) is Ok <==> accepted,
        !accepted ==> submit_result(true, accepted) == Err::<(), BridgeError>(BridgeError::Closed),
{
}

/// A second install never replaces the first sender: after any number of
/// later attempts the slot still holds the sender installed first.
pub proof fn law_install_keeps_first<S>(first: S, later: Seq<S>)
    ensures
        later.fold_left(slot_after_install(None, first), |slot: Option<S>, s: S| slot_after_install(slot, s))
            == Some(first),
    decreases later.len(),
{
    let f = |slot: Option<S>, s: S| slot_after_install(slot, s);
    if later.len() > 0 {
        law_install_keeps_first(first, later.drop_last());
        assert(later.fold_left(slot_after_install(None, first), f) == f(
            later.drop_last().fold_left(slot_after_install(None, first), f),
            later.last(),
        ));
    }
}

/// A dial, then the connection it opens, then that connection's close, give
/// exactly one dial request, one "established" report naming the peer and one
/// "closed" report carrying the cause, each counted once.
pub proof fn law_dial_round_trip(
    s: LoopState,
    address: Multiaddr,
    peer: String,
    remote: String,
    cause: CloseCause,
)
    requires
        !s.terminated(),
    ensures
        ({
            let i1 = LoopInput::Host(Command::Dial(address));
            let i2 = LoopInput::Network(NetEvent::Established { peer, remote });
            let i3 = LoopInput::Network(NetEvent::Closed { peer, cause });
            let s1 = s.after(i1);
            let s2 = s1.after(i2);
            let s3 = s2.after(i3);
            &&& s.reaction(i1) == Some(Action::Dial(address))
            &&& s1.reaction(i2) == Some(Action::Report(NetEvent::Established { peer, remote }))
            &&& s2.reaction(i3) == Some(Action::Report(NetEvent::Closed { peer, cause }))
            &&& s3.stats.dials == bumped(s.stats.dials)
            &&& s3.stats.established == bumped(s.stats.established)
            &&& s3.stats.closed == bumped(s.stats.closed)
            &&& s3.stats.delivered == s.stats.delivered
            &&& !s3.terminated()
        }),
{
}

/// Termination is final: once both sources are exhausted, no input yields an
/// action or changes the state.
pub proof fn law_terminated_is_final(s: LoopState, input: LoopInput)
    requires
        s.terminated(),
    ensures
        s.reaction(input) is None,
        s.after(input) == s,
{
}

/// The loop asks to stop exactly on the input that exhausts its last open
/// source; every other input leaves it running or already stopped.
pub proof fn law_stop_exactly_at_exhaustion(s: LoopState, input: LoopInput)
    ensures
        (s.reaction(input) == Some(Action::Stop)) <==> (!s.terminated() && s.after(input).terminated()),
{
}

/// Failed dials, failed publishes, connection errors and failed probes are
/// absorbed: the loop keeps running after them.
pub proof fn law_failures_keep_running(s: LoopState, input: LoopInput)
    requires
        !s.terminated(),
        input is DialOutcome || input is PublishOutcome || input is Network,
    ensures
        !s.after(input).terminated(),
        s.reaction(input) != Some(Action::Stop),
{
}

/// No count ever decreases.
pub proof fn law_counts_never_decrease(s: LoopState, input: LoopInput)
    ensures
        ({
            let t = s.after(input).stats;
            &&& t.listening >= s.stats.listening
            &&& t.established >= s.stats.established
            &&& t.closed >= s.stats.closed
            &&& t.delivered >= s.stats.delivered
            &&& t.dials >= s.stats.dials
            &&& t.publishes >= s.stats.publishes
            &&& t.probes_ok >= s.stats.probes_ok
            &&& t.probes_failed >= s.stats.probes_failed
        }),
{
}

} // verus!
