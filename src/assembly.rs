//! The order in which a node is assembled and started from its descriptor.

use vstd::prelude::*;
use crate::config::{RoleDescriptor, ListenEndpoint, endpoint_address, endpoint_text};

verus! {

/// One start-up step; any failure while performing one is fatal.
#[derive(Clone, Debug, PartialEq, Eq)]
pub enum StartupStep {
    /// Subscribe the gossip behaviour to the topic.
    Subscribe(String),
    /// Bind the transport to the multiaddress.
    Listen(String),
    /// Start the HTTP health-check responder on the port.
    ServeHealth(u16),
    /// Enter the event loop.
    RunLoop,
}

/// A start-up step with its text as characters.
pub enum StepView {
    Subscribe(Seq<char>),
    Listen(Seq<char>),
    ServeHealth(u16),
    RunLoop,
}

impl View for StartupStep {
    type V = StepView;

    open spec fn view(&self) -> StepView {
        match self {
            StartupStep::Subscribe(t) => StepView::Subscribe(t@),
            StartupStep::Listen(a) => StepView::Listen(a@),
            StartupStep::ServeHealth(p) => StepView::ServeHealth(*p),
            StartupStep::RunLoop => StepView::RunLoop,
        }
    }
}

/// The listen steps for a sequence of endpoints, in order.
pub open spec fn listen_steps(eps: Seq<ListenEndpoint>) -> Seq<StepView> {
    eps.map_values(|ep: ListenEndpoint| StepView::Listen(endpoint_text(ep)))
}

/// The start-up sequence of a node: subscribe, bind every endpoint in order,
/// start the health responder if the role has one, then run the loop.
pub open spec fn planned(d: RoleDescriptor, topic: Seq<char>) -> Seq<StepView> {
    seq![StepView::Subscribe(topic)] + listen_steps(d.endpoints@) + match d.health_port {
        Some(p) => seq![StepView::ServeHealth(p)],
        None => Seq::<StepView>::empty(),
    } + seq![StepView::RunLoop]
}

/// Lays out the start-up sequence of a node described by `d`.
pub fn startup_plan(d: &RoleDescriptor, topic: &String) -> (r: Vec<StartupStep>)
    ensures
        r@.len() == planned(*d, topic@).len(),
        forall|i: int| 0 <= i < r@.len() ==> #[trigger] r@[i]@ == planned(*d, topic@)[i],
{
    let mut r: Vec<StartupStep> = Vec::new();
    r.push(StartupStep::Subscribe(topic.clone()));
    let n = d.endpoints.len();
    let mut i: usize = 0;
    while i < n
        invariant
            n == d.endpoints@.len(),
            i <= n,
            r@.len() == 1 + i,
            r@[0]@ == StepView::Subscribe(topic@),
            forall|k: int| 0 <= k < i ==> #[trigger] r@[k + 1]@ == StepView::Listen(endpoint_text(d.endpoints@[k])),
        decreases n - i,
    {
        let a = endpoint_address(&d.endpoints[i]);
        r.push(StartupStep::Listen(a));
        i = i + 1;
    }
    match d.health_port {
        Some(p) => r.push(StartupStep::ServeHealth(p)),
        None => {},
    }
    r.push(StartupStep::RunLoop);
    proof {
        let p = planned(*d, topic@);
        assert forall|i: int| 0 <= i < r@.len() implies #[trigger] r@[i]@ == p[i] by {
            if 1 <= i <= n {
                assert(r@[(i - 1) + 1]@ == StepView::Listen(endpoint_text(d.endpoints@[i - 1])));
            }
        }
    }
    r
}

} // verus!
