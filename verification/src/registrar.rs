//! Instance registration: the batch of discovery records this process
//! submits, one per configured host, and what a submission failure means.
//! Discovery visibility is best-effort: the process keeps serving locally
//! even when registration fails.

use vstd::prelude::*;

verus! {

/// One discovery record: an endpoint this process listens on. Every record
/// of a registration cycle carries the same port and a unit weight; the
/// discovery wire format carries the weight as 1.0.
#[derive(Clone, Debug)]
pub struct ServiceInstance {
    pub ip: String,
    pub port: u16,
    pub weight: u32,
}

/// Builds the batch submitted to discovery: one record per host, in the
/// order the hosts are configured, all with the same port and unit weight.
pub fn build_instances(hosts: &Vec<String>, port: u16) -> (r: Vec<ServiceInstance>)
    ensures
        r@.len() == hosts@.len(),
        forall|i: int|
            0 <= i < r@.len() ==> r@[i].ip@ == hosts@[i]@ && r@[i].port == port && r@[i].weight
                == 1,
{
    let n = hosts.len();
    let mut out: Vec<ServiceInstance> = Vec::new();
    let mut i: usize = 0;
    while i < n
        invariant
            i <= n,
            n == hosts@.len(),
            out@.len() == i as int,
            forall|j: int|
                0 <= j < i ==> out@[j].ip@ == hosts@[j]@ && out@[j].port == port && out@[j].weight
                    == 1,
        decreases n - i,
    {
        let instance = ServiceInstance { ip: hosts[i].clone(), port, weight: 1 };
        out.push(instance);
        i = i + 1;
    }
    out
}

/// Whether this process is visible to discovery after submitting the
/// batch. A failed submission is non-fatal: the caller gets a state, never
/// a fault, and the process continues serving.
#[derive(Clone, Copy, PartialEq, Eq, Structural, Debug)]
pub enum DiscoveryVisibility {
    Visible,
    Degraded,
}

pub fn registration_state(submitted: bool) -> (s: DiscoveryVisibility)
    ensures
        s == (if submitted {
            DiscoveryVisibility::Visible
        } else {
            DiscoveryVisibility::Degraded
        }),
{
    if submitted {
        DiscoveryVisibility::Visible
    } else {
        DiscoveryVisibility::Degraded
    }
}

/// What the discovery-event reactor does with a delivered membership or
/// health event: the event is recorded and nothing else happens. This is
/// a placeholder extension point for health-driven behavior.
#[derive(Clone, Copy, PartialEq, Eq, Structural, Debug)]
pub enum DiscoveryAction {
    LogOnly,
}

/// The discovery-event callback: it takes no action on event content.
pub struct SimpleNamingEventListener;

impl SimpleNamingEventListener {
    pub fn event(&self) -> (a: DiscoveryAction)
        ensures
            a == DiscoveryAction::LogOnly,
    {
        DiscoveryAction::LogOnly
    }
}

} // verus!
