//! The startup decisions: the fault taxonomy, the single fetch the
//! bootstrap performs, and what each outcome of that fetch means. The
//! process cannot start without its configuration, so fetch and decode
//! faults are fatal; a lost subscription only degrades live reload.

use vstd::prelude::*;
use crate::profile::{resolve_group, resolve_key, resolved};
use crate::types::{Ac, ApplicationModel, Env, NacosConfig};
use crate::yaml::{decode_ac, spec_decode_ac, DecodeError};

verus! {

/// Everything that can go wrong in this layer.
#[derive(Clone, Copy, PartialEq, Eq, Structural, Debug)]
pub enum Fault {
    /// A local profile file is missing or malformed.
    ConfigLoad,
    /// The registry did not hand back the configuration value.
    ConfigFetch,
    /// The fetched payload does not decode into the configuration model.
    ConfigDecode,
    /// Registering a change or event listener failed.
    Subscription,
    /// Submitting the instance batch to discovery failed.
    Registration,
    /// A pushed configuration update failed to decode.
    DecodeOnChange,
}

/// A fatal fault aborts startup; every other fault only degrades one
/// feature and is recorded in the logs.
pub open spec fn spec_is_fatal(f: Fault) -> bool {
    f == Fault::ConfigLoad || f == Fault::ConfigFetch || f == Fault::ConfigDecode
}

impl Fault {
    pub fn is_fatal(&self) -> (b: bool)
        ensures
            b == spec_is_fatal(*self),
    {
        match *self {
            Fault::ConfigLoad => true,
            Fault::ConfigFetch => true,
            Fault::ConfigDecode => true,
            Fault::Subscription => false,
            Fault::Registration => false,
            Fault::DecodeOnChange => false,
        }
    }
}

/// The one request the bootstrap issues against the registry.
#[derive(Clone, Debug)]
pub struct FetchPlan {
    pub server_addr: String,
    pub namespace: String,
    pub key: String,
    pub group: String,
}

/// Computes the fetch the bootstrap performs: the placeholder token in the
/// configured key is substituted with the active environment name, and the
/// group falls back to the registry's default where none is configured.
pub fn plan_fetch(env: &Env, conf: NacosConfig) -> (p: FetchPlan)
    ensures
        p.key@ == resolved(conf.data_id@, env.profiles.active@),
        match conf.group {
            Some(g) => p.group@ == g@,
            None => p.group@ == "DEFAULT_GROUP"@,
        },
        p.server_addr == conf.server_addr,
        p.namespace == conf.namespace,
{
    let key = resolve_key(conf.data_id.as_str(), env.profiles.active.as_str());
    let group = resolve_group(conf.group);
    FetchPlan { server_addr: conf.server_addr, namespace: conf.namespace, key, group }
}

/// The decision after the one synchronous fetch: no payload is a fatal
/// fetch fault, a payload that does not decode whole is a fatal decode
/// fault, and otherwise the result is exactly the configuration the
/// payload denotes, ready for the application layer. There is no retry.
pub fn on_fetch_result(fetch: Option<String>) -> (r: Result<Ac, Fault>)
    ensures
        fetch is None <==> (r matches Err(f) && f == Fault::ConfigFetch),
        fetch matches Some(t) ==> ((r is Ok <==> spec_decode_ac(t@) is Ok) && (spec_decode_ac(t@)
            is Err ==> (r matches Err(f) && f == Fault::ConfigDecode))),
        fetch matches Some(t) ==> (r matches Ok(ac) ==> spec_decode_ac(t@) == Ok::<
            ApplicationModel,
            DecodeError,
        >(ac.application.model())),
        r matches Err(f) ==> spec_is_fatal(f),
{
    match fetch {
        Some(text) => match decode_ac(text.as_str()) {
            Ok(ac) => Ok(ac),
            Err(_) => Err(Fault::ConfigDecode),
        },
        None => Err(Fault::ConfigFetch),
    }
}

/// Whether live configuration reload is available after attempting to
/// register the change listener. A failed registration is non-fatal: the
/// process continues without live reload.
#[derive(Clone, Copy, PartialEq, Eq, Structural, Debug)]
pub enum LiveReload {
    Live,
    Degraded,
}

pub fn subscription_state(subscribed: bool) -> (s: LiveReload)
    ensures
        s == (if subscribed {
            LiveReload::Live
        } else {
            LiveReload::Degraded
        }),
{
    if subscribed {
        LiveReload::Live
    } else {
        LiveReload::Degraded
    }
}

} // verus!
