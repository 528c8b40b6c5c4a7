//! The event-driven manifest synthesizer: from the payload of a connection
//! lifecycle event, derive the canonical service manifest — name, labels,
//! selector and port — or the deletion key for its teardown, and interpret
//! the applier's outcome as the handler's own.

use vstd::prelude::*;
use vstd::string::*;
use crate::engine::ApplyPlan;
use crate::errors::{CallerError, HandlerError};
use crate::manifest::{DeleteRequest, ManifestHead, TypeHead};
use crate::numbers::{addr_port_spec, parse_addr_port, parse_i32, parse_i32_spec};
use crate::outcome::OperationResponse;
use crate::settings::{get_value, lookup_value};
use crate::strtools::{lower_of, lowercase};

verus! {

/// The payload of a connection lifecycle event: the link's identifiers and
/// the caller-supplied key/value configuration, keys already normalized to
/// lowercase.
#[derive(Clone, Debug, PartialEq, Eq)]
pub struct LinkSettings {
    /// The actor identifier of the link.
    pub actor_id: String,
    /// The provider identifier of the link.
    pub provider_id: String,
    /// The link's name.
    pub link_name: String,
    /// The caller-supplied configuration values, keys lowercased.
    pub values: Vec<(String, String)>,
}

/// One port entry of a synthesized service manifest.
#[derive(Clone, Debug, PartialEq, Eq)]
pub struct ServicePortSpec {
    /// The transport protocol.
    pub protocol: String,
    /// The service port.
    pub port: i32,
    /// The target port behind the service.
    pub target_port: i32,
}

/// The canonical manifest the synthesizer derives from an establishment
/// event: name, labels, selector, and a single port entry.
#[derive(Clone, Debug, PartialEq, Eq)]
pub struct ServiceManifest {
    /// The service name: the lowercased actor identifier.
    pub name: String,
    /// The identifying labels, in canonical order.
    pub labels: Vec<(String, String)>,
    /// The pod selector: the fixed routing label.
    pub selector: Vec<(String, String)>,
    /// The port entries; always exactly one.
    pub ports: Vec<ServicePortSpec>,
}

/// The contract identifier whose lifecycle events this synthesizer acts on.
pub fn expected_contract() -> (r: &'static str)
    ensures
        r@ == "wasmcloud:httpserver"@,
{
    "wasmcloud:httpserver"
}

/// The short form of the contract identifier carried in the manifest's
/// contract label is its part after the colon: the full identifier is not
/// a legal label value.
pub proof fn lemma_contract_short_form()
    ensures
        exists|i: int|
            {
                &&& 0 <= i < "wasmcloud:httpserver"@.len()
                &&& #[trigger] "wasmcloud:httpserver"@[i] == ':'
                &&& forall|j: int|
                    i < j < "wasmcloud:httpserver"@.len() ==> "wasmcloud:httpserver"@[j] != ':'
                &&& "httpserver"@ == "wasmcloud:httpserver"@.subrange(
                    i + 1,
                    "wasmcloud:httpserver"@.len() as int,
                )
            },
{
    reveal_strlit("wasmcloud:httpserver");
    reveal_strlit("httpserver");
    let full = "wasmcloud:httpserver"@;
    let w = 9int;
    assert(full[w] == ':');
    assert(forall|j: int| w < j < full.len() ==> full[j] != ':');
    assert("httpserver"@ =~= full.subrange(w + 1, full.len() as int));
    assert({
        &&& 0 <= w < full.len()
        &&& full[w] == ':'
        &&& forall|j: int| w < j < full.len() ==> full[j] != ':'
        &&& "httpserver"@ == full.subrange(w + 1, full.len() as int)
    });
}

/// How the desired port derives from the configuration values: an explicit
/// `port` value if there is one, else the port of an `address` value, else
/// the conventional default of 8080.
pub open spec fn derived_port_spec(values: Seq<(String, String)>) -> Result<int, CallerError> {
    match lookup_value(values, "port"@) {
        Some(p) => match parse_i32_spec(p) {
            Some(v) => Ok(v),
            None => Err(CallerError::MalformedPort),
        },
        None => match lookup_value(values, "address"@) {
            Some(a) => match addr_port_spec(a) {
                Some(v) => Ok(v),
                None => Err(CallerError::MalformedAddress),
            },
            None => Ok(8080),
        },
    }
}

/// Derive the desired port from the configuration values.
pub fn derive_port(values: &Vec<(String, String)>) -> (r: Result<i32, CallerError>)
    ensures
        derived_port_spec(values@) matches Ok(v) ==> (r matches Ok(x) && x as int == v),
        derived_port_spec(values@) matches Err(e) ==> r == Err::<i32, CallerError>(e),
{
    if let Some(p) = get_value(values, "port") {
        return match parse_i32(p.as_str()) {
            Some(v) => Ok(v),
            None => Err(CallerError::MalformedPort),
        };
    }
    if let Some(a) = get_value(values, "address") {
        return match parse_addr_port(a.as_str()) {
            Some(v) => Ok(v as i32),
            None => Err(CallerError::MalformedAddress),
        };
    }
    Ok(8080)
}

/// How a synthesized manifest corresponds to the event payload it came
/// from: the name is the lowercased actor identifier, the labels carry the
/// link's identifiers and the contract's short form under the fixed label
/// prefix, the selector is the fixed routing label, and the one port entry
/// uses the derived port for both the service port and the target port.
pub open spec fn manifest_matches(m: ServiceManifest, ld: LinkSettings, port: int) -> bool {
    &&& m.name@ == lower_of(ld.actor_id@)
    &&& m.labels@.len() == 4
    &&& m.labels@[0].0@ == "wasmcloud.dev/actor-id"@ && m.labels@[0].1 == ld.actor_id
    &&& m.labels@[1].0@ == "wasmcloud.dev/contract"@ && m.labels@[1].1@ == "httpserver"@
    &&& m.labels@[2].0@ == "wasmcloud.dev/link-name"@ && m.labels@[2].1 == ld.link_name
    &&& m.labels@[3].0@ == "wasmcloud.dev/provider-id"@ && m.labels@[3].1 == ld.provider_id
    &&& m.selector@.len() == 1
    &&& m.selector@[0].0@ == "wasmcloud.dev/route-to"@ && m.selector@[0].1@ == "true"@
    &&& m.ports@.len() == 1
    &&& m.ports@[0].protocol@ == "TCP"@
    &&& m.ports@[0].port as int == port
    &&& m.ports@[0].target_port as int == port
}

/// Build the canonical service manifest for an established link: fails
/// only when the configured port value is malformed.
pub fn synthesize_service(ld: &LinkSettings) -> (r: Result<ServiceManifest, CallerError>)
    ensures
        derived_port_spec(ld.values@) matches Err(e) ==> r == Err::<ServiceManifest, CallerError>(
            e,
        ),
        derived_port_spec(ld.values@) matches Ok(p) ==> ({
            &&& r matches Ok(m)
            &&& manifest_matches(m, *ld, p)
            &&& (m.name@.len() == 0 <==> ld.actor_id@.len() == 0)
        }),
{
    let port = match derive_port(&ld.values) {
        Ok(p) => p,
        Err(e) => {
            return Err(e);
        },
    };
    let name = lowercase(ld.actor_id.as_str());
    let mut labels: Vec<(String, String)> = Vec::new();
    labels.push((String::from_str("wasmcloud.dev/actor-id"), ld.actor_id.clone()));
    labels.push((String::from_str("wasmcloud.dev/contract"), String::from_str("httpserver")));
    labels.push((String::from_str("wasmcloud.dev/link-name"), ld.link_name.clone()));
    labels.push((String::from_str("wasmcloud.dev/provider-id"), ld.provider_id.clone()));
    let mut selector: Vec<(String, String)> = Vec::new();
    selector.push((String::from_str("wasmcloud.dev/route-to"), String::from_str("true")));
    let mut ports: Vec<ServicePortSpec> = Vec::new();
    ports.push(ServicePortSpec { protocol: String::from_str("TCP"), port, target_port: port });
    Ok(ServiceManifest { name, labels, selector, ports })
}

/// Build the deletion key for a torn-down link: the fixed service type
/// triple, the same derived name, and the session's default namespace.
pub fn synthesize_delete(ld: &LinkSettings) -> (r: DeleteRequest)
    ensures
        r.group@.len() == 0,
        r.kind@ == "Service"@,
        r.version@ == "v1"@,
        r.name@ == lower_of(ld.actor_id@),
        r.namespace is None,
{
    DeleteRequest {
        group: String::new(),
        kind: String::from_str("Service"),
        name: lowercase(ld.actor_id.as_str()),
        namespace: None,
        version: String::from_str("v1"),
    }
}

/// The head a synthesized manifest presents to the applier engine: its
/// name, no namespace, and the fixed service type.
pub fn manifest_head(m: &ServiceManifest) -> (r: ManifestHead)
    ensures
        r.name == Some(m.name),
        r.namespace is None,
        r.type_head matches Some(t) && t.api_version@ == "v1"@ && t.kind@ == "Service"@,
{
    ManifestHead {
        name: Some(m.name.clone()),
        namespace: None,
        type_head: Some(
            TypeHead { api_version: String::from_str("v1"), kind: String::from_str("Service") },
        ),
    }
}

/// Synthesize the manifest for an established link and plan its apply in
/// one step. The plan always passes the engine's own validation, except
/// when the actor identifier is empty — then there is no name to act
/// under, and the engine's caller error is surfaced unchanged.
pub fn synthesize_apply(ld: &LinkSettings) -> (r: Result<(ServiceManifest, ApplyPlan), CallerError>)
    ensures
        derived_port_spec(ld.values@) matches Err(e) ==> r == Err::<
            (ServiceManifest, ApplyPlan),
            CallerError,
        >(e),
        derived_port_spec(ld.values@) is Ok && ld.actor_id@.len() == 0 ==> r == Err::<
            (ServiceManifest, ApplyPlan),
            CallerError,
        >(CallerError::MissingName),
        derived_port_spec(ld.values@) matches Ok(p) ==> ld.actor_id@.len() > 0 ==> ({
            &&& r matches Ok((m, plan))
            &&& manifest_matches(m, *ld, p)
            &&& plan.name@ == lower_of(ld.actor_id@)
            &&& plan.locator.kind@ == "Service"@
            &&& plan.locator.version@ == "v1"@
            &&& plan.locator.group@.len() == 0
            &&& plan.locator.namespace is None
        }),
{
    let m = match synthesize_service(ld) {
        Ok(m) => m,
        Err(e) => {
            return Err(e);
        },
    };
    let head = manifest_head(&m);
    proof {
        assert(!"v1"@.contains('/')) by {
            reveal_strlit("v1");
            if "v1"@.contains('/') {
                let i = choose|i: int| 0 <= i < "v1"@.len() && "v1"@[i] == '/';
                assert("v1"@[0] == 'v' && "v1"@[1] == '1');
            }
        }
    }
    match crate::engine::plan_apply(&head) {
        Ok(plan) => {
            proof {
                let t = head.type_head->Some_0;
                assert(crate::manifest::splits_api_version(
                    t.api_version@,
                    plan.locator.group@,
                    plan.locator.version@,
                ));
            }
            Ok((m, plan))
        },
        Err(e) => Err(e),
    }
}

/// Interpret the applier's outcome as the handler's: an unsucceeded apply
/// or delete while reacting to a lifecycle event is the handler's error,
/// carrying the outcome's error text, or empty text when there is none.
pub fn conclude_handler(op: &OperationResponse, deleting: bool) -> (r: Result<(), HandlerError>)
    ensures
        op.succeeded ==> r is Ok,
        !op.succeeded && deleting ==> ({
            &&& r matches Err(e)
            &&& e matches HandlerError::DeleteFailed(m)
            &&& m@ == response_error_text(*op)
        }),
        !op.succeeded && !deleting ==> ({
            &&& r matches Err(e)
            &&& e matches HandlerError::ApplyFailed(m)
            &&& m@ == response_error_text(*op)
        }),
{
    if op.succeeded {
        return Ok(());
    }
    let text = match &op.error {
        Some(m) => m.clone(),
        None => String::new(),
    };
    if deleting {
        Err(HandlerError::DeleteFailed(text))
    } else {
        Err(HandlerError::ApplyFailed(text))
    }
}

/// The error text of an outcome, or nothing's text when it carries none.
pub open spec fn response_error_text(op: OperationResponse) -> Seq<char> {
    match op.error {
        Some(m) => m@,
        None => Seq::<char>::empty(),
    }
}

} // verus!
