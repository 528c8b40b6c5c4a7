//! Connection lifecycle events, received as untyped structured documents.
//! One trusted call decodes a message body and hands over the few fields
//! that matter as plain values; everything after that — the explicit
//! field-presence checks, the event-type and contract gate, and the
//! assembly of the link payload with its keys normalized — is verified,
//! with the routing decision fixed exactly, case by case.

use std::collections::BTreeMap;

use vstd::prelude::*;
use vstd::string::*;
use crate::errors::CallerError;
use crate::strtools::str_eq;
use crate::synth::LinkSettings;

verus! {

/// The `data` payload of one lifecycle event, as plain values. Each field
/// is absent when the payload does not carry it as a string; the values
/// are an error when they are present but not a map of strings.
#[derive(Clone, Debug, PartialEq, Eq)]
pub struct EventData {
    /// The payload's `contract_id`, when present and a string.
    pub contract_id: Option<String>,
    /// The payload's `actor_id`, when present and a string.
    pub actor_id: Option<String>,
    /// The payload's `provider_id`, when present and a string.
    pub provider_id: Option<String>,
    /// The payload's `link_name`, when present and a string.
    pub link_name: Option<String>,
    /// The payload's `values` entry: absent, or its entries with
    /// pairwise-distinct keys, or the decode error when it is present but
    /// not a map of strings.
    pub values: Option<Result<Vec<(String, String)>, String>>,
}

/// The fields of one lifecycle event, as plain values: the top-level type
/// tag, and the `data` payload when there is one.
#[derive(Clone, Debug, PartialEq, Eq)]
pub struct EventFields {
    /// The top-level `type` tag, when present and a string.
    pub event_type: Option<String>,
    /// The `data` payload, when the key is present.
    pub data: Option<EventData>,
}

/// The fields that decoding a message body yields: a pure function of the
/// bytes alone, absent exactly when the bytes are not one structured
/// document.
pub uninterp spec fn event_fields_of(body: Seq<u8>) -> Option<EventFields>;

/// The generic structured-document tree an event arrives as; opaque here,
/// handled only inside the decoding call below.
#[verifier::external_type_specification]
#[verifier::external_body]
pub struct ExValue(serde_json::Value);

/// Relies on `serde_json::Value::as_str`: the string a value holds, when
/// there is a value and it is a string.
#[verifier::external_body]
fn opt_str(x: Option<&serde_json::Value>) -> Option<String> {
    x.and_then(|t| t.as_str()).map(String::from)
}

/// Relies on `serde_json::from_slice`, `Value::{get, as_str}` and
/// `from_value` into an ordered string map: decodes one document and picks
/// the fields above, each `None` when its key is missing or its value not
/// a string, the values entries with pairwise-distinct keys in key order.
/// The result is a pure function of the bytes, absent exactly when they
/// are not one document.
#[verifier::external_body]
fn parse_event(body: &[u8]) -> (r: Result<EventFields, String>)
    ensures
        r matches Ok(f) ==> event_fields_of(body@) == Some(f),
        r is Ok <==> event_fields_of(body@) is Some,
{
    let v: serde_json::Value = serde_json::from_slice(body).map_err(|e| e.to_string())?;
    Ok(EventFields {
        event_type: opt_str(v.get("type")),
        data: v.get("data").map(|d| EventData {
            contract_id: opt_str(d.get("contract_id")),
            actor_id: opt_str(d.get("actor_id")),
            provider_id: opt_str(d.get("provider_id")),
            link_name: opt_str(d.get("link_name")),
            values: d.get("values").map(|w| serde_json::from_value(w.clone())
                .map(|m: BTreeMap<String, String>| m.into_iter().collect())
                .map_err(|e| e.to_string())),
        }),
    })
}

/// Whether `r` is the caller error for a missing event key, naming `key`.
pub open spec fn missing_key(r: Result<EventAction, CallerError>, key: Seq<char>) -> bool {
    match r {
        Err(CallerError::MissingEventKey(k)) => k@ == key,
        _ => false,
    }
}

/// Whether a type tag names the link-establishment event.
pub open spec fn is_established_type(ty: Seq<char>) -> bool {
    ty == "com.wasmcloud.lattice.linkdef_set"@
}

/// Whether a type tag names the link-teardown event.
pub open spec fn is_torn_down_type(ty: Seq<char>) -> bool {
    ty == "com.wasmcloud.lattice.linkdef_deleted"@
}

/// How a normalized configuration list corresponds to a raw one: the same
/// entries in the same order, each key lowercased.
pub open spec fn normalized_keys(raw: Seq<(String, String)>, norm: Seq<(String, String)>) -> bool {
    &&& norm.len() == raw.len()
    &&& forall|i: int|
        0 <= i < raw.len() ==> (#[trigger] norm[i]).0@ == crate::strtools::lower_of(raw[i].0@)
            && norm[i].1 == raw[i].1
}

/// How an assembled link payload corresponds to the event's payload: the
/// three identifiers taken as they are, and the configuration values with
/// their keys normalized — empty when the event carried none.
pub open spec fn linkdef_matches(d: EventData, ld: LinkSettings) -> bool {
    &&& Some(ld.actor_id) == d.actor_id
    &&& Some(ld.provider_id) == d.provider_id
    &&& Some(ld.link_name) == d.link_name
    &&& match d.values {
        None => ld.values@.len() == 0,
        Some(Ok(entries)) => normalized_keys(entries@, ld.values@),
        Some(Err(_)) => false,
    }
}

/// What examining the link payload owes, once the event's type and
/// contract are known to matter: the first missing identifier's error, the
/// decode error of malformed values, or the action of the event's kind
/// carrying the assembled payload.
pub open spec fn linkdef_routed(
    d: EventData,
    ty: Seq<char>,
    r: Result<EventAction, CallerError>,
) -> bool {
    if d.actor_id is None {
        missing_key(r, "actor_id"@)
    } else if d.provider_id is None {
        missing_key(r, "provider_id"@)
    } else if d.link_name is None {
        missing_key(r, "link_name"@)
    } else {
        match d.values {
            Some(Err(m)) => match r {
                Err(CallerError::MalformedEvent(e)) => e == m,
                _ => false,
            },
            _ => match r {
                Ok(EventAction::Apply(ld)) => is_established_type(ty) && linkdef_matches(d, ld),
                Ok(EventAction::Delete(ld)) => is_torn_down_type(ty) && linkdef_matches(d, ld),
                _ => false,
            },
        }
    }
}

/// The routing decision, case by case: a missing or non-string type tag is
/// the caller's error; any type other than establishment or teardown is
/// ignored; for those two, a missing payload or contract is the caller's
/// error, another contract is ignored, and the watched contract leads to
/// the payload examination above.
pub open spec fn routed(f: EventFields, r: Result<EventAction, CallerError>) -> bool {
    match f.event_type {
        None => missing_key(r, "type"@),
        Some(t) => {
            if !is_established_type(t@) && !is_torn_down_type(t@) {
                r == Ok::<EventAction, CallerError>(EventAction::Ignore)
            } else {
                match f.data {
                    None => missing_key(r, "data"@),
                    Some(d) => match d.contract_id {
                        None => missing_key(r, "contract_id"@),
                        Some(c) => if c@ != "wasmcloud:httpserver"@ {
                            r == Ok::<EventAction, CallerError>(EventAction::Ignore)
                        } else {
                            linkdef_routed(d, t@, r)
                        },
                    },
                }
            }
        },
    }
}

/// The event's type tag, or the caller error naming the `type` key.
pub fn event_type_of(f: &EventFields) -> (r: Result<String, CallerError>)
    ensures
        f.event_type matches Some(t) ==> r == Ok::<String, CallerError>(t),
        f.event_type is None ==> ({
            &&& r matches Err(e)
            &&& e matches CallerError::MissingEventKey(k)
            &&& k@ == "type"@
        }),
{
    match &f.event_type {
        Some(t) => Ok(t.clone()),
        None => Err(CallerError::MissingEventKey(String::from_str("type"))),
    }
}

/// The event's target contract identifier, or the caller error naming the
/// first missing key: the `data` payload itself, then `contract_id` in it.
pub fn event_contract_id(f: &EventFields) -> (r: Result<String, CallerError>)
    ensures
        f.data is None ==> ({
            &&& r matches Err(e)
            &&& e matches CallerError::MissingEventKey(k)
            &&& k@ == "data"@
        }),
        f.data matches Some(d) ==> (d.contract_id matches Some(c) ==> r == Ok::<
            String,
            CallerError,
        >(c)),
        f.data matches Some(d) ==> d.contract_id is None ==> ({
            &&& r matches Err(e)
            &&& e matches CallerError::MissingEventKey(k)
            &&& k@ == "contract_id"@
        }),
{
    let data = match &f.data {
        Some(d) => d,
        None => {
            return Err(CallerError::MissingEventKey(String::from_str("data")));
        },
    };
    match &data.contract_id {
        Some(c) => Ok(c.clone()),
        None => Err(CallerError::MissingEventKey(String::from_str("contract_id"))),
    }
}

/// The link payload assembled from the event's `data`, its value keys
/// normalized to lowercase, examined only once the event's type and
/// contract are known to matter; absent values are an empty configuration,
/// and each missing piece maps to its own caller error.
pub fn event_linkdef(d: &EventData) -> (r: Result<LinkSettings, CallerError>)
    ensures
        match r {
            Ok(ld) => !(d.actor_id is None) && !(d.provider_id is None) && !(d.link_name is None)
                && !(d.values matches Some(v) && v is Err) && linkdef_matches(*d, ld),
            Err(e) => if d.actor_id is None {
                e matches CallerError::MissingEventKey(k) && k@ == "actor_id"@
            } else if d.provider_id is None {
                e matches CallerError::MissingEventKey(k) && k@ == "provider_id"@
            } else if d.link_name is None {
                e matches CallerError::MissingEventKey(k) && k@ == "link_name"@
            } else {
                d.values matches Some(v) && v matches Err(m) && e
                    == CallerError::MalformedEvent(m)
            },
        },
{
    let actor_id = match &d.actor_id {
        Some(a) => a.clone(),
        None => {
            return Err(CallerError::MissingEventKey(String::from_str("actor_id")));
        },
    };
    let provider_id = match &d.provider_id {
        Some(p) => p.clone(),
        None => {
            return Err(CallerError::MissingEventKey(String::from_str("provider_id")));
        },
    };
    let link_name = match &d.link_name {
        Some(l) => l.clone(),
        None => {
            return Err(CallerError::MissingEventKey(String::from_str("link_name")));
        },
    };
    let values = match &d.values {
        Some(Ok(entries)) => {
            let normalized = crate::settings::normalize_values(entries);
            proof {
                assert(normalized_keys(entries@, normalized@));
            }
            normalized
        },
        Some(Err(m)) => {
            return Err(CallerError::MalformedEvent(m.clone()));
        },
        None => Vec::new(),
    };
    Ok(LinkSettings { actor_id, provider_id, link_name, values })
}

/// The kinds of lifecycle event the synthesizer distinguishes.
#[derive(Clone, Copy, Debug, PartialEq, Eq)]
pub enum EventKind {
    /// A link was established.
    Established,
    /// A link was torn down.
    TornDown,
    /// Anything else; explicitly ignored, never an error.
    Other,
}

/// Classify an event's type tag.
pub fn classify_event_type(ty: &str) -> (r: EventKind)
    ensures
        r == EventKind::Established <==> is_established_type(ty@),
        r == EventKind::TornDown <==> is_torn_down_type(ty@),
{
    proof {
        assert("com.wasmcloud.lattice.linkdef_set"@ != "com.wasmcloud.lattice.linkdef_deleted"@)
            by {
            reveal_strlit("com.wasmcloud.lattice.linkdef_set");
            reveal_strlit("com.wasmcloud.lattice.linkdef_deleted");
            assert("com.wasmcloud.lattice.linkdef_set"@.len()
                != "com.wasmcloud.lattice.linkdef_deleted"@.len());
        }
    }
    if str_eq(ty, "com.wasmcloud.lattice.linkdef_set") {
        EventKind::Established
    } else if str_eq(ty, "com.wasmcloud.lattice.linkdef_deleted") {
        EventKind::TornDown
    } else {
        EventKind::Other
    }
}

/// What the synthesizer must do about one event.
#[derive(Debug, PartialEq, Eq)]
pub enum EventAction {
    /// An establishment event for the watched contract: apply the manifest
    /// synthesized from this payload.
    Apply(LinkSettings),
    /// A teardown event for the watched contract: delete by the key
    /// synthesized from this payload.
    Delete(LinkSettings),
    /// Any other event type, or another contract: do nothing.
    Ignore,
}

/// Route one event's fields: only an establishment or teardown whose
/// target contract is the watched one leads to work, and only then is the
/// link payload examined; everything else is ignored without error.
pub fn route_fields(f: &EventFields) -> (r: Result<EventAction, CallerError>)
    ensures
        routed(*f, r),
{
    let ty = match event_type_of(f) {
        Ok(t) => t,
        Err(e) => {
            return Err(e);
        },
    };
    let kind = classify_event_type(ty.as_str());
    if matches!(kind, EventKind::Other) {
        return Ok(EventAction::Ignore);
    }
    let contract = match event_contract_id(f) {
        Ok(c) => c,
        Err(e) => {
            return Err(e);
        },
    };
    if !str_eq(contract.as_str(), crate::synth::expected_contract()) {
        return Ok(EventAction::Ignore);
    }
    let data = match &f.data {
        Some(d) => d,
        None => {
            return Err(CallerError::MissingEventKey(String::from_str("data")));
        },
    };
    let ld = match event_linkdef(data) {
        Ok(ld) => ld,
        Err(e) => {
            return Err(e);
        },
    };
    match kind {
        EventKind::Established => Ok(EventAction::Apply(ld)),
        EventKind::TornDown => Ok(EventAction::Delete(ld)),
        EventKind::Other => Ok(EventAction::Ignore),
    }
}

/// Decode one message body and route the event in it: the decision half of
/// the synthesizer's message handler. A body that is not a structured
/// document is the caller's error; a decodable one is routed exactly as
/// `route_fields` routes its fields.
pub fn handle_event_bytes(body: &[u8]) -> (r: Result<EventAction, CallerError>)
    ensures
        event_fields_of(body@) is None ==> (r matches Err(e) && e is MalformedEvent),
        event_fields_of(body@) matches Some(f) ==> routed(f, r),
{
    let fields = match parse_event(body) {
        Ok(f) => f,
        Err(e) => {
            return Err(CallerError::MalformedEvent(e));
        },
    };
    route_fields(&fields)
}

} // verus!
