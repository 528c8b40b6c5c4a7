//! The declarative applier engine: validate, resolve a locator, then decide
//! an existence-check-then-create-or-patch sequence for apply, and an
//! idempotent delete. Every network call is performed by the unverified
//! shell; the engine makes each decision between two calls and interprets
//! each result, as plain values.

use vstd::prelude::*;
use vstd::string::*;
use crate::errors::CallerError;
use crate::manifest::{
    head_error, head_is_valid, splits_api_version, DeleteRequest, Locator, ManifestHead, TypeHead,
};
use crate::outcome::OperationResponse;

verus! {

/// A failed remote call, reported by the shell as plain values: the remote
/// status code when the server answered, and the error text.
#[derive(Clone, Debug, PartialEq, Eq)]
pub struct ApiFailure {
    /// The remote status code, when the server answered with one; absent
    /// when the server could not be reached at all.
    pub code: Option<u16>,
    /// The error text, as the remote API or the transport reported it.
    pub message: String,
}

/// Whether a failure is the remote saying the object does not exist.
pub open spec fn is_not_found(f: ApiFailure) -> bool {
    f.code == Some(404u16)
}

/// Everything the shell needs to carry out one apply: where to address the
/// object, and under which name to probe and write it.
#[derive(Clone, Debug, PartialEq, Eq)]
pub struct ApplyPlan {
    /// The resolved locator, scoped to the object's namespace when it names
    /// one and to the session default otherwise.
    pub locator: Locator,
    /// The object's name.
    pub name: String,
}

/// How a plan corresponds to the head it was made from: same name, same
/// namespace scoping, the kind taken as is, and the apiVersion string split
/// into group and version.
pub open spec fn plan_matches_head(p: ApplyPlan, head: ManifestHead) -> bool {
    &&& head.name == Some(p.name)
    &&& head.namespace == p.locator.namespace
    &&& head.type_head matches Some(t) && t.kind == p.locator.kind && splits_api_version(
        t.api_version@,
        p.locator.group@,
        p.locator.version@,
    )
}

/// The first step of apply: validate the decoded object's head and resolve
/// a locator for it. An incomplete head is the caller's error, owed before
/// any network call; nothing here touches the network.
pub fn plan_apply(head: &ManifestHead) -> (r: Result<ApplyPlan, CallerError>)
    ensures
        head_is_valid(*head) ==> (r matches Ok(p) && plan_matches_head(p, *head)),
        !head_is_valid(*head) ==> r == Err::<ApplyPlan, CallerError>(head_error(*head)),
{
    let (name, type_head) = match crate::manifest::validate_head(head) {
        Ok(v) => v,
        Err(e) => {
            return Err(e);
        },
    };
    let TypeHead { api_version, kind } = type_head;
    let (group, version) = crate::manifest::split_api_version(api_version.as_str());
    let namespace = match &head.namespace {
        Some(ns) => Some(ns.clone()),
        None => None,
    };
    let locator = crate::manifest::resolve_locator(group, version, kind, namespace);
    Ok(ApplyPlan { locator, name })
}

/// The identifying head that decoding a raw document yields: a pure
/// function of the bytes alone, absent exactly when the bytes are not a
/// decodable structured object document.
pub uninterp spec fn head_of(body: Seq<u8>) -> Option<ManifestHead>;

/// Relies on `serde_yaml::from_slice` and `kube::api::DynamicObject`'s
/// deserialization, to decode one structured document and hand over the
/// fields of its identifying head; the document's body never reaches the
/// engine. Decoding is a pure function of the bytes, and fails exactly
/// when they are not a decodable object document.
#[verifier::external_body]
fn parse_manifest_head(body: &[u8]) -> (r: Result<ManifestHead, String>)
    ensures
        r matches Ok(h) ==> head_of(body@) == Some(h),
        r is Ok <==> head_of(body@) is Some,
{
    let obj: kube::api::DynamicObject = serde_yaml::from_slice(body).map_err(|e| e.to_string())?;
    Ok(ManifestHead {
        name: obj.metadata.name,
        namespace: obj.metadata.namespace,
        type_head: obj.types.map(|t| TypeHead { api_version: t.api_version, kind: t.kind }),
    })
}

/// Decode a raw document and plan an apply for it: a document that does
/// not decode is the caller's error, a decodable one is planned exactly as
/// `plan_apply` plans its head — either way before any network call.
pub fn plan_apply_bytes(body: &[u8]) -> (r: Result<ApplyPlan, CallerError>)
    ensures
        head_of(body@) is None ==> (r matches Err(e) && e is MalformedDocument),
        head_of(body@) matches Some(h) ==> ({
            &&& head_is_valid(h) ==> (r matches Ok(p) && plan_matches_head(p, h))
            &&& !head_is_valid(h) ==> r == Err::<ApplyPlan, CallerError>(head_error(h))
        }),
{
    let head = match parse_manifest_head(body) {
        Ok(h) => h,
        Err(e) => {
            return Err(CallerError::MalformedDocument(e));
        },
    };
    plan_apply(&head)
}

/// Which write the shell must issue after the existence probe.
#[derive(Clone, Debug, PartialEq, Eq)]
pub enum WriteKind {
    /// The object does not exist yet: create it.
    Create,
    /// The object exists: issue a server-side merge patch with the full
    /// object as the patch body.
    Patch,
}

/// What follows the existence probe: a write to issue, or a finished
/// outcome when the probe failed for any reason other than absence.
#[derive(Clone, Debug, PartialEq, Eq)]
pub enum ApplyStep {
    /// Issue this write next, under the plan's locator and name.
    Write(WriteKind),
    /// The apply is over; hand this outcome to the caller.
    Done(OperationResponse),
}

/// Interpret the existence probe. The object being found means patch;
/// not-found is no error but the signal to create; any other failure ends
/// the apply with the remote error text, never retried here.
pub fn apply_after_probe(probe: &Result<(), ApiFailure>) -> (r: ApplyStep)
    ensures
        probe is Ok ==> r == ApplyStep::Write(WriteKind::Patch),
        (probe matches Err(f) && is_not_found(*f)) ==> r == ApplyStep::Write(WriteKind::Create),
        probe matches Err(f) ==> !is_not_found(*f) ==> ({
            &&& r matches ApplyStep::Done(resp)
            &&& !resp.succeeded
            &&& resp.error matches Some(m)
            &&& m@ == probe_failure_message(*f)
            &&& m@.len() > 0
        }),
        r matches ApplyStep::Done(resp) ==> resp.wf(),
{
    match probe {
        Ok(_) => ApplyStep::Write(WriteKind::Patch),
        Err(f) => {
            if is_code(&f.code, 404) {
                ApplyStep::Write(WriteKind::Create)
            } else {
                proof {
                    reveal_strlit("Unable to fetch object from API: ");
                }
                ApplyStep::Done(
                    OperationResponse::failed(
                        String::from_str("Unable to fetch object from API: ").concat(
                            f.message.as_str(),
                        ),
                    ),
                )
            }
        },
    }
}

/// The text a failed existence probe surfaces: the remote error, prefixed.
pub open spec fn probe_failure_message(f: ApiFailure) -> Seq<char> {
    "Unable to fetch object from API: "@ + f.message@
}

/// The outcome of the create or patch becomes the operation's outcome: the
/// remote error text on failure, a bare success otherwise.
pub fn conclude_write(outcome: &Result<(), ApiFailure>) -> (r: OperationResponse)
    ensures
        outcome is Ok ==> r == (OperationResponse { succeeded: true, error: None }),
        outcome matches Err(f) ==> r == (OperationResponse {
            succeeded: false,
            error: Some(f.message),
        }),
        r.wf(),
{
    match outcome {
        Ok(_) => OperationResponse::ok(),
        Err(f) => OperationResponse::failed(f.message.clone()),
    }
}

/// Everything the shell needs to carry out one delete.
#[derive(Clone, Debug, PartialEq, Eq)]
pub struct DeletePlan {
    /// The resolved locator, scoped to the key's namespace when it names
    /// one and to the session default otherwise.
    pub locator: Locator,
    /// The name of the instance to remove.
    pub name: String,
}

/// Resolve a locator from a deletion key. Nothing to validate: the key's
/// triple is taken as given, and the remote API is the judge of it.
pub fn plan_delete(req: &DeleteRequest) -> (r: DeletePlan)
    ensures
        r.locator.group == req.group,
        r.locator.version == req.version,
        r.locator.kind == req.kind,
        r.locator.namespace == req.namespace,
        r.name == req.name,
{
    DeletePlan {
        locator: Locator {
            group: req.group.clone(),
            version: req.version.clone(),
            kind: req.kind.clone(),
            namespace: match &req.namespace {
                Some(ns) => Some(ns.clone()),
                None => None,
            },
        },
        name: req.name.clone(),
    }
}

/// Interpret the delete call: deleting something already absent is not an
/// error, so not-found counts as success; any other failure surfaces the
/// remote error text.
pub fn conclude_delete(outcome: &Result<(), ApiFailure>) -> (r: OperationResponse)
    ensures
        outcome is Ok ==> r == (OperationResponse { succeeded: true, error: None }),
        outcome matches Err(f) ==> is_not_found(*f) ==> r == (OperationResponse {
            succeeded: true,
            error: None,
        }),
        outcome matches Err(f) ==> !is_not_found(*f) ==> r == (OperationResponse {
            succeeded: false,
            error: Some(f.message),
        }),
        r.wf(),
{
    match outcome {
        Ok(_) => OperationResponse::ok(),
        Err(f) => {
            if is_code(&f.code, 404) {
                OperationResponse::ok()
            } else {
                OperationResponse::failed(f.message.clone())
            }
        },
    }
}

/// The field-manager identity every write of this engine is tagged with, so
/// the remote API tracks the fields this writer owns.
pub fn field_manager() -> (r: &'static str)
    ensures
        r@ == "kubernetes-applier-provider"@,
{
    "kubernetes-applier-provider"
}

/// Whether an optional status code is this one.
fn is_code(code: &Option<u16>, wanted: u16) -> (r: bool)
    ensures
        r == (*code == Some(wanted)),
{
    match code {
        Some(c) => *c == wanted,
        None => false,
    }
}

} // verus!
