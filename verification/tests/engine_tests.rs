//! The applier engine: validation, planning, probe interpretation, and the
//! create-or-patch / idempotent-delete conclusions.

use kubernetes_applier::engine::{
    apply_after_probe, conclude_delete, conclude_write, field_manager, plan_apply,
    plan_apply_bytes, plan_delete, ApiFailure, ApplyStep, WriteKind,
};
use kubernetes_applier::errors::CallerError;
use kubernetes_applier::manifest::{
    split_api_version, DeleteRequest, ManifestHead, TypeHead,
};
use kubernetes_applier::OperationResponse;

fn head(name: Option<&str>, namespace: Option<&str>, types: Option<(&str, &str)>) -> ManifestHead {
    ManifestHead {
        name: name.map(|s| s.to_string()),
        namespace: namespace.map(|s| s.to_string()),
        type_head: types.map(|(api_version, kind)| TypeHead {
            api_version: api_version.to_string(),
            kind: kind.to_string(),
        }),
    }
}

#[test]
fn missing_name_is_caller_error() {
    let r = plan_apply(&head(None, None, Some(("v1", "Service"))));
    assert_eq!(r, Err(CallerError::MissingName));
}

#[test]
fn empty_name_is_caller_error() {
    let r = plan_apply(&head(Some(""), None, Some(("v1", "Service"))));
    assert_eq!(r, Err(CallerError::MissingName));
}

#[test]
fn missing_type_metadata_is_caller_error() {
    let r = plan_apply(&head(Some("thing"), None, None));
    assert_eq!(r, Err(CallerError::MissingTypeMeta));
}

#[test]
fn missing_name_reported_before_missing_type() {
    let r = plan_apply(&head(None, None, None));
    assert_eq!(r, Err(CallerError::MissingName));
}

#[test]
fn core_group_api_version_plans_empty_group() {
    let plan = plan_apply(&head(Some("svc"), None, Some(("v1", "Service")))).unwrap();
    assert_eq!(plan.name, "svc");
    assert_eq!(plan.locator.group, "");
    assert_eq!(plan.locator.version, "v1");
    assert_eq!(plan.locator.kind, "Service");
    assert_eq!(plan.locator.namespace, None);
}

#[test]
fn grouped_api_version_splits_at_first_slash() {
    let plan = plan_apply(&head(
        Some("ing"),
        Some("prod"),
        Some(("networking.k8s.io/v1", "Ingress")),
    ))
    .unwrap();
    assert_eq!(plan.locator.group, "networking.k8s.io");
    assert_eq!(plan.locator.version, "v1");
    assert_eq!(plan.locator.kind, "Ingress");
    assert_eq!(plan.locator.namespace.as_deref(), Some("prod"));
}

#[test]
fn split_api_version_cases() {
    assert_eq!(
        split_api_version("networking.k8s.io/v1"),
        ("networking.k8s.io".to_string(), "v1".to_string())
    );
    assert_eq!(split_api_version("v1"), (String::new(), "v1".to_string()));
    assert_eq!(split_api_version("a/b/c"), ("a".to_string(), "b/c".to_string()));
    assert_eq!(split_api_version(""), (String::new(), String::new()));
}

const VALID_MANIFEST: &str = r#"apiVersion: v1
kind: Service
metadata:
  name: foo-applier-test-happy
  labels:
    wasmcloud.dev/test: "true"
spec:
  selector:
    app.kubernetes.io/name: foo-applier
  ports:
    - protocol: TCP
      port: 8080
      targetPort: 8080"#;

#[test]
fn valid_manifest_bytes_plan() {
    let plan = plan_apply_bytes(VALID_MANIFEST.as_bytes()).unwrap();
    assert_eq!(plan.name, "foo-applier-test-happy");
    assert_eq!(plan.locator.group, "");
    assert_eq!(plan.locator.version, "v1");
    assert_eq!(plan.locator.kind, "Service");
    assert_eq!(plan.locator.namespace, None);
}

#[test]
fn unparsable_bytes_are_caller_error() {
    let r = plan_apply_bytes(b"{{{ not yaml");
    assert!(matches!(r, Err(CallerError::MalformedDocument(_))));
}

#[test]
fn nameless_manifest_bytes_are_caller_error() {
    let r = plan_apply_bytes(b"apiVersion: v1\nkind: Service\nmetadata: {}\n");
    assert_eq!(r, Err(CallerError::MissingName));
}

#[test]
fn probe_found_means_patch() {
    assert_eq!(apply_after_probe(&Ok(())), ApplyStep::Write(WriteKind::Patch));
}

#[test]
fn probe_not_found_means_create() {
    let r = apply_after_probe(&Err(ApiFailure {
        code: Some(404),
        message: "not found".to_string(),
    }));
    assert_eq!(r, ApplyStep::Write(WriteKind::Create));
}

#[test]
fn probe_other_failure_ends_apply() {
    let r = apply_after_probe(&Err(ApiFailure {
        code: Some(500),
        message: "boom".to_string(),
    }));
    match r {
        ApplyStep::Done(resp) => {
            assert!(!resp.succeeded);
            assert_eq!(resp.error.as_deref(), Some("Unable to fetch object from API: boom"));
        }
        other => panic!("expected a finished outcome, got {:?}", other),
    }
}

#[test]
fn probe_transport_failure_ends_apply() {
    let r = apply_after_probe(&Err(ApiFailure { code: None, message: "unreachable".to_string() }));
    assert!(matches!(r, ApplyStep::Done(_)));
}

#[test]
fn write_success_succeeds() {
    assert_eq!(
        conclude_write(&Ok(())),
        OperationResponse { error: None, succeeded: true }
    );
}

#[test]
fn write_failure_carries_remote_text() {
    let r = conclude_write(&Err(ApiFailure {
        code: Some(422),
        message: "kind NotReal is not recognized".to_string(),
    }));
    assert!(!r.succeeded);
    let text = r.error.expect("a failed write must carry the remote error text");
    assert!(!text.is_empty());
    assert_eq!(text, "kind NotReal is not recognized");
}

#[test]
fn delete_success_succeeds() {
    assert_eq!(
        conclude_delete(&Ok(())),
        OperationResponse { error: None, succeeded: true }
    );
}

#[test]
fn delete_not_found_is_success() {
    let r = conclude_delete(&Err(ApiFailure {
        code: Some(404),
        message: "no such object".to_string(),
    }));
    assert_eq!(r, OperationResponse { error: None, succeeded: true });
}

#[test]
fn delete_other_failure_carries_text() {
    let r = conclude_delete(&Err(ApiFailure { code: Some(403), message: "denied".to_string() }));
    assert_eq!(r, OperationResponse { error: Some("denied".to_string()), succeeded: false });
}

#[test]
fn plan_delete_copies_the_key() {
    let req = DeleteRequest {
        group: "apps".to_string(),
        kind: "Deployment".to_string(),
        name: "web".to_string(),
        namespace: Some("prod".to_string()),
        version: "v1".to_string(),
    };
    let plan = plan_delete(&req);
    assert_eq!(plan.locator.group, "apps");
    assert_eq!(plan.locator.kind, "Deployment");
    assert_eq!(plan.locator.version, "v1");
    assert_eq!(plan.locator.namespace.as_deref(), Some("prod"));
    assert_eq!(plan.name, "web");
}

#[test]
fn delete_request_default_is_empty() {
    let d = DeleteRequest::default();
    assert_eq!(d.group, "");
    assert_eq!(d.kind, "");
    assert_eq!(d.name, "");
    assert_eq!(d.namespace, None);
    assert_eq!(d.version, "");
}

#[test]
fn field_manager_is_fixed() {
    assert_eq!(field_manager(), "kubernetes-applier-provider");
}

/// A little in-memory stand-in for the remote API, enough to walk the
/// engine through its steps: apply creates, a second apply patches, and
/// the modification is observable afterward.
struct FakeCluster {
    objects: std::collections::HashMap<String, String>,
}

impl FakeCluster {
    fn probe(&self, name: &str) -> Result<(), ApiFailure> {
        if self.objects.contains_key(name) {
            Ok(())
        } else {
            Err(ApiFailure { code: Some(404), message: format!("{} not found", name) })
        }
    }

    fn apply(&mut self, body: &str) -> OperationResponse {
        let plan = match plan_apply_bytes(body.as_bytes()) {
            Ok(p) => p,
            Err(e) => panic!("caller error: {:?}", e),
        };
        match apply_after_probe(&self.probe(&plan.name)) {
            ApplyStep::Write(WriteKind::Create) | ApplyStep::Write(WriteKind::Patch) => {
                self.objects.insert(plan.name.clone(), body.to_string());
                conclude_write(&Ok(()))
            }
            ApplyStep::Done(resp) => resp,
        }
    }
}

const VALID_MANIFEST_WITH_LABELS: &str = r#"apiVersion: v1
kind: Service
metadata:
  name: foo-applier-test-happy
  labels:
    wasmcloud.dev/test: "true"
    foo: happy
spec:
  selector:
    app.kubernetes.io/name: foo-applier
  ports:
    - protocol: TCP
      port: 8080
      targetPort: 8080"#;

#[test]
fn apply_creates_then_patches_and_modification_sticks() {
    let mut cluster = FakeCluster { objects: std::collections::HashMap::new() };
    let name = "foo-applier-test-happy";

    assert!(cluster.probe(name).is_err(), "the object must start absent");
    let first = cluster.apply(VALID_MANIFEST);
    assert!(first.succeeded, "create should have succeeded");
    assert_eq!(cluster.objects.get(name).map(String::as_str), Some(VALID_MANIFEST));

    let second = cluster.apply(VALID_MANIFEST_WITH_LABELS);
    assert!(second.succeeded, "update should have succeeded");
    let stored = cluster.objects.get(name).expect("the object must still exist");
    assert!(stored.contains("foo: happy"), "the modification must be observable");
}
