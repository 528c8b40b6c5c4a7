//! Lifecycle-event routing: the decision half of the synthesizer's message
//! handler, driven with raw JSON bodies.

use kubernetes_applier::engine::{
    apply_after_probe, conclude_delete, conclude_write, plan_delete, ApiFailure, ApplyStep,
    WriteKind,
};
use kubernetes_applier::errors::CallerError;
use kubernetes_applier::events::{
    classify_event_type, handle_event_bytes, route_fields, EventAction, EventData, EventFields,
    EventKind,
};
use kubernetes_applier::synth::{derive_port, synthesize_apply, synthesize_delete};

const ESTABLISHED: &str = r#"{
  "type": "com.wasmcloud.lattice.linkdef_set",
  "data": {
    "actor_id": "MACTORXYZ",
    "provider_id": "VPROVIDER",
    "link_name": "default",
    "contract_id": "wasmcloud:httpserver",
    "values": {"PORT": "9090"}
  }
}"#;

const TORN_DOWN: &str = r#"{
  "type": "com.wasmcloud.lattice.linkdef_deleted",
  "data": {
    "actor_id": "MACTORXYZ",
    "provider_id": "VPROVIDER",
    "link_name": "default",
    "contract_id": "wasmcloud:httpserver",
    "values": {}
  }
}"#;

#[test]
fn established_event_routes_to_apply() {
    let action = handle_event_bytes(ESTABLISHED.as_bytes()).unwrap();
    match action {
        EventAction::Apply(ld) => {
            assert_eq!(ld.actor_id, "MACTORXYZ");
            assert_eq!(ld.provider_id, "VPROVIDER");
            assert_eq!(ld.link_name, "default");
            assert_eq!(
                ld.values,
                vec![("port".to_string(), "9090".to_string())],
                "configuration keys are normalized to lowercase"
            );
            assert_eq!(derive_port(&ld.values), Ok(9090));
        }
        other => panic!("expected an apply action, got {:?}", other),
    }
}

#[test]
fn torn_down_event_routes_to_delete() {
    let action = handle_event_bytes(TORN_DOWN.as_bytes()).unwrap();
    match action {
        EventAction::Delete(ld) => {
            assert_eq!(ld.actor_id, "MACTORXYZ");
            assert_eq!(ld.values, vec![]);
        }
        other => panic!("expected a delete action, got {:?}", other),
    }
}

#[test]
fn other_event_types_are_ignored() {
    let body = r#"{"type": "com.wasmcloud.lattice.host_started", "data": {}}"#;
    assert_eq!(handle_event_bytes(body.as_bytes()), Ok(EventAction::Ignore));
}

#[test]
fn other_contract_is_ignored() {
    let body = r#"{
      "type": "com.wasmcloud.lattice.linkdef_set",
      "data": {"contract_id": "wasmcloud:keyvalue"}
    }"#;
    assert_eq!(handle_event_bytes(body.as_bytes()), Ok(EventAction::Ignore));
}

#[test]
fn missing_type_is_an_error() {
    let body = r#"{"data": {}}"#;
    assert_eq!(
        handle_event_bytes(body.as_bytes()),
        Err(CallerError::MissingEventKey("type".to_string()))
    );
}

#[test]
fn non_string_type_is_an_error() {
    let body = r#"{"type": 7, "data": {}}"#;
    assert_eq!(
        handle_event_bytes(body.as_bytes()),
        Err(CallerError::MissingEventKey("type".to_string()))
    );
}

#[test]
fn link_event_without_data_is_an_error() {
    let body = r#"{"type": "com.wasmcloud.lattice.linkdef_set"}"#;
    assert_eq!(
        handle_event_bytes(body.as_bytes()),
        Err(CallerError::MissingEventKey("data".to_string()))
    );
}

#[test]
fn link_event_without_contract_is_an_error() {
    let body = r#"{"type": "com.wasmcloud.lattice.linkdef_deleted", "data": {}}"#;
    assert_eq!(
        handle_event_bytes(body.as_bytes()),
        Err(CallerError::MissingEventKey("contract_id".to_string()))
    );
}

#[test]
fn link_event_without_actor_is_an_error() {
    let body = r#"{
      "type": "com.wasmcloud.lattice.linkdef_set",
      "data": {"contract_id": "wasmcloud:httpserver"}
    }"#;
    assert_eq!(
        handle_event_bytes(body.as_bytes()),
        Err(CallerError::MissingEventKey("actor_id".to_string()))
    );
}

#[test]
fn link_event_with_non_string_values_is_an_error() {
    let body = r#"{
      "type": "com.wasmcloud.lattice.linkdef_set",
      "data": {
        "actor_id": "M", "provider_id": "V", "link_name": "default",
        "contract_id": "wasmcloud:httpserver",
        "values": {"port": 9090}
      }
    }"#;
    assert!(matches!(
        handle_event_bytes(body.as_bytes()),
        Err(CallerError::MalformedEvent(_))
    ));
}

#[test]
fn link_event_without_values_has_empty_configuration() {
    let body = r#"{
      "type": "com.wasmcloud.lattice.linkdef_set",
      "data": {
        "actor_id": "M", "provider_id": "V", "link_name": "default",
        "contract_id": "wasmcloud:httpserver"
      }
    }"#;
    match handle_event_bytes(body.as_bytes()).unwrap() {
        EventAction::Apply(ld) => {
            assert_eq!(ld.values, vec![]);
            assert_eq!(derive_port(&ld.values), Ok(8080));
        }
        other => panic!("expected an apply action, got {:?}", other),
    }
}

#[test]
fn unparsable_body_is_an_error() {
    assert!(matches!(
        handle_event_bytes(b"not json at all"),
        Err(CallerError::MalformedEvent(_))
    ));
}

#[test]
fn lifecycle_round_trip_creates_and_removes_the_service() {
    // A little in-memory stand-in for the remote API.
    let mut objects: std::collections::HashSet<String> = std::collections::HashSet::new();

    // The establishment event synthesizes a manifest with both ports 9090
    // and the lowercased actor identifier as its name, and the apply
    // creates the object.
    let link = match handle_event_bytes(ESTABLISHED.as_bytes()).unwrap() {
        EventAction::Apply(ld) => ld,
        other => panic!("expected an apply action, got {:?}", other),
    };
    let (manifest, plan) = synthesize_apply(&link).unwrap();
    assert_eq!(manifest.name, "mactorxyz");
    assert_eq!(manifest.ports[0].port, 9090);
    assert_eq!(manifest.ports[0].target_port, 9090);

    let probe = if objects.contains(&plan.name) {
        Ok(())
    } else {
        Err(ApiFailure { code: Some(404), message: "absent".to_string() })
    };
    match apply_after_probe(&probe) {
        ApplyStep::Write(WriteKind::Create) => {
            objects.insert(plan.name.clone());
        }
        other => panic!("a first apply must create, got {:?}", other),
    }
    assert!(conclude_write(&Ok(())).succeeded);
    assert!(objects.contains("mactorxyz"));

    // The teardown event synthesizes a deletion key with the same derived
    // name, and the resource returns to non-existent.
    let link = match handle_event_bytes(TORN_DOWN.as_bytes()).unwrap() {
        EventAction::Delete(ld) => ld,
        other => panic!("expected a delete action, got {:?}", other),
    };
    let request = synthesize_delete(&link);
    assert_eq!(request.name, plan.name, "teardown derives the same name");
    let delete_plan = plan_delete(&request);
    let removed = objects.remove(&delete_plan.name);
    assert!(removed);
    assert!(conclude_delete(&Ok(())).succeeded);
    assert!(!objects.contains("mactorxyz"), "the resource is gone");

    // Deleting it again is still a success: the remote now answers
    // not-found, and that is normalized away.
    let again = conclude_delete(&Err(ApiFailure {
        code: Some(404),
        message: "absent".to_string(),
    }));
    assert!(again.succeeded);
    assert_eq!(again.error, None);
}

fn full_data() -> EventData {
    EventData {
        contract_id: Some("wasmcloud:httpserver".to_string()),
        actor_id: Some("MACTORXYZ".to_string()),
        provider_id: Some("VPROVIDER".to_string()),
        link_name: Some("default".to_string()),
        values: Some(Ok(vec![("PORT".to_string(), "9090".to_string())])),
    }
}

fn full_fields() -> EventFields {
    EventFields {
        event_type: Some("com.wasmcloud.lattice.linkdef_set".to_string()),
        data: Some(full_data()),
    }
}

#[test]
fn route_full_established_fields() {
    match route_fields(&full_fields()).unwrap() {
        EventAction::Apply(ld) => {
            assert_eq!(ld.actor_id, "MACTORXYZ");
            assert_eq!(ld.values, vec![("port".to_string(), "9090".to_string())]);
        }
        other => panic!("expected an apply action, got {:?}", other),
    }
}

#[test]
fn route_missing_type_field() {
    let f = EventFields { event_type: None, ..full_fields() };
    assert_eq!(
        route_fields(&f),
        Err(CallerError::MissingEventKey("type".to_string()))
    );
}

#[test]
fn route_absent_payload_field() {
    let f = EventFields { data: None, ..full_fields() };
    assert_eq!(
        route_fields(&f),
        Err(CallerError::MissingEventKey("data".to_string()))
    );
}

#[test]
fn route_other_contract_field() {
    let f = EventFields {
        data: Some(EventData {
            contract_id: Some("wasmcloud:keyvalue".to_string()),
            ..full_data()
        }),
        ..full_fields()
    };
    assert_eq!(route_fields(&f), Ok(EventAction::Ignore));
}

#[test]
fn route_malformed_values_field() {
    let f = EventFields {
        data: Some(EventData { values: Some(Err("bad map".to_string())), ..full_data() }),
        ..full_fields()
    };
    assert_eq!(
        route_fields(&f),
        Err(CallerError::MalformedEvent("bad map".to_string()))
    );
}

#[test]
fn event_type_classification() {
    assert_eq!(
        classify_event_type("com.wasmcloud.lattice.linkdef_set"),
        EventKind::Established
    );
    assert_eq!(
        classify_event_type("com.wasmcloud.lattice.linkdef_deleted"),
        EventKind::TornDown
    );
    assert_eq!(classify_event_type("com.wasmcloud.lattice.host_started"), EventKind::Other);
    assert_eq!(classify_event_type(""), EventKind::Other);
}
