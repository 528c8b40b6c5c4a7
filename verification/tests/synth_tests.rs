//! The manifest synthesizer: port derivation, manifest and deletion-key
//! synthesis, and the handler's interpretation of outcomes.

use kubernetes_applier::errors::{CallerError, HandlerError};
use kubernetes_applier::numbers::{parse_addr_port, parse_i32, parse_port};
use kubernetes_applier::synth::{
    conclude_handler, derive_port, expected_contract, synthesize_apply, synthesize_delete,
    synthesize_service, LinkSettings,
};
use kubernetes_applier::OperationResponse;

fn values(pairs: &[(&str, &str)]) -> Vec<(String, String)> {
    pairs.iter().map(|(k, v)| (k.to_string(), v.to_string())).collect()
}

fn link(actor: &str, provider: &str, name: &str, vals: &[(&str, &str)]) -> LinkSettings {
    LinkSettings {
        actor_id: actor.to_string(),
        provider_id: provider.to_string(),
        link_name: name.to_string(),
        values: values(vals),
    }
}

#[test]
fn parse_i32_grammar() {
    assert_eq!(parse_i32("9090"), Some(9090));
    assert_eq!(parse_i32("+42"), Some(42));
    assert_eq!(parse_i32("-8"), Some(-8));
    assert_eq!(parse_i32("007"), Some(7));
    assert_eq!(parse_i32("2147483647"), Some(2147483647));
    assert_eq!(parse_i32("-2147483648"), Some(-2147483648));
    assert_eq!(parse_i32("2147483648"), None);
    assert_eq!(parse_i32("-2147483649"), None);
    assert_eq!(parse_i32(""), None);
    assert_eq!(parse_i32("+"), None);
    assert_eq!(parse_i32("12a"), None);
    assert_eq!(parse_i32(" 12"), None);
    assert_eq!(parse_i32("99999999999999999999"), None);
}

#[test]
fn parse_port_grammar() {
    assert_eq!(parse_port("0"), Some(0));
    assert_eq!(parse_port("00080"), Some(80));
    assert_eq!(parse_port("65535"), Some(65535));
    assert_eq!(parse_port("65536"), None);
    assert_eq!(parse_port("+1"), None);
    assert_eq!(parse_port(""), None);
}

#[test]
fn parse_addr_port_grammar() {
    assert_eq!(parse_addr_port("127.0.0.1:9090"), Some(9090));
    assert_eq!(parse_addr_port("0.0.0.0:80"), Some(80));
    assert_eq!(parse_addr_port("[::1]:8080"), Some(8080));
    assert_eq!(parse_addr_port("[2001:db8::ff00:42:8329]:443"), Some(443));
    assert_eq!(parse_addr_port("[fe80::1%25]:443"), Some(443));
    assert_eq!(parse_addr_port("[::::::]:80"), None);
    assert_eq!(parse_addr_port("[1:2::3::4]:80"), None);
    assert_eq!(parse_addr_port("[12345::1]:80"), None);
    assert_eq!(parse_addr_port("[fe80::1%eth0]:80"), None);
    assert_eq!(parse_addr_port("[fe80::1%]:80"), None);
    assert_eq!(parse_addr_port("[%25]:80"), None);
    assert_eq!(parse_addr_port("127.0.0.1:70000"), None);
    assert_eq!(parse_addr_port("1.2.3:80"), None);
    assert_eq!(parse_addr_port("01.2.3.4:80"), None);
    assert_eq!(parse_addr_port("256.1.1.1:80"), None);
    assert_eq!(parse_addr_port("1.2.3.4.5:80"), None);
    assert_eq!(parse_addr_port("no-colon"), None);
    assert_eq!(parse_addr_port("plainhost:80"), None);
    assert_eq!(parse_addr_port("127.0.0.1:"), None);
    assert_eq!(parse_addr_port("[]:80"), None);
}

#[test]
fn explicit_port_wins() {
    let r = derive_port(&values(&[("address", "1.2.3.4:7070"), ("port", "9090")]));
    assert_eq!(r, Ok(9090));
}

#[test]
fn address_port_is_second_choice() {
    let r = derive_port(&values(&[("address", "1.2.3.4:7070")]));
    assert_eq!(r, Ok(7070));
}

#[test]
fn default_port_is_8080() {
    assert_eq!(derive_port(&values(&[])), Ok(8080));
}

#[test]
fn malformed_port_is_caller_error() {
    assert_eq!(derive_port(&values(&[("port", "ninety")])), Err(CallerError::MalformedPort));
}

#[test]
fn malformed_address_is_caller_error() {
    assert_eq!(
        derive_port(&values(&[("address", "not an address")])),
        Err(CallerError::MalformedAddress)
    );
}

#[test]
fn established_event_with_port_9090_synthesizes_the_manifest() {
    let ld = link("MACTORXYZ", "VPROVIDER", "default", &[("port", "9090")]);
    let m = synthesize_service(&ld).unwrap();
    assert_eq!(m.name, "mactorxyz", "the name is the lowercased actor identifier");
    assert_eq!(m.ports.len(), 1);
    assert_eq!(m.ports[0].port, 9090, "the service port is the derived port");
    assert_eq!(m.ports[0].target_port, 9090, "the target port is the derived port");
    assert_eq!(m.ports[0].protocol, "TCP");
    assert_eq!(
        m.labels,
        vec![
            ("wasmcloud.dev/actor-id".to_string(), "MACTORXYZ".to_string()),
            ("wasmcloud.dev/contract".to_string(), "httpserver".to_string()),
            ("wasmcloud.dev/link-name".to_string(), "default".to_string()),
            ("wasmcloud.dev/provider-id".to_string(), "VPROVIDER".to_string()),
        ]
    );
    assert_eq!(
        m.selector,
        vec![("wasmcloud.dev/route-to".to_string(), "true".to_string())]
    );
}

#[test]
fn teardown_synthesizes_the_same_derived_name() {
    let ld = link("MACTORXYZ", "VPROVIDER", "default", &[]);
    let d = synthesize_delete(&ld);
    assert_eq!(d.name, "mactorxyz");
    assert_eq!(d.group, "");
    assert_eq!(d.kind, "Service");
    assert_eq!(d.version, "v1");
    assert_eq!(d.namespace, None);
}

#[test]
fn synthesized_manifest_passes_engine_validation() {
    let ld = link("MACTORXYZ", "VPROVIDER", "default", &[("port", "9090")]);
    let (m, plan) = synthesize_apply(&ld).unwrap();
    assert_eq!(plan.name, m.name);
    assert_eq!(plan.locator.kind, "Service");
    assert_eq!(plan.locator.version, "v1");
    assert_eq!(plan.locator.group, "");
    assert_eq!(plan.locator.namespace, None);
}

#[test]
fn empty_actor_identifier_cannot_be_applied() {
    let ld = link("", "VPROVIDER", "default", &[]);
    assert_eq!(synthesize_apply(&ld), Err(CallerError::MissingName));
}

#[test]
fn malformed_port_propagates_through_synthesis() {
    let ld = link("MACTORXYZ", "VPROVIDER", "default", &[("port", "bad")]);
    assert_eq!(synthesize_service(&ld), Err(CallerError::MalformedPort));
    assert_eq!(synthesize_apply(&ld), Err(CallerError::MalformedPort));
}

#[test]
fn expected_contract_is_fixed() {
    assert_eq!(expected_contract(), "wasmcloud:httpserver");
}

#[test]
fn handler_propagates_apply_failure() {
    let resp = OperationResponse { error: Some("quota exceeded".to_string()), succeeded: false };
    let err = conclude_handler(&resp, false).unwrap_err();
    assert_eq!(err, HandlerError::ApplyFailed("quota exceeded".to_string()));
    assert_eq!(err.message(), "Unable to apply kubernetes service: quota exceeded");
}

#[test]
fn handler_propagates_delete_failure() {
    let resp = OperationResponse { error: None, succeeded: false };
    let err = conclude_handler(&resp, true).unwrap_err();
    assert_eq!(err, HandlerError::DeleteFailed(String::new()));
    assert_eq!(err.message(), "Unable to delete kubernetes service: ");
}

#[test]
fn handler_accepts_success() {
    let resp = OperationResponse { error: None, succeeded: true };
    assert_eq!(conclude_handler(&resp, false), Ok(()));
    assert_eq!(conclude_handler(&resp, true), Ok(()));
}

#[test]
fn caller_error_messages() {
    assert_eq!(CallerError::MissingName.message(), "The given object is missing a name");
    assert_eq!(
        CallerError::MissingTypeMeta.message(),
        "The given manifest does not contain type information"
    );
    assert_eq!(CallerError::MissingCallerId.message(), "Actor ID does not exist on request");
    assert_eq!(
        CallerError::NoSessionForCaller("alice".to_string()).message(),
        "No link registered for actor alice"
    );
    assert_eq!(CallerError::MalformedPort.message(), "Port value is malformed");
    assert_eq!(CallerError::MalformedAddress.message(), "Address value is malformed");
    assert_eq!(
        CallerError::MissingEventKey("type".to_string()).message(),
        "Event does not have key type"
    );
}

#[test]
fn outcome_constructors() {
    assert_eq!(OperationResponse::ok(), OperationResponse { error: None, succeeded: true });
    assert_eq!(
        OperationResponse::failed("why".to_string()),
        OperationResponse { error: Some("why".to_string()), succeeded: false }
    );
}
