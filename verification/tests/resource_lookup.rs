use mcp_core_fishcode2025::protocol::{INTERNAL_ERROR, INVALID_REQUEST};
use mcp_server::errors::{ResourceLookupError, RouterError, WireError};

fn text(s: &str) -> String {
    String::from(s)
}

#[test]
fn a_missing_resource_becomes_resource_not_found() {
    let router = RouterError::from(ResourceLookupError::NotFound(text("file.txt missing")));
    match router {
        RouterError::ResourceNotFound(message) => assert_eq!(message, "file.txt missing"),
        other => panic!("expected ResourceNotFound, got {:?}", other),
    }
}

#[test]
fn a_failed_execution_becomes_internal_with_prefix() {
    let router = RouterError::from(ResourceLookupError::ExecutionError(text("permission denied")));
    match router {
        RouterError::Internal(message) => {
            assert_eq!(message, "Resource execution error: permission denied")
        }
        other => panic!("expected Internal, got {:?}", other),
    }
}

#[test]
fn a_failed_execution_without_cause_keeps_the_prefix() {
    let router = RouterError::from(ResourceLookupError::ExecutionError(String::new()));
    match router {
        RouterError::Internal(message) => assert_eq!(message, "Resource execution error: "),
        other => panic!("expected Internal, got {:?}", other),
    }
}

#[test]
fn a_failed_execution_keeps_the_cause_whole() {
    let cause = "línea 1\nlínea 2: {0} {} %s — 失敗";
    let router = RouterError::from(ResourceLookupError::ExecutionError(text(cause)));
    match router {
        RouterError::Internal(message) => {
            assert_eq!(message, format!("Resource execution error: {}", cause));
            assert!(message.ends_with(cause));
            assert_eq!(message.len(), "Resource execution error: ".len() + cause.len());
        }
        other => panic!("expected Internal, got {:?}", other),
    }
}

#[test]
fn a_missing_resource_with_the_prefix_in_its_message_is_left_alone() {
    let message = "Resource execution error: not really";
    let router = RouterError::from(ResourceLookupError::NotFound(text(message)));
    match router {
        RouterError::ResourceNotFound(kept) => assert_eq!(kept, message),
        other => panic!("expected ResourceNotFound, got {:?}", other),
    }
}

#[test]
fn missing_file_on_the_wire() {
    let router = RouterError::from(ResourceLookupError::NotFound(text("file.txt missing")));
    let wire = WireError::from(router);
    assert_eq!(wire.code, INVALID_REQUEST);
    assert_eq!(wire.code, -32600);
    assert_eq!(wire.message, "file.txt missing");
    assert!(wire.data.is_none());
}

#[test]
fn permission_denied_on_the_wire() {
    let router = RouterError::from(ResourceLookupError::ExecutionError(text("permission denied")));
    let wire = WireError::from(router);
    assert_eq!(wire.code, INTERNAL_ERROR);
    assert_eq!(wire.code, -32603);
    assert_eq!(wire.message, "Resource execution error: permission denied");
    assert!(wire.data.is_none());
}

#[test]
fn a_missing_resource_reaches_the_wire_as_resource_not_found_does() {
    let through_lookup =
        WireError::from(RouterError::from(ResourceLookupError::NotFound(text("notes.md"))));
    let direct = WireError::from(RouterError::ResourceNotFound(text("notes.md")));
    assert_eq!(through_lookup.code, direct.code);
    assert_eq!(through_lookup.message, direct.message);
    assert_eq!(through_lookup.data, direct.data);
}

#[test]
fn a_failed_execution_reaches_the_wire_as_internal_does() {
    let through_lookup =
        WireError::from(RouterError::from(ResourceLookupError::ExecutionError(text("disk full"))));
    let direct = WireError::from(RouterError::Internal(text("Resource execution error: disk full")));
    assert_eq!(through_lookup.code, direct.code);
    assert_eq!(through_lookup.message, direct.message);
    assert_eq!(through_lookup.data, direct.data);
}

#[test]
fn lookup_conversion_through_into() {
    let router: RouterError = ResourceLookupError::NotFound(text("a")).into();
    assert!(matches!(router, RouterError::ResourceNotFound(_)));
    let router: RouterError = ResourceLookupError::ExecutionError(text("a")).into();
    assert!(matches!(router, RouterError::Internal(_)));
}
