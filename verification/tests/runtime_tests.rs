use lambda_appsync::arguments::parse_macro_args;
use lambda_appsync::errors::AppsyncError;
use lambda_appsync::response::AppsyncResponse;
use lambda_appsync::runtime::{
    collect_batch, hook_decision, plan_sections, response_of_result, DispatchDecision, InitOnce,
    TaskOutcome,
};

fn value_of(s: &str) -> serde_json::Value {
    serde_json::from_str(s).unwrap()
}

#[test]
fn test_appsync_error() {
    let error = AppsyncError::new("TestError", "message");
    assert_eq!(error.error_type, "TestError");
    assert_eq!(error.error_message, "message");

    let error1 = AppsyncError::new("Error1", "msg1");
    let error2 = AppsyncError::new("Error2", "msg2");
    let combined = error1.combine(error2);

    assert_eq!(combined.error_type, "Error1|Error2");
    assert_eq!(combined.error_message, "msg1\nmsg2");
}

#[test]
fn test_appsync_response() {
    let success = AppsyncResponse::from(value_of(r#"{"field": "value"}"#));
    assert!(success.data.is_some());
    assert!(success.error.is_none());

    let error = AppsyncResponse::from(AppsyncError::new("TestError", "message"));
    assert!(error.data.is_none());
    assert!(error.error.is_some());
}

#[test]
fn test_unauthorized_response() {
    let r = AppsyncResponse::unauthorized();
    assert!(r.data.is_none());
    let e = r.error.unwrap();
    assert_eq!(e.error_type, "Unauthorized");
    assert_eq!(e.error_message, "This operation cannot be authorized");
}

#[test]
fn test_error_from_metadata_defaults() {
    let e = AppsyncError::from_error_metadata(None, None);
    assert_eq!(e.error_type, "Unknown");
    assert_eq!(e.error_message, "");

    let e = AppsyncError::from_error_metadata(
        Some("Throttling".to_string()),
        Some("slow down".to_string()),
    );
    assert_eq!(e.error_type, "Throttling");
    assert_eq!(e.error_message, "slow down");
}

#[test]
fn test_invalid_args_message() {
    let e = AppsyncError::invalid_args("userId", "invalid type: integer");
    assert_eq!(e.error_type, "InvalidArgs");
    assert_eq!(
        e.error_message,
        "Argument \"userId\" is not the expected format (invalid type: integer)"
    );
}

#[test]
fn test_hook_short_circuits_dispatch() {
    let resp = AppsyncResponse::from_data(value_of("7"));
    match hook_decision(Some(resp)) {
        DispatchDecision::Respond(r) => {
            // the hook's response is returned verbatim
            assert_eq!(r.data, Some(value_of("7")));
            assert!(r.error.is_none());
        }
        DispatchDecision::Dispatch => panic!("hook response must short-circuit"),
    }

    match hook_decision(None) {
        DispatchDecision::Dispatch => (),
        DispatchDecision::Respond(_) => panic!("silent hook must dispatch"),
    }
}

#[test]
fn test_response_of_result() {
    let ok = response_of_result(Ok(value_of("42")));
    assert_eq!(ok.data, Some(value_of("42")));
    assert!(ok.error.is_none());

    let err = response_of_result(Err(AppsyncError::new("NotFound", "missing")));
    assert!(err.data.is_none());
    assert_eq!(err.error.unwrap().error_type, "NotFound");
}

#[test]
fn test_batch_preserves_order() {
    // 3 events: the 2nd succeeds, the 1st and 3rd fail with domain errors
    let outcomes = vec![
        TaskOutcome::Completed(AppsyncResponse::from_error(AppsyncError::new("E1", "first"))),
        TaskOutcome::Completed(AppsyncResponse::from_data(value_of("2"))),
        TaskOutcome::Completed(AppsyncResponse::from_error(AppsyncError::new("E3", "third"))),
    ];
    let results = collect_batch(outcomes).unwrap();
    assert_eq!(results.len(), 3);
    assert_eq!(results[0].error.as_ref().unwrap().error_type, "E1");
    assert_eq!(results[1].data, Some(value_of("2")));
    assert_eq!(results[2].error.as_ref().unwrap().error_type, "E3");
}

#[test]
fn test_batch_fault_is_fatal() {
    // 2 events: one handler faults unexpectedly, the whole invocation fails
    let outcomes = vec![
        TaskOutcome::Completed(AppsyncResponse::from_data(value_of("1"))),
        TaskOutcome::Faulted,
    ];
    assert!(collect_batch(outcomes).is_none());
}

#[test]
fn test_client_accessor_is_singleton() {
    let mut cache: InitOnce<u64> = InitOnce::new();
    let first = cache.get_or_init(11);
    let second = cache.get_or_init(22);
    assert_eq!(first, 11);
    assert_eq!(second, first);
}

#[test]
fn test_generation_plan_follows_flags() {
    let args = parse_macro_args(r#""s.graphql", batch = false"#).unwrap();
    let plan = plan_sections(&args.options);
    assert!(plan.gen_types);
    assert!(plan.gen_operations);
    assert!(plan.gen_handler);
    assert!(!plan.gen_batch_handler);
    assert!(!plan.main_uses_batch);

    let args = parse_macro_args(r#""s.graphql", only_appsync_types = true"#).unwrap();
    let plan = plan_sections(&args.options);
    assert!(plan.gen_types);
    assert!(!plan.gen_operations);
    assert!(!plan.gen_handler);
    assert!(!plan.gen_batch_handler);
}
