use std::rc::Rc;
use std::time::Duration;

use wasm_shim::action_set_index::ActionSetIndex;
use wasm_shim::configuration::{FailureMode, Service, ServiceType};
use wasm_shim::data::property::{PropError, PropertyError};
use wasm_shim::filter::kuadrant_filter::{
    Action, HostCall, KuadrantFilter, Outcome, Phase, STATUS_OK,
};
use wasm_shim::filter::Filter;
use wasm_shim::runtime_action::{ActionContext, RuntimeAction, ServiceReply};
use wasm_shim::runtime_action_set::{ActionSetContext, RuntimeActionSet};
use wasm_shim::service::{GrpcService, HeaderResolver, TracingContext};

fn action(kind: ServiceType, mode: FailureMode) -> RuntimeAction {
    let service = Service::new(kind, "policy-upstream".to_string(), mode, Duration::from_secs(2));
    RuntimeAction::new(Rc::new(GrpcService::new(Rc::new(service))))
}

fn action_set(authority: &str, actions: Vec<RuntimeAction>) -> Rc<RuntimeActionSet> {
    Rc::new(RuntimeActionSet::new("set".to_string(), authority.to_string(), actions))
}

fn index_with(sets: Vec<Rc<RuntimeActionSet>>) -> Rc<ActionSetIndex> {
    let mut index = ActionSetIndex::new();
    for set in sets {
        let pattern = set.authority().to_string();
        index.insert(&pattern, set);
    }
    Rc::new(index)
}

fn applying(actions: usize) -> ActionSetContext {
    let mut contexts = Vec::new();
    for i in 0..actions {
        contexts.push(ActionContext { predicate: None, message: Some(vec![i as u8]) });
    }
    ActionSetContext { predicate: None, actions: contexts }
}

fn with_predicates(outcomes: Vec<bool>) -> ActionSetContext {
    let mut contexts = Vec::new();
    for holds in outcomes {
        contexts.push(ActionContext { predicate: Some(Ok(holds)), message: None });
    }
    ActionSetContext { predicate: None, actions: contexts }
}

fn describe(call: &HostCall) -> String {
    match call {
        HostCall::DispatchGrpcCall { request, headers } => format!(
            "dispatch {} {} {} {:?} {:?} {:?}",
            request.upstream_name(),
            request.service_name(),
            request.method_name(),
            request.timeout(),
            request.message(),
            headers
        ),
        HostCall::AddHttpRequestHeader { name, value } => format!("request-header {name}: {value}"),
        HostCall::AddHttpResponseHeader { name, value } => {
            format!("response-header {name}: {value}")
        }
        HostCall::SendHttpResponse(response) => format!(
            "respond {} {:?} {:?}",
            response.status_code(),
            response.headers(),
            response.body()
        ),
        HostCall::ResumeHttpRequest => "resume".to_string(),
    }
}

fn calls(outcome: &Outcome) -> Vec<String> {
    outcome.calls.iter().map(describe).collect()
}

fn auth_dispatch(message: u8) -> String {
    format!(
        "dispatch policy-upstream envoy.service.auth.v3.Authorization Check 2s Some([{message}]) []"
    )
}

fn rate_limit_dispatch(message: u8) -> String {
    format!(
        "dispatch policy-upstream envoy.service.ratelimit.v3.RateLimitService ShouldRateLimit 2s Some([{message}]) []"
    )
}

fn headers(pairs: &[(&str, &str)]) -> Vec<(String, String)> {
    pairs.iter().map(|(name, value)| (name.to_string(), value.to_string())).collect()
}

fn auth_ok() -> ServiceReply {
    ServiceReply::AuthOk { request_headers: vec![], response_headers: vec![] }
}

#[test]
fn no_match_continues_without_calls() {
    let index = index_with(vec![action_set(
        "*.foo.com",
        vec![action(ServiceType::Auth, FailureMode::Deny)],
    )]);
    let mut filter = KuadrantFilter::new(1, index, HeaderResolver::new());
    assert!(filter.is_idle());
    let outcome = filter.on_http_request_headers(Some("bar.com"), &vec![], &TracingContext::empty());
    assert_eq!(outcome.action, Action::Continue);
    assert!(outcome.calls.is_empty());
    assert_eq!(filter.phase(), Phase::Done);
    assert_eq!(filter.rpcs_dispatched(), 0);
    let response = filter.on_http_response_headers();
    assert_eq!(response.action, Action::Continue);
    assert!(response.calls.is_empty());
}

#[test]
fn absent_authority_continues() {
    let index = index_with(vec![action_set(
        "api.example.com",
        vec![action(ServiceType::Auth, FailureMode::Deny)],
    )]);
    let mut filter = KuadrantFilter::new(1, index, HeaderResolver::new());
    let outcome = filter.on_http_request_headers(None, &vec![], &TracingContext::empty());
    assert_eq!(outcome.action, Action::Continue);
    assert!(outcome.calls.is_empty());
    assert_eq!(filter.phase(), Phase::Done);
}

#[test]
fn no_applicable_action_continues_without_calls() {
    let index = index_with(vec![action_set(
        "api.example.com",
        vec![
            action(ServiceType::Auth, FailureMode::Deny),
            action(ServiceType::RateLimit, FailureMode::Deny),
        ],
    )]);
    let mut filter = KuadrantFilter::new(1, index, HeaderResolver::new());
    let contexts = vec![with_predicates(vec![false, false])];
    let outcome =
        filter.on_http_request_headers(Some("api.example.com"), &contexts, &TracingContext::empty());
    assert_eq!(outcome.action, Action::Continue);
    assert!(outcome.calls.is_empty());
    assert_eq!(filter.phase(), Phase::Done);
    assert_eq!(filter.rpcs_dispatched(), 0);
}

#[test]
fn action_set_whose_predicate_fails_is_passed_over() {
    let index = index_with(vec![action_set(
        "api.example.com",
        vec![action(ServiceType::Auth, FailureMode::Deny)],
    )]);
    let mut filter = KuadrantFilter::new(1, index, HeaderResolver::new());
    let mut context = applying(1);
    context.predicate = Some(Ok(false));
    let outcome = filter.on_http_request_headers(
        Some("api.example.com"),
        &vec![context],
        &TracingContext::empty(),
    );
    assert_eq!(outcome.action, Action::Continue);
    assert!(outcome.calls.is_empty());
}

#[test]
fn missing_context_counts_as_not_applicable() {
    let index = index_with(vec![action_set(
        "api.example.com",
        vec![action(ServiceType::Auth, FailureMode::Deny)],
    )]);
    let mut filter = KuadrantFilter::new(1, index, HeaderResolver::new());
    let outcome = filter.on_http_request_headers(
        Some("api.example.com"),
        &vec![],
        &TracingContext::empty(),
    );
    assert_eq!(outcome.action, Action::Continue);
    assert!(outcome.calls.is_empty());
}

#[test]
fn auth_ok_with_header_injection() {
    let index = index_with(vec![action_set(
        "api.example.com",
        vec![action(ServiceType::Auth, FailureMode::Deny)],
    )]);
    let mut filter = KuadrantFilter::new(7, index, HeaderResolver::new());
    assert_eq!(filter.context_id(), 7);
    let outcome = filter.on_http_request_headers(
        Some("api.example.com:8080"),
        &vec![applying(1)],
        &TracingContext::empty(),
    );
    assert_eq!(outcome.action, Action::Pause);
    assert_eq!(calls(&outcome), vec![auth_dispatch(0)]);
    assert!(filter.is_awaiting());
    assert_eq!(filter.rpcs_dispatched(), 1);

    let reply = ServiceReply::AuthOk {
        request_headers: headers(&[("x-user", "alice")]),
        response_headers: vec![],
    };
    let outcome = filter.on_grpc_call_response(1, STATUS_OK, Some(reply), &applying(1));
    assert_eq!(outcome.action, Action::Continue);
    assert_eq!(calls(&outcome), vec!["request-header x-user: alice".to_string(), "resume".to_string()]);
    assert_eq!(filter.phase(), Phase::Done);
    assert_eq!(filter.rpcs_dispatched(), 1);

    let response = filter.on_http_response_headers();
    assert!(response.calls.is_empty());
}

#[test]
fn auth_denied() {
    let index = index_with(vec![action_set(
        "api.example.com",
        vec![action(ServiceType::Auth, FailureMode::Deny)],
    )]);
    let mut filter = KuadrantFilter::new(1, index, HeaderResolver::new());
    let outcome = filter.on_http_request_headers(
        Some("api.example.com:8080"),
        &vec![applying(1)],
        &TracingContext::empty(),
    );
    assert_eq!(outcome.action, Action::Pause);
    let reply = ServiceReply::AuthDenied {
        status: 403,
        headers: headers(&[("www-authenticate", "Bearer")]),
        body: "forbidden".to_string(),
    };
    let outcome = filter.on_grpc_call_response(1, STATUS_OK, Some(reply), &applying(1));
    assert_eq!(
        calls(&outcome),
        vec!["respond 403 [(\"www-authenticate\", \"Bearer\")] \"forbidden\"".to_string()]
    );
    assert_eq!(filter.phase(), Phase::Dying);
    let response = filter.on_http_response_headers();
    assert_eq!(response.action, Action::Continue);
    assert!(response.calls.is_empty());
}

#[test]
fn denial_without_error_status_is_forbidden() {
    let index = index_with(vec![action_set(
        "api.example.com",
        vec![action(ServiceType::Auth, FailureMode::Deny)],
    )]);
    let mut filter = KuadrantFilter::new(1, index, HeaderResolver::new());
    filter.on_http_request_headers(
        Some("api.example.com"),
        &vec![applying(1)],
        &TracingContext::empty(),
    );
    let reply = ServiceReply::AuthDenied { status: 0, headers: vec![], body: String::new() };
    let outcome = filter.on_grpc_call_response(1, STATUS_OK, Some(reply), &applying(1));
    assert_eq!(calls(&outcome), vec!["respond 403 [] \"\"".to_string()]);
}

#[test]
fn rate_limit_over_limit_after_auth_ok() {
    let index = index_with(vec![action_set(
        "api.example.com",
        vec![
            action(ServiceType::Auth, FailureMode::Deny),
            action(ServiceType::RateLimit, FailureMode::Deny),
        ],
    )]);
    let mut filter = KuadrantFilter::new(1, index, HeaderResolver::new());
    let outcome = filter.on_http_request_headers(
        Some("api.example.com"),
        &vec![applying(2)],
        &TracingContext::empty(),
    );
    assert_eq!(calls(&outcome), vec![auth_dispatch(0)]);

    let outcome = filter.on_grpc_call_response(1, STATUS_OK, Some(auth_ok()), &applying(2));
    assert_eq!(outcome.action, Action::Pause);
    assert_eq!(calls(&outcome), vec![rate_limit_dispatch(1)]);
    assert!(filter.is_awaiting());
    assert_eq!(filter.rpcs_dispatched(), 2);

    let reply = ServiceReply::RateLimitOverLimit { headers: vec![], body: "too many".to_string() };
    let outcome = filter.on_grpc_call_response(2, STATUS_OK, Some(reply), &applying(2));
    assert_eq!(outcome.action, Action::Continue);
    assert_eq!(calls(&outcome), vec!["respond 429 [] \"too many\"".to_string()]);
    assert_eq!(filter.phase(), Phase::Dying);
    assert_eq!(filter.rpcs_dispatched(), 2);
}

#[test]
fn transport_failure_with_failure_mode_allow() {
    let index = index_with(vec![action_set(
        "api.example.com",
        vec![action(ServiceType::Auth, FailureMode::Allow)],
    )]);
    let mut filter = KuadrantFilter::new(1, index, HeaderResolver::new());
    let outcome = filter.on_http_request_headers(
        Some("api.example.com"),
        &vec![applying(1)],
        &TracingContext::empty(),
    );
    assert_eq!(calls(&outcome), vec![auth_dispatch(0)]);
    let outcome = filter.on_grpc_call_response(1, 14, None, &applying(1));
    assert_eq!(outcome.action, Action::Continue);
    assert_eq!(calls(&outcome), vec!["resume".to_string()]);
    assert_eq!(filter.phase(), Phase::Done);
    assert_eq!(filter.rpcs_dispatched(), 1);
}

#[test]
fn transport_failure_with_failure_mode_deny() {
    let index = index_with(vec![action_set(
        "api.example.com",
        vec![action(ServiceType::Auth, FailureMode::Deny)],
    )]);
    let mut filter = KuadrantFilter::new(1, index, HeaderResolver::new());
    filter.on_http_request_headers(
        Some("api.example.com"),
        &vec![applying(1)],
        &TracingContext::empty(),
    );
    let outcome = filter.on_grpc_call_response(1, 14, None, &applying(1));
    assert_eq!(outcome.action, Action::Continue);
    assert_eq!(
        calls(&outcome),
        vec!["respond 500 [] \"Internal Server Error.\\n\"".to_string()]
    );
    assert_eq!(filter.phase(), Phase::Dying);
}

#[test]
fn reply_that_cannot_be_had_is_a_failed_call() {
    let index = index_with(vec![action_set(
        "api.example.com",
        vec![action(ServiceType::Auth, FailureMode::Deny)],
    )]);
    let mut filter = KuadrantFilter::new(1, index, HeaderResolver::new());
    filter.on_http_request_headers(
        Some("api.example.com"),
        &vec![applying(1)],
        &TracingContext::empty(),
    );
    let outcome = filter.on_grpc_call_response(1, STATUS_OK, None, &applying(1));
    assert_eq!(
        calls(&outcome),
        vec!["respond 500 [] \"Internal Server Error.\\n\"".to_string()]
    );
}

#[test]
fn reply_in_the_other_protocol_is_a_failed_call() {
    let index = index_with(vec![action_set(
        "api.example.com",
        vec![action(ServiceType::RateLimit, FailureMode::Allow)],
    )]);
    let mut filter = KuadrantFilter::new(1, index, HeaderResolver::new());
    filter.on_http_request_headers(
        Some("api.example.com"),
        &vec![applying(1)],
        &TracingContext::empty(),
    );
    let outcome = filter.on_grpc_call_response(1, STATUS_OK, Some(auth_ok()), &applying(1));
    assert_eq!(calls(&outcome), vec!["resume".to_string()]);
}

#[test]
fn failed_call_in_allow_mode_goes_on_to_the_next_action() {
    let index = index_with(vec![action_set(
        "api.example.com",
        vec![
            action(ServiceType::Auth, FailureMode::Allow),
            action(ServiceType::RateLimit, FailureMode::Deny),
        ],
    )]);
    let mut filter = KuadrantFilter::new(1, index, HeaderResolver::new());
    filter.on_http_request_headers(
        Some("api.example.com"),
        &vec![applying(2)],
        &TracingContext::empty(),
    );
    let outcome = filter.on_grpc_call_response(1, 2, None, &applying(2));
    assert_eq!(outcome.action, Action::Pause);
    assert_eq!(calls(&outcome), vec![rate_limit_dispatch(1)]);
}

#[test]
fn actions_that_do_not_apply_are_skipped() {
    let index = index_with(vec![action_set(
        "api.example.com",
        vec![
            action(ServiceType::Auth, FailureMode::Deny),
            action(ServiceType::Auth, FailureMode::Deny),
            action(ServiceType::RateLimit, FailureMode::Deny),
            action(ServiceType::RateLimit, FailureMode::Deny),
        ],
    )]);
    let mut filter = KuadrantFilter::new(1, index, HeaderResolver::new());
    let context = || with_predicates(vec![false, true, false, true]);
    let outcome = filter.on_http_request_headers(
        Some("api.example.com"),
        &vec![context()],
        &TracingContext::empty(),
    );
    assert_eq!(outcome.calls.len(), 1);
    assert_eq!(filter.awaited_action_set().map(|set| set.len()), Some(4));
    let outcome = filter.on_grpc_call_response(1, STATUS_OK, Some(auth_ok()), &context());
    assert_eq!(outcome.action, Action::Pause);
    assert_eq!(
        calls(&outcome),
        vec![
            "dispatch policy-upstream envoy.service.ratelimit.v3.RateLimitService ShouldRateLimit 2s None []"
                .to_string()
        ]
    );
    let reply = ServiceReply::RateLimitOk { response_headers: vec![] };
    let outcome = filter.on_grpc_call_response(2, STATUS_OK, Some(reply), &context());
    assert_eq!(calls(&outcome), vec!["resume".to_string()]);
    assert_eq!(filter.rpcs_dispatched(), 2);
    assert!(filter.rpcs_dispatched() <= 4);
}

#[test]
fn predicate_error_counts_as_not_applicable() {
    let index = index_with(vec![action_set(
        "api.example.com",
        vec![action(ServiceType::Auth, FailureMode::Deny)],
    )]);
    let mut filter = KuadrantFilter::new(1, index, HeaderResolver::new());
    let context = ActionSetContext {
        predicate: None,
        actions: vec![ActionContext {
            predicate: Some(Err(PropertyError::Get(PropError::new("unreadable".to_string())))),
            message: None,
        }],
    };
    let outcome = filter.on_http_request_headers(
        Some("api.example.com"),
        &vec![context],
        &TracingContext::empty(),
    );
    assert_eq!(outcome.action, Action::Continue);
    assert!(outcome.calls.is_empty());
}

#[test]
fn headers_reach_their_own_phase() {
    let index = index_with(vec![action_set(
        "api.example.com",
        vec![
            action(ServiceType::Auth, FailureMode::Deny),
            action(ServiceType::RateLimit, FailureMode::Deny),
        ],
    )]);
    let mut filter = KuadrantFilter::new(1, index, HeaderResolver::new());
    filter.on_http_request_headers(
        Some("api.example.com"),
        &vec![applying(2)],
        &TracingContext::empty(),
    );
    let reply = ServiceReply::AuthOk {
        request_headers: headers(&[("x-user", "alice"), ("x-plan", "free")]),
        response_headers: headers(&[("x-limit", "10")]),
    };
    let outcome = filter.on_grpc_call_response(1, STATUS_OK, Some(reply), &applying(2));
    assert_eq!(calls(&outcome), vec![rate_limit_dispatch(1)]);
    let reply = ServiceReply::RateLimitOk {
        response_headers: headers(&[("x-limit", "9"), ("x-remaining", "3")]),
    };
    let outcome = filter.on_grpc_call_response(2, STATUS_OK, Some(reply), &applying(2));
    assert_eq!(
        calls(&outcome),
        vec![
            "request-header x-user: alice".to_string(),
            "request-header x-plan: free".to_string(),
            "resume".to_string()
        ]
    );
    let outcome = filter.on_http_response_headers();
    assert_eq!(outcome.action, Action::Continue);
    assert_eq!(
        calls(&outcome),
        vec!["response-header x-limit: 9".to_string(), "response-header x-remaining: 3".to_string()]
    );
    let again = filter.on_http_response_headers();
    assert!(again.calls.is_empty());
}

#[test]
fn buffered_headers_are_not_applied_when_the_request_dies() {
    let index = index_with(vec![action_set(
        "api.example.com",
        vec![
            action(ServiceType::Auth, FailureMode::Deny),
            action(ServiceType::RateLimit, FailureMode::Deny),
        ],
    )]);
    let mut filter = KuadrantFilter::new(1, index, HeaderResolver::new());
    filter.on_http_request_headers(
        Some("api.example.com"),
        &vec![applying(2)],
        &TracingContext::empty(),
    );
    let reply = ServiceReply::AuthOk {
        request_headers: headers(&[("x-user", "alice")]),
        response_headers: headers(&[("x-limit", "10")]),
    };
    filter.on_grpc_call_response(1, STATUS_OK, Some(reply), &applying(2));
    let reply = ServiceReply::RateLimitOverLimit {
        headers: headers(&[("retry-after", "1")]),
        body: "too many".to_string(),
    };
    let outcome = filter.on_grpc_call_response(2, STATUS_OK, Some(reply), &applying(2));
    assert_eq!(
        calls(&outcome),
        vec!["respond 429 [(\"retry-after\", \"1\")] \"too many\"".to_string()]
    );
    assert!(filter.on_http_response_headers().calls.is_empty());
}

#[test]
fn tracing_headers_are_captured_once_and_sent_with_every_call() {
    let index = index_with(vec![action_set(
        "api.example.com",
        vec![
            action(ServiceType::Auth, FailureMode::Deny),
            action(ServiceType::RateLimit, FailureMode::Deny),
        ],
    )]);
    let mut filter = KuadrantFilter::new(1, index, HeaderResolver::new());
    let tracing = TracingContext {
        traceparent: Some(b"00-abc".to_vec()),
        tracestate: None,
        baggage: Some(b"k=v".to_vec()),
    };
    let outcome =
        filter.on_http_request_headers(Some("api.example.com"), &vec![applying(2)], &tracing);
    let expected: Vec<(&'static str, Vec<u8>)> =
        vec![("traceparent", b"00-abc".to_vec()), ("baggage", b"k=v".to_vec())];
    match &outcome.calls[0] {
        HostCall::DispatchGrpcCall { headers, .. } => assert_eq!(headers, &expected),
        _ => panic!("a call to the service was expected"),
    }
    let outcome = filter.on_grpc_call_response(1, STATUS_OK, Some(auth_ok()), &applying(2));
    match &outcome.calls[0] {
        HostCall::DispatchGrpcCall { headers, .. } => assert_eq!(headers, &expected),
        _ => panic!("a call to the service was expected"),
    }
}

#[test]
fn same_inputs_give_the_same_answers() {
    let run = || {
        let index = index_with(vec![action_set(
            "*.example.com",
            vec![
                action(ServiceType::Auth, FailureMode::Deny),
                action(ServiceType::RateLimit, FailureMode::Allow),
            ],
        )]);
        let mut filter = KuadrantFilter::new(1, index, HeaderResolver::new());
        let mut trace = Vec::new();
        let outcome = filter.on_http_request_headers(
            Some("a.example.com:443"),
            &vec![applying(2)],
            &TracingContext::empty(),
        );
        trace.push((outcome.action, calls(&outcome)));
        let reply = ServiceReply::AuthOk {
            request_headers: headers(&[("x-user", "alice")]),
            response_headers: vec![],
        };
        let outcome = filter.on_grpc_call_response(1, STATUS_OK, Some(reply), &applying(2));
        trace.push((outcome.action, calls(&outcome)));
        let outcome = filter.on_grpc_call_response(2, 4, None, &applying(2));
        trace.push((outcome.action, calls(&outcome)));
        let outcome = filter.on_http_response_headers();
        trace.push((outcome.action, calls(&outcome)));
        trace
    };
    let first = run();
    assert_eq!(first, run());
    assert_eq!(first.len(), 4);
    assert_eq!(
        first[2],
        (Action::Continue, vec!["request-header x-user: alice".to_string(), "resume".to_string()])
    );
}

#[test]
fn first_action_set_that_applies_is_selected() {
    let first = action_set("api.example.com", vec![action(ServiceType::Auth, FailureMode::Deny)]);
    let second =
        action_set("api.example.com", vec![action(ServiceType::RateLimit, FailureMode::Deny)]);
    let index = index_with(vec![first, second]);
    let mut filter = KuadrantFilter::new(1, index, HeaderResolver::new());
    let mut skipped = applying(1);
    skipped.predicate = Some(Ok(false));
    let outcome = filter.on_http_request_headers(
        Some("api.example.com"),
        &vec![skipped, applying(1)],
        &TracingContext::empty(),
    );
    assert_eq!(calls(&outcome), vec![rate_limit_dispatch(0)]);
}

fn dispatches(outcome: &Outcome) -> usize {
    outcome
        .calls
        .iter()
        .filter(|call| matches!(call, HostCall::DispatchGrpcCall { .. }))
        .count()
}

#[test]
fn one_call_at_most_is_in_flight() {
    let index = index_with(vec![action_set(
        "api.example.com",
        vec![
            action(ServiceType::Auth, FailureMode::Allow),
            action(ServiceType::RateLimit, FailureMode::Allow),
            action(ServiceType::RateLimit, FailureMode::Allow),
        ],
    )]);
    let mut filter = Filter::new(1, index, HeaderResolver::new());
    let mut outcome = filter.on_http_request_headers(
        Some("api.example.com"),
        &vec![applying(3)],
        &TracingContext::empty(),
    );
    let mut total = 0;
    let mut rounds = 0;
    loop {
        total += dispatches(&outcome);
        assert!(dispatches(&outcome) <= 1);
        assert_eq!(outcome.action == Action::Pause, dispatches(&outcome) == 1);
        assert_eq!(filter.is_awaiting(), dispatches(&outcome) == 1);
        if dispatches(&outcome) == 1 {
            assert!(matches!(outcome.calls.last(), Some(HostCall::DispatchGrpcCall { .. })));
        }
        assert_eq!(filter.rpcs_dispatched(), total);
        if !filter.is_awaiting() {
            break;
        }
        rounds += 1;
        outcome = filter.on_grpc_call_response(rounds, 14, None, &applying(3));
    }
    assert_eq!(total, 3);
    assert_eq!(filter.phase(), Phase::Done);
}
