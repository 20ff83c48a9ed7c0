use std::rc::Rc;
use std::time::Duration;

use wasm_shim::configuration::{FailureMode, Service, ServiceType};
use wasm_shim::filter::operations::{
    GrpcMessageReceiverOperation, GrpcMessageSenderOperation, HeadersOperation, Operation,
};
use wasm_shim::headers::{HeaderKind, HeaderPhase};
use wasm_shim::runtime_action::{ActionContext, RuntimeAction, ServiceReply};
use wasm_shim::runtime_action_set::{ActionSetContext, RuntimeActionSet};
use wasm_shim::service::{
    copy_bytes, GrpcErrResponse, GrpcRequest, GrpcService, HeaderResolver, IndexedGrpcRequest,
    TracingContext, TracingHeader,
};

fn service(kind: ServiceType, mode: FailureMode) -> Rc<GrpcService> {
    Rc::new(GrpcService::new(Rc::new(Service::new(
        kind,
        "limitador-cluster".to_string(),
        mode,
        Duration::from_millis(250),
    ))))
}

fn set_of(kinds: Vec<(ServiceType, FailureMode)>) -> Rc<RuntimeActionSet> {
    let actions =
        kinds.into_iter().map(|(kind, mode)| RuntimeAction::new(service(kind, mode))).collect();
    Rc::new(RuntimeActionSet::new("set".to_string(), "example.com".to_string(), actions))
}

fn context(outcomes: Vec<Option<bool>>) -> ActionSetContext {
    ActionSetContext {
        predicate: None,
        actions: outcomes
            .into_iter()
            .enumerate()
            .map(|(i, outcome)| ActionContext {
                predicate: outcome.map(Ok),
                message: Some(vec![i as u8, 0xff]),
            })
            .collect(),
    }
}

fn headers(pairs: &[(&str, &str)]) -> Vec<(String, String)> {
    pairs.iter().map(|(name, value)| (name.to_string(), value.to_string())).collect()
}

fn kind_of(operation: &Operation) -> &'static str {
    match operation {
        Operation::SendGrpcRequest(_) => "send",
        Operation::AwaitGrpcResponse(_) => "await",
        Operation::AddHeaders(_) => "headers",
        Operation::Die(_) => "die",
        Operation::Done() => "done",
    }
}

#[test]
fn read_headers() {
    let mut header_resolver = HeaderResolver::new();

    let headers: Vec<(&str, Vec<u8>)> = vec![("traceparent", b"xyz".to_vec())];
    let mock_host = TracingContext {
        traceparent: Some(b"xyz".to_vec()),
        tracestate: None,
        baggage: None,
    };

    let resolver_headers = header_resolver.get_with_ctx(&mock_host);

    headers.iter().zip(resolver_headers.iter()).for_each(
        |((header_one, value_one), (header_two, value_two))| {
            assert_eq!(header_one, header_two);
            assert_eq!(value_one, value_two);
        },
    )
}

#[test]
fn resolver_captures_the_headers_that_are_present_in_order() {
    let mut resolver = HeaderResolver::new();
    assert!(!resolver.is_resolved());
    let ctx = TracingContext {
        traceparent: None,
        tracestate: Some(b"state".to_vec()),
        baggage: Some(b"bag".to_vec()),
    };
    let captured = resolver.get_with_ctx(&ctx);
    assert_eq!(captured, vec![("tracestate", b"state".to_vec()), ("baggage", b"bag".to_vec())]);
    assert!(resolver.is_resolved());
}

#[test]
fn resolver_captures_once() {
    let mut resolver = HeaderResolver::default();
    let first = TracingContext {
        traceparent: Some(b"one".to_vec()),
        tracestate: None,
        baggage: None,
    };
    let second = TracingContext {
        traceparent: Some(b"two".to_vec()),
        tracestate: Some(b"late".to_vec()),
        baggage: None,
    };
    assert_eq!(resolver.get_with_ctx(&first), vec![("traceparent", b"one".to_vec())]);
    assert_eq!(resolver.get_with_ctx(&second), vec![("traceparent", b"one".to_vec())]);
}

#[test]
fn resolver_without_tracing_headers_gives_an_empty_list() {
    let mut resolver = HeaderResolver::new();
    assert!(resolver.get_with_ctx(&TracingContext::empty()).is_empty());
    assert!(resolver.is_resolved());
    let late = TracingContext {
        traceparent: Some(b"late".to_vec()),
        tracestate: None,
        baggage: None,
    };
    assert!(resolver.get_with_ctx(&late).is_empty());
}

#[test]
fn tracing_header_names() {
    let names: Vec<&str> = TracingHeader::all().iter().map(|header| header.as_str()).collect();
    assert_eq!(names, vec!["traceparent", "tracestate", "baggage"]);
}

#[test]
fn tracing_context_lookup() {
    let ctx = TracingContext {
        traceparent: Some(b"p".to_vec()),
        tracestate: None,
        baggage: Some(vec![]),
    };
    assert_eq!(ctx.get_http_request_header_bytes(TracingHeader::Traceparent), Some(b"p".to_vec()));
    assert_eq!(ctx.get_http_request_header_bytes(TracingHeader::Tracestate), None);
    assert_eq!(ctx.get_http_request_header_bytes(TracingHeader::Baggage), Some(vec![]));
    assert_eq!(copy_bytes(&vec![1, 2, 3]), vec![1, 2, 3]);
}

#[test]
fn grpc_service_coordinates() {
    let auth = service(ServiceType::Auth, FailureMode::Deny);
    assert_eq!(auth.name(), "envoy.service.auth.v3.Authorization");
    assert_eq!(auth.method(), "Check");
    assert_eq!(auth.endpoint(), "limitador-cluster");
    assert_eq!(auth.get_timeout(), Duration::from_millis(250));
    assert_eq!(auth.get_service_type(), ServiceType::Auth);
    assert_eq!(auth.get_failure_mode(), FailureMode::Deny);

    let rate_limit = service(ServiceType::RateLimit, FailureMode::Allow);
    assert_eq!(rate_limit.name(), "envoy.service.ratelimit.v3.RateLimitService");
    assert_eq!(rate_limit.method(), "ShouldRateLimit");
    assert_eq!(rate_limit.get_service_type(), ServiceType::RateLimit);
    assert_eq!(rate_limit.get_failure_mode(), FailureMode::Allow);
}

#[test]
fn grpc_service_builds_requests() {
    let rate_limit = service(ServiceType::RateLimit, FailureMode::Allow);
    let request = rate_limit.build_request(Some(vec![1, 2, 3]));
    assert_eq!(request.upstream_name(), "limitador-cluster");
    assert_eq!(request.service_name(), "envoy.service.ratelimit.v3.RateLimitService");
    assert_eq!(request.method_name(), "ShouldRateLimit");
    assert_eq!(request.timeout(), Duration::from_millis(250));
    assert_eq!(request.message(), Some(&[1u8, 2, 3][..]));
    assert_eq!(rate_limit.build_request(None).message(), None);
}

#[test]
fn grpc_request_keeps_its_parts() {
    let request =
        GrpcRequest::new("upstream", "service", "method", Duration::from_secs(3), Some(vec![]));
    assert_eq!(request.upstream_name(), "upstream");
    assert_eq!(request.service_name(), "service");
    assert_eq!(request.method_name(), "method");
    assert_eq!(request.timeout(), Duration::from_secs(3));
    assert_eq!(request.message(), Some(&[][..]));
    let indexed = IndexedGrpcRequest::new(4, request);
    assert_eq!(indexed.index(), 4);
    assert_eq!(indexed.request().upstream_name(), "upstream");
}

#[test]
fn error_response_keeps_its_parts() {
    let response = GrpcErrResponse::new(
        429,
        headers(&[("retry-after", "1"), ("x-limit", "0")]),
        "too many".to_string(),
    );
    assert_eq!(response.status_code(), 429);
    assert_eq!(response.headers(), vec![("retry-after", "1"), ("x-limit", "0")]);
    assert_eq!(response.body(), "too many");
}

#[test]
fn internal_server_error_response() {
    let response = GrpcErrResponse::new_internal_server_error();
    assert_eq!(response.status_code(), 500);
    assert!(response.headers().is_empty());
    assert_eq!(response.body(), "Internal Server Error.\n");
}

#[test]
fn action_applies_without_predicate_or_when_it_holds() {
    let action = RuntimeAction::new(service(ServiceType::Auth, FailureMode::Deny));
    let ctx = |predicate| ActionContext { predicate, message: None };
    assert!(action.conditions_apply(&ctx(None)));
    assert!(action.conditions_apply(&ctx(Some(Ok(true)))));
    assert!(!action.conditions_apply(&ctx(Some(Ok(false)))));
    assert_eq!(action.get_service_type(), ServiceType::Auth);
    assert_eq!(action.get_failure_mode(), FailureMode::Deny);
    let request = action.build_request(3, &ActionContext { predicate: None, message: Some(vec![5]) });
    assert_eq!(request.index(), 3);
    assert_eq!(request.request().message(), Some(&[5u8][..]));
}

#[test]
fn action_interprets_replies() {
    let auth = RuntimeAction::new(service(ServiceType::Auth, FailureMode::Deny));
    let ok = auth
        .process_response(Some(ServiceReply::AuthOk {
            request_headers: headers(&[("a", "1")]),
            response_headers: headers(&[("b", "2")]),
        }))
        .unwrap();
    assert_eq!(ok.len(), 2);
    assert_eq!(ok[0].phase(), HeaderPhase::Request);
    assert_eq!(ok[1].phase(), HeaderPhase::Response);
    let denied = auth
        .process_response(Some(ServiceReply::AuthDenied {
            status: 401,
            headers: vec![],
            body: "who".to_string(),
        }))
        .unwrap_err();
    assert_eq!(denied.status_code(), 401);
    assert_eq!(denied.body(), "who");
    let beyond = auth
        .process_response(Some(ServiceReply::AuthDenied {
            status: 600,
            headers: vec![],
            body: String::new(),
        }))
        .unwrap_err();
    assert_eq!(beyond.status_code(), 403);
    assert_eq!(auth.process_response(None).unwrap_err().status_code(), 500);
    assert_eq!(auth.process_failure().unwrap_err().body(), "Internal Server Error.\n");

    let rate_limit = RuntimeAction::new(service(ServiceType::RateLimit, FailureMode::Allow));
    let ok = rate_limit
        .process_response(Some(ServiceReply::RateLimitOk { response_headers: headers(&[("b", "2")]) }))
        .unwrap();
    assert_eq!(ok.len(), 1);
    assert_eq!(ok[0].phase(), HeaderPhase::Response);
    let over = rate_limit
        .process_response(Some(ServiceReply::RateLimitOverLimit {
            headers: headers(&[("x", "y")]),
            body: "slow down".to_string(),
        }))
        .unwrap_err();
    assert_eq!(over.status_code(), 429);
    assert_eq!(over.headers(), vec![("x", "y")]);
    assert_eq!(over.body(), "slow down");
    assert!(rate_limit.process_response(None).unwrap().is_empty());
    assert!(rate_limit.process_failure().unwrap().is_empty());
}

#[test]
fn action_set_finds_the_first_applicable_action() {
    let set = set_of(vec![
        (ServiceType::Auth, FailureMode::Deny),
        (ServiceType::RateLimit, FailureMode::Deny),
        (ServiceType::RateLimit, FailureMode::Deny),
    ]);
    assert_eq!(set.len(), 3);
    assert_eq!(set.name(), "set");
    assert_eq!(set.authority(), "example.com");
    let ctx = context(vec![Some(false), None, Some(true)]);
    let first = set.find_first_grpc_request(&ctx).unwrap();
    assert_eq!(first.index(), 1);
    let request = first.request();
    assert_eq!(request.method_name(), "ShouldRateLimit");
    assert_eq!(request.message(), Some(&[1u8, 0xff][..]));
    assert_eq!(set.find_next_grpc_request(2, &ctx).unwrap().index(), 2);
    assert!(set.find_next_grpc_request(3, &ctx).is_none());
    assert!(set.find_next_grpc_request(usize::MAX, &ctx).is_none());
    assert!(set.find_first_grpc_request(&context(vec![Some(false); 3])).is_none());
    assert!(set.find_first_grpc_request(&context(vec![])).is_none());
    assert_eq!(set.find_first_grpc_request(&context(vec![Some(false), None])).unwrap().index(), 1);
}

#[test]
fn action_set_applies_by_its_own_predicate() {
    let set = set_of(vec![(ServiceType::Auth, FailureMode::Deny)]);
    let mut ctx = context(vec![None]);
    assert!(set.conditions_apply(&ctx));
    ctx.predicate = Some(Ok(false));
    assert!(!set.conditions_apply(&ctx));
    ctx.predicate = Some(Ok(true));
    assert!(set.conditions_apply(&ctx));
}

#[test]
fn action_set_advances_past_a_reply() {
    let set = set_of(vec![
        (ServiceType::Auth, FailureMode::Deny),
        (ServiceType::RateLimit, FailureMode::Deny),
    ]);
    let ctx = context(vec![None, None]);
    let reply = ServiceReply::AuthOk {
        request_headers: headers(&[("x-user", "alice")]),
        response_headers: vec![],
    };
    let (next, mutations) = set.process_grpc_response(0, Some(reply), &ctx).unwrap();
    assert_eq!(next.unwrap().index(), 1);
    assert_eq!(mutations.len(), 1);
    let (next, mutations) = set
        .process_grpc_response(1, Some(ServiceReply::RateLimitOk { response_headers: vec![] }), &ctx)
        .unwrap();
    assert!(next.is_none());
    assert!(mutations.is_empty());
    let error = set.process_grpc_response(1, None, &ctx).unwrap_err();
    assert_eq!(error.status_code(), 500);
}

#[test]
fn sender_operation_hands_out_its_parts() {
    let set = set_of(vec![(ServiceType::Auth, FailureMode::Deny), (ServiceType::Auth, FailureMode::Deny)]);
    let request = set.find_next_grpc_request(1, &context(vec![None, None])).unwrap();
    let sender = GrpcMessageSenderOperation::new(Rc::clone(&set), request);
    assert_eq!(sender.current_index(), 1);
    assert!(Rc::ptr_eq(&sender.runtime_action_set(), &set));
    assert_eq!(sender.grpc_request().method_name(), "Check");

    let request = set.find_first_grpc_request(&context(vec![None, None])).unwrap();
    let sender = GrpcMessageSenderOperation::new(Rc::clone(&set), request);
    let (request, receiver) = sender.build_receiver_operation();
    assert_eq!(request.message(), Some(&[0u8, 0xff][..]));
    assert_eq!(receiver.current_index(), 0);
    assert!(Rc::ptr_eq(&receiver.runtime_action_set(), &set));
}

#[test]
fn receiver_digests_a_reply_into_operations() {
    let set = set_of(vec![
        (ServiceType::Auth, FailureMode::Deny),
        (ServiceType::RateLimit, FailureMode::Deny),
    ]);
    let ctx = context(vec![None, None]);
    let reply = ServiceReply::AuthOk {
        request_headers: headers(&[("x-user", "alice")]),
        response_headers: headers(&[("x-seen", "1")]),
    };
    let operations =
        GrpcMessageReceiverOperation::new(Rc::clone(&set), 0).digest_grpc_response(reply, &ctx);
    let kinds: Vec<&str> = operations.iter().map(kind_of).collect();
    assert_eq!(kinds, vec!["headers", "headers", "send"]);
    match &operations[2] {
        Operation::SendGrpcRequest(sender) => assert_eq!(sender.current_index(), 1),
        _ => panic!("a call was expected"),
    }

    let reply = ServiceReply::RateLimitOk { response_headers: vec![] };
    let operations =
        GrpcMessageReceiverOperation::new(Rc::clone(&set), 1).digest_grpc_response(reply, &ctx);
    assert_eq!(operations.iter().map(kind_of).collect::<Vec<_>>(), vec!["done"]);

    let reply = ServiceReply::AuthDenied { status: 403, headers: vec![], body: "no".to_string() };
    let operations =
        GrpcMessageReceiverOperation::new(Rc::clone(&set), 0).digest_grpc_response(reply, &ctx);
    assert_eq!(operations.len(), 1);
    match &operations[0] {
        Operation::Die(response) => assert_eq!(response.status_code(), 403),
        _ => panic!("a direct response was expected"),
    }
}

#[test]
fn failed_call_goes_by_the_failure_mode() {
    let set = set_of(vec![
        (ServiceType::Auth, FailureMode::Allow),
        (ServiceType::RateLimit, FailureMode::Deny),
    ]);
    let ctx = context(vec![None, None]);
    let allowed = GrpcMessageReceiverOperation::new(Rc::clone(&set), 0).fail(&ctx);
    match &allowed {
        Operation::SendGrpcRequest(sender) => assert_eq!(sender.current_index(), 1),
        _ => panic!("the next call was expected"),
    }
    let denied = GrpcMessageReceiverOperation::new(Rc::clone(&set), 1).fail(&ctx);
    match &denied {
        Operation::Die(response) => {
            assert_eq!(response.status_code(), 500);
            assert_eq!(response.body(), "Internal Server Error.\n");
        }
        _ => panic!("a direct response was expected"),
    }
    let last = set_of(vec![(ServiceType::Auth, FailureMode::Allow)]);
    let done = GrpcMessageReceiverOperation::new(last, 0).fail(&context(vec![None]));
    assert_eq!(kind_of(&done), "done");
}

#[test]
fn headers_operation_keeps_its_headers() {
    let operation = HeadersOperation::new(HeaderKind::Request(headers(&[("a", "1")])));
    assert_eq!(operation.headers(), headers(&[("a", "1")]));
    let operation = HeadersOperation::new(HeaderKind::Response(headers(&[("b", "2")])));
    let inner = operation.into_inner();
    assert_eq!(inner.phase(), HeaderPhase::Response);
    assert_eq!(inner.into_headers(), headers(&[("b", "2")]));
}
