//! One policy step: a reference to the service it calls, and the rules that
//! turn the service's reply into header mutations or into the direct
//! response that ends the request.

use crate::configuration::{FailureMode, ServiceType};
use crate::data::property::PropertyError;
use crate::headers::{HeaderKind, HeaderMutation, HeaderPhase, HeaderSeq, mutations_view};
use crate::service::{
    copy_bytes, is_error_status, GrpcErrResponse, GrpcErrResponseView, GrpcRequestView,
    GrpcService, Headers, IndexedGrpcRequest,
};
use std::rc::Rc;
use vstd::prelude::*;

verus! {

/// Status of the direct response that answers a request over its rate limit.
pub const TOO_MANY_REQUESTS: u32 = 429;

/// Status of the direct response that answers a denied request where the
/// authorization service names no error status.
pub const FORBIDDEN: u32 = 403;

/// What the current request's attributes yield for one action. The host
/// side evaluates the action's predicate and builds its payload; the
/// outcome is handed over in this form.
#[derive(Debug)]
pub struct ActionContext {
    /// Outcome of the action's predicate: `None` where the action has no
    /// predicate, an error where an attribute it reads could not be had.
    pub predicate: Option<Result<bool, PropertyError>>,
    /// The payload of the call to the action's service.
    pub message: Option<Vec<u8>>,
}

impl ActionContext {
    /// Whether the action applies to the request: it has no predicate, or
    /// its predicate was evaluated and holds.
    pub open spec fn applies(&self) -> bool {
        match self.predicate {
            None => true,
            Some(Ok(holds)) => holds,
            Some(Err(_)) => false,
        }
    }
}

/// The reply of a policy service, decoded.
#[derive(Debug)]
pub enum ServiceReply {
    /// The authorization service lets the request pass.
    AuthOk { request_headers: Headers, response_headers: Headers },
    /// The authorization service denies the request.
    AuthDenied { status: u32, headers: Headers, body: String },
    /// The request is within its rate limit.
    RateLimitOk { response_headers: Headers },
    /// The request is over its rate limit.
    RateLimitOverLimit { headers: Headers, body: String },
}

/// The mutations that carry the two lists: one per phase, request first, and
/// none for an empty list.
pub open spec fn mutations_of(request: HeaderSeq, response: HeaderSeq) -> Seq<HeaderMutation> {
    (if request.len() > 0 {
        seq![HeaderMutation { phase: HeaderPhase::Request, headers: request }]
    } else {
        Seq::empty()
    }) + (if response.len() > 0 {
        seq![HeaderMutation { phase: HeaderPhase::Response, headers: response }]
    } else {
        Seq::empty()
    })
}

/// The status of the direct response to a denied request.
pub open spec fn denied_status(status: u32) -> u32 {
    if is_error_status(status) {
        status
    } else {
        FORBIDDEN
    }
}

/// What a failed call amounts to: the request ends with an internal server
/// error in deny mode, and goes on untouched in allow mode.
pub open spec fn failure_verdict(failure_mode: FailureMode) -> Result<
    Seq<HeaderMutation>,
    GrpcErrResponseView,
> {
    match failure_mode {
        FailureMode::Deny => Err(GrpcErrResponse::internal_server_error()),
        FailureMode::Allow => Ok(Seq::empty()),
    }
}

/// What a reply amounts to for an action of the given kind and failure
/// mode: the header mutations to inject where the request may go on, the
/// direct response where it ends. `None` stands for a call that failed; a
/// reply in the other service's protocol counts as a failed call too.
pub open spec fn verdict(
    service_type: ServiceType,
    failure_mode: FailureMode,
    reply: Option<ServiceReply>,
) -> Result<Seq<HeaderMutation>, GrpcErrResponseView> {
    match (service_type, reply) {
        (ServiceType::Auth, Some(ServiceReply::AuthOk { request_headers, response_headers })) => Ok(
            mutations_of(request_headers.deep_view(), response_headers.deep_view()),
        ),
        (ServiceType::Auth, Some(ServiceReply::AuthDenied { status, headers, body })) => Err(
            GrpcErrResponseView {
                status_code: denied_status(status),
                headers: headers.deep_view(),
                body: body@,
            },
        ),
        (ServiceType::RateLimit, Some(ServiceReply::RateLimitOk { response_headers })) => Ok(
            mutations_of(Seq::empty(), response_headers.deep_view()),
        ),
        (ServiceType::RateLimit, Some(ServiceReply::RateLimitOverLimit { headers, body })) => Err(
            GrpcErrResponseView {
                status_code: TOO_MANY_REQUESTS,
                headers: headers.deep_view(),
                body: body@,
            },
        ),
        _ => failure_verdict(failure_mode),
    }
}

/// The views of an interpreted reply.
pub open spec fn verdict_view(result: Result<Vec<HeaderKind>, GrpcErrResponse>) -> Result<
    Seq<HeaderMutation>,
    GrpcErrResponseView,
> {
    match result {
        Ok(mutations) => Ok(mutations_view(mutations@)),
        Err(response) => Err(response@),
    }
}

/// One policy step of an action set.
#[derive(Debug)]
pub struct RuntimeAction {
    grpc_service: Rc<GrpcService>,
}

impl RuntimeAction {
    /// The service the action calls.
    pub closed spec fn grpc_service(&self) -> GrpcService {
        *self.grpc_service
    }

    /// The kind of the service the action calls.
    pub open spec fn service_type(&self) -> ServiceType {
        self.grpc_service().service().service_type
    }

    /// The failure mode of the service the action calls.
    pub open spec fn failure_mode(&self) -> FailureMode {
        self.grpc_service().service().failure_mode
    }

    /// The request that the action sends where the request's attributes
    /// yield `ctx`.
    pub open spec fn request_for(&self, ctx: &ActionContext) -> GrpcRequestView {
        self.grpc_service().request_for(ctx.message.deep_view())
    }

    pub fn new(grpc_service: Rc<GrpcService>) -> (action: Self)
        ensures
            action.grpc_service() == *grpc_service,
    {
        RuntimeAction { grpc_service }
    }

    pub fn get_failure_mode(&self) -> (failure_mode: FailureMode)
        ensures
            failure_mode == self.failure_mode(),
    {
        self.grpc_service.get_failure_mode()
    }

    pub fn get_service_type(&self) -> (service_type: ServiceType)
        ensures
            service_type == self.service_type(),
    {
        self.grpc_service.get_service_type()
    }

    /// Whether the action applies to the request whose attributes yield
    /// `ctx`.
    pub fn conditions_apply(&self, ctx: &ActionContext) -> (applies: bool)
        ensures
            applies == ctx.applies(),
    {
        match &ctx.predicate {
            None => true,
            Some(Ok(holds)) => *holds,
            Some(Err(_)) => false,
        }
    }

    /// The call to the action's service, marked with the action's position
    /// `index` in its set.
    pub fn build_request(&self, index: usize, ctx: &ActionContext) -> (request: IndexedGrpcRequest)
        ensures
            request.spec_index() == index,
            request.spec_request()@ == self.request_for(ctx),
    {
        let message = match &ctx.message {
            Some(bytes) => Some(copy_bytes(bytes)),
            None => None,
        };
        IndexedGrpcRequest::new(index, self.grpc_service.build_request(message))
    }

    /// What a failed call to the action's service amounts to.
    pub fn process_failure(&self) -> (result: Result<Vec<HeaderKind>, GrpcErrResponse>)
        ensures
            verdict_view(result) == failure_verdict(self.failure_mode()),
            result matches Err(response) ==> response.wf(),
    {
        match self.get_failure_mode() {
            FailureMode::Deny => Err(GrpcErrResponse::new_internal_server_error()),
            FailureMode::Allow => {
                let mutations: Vec<HeaderKind> = Vec::new();
                assert(mutations_view(mutations@) =~= Seq::empty());
                Ok(mutations)
            },
        }
    }

    /// Interprets the reply of the action's service; `None` stands for a call
    /// that failed.
    pub fn process_response(&self, reply: Option<ServiceReply>) -> (result: Result<
        Vec<HeaderKind>,
        GrpcErrResponse,
    >)
        ensures
            verdict_view(result) == verdict(self.service_type(), self.failure_mode(), reply),
            result matches Err(response) ==> response.wf(),
    {
        match (self.get_service_type(), reply) {
            (
                ServiceType::Auth,
                Some(ServiceReply::AuthOk { request_headers, response_headers }),
            ) => Ok(header_mutations(request_headers, response_headers)),
            (ServiceType::Auth, Some(ServiceReply::AuthDenied { status, headers, body })) => {
                let status_code = if 400 <= status && status <= 599 {
                    status
                } else {
                    FORBIDDEN
                };
                Err(GrpcErrResponse::new(status_code, headers, body))
            },
            (ServiceType::RateLimit, Some(ServiceReply::RateLimitOk { response_headers })) => {
                let none: Headers = Vec::new();
                assert(none.deep_view() =~= Seq::empty());
                Ok(header_mutations(none, response_headers))
            },
            (ServiceType::RateLimit, Some(ServiceReply::RateLimitOverLimit { headers, body })) => {
                Err(GrpcErrResponse::new(TOO_MANY_REQUESTS, headers, body))
            },
            _ => self.process_failure(),
        }
    }
}

/// The mutations that carry the two lists: one per phase, request first, and
/// none for an empty list.
pub fn header_mutations(request: Headers, response: Headers) -> (mutations: Vec<HeaderKind>)
    ensures
        mutations_view(mutations@) == mutations_of(request.deep_view(), response.deep_view()),
{
    let mut mutations: Vec<HeaderKind> = Vec::new();
    let ghost request_view = request.deep_view();
    let ghost response_view = response.deep_view();
    if request.len() > 0 {
        mutations.push(HeaderKind::Request(request));
    }
    if response.len() > 0 {
        mutations.push(HeaderKind::Response(response));
    }
    assert(mutations_view(mutations@) =~= mutations_of(request_view, response_view));
    mutations
}

} // verus!
