//! Descriptors of one outbound call to a policy service and of the direct
//! response that ends a request, and the resolver of the tracing headers that
//! every outbound call carries.

use crate::configuration::{FailureMode, Service, ServiceType};
use std::rc::Rc;
use std::time::Duration;
use vstd::prelude::*;

verus! {

/// Service name of the authorization protocol.
pub const AUTH_SERVICE_NAME: &'static str = "envoy.service.auth.v3.Authorization";

/// Method name of the authorization protocol.
pub const AUTH_METHOD_NAME: &'static str = "Check";

/// Service name of the rate-limit protocol.
pub const RATELIMIT_SERVICE_NAME: &'static str = "envoy.service.ratelimit.v3.RateLimitService";

/// Method name of the rate-limit protocol.
pub const RATELIMIT_METHOD_NAME: &'static str = "ShouldRateLimit";

/// Status of the direct response that answers a failed call to a service in
/// deny mode.
pub const INTERNAL_SERVER_ERROR: u32 = 500;

/// Body of the direct response that answers a failed call to a service in
/// deny mode.
pub const INTERNAL_SERVER_ERROR_BODY: &'static str = "Internal Server Error.\n";

/// An ordered list of header names and values.
pub type Headers = Vec<(String, String)>;

/// The service name that goes with a kind of service.
pub open spec fn service_name_of(service_type: ServiceType) -> Seq<char> {
    match service_type {
        ServiceType::Auth => AUTH_SERVICE_NAME@,
        ServiceType::RateLimit => RATELIMIT_SERVICE_NAME@,
    }
}

/// The method name that goes with a kind of service.
pub open spec fn method_name_of(service_type: ServiceType) -> Seq<char> {
    match service_type {
        ServiceType::Auth => AUTH_METHOD_NAME@,
        ServiceType::RateLimit => RATELIMIT_METHOD_NAME@,
    }
}

/// Whether `status` is an HTTP error status (4xx or 5xx).
pub open spec fn is_error_status(status: u32) -> bool {
    400 <= status <= 599
}

/// A configured service together with the coordinates of its protocol.
#[derive(Debug)]
pub struct GrpcService {
    service: Rc<Service>,
    name: &'static str,
    method: &'static str,
}

impl GrpcService {
    /// The configuration this service was made from.
    pub closed spec fn service(&self) -> Service {
        *self.service
    }

    /// The service name placed on outbound calls.
    pub closed spec fn spec_name(&self) -> Seq<char> {
        self.name@
    }

    /// The method name placed on outbound calls.
    pub closed spec fn spec_method(&self) -> Seq<char> {
        self.method@
    }

    /// The coordinates agree with the kind of the configured service.
    pub open spec fn wf(&self) -> bool {
        &&& self.spec_name() == service_name_of(self.service().service_type)
        &&& self.spec_method() == method_name_of(self.service().service_type)
    }

    /// The request that `build_request` makes for `message`.
    pub open spec fn request_for(&self, message: Option<Seq<u8>>) -> GrpcRequestView {
        GrpcRequestView {
            upstream_name: self.service().endpoint@,
            service_name: self.spec_name(),
            method_name: self.spec_method(),
            timeout: self.service().timeout,
            message,
        }
    }

    pub fn new(service: Rc<Service>) -> (grpc_service: Self)
        ensures
            grpc_service.service() == *service,
            grpc_service.wf(),
    {
        match service.service_type {
            ServiceType::Auth => Self {
                service,
                name: AUTH_SERVICE_NAME,
                method: AUTH_METHOD_NAME,
            },
            ServiceType::RateLimit => Self {
                service,
                name: RATELIMIT_SERVICE_NAME,
                method: RATELIMIT_METHOD_NAME,
            },
        }
    }

    pub fn get_timeout(&self) -> (timeout: Duration)
        ensures
            timeout == self.service().timeout,
    {
        self.service.timeout
    }

    pub fn get_service_type(&self) -> (service_type: ServiceType)
        ensures
            service_type == self.service().service_type,
    {
        self.service.service_type
    }

    pub fn get_failure_mode(&self) -> (failure_mode: FailureMode)
        ensures
            failure_mode == self.service().failure_mode,
    {
        self.service.failure_mode
    }

    pub fn endpoint(&self) -> (endpoint: &str)
        ensures
            endpoint@ == self.service().endpoint@,
    {
        self.service.endpoint.as_str()
    }

    pub fn name(&self) -> (name: &str)
        ensures
            name@ == self.spec_name(),
    {
        self.name
    }

    pub fn method(&self) -> (method: &str)
        ensures
            method@ == self.spec_method(),
    {
        self.method
    }

    /// The call to this service that carries `message`.
    pub fn build_request(&self, message: Option<Vec<u8>>) -> (request: GrpcRequest)
        ensures
            request@ == self.request_for(message.deep_view()),
    {
        GrpcRequest::new(
            self.endpoint(),
            self.name(),
            self.method(),
            self.get_timeout(),
            message,
        )
    }
}

/// What a [`GrpcRequest`] holds.
pub struct GrpcRequestView {
    pub upstream_name: Seq<char>,
    pub service_name: Seq<char>,
    pub method_name: Seq<char>,
    pub timeout: Duration,
    pub message: Option<Seq<u8>>,
}

/// All that is needed to make one call to a policy service.
#[derive(Debug)]
pub struct GrpcRequest {
    upstream_name: String,
    service_name: String,
    method_name: String,
    timeout: Duration,
    message: Option<Vec<u8>>,
}

impl View for GrpcRequest {
    type V = GrpcRequestView;

    closed spec fn view(&self) -> GrpcRequestView {
        GrpcRequestView {
            upstream_name: self.upstream_name@,
            service_name: self.service_name@,
            method_name: self.method_name@,
            timeout: self.timeout,
            message: self.message.deep_view(),
        }
    }
}

impl GrpcRequest {
    pub fn new(
        upstream_name: &str,
        service_name: &str,
        method_name: &str,
        timeout: Duration,
        message: Option<Vec<u8>>,
    ) -> (request: Self)
        ensures
            request@ == (GrpcRequestView {
                upstream_name: upstream_name@,
                service_name: service_name@,
                method_name: method_name@,
                timeout,
                message: message.deep_view(),
            }),
    {
        Self {
            upstream_name: upstream_name.to_owned(),
            service_name: service_name.to_owned(),
            method_name: method_name.to_owned(),
            timeout,
            message,
        }
    }

    pub fn upstream_name(&self) -> (name: &str)
        ensures
            name@ == self@.upstream_name,
    {
        self.upstream_name.as_str()
    }

    pub fn service_name(&self) -> (name: &str)
        ensures
            name@ == self@.service_name,
    {
        self.service_name.as_str()
    }

    pub fn method_name(&self) -> (name: &str)
        ensures
            name@ == self@.method_name,
    {
        self.method_name.as_str()
    }

    pub fn timeout(&self) -> (timeout: Duration)
        ensures
            timeout == self@.timeout,
    {
        self.timeout
    }

    pub fn message(&self) -> (message: Option<&[u8]>)
        ensures
            message.deep_view() == self@.message,
    {
        match &self.message {
            Some(bytes) => Some(bytes.as_slice()),
            None => None,
        }
    }
}

/// A request together with the position, in its action set, of the action
/// that it was built for.
#[derive(Debug)]
pub struct IndexedGrpcRequest {
    index: usize,
    request: GrpcRequest,
}

impl IndexedGrpcRequest {
    /// The position of the action in its set.
    pub closed spec fn spec_index(&self) -> usize {
        self.index
    }

    /// The request of the action.
    pub closed spec fn spec_request(&self) -> GrpcRequest {
        self.request
    }

    pub fn new(index: usize, request: GrpcRequest) -> (indexed: Self)
        ensures
            indexed.spec_index() == index,
            indexed.spec_request() == request,
    {
        Self { index, request }
    }

    pub fn index(&self) -> (index: usize)
        ensures
            index == self.spec_index(),
    {
        self.index
    }

    pub fn request(self) -> (request: GrpcRequest)
        ensures
            request == self.spec_request(),
    {
        self.request
    }
}

/// What a [`GrpcErrResponse`] holds.
pub struct GrpcErrResponseView {
    pub status_code: u32,
    pub headers: Seq<(Seq<char>, Seq<char>)>,
    pub body: Seq<char>,
}

/// The direct response that ends a request: an error status, the headers to
/// put on it and its body.
#[derive(Debug)]
pub struct GrpcErrResponse {
    status_code: u32,
    response_headers: Vec<(String, String)>,
    body: String,
}

impl View for GrpcErrResponse {
    type V = GrpcErrResponseView;

    closed spec fn view(&self) -> GrpcErrResponseView {
        GrpcErrResponseView {
            status_code: self.status_code,
            headers: self.response_headers.deep_view(),
            body: self.body@,
        }
    }
}

impl GrpcErrResponse {
    /// The status is an error status.
    pub open spec fn wf(&self) -> bool {
        is_error_status(self@.status_code)
    }

    /// The response that answers a failed call to a service in deny mode.
    pub open spec fn internal_server_error() -> GrpcErrResponseView {
        GrpcErrResponseView {
            status_code: INTERNAL_SERVER_ERROR,
            headers: Seq::empty(),
            body: INTERNAL_SERVER_ERROR_BODY@,
        }
    }

    pub fn new(
        status_code: u32,
        response_headers: Vec<(String, String)>,
        body: String,
    ) -> (response: Self)
        requires
            is_error_status(status_code),
        ensures
            response.wf(),
            response@ == (GrpcErrResponseView {
                status_code,
                headers: response_headers.deep_view(),
                body: body@,
            }),
    {
        Self { status_code, response_headers, body }
    }

    pub fn new_internal_server_error() -> (response: Self)
        ensures
            response.wf(),
            response@ == Self::internal_server_error(),
    {
        let response_headers: Vec<(String, String)> = Vec::new();
        assert(response_headers.deep_view() =~= Seq::empty());
        Self {
            status_code: INTERNAL_SERVER_ERROR,
            response_headers,
            body: INTERNAL_SERVER_ERROR_BODY.to_owned(),
        }
    }

    pub fn status_code(&self) -> (status_code: u32)
        ensures
            status_code == self@.status_code,
    {
        self.status_code
    }

    pub fn headers(&self) -> (headers: Vec<(&str, &str)>)
        ensures
            headers.deep_view() == self@.headers,
    {
        let mut headers: Vec<(&str, &str)> = Vec::new();
        let mut i: usize = 0;
        while i < self.response_headers.len()
            invariant
                i <= self.response_headers.len(),
                headers.len() == i,
                forall|j: int|
                    0 <= j < i ==> #[trigger] headers[j].deep_view()
                        == self.response_headers[j].deep_view(),
            decreases self.response_headers.len() - i,
        {
            let pair = &self.response_headers[i];
            headers.push((pair.0.as_str(), pair.1.as_str()));
            i += 1;
        }
        assert(headers.deep_view() =~= self.response_headers.deep_view());
        headers
    }

    pub fn body(&self) -> (body: &str)
        ensures
            body@ == self@.body,
    {
        self.body.as_str()
    }
}

/// The tracing headers that are propagated on every outbound call.
#[derive(Clone, Copy, Debug, PartialEq, Eq, Structural)]
pub enum TracingHeader {
    Traceparent,
    Tracestate,
    Baggage,
}

impl TracingHeader {
    /// The header's name on the wire.
    pub open spec fn spec_name(&self) -> Seq<char> {
        match self {
            TracingHeader::Traceparent => "traceparent"@,
            TracingHeader::Tracestate => "tracestate"@,
            TracingHeader::Baggage => "baggage"@,
        }
    }

    /// The tracing headers, in the order in which they are captured.
    pub fn all() -> (all: [Self; 3])
        ensures
            all@ == seq![
                TracingHeader::Traceparent,
                TracingHeader::Tracestate,
                TracingHeader::Baggage,
            ],
    {
        [TracingHeader::Traceparent, TracingHeader::Tracestate, TracingHeader::Baggage]
    }

    pub fn as_str(&self) -> (name: &'static str)
        ensures
            name@ == self.spec_name(),
    {
        match self {
            TracingHeader::Traceparent => "traceparent",
            TracingHeader::Tracestate => "tracestate",
            TracingHeader::Baggage => "baggage",
        }
    }
}

/// What the current request carries under each tracing header, as the host
/// reports it: `None` where the request has no such header.
pub struct TracingContext {
    pub traceparent: Option<Vec<u8>>,
    pub tracestate: Option<Vec<u8>>,
    pub baggage: Option<Vec<u8>>,
}

impl TracingContext {
    /// The value carried under `header`.
    pub open spec fn value_of(&self, header: TracingHeader) -> Option<Seq<u8>> {
        match header {
            TracingHeader::Traceparent => self.traceparent.deep_view(),
            TracingHeader::Tracestate => self.tracestate.deep_view(),
            TracingHeader::Baggage => self.baggage.deep_view(),
        }
    }

    /// The entry that `header` adds to the captured list: one pair where the
    /// request carries the header, nothing where it does not.
    pub open spec fn entry(&self, header: TracingHeader) -> Seq<(Seq<char>, Seq<u8>)> {
        match self.value_of(header) {
            Some(value) => seq![(header.spec_name(), value)],
            None => Seq::empty(),
        }
    }

    /// The tracing headers present on the request, in capture order.
    pub open spec fn captured(&self) -> Seq<(Seq<char>, Seq<u8>)> {
        self.entry(TracingHeader::Traceparent) + self.entry(TracingHeader::Tracestate)
            + self.entry(TracingHeader::Baggage)
    }

    /// A context for a request that carries none of the tracing headers.
    pub fn empty() -> (ctx: Self)
        ensures
            ctx.captured() == Seq::<(Seq<char>, Seq<u8>)>::empty(),
            forall|header: TracingHeader| ctx.value_of(header) is None,
    {
        let ctx = TracingContext { traceparent: None, tracestate: None, baggage: None };
        assert(ctx.captured() =~= Seq::empty());
        ctx
    }

    /// The value carried under `header`, if any.
    pub fn get_http_request_header_bytes(&self, header: TracingHeader) -> (value: Option<Vec<u8>>)
        ensures
            value.deep_view() == self.value_of(header),
    {
        let found = match header {
            TracingHeader::Traceparent => &self.traceparent,
            TracingHeader::Tracestate => &self.tracestate,
            TracingHeader::Baggage => &self.baggage,
        };
        match found {
            Some(bytes) => Some(copy_bytes(bytes)),
            None => None,
        }
    }
}

/// A copy of `bytes`.
pub fn copy_bytes(bytes: &Vec<u8>) -> (copy: Vec<u8>)
    ensures
        copy@ == bytes@,
{
    let mut copy: Vec<u8> = Vec::new();
    let mut i: usize = 0;
    while i < bytes.len()
        invariant
            i <= bytes.len(),
            copy@ == bytes@.subrange(0, i as int),
        decreases bytes.len() - i,
    {
        copy.push(bytes[i]);
        i += 1;
        assert(copy@ =~= bytes@.subrange(0, i as int));
    }
    assert(bytes@.subrange(0, i as int) =~= bytes@);
    copy
}

/// Captures the request's tracing headers the first time they are asked
/// for, and hands out the same list ever after.
#[derive(Debug)]
pub struct HeaderResolver {
    headers: Option<Vec<(&'static str, Vec<u8>)>>,
}

impl View for HeaderResolver {
    type V = Option<Seq<(Seq<char>, Seq<u8>)>>;

    /// The captured list, or `None` before the first use.
    closed spec fn view(&self) -> Option<Seq<(Seq<char>, Seq<u8>)>> {
        self.headers.deep_view()
    }
}

impl Default for HeaderResolver {
    fn default() -> (resolver: Self)
        ensures
            resolver@ is None,
    {
        Self::new()
    }
}

impl HeaderResolver {
    pub fn new() -> (resolver: Self)
        ensures
            resolver@ is None,
    {
        Self { headers: None }
    }

    /// Whether the tracing headers have been captured.
    pub fn is_resolved(&self) -> (resolved: bool)
        ensures
            resolved == (self@ is Some),
    {
        self.headers.is_some()
    }

    /// The tracing headers to attach to an outbound call. The first call
    /// captures them from `ctx`; later calls return what was captured then,
    /// whatever `ctx` holds.
    pub fn get_with_ctx(&mut self, ctx: &TracingContext) -> (headers: Vec<(&'static str, Vec<u8>)>)
        ensures
            final(self)@ == Some(
                match old(self)@ {
                    Some(cached) => cached,
                    None => ctx.captured(),
                },
            ),
            Some(headers.deep_view()) == final(self)@,
    {
        if self.headers.is_none() {
            let mut captured: Vec<(&'static str, Vec<u8>)> = Vec::new();
            let all = TracingHeader::all();
            let mut i: usize = 0;
            assert(captured.deep_view() =~= Seq::empty());
            while i < 3
                invariant
                    i <= 3,
                    all@ == seq![
                        TracingHeader::Traceparent,
                        TracingHeader::Tracestate,
                        TracingHeader::Baggage,
                    ],
                    captured.deep_view() == (if i >= 1 {
                        ctx.entry(TracingHeader::Traceparent)
                    } else {
                        Seq::empty()
                    }) + (if i >= 2 {
                        ctx.entry(TracingHeader::Tracestate)
                    } else {
                        Seq::empty()
                    }) + (if i >= 3 {
                        ctx.entry(TracingHeader::Baggage)
                    } else {
                        Seq::empty()
                    }),
                decreases 3 - i,
            {
                let header = all[i];
                let ghost before = captured.deep_view();
                if let Some(value) = ctx.get_http_request_header_bytes(header) {
                    captured.push((header.as_str(), value));
                    assert(captured.deep_view() =~= before + ctx.entry(header));
                }
                assert(captured.deep_view() =~= before + ctx.entry(header));
                i += 1;
            }
            self.headers = Some(captured);
        }
        let mut headers: Vec<(&'static str, Vec<u8>)> = Vec::new();
        match &self.headers {
            Some(cached) => {
                let mut j: usize = 0;
                while j < cached.len()
                    invariant
                        j <= cached.len(),
                        headers.len() == j,
                        forall|k: int|
                            0 <= k < j ==> #[trigger] headers[k].deep_view()
                                == cached[k].deep_view(),
                    decreases cached.len() - j,
                {
                    headers.push((cached[j].0, copy_bytes(&cached[j].1)));
                    j += 1;
                }
                assert(headers.deep_view() =~= cached.deep_view());
            },
            None => {},
        }
        headers
    }
}

} // verus!
