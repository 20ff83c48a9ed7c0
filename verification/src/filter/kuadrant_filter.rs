//! The per-request state machine. The host reports each callback as an
//! event; the filter answers with the calls that the host is to make, in
//! order, and with the action that the callback returns. Waiting for a
//! service's reply is expressed as the action `Pause`; the filter itself
//! never blocks.

use crate::action_set_index::ActionSetIndex;
use crate::authority::{authority_of, request_authority};
use crate::filter::operations::{
    digest, lemma_digest_shape, operations_view, GrpcMessageReceiverOperation,
    GrpcMessageSenderOperation, Operation, OperationView,
};
use crate::headers::{
    lemma_merged, merge_headers, merged, unique_names, HeaderKind, HeaderPhase, HeaderSeq,
};
use crate::runtime_action::ServiceReply;
use crate::runtime_action_set::{ActionSetContext, RuntimeActionSet};
use crate::service::{
    GrpcErrResponse, GrpcErrResponseView, GrpcRequest, GrpcRequestView, HeaderResolver, Headers,
    TracingContext,
};
use std::rc::Rc;
use vstd::prelude::*;

verus! {

/// Status code with which the host reports a call that completed.
pub const STATUS_OK: u32 = 0;

/// The code of `Status::Ok` of `proxy_wasm`, with which the host reports a
/// call that completed: it is [`STATUS_OK`].
#[verifier::external_body]
fn status_ok() -> (code: u32)
    ensures
        code == STATUS_OK,
{
    proxy_wasm::types::Status::Ok as u32
}

/// What a callback tells the host to do with the request.
#[derive(Clone, Copy, Debug, PartialEq, Eq, Structural)]
pub enum Action {
    /// Go on with the request.
    Continue,
    /// Hold the request until it is resumed.
    Pause,
}

/// Where the filter stands in the life of its request.
#[derive(Clone, Copy, Debug, PartialEq, Eq, Structural)]
pub enum Phase {
    /// The request's headers have not been seen.
    Idle,
    /// A reply is being worked through.
    Dispatching,
    /// A call is in flight and the request is held.
    AwaitingRpc,
    /// The request went on.
    Done,
    /// The request was ended with a direct response.
    Dying,
}

/// The tracing headers of a request, as contracts see them.
pub type TracingSeq = Seq<(Seq<char>, Seq<u8>)>;

/// A call that the host is to make, as contracts see it.
pub enum HostCallView {
    DispatchGrpcCall { request: GrpcRequestView, headers: TracingSeq },
    AddHttpRequestHeader { name: Seq<char>, value: Seq<char> },
    AddHttpResponseHeader { name: Seq<char>, value: Seq<char> },
    SendHttpResponse(GrpcErrResponseView),
    ResumeHttpRequest,
}

/// A call that the host is to make on the filter's behalf.
pub enum HostCall {
    /// Send `request` to its service, with the tracing headers.
    DispatchGrpcCall { request: GrpcRequest, headers: Vec<(&'static str, Vec<u8>)> },
    /// Put a header on the request.
    AddHttpRequestHeader { name: String, value: String },
    /// Put a header on the response.
    AddHttpResponseHeader { name: String, value: String },
    /// Answer the request with a direct response.
    SendHttpResponse(GrpcErrResponse),
    /// Let the held request go on.
    ResumeHttpRequest,
}

impl View for HostCall {
    type V = HostCallView;

    open spec fn view(&self) -> HostCallView {
        match self {
            HostCall::DispatchGrpcCall { request, headers } => HostCallView::DispatchGrpcCall {
                request: request@,
                headers: headers.deep_view(),
            },
            HostCall::AddHttpRequestHeader { name, value } => HostCallView::AddHttpRequestHeader {
                name: name@,
                value: value@,
            },
            HostCall::AddHttpResponseHeader { name, value } => HostCallView::AddHttpResponseHeader {
                name: name@,
                value: value@,
            },
            HostCall::SendHttpResponse(response) => HostCallView::SendHttpResponse(response@),
            HostCall::ResumeHttpRequest => HostCallView::ResumeHttpRequest,
        }
    }
}

/// The views of a list of calls.
pub open spec fn calls_view(calls: Seq<HostCall>) -> Seq<HostCallView> {
    calls.map_values(|call: HostCall| call@)
}

/// The filter's answer to an event.
pub struct Outcome {
    /// What the callback returns to the host.
    pub action: Action,
    /// The calls that the host is to make, in order.
    pub calls: Vec<HostCall>,
}

/// The state of a filter, as contracts see it.
pub struct FilterView {
    pub phase: Phase,
    /// The call in flight: its action set and the position of its action.
    pub awaiting: Option<(RuntimeActionSet, int)>,
    /// The headers buffered for the request; `None` once they are applied.
    pub request_headers: Option<HeaderSeq>,
    /// The headers buffered for the response; `None` once they are applied.
    pub response_headers: Option<HeaderSeq>,
    /// The tracing headers captured for this request, once they are.
    pub tracing: Option<TracingSeq>,
    /// The action set that the request selected, once a call was made.
    pub selected: Option<RuntimeActionSet>,
    /// The number of calls made for this request.
    pub rpcs_dispatched: nat,
}

/// A step of the state machine: the state it leads to, and the answer
/// given to the host.
pub struct Step {
    pub state: FilterView,
    pub action: Action,
    pub calls: Seq<HostCallView>,
}

/// One call per header, in order, that puts it on the request.
pub open spec fn add_request_header_calls(headers: HeaderSeq) -> Seq<HostCallView> {
    headers.map_values(
        |header: (Seq<char>, Seq<char>)|
            HostCallView::AddHttpRequestHeader { name: header.0, value: header.1 },
    )
}

/// One call per header, in order, that puts it on the response.
pub open spec fn add_response_header_calls(headers: HeaderSeq) -> Seq<HostCallView> {
    headers.map_values(
        |header: (Seq<char>, Seq<char>)|
            HostCallView::AddHttpResponseHeader { name: header.0, value: header.1 },
    )
}

/// The buffer after a mutation is added to it: the headers are merged in,
/// the last value written under a name winning; a buffer that was applied
/// already takes nothing more.
pub open spec fn buffered(buffer: Option<HeaderSeq>, headers: HeaderSeq) -> Option<HeaderSeq> {
    match buffer {
        Some(list) => Some(merged(list, headers)),
        None => None,
    }
}

/// The calls that apply the buffered request headers.
pub open spec fn flush_request_calls(buffer: Option<HeaderSeq>) -> Seq<HostCallView> {
    match buffer {
        Some(list) => add_request_header_calls(list),
        None => Seq::empty(),
    }
}

/// The calls that apply the buffered response headers.
pub open spec fn flush_response_calls(buffer: Option<HeaderSeq>) -> Seq<HostCallView> {
    match buffer {
        Some(list) => add_response_header_calls(list),
        None => Seq::empty(),
    }
}

/// What one operation does to the filter. `captured` is what the request
/// carries under the tracing headers, used where none were captured yet;
/// `resume` says whether the request is held, so that its end resumes it.
pub open spec fn handle(
    pre: FilterView,
    operation: OperationView,
    captured: TracingSeq,
    resume: bool,
) -> Step {
    match operation {
        OperationView::SendGrpcRequest { set, index, request } => {
            let headers = match pre.tracing {
                Some(cached) => cached,
                None => captured,
            };
            Step {
                state: FilterView {
                    phase: Phase::AwaitingRpc,
                    awaiting: Some((set, index)),
                    tracing: Some(headers),
                    selected: Some(set),
                    rpcs_dispatched: pre.rpcs_dispatched + 1,
                    ..pre
                },
                action: Action::Pause,
                calls: seq![HostCallView::DispatchGrpcCall { request, headers }],
            }
        },
        OperationView::AwaitGrpcResponse { set, index } => Step {
            state: FilterView { phase: Phase::AwaitingRpc, awaiting: Some((set, index)), ..pre },
            action: Action::Pause,
            calls: Seq::empty(),
        },
        OperationView::AddHeaders(mutation) => Step {
            state: match mutation.phase {
                HeaderPhase::Request => FilterView {
                    request_headers: buffered(pre.request_headers, mutation.headers),
                    ..pre
                },
                HeaderPhase::Response => FilterView {
                    response_headers: buffered(pre.response_headers, mutation.headers),
                    ..pre
                },
            },
            action: Action::Continue,
            calls: Seq::empty(),
        },
        OperationView::Die(response) => Step {
            state: FilterView {
                phase: Phase::Dying,
                awaiting: None,
                request_headers: None,
                response_headers: None,
                ..pre
            },
            action: Action::Continue,
            calls: seq![HostCallView::SendHttpResponse(response)],
        },
        OperationView::Done => Step {
            state: FilterView { phase: Phase::Done, awaiting: None, request_headers: None, ..pre },
            action: Action::Continue,
            calls: flush_request_calls(pre.request_headers) + (if resume {
                seq![HostCallView::ResumeHttpRequest]
            } else {
                Seq::empty()
            }),
        },
    }
}

/// What a list of operations does to the filter, one after the other: the
/// calls add up, and the action is that of the last operation.
pub open spec fn handle_all(
    pre: FilterView,
    operations: Seq<OperationView>,
    captured: TracingSeq,
    resume: bool,
) -> Step
    decreases operations.len(),
{
    if operations.len() == 0 {
        Step { state: pre, action: Action::Continue, calls: Seq::empty() }
    } else {
        let before = handle_all(pre, operations.drop_last(), captured, resume);
        let last = handle(before.state, operations.last(), captured, resume);
        Step { state: last.state, action: last.action, calls: before.calls + last.calls }
    }
}

/// The position of the first of the first `limit` contexts whose set
/// applies, at or after `from`.
pub open spec fn first_applying(contexts: Seq<ActionSetContext>, limit: int, from: int) -> Option<
    int,
>
    decreases limit - from,
{
    if from < 0 || from >= limit || from >= contexts.len() {
        None
    } else if contexts[from].applies() {
        Some(from)
    } else {
        first_applying(contexts, limit, from + 1)
    }
}

/// The operation that a request starts with: the first call of the first
/// applicable action of the first action set that applies, among those
/// under the most specific pattern that matches the authority; the end of
/// the flow where there is no such call. `contexts` holds what the
/// request's attributes yield for each of those action sets, in order.
pub open spec fn first_operation(
    index: ActionSetIndex,
    authority: Seq<char>,
    contexts: Seq<ActionSetContext>,
) -> OperationView {
    match index.selected(authority) {
        Some(sets) => match first_applying(contexts, sets.len() as int, 0) {
            Some(at) => match (*sets[at]).next_request(&contexts[at], 0) {
                Some((position, request)) => OperationView::SendGrpcRequest {
                    set: *sets[at],
                    index: position,
                    request,
                },
                None => OperationView::Done,
            },
            None => OperationView::Done,
        },
        None => OperationView::Done,
    }
}

/// What holds of a filter's state between two events.
pub open spec fn inv(state: FilterView) -> bool {
    &&& (state.phase == Phase::AwaitingRpc) == (state.awaiting is Some)
    &&& state.phase != Phase::Dispatching
    &&& state.awaiting matches Some((set, index)) ==> {
        &&& 0 <= index < set.actions().len()
        &&& state.selected == Some(set)
        &&& state.rpcs_dispatched <= index + 1
        &&& state.tracing is Some
    }
    &&& match state.selected {
        Some(set) => 1 <= state.rpcs_dispatched <= set.actions().len(),
        None => state.rpcs_dispatched == 0,
    }
    &&& state.request_headers matches Some(list) ==> unique_names(list)
    &&& state.response_headers matches Some(list) ==> unique_names(list)
    &&& state.phase == Phase::Idle ==> {
        &&& state.request_headers == Some(Seq::<(Seq<char>, Seq<char>)>::empty())
        &&& state.response_headers matches Some(list) ==> list.len() == 0
        &&& state.selected is None
    }
    &&& state.phase == Phase::Done ==> state.request_headers is None
    &&& state.phase == Phase::Dying ==> state.request_headers is None
        && state.response_headers is None
}

/// What holds of a filter's state at every moment, also while a reply is
/// being worked through.
pub open spec fn sound(state: FilterView) -> bool {
    &&& match state.selected {
        Some(set) => 1 <= state.rpcs_dispatched <= set.actions().len(),
        None => state.rpcs_dispatched == 0,
    }
    &&& state.request_headers matches Some(list) ==> unique_names(list)
    &&& state.response_headers matches Some(list) ==> unique_names(list)
}

/// Whether the filter in state `pre` may take the operation: a call is
/// sent for an action that lies behind those already called, in the action
/// set that the request selected.
pub open spec fn admissible(pre: FilterView, operation: OperationView) -> bool {
    match operation {
        OperationView::SendGrpcRequest { set, index, .. } => {
            &&& pre.rpcs_dispatched <= index < set.actions().len()
            &&& pre.selected matches Some(selected) ==> selected == set
        },
        OperationView::AwaitGrpcResponse { set, index } => {
            &&& 0 <= index < set.actions().len()
            &&& pre.selected == Some(set)
        },
        _ => true,
    }
}

/// The calls that put `headers` on the request or on the response.
fn header_calls(headers: &Headers, phase: HeaderPhase) -> (calls: Vec<HostCall>)
    ensures
        calls_view(calls@) == match phase {
            HeaderPhase::Request => add_request_header_calls(headers.deep_view()),
            HeaderPhase::Response => add_response_header_calls(headers.deep_view()),
        },
{
    let mut calls: Vec<HostCall> = Vec::new();
    let mut i: usize = 0;
    while i < headers.len()
        invariant
            i <= headers.len(),
            calls.len() == i,
            forall|j: int|
                0 <= j < i ==> (#[trigger] calls[j])@ == match phase {
                    HeaderPhase::Request => HostCallView::AddHttpRequestHeader {
                        name: headers[j].0@,
                        value: headers[j].1@,
                    },
                    HeaderPhase::Response => HostCallView::AddHttpResponseHeader {
                        name: headers[j].0@,
                        value: headers[j].1@,
                    },
                },
        decreases headers.len() - i,
    {
        let name = headers[i].0.clone();
        let value = headers[i].1.clone();
        match phase {
            HeaderPhase::Request => calls.push(HostCall::AddHttpRequestHeader { name, value }),
            HeaderPhase::Response => calls.push(HostCall::AddHttpResponseHeader { name, value }),
        }
        i += 1;
    }
    proof {
        match phase {
            HeaderPhase::Request => {
                assert(calls_view(calls@) =~= add_request_header_calls(headers.deep_view()));
            },
            HeaderPhase::Response => {
                assert(calls_view(calls@) =~= add_response_header_calls(headers.deep_view()));
            },
        }
    }
    calls
}

/// The per-request filter.
pub struct KuadrantFilter {
    context_id: u32,
    index: Rc<ActionSetIndex>,
    header_resolver: HeaderResolver,
    phase: Phase,
    action_set: Option<Rc<RuntimeActionSet>>,
    rpcs_dispatched: usize,
    grpc_message_receiver_operation: Option<GrpcMessageReceiverOperation>,
    response_headers_to_add: Option<Headers>,
    request_headers_to_add: Option<Headers>,
}

/// The filter, by its short name.
pub type Filter = KuadrantFilter;

impl View for KuadrantFilter {
    type V = FilterView;

    closed spec fn view(&self) -> FilterView {
        FilterView {
            phase: self.phase,
            awaiting: match self.grpc_message_receiver_operation {
                Some(receiver) => Some((receiver.spec_action_set(), receiver.spec_index() as int)),
                None => None,
            },
            request_headers: self.request_headers_to_add.deep_view(),
            response_headers: self.response_headers_to_add.deep_view(),
            tracing: self.header_resolver@,
            selected: match self.action_set {
                Some(set) => Some(*set),
                None => None,
            },
            rpcs_dispatched: self.rpcs_dispatched as nat,
        }
    }
}

impl KuadrantFilter {
    /// The identifier that the host gave the request's context.
    pub closed spec fn spec_context_id(&self) -> u32 {
        self.context_id
    }

    /// The configuration's action sets.
    pub closed spec fn spec_index(&self) -> ActionSetIndex {
        *self.index
    }

    /// The state is one that holds between two events, over a well-formed
    /// index.
    pub open spec fn wf(&self) -> bool {
        &&& inv(self@)
        &&& self.spec_index().wf()
    }

    /// A filter for a request whose headers have not been seen.
    pub fn new(
        context_id: u32,
        index: Rc<ActionSetIndex>,
        header_resolver: HeaderResolver,
    ) -> (filter: Self)
        requires
            index.wf(),
        ensures
            filter.wf(),
            filter.spec_context_id() == context_id,
            filter.spec_index() == *index,
            filter@ == (FilterView {
                phase: Phase::Idle,
                awaiting: None,
                request_headers: Some(Seq::empty()),
                response_headers: Some(Seq::empty()),
                tracing: header_resolver@,
                selected: None,
                rpcs_dispatched: 0,
            }),
    {
        let request_headers: Headers = Vec::new();
        let response_headers: Headers = Vec::new();
        assert(request_headers.deep_view() =~= Seq::empty());
        assert(response_headers.deep_view() =~= Seq::empty());
        Self {
            context_id,
            index,
            header_resolver,
            phase: Phase::Idle,
            action_set: None,
            rpcs_dispatched: 0,
            grpc_message_receiver_operation: None,
            response_headers_to_add: Some(response_headers),
            request_headers_to_add: Some(request_headers),
        }
    }

    pub fn context_id(&self) -> (context_id: u32)
        ensures
            context_id == self.spec_context_id(),
    {
        self.context_id
    }

    /// The configuration's action sets.
    pub fn index(&self) -> (index: &ActionSetIndex)
        ensures
            *index == self.spec_index(),
    {
        &self.index
    }

    /// Where the filter stands in the life of its request.
    pub fn phase(&self) -> (phase: Phase)
        ensures
            phase == self@.phase,
    {
        self.phase
    }

    /// Whether the request's headers have not been seen yet.
    pub fn is_idle(&self) -> (idle: bool)
        ensures
            idle == (self@.phase == Phase::Idle),
    {
        match self.phase {
            Phase::Idle => true,
            _ => false,
        }
    }

    /// Whether a call is in flight.
    pub fn is_awaiting(&self) -> (awaiting: bool)
        ensures
            awaiting == (self@.phase == Phase::AwaitingRpc),
    {
        match self.phase {
            Phase::AwaitingRpc => true,
            _ => false,
        }
    }

    /// The number of calls made for this request.
    pub fn rpcs_dispatched(&self) -> (count: usize)
        ensures
            count == self@.rpcs_dispatched,
    {
        self.rpcs_dispatched
    }

    /// The position, in its action set, of the action whose call is in
    /// flight.
    pub fn awaited_index(&self) -> (index: Option<usize>)
        ensures
            match index {
                Some(index) => self@.awaiting matches Some((_, awaited)) && awaited == index,
                None => self@.awaiting is None,
            },
    {
        match &self.grpc_message_receiver_operation {
            Some(receiver) => Some(receiver.current_index()),
            None => None,
        }
    }

    /// The action set of the call in flight.
    pub fn awaited_action_set(&self) -> (set: Option<Rc<RuntimeActionSet>>)
        ensures
            match set {
                Some(set) => self@.awaiting matches Some((awaited, _)) && awaited == *set,
                None => self@.awaiting is None,
            },
    {
        match &self.grpc_message_receiver_operation {
            Some(receiver) => Some(receiver.runtime_action_set()),
            None => None,
        }
    }
}

/// The reply that is worked through for a call that the host reports with
/// `status_code`: the service's reply where the call completed, `None`, a
/// failed call, where it did not or where no reply could be had.
pub open spec fn reply_of(status_code: u32, response: Option<ServiceReply>) -> Option<
    ServiceReply,
> {
    if status_code == STATUS_OK {
        response
    } else {
        None
    }
}

/// The state in which a reply is worked through: that of the filter
/// without the call that was in flight.
pub open spec fn dispatching(pre: FilterView) -> FilterView {
    FilterView { phase: Phase::Dispatching, awaiting: None, ..pre }
}

impl KuadrantFilter {
    /// The step that the filter and its answer amount to.
    pub open spec fn step_to(&self, outcome: Outcome) -> Step {
        Step { state: self@, action: outcome.action, calls: calls_view(outcome.calls@) }
    }

    /// Asks the host to send `req`, with the tracing headers of the request.
    fn send_grpc_request(&mut self, req: GrpcRequest, tracing: &TracingContext) -> (call: HostCall)
        ensures
            final(self)@ == (FilterView {
                tracing: Some(
                    match old(self)@.tracing {
                        Some(cached) => cached,
                        None => tracing.captured(),
                    },
                ),
                ..old(self)@
            }),
            final(self).spec_index() == old(self).spec_index(),
            final(self).spec_context_id() == old(self).spec_context_id(),
            final(self)@.tracing matches Some(headers) && call@ == (HostCallView::DispatchGrpcCall {
                request: req@,
                headers,
            }),
    {
        let headers = self.header_resolver.get_with_ctx(tracing);
        HostCall::DispatchGrpcCall { request: req, headers }
    }

    /// Takes the buffered request headers and asks the host to put them on
    /// the request.
    fn add_request_headers(&mut self) -> (calls: Vec<HostCall>)
        ensures
            final(self)@ == (FilterView { request_headers: None, ..old(self)@ }),
            final(self).spec_index() == old(self).spec_index(),
            final(self).spec_context_id() == old(self).spec_context_id(),
            calls_view(calls@) == flush_request_calls(old(self)@.request_headers),
    {
        match self.request_headers_to_add.take() {
            Some(request_headers) => header_calls(&request_headers, HeaderPhase::Request),
            None => {
                let calls: Vec<HostCall> = Vec::new();
                assert(calls_view(calls@) =~= Seq::empty());
                calls
            },
        }
    }

    /// Asks the host to answer the request with `die`.
    fn die(&mut self, die: GrpcErrResponse) -> (call: HostCall)
        ensures
            final(self)@ == (FilterView {
                phase: Phase::Dying,
                awaiting: None,
                request_headers: None,
                response_headers: None,
                ..old(self)@
            }),
            final(self).spec_index() == old(self).spec_index(),
            final(self).spec_context_id() == old(self).spec_context_id(),
            call@ == HostCallView::SendHttpResponse(die@),
    {
        self.phase = Phase::Dying;
        self.grpc_message_receiver_operation = None;
        self.request_headers_to_add = None;
        self.response_headers_to_add = None;
        HostCall::SendHttpResponse(die)
    }

    /// Works through one operation.
    fn handle_operation(
        &mut self,
        operation: Operation,
        tracing: &TracingContext,
        resume: bool,
    ) -> (outcome: Outcome)
        requires
            sound(old(self)@),
            operation.wf(),
            admissible(old(self)@, operation@),
        ensures
            final(self).step_to(outcome) == handle(
                old(self)@,
                operation@,
                tracing.captured(),
                resume,
            ),
            sound(final(self)@),
            final(self).spec_index() == old(self).spec_index(),
            final(self).spec_context_id() == old(self).spec_context_id(),
    {
        let ghost pre = self@;
        match operation {
            Operation::SendGrpcRequest(sender_op) => {
                let action_set = sender_op.runtime_action_set();
                let index = sender_op.current_index();
                let actions = action_set.len();
                assert(self.rpcs_dispatched <= index < actions);
                let (req, receiver_op) = sender_op.build_receiver_operation();
                let call = self.send_grpc_request(req, tracing);
                self.action_set = Some(action_set);
                self.rpcs_dispatched = self.rpcs_dispatched + 1;
                self.grpc_message_receiver_operation = Some(receiver_op);
                self.phase = Phase::AwaitingRpc;
                let mut calls: Vec<HostCall> = Vec::new();
                calls.push(call);
                assert(calls_view(calls@) =~= seq![call@]);
                Outcome { action: Action::Pause, calls }
            },
            Operation::AwaitGrpcResponse(receiver_op) => {
                self.grpc_message_receiver_operation = Some(receiver_op);
                self.phase = Phase::AwaitingRpc;
                let calls: Vec<HostCall> = Vec::new();
                assert(calls_view(calls@) =~= Seq::empty());
                Outcome { action: Action::Pause, calls }
            },
            Operation::AddHeaders(header_op) => {
                match header_op.into_inner() {
                    HeaderKind::Request(headers) => {
                        match self.request_headers_to_add.take() {
                            Some(existing_headers) => {
                                let mut existing_headers = existing_headers;
                                merge_headers(&mut existing_headers, headers);
                                self.request_headers_to_add = Some(existing_headers);
                            },
                            None => {},
                        }
                    },
                    HeaderKind::Response(headers) => {
                        match self.response_headers_to_add.take() {
                            Some(existing_headers) => {
                                let mut existing_headers = existing_headers;
                                merge_headers(&mut existing_headers, headers);
                                self.response_headers_to_add = Some(existing_headers);
                            },
                            None => {},
                        }
                    },
                }
                let calls: Vec<HostCall> = Vec::new();
                assert(calls_view(calls@) =~= Seq::empty());
                Outcome { action: Action::Continue, calls }
            },
            Operation::Die(die_op) => {
                let call = self.die(die_op);
                let mut calls: Vec<HostCall> = Vec::new();
                calls.push(call);
                assert(calls_view(calls@) =~= seq![call@]);
                Outcome { action: Action::Continue, calls }
            },
            Operation::Done() => {
                let mut calls = self.add_request_headers();
                self.phase = Phase::Done;
                self.grpc_message_receiver_operation = None;
                let ghost flushed = calls_view(calls@);
                if resume {
                    calls.push(HostCall::ResumeHttpRequest);
                    assert(calls_view(calls@) =~= flushed + seq![HostCallView::ResumeHttpRequest]);
                } else {
                    assert(calls_view(calls@) =~= flushed + Seq::empty());
                }
                Outcome { action: Action::Continue, calls }
            },
        }
    }
}

/// The position of the first action set that applies to the request.
fn select_action_set(
    action_sets: &Vec<Rc<RuntimeActionSet>>,
    contexts: &Vec<ActionSetContext>,
) -> (found: Option<usize>)
    ensures
        match found {
            Some(at) => first_applying(contexts@, action_sets.len() as int, 0) == Some(at as int)
                && at < action_sets.len() && at < contexts.len(),
            None => first_applying(contexts@, action_sets.len() as int, 0) is None,
        },
{
    let mut at: usize = 0;
    while at < action_sets.len() && at < contexts.len()
        invariant
            first_applying(contexts@, action_sets.len() as int, at as int) == first_applying(
                contexts@,
                action_sets.len() as int,
                0,
            ),
        decreases action_sets.len() - at,
    {
        if action_sets[at].conditions_apply(&contexts[at]) {
            return Some(at);
        }
        at += 1;
    }
    None
}

/// The operation that the flow through `action_set` starts with: the call
/// of its first applicable action, or the end of the flow.
fn start_flow(action_set: Rc<RuntimeActionSet>, ctx: &ActionSetContext) -> (operation: Operation)
    ensures
        operation.wf(),
        operation@ == match (*action_set).next_request(ctx, 0) {
            Some((position, request)) => OperationView::SendGrpcRequest {
                set: *action_set,
                index: position,
                request,
            },
            None => OperationView::Done,
        },
{
    proof {
        (*action_set).lemma_next_applicable(ctx, 0);
    }
    match action_set.find_first_grpc_request(ctx) {
        None => Operation::Done(),
        Some(indexed_req) => Operation::SendGrpcRequest(
            GrpcMessageSenderOperation::new(action_set, indexed_req),
        ),
    }
}

impl KuadrantFilter {
    /// The request's headers are in. `authority_header` is the value of the
    /// `:authority` header, if the request has one; `contexts` holds what
    /// the request's attributes yield for each action set under the most
    /// specific pattern that matches the authority, in order; `tracing`
    /// holds what the request carries under the tracing headers.
    ///
    /// The filter selects the first of those action sets that applies and
    /// sends the call of its first applicable action; the request is then
    /// held. Where no pattern matches, no set applies or no action applies,
    /// the request goes on at once.
    pub fn on_http_request_headers(
        &mut self,
        authority_header: Option<&str>,
        contexts: &Vec<ActionSetContext>,
        tracing: &TracingContext,
    ) -> (outcome: Outcome)
        requires
            old(self).wf(),
            old(self)@.phase == Phase::Idle,
        ensures
            final(self).wf(),
            final(self).spec_index() == old(self).spec_index(),
            final(self).spec_context_id() == old(self).spec_context_id(),
            final(self).step_to(outcome) == handle(
                old(self)@,
                first_operation(
                    old(self).spec_index(),
                    authority_of(authority_header.deep_view()),
                    contexts@,
                ),
                tracing.captured(),
                false,
            ),
    {
        let authority = request_authority(authority_header);
        let index = Rc::clone(&self.index);
        let operation = match index.get_longest_match_action_sets(authority.as_str()) {
            Some(action_sets) => {
                match select_action_set(action_sets, contexts) {
                    Some(at) => start_flow(Rc::clone(&action_sets[at]), &contexts[at]),
                    None => Operation::Done(),
                }
            },
            None => Operation::Done(),
        };
        self.handle_operation(operation, tracing, false)
    }

    /// The host reports the end of the call in flight: `status_code` is
    /// [`STATUS_OK`] where the call completed, and `response` the service's
    /// reply, `None` where none could be had. `ctx` holds what the request's
    /// attributes now yield for the action set of the call. A call that the
    /// host could not even send is reported in the same way, with a status
    /// other than [`STATUS_OK`].
    ///
    /// The filter works through the operations that the reply leaves: it
    /// buffers the headers to inject, and then either sends the next call,
    /// or applies the request headers and resumes the request, or ends the
    /// request with a direct response.
    pub fn on_grpc_call_response(
        &mut self,
        token_id: u32,
        status_code: u32,
        response: Option<ServiceReply>,
        ctx: &ActionSetContext,
    ) -> (outcome: Outcome)
        requires
            old(self).wf(),
            old(self)@.phase == Phase::AwaitingRpc,
        ensures
            final(self).wf(),
            final(self).spec_index() == old(self).spec_index(),
            final(self).spec_context_id() == old(self).spec_context_id(),
            old(self)@.awaiting matches Some((set, index)) && final(self).step_to(outcome)
                == handle_all(
                dispatching(old(self)@),
                digest(set, index, reply_of(status_code, response), ctx),
                Seq::empty(),
                true,
            ),
    {
        let ghost pre = self@;
        let ghost before = *self;
        let receiver = self.grpc_message_receiver_operation.take().unwrap();
        self.phase = Phase::Dispatching;
        let ghost set = receiver.spec_action_set();
        let ghost index = receiver.spec_index() as int;
        let ghost reply = reply_of(status_code, response);
        let mut ops: Vec<Operation> = if status_code != status_ok() {
            one_operation(receiver.fail(ctx))
        } else {
            match response {
                Some(reply) => receiver.digest_grpc_response(reply, ctx),
                None => one_operation(receiver.fail(ctx)),
            }
        };
        let ghost all = operations_view(ops@);
        proof {
            assert(all == digest(set, index, reply, ctx));
            lemma_digest_shape(set, index, reply, ctx);
            assert(all.subrange(0, all.len() as int) =~= all);
        }
        let no_tracing = TracingContext::empty();
        let mut calls: Vec<HostCall> = Vec::new();
        let mut action = Action::Continue;
        let ghost mut done: int = 0;
        assert(calls_view(calls@) =~= Seq::empty());
        assert(self@ == dispatching(pre));
        while ops.len() > 0
            invariant
                0 <= done <= all.len(),
                all.len() >= 1,
                operations_view(ops@) == all.subrange(done, all.len() as int),
                forall|i: int| 0 <= i < ops.len() ==> (#[trigger] ops[i]).wf(),
                (Step { state: self@, action, calls: calls_view(calls@) }) == handle_all(
                    dispatching(pre),
                    all.subrange(0, done),
                    Seq::empty(),
                    true,
                ),
                sound(self@),
                self.spec_index() == before.spec_index(),
                self.spec_context_id() == before.spec_context_id(),
                done < all.len() ==> {
                    &&& self@.phase == Phase::Dispatching
                    &&& self@.awaiting is None
                    &&& self@.selected == Some(set)
                    &&& self@.rpcs_dispatched <= index + 1
                    &&& self@.tracing is Some
                },
                done == all.len() ==> inv(self@),
                0 <= index < set.actions().len(),
                forall|k: int| 0 <= k < all.len() - 1 ==> #[trigger] all[k] is AddHeaders,
                match all.last() {
                    OperationView::SendGrpcRequest { set: next_set, index: next, .. } => next_set
                        == set && index < next < set.actions().len(),
                    OperationView::Done => true,
                    OperationView::Die(_) => all.len() == 1,
                    _ => false,
                },
                no_tracing.captured() == Seq::<(Seq<char>, Seq<u8>)>::empty(),
            decreases ops.len(),
        {
            let ghost pending = operations_view(ops@);
            let ghost so_far = calls_view(calls@);
            let ghost state = self@;
            let ghost waiting = ops@;
            assert(pending.len() == waiting.len());
            assert(all.subrange(done, all.len() as int).len() == all.len() - done);
            assert(done < all.len());
            let operation = ops.remove(0);
            proof {
                assert(operation@ == pending[0]);
                assert(pending[0] == all[done + 0]);
                assert(operation@ == all[done]);
                assert forall|i: int| 0 <= i < ops.len() implies #[trigger] operations_view(
                    ops@,
                )[i] == all[done + 1 + i] by {
                    assert(ops[i] == waiting[i + 1]);
                    assert(pending[i + 1] == all[done + (i + 1)]);
                }
                assert(operations_view(ops@) =~= all.subrange(done + 1, all.len() as int));
                assert(all.subrange(0, done + 1).drop_last() =~= all.subrange(0, done));
                assert(all.subrange(0, done + 1).last() == all[done]);
                if done < all.len() - 1 {
                    assert(all[done] is AddHeaders);
                } else {
                    assert(all[done] == all.last());
                }
            }
            let outcome = self.handle_operation(operation, &no_tracing, true);
            action = outcome.action;
            let mut made = outcome.calls;
            let ghost added = calls_view(made@);
            calls.append(&mut made);
            proof {
                assert(calls_view(calls@) =~= so_far + added);
                if done < all.len() - 1 {
                    let mutation = all[done]->AddHeaders_0;
                    match mutation.phase {
                        HeaderPhase::Request => {
                            if let Some(list) = state.request_headers {
                                lemma_merged(list, mutation.headers);
                            }
                        },
                        HeaderPhase::Response => {
                            if let Some(list) = state.response_headers {
                                lemma_merged(list, mutation.headers);
                            }
                        },
                    }
                }
                done = done + 1;
            }
        }
        Outcome { action, calls }
    }

    /// The response's headers are in: the filter asks the host to put the
    /// buffered response headers on the response. Nothing is buffered any
    /// more once the request was ended with a direct response.
    pub fn on_http_response_headers(&mut self) -> (outcome: Outcome)
        requires
            old(self).wf(),
        ensures
            final(self).wf(),
            final(self).spec_index() == old(self).spec_index(),
            final(self).spec_context_id() == old(self).spec_context_id(),
            final(self).step_to(outcome) == (Step {
                state: FilterView { response_headers: None, ..old(self)@ },
                action: Action::Continue,
                calls: flush_response_calls(old(self)@.response_headers),
            }),
    {
        let calls = match self.response_headers_to_add.take() {
            Some(response_headers) => header_calls(&response_headers, HeaderPhase::Response),
            None => {
                let calls: Vec<HostCall> = Vec::new();
                assert(calls_view(calls@) =~= Seq::empty());
                calls
            },
        };
        Outcome { action: Action::Continue, calls }
    }
}

/// A list of the one operation.
fn one_operation(operation: Operation) -> (operations: Vec<Operation>)
    ensures
        operations@ == seq![operation],
{
    let mut operations: Vec<Operation> = Vec::new();
    operations.push(operation);
    operations
}

} // verus!
