//! Pending operations: the units of work that the filter works through one
//! by one. An operation that sends a call leaves one that awaits its reply,
//! and the reply, once digested, leaves the operations that follow.

use crate::headers::{mutations_view, HeaderKind, HeaderMutation};
use crate::runtime_action::ServiceReply;
use crate::runtime_action_set::{indexed_view, ActionSetContext, RuntimeActionSet};
use crate::service::{
    GrpcErrResponse, GrpcErrResponseView, GrpcRequest, GrpcRequestView, Headers,
    IndexedGrpcRequest,
};
use std::rc::Rc;
use vstd::prelude::*;

verus! {

/// A pending operation as contracts see it.
pub enum OperationView {
    /// Send `request`, built for the action at `index` of `set`.
    SendGrpcRequest { set: RuntimeActionSet, index: int, request: GrpcRequestView },
    /// Await the reply to the call made for the action at `index` of `set`.
    AwaitGrpcResponse { set: RuntimeActionSet, index: int },
    /// Buffer the headers for their phase.
    AddHeaders(HeaderMutation),
    /// End the request with a direct response.
    Die(GrpcErrResponseView),
    /// Nothing is left to do: the request goes on.
    Done,
}

/// One unit of work of the filter.
pub enum Operation {
    SendGrpcRequest(GrpcMessageSenderOperation),
    AwaitGrpcResponse(GrpcMessageReceiverOperation),
    AddHeaders(HeadersOperation),
    Die(GrpcErrResponse),
    /// No operations are left: the request can go on.
    Done(),
}

impl View for Operation {
    type V = OperationView;

    open spec fn view(&self) -> OperationView {
        match self {
            Operation::SendGrpcRequest(sender) => OperationView::SendGrpcRequest {
                set: sender.spec_action_set(),
                index: sender.spec_index() as int,
                request: sender.spec_request()@,
            },
            Operation::AwaitGrpcResponse(receiver) => OperationView::AwaitGrpcResponse {
                set: receiver.spec_action_set(),
                index: receiver.spec_index() as int,
            },
            Operation::AddHeaders(headers) => OperationView::AddHeaders(headers@),
            Operation::Die(response) => OperationView::Die(response@),
            Operation::Done() => OperationView::Done,
        }
    }
}

impl Operation {
    /// The operation refers to an action of its set, and a direct response
    /// carries an error status.
    pub open spec fn wf(&self) -> bool {
        match self {
            Operation::SendGrpcRequest(sender) => sender.wf(),
            Operation::AwaitGrpcResponse(receiver) => receiver.wf(),
            Operation::AddHeaders(_) => true,
            Operation::Die(response) => response.wf(),
            Operation::Done() => true,
        }
    }
}

/// The views of a list of operations.
pub open spec fn operations_view(operations: Seq<Operation>) -> Seq<OperationView> {
    operations.map_values(|operation: Operation| operation@)
}

/// The operations that buffer the mutations, one each.
pub open spec fn add_headers(mutations: Seq<HeaderMutation>) -> Seq<OperationView> {
    mutations.map_values(|mutation: HeaderMutation| OperationView::AddHeaders(mutation))
}

/// The operation that follows a digested reply: the next call of the walk,
/// or the end of it.
pub open spec fn next_operation(
    set: RuntimeActionSet,
    next: Option<(int, GrpcRequestView)>,
) -> OperationView {
    match next {
        Some((index, request)) => OperationView::SendGrpcRequest { set, index, request },
        None => OperationView::Done,
    }
}

/// The operations that the reply to the action at `index` of `set` leaves:
/// the direct response alone where the action ends the request; else one
/// operation per header mutation, in order, and then the next call of the
/// walk or the end of it. `None` stands for a call that failed.
pub open spec fn digest(
    set: RuntimeActionSet,
    index: int,
    reply: Option<ServiceReply>,
    ctx: &ActionSetContext,
) -> Seq<OperationView> {
    match set.step(index, reply, ctx) {
        Ok((next, mutations)) => add_headers(mutations).push(next_operation(set, next)),
        Err(response) => seq![OperationView::Die(response)],
    }
}

/// The shape of what a reply leaves: every operation but the last buffers
/// headers, and the last one either sends the call of a later action of the
/// same set, or ends the flow, or is the direct response, which then stands
/// alone.
pub proof fn lemma_digest_shape(
    set: RuntimeActionSet,
    index: int,
    reply: Option<ServiceReply>,
    ctx: &ActionSetContext,
)
    requires
        0 <= index < set.actions().len(),
    ensures
        ({
            let operations = digest(set, index, reply, ctx);
            &&& operations.len() >= 1
            &&& forall|k: int|
                0 <= k < operations.len() - 1 ==> #[trigger] operations[k] is AddHeaders
            &&& match operations.last() {
                OperationView::SendGrpcRequest { set: next_set, index: next, .. } => next_set == set
                    && index < next < set.actions().len(),
                OperationView::Done => true,
                OperationView::Die(_) => operations.len() == 1,
                _ => false,
            }
        }),
{
    set.lemma_next_applicable(ctx, index + 1);
}

/// A call to send, and the action set it belongs to.
pub struct GrpcMessageSenderOperation {
    runtime_action_set: Rc<RuntimeActionSet>,
    grpc_request: IndexedGrpcRequest,
}

impl GrpcMessageSenderOperation {
    /// The action set the call belongs to.
    pub closed spec fn spec_action_set(&self) -> RuntimeActionSet {
        *self.runtime_action_set
    }

    /// The position, in the set, of the action the call was built for.
    pub closed spec fn spec_index(&self) -> usize {
        self.grpc_request.spec_index()
    }

    /// The call.
    pub closed spec fn spec_request(&self) -> GrpcRequest {
        self.grpc_request.spec_request()
    }

    /// The position is that of an action of the set.
    pub open spec fn wf(&self) -> bool {
        self.spec_index() < self.spec_action_set().actions().len()
    }

    pub fn new(
        runtime_action_set: Rc<RuntimeActionSet>,
        grpc_request: IndexedGrpcRequest,
    ) -> (sender: Self)
        requires
            grpc_request.spec_index() < runtime_action_set.actions().len(),
        ensures
            sender.wf(),
            sender.spec_action_set() == *runtime_action_set,
            sender.spec_index() == grpc_request.spec_index(),
            sender.spec_request() == grpc_request.spec_request(),
    {
        Self { runtime_action_set, grpc_request }
    }

    pub fn runtime_action_set(&self) -> (set: Rc<RuntimeActionSet>)
        ensures
            *set == self.spec_action_set(),
    {
        Rc::clone(&self.runtime_action_set)
    }

    pub fn current_index(&self) -> (index: usize)
        ensures
            index == self.spec_index(),
    {
        self.grpc_request.index()
    }

    pub fn grpc_request(self) -> (request: GrpcRequest)
        ensures
            request == self.spec_request(),
    {
        self.grpc_request.request()
    }

    /// The call, and the operation that awaits its reply.
    pub fn build_receiver_operation(self) -> (parts: (GrpcRequest, GrpcMessageReceiverOperation))
        requires
            self.wf(),
        ensures
            parts.0 == self.spec_request(),
            parts.1.wf(),
            parts.1.spec_action_set() == self.spec_action_set(),
            parts.1.spec_index() == self.spec_index(),
    {
        let index = self.grpc_request.index();
        let receiver = GrpcMessageReceiverOperation::new(self.runtime_action_set, index);
        (self.grpc_request.request(), receiver)
    }
}

/// A call in flight: the action set it belongs to and the position of its
/// action.
pub struct GrpcMessageReceiverOperation {
    runtime_action_set: Rc<RuntimeActionSet>,
    current_index: usize,
}

impl GrpcMessageReceiverOperation {
    /// The action set the call belongs to.
    pub closed spec fn spec_action_set(&self) -> RuntimeActionSet {
        *self.runtime_action_set
    }

    /// The position, in the set, of the action whose reply is awaited.
    pub closed spec fn spec_index(&self) -> usize {
        self.current_index
    }

    /// The position is that of an action of the set.
    pub open spec fn wf(&self) -> bool {
        self.spec_index() < self.spec_action_set().actions().len()
    }

    pub fn new(runtime_action_set: Rc<RuntimeActionSet>, current_index: usize) -> (receiver: Self)
        requires
            current_index < runtime_action_set.actions().len(),
        ensures
            receiver.wf(),
            receiver.spec_action_set() == *runtime_action_set,
            receiver.spec_index() == current_index,
    {
        Self { runtime_action_set, current_index }
    }

    /// The action set the call belongs to.
    pub fn runtime_action_set(&self) -> (set: Rc<RuntimeActionSet>)
        ensures
            *set == self.spec_action_set(),
    {
        Rc::clone(&self.runtime_action_set)
    }

    /// The position, in the set, of the action whose reply is awaited.
    pub fn current_index(&self) -> (index: usize)
        ensures
            index == self.spec_index(),
    {
        self.current_index
    }

    /// The operations that the reply leaves, or that a failed call leaves
    /// where `reply` is `None`.
    fn digest_reply(self, reply: Option<ServiceReply>, ctx: &ActionSetContext) -> (operations: Vec<
        Operation,
    >)
        requires
            self.wf(),
        ensures
            operations_view(operations@) == digest(
                self.spec_action_set(),
                self.spec_index() as int,
                reply,
                ctx,
            ),
            forall|i: int| 0 <= i < operations.len() ==> (#[trigger] operations[i]).wf(),
    {
        let ghost set = self.spec_action_set();
        let result = self.runtime_action_set.process_grpc_response(
            self.current_index,
            reply,
            ctx,
        );
        let mut operations: Vec<Operation> = Vec::new();
        match result {
            Ok((next_msg, headers)) => {
                let ghost mutations = mutations_view(headers@);
                let ghost next = indexed_view(next_msg);
                let mut headers = headers;
                while headers.len() > 0
                    invariant
                        operations_view(operations@) + add_headers(mutations_view(headers@))
                            == add_headers(mutations),
                        forall|i: int|
                            0 <= i < operations.len() ==> (#[trigger] operations[i]).wf(),
                    decreases headers.len(),
                {
                    let ghost pending = mutations_view(headers@);
                    let ghost done = operations_view(operations@);
                    let kind = headers.remove(0);
                    operations.push(Operation::AddHeaders(HeadersOperation::new(kind)));
                    assert(operations_view(operations@) =~= done.push(
                        OperationView::AddHeaders(pending[0]),
                    ));
                    assert(mutations_view(headers@) =~= pending.subrange(1, pending.len() as int));
                    assert(operations_view(operations@) + add_headers(mutations_view(headers@))
                        =~= done + add_headers(pending));
                }
                let ghost added = operations_view(operations@);
                assert(added =~= add_headers(mutations));
                proof {
                    set.lemma_next_applicable(ctx, self.spec_index() + 1);
                }
                operations.push(
                    match next_msg {
                        None => Operation::Done(),
                        Some(indexed_req) => Operation::SendGrpcRequest(
                            GrpcMessageSenderOperation::new(self.runtime_action_set, indexed_req),
                        ),
                    },
                );
                assert(operations_view(operations@) =~= added.push(next_operation(set, next)));
            },
            Err(grpc_err_resp) => {
                operations.push(Operation::Die(grpc_err_resp));
                assert(operations_view(operations@) =~= seq![
                    OperationView::Die(grpc_err_resp@),
                ]);
            },
        }
        operations
    }

    /// The operations that the reply to the awaited call leaves.
    pub fn digest_grpc_response(self, reply: ServiceReply, ctx: &ActionSetContext) -> (operations:
        Vec<Operation>)
        requires
            self.wf(),
        ensures
            operations_view(operations@) == digest(
                self.spec_action_set(),
                self.spec_index() as int,
                Some(reply),
                ctx,
            ),
            forall|i: int| 0 <= i < operations.len() ==> (#[trigger] operations[i]).wf(),
    {
        self.digest_reply(Some(reply), ctx)
    }

    /// The operation that a failed call leaves: the direct response where
    /// the action's service is in deny mode; in allow mode the next call of
    /// the walk, or the end of it.
    pub fn fail(self, ctx: &ActionSetContext) -> (operation: Operation)
        requires
            self.wf(),
        ensures
            seq![operation@] == digest(
                self.spec_action_set(),
                self.spec_index() as int,
                None,
                ctx,
            ),
            operation.wf(),
    {
        let ghost expected = digest(self.spec_action_set(), self.spec_index() as int, None, ctx);
        let mut operations = self.digest_reply(None, ctx);
        assert(expected.len() == 1);
        assert(operations_view(operations@).len() == 1);
        let ghost all = operations@;
        let operation = operations.pop().unwrap();
        assert(operation == all[0]);
        assert(operations_view(all)[0] == all[0]@);
        assert(seq![operation@] =~= expected);
        operation
    }
}

/// Headers to buffer for their phase.
pub struct HeadersOperation {
    headers: HeaderKind,
}

impl View for HeadersOperation {
    type V = HeaderMutation;

    closed spec fn view(&self) -> HeaderMutation {
        self.headers@
    }
}

impl HeadersOperation {
    pub fn new(headers: HeaderKind) -> (operation: Self)
        ensures
            operation@ == headers@,
    {
        Self { headers }
    }

    /// The names and values, whatever their phase.
    pub fn headers(self) -> (headers: Headers)
        ensures
            headers.deep_view() == self@.headers,
    {
        self.headers.into_headers()
    }

    /// The headers with their phase.
    pub fn into_inner(self) -> (headers: HeaderKind)
        ensures
            headers@ == self@,
    {
        self.headers
    }
}

} // verus!
