//! An ordered list of policy steps under one authority pattern, and the
//! walk through it: which step is called first, and which one follows once
//! a step's reply is in.

use crate::data::property::PropertyError;
use crate::headers::{HeaderKind, HeaderMutation};
use crate::runtime_action::{verdict, verdict_view, ActionContext, RuntimeAction, ServiceReply};
use crate::service::{GrpcErrResponse, GrpcErrResponseView, GrpcRequestView, IndexedGrpcRequest};
use vstd::prelude::*;

verus! {

/// What the current request's attributes yield for one action set: the
/// outcome of the set's own predicate, and one context per action, in the
/// order of the actions. An action that has no context here counts as one
/// whose attributes could not be had: it does not apply.
#[derive(Debug)]
pub struct ActionSetContext {
    /// Outcome of the set's predicate: `None` where the set has no
    /// predicate, an error where an attribute it reads could not be had.
    pub predicate: Option<Result<bool, PropertyError>>,
    /// What the attributes yield for each action.
    pub actions: Vec<ActionContext>,
}

impl ActionSetContext {
    /// Whether the set applies to the request: it has no predicate, or its
    /// predicate was evaluated and holds.
    pub open spec fn applies(&self) -> bool {
        match self.predicate {
            None => true,
            Some(Ok(holds)) => holds,
            Some(Err(_)) => false,
        }
    }
}

/// A request and the position of its action, as contracts see them.
pub open spec fn indexed_view(request: Option<IndexedGrpcRequest>) -> Option<
    (int, GrpcRequestView),
> {
    match request {
        Some(indexed) => Some((indexed.spec_index() as int, indexed.spec_request()@)),
        None => None,
    }
}

/// The views of what a processed reply hands back.
pub open spec fn step_view(
    result: Result<(Option<IndexedGrpcRequest>, Vec<HeaderKind>), GrpcErrResponse>,
) -> Result<(Option<(int, GrpcRequestView)>, Seq<HeaderMutation>), GrpcErrResponseView> {
    match result {
        Ok((next, mutations)) => Ok((indexed_view(next), verdict_view(Ok(mutations))->Ok_0)),
        Err(response) => Err(response@),
    }
}

/// An ordered, non-empty list of actions under one authority pattern.
#[derive(Debug)]
pub struct RuntimeActionSet {
    name: String,
    authority: String,
    runtime_actions: Vec<RuntimeAction>,
}

impl RuntimeActionSet {
    /// The set's name.
    pub closed spec fn spec_name(&self) -> Seq<char> {
        self.name@
    }

    /// The authority pattern the set is configured under.
    pub closed spec fn spec_authority(&self) -> Seq<char> {
        self.authority@
    }

    /// The set's actions, in declared order.
    pub closed spec fn actions(&self) -> Seq<RuntimeAction> {
        self.runtime_actions@
    }

    /// The set has at least one action.
    pub open spec fn wf(&self) -> bool {
        self.actions().len() > 0
    }

    /// Whether the action at `i` applies to the request whose attributes
    /// yield `ctx`.
    pub open spec fn applicable(&self, ctx: &ActionSetContext, i: int) -> bool {
        0 <= i < self.actions().len() && i < ctx.actions.len() && ctx.actions[i].applies()
    }

    /// The position of the first applicable action at or after `start`.
    pub open spec fn next_applicable(&self, ctx: &ActionSetContext, start: int) -> Option<int>
        decreases self.actions().len() - start,
    {
        if start < 0 || start >= self.actions().len() {
            None
        } else if self.applicable(ctx, start) {
            Some(start)
        } else {
            self.next_applicable(ctx, start + 1)
        }
    }

    /// The call that the walk makes next from `start`: that of the first
    /// applicable action at or after `start`, with its position.
    pub open spec fn next_request(&self, ctx: &ActionSetContext, start: int) -> Option<
        (int, GrpcRequestView),
    > {
        match self.next_applicable(ctx, start) {
            Some(i) => Some((i, self.actions()[i].request_for(&ctx.actions[i]))),
            None => None,
        }
    }

    /// What the reply to the action at `index` leads to: the direct response
    /// where the action ends the request; else the header mutations it asks
    /// for and the next call of the walk.
    pub open spec fn step(
        &self,
        index: int,
        reply: Option<ServiceReply>,
        ctx: &ActionSetContext,
    ) -> Result<(Option<(int, GrpcRequestView)>, Seq<HeaderMutation>), GrpcErrResponseView> {
        let action = self.actions()[index];
        match verdict(action.service_type(), action.failure_mode(), reply) {
            Ok(mutations) => Ok((self.next_request(ctx, index + 1), mutations)),
            Err(response) => Err(response),
        }
    }

    /// The next applicable action is the first one at or after `start` that
    /// applies: no action before it does, and where there is none, no
    /// action from `start` on applies.
    pub proof fn lemma_next_applicable(&self, ctx: &ActionSetContext, start: int)
        requires
            0 <= start,
        ensures
            match self.next_applicable(ctx, start) {
                Some(i) => start <= i < self.actions().len() && self.applicable(ctx, i)
                    && forall|j: int| start <= j < i ==> !self.applicable(ctx, j),
                None => forall|j: int| start <= j ==> !self.applicable(ctx, j),
            },
        decreases self.actions().len() - start,
    {
        if start < self.actions().len() && !self.applicable(ctx, start) {
            self.lemma_next_applicable(ctx, start + 1);
        }
    }

    /// A set of the given actions.
    pub fn new(name: String, authority: String, runtime_actions: Vec<RuntimeAction>) -> (set: Self)
        requires
            runtime_actions.len() > 0,
        ensures
            set.wf(),
            set.spec_name() == name@,
            set.spec_authority() == authority@,
            set.actions() == runtime_actions@,
    {
        RuntimeActionSet { name, authority, runtime_actions }
    }

    pub fn name(&self) -> (name: &str)
        ensures
            name@ == self.spec_name(),
    {
        self.name.as_str()
    }

    pub fn authority(&self) -> (authority: &str)
        ensures
            authority@ == self.spec_authority(),
    {
        self.authority.as_str()
    }

    /// The number of actions.
    pub fn len(&self) -> (len: usize)
        ensures
            len == self.actions().len(),
    {
        self.runtime_actions.len()
    }

    /// Whether the set applies to the request whose attributes yield `ctx`.
    pub fn conditions_apply(&self, ctx: &ActionSetContext) -> (applies: bool)
        ensures
            applies == ctx.applies(),
    {
        match &ctx.predicate {
            None => true,
            Some(Ok(holds)) => *holds,
            Some(Err(_)) => false,
        }
    }

    /// The first call of the walk: that of the first applicable action.
    pub fn find_first_grpc_request(&self, ctx: &ActionSetContext) -> (request: Option<
        IndexedGrpcRequest,
    >)
        ensures
            indexed_view(request) == self.next_request(ctx, 0),
    {
        self.find_next_grpc_request(0, ctx)
    }

    /// The call of the first applicable action at or after `start`.
    pub fn find_next_grpc_request(&self, start: usize, ctx: &ActionSetContext) -> (request: Option<
        IndexedGrpcRequest,
    >)
        ensures
            indexed_view(request) == self.next_request(ctx, start as int),
    {
        let mut i: usize = start;
        while i < self.runtime_actions.len() && i < ctx.actions.len()
            invariant
                start <= i,
                self.next_applicable(ctx, i as int) == self.next_applicable(ctx, start as int),
            decreases self.runtime_actions.len() - i,
        {
            let action = &self.runtime_actions[i];
            if action.conditions_apply(&ctx.actions[i]) {
                return Some(action.build_request(i, &ctx.actions[i]));
            }
            i += 1;
        }
        proof {
            self.lemma_none_without_context(ctx, i as int);
        }
        None
    }

    /// From the end of the contexts on, no action applies.
    proof fn lemma_none_without_context(&self, ctx: &ActionSetContext, start: int)
        requires
            0 <= start,
            start >= self.actions().len() || start >= ctx.actions.len(),
        ensures
            self.next_applicable(ctx, start) is None,
        decreases self.actions().len() - start,
    {
        if start < self.actions().len() {
            self.lemma_none_without_context(ctx, start + 1);
        }
    }

    /// Advances past the action at `index`: interprets the reply of its
    /// service (`None` for a call that failed), and finds the call that
    /// follows.
    pub fn process_grpc_response(
        &self,
        index: usize,
        reply: Option<ServiceReply>,
        ctx: &ActionSetContext,
    ) -> (result: Result<(Option<IndexedGrpcRequest>, Vec<HeaderKind>), GrpcErrResponse>)
        requires
            index < self.actions().len(),
        ensures
            step_view(result) == self.step(index as int, reply, ctx),
            result matches Err(response) ==> response.wf(),
    {
        let len = self.runtime_actions.len();
        match self.runtime_actions[index].process_response(reply) {
            Ok(mutations) => {
                assert(index + 1 <= len);
                let next = self.find_next_grpc_request(index + 1, ctx);
                Ok((next, mutations))
            },
            Err(response) => Err(response),
        }
    }
}

} // verus!
