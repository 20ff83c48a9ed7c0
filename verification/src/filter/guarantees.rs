//! What the state machine guarantees, proved from its definition: what a
//! request starts with, what a reply leads to, that one call at most is in
//! flight, that calls are bounded by the actions of the selected set, that
//! headers reach the phase they are bound for, and that equal inputs give
//! equal answers.

use crate::action_set_index::{lemma_longest_match_exists, some_match, ActionSetIndex};
use crate::authority::authority_of;
use crate::filter::kuadrant_filter::{
    buffered, dispatching, first_applying, first_operation,
    flush_request_calls, flush_response_calls, handle, handle_all, inv, reply_of, sound, Action,
    FilterView, HostCallView, KuadrantFilter, Outcome, Phase, Step, TracingSeq,
};
use crate::filter::operations::{add_headers, digest, next_operation, OperationView};
use crate::headers::{
    final_value, lemma_final_value_concat, lemma_merged, unique_names, HeaderMutation, HeaderPhase,
    HeaderSeq,
};
use crate::runtime_action::ServiceReply;
use crate::runtime_action_set::{ActionSetContext, RuntimeActionSet};
use vstd::prelude::*;

verus! {

/// The buffer of one phase after a list of mutations: those bound for the
/// phase are merged in, in order; the others leave it as it is.
pub open spec fn buffer_after(
    buffer: Option<HeaderSeq>,
    mutations: Seq<HeaderMutation>,
    phase: HeaderPhase,
) -> Option<HeaderSeq>
    decreases mutations.len(),
{
    if mutations.len() == 0 {
        buffer
    } else {
        let before = buffer_after(buffer, mutations.drop_last(), phase);
        if mutations.last().phase == phase {
            buffered(before, mutations.last().headers)
        } else {
            before
        }
    }
}

/// The headers that the mutations write for one phase, in the order in
/// which they are written.
pub open spec fn phase_headers(mutations: Seq<HeaderMutation>, phase: HeaderPhase) -> HeaderSeq
    decreases mutations.len(),
{
    if mutations.len() == 0 {
        Seq::empty()
    } else {
        phase_headers(mutations.drop_last(), phase) + if mutations.last().phase == phase {
            mutations.last().headers
        } else {
            Seq::empty()
        }
    }
}

/// A buffer holds what was written for its phase and nothing else: after a
/// list of mutations, every name has the value that the buffer's own
/// headers followed by the headers written for the buffer's phase give it,
/// the last writer winning, and the headers written for the other phase
/// leave no trace in it.
pub proof fn lemma_buffer_holds_its_phase(
    list: HeaderSeq,
    mutations: Seq<HeaderMutation>,
    phase: HeaderPhase,
    name: Seq<char>,
)
    requires
        unique_names(list),
    ensures
        buffer_after(Some(list), mutations, phase) matches Some(after) && unique_names(after)
            && final_value(after, name) == final_value(
            list + phase_headers(mutations, phase),
            name,
        ),
    decreases mutations.len(),
{
    if mutations.len() == 0 {
        assert(list + phase_headers(mutations, phase) =~= list);
    } else {
        let earlier = mutations.drop_last();
        lemma_buffer_holds_its_phase(list, earlier, phase, name);
        let before = buffer_after(Some(list), earlier, phase)->0;
        let written = phase_headers(earlier, phase);
        if mutations.last().phase == phase {
            let headers = mutations.last().headers;
            lemma_merged(before, headers);
            lemma_final_value_concat(before, headers, name);
            lemma_final_value_concat(list + written, headers, name);
            assert(list + (written + headers) =~= (list + written) + headers);
        } else {
            assert(list + (written + Seq::<(Seq<char>, Seq<char>)>::empty()) =~= list + written);
        }
    }
}

/// The number of calls to a service among `calls`.
pub open spec fn dispatch_count(calls: Seq<HostCallView>) -> nat
    decreases calls.len(),
{
    if calls.len() == 0 {
        0
    } else {
        dispatch_count(calls.drop_last()) + if calls.last() is DispatchGrpcCall {
            1nat
        } else {
            0nat
        }
    }
}

/// The state once the request has gone on without a call.
pub open spec fn passed(pre: FilterView) -> FilterView {
    FilterView { phase: Phase::Done, awaiting: None, request_headers: None, ..pre }
}

/// Buffering headers makes no call and touches nothing but the two buffers,
/// each of which takes the mutations bound for its phase.
pub proof fn lemma_buffering(
    pre: FilterView,
    mutations: Seq<HeaderMutation>,
    captured: TracingSeq,
    resume: bool,
)
    requires
        sound(pre),
    ensures
        handle_all(pre, add_headers(mutations), captured, resume) == (Step {
            state: FilterView {
                request_headers: buffer_after(
                    pre.request_headers,
                    mutations,
                    HeaderPhase::Request,
                ),
                response_headers: buffer_after(
                    pre.response_headers,
                    mutations,
                    HeaderPhase::Response,
                ),
                ..pre
            },
            action: Action::Continue,
            calls: Seq::empty(),
        }),
        sound(handle_all(pre, add_headers(mutations), captured, resume).state),
    decreases mutations.len(),
{
    if mutations.len() > 0 {
        lemma_buffering(pre, mutations.drop_last(), captured, resume);
        assert(add_headers(mutations).drop_last() =~= add_headers(mutations.drop_last()));
        assert(add_headers(mutations).last() == OperationView::AddHeaders(mutations.last()));
        let before = handle_all(pre, add_headers(mutations.drop_last()), captured, resume);
        let mutation = mutations.last();
        match mutation.phase {
            HeaderPhase::Request => {
                if let Some(list) = before.state.request_headers {
                    lemma_merged(list, mutation.headers);
                }
            },
            HeaderPhase::Response => {
                if let Some(list) = before.state.response_headers {
                    lemma_merged(list, mutation.headers);
                }
            },
        }
        assert(handle_all(pre, add_headers(mutations), captured, resume).calls =~= Seq::empty());
    }
}

/// A request whose authority no pattern matches goes on at once: the
/// callback returns `Continue`, and the host is asked for nothing, neither
/// a call to a service nor a header.
pub proof fn lemma_no_match_continues(
    pre: FilterView,
    index: ActionSetIndex,
    authority: Seq<char>,
    contexts: Seq<ActionSetContext>,
    captured: TracingSeq,
)
    requires
        inv(pre),
        pre.phase == Phase::Idle,
        !some_match(index.patterns(), authority),
    ensures
        first_operation(index, authority, contexts) == OperationView::Done,
        handle(pre, first_operation(index, authority, contexts), captured, false) == (Step {
            state: passed(pre),
            action: Action::Continue,
            calls: Seq::empty(),
        }),
{
    lemma_longest_match_exists(index.patterns(), authority);
    assert(flush_request_calls(pre.request_headers) + Seq::<HostCallView>::empty()
        =~= Seq::empty());
}

/// A request without the authority header has the empty authority, and
/// goes on at once where no pattern matches the empty authority.
pub proof fn lemma_absent_authority_continues(
    pre: FilterView,
    index: ActionSetIndex,
    contexts: Seq<ActionSetContext>,
    captured: TracingSeq,
)
    requires
        inv(pre),
        pre.phase == Phase::Idle,
        !some_match(index.patterns(), Seq::empty()),
    ensures
        authority_of(None) == Seq::<char>::empty(),
        handle(pre, first_operation(index, authority_of(None), contexts), captured, false)
            == (Step { state: passed(pre), action: Action::Continue, calls: Seq::empty() }),
{
    lemma_no_match_continues(pre, index, Seq::empty(), contexts, captured);
}

/// A request whose action set has no applicable action goes on at once,
/// as one that matches no pattern does: the callback returns `Continue`,
/// and the host is asked for nothing. The action set of a request is the
/// first one that applies among those under the matching pattern.
pub proof fn lemma_no_applicable_action_continues(
    pre: FilterView,
    index: ActionSetIndex,
    authority: Seq<char>,
    contexts: Seq<ActionSetContext>,
    captured: TracingSeq,
)
    requires
        inv(pre),
        pre.phase == Phase::Idle,
        index.selected(authority) matches Some(sets) && first_applying(
            contexts,
            sets.len() as int,
            0,
        ) matches Some(at) && forall|position: int|
            !(#[trigger] (*sets[at]).applicable(&contexts[at], position)),
    ensures
        first_operation(index, authority, contexts) == OperationView::Done,
        handle(pre, first_operation(index, authority, contexts), captured, false) == (Step {
            state: passed(pre),
            action: Action::Continue,
            calls: Seq::empty(),
        }),
{
    let sets = index.selected(authority)->0;
    let at = first_applying(contexts, sets.len() as int, 0)->0;
    (*sets[at]).lemma_next_applicable(&contexts[at], 0);
    assert(flush_request_calls(pre.request_headers) + Seq::<HostCallView>::empty()
        =~= Seq::empty());
}

/// A request to which none of the action sets under the matching pattern
/// applies goes on at once too.
pub proof fn lemma_no_applying_set_continues(
    pre: FilterView,
    index: ActionSetIndex,
    authority: Seq<char>,
    contexts: Seq<ActionSetContext>,
    captured: TracingSeq,
)
    requires
        inv(pre),
        pre.phase == Phase::Idle,
        index.selected(authority) matches Some(sets) && first_applying(
            contexts,
            sets.len() as int,
            0,
        ) is None,
    ensures
        handle(pre, first_operation(index, authority, contexts), captured, false) == (Step {
            state: passed(pre),
            action: Action::Continue,
            calls: Seq::empty(),
        }),
{
    assert(flush_request_calls(pre.request_headers) + Seq::<HostCallView>::empty()
        =~= Seq::empty());
}

/// The first applying context is within the limit and the contexts.
pub proof fn lemma_first_applying(contexts: Seq<ActionSetContext>, limit: int, from: int)
    requires
        0 <= from,
    ensures
        match first_applying(contexts, limit, from) {
            Some(at) => from <= at < limit && at < contexts.len() && contexts[at].applies()
                && forall|j: int| from <= j < at ==> !contexts[j].applies(),
            None => forall|j: int|
                from <= j < limit && j < contexts.len() ==> !contexts[j].applies(),
        },
    decreases limit - from,
{
    if from < limit && from < contexts.len() && !contexts[from].applies() {
        lemma_first_applying(contexts, limit, from + 1);
    }
}

/// What the reply to the call in flight leads to.
///
/// Where the action ends the request, the host is asked for the direct
/// response and for nothing else: no buffered header is applied and the
/// request is not resumed.
///
/// Else each buffer takes the mutations bound for its phase. Where an
/// action is left to call, the host is asked for that call alone, with the
/// tracing headers captured at the first call, and the request stays held.
/// Where none is left, the host is asked to put the buffered request
/// headers on the request, and no other header, and then to resume it; the
/// response headers stay buffered for the response.
pub proof fn lemma_reply_outcome(
    pre: FilterView,
    set: RuntimeActionSet,
    index: int,
    reply: Option<ServiceReply>,
    ctx: &ActionSetContext,
)
    requires
        inv(pre),
        pre.awaiting == Some((set, index)),
    ensures
        handle_all(dispatching(pre), digest(set, index, reply, ctx), Seq::empty(), true)
            == match set.step(index, reply, ctx) {
            Err(response) => Step {
                state: FilterView {
                    phase: Phase::Dying,
                    awaiting: None,
                    request_headers: None,
                    response_headers: None,
                    ..pre
                },
                action: Action::Continue,
                calls: seq![HostCallView::SendHttpResponse(response)],
            },
            Ok((Some((next, request)), mutations)) => Step {
                state: FilterView {
                    phase: Phase::AwaitingRpc,
                    awaiting: Some((set, next)),
                    request_headers: buffer_after(
                        pre.request_headers,
                        mutations,
                        HeaderPhase::Request,
                    ),
                    response_headers: buffer_after(
                        pre.response_headers,
                        mutations,
                        HeaderPhase::Response,
                    ),
                    rpcs_dispatched: pre.rpcs_dispatched + 1,
                    ..pre
                },
                action: Action::Pause,
                calls: seq![
                    HostCallView::DispatchGrpcCall { request, headers: pre.tracing->0 },
                ],
            },
            Ok((None, mutations)) => Step {
                state: FilterView {
                    phase: Phase::Done,
                    awaiting: None,
                    request_headers: None,
                    response_headers: buffer_after(
                        pre.response_headers,
                        mutations,
                        HeaderPhase::Response,
                    ),
                    ..pre
                },
                action: Action::Continue,
                calls: flush_request_calls(
                    buffer_after(pre.request_headers, mutations, HeaderPhase::Request),
                ) + seq![HostCallView::ResumeHttpRequest],
            },
        },
        inv(handle_all(dispatching(pre), digest(set, index, reply, ctx), Seq::empty(), true).state),
        set.step(index, reply, ctx) matches Ok((Some((next, _)), _)) ==> index < next
            < set.actions().len(),
{
    let start = dispatching(pre);
    let operations = digest(set, index, reply, ctx);
    let captured = Seq::<(Seq<char>, Seq<u8>)>::empty();
    set.lemma_next_applicable(ctx, index + 1);
    match set.step(index, reply, ctx) {
        Err(response) => {
            let none = Seq::<OperationView>::empty();
            assert(operations =~= none.push(OperationView::Die(response)));
            lemma_handle_push(start, none, OperationView::Die(response), captured, true);
            assert(handle_all(start, none, captured, true).calls =~= Seq::empty());
            let step = handle_all(start, operations, captured, true);
            assert(step.calls =~= seq![HostCallView::SendHttpResponse(response)]);
        },
        Ok((next, mutations)) => {
            lemma_buffering(start, mutations, captured, true);
            lemma_handle_push(
                start,
                add_headers(mutations),
                next_operation(set, next),
                captured,
                true,
            );
            let before = handle_all(start, add_headers(mutations), captured, true);
            let last = handle(before.state, next_operation(set, next), captured, true);
            let step = handle_all(start, operations, captured, true);
            assert(step.calls =~= last.calls);
        },
    }
}

/// Working through a list of operations and then one more is working
/// through the list, and then taking the one more from where that led.
pub proof fn lemma_handle_push(
    pre: FilterView,
    operations: Seq<OperationView>,
    last: OperationView,
    captured: TracingSeq,
    resume: bool,
)
    ensures
        handle_all(pre, operations.push(last), captured, resume) == ({
            let before = handle_all(pre, operations, captured, resume);
            let step = handle(before.state, last, captured, resume);
            Step { state: step.state, action: step.action, calls: before.calls + step.calls }
        }),
{
    assert(operations.push(last).drop_last() =~= operations);
}

/// At most one call is in flight. Working through a reply asks the host
/// for one call to a service at most; the request is held, and the filter
/// awaits a reply, exactly where it asked for one.
pub proof fn lemma_one_call_in_flight(
    pre: FilterView,
    set: RuntimeActionSet,
    index: int,
    reply: Option<ServiceReply>,
    ctx: &ActionSetContext,
)
    requires
        inv(pre),
        pre.awaiting == Some((set, index)),
    ensures
        ({
            let step = handle_all(
                dispatching(pre),
                digest(set, index, reply, ctx),
                Seq::empty(),
                true,
            );
            &&& dispatch_count(step.calls) <= 1
            &&& dispatch_count(step.calls) == 1 <==> step.state.phase == Phase::AwaitingRpc
            &&& step.action == Action::Pause <==> step.state.phase == Phase::AwaitingRpc
            &&& step.state.phase == Phase::AwaitingRpc ==> step.calls.len() == 1
            &&& step.state.rpcs_dispatched == pre.rpcs_dispatched + dispatch_count(step.calls)
        }),
{
    lemma_reply_outcome(pre, set, index, reply, ctx);
    let step = handle_all(dispatching(pre), digest(set, index, reply, ctx), Seq::empty(), true);
    match set.step(index, reply, ctx) {
        Err(response) => {
            assert(step.calls.drop_last() =~= Seq::empty());
            assert(dispatch_count(step.calls.drop_last()) == 0);
        },
        Ok((Some((next, request)), mutations)) => {
            assert(step.calls.drop_last() =~= Seq::empty());
            assert(dispatch_count(step.calls.drop_last()) == 0);
        },
        Ok((None, mutations)) => {
            let flushed = flush_request_calls(
                buffer_after(pre.request_headers, mutations, HeaderPhase::Request),
            );
            assert(step.calls.drop_last() =~= flushed);
            lemma_flush_dispatches_nothing(
                buffer_after(pre.request_headers, mutations, HeaderPhase::Request),
            );
        },
    }
}

/// Applying buffered headers asks for no call to a service, and for
/// headers of the one phase only.
pub proof fn lemma_flush_dispatches_nothing(buffer: Option<HeaderSeq>)
    ensures
        dispatch_count(flush_request_calls(buffer)) == 0,
        dispatch_count(flush_response_calls(buffer)) == 0,
        forall|i: int|
            0 <= i < flush_request_calls(buffer).len() ==> #[trigger] flush_request_calls(
                buffer,
            )[i] is AddHttpRequestHeader,
        forall|i: int|
            0 <= i < flush_response_calls(buffer).len() ==> #[trigger] flush_response_calls(
                buffer,
            )[i] is AddHttpResponseHeader,
{
    lemma_no_dispatch(flush_request_calls(buffer));
    lemma_no_dispatch(flush_response_calls(buffer));
}

/// A list without calls to a service counts none.
proof fn lemma_no_dispatch(calls: Seq<HostCallView>)
    requires
        forall|i: int| 0 <= i < calls.len() ==> !(#[trigger] calls[i] is DispatchGrpcCall),
    ensures
        dispatch_count(calls) == 0,
    decreases calls.len(),
{
    if calls.len() > 0 {
        lemma_no_dispatch(calls.drop_last());
    }
}

/// The first event of a request asks for one call at most, and the request
/// is held exactly where it asked for one.
pub proof fn lemma_first_call(
    pre: FilterView,
    index: ActionSetIndex,
    authority: Seq<char>,
    contexts: Seq<ActionSetContext>,
    captured: TracingSeq,
)
    requires
        inv(pre),
        pre.phase == Phase::Idle,
    ensures
        ({
            let step = handle(pre, first_operation(index, authority, contexts), captured, false);
            &&& dispatch_count(step.calls) <= 1
            &&& dispatch_count(step.calls) == 1 <==> step.state.phase == Phase::AwaitingRpc
            &&& step.action == Action::Pause <==> step.state.phase == Phase::AwaitingRpc
            &&& step.state.rpcs_dispatched == dispatch_count(step.calls)
            &&& step.state.phase == Phase::AwaitingRpc || step == (Step {
                state: passed(pre),
                action: Action::Continue,
                calls: Seq::empty(),
            })
            &&& inv(step.state)
        }),
{
    let step = handle(pre, first_operation(index, authority, contexts), captured, false);
    lemma_first_operation(index, authority, contexts);
    match first_operation(index, authority, contexts) {
        OperationView::SendGrpcRequest { .. } => {
            assert(step.calls.drop_last() =~= Seq::empty());
            assert(dispatch_count(step.calls.drop_last()) == 0);
        },
        _ => {
            assert(step.calls =~= Seq::empty());
        },
    }
}

/// The calls made for a request never outnumber the actions of the action
/// set that it selected, and none is made before a set is selected.
pub proof fn lemma_calls_bounded_by_actions(state: FilterView)
    requires
        inv(state),
    ensures
        match state.selected {
            Some(set) => state.rpcs_dispatched <= set.actions().len(),
            None => state.rpcs_dispatched == 0,
        },
{
}

/// The end of a call as the host reports it, with what the request's
/// attributes yield at that moment.
pub struct CallEnd {
    pub status_code: u32,
    pub response: Option<ServiceReply>,
    pub ctx: ActionSetContext,
}

/// What a filter in state `start` comes to as the host reports the ends of
/// its calls one after the other, and all the calls that it asks for on
/// the way. A report that finds no call in flight changes nothing.
pub open spec fn run(start: FilterView, ends: Seq<CallEnd>) -> Step
    decreases ends.len(),
{
    if ends.len() == 0 {
        Step { state: start, action: Action::Continue, calls: Seq::empty() }
    } else {
        let before = run(start, ends.drop_last());
        match before.state.awaiting {
            Some((set, index)) => {
                let step = handle_all(
                    dispatching(before.state),
                    digest(
                        set,
                        index,
                        reply_of(ends.last().status_code, ends.last().response),
                        &ends.last().ctx,
                    ),
                    Seq::empty(),
                    true,
                );
                Step { state: step.state, action: step.action, calls: before.calls + step.calls }
            },
            None => before,
        }
    }
}

/// The calls to a service in two lists add up.
pub proof fn lemma_dispatch_count_concat(first: Seq<HostCallView>, second: Seq<HostCallView>)
    ensures
        dispatch_count(first + second) == dispatch_count(first) + dispatch_count(second),
    decreases second.len(),
{
    if second.len() == 0 {
        assert(first + second =~= first);
    } else {
        assert((first + second).drop_last() =~= first + second.drop_last());
        lemma_dispatch_count_concat(first, second.drop_last());
    }
}

/// However the calls of a request end, the filter stays in a state that
/// holds between events, it counts every call that it asked for, and the
/// calls never outnumber the actions of the action set that the request
/// selected.
pub proof fn lemma_run(start: FilterView, ends: Seq<CallEnd>)
    requires
        inv(start),
    ensures
        inv(run(start, ends).state),
        run(start, ends).state.rpcs_dispatched == start.rpcs_dispatched + dispatch_count(
            run(start, ends).calls,
        ),
        match run(start, ends).state.selected {
            Some(set) => start.rpcs_dispatched + dispatch_count(run(start, ends).calls)
                <= set.actions().len(),
            None => start.rpcs_dispatched + dispatch_count(run(start, ends).calls) == 0,
        },
    decreases ends.len(),
{
    if ends.len() > 0 {
        lemma_run(start, ends.drop_last());
        let before = run(start, ends.drop_last());
        match before.state.awaiting {
            Some((set, index)) => {
                let reply = reply_of(ends.last().status_code, ends.last().response);
                lemma_reply_outcome(before.state, set, index, reply, &ends.last().ctx);
                lemma_one_call_in_flight(before.state, set, index, reply, &ends.last().ctx);
                let step = handle_all(
                    dispatching(before.state),
                    digest(set, index, reply, &ends.last().ctx),
                    Seq::empty(),
                    true,
                );
                lemma_dispatch_count_concat(before.calls, step.calls);
            },
            None => {},
        }
    }
}

/// For a whole request, from its headers to the end of its last call: the
/// calls to a service that the host is asked for never outnumber the
/// actions of the action set that the request selected, and there is none
/// where the request selected no set.
pub proof fn lemma_request_calls_bounded(
    pre: FilterView,
    index: ActionSetIndex,
    authority: Seq<char>,
    contexts: Seq<ActionSetContext>,
    captured: TracingSeq,
    ends: Seq<CallEnd>,
)
    requires
        inv(pre),
        pre.phase == Phase::Idle,
    ensures
        ({
            let first = handle(pre, first_operation(index, authority, contexts), captured, false);
            let rest = run(first.state, ends);
            match rest.state.selected {
                Some(set) => dispatch_count(first.calls + rest.calls) <= set.actions().len(),
                None => dispatch_count(first.calls + rest.calls) == 0,
            }
        }),
{
    let first = handle(pre, first_operation(index, authority, contexts), captured, false);
    lemma_first_call(pre, index, authority, contexts, captured);
    lemma_first_operation(index, authority, contexts);
    lemma_run(first.state, ends);
    lemma_dispatch_count_concat(first.calls, run(first.state, ends).calls);
}

/// The call that a request starts with, if it starts with one, is for an
/// action of its set.
pub proof fn lemma_first_operation(
    index: ActionSetIndex,
    authority: Seq<char>,
    contexts: Seq<ActionSetContext>,
)
    ensures
        match first_operation(index, authority, contexts) {
            OperationView::SendGrpcRequest { set, index: position, .. } => 0 <= position
                < set.actions().len(),
            OperationView::Done => true,
            _ => false,
        },
{
    if let Some(sets) = index.selected(authority) {
        if let Some(at) = first_applying(contexts, sets.len() as int, 0) {
            (*sets[at]).lemma_next_applicable(&contexts[at], 0);
        }
    }
}

/// Equal inputs give equal answers: two filters in the same state, over
/// the same configuration, that see the same request answer its headers
/// with the same action and the same calls, and end in the same state.
pub proof fn lemma_same_request_same_answer(
    first: KuadrantFilter,
    first_after: KuadrantFilter,
    first_outcome: Outcome,
    second: KuadrantFilter,
    second_after: KuadrantFilter,
    second_outcome: Outcome,
    authority: Seq<char>,
    contexts: Seq<ActionSetContext>,
    captured: TracingSeq,
)
    requires
        first@ == second@,
        first.spec_index() == second.spec_index(),
        first_after.step_to(first_outcome) == handle(
            first@,
            first_operation(first.spec_index(), authority, contexts),
            captured,
            false,
        ),
        second_after.step_to(second_outcome) == handle(
            second@,
            first_operation(second.spec_index(), authority, contexts),
            captured,
            false,
        ),
    ensures
        first_after@ == second_after@,
        first_after.step_to(first_outcome) == second_after.step_to(second_outcome),
{
}

/// Equal inputs give equal answers: two filters in the same state that are
/// handed the same reply work through the same operations, answer with the
/// same action and the same calls, and end in the same state.
pub proof fn lemma_same_reply_same_answer(
    first: KuadrantFilter,
    first_after: KuadrantFilter,
    first_outcome: Outcome,
    second: KuadrantFilter,
    second_after: KuadrantFilter,
    second_outcome: Outcome,
    set: RuntimeActionSet,
    index: int,
    status_code: u32,
    response: Option<ServiceReply>,
    ctx: &ActionSetContext,
)
    requires
        first@ == second@,
        first@.awaiting == Some((set, index)),
        first_after.step_to(first_outcome) == handle_all(
            dispatching(first@),
            digest(set, index, reply_of(status_code, response), ctx),
            Seq::empty(),
            true,
        ),
        second_after.step_to(second_outcome) == handle_all(
            dispatching(second@),
            digest(set, index, reply_of(status_code, response), ctx),
            Seq::empty(),
            true,
        ),
    ensures
        first_after@ == second_after@,
        first_after.step_to(first_outcome) == second_after.step_to(second_outcome),
{
}

} // verus!
