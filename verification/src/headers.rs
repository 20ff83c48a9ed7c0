//! Header mutations: ordered lists of names and values bound for one phase of
//! the exchange, merged so that the last value written under a name wins.

use crate::service::Headers;
use vstd::prelude::*;

verus! {

/// An ordered list of header names and values, as contracts see it.
pub type HeaderSeq = Seq<(Seq<char>, Seq<char>)>;

/// The value that `name` ends up with once the list is applied in order:
/// that of the last entry under the name, if there is one.
pub open spec fn final_value(list: HeaderSeq, name: Seq<char>) -> Option<Seq<char>>
    decreases list.len(),
{
    if list.len() == 0 {
        None
    } else if list.last().0 == name {
        Some(list.last().1)
    } else {
        final_value(list.drop_last(), name)
    }
}

/// No two entries of the list share a name.
pub open spec fn unique_names(list: HeaderSeq) -> bool {
    forall|i: int, j: int|
        0 <= i < j < list.len() ==> (#[trigger] list[i]).0 != (#[trigger] list[j]).0
}

/// Whether some entry of the list stands under `name`.
pub open spec fn has_name(list: HeaderSeq, name: Seq<char>) -> bool {
    exists|i: int| 0 <= i < list.len() && (#[trigger] list[i]).0 == name
}

/// The position of an entry under `name`.
pub open spec fn index_of_name(list: HeaderSeq, name: Seq<char>) -> int {
    choose|i: int| 0 <= i < list.len() && (#[trigger] list[i]).0 == name
}

/// The list after `name` is set to `value`: the entry under the name is
/// overwritten in place, or a new entry is added at the end.
pub open spec fn with_header(list: HeaderSeq, name: Seq<char>, value: Seq<char>) -> HeaderSeq {
    if has_name(list, name) {
        list.update(index_of_name(list, name), (name, value))
    } else {
        list.push((name, value))
    }
}

/// The list after every entry of `additions` is set on it, in order.
pub open spec fn merged(list: HeaderSeq, additions: HeaderSeq) -> HeaderSeq
    decreases additions.len(),
{
    if additions.len() == 0 {
        list
    } else {
        with_header(
            merged(list, additions.drop_last()),
            additions.last().0,
            additions.last().1,
        )
    }
}

/// Applying `additions` after `list` gives each name the value that
/// `additions` writes last, and leaves the other names as `list` had them.
pub proof fn lemma_final_value_concat(list: HeaderSeq, additions: HeaderSeq, name: Seq<char>)
    ensures
        final_value(list + additions, name) == match final_value(additions, name) {
            Some(value) => Some(value),
            None => final_value(list, name),
        },
    decreases additions.len(),
{
    if additions.len() == 0 {
        assert(list + additions =~= list);
    } else {
        assert((list + additions).drop_last() =~= list + additions.drop_last());
        assert((list + additions).last() == additions.last());
        lemma_final_value_concat(list, additions.drop_last(), name);
    }
}

/// Applying a list of header mutations twice leaves every name with the
/// value it has after the first application.
pub proof fn lemma_apply_idempotent(base: HeaderSeq, list: HeaderSeq, name: Seq<char>)
    ensures
        final_value(base + list + list, name) == final_value(base + list, name),
{
    lemma_final_value_concat(base + list, list, name);
    lemma_final_value_concat(base, list, name);
}

/// Setting a name on a list without repeated names changes the final value
/// of that name alone, and repeats no name.
pub proof fn lemma_with_header(list: HeaderSeq, name: Seq<char>, value: Seq<char>)
    requires
        unique_names(list),
    ensures
        unique_names(with_header(list, name, value)),
        forall|other: Seq<char>|
            #[trigger] final_value(with_header(list, name, value), other) == if other == name {
                Some(value)
            } else {
                final_value(list, other)
            },
{
    let after = with_header(list, name, value);
    if has_name(list, name) {
        let at = index_of_name(list, name);
        assert forall|other: Seq<char>|
            #[trigger] final_value(after, other) == if other == name {
                Some(value)
            } else {
                final_value(list, other)
            } by {
            lemma_final_value_update(list, at, value, other);
        }
    } else {
        assert(after.drop_last() =~= list);
    }
}

/// Overwriting the value of the entry at `at` changes the final value of
/// that entry's name alone.
proof fn lemma_final_value_update(list: HeaderSeq, at: int, value: Seq<char>, other: Seq<char>)
    requires
        unique_names(list),
        0 <= at < list.len(),
    ensures
        final_value(list.update(at, (list[at].0, value)), other) == if other == list[at].0 {
            Some(value)
        } else {
            final_value(list, other)
        },
    decreases list.len(),
{
    let name = list[at].0;
    let after = list.update(at, (name, value));
    if at == list.len() - 1 {
        assert(after.drop_last() =~= list.drop_last());
        if other == name {
        } else {
        }
    } else {
        assert(after.last() == list.last());
        assert(list.last() == list[list.len() - 1]);
        assert(list.last().0 != name);
        assert(after.drop_last() =~= list.drop_last().update(at, (name, value)));
        assert(list.drop_last()[at] == list[at]);
        lemma_final_value_update(list.drop_last(), at, value, other);
    }
}

/// Merging into a list without repeated names repeats no name, and leaves
/// every name with the value it has once both lists are applied in order.
pub proof fn lemma_merged(list: HeaderSeq, additions: HeaderSeq)
    requires
        unique_names(list),
    ensures
        unique_names(merged(list, additions)),
        forall|name: Seq<char>| #[trigger]
            final_value(merged(list, additions), name) == final_value(list + additions, name),
    decreases additions.len(),
{
    if additions.len() == 0 {
        assert(list + additions =~= list);
    } else {
        let before = merged(list, additions.drop_last());
        lemma_merged(list, additions.drop_last());
        lemma_with_header(before, additions.last().0, additions.last().1);
        assert forall|name: Seq<char>| #[trigger]
            final_value(merged(list, additions), name) == final_value(
                list + additions,
                name,
            ) by {
            assert((list + additions).drop_last() =~= list + additions.drop_last());
            assert((list + additions).last() == additions.last());
        }
    }
}

/// Merging nothing changes nothing.
pub proof fn lemma_merged_empty(list: HeaderSeq)
    ensures
        merged(list, Seq::empty()) == list,
{
}

/// Merging the same list a second time changes the final value of no
/// name.
pub proof fn lemma_merged_absorbs(list: HeaderSeq, additions: HeaderSeq, name: Seq<char>)
    requires
        unique_names(list),
    ensures
        final_value(merged(merged(list, additions), additions), name) == final_value(
            merged(list, additions),
            name,
        ),
{
    lemma_merged(list, additions);
    lemma_merged(merged(list, additions), additions);
    lemma_final_value_concat(merged(list, additions), additions, name);
    lemma_final_value_concat(list, additions, name);
}

/// The position of the entry under `name`, if the list has one.
pub fn find_header(headers: &Headers, name: &String) -> (found: Option<usize>)
    ensures
        found is Some <==> has_name(headers.deep_view(), name@),
        found matches Some(at) ==> at < headers.len() && headers[at as int].0@ == name@
            && forall|j: int| 0 <= j < at ==> (#[trigger] headers[j]).0@ != name@,
{
    let mut i: usize = 0;
    while i < headers.len()
        invariant
            i <= headers.len(),
            forall|j: int| 0 <= j < i ==> (#[trigger] headers[j]).0@ != name@,
        decreases headers.len() - i,
    {
        if headers[i].0 == *name {
            assert(headers.deep_view()[i as int].0 == name@);
            return Some(i);
        }
        i += 1;
    }
    assert forall|j: int| 0 <= j < headers.deep_view().len() implies (
    #[trigger] headers.deep_view()[j]).0 != name@ by {
        assert(headers[j].0@ != name@);
    }
    None
}

/// Sets `name` to `value`: overwrites the entry under the name, or adds one
/// at the end.
pub fn set_header(headers: &mut Headers, name: String, value: String)
    requires
        unique_names(old(headers).deep_view()),
    ensures
        final(headers).deep_view() == with_header(old(headers).deep_view(), name@, value@),
        unique_names(final(headers).deep_view()),
{
    let ghost before = headers.deep_view();
    proof {
        lemma_with_header(before, name@, value@);
    }
    match find_header(headers, &name) {
        Some(at) => {
            proof {
                let chosen = index_of_name(before, name@);
                assert(before[at as int].0 == name@);
                if chosen != at as int {
                    if chosen < at {
                        assert(before[chosen].0 != before[at as int].0);
                    } else {
                        assert(before[at as int].0 != before[chosen].0);
                    }
                }
            }
            headers.set(at, (name, value));
            assert(headers.deep_view() =~= before.update(at as int, (name@, value@)));
        },
        None => {
            headers.push((name, value));
            assert(headers.deep_view() =~= before.push((name@, value@)));
        },
    }
}

/// Sets every entry of `additions` on `headers`, in order, so that a later
/// value written under a name replaces the earlier one.
pub fn merge_headers(headers: &mut Headers, additions: Headers)
    requires
        unique_names(old(headers).deep_view()),
    ensures
        final(headers).deep_view() == merged(old(headers).deep_view(), additions.deep_view()),
        unique_names(final(headers).deep_view()),
{
    let ghost before = headers.deep_view();
    let ghost all = additions.deep_view();
    let mut i: usize = 0;
    while i < additions.len()
        invariant
            i <= additions.len(),
            all == additions.deep_view(),
            headers.deep_view() == merged(before, all.subrange(0, i as int)),
            unique_names(headers.deep_view()),
        decreases additions.len() - i,
    {
        let name = additions[i].0.clone();
        let value = additions[i].1.clone();
        proof {
            let next = all.subrange(0, i + 1);
            assert(next.drop_last() =~= all.subrange(0, i as int));
            assert(next.last() == (name@, value@));
        }
        set_header(headers, name, value);
        i += 1;
    }
    assert(all.subrange(0, i as int) =~= all);
}

/// The phase of the exchange that a header mutation is bound for.
#[derive(Clone, Copy, Debug, PartialEq, Eq, Structural)]
pub enum HeaderPhase {
    /// Before the request is forwarded.
    Request,
    /// Before the response is returned.
    Response,
}

/// A header mutation as contracts see it: a phase and an ordered list of
/// names and values.
pub struct HeaderMutation {
    pub phase: HeaderPhase,
    pub headers: HeaderSeq,
}

/// An ordered list of headers bound for one phase of the exchange.
#[derive(Debug)]
pub enum HeaderKind {
    /// Headers to put on the request before it is forwarded.
    Request(Headers),
    /// Headers to put on the response before it is returned.
    Response(Headers),
}

impl View for HeaderKind {
    type V = HeaderMutation;

    open spec fn view(&self) -> HeaderMutation {
        match self {
            HeaderKind::Request(headers) => HeaderMutation {
                phase: HeaderPhase::Request,
                headers: headers.deep_view(),
            },
            HeaderKind::Response(headers) => HeaderMutation {
                phase: HeaderPhase::Response,
                headers: headers.deep_view(),
            },
        }
    }
}

impl HeaderKind {
    /// The phase the headers are bound for.
    pub fn phase(&self) -> (phase: HeaderPhase)
        ensures
            phase == self@.phase,
    {
        match self {
            HeaderKind::Request(_) => HeaderPhase::Request,
            HeaderKind::Response(_) => HeaderPhase::Response,
        }
    }

    /// The names and values, whatever the phase.
    pub fn into_headers(self) -> (headers: Headers)
        ensures
            headers.deep_view() == self@.headers,
    {
        match self {
            HeaderKind::Request(headers) => headers,
            HeaderKind::Response(headers) => headers,
        }
    }
}

/// A list of header mutations as contracts see it.
pub open spec fn mutations_view(mutations: Seq<HeaderKind>) -> Seq<HeaderMutation> {
    mutations.map_values(|kind: HeaderKind| kind@)
}

} // verus!
