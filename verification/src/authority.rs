//! The authority of a request and the patterns that action sets are
//! configured under: an exact host, or `*.` followed by a suffix.

use vstd::prelude::*;

verus! {

/// The position of the first `:` at or after `from`, or the length of
/// `value` where there is none.
pub open spec fn colon_at(value: Seq<char>, from: int) -> int
    decreases value.len() - from,
{
    if from < 0 || from >= value.len() {
        value.len() as int
    } else if value[from] == ':' {
        from
    } else {
        colon_at(value, from + 1)
    }
}

/// The host of an authority value: what stands before its first `:`.
pub open spec fn host_of(value: Seq<char>) -> Seq<char> {
    value.subrange(0, colon_at(value, 0))
}

/// The authority of a request, from its `:authority` header: the host
/// without the port, and the empty string where the header is absent.
pub open spec fn authority_of(header: Option<Seq<char>>) -> Seq<char> {
    match header {
        Some(value) => host_of(value),
        None => Seq::empty(),
    }
}

/// The first `:` is within the value, or at its end where there is none,
/// and no `:` stands before it.
pub proof fn lemma_colon_at(value: Seq<char>, from: int)
    requires
        0 <= from <= value.len(),
    ensures
        from <= colon_at(value, from) <= value.len(),
        colon_at(value, from) < value.len() ==> value[colon_at(value, from)] == ':',
        forall|i: int| from <= i < colon_at(value, from) ==> value[i] != ':',
    decreases value.len() - from,
{
    if from < value.len() && value[from] != ':' {
        lemma_colon_at(value, from + 1);
    }
}

/// A port is stripped: the authority of `host:port` is `host`, for a host
/// that holds no `:`.
pub proof fn lemma_port_is_stripped(host: Seq<char>, port: Seq<char>)
    requires
        forall|i: int| 0 <= i < host.len() ==> host[i] != ':',
    ensures
        host_of(host + seq![':'] + port) == host,
        host_of(host) == host,
{
    let value = host + seq![':'] + port;
    lemma_colon_at(value, 0);
    lemma_colon_at(host, 0);
    let at = colon_at(value, 0);
    assert(value[host.len() as int] == ':');
    if at < host.len() {
        assert(value[at] == host[at]);
    }
    assert(at == host.len());
    assert(value.subrange(0, at) =~= host);
    assert(host.subrange(0, colon_at(host, 0)) =~= host);
}

/// Whether the pattern is a wildcard: `*.` followed by a suffix.
pub open spec fn is_wildcard(pattern: Seq<char>) -> bool {
    pattern.len() >= 2 && pattern[0] == '*' && pattern[1] == '.'
}

/// The literal part of a pattern: the suffix of a wildcard, the whole of an
/// exact pattern.
pub open spec fn literal_of(pattern: Seq<char>) -> Seq<char> {
    if is_wildcard(pattern) {
        pattern.subrange(2, pattern.len() as int)
    } else {
        pattern
    }
}

/// Whether `authority` ends with a `.` followed by `suffix`.
pub open spec fn is_subdomain_of(authority: Seq<char>, suffix: Seq<char>) -> bool {
    &&& authority.len() > suffix.len()
    &&& authority[authority.len() - suffix.len() - 1] == '.'
    &&& authority.subrange(authority.len() - suffix.len(), authority.len() as int) == suffix
}

/// Whether the pattern matches the authority: they are equal, or the
/// pattern is `*.X` and the authority is `X` or ends with `.X`.
pub open spec fn pattern_matches(pattern: Seq<char>, authority: Seq<char>) -> bool {
    ||| pattern == authority
    ||| is_wildcard(pattern) && (authority == literal_of(pattern) || is_subdomain_of(
        authority,
        literal_of(pattern),
    ))
}

/// How specific a pattern is: more literal characters make it more
/// specific, and of an exact pattern and a wildcard with the same literal
/// part the exact one is the more specific.
pub open spec fn specificity(pattern: Seq<char>) -> int {
    if is_wildcard(pattern) {
        2 * (pattern.len() - 2)
    } else {
        2 * (pattern.len() as int) + 1
    }
}

/// Two different patterns that match one authority are never equally
/// specific: the most specific match is unique.
pub proof fn lemma_no_ties(first: Seq<char>, second: Seq<char>, authority: Seq<char>)
    requires
        pattern_matches(first, authority),
        pattern_matches(second, authority),
        first != second,
    ensures
        specificity(first) != specificity(second),
{
    if is_wildcard(first) && is_wildcard(second) && specificity(first) == specificity(second) {
        lemma_wildcard_literal_is_tail(first, authority);
        lemma_wildcard_literal_is_tail(second, authority);
        assert(literal_of(first) == literal_of(second));
        assert(first =~= seq!['*', '.'] + literal_of(first));
        assert(second =~= seq!['*', '.'] + literal_of(second));
    }
}

/// The literal part of a wildcard that matches an authority is the tail of
/// the authority of that length.
proof fn lemma_wildcard_literal_is_tail(pattern: Seq<char>, authority: Seq<char>)
    requires
        is_wildcard(pattern),
        pattern_matches(pattern, authority),
    ensures
        literal_of(pattern).len() <= authority.len(),
        literal_of(pattern) == authority.subrange(
            authority.len() - literal_of(pattern).len(),
            authority.len() as int,
        ),
{
    let literal = literal_of(pattern);
    if pattern == authority {
        assert(literal =~= authority.subrange(
            authority.len() - literal.len(),
            authority.len() as int,
        ));
    } else if authority == literal {
        assert(literal =~= authority.subrange(0, authority.len() as int));
    }
}

/// A wildcard matches its suffix and every name that ends with a dot and
/// the suffix, and it matches no other name that merely ends with the
/// suffix.
pub proof fn lemma_wildcard_matches(suffix: Seq<char>, label: Seq<char>)
    requires
        label.len() > 0,
    ensures
        pattern_matches(seq!['*', '.'] + suffix, suffix),
        pattern_matches(seq!['*', '.'] + suffix, label + seq!['.'] + suffix),
        label.last() != '.' && label + suffix != seq!['*', '.'] + suffix ==> !pattern_matches(
            seq!['*', '.'] + suffix,
            label + suffix,
        ),
{
    let pattern = seq!['*', '.'] + suffix;
    assert(literal_of(pattern) =~= suffix);
    let below = label + seq!['.'] + suffix;
    assert(below.subrange(below.len() - suffix.len(), below.len() as int) =~= suffix);
    assert(below[below.len() - suffix.len() - 1] == '.');
    let beside = label + suffix;
    assert(beside[beside.len() - suffix.len() - 1] == label.last());
}

/// The pattern that is the authority itself is more specific than any
/// other pattern that matches the authority.
pub proof fn lemma_exact_pattern_wins(authority: Seq<char>, other: Seq<char>)
    requires
        !is_wildcard(authority),
        pattern_matches(other, authority),
        other != authority,
    ensures
        specificity(other) < specificity(authority),
{
}

/// The characters of `s`.
pub fn chars_of(s: &str) -> (chars: Vec<char>)
    ensures
        chars@ == s@,
{
    let mut chars: Vec<char> = Vec::new();
    let n = s.unicode_len();
    let mut i: usize = 0;
    while i < n
        invariant
            i <= n,
            n == s@.len(),
            chars@ == s@.subrange(0, i as int),
        decreases n - i,
    {
        chars.push(s.get_char(i));
        i += 1;
        assert(chars@ =~= s@.subrange(0, i as int));
    }
    assert(s@.subrange(0, n as int) =~= s@);
    chars
}

/// The authority of a request, from its `:authority` header: the host
/// without the port, and the empty string where the header is absent.
pub fn request_authority(header: Option<&str>) -> (authority: String)
    ensures
        authority@ == authority_of(header.deep_view()),
{
    match header {
        None => String::new(),
        Some(value) => {
            let n = value.unicode_len();
            let mut i: usize = 0;
            while i < n && value.get_char(i) != ':'
                invariant
                    i <= n,
                    n == value@.len(),
                    colon_at(value@, i as int) == colon_at(value@, 0),
                decreases n - i,
            {
                i += 1;
            }
            value.substring_char(0, i).to_owned()
        },
    }
}

/// Whether `len` characters of `a` from `a_from` equal those of `b` from
/// `b_from`.
fn same_chars(a: &Vec<char>, a_from: usize, b: &Vec<char>, b_from: usize, len: usize) -> (same:
    bool)
    requires
        a_from + len <= a.len(),
        b_from + len <= b.len(),
    ensures
        same == (a@.subrange(a_from as int, a_from + len) == b@.subrange(
            b_from as int,
            b_from + len,
        )),
{
    let ghost left = a@.subrange(a_from as int, a_from + len);
    let ghost right = b@.subrange(b_from as int, b_from + len);
    let mut i: usize = 0;
    while i < len
        invariant
            i <= len,
            a_from + len <= a.len(),
            b_from + len <= b.len(),
            left == a@.subrange(a_from as int, a_from + len),
            right == b@.subrange(b_from as int, b_from + len),
            forall|j: int| 0 <= j < i ==> left[j] == right[j],
        decreases len - i,
    {
        if a[a_from + i] != b[b_from + i] {
            assert(left[i as int] != right[i as int]);
            return false;
        }
        i += 1;
    }
    assert(left =~= right);
    true
}

/// Whether the pattern is a wildcard.
pub fn has_wildcard(pattern: &Vec<char>) -> (wildcard: bool)
    ensures
        wildcard == is_wildcard(pattern@),
{
    pattern.len() >= 2 && pattern[0] == '*' && pattern[1] == '.'
}

/// Whether the pattern matches the authority.
pub fn matches_authority(pattern: &Vec<char>, authority: &Vec<char>) -> (matches: bool)
    ensures
        matches == pattern_matches(pattern@, authority@),
{
    let p = pattern.len();
    let a = authority.len();
    if p == a && same_chars(pattern, 0, authority, 0, a) {
        assert(pattern@.subrange(0, a as int) =~= pattern@);
        assert(authority@.subrange(0, a as int) =~= authority@);
        return true;
    }
    assert(pattern@ != authority@) by {
        if p == a {
            assert(pattern@.subrange(0, a as int) =~= pattern@);
            assert(authority@.subrange(0, a as int) =~= authority@);
        }
    }
    if !has_wildcard(pattern) {
        return false;
    }
    let l = p - 2;
    let ghost literal = literal_of(pattern@);
    if a == l {
        let same = same_chars(pattern, 2, authority, 0, l);
        assert(authority@.subrange(0, l as int) =~= authority@);
        assert(!is_subdomain_of(authority@, literal));
        same
    } else if a > l {
        assert(authority@ != literal);
        authority[a - l - 1] == '.' && same_chars(pattern, 2, authority, a - l, l)
    } else {
        false
    }
}

/// How specific the pattern is.
pub fn pattern_specificity(pattern: &Vec<char>) -> (rank: u128)
    ensures
        rank == specificity(pattern@),
{
    let len = pattern.len() as u128;
    if has_wildcard(pattern) {
        2 * (len - 2)
    } else {
        2 * len + 1
    }
}

} // verus!
