use wasm_shim::headers::{find_header, merge_headers, set_header, HeaderKind, HeaderPhase};
use wasm_shim::runtime_action::header_mutations;

fn headers(pairs: &[(&str, &str)]) -> Vec<(String, String)> {
    pairs.iter().map(|(name, value)| (name.to_string(), value.to_string())).collect()
}

#[test]
fn later_value_overrides_the_earlier_one() {
    let mut buffer = headers(&[("x-user", "alice"), ("x-plan", "free")]);
    merge_headers(&mut buffer, headers(&[("x-plan", "paid"), ("x-new", "1"), ("x-plan", "gold")]));
    assert_eq!(buffer, headers(&[("x-user", "alice"), ("x-plan", "gold"), ("x-new", "1")]));
}

#[test]
fn merging_the_same_list_again_changes_nothing() {
    let additions = headers(&[("a", "1"), ("b", "2"), ("a", "3")]);
    let mut once = headers(&[("b", "0")]);
    merge_headers(&mut once, additions.clone());
    let mut twice = headers(&[("b", "0")]);
    merge_headers(&mut twice, additions.clone());
    merge_headers(&mut twice, additions);
    assert_eq!(once, headers(&[("b", "2"), ("a", "3")]));
    assert_eq!(twice, once);
}

#[test]
fn merging_nothing_changes_nothing() {
    let mut buffer = headers(&[("x-user", "alice")]);
    merge_headers(&mut buffer, vec![]);
    assert_eq!(buffer, headers(&[("x-user", "alice")]));
}

#[test]
fn set_header_overwrites_in_place_or_appends() {
    let mut buffer = headers(&[("a", "1"), ("b", "2")]);
    set_header(&mut buffer, "a".to_string(), "9".to_string());
    assert_eq!(buffer, headers(&[("a", "9"), ("b", "2")]));
    set_header(&mut buffer, "c".to_string(), "3".to_string());
    assert_eq!(buffer, headers(&[("a", "9"), ("b", "2"), ("c", "3")]));
}

#[test]
fn find_header_gives_the_position_of_the_name() {
    let buffer = headers(&[("a", "1"), ("b", "2")]);
    assert_eq!(find_header(&buffer, &"b".to_string()), Some(1));
    assert_eq!(find_header(&buffer, &"c".to_string()), None);
    assert_eq!(find_header(&vec![], &"a".to_string()), None);
}

#[test]
fn header_names_are_compared_as_they_are_written() {
    let mut buffer = headers(&[("X-User", "alice")]);
    set_header(&mut buffer, "x-user".to_string(), "bob".to_string());
    assert_eq!(buffer, headers(&[("X-User", "alice"), ("x-user", "bob")]));
}

#[test]
fn header_kind_keeps_phase_and_headers() {
    let request = HeaderKind::Request(headers(&[("a", "1")]));
    assert_eq!(request.phase(), HeaderPhase::Request);
    assert_eq!(request.into_headers(), headers(&[("a", "1")]));
    let response = HeaderKind::Response(headers(&[("b", "2")]));
    assert_eq!(response.phase(), HeaderPhase::Response);
    assert_eq!(response.into_headers(), headers(&[("b", "2")]));
}

#[test]
fn empty_lists_give_no_mutation() {
    assert!(header_mutations(vec![], vec![]).is_empty());
    let both = header_mutations(headers(&[("a", "1")]), headers(&[("b", "2")]));
    assert_eq!(both.len(), 2);
    assert_eq!(both[0].phase(), HeaderPhase::Request);
    assert_eq!(both[1].phase(), HeaderPhase::Response);
    let response_only = header_mutations(vec![], headers(&[("b", "2")]));
    assert_eq!(response_only.len(), 1);
    assert_eq!(response_only[0].phase(), HeaderPhase::Response);
}
