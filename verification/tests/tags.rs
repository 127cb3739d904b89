use syncserver::tags::Tags;

fn pair(k: &str, v: &str) -> (String, String) {
    (k.to_owned(), v.to_owned())
}

#[test]
fn add_tag_stores_a_value() {
    let mut tags = Tags::default();
    tags.add_tag("uri.method", "GET");
    assert_eq!(tags.get("uri.method"), "GET");
    assert_eq!(tags.tag_tree(), vec![pair("uri.method", "GET")]);
}

#[test]
fn add_tag_passes_over_an_empty_value() {
    let mut tags = Tags::default();
    tags.add_tag("ua.os.ver", "");
    assert!(!tags.has_tag("ua.os.ver"));
    assert_eq!(tags.get("ua.os.ver"), "None");
    assert!(tags.tag_tree().is_empty());
}

#[test]
fn extend_prefers_the_right_hand_side() {
    let mut left = Tags::with_tags(vec![pair("a", "1"), pair("b", "2")]);
    let mut right = Tags::with_tag("b", "3");
    right.add_extra("x", "y");
    left.extend(right);
    assert_eq!(left.clone().tag_tree(), vec![pair("a", "1"), pair("b", "3")]);
    assert_eq!(left.extra_tree(), vec![pair("x", "y")]);
}

#[test]
fn tag_tree_is_sorted_by_key() {
    let tags = Tags::with_tags(vec![pair("zeta", "1"), pair("alpha", "2"), pair("mu", "3"), pair("alpha", "4")]);
    assert_eq!(
        tags.tag_tree(),
        vec![pair("alpha", "4"), pair("mu", "3"), pair("zeta", "1")]
    );
}

#[test]
fn with_tag_of_an_empty_value_is_empty() {
    let tags = Tags::with_tag("key", "");
    assert!(!tags.has_tag("key"));
    assert!(tags.tag_tree().is_empty());
}

#[test]
fn with_tags_passes_over_empty_values() {
    let tags = Tags::with_tags(vec![pair("a", ""), pair("b", "2"), pair("b", ""), pair("c", "3")]);
    assert_eq!(tags.tag_tree(), vec![pair("b", "2"), pair("c", "3")]);
}

#[test]
fn with_tags_of_nothing_is_the_default() {
    let tags = Tags::with_tags(vec![]);
    assert!(tags.clone().tag_tree().is_empty());
    assert!(tags.extra_tree().is_empty());
}

#[test]
fn merging_never_stores_an_empty_value() {
    let mut left = Tags::with_tags(vec![pair("a", "1"), pair("b", "")]);
    left.add_extra("e", "");
    let mut right = Tags::with_tags(vec![pair("c", ""), pair("d", "4")]);
    right.add_extra("f", "");
    right.add_extra("g", "7");
    left.extend(right);
    for (_, v) in left.clone().tag_tree() {
        assert!(!v.is_empty());
    }
    for (_, v) in left.clone().extra_tree() {
        assert!(!v.is_empty());
    }
    assert_eq!(left.clone().tag_tree(), vec![pair("a", "1"), pair("d", "4")]);
    assert_eq!(left.extra_tree(), vec![pair("g", "7")]);
}

#[test]
fn add_extra_does_not_touch_tags() {
    let mut tags = Tags::with_tag("a", "1");
    tags.add_extra("a", "2");
    tags.add_extra("b", "");
    assert_eq!(tags.get("a"), "1");
    assert_eq!(tags.clone().extra_tree(), vec![pair("a", "2")]);
    assert_eq!(tags.tag_tree(), vec![pair("a", "1")]);
}

#[test]
fn add_tag_replaces_a_value() {
    let mut tags = Tags::with_tag("a", "1");
    tags.add_tag("a", "2");
    assert_eq!(tags.get("a"), "2");
    tags.add_tag("a", "");
    assert_eq!(tags.get("a"), "2");
}

#[test]
fn get_of_a_missing_label_is_none_as_text() {
    let tags = Tags::default();
    assert_eq!(tags.get("missing"), "None");
}

#[test]
fn keys_are_ordered_by_code_point() {
    let tags = Tags::with_tags(vec![
        pair("b", "1"),
        pair("a\u{e9}", "2"),
        pair("ab", "3"),
        pair("a", "4"),
        pair("B", "5"),
        pair("", "6"),
    ]);
    let keys: Vec<String> = tags.tag_tree().into_iter().map(|(k, _)| k).collect();
    let mut sorted = keys.clone();
    sorted.sort();
    assert_eq!(keys, sorted);
    assert_eq!(keys, vec!["", "B", "a", "ab", "a\u{e9}", "b"]);
}

#[test]
fn tags_as_json() {
    assert_eq!(Tags::default().to_json(), "{}");
    let mut tags = Tags::with_tags(vec![pair("uri.method", "GET"), pair("a", "tab\there")]);
    tags.add_extra("uri.path", "/x");
    assert_eq!(tags.to_json(), "{\"a\":\"tab\\there\",\"uri.method\":\"GET\"}");
}
