use syncserver::request::{seed_tags, LogItems, RequestHead, UserAgent};
use syncserver::string_map::StringMap;

fn pair(k: &str, v: &str) -> (String, String) {
    (k.to_owned(), v.to_owned())
}

fn firefox_on_windows() -> UserAgent {
    UserAgent {
        raw: "Mozilla/5.0 (Windows NT 10.0; Win64; x64; rv:72.0) Gecko/20100101 Firefox/72.0"
            .to_owned(),
        os_family: "Windows".to_owned(),
        browser_family: "Firefox".to_owned(),
        name: "Firefox".to_owned(),
        os_version: "NT 10.0".to_owned(),
        version: "72.0".to_owned(),
    }
}

fn curl() -> UserAgent {
    UserAgent {
        raw: "Mozilla/5.0 (curl) Gecko/20100101 curl".to_owned(),
        os_family: "Other".to_owned(),
        browser_family: "Other".to_owned(),
        name: "curl".to_owned(),
        os_version: String::new(),
        version: String::new(),
    }
}

#[test]
fn test_tags() {
    let rh = RequestHead {
        method: "GET".to_owned(),
        uri: "/1.5/42/storage/meta/global".to_owned(),
        user_agent: Some(firefox_on_windows()),
    };

    let tags = seed_tags(&rh);

    let mut result = StringMap::new();
    result.insert("ua.os.ver".to_owned(), "NT 10.0".to_owned());
    result.insert("ua.os.family".to_owned(), "Windows".to_owned());
    result.insert("ua.browser.ver".to_owned(), "72.0".to_owned());
    result.insert("ua.name".to_owned(), "Firefox".to_owned());
    result.insert("ua.browser.family".to_owned(), "Firefox".to_owned());
    result.insert("uri.method".to_owned(), "GET".to_owned());

    assert_eq!(tags.tag_tree(), result.sorted_pairs())
}

#[test]
fn no_empty_tags() {
    let rh = RequestHead {
        method: "GET".to_owned(),
        uri: "/1.5/42/storage/meta/global".to_owned(),
        user_agent: Some(curl()),
    };

    let tags = seed_tags(&rh);
    assert!(!tags.has_tag("ua.os.ver"));
    println!("{:?}", tags);
}

#[test]
fn path_and_raw_user_agent_are_extra_context() {
    let rh = RequestHead {
        method: "PUT".to_owned(),
        uri: "/1.5/42/storage/bookmarks".to_owned(),
        user_agent: Some(firefox_on_windows()),
    };
    let tags = seed_tags(&rh);
    assert_eq!(
        tags.extra_tree(),
        vec![
            pair(
                "ua",
                "Mozilla/5.0 (Windows NT 10.0; Win64; x64; rv:72.0) Gecko/20100101 Firefox/72.0"
            ),
            pair("uri.path", "/1.5/42/storage/bookmarks"),
        ]
    );
}

#[test]
fn request_without_a_user_agent_is_tagged_by_its_method() {
    let rh = RequestHead { method: "DELETE".to_owned(), uri: "/x".to_owned(), user_agent: None };
    let tags = seed_tags(&rh);
    assert_eq!(tags.clone().tag_tree(), vec![pair("uri.method", "DELETE")]);
    assert_eq!(tags.extra_tree(), vec![pair("uri.path", "/x")]);
}

#[test]
fn log_items_of_a_request() {
    let rh = RequestHead {
        method: "GET".to_owned(),
        uri: "/1.0/sync/1.5".to_owned(),
        user_agent: Some(firefox_on_windows()),
    };
    let items = LogItems::from_head(&rh);
    assert_eq!(
        items.0.sorted_pairs(),
        vec![
            pair("ua", "72.0"),
            pair("ua.browser.family", "Firefox"),
            pair("ua.browser.ver", "72.0"),
            pair("ua.name", "Firefox"),
            pair("ua.os.family", "Windows"),
            pair("ua.os.ver", "NT 10.0"),
            pair("uri.method", "GET"),
            pair("uri.path", "/1.0/sync/1.5"),
        ]
    );
}

#[test]
fn log_items_keep_an_empty_method_but_no_empty_user_agent_part() {
    let rh = RequestHead { method: String::new(), uri: String::new(), user_agent: Some(curl()) };
    let items = LogItems::from_head(&rh);
    assert_eq!(
        items.0.sorted_pairs(),
        vec![
            pair("ua.browser.family", "Other"),
            pair("ua.name", "curl"),
            pair("ua.os.family", "Other"),
            pair("uri.method", ""),
            pair("uri.path", ""),
        ]
    );
}

#[test]
fn log_items_insert() {
    let mut items = LogItems::new();
    items.insert("a".to_owned(), String::new());
    items.insert_if_not_empty("b", "");
    items.insert_if_not_empty("c", "3");
    items.insert("c".to_owned(), "4".to_owned());
    assert_eq!(items.0.sorted_pairs(), vec![pair("a", ""), pair("c", "4")]);
}

#[test]
fn log_items_as_json() {
    let mut items = LogItems::new();
    assert_eq!(items.to_json(), "{}");
    items.insert("uri.path".to_owned(), "/a \"b\"".to_owned());
    assert_eq!(items.to_json(), "{\"uri.path\":\"/a \\\"b\\\"\"}");
    items.insert("empty".to_owned(), String::new());
    items.insert("ua".to_owned(), "72.0".to_owned());
    assert_eq!(items.to_json(), "{\"ua\":\"72.0\",\"uri.path\":\"/a \\\"b\\\"\"}");
    let parsed: serde_json::Value = serde_json::from_str(&items.to_json()).expect("valid JSON");
    assert_eq!(parsed["ua"], "72.0");
    assert_eq!(parsed["uri.path"], "/a \"b\"");
    assert!(parsed.get("empty").is_none());
}

#[test]
fn log_items_with_only_empty_values_are_an_empty_object() {
    let mut items = LogItems::new();
    items.insert("a".to_owned(), String::new());
    items.insert("b".to_owned(), String::new());
    assert_eq!(items.to_json(), "{}");
}

#[test]
fn filled_log_items_have_a_value() {
    let mut items = LogItems::new();
    assert!(items.filled().is_empty());
    items.insert("b".to_owned(), String::new());
    items.insert("c".to_owned(), "3".to_owned());
    items.insert("a".to_owned(), "1".to_owned());
    assert_eq!(items.filled(), vec![pair("a", "1"), pair("c", "3")]);
}
