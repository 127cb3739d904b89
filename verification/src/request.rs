//! What the pipeline reads from the head of a request, and the tags and
//! log items that a request starts with.

use crate::json::{keep_values, object, object_text, pairs_text, with_values};
use crate::string_map::{pairs_map, sorted_by_key, StringMap};
use crate::tags::{offer, Tags};
use vstd::prelude::*;

verus! {

/// A user agent and what was parsed from it. A part that could not be
/// told is empty.
#[derive(Debug)]
pub struct UserAgent {
    /// The header as the client sent it.
    pub raw: String,
    pub os_family: String,
    pub browser_family: String,
    pub name: String,
    pub os_version: String,
    pub version: String,
}

/// The head of a request, as far as the pipeline reads it.
#[derive(Debug)]
pub struct RequestHead {
    pub method: String,
    pub uri: String,
    /// The user agent, where the request states one that is valid text.
    pub user_agent: Option<UserAgent>,
}

/// The tags that a user agent gives.
pub open spec fn user_agent_tags(ua: UserAgent) -> Map<Seq<char>, Seq<char>> {
    offer(
        offer(
            offer(
                offer(
                    offer(Map::empty(), "ua.os.family"@, ua.os_family@),
                    "ua.browser.family"@,
                    ua.browser_family@,
                ),
                "ua.name"@,
                ua.name@,
            ),
            "ua.os.ver"@,
            ua.os_version@,
        ),
        "ua.browser.ver"@,
        ua.version@,
    )
}

/// The tags that a request starts with: what its user agent gives, and
/// its method.
pub open spec fn seed_tag_map(head: RequestHead) -> Map<Seq<char>, Seq<char>> {
    offer(
        match head.user_agent {
            Some(ua) => user_agent_tags(ua),
            None => Map::empty(),
        },
        "uri.method"@,
        head.method@,
    )
}

/// The extra context that a request starts with: its user agent as sent,
/// and its path, which has too many values for a tag.
pub open spec fn seed_extra_map(head: RequestHead) -> Map<Seq<char>, Seq<char>> {
    offer(
        match head.user_agent {
            Some(ua) => offer(Map::empty(), "ua"@, ua.raw@),
            None => Map::empty(),
        },
        "uri.path"@,
        head.uri@,
    )
}

/// The tag set that a request starts with.
pub fn seed_tags(head: &RequestHead) -> (tags: Tags)
    ensures
        tags.tag_map() == seed_tag_map(*head),
        tags.extra_map() == seed_extra_map(*head),
{
    let mut tags = Tags::default();
    match &head.user_agent {
        Some(ua) => {
            tags.add_tag("ua.os.family", ua.os_family.as_str());
            tags.add_tag("ua.browser.family", ua.browser_family.as_str());
            tags.add_tag("ua.name", ua.name.as_str());
            tags.add_tag("ua.os.ver", ua.os_version.as_str());
            tags.add_tag("ua.browser.ver", ua.version.as_str());
            tags.add_extra("ua", ua.raw.as_str());
        },
        None => {},
    }
    tags.add_tag("uri.method", head.method.as_str());
    tags.add_extra("uri.path", head.uri.as_str());
    tags
}

/// The items that are logged with a request.
#[derive(Debug, Clone)]
pub struct LogItems(pub StringMap);

impl View for LogItems {
    type V = Map<Seq<char>, Seq<char>>;

    open spec fn view(&self) -> Map<Seq<char>, Seq<char>> {
        self.0@
    }
}

/// The log items that a user agent gives.
pub open spec fn user_agent_items(ua: UserAgent) -> Map<Seq<char>, Seq<char>> {
    offer(user_agent_tags(ua), "ua"@, ua.version@)
}

/// The log items that a request starts with: what its user agent gives,
/// then its method and its path, whatever they are.
pub open spec fn head_items(head: RequestHead) -> Map<Seq<char>, Seq<char>> {
    (match head.user_agent {
        Some(ua) => user_agent_items(ua),
        None => Map::empty(),
    }).insert("uri.method"@, head.method@).insert("uri.path"@, head.uri@)
}

impl LogItems {
    /// No items.
    pub fn new() -> (items: LogItems)
        ensures
            items@ == Map::<Seq<char>, Seq<char>>::empty(),
    {
        LogItems(StringMap::new())
    }

    /// Stores `v` under `k`.
    pub fn insert(&mut self, k: String, v: String)
        ensures
            final(self)@ == old(self)@.insert(k@, v@),
    {
        self.0.insert(k, v);
    }

    /// Stores `v` under `k` unless `v` is empty.
    pub fn insert_if_not_empty(&mut self, k: &str, v: &str)
        ensures
            final(self)@ == offer(old(self)@, k@, v@),
    {
        if !v.is_empty() {
            self.0.insert(k.to_owned(), v.to_owned());
        }
    }

    /// The items whose value is not empty, in ascending order of their
    /// keys: what is logged of a request.
    pub fn filled(&self) -> (items: Vec<(String, String)>)
        ensures
            exists|sorted: Seq<(String, String)>|
                sorted_by_key(sorted) && pairs_map(sorted) == self@ && pairs_text(items@)
                    == pairs_text(with_values(sorted)),
    {
        let sorted = self.0.sorted_pairs();
        keep_values(&sorted)
    }

    /// The items as a JSON object, in ascending order of their keys. An
    /// item whose value is empty is left out.
    pub fn to_json(&self) -> (text: String)
        ensures
            exists|sorted: Seq<(String, String)>|
                sorted_by_key(sorted) && pairs_map(sorted) == self@ && text@ == object_text(
                    with_values(sorted),
                ),
    {
        let sorted = self.0.sorted_pairs();
        object(&sorted)
    }

    /// The items that a request starts with.
    pub fn from_head(head: &RequestHead) -> (items: LogItems)
        ensures
            items@ == head_items(*head),
    {
        let mut items = LogItems::new();
        match &head.user_agent {
            Some(ua) => {
                items.insert_if_not_empty("ua.os.family", ua.os_family.as_str());
                items.insert_if_not_empty("ua.browser.family", ua.browser_family.as_str());
                items.insert_if_not_empty("ua.name", ua.name.as_str());
                items.insert_if_not_empty("ua.os.ver", ua.os_version.as_str());
                items.insert_if_not_empty("ua.browser.ver", ua.version.as_str());
                items.insert_if_not_empty("ua", ua.version.as_str());
            },
            None => {},
        }
        items.insert("uri.method".to_owned(), head.method.clone());
        items.insert("uri.path".to_owned(), head.uri.clone());
        items
    }
}

} // verus!
