use std::collections::{HashMap, HashSet};

use ocireffer::handler::{
    add_official_step, added_reply, badge_reply, finish, list_official_step, listed_reply,
    not_found, reference_step, remove_official_step, removed_reply, stored_reply, webhook_step,
    ListStep, Reply, ReplyBody, ShieldsResponse, Step,
};
use ocireffer::official::{Listing, OfficialGet, OfficialPost};
use ocireffer::route::{route, Route};
use ocireffer::store::{
    category_set_name, fetch_result, get_call, put_call, Lookup, ReferenceInformation, StoreCall,
};
use ocireffer::text::{str_eq, trim_slashes};
use ocireffer::{Request, RequestPayload, Target};

#[derive(Default)]
struct Store {
    values: HashMap<String, String>,
    sets: HashMap<String, HashSet<String>>,
}

impl Store {
    fn apply(&mut self, call: &StoreCall) {
        match call {
            StoreCall::Put { key, value } => {
                self.values.insert(key.clone(), value.clone());
            }
            StoreCall::SetAdd { set_name, value } => {
                self.sets.entry(set_name.clone()).or_default().insert(value.clone());
            }
            StoreCall::SetDel { set_name, value } => {
                self.sets.entry(set_name.clone()).or_default().remove(value);
            }
            _ => {}
        }
    }

    fn get(&self, call: &StoreCall) -> Lookup {
        match call {
            StoreCall::Get { key } => match self.values.get(key) {
                Some(v) => Lookup { exists: true, value: v.clone() },
                None => Lookup { exists: false, value: String::new() },
            },
            _ => panic!("not a lookup"),
        }
    }

    fn query(&self, call: &StoreCall) -> Vec<String> {
        match call {
            StoreCall::SetQuery { set_name } => {
                self.sets.get(set_name).map(|s| s.iter().cloned().collect()).unwrap_or_default()
            }
            _ => panic!("not a query"),
        }
    }
}

fn perform(step: Step) -> StoreCall {
    match step {
        Step::Perform(c, _) => c,
        Step::Respond(_) => panic!("expected a store call"),
    }
}

fn text_of(r: &Reply) -> &str {
    match &r.body {
        ReplyBody::Text(t) => t.as_str(),
        _ => panic!("expected a text body"),
    }
}

fn badge_of(r: &Reply) -> &ShieldsResponse {
    match &r.body {
        ReplyBody::Badge(b) => b,
        _ => panic!("expected a badge"),
    }
}

fn list(store: &Store, category: &str) -> Reply {
    let query = match list_official_step(Some(OfficialGet { category: category.to_string() })) {
        ListStep::Query(c) => c,
        ListStep::Respond(_) => panic!("expected a set query"),
    };
    let mut listing = Listing::start(Ok(store.query(&query)));
    while let Some(call) = listing.next_call() {
        listing.record(Ok(store.get(&call)));
    }
    listed_reply(listing)
}

fn entries_of(r: &Reply) -> Vec<(String, String)> {
    match &r.body {
        ReplyBody::Entries(e) => e.iter().map(|i| (i.name.clone(), i.url.clone())).collect(),
        _ => panic!("expected entries"),
    }
}

fn payload(repository: Option<&str>, tag: Option<&str>, host: Option<&str>) -> RequestPayload {
    RequestPayload {
        id: String::new(),
        timestamp: String::new(),
        action: "push".to_string(),
        target: Target {
            media_type: String::new(),
            size: 0,
            digest: String::new(),
            length: 0,
            repository: repository.map(|s| s.to_string()),
            tag: tag.map(|s| s.to_string()),
        },
        request: Request {
            id: String::new(),
            host: host.map(|s| s.to_string()),
            method: String::new(),
            useragent: String::new(),
        },
    }
}

fn reference(name: &str, url: &str) -> Option<ReferenceInformation> {
    Some(ReferenceInformation { name: name.to_string(), url: url.to_string() })
}

#[test]
fn put_then_get_returns_latest_url() {
    let mut store = Store::default();
    store.apply(&perform(reference_step(reference("x", "http://u"))));
    let found = fetch_result(Ok(store.get(&get_call("x"))));
    assert_eq!(found.as_deref(), Some("http://u"));
    store.apply(&perform(reference_step(reference("x", "http://u2"))));
    let found = fetch_result(Ok(store.get(&get_call("x"))));
    assert_eq!(found.as_deref(), Some("http://u2"));
}

#[test]
fn unstored_name_renders_fallback_badge() {
    let store = Store::default();
    let found = fetch_result(Ok(store.get(&get_call("nothing"))));
    assert!(found.is_none());
    let r = badge_reply(found);
    assert_eq!(r.status, 200);
    let b = badge_of(&r);
    assert_eq!(b.message, "Provider not yet published");
    assert_eq!(b.schema_version, 1);
    assert_eq!(b.label, "");
    assert_eq!(b.color, "253746");
    assert_eq!(b.named_logo, "wasmcloud");
}

#[test]
fn failed_lookup_renders_fallback_badge() {
    let found = fetch_result(Err("transport down".to_string()));
    assert!(found.is_none());
    let r = badge_reply(found);
    assert_eq!(r.status, 200);
    assert_eq!(badge_of(&r).message, "Provider not yet published");
}

#[test]
fn stored_url_renders_badge_message() {
    let r = badge_reply(Some("host/img:v2".to_string()));
    assert_eq!(r.status, 200);
    assert_eq!(badge_of(&r).message, "host/img:v2");
}

#[test]
fn webhook_without_repository_is_rejected() {
    let r = webhook_step(Some(payload(None, Some("v1"), Some("registry.example.com"))));
    match r {
        Step::Respond(reply) => {
            assert_eq!(reply.status, 400);
            assert_eq!(text_of(&reply), "Azure webhook payload did not contain required fields");
        }
        Step::Perform(..) => panic!("a rejected payload must not reach the store"),
    }
    assert!(payload(None, None, None).normalize().is_none());
}

#[test]
fn webhook_without_tag_or_host_is_rejected() {
    assert!(payload(Some("foo"), None, Some("h")).normalize().is_none());
    assert!(payload(Some("foo"), Some("v1"), None).normalize().is_none());
    assert!(matches!(webhook_step(None), Step::Respond(r) if r.status == 400));
}

#[test]
fn webhook_names_host_repository_tag() {
    let info = payload(Some("foo"), Some("v1"), Some("registry.example.com")).normalize().unwrap();
    assert_eq!(info.name, "foo");
    assert_eq!(info.url, "registry.example.com/foo:v1");
    let call = perform(webhook_step(Some(payload(
        Some("foo"),
        Some("v1"),
        Some("registry.example.com"),
    ))));
    match call {
        StoreCall::Put { key, value } => {
            assert_eq!(key, "foo");
            assert_eq!(value, "registry.example.com/foo:v1");
            let r = stored_reply(&key, &value, Ok(()));
            assert_eq!(r.status, 200);
            assert_eq!(text_of(&r), "Url registry.example.com/foo:v1 stored for foo");
        }
        _ => panic!("expected a put"),
    }
}

#[test]
fn adding_twice_keeps_one_member() {
    let mut store = Store::default();
    let post = || Some(OfficialPost { category: "cat".to_string(), name: "x".to_string() });
    let first = perform(add_official_step(post()));
    let second = perform(add_official_step(post()));
    store.apply(&first);
    store.apply(&second);
    let members = store.sets.get("wasmcloud:category:cat").unwrap();
    assert_eq!(members.len(), 1);
    assert!(members.contains("x"));
    let r = added_reply("cat", "x", Ok(()));
    assert_eq!(r.status, 200);
    assert_eq!(text_of(&r), "Official cat x added");
}

#[test]
fn removing_absent_name_succeeds() {
    let mut store = Store::default();
    let call =
        perform(remove_official_step(Some(OfficialPost { category: "cat".to_string(), name: "x".to_string() })));
    store.apply(&call);
    assert!(store.sets.get("wasmcloud:category:cat").map_or(true, |s| s.is_empty()));
    let r = removed_reply("cat", "x", Ok(()));
    assert_eq!(r.status, 200);
    assert_eq!(text_of(&r), "Official cat x removed");
}

#[test]
fn listing_joins_members_with_references() {
    let mut store = Store::default();
    let add = |n: &str| {
        perform(add_official_step(Some(OfficialPost { category: "cat".to_string(), name: n.to_string() })))
    };
    store.apply(&add("x"));
    store.apply(&put_call("x", "http://u"));
    store.apply(&add("y"));
    let r = list(&store, "cat");
    assert_eq!(r.status, 200);
    let entries = entries_of(&r);
    assert!(entries.contains(&("x".to_string(), "http://u".to_string())));
    assert!(entries.iter().all(|(n, _)| n != "y"));
    assert_eq!(entries.len(), 1);
}

#[test]
fn listing_keeps_member_order_and_skips_failures() {
    let mut listing = Listing::start(Ok(vec!["a".to_string(), "b".to_string(), "c".to_string()]));
    assert!(!listing.is_done());
    listing.record(Ok(Lookup { exists: true, value: "ua".to_string() }));
    listing.record(Err("boom".to_string()));
    listing.record(Ok(Lookup { exists: true, value: "uc".to_string() }));
    assert!(listing.is_done());
    assert!(listing.next_call().is_none());
    let entries = entries_of(&listed_reply(listing));
    assert_eq!(
        entries,
        vec![("a".to_string(), "ua".to_string()), ("c".to_string(), "uc".to_string())]
    );
}

#[test]
fn unused_category_lists_empty() {
    assert!(matches!(route("GET", "/category"), Route::ListOfficial));
    let store = Store::default();
    let r = list(&store, "never-used");
    assert_eq!(r.status, 200);
    assert!(entries_of(&r).is_empty());
    let failed = Listing::start(Err("down".to_string()));
    assert!(failed.is_done());
    assert!(entries_of(&listed_reply(failed)).is_empty());
}

#[test]
fn malformed_reference_body_is_rejected_without_store_call() {
    assert!(matches!(route("POST", "/api/reference"), Route::PostReference));
    match reference_step(None) {
        Step::Respond(r) => {
            assert_eq!(r.status, 400);
            assert_eq!(text_of(&r), "Payload did not contain provider name and url");
        }
        Step::Perform(..) => panic!("a rejected body must not reach the store"),
    }
}

#[test]
fn malformed_category_bodies_are_rejected() {
    let msg = "Payload did not contain required category and name fields";
    match add_official_step(None) {
        Step::Respond(r) => assert_eq!((r.status, text_of(&r)), (400, msg)),
        _ => panic!("expected a rejection"),
    }
    match remove_official_step(None) {
        Step::Respond(r) => assert_eq!((r.status, text_of(&r)), (400, msg)),
        _ => panic!("expected a rejection"),
    }
    match list_official_step(None) {
        ListStep::Respond(r) => {
            assert_eq!((r.status, text_of(&r)), (400, "Payload did not contain required category field"))
        }
        _ => panic!("expected a rejection"),
    }
}

#[test]
fn unmatched_route_is_not_found() {
    assert!(matches!(route("PATCH", "/unknown"), Route::NotFound));
    assert!(matches!(route("PUT", "/category"), Route::NotFound));
    let r = not_found();
    assert_eq!(r.status, 404);
    assert!(matches!(r.body, ReplyBody::Empty));
}

#[test]
fn routes_match_exactly() {
    assert!(matches!(route("POST", "/api/azurehook"), Route::AzureHook));
    assert!(matches!(route("POST", "/category"), Route::AddOfficial));
    assert!(matches!(route("DELETE", "/category"), Route::RemoveOfficial));
    assert!(matches!(route("post", "/category"), Route::NotFound));
    assert!(matches!(route("GET", "/api/reference/x"), Route::Badge(_)));
    match route("GET", "/api/reference") {
        Route::Badge(k) => assert_eq!(k, "api/reference"),
        _ => panic!("expected a badge lookup"),
    }
}

#[test]
fn badge_key_has_outer_slashes_trimmed() {
    match route("GET", "//provider-x//") {
        Route::Badge(k) => assert_eq!(k, "provider-x"),
        _ => panic!("expected a badge lookup"),
    }
    match route("GET", "/") {
        Route::Badge(k) => assert_eq!(k, ""),
        _ => panic!("expected a badge lookup"),
    }
    assert_eq!(trim_slashes("a/b"), "a/b");
    assert_eq!(trim_slashes("///"), "");
}

#[test]
fn store_failures_are_server_errors() {
    let r = stored_reply("n", "u", Err("timeout".to_string()));
    assert_eq!((r.status, text_of(&r)), (500, "Failed to store url: timeout"));
    let r = added_reply("cat", "x", Err("e1".to_string()));
    assert_eq!((r.status, text_of(&r)), (500, "Failed to store official cat: e1"));
    let r = removed_reply("cat", "x", Err("e2".to_string()));
    assert_eq!((r.status, text_of(&r)), (500, "Failed to remove official cat: e2"));
}

#[test]
fn category_keys_are_prefixed() {
    assert_eq!(category_set_name("cat"), "wasmcloud:category:cat");
    match list_official_step(Some(OfficialGet { category: "c".to_string() })) {
        ListStep::Query(StoreCall::SetQuery { set_name }) => {
            assert_eq!(set_name, "wasmcloud:category:c")
        }
        _ => panic!("expected a set query"),
    }
}

#[test]
fn badge_descriptor_fields() {
    let b = ShieldsResponse::new("lbl", "msg", "abc");
    assert_eq!(b.schema_version, 1);
    assert_eq!((b.label.as_str(), b.message.as_str(), b.color.as_str()), ("lbl", "msg", "abc"));
    assert_eq!(b.named_logo, "wasmcloud");
}

#[test]
fn string_equality() {
    assert!(str_eq("abc", "abc"));
    assert!(!str_eq("abc", "abd"));
    assert!(!str_eq("abc", "ab"));
    assert!(str_eq("", ""));
}

#[test]
fn routes_accept_outer_slashes() {
    assert!(matches!(route("POST", "/api/reference/"), Route::PostReference));
    assert!(matches!(route("POST", "api/reference"), Route::PostReference));
    assert!(matches!(route("POST", "api/azurehook/"), Route::AzureHook));
    assert!(matches!(route("POST", "category"), Route::AddOfficial));
    assert!(matches!(route("GET", "/category/"), Route::ListOfficial));
    assert!(matches!(route("DELETE", "/category/"), Route::RemoveOfficial));
    assert!(matches!(route("DELETE", "category"), Route::RemoveOfficial));
    assert!(matches!(route("POST", "/Category"), Route::NotFound));
}

#[test]
fn finish_replies_for_each_mutation() {
    let step = reference_step(reference("n", "h/n:1"));
    match step {
        Step::Perform(_, pending) => {
            let r = finish(pending, Ok(()));
            assert_eq!((r.status, text_of(&r)), (200, "Url h/n:1 stored for n"));
        }
        Step::Respond(_) => panic!("expected a store call"),
    }
    let post = || Some(OfficialPost { category: "cat".to_string(), name: "x".to_string() });
    match add_official_step(post()) {
        Step::Perform(_, pending) => {
            let r = finish(pending, Err("down".to_string()));
            assert_eq!((r.status, text_of(&r)), (500, "Failed to store official cat: down"));
        }
        Step::Respond(_) => panic!("expected a store call"),
    }
    match remove_official_step(post()) {
        Step::Perform(_, pending) => {
            let r = finish(pending, Ok(()));
            assert_eq!((r.status, text_of(&r)), (200, "Official cat x removed"));
        }
        Step::Respond(_) => panic!("expected a store call"),
    }
}
