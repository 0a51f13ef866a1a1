//! Turning decoded requests into store calls, and store answers into replies.
use vstd::prelude::*;
use crate::azure::{webhook_reference, RequestPayload};
use crate::official::{entry_views, joined, Listing, OfficialGet, OfficialPost};
use crate::store::{
    add_call, add_op, category_key, put_call, put_op, query_call, remove_call, remove_op,
    lookup, members, ReferenceInformation, StoreCall, StoreOp, StoreState,
};

verus! {

/// Colour of every badge.
pub const GUNMETAL_COLOR: &'static str = "253746";

/// Badge message for a name with no stored reference.
pub const NOT_PUBLISHED: &'static str = "Provider not yet published";

/// Logo named by every badge.
pub const BADGE_LOGO: &'static str = "wasmcloud";

/// Reply text for a reference body that did not decode.
pub const REFERENCE_MALFORMED: &'static str = "Payload did not contain provider name and url";

/// Reply text for a webhook body that did not decode or lacks a required field.
pub const WEBHOOK_MALFORMED: &'static str = "Azure webhook payload did not contain required fields";

/// Reply text for a category-and-name body that did not decode.
pub const OFFICIAL_MALFORMED: &'static str =
    "Payload did not contain required category and name fields";

/// Reply text for a category body that did not decode.
pub const CATEGORY_MALFORMED: &'static str = "Payload did not contain required category field";

/// A badge descriptor in the shields.io endpoint schema.
pub struct ShieldsResponse {
    pub schema_version: u8,
    pub label: String,
    pub message: String,
    pub color: String,
    pub named_logo: String,
}

impl ShieldsResponse {
    /// A badge of schema version 1 with the fixed logo.
    pub fn new(label: &str, message: &str, color: &str) -> (r: ShieldsResponse)
        ensures
            r.schema_version == 1,
            r.label@ == label@,
            r.message@ == message@,
            r.color@ == color@,
            r.named_logo@ == BADGE_LOGO@,
    {
        ShieldsResponse {
            schema_version: 1,
            label: label.to_owned(),
            message: message.to_owned(),
            color: color.to_owned(),
            named_logo: BADGE_LOGO.to_owned(),
        }
    }
}

/// What a reply carries.
pub enum ReplyBody {
    Empty,
    Text(String),
    Entries(Vec<ReferenceInformation>),
    Badge(ShieldsResponse),
}

/// An HTTP reply: a status code and a body.
pub struct Reply {
    pub status: u16,
    pub body: ReplyBody,
}

/// What the reply to a mutating store call will say, whatever its outcome.
pub enum Pending {
    /// A reference was stored under `name`.
    Stored { name: String, url: String },
    /// `name` was added to `category`.
    Added { category: String, name: String },
    /// `name` was removed from `category`.
    Removed { category: String, name: String },
}

/// The next thing to do for a request: answer it, or make a mutating store
/// call and then reply as the pending part says.
pub enum Step {
    Respond(Reply),
    Perform(StoreCall, Pending),
}

/// The next thing to do for a listing request: answer it, or query the
/// member set.
pub enum ListStep {
    Respond(Reply),
    Query(StoreCall),
}

/// Whether `r` is a reply with `status` and the text `text`.
pub open spec fn is_text_reply(r: Reply, status: u16, text: Seq<char>) -> bool {
    r.status == status && (r.body matches ReplyBody::Text(t) && t@ == text)
}

/// Whether `s` answers at once with a 400 and the text `text`.
pub open spec fn is_rejection(s: Step, text: Seq<char>) -> bool {
    s matches Step::Respond(r) && is_text_reply(r, 400, text)
}

/// Whether `s` stores `url` under `name` and then reports it.
pub open spec fn stores(s: Step, name: Seq<char>, url: Seq<char>) -> bool {
    s matches Step::Perform(c, p) && c@ == put_op(name, url) && (p matches Pending::Stored {
        name: n,
        url: u,
    } && n@ == name && u@ == url)
}

/// Whether `s` adds `name` to `category` and then reports it.
pub open spec fn adds(s: Step, category: Seq<char>, name: Seq<char>) -> bool {
    s matches Step::Perform(c, p) && c@ == add_op(category, name) && (p matches Pending::Added {
        category: k,
        name: n,
    } && k@ == category && n@ == name)
}

/// Whether `s` removes `name` from `category` and then reports it.
pub open spec fn removes(s: Step, category: Seq<char>, name: Seq<char>) -> bool {
    s matches Step::Perform(c, p) && c@ == remove_op(category, name) && (
    p matches Pending::Removed { category: k, name: n } && k@ == category && n@ == name)
}

/// The reply that a pending mutation gives for the outcome of its call.
pub open spec fn finished(p: Pending, outcome: Result<(), String>, r: Reply) -> bool {
    match (p, outcome) {
        (Pending::Stored { name, url }, Ok(_)) => is_text_reply(r, 200, stored_text(name@, url@)),
        (Pending::Stored { .. }, Err(e)) => is_text_reply(r, 500, "Failed to store url: "@ + e@),
        (Pending::Added { category, name }, Ok(_)) => is_text_reply(
            r,
            200,
            added_text(category@, name@),
        ),
        (Pending::Added { category, .. }, Err(e)) => is_text_reply(
            r,
            500,
            "Failed to store official "@ + category@ + ": "@ + e@,
        ),
        (Pending::Removed { category, name }, Ok(_)) => is_text_reply(
            r,
            200,
            removed_text(category@, name@),
        ),
        (Pending::Removed { category, .. }, Err(e)) => is_text_reply(
            r,
            500,
            "Failed to remove official "@ + category@ + ": "@ + e@,
        ),
    }
}

/// Reply text once a reference is stored.
pub open spec fn stored_text(name: Seq<char>, url: Seq<char>) -> Seq<char> {
    "Url "@ + url + " stored for "@ + name
}

/// Reply text once a name is added to a category.
pub open spec fn added_text(category: Seq<char>, name: Seq<char>) -> Seq<char> {
    "Official "@ + category + " "@ + name + " added"@
}

/// Reply text once a name is removed from a category.
pub open spec fn removed_text(category: Seq<char>, name: Seq<char>) -> Seq<char> {
    "Official "@ + category + " "@ + name + " removed"@
}

/// The message of the badge for what a lookup found.
pub open spec fn badge_message(found: Option<Seq<char>>) -> Seq<char> {
    match found {
        Some(u) => u,
        None => NOT_PUBLISHED@,
    }
}

/// A name that was never stored is not found, and its badge shows the
/// fallback text.
pub proof fn lemma_unstored_badge(s: StoreState, name: Seq<char>)
    requires
        !s.values.contains_key(name),
    ensures
        lookup(s, name) is None,
        badge_message(lookup(s, name)) == NOT_PUBLISHED@,
{
}

/// A category that was never used has no member, so its listing is empty.
pub proof fn lemma_unused_category_lists_nothing(
    s: StoreState,
    category: Seq<char>,
    names: Seq<Seq<char>>,
    found: Seq<Option<Seq<char>>>,
)
    requires
        !s.sets.contains_key(category_key(category)),
        names.to_set() == members(s, category_key(category)),
        found.len() == names.len(),
    ensures
        joined(names, found).len() == 0,
{
    if names.len() > 0 {
        assert(names.to_set().contains(names[0]));
    }
}

/// A webhook payload without a repository is rejected, whatever its other
/// fields hold.
pub proof fn lemma_missing_repository_rejected(p: RequestPayload)
    requires
        p.target.repository is None,
    ensures
        webhook_reference(p) is None,
{
}

fn text_reply(status: u16, text: String) -> (r: Reply)
    ensures
        is_text_reply(r, status, text@),
{
    Reply { status, body: ReplyBody::Text(text) }
}

fn bad_request(text: &str) -> (r: Step)
    ensures
        is_rejection(r, text@),
{
    Step::Respond(text_reply(400, text.to_owned()))
}

/// The reply to a request that no route matches: 404, empty body.
pub fn not_found() -> (r: Reply)
    ensures
        r.status == 404,
        r.body is Empty,
{
    Reply { status: 404, body: ReplyBody::Empty }
}

fn store_step(info: ReferenceInformation) -> (r: Step)
    ensures
        stores(r, info.name@, info.url@),
{
    let call = put_call(info.name.as_str(), info.url.as_str());
    Step::Perform(call, Pending::Stored { name: info.name, url: info.url })
}

/// A request to store a reference: the store call, or a 400 when the body
/// did not decode. A rejected body makes no call.
pub fn reference_step(decoded: Option<ReferenceInformation>) -> (r: Step)
    ensures
        decoded is None ==> is_rejection(r, REFERENCE_MALFORMED@),
        decoded matches Some(info) ==> stores(r, info.name@, info.url@),
{
    match decoded {
        Some(info) => store_step(info),
        None => bad_request(REFERENCE_MALFORMED),
    }
}

/// A registry webhook: the call that stores the reference it names, or a
/// 400 when the body did not decode or lacks a required field.
pub fn webhook_step(decoded: Option<RequestPayload>) -> (r: Step)
    ensures
        match decoded {
            Some(p) => match webhook_reference(p) {
                Some((name, url)) => stores(r, name, url),
                None => is_rejection(r, WEBHOOK_MALFORMED@),
            },
            None => is_rejection(r, WEBHOOK_MALFORMED@),
        },
{
    match decoded {
        Some(p) => match p.normalize() {
            Some(info) => store_step(info),
            None => bad_request(WEBHOOK_MALFORMED),
        },
        None => bad_request(WEBHOOK_MALFORMED),
    }
}

/// A request to add a name to a category.
pub fn add_official_step(decoded: Option<OfficialPost>) -> (r: Step)
    ensures
        decoded is None ==> is_rejection(r, OFFICIAL_MALFORMED@),
        decoded matches Some(p) ==> adds(r, p.category@, p.name@),
{
    match decoded {
        Some(p) => {
            let call = add_call(p.category.as_str(), p.name.as_str());
            Step::Perform(call, Pending::Added { category: p.category, name: p.name })
        },
        None => bad_request(OFFICIAL_MALFORMED),
    }
}

/// A request to remove a name from a category.
pub fn remove_official_step(decoded: Option<OfficialPost>) -> (r: Step)
    ensures
        decoded is None ==> is_rejection(r, OFFICIAL_MALFORMED@),
        decoded matches Some(p) ==> removes(r, p.category@, p.name@),
{
    match decoded {
        Some(p) => {
            let call = remove_call(p.category.as_str(), p.name.as_str());
            Step::Perform(call, Pending::Removed { category: p.category, name: p.name })
        },
        None => bad_request(OFFICIAL_MALFORMED),
    }
}

/// A request to list a category: the query of its member set, or a 400.
pub fn list_official_step(decoded: Option<OfficialGet>) -> (r: ListStep)
    ensures
        decoded is None ==> (r matches ListStep::Respond(reply) && is_text_reply(
            reply,
            400,
            CATEGORY_MALFORMED@,
        )),
        decoded matches Some(g) ==> (r matches ListStep::Query(c) && c@ == (StoreOp::SetQuery {
            set_name: category_key(g.category@),
        })),
{
    match decoded {
        Some(g) => ListStep::Query(query_call(g.category.as_str())),
        None => ListStep::Respond(text_reply(400, CATEGORY_MALFORMED.to_owned())),
    }
}

/// The reply to a mutating call, from what was asked and how the call ended.
pub fn finish(pending: Pending, outcome: Result<(), String>) -> (r: Reply)
    ensures
        finished(pending, outcome, r),
{
    match pending {
        Pending::Stored { name, url } => stored_reply(name.as_str(), url.as_str(), outcome),
        Pending::Added { category, name } => added_reply(category.as_str(), name.as_str(), outcome),
        Pending::Removed { category, name } => removed_reply(
            category.as_str(),
            name.as_str(),
            outcome,
        ),
    }
}

/// The reply once a reference was stored, or the store failed with the
/// description `e`.
pub fn stored_reply(name: &str, url: &str, outcome: Result<(), String>) -> (r: Reply)
    ensures
        outcome is Ok ==> is_text_reply(r, 200, stored_text(name@, url@)),
        outcome matches Err(e) ==> is_text_reply(r, 500, "Failed to store url: "@ + e@),
{
    match outcome {
        Ok(()) => {
            let mut t = "Url ".to_owned();
            t.append(url);
            t.append(" stored for ");
            t.append(name);
            text_reply(200, t)
        },
        Err(e) => {
            let mut t = "Failed to store url: ".to_owned();
            t.append(e.as_str());
            text_reply(500, t)
        },
    }
}

/// The reply once a name was added to a category, or the store failed.
pub fn added_reply(category: &str, name: &str, outcome: Result<(), String>) -> (r: Reply)
    ensures
        outcome is Ok ==> is_text_reply(r, 200, added_text(category@, name@)),
        outcome matches Err(e) ==> is_text_reply(
            r,
            500,
            "Failed to store official "@ + category@ + ": "@ + e@,
        ),
{
    match outcome {
        Ok(()) => {
            let mut t = "Official ".to_owned();
            t.append(category);
            t.append(" ");
            t.append(name);
            t.append(" added");
            text_reply(200, t)
        },
        Err(e) => {
            let mut t = "Failed to store official ".to_owned();
            t.append(category);
            t.append(": ");
            t.append(e.as_str());
            text_reply(500, t)
        },
    }
}

/// The reply once a name was removed from a category, or the store failed.
pub fn removed_reply(category: &str, name: &str, outcome: Result<(), String>) -> (r: Reply)
    ensures
        outcome is Ok ==> is_text_reply(r, 200, removed_text(category@, name@)),
        outcome matches Err(e) ==> is_text_reply(
            r,
            500,
            "Failed to remove official "@ + category@ + ": "@ + e@,
        ),
{
    match outcome {
        Ok(()) => {
            let mut t = "Official ".to_owned();
            t.append(category);
            t.append(" ");
            t.append(name);
            t.append(" removed");
            text_reply(200, t)
        },
        Err(e) => {
            let mut t = "Failed to remove official ".to_owned();
            t.append(category);
            t.append(": ");
            t.append(e.as_str());
            text_reply(500, t)
        },
    }
}

/// The reply to a finished listing: 200 with the references found, which
/// is an empty list for a category with no member.
pub fn listed_reply(listing: Listing) -> (r: Reply)
    requires
        listing.wf(),
    ensures
        r.status == 200,
        r.body matches ReplyBody::Entries(e) && entry_views(e@) == joined(
            listing.member_names(),
            listing.found(),
        ),
{
    Reply { status: 200, body: ReplyBody::Entries(listing.into_entries()) }
}

/// The badge reply for what a lookup found: always 200; the message is the
/// stored url, or the fallback text when nothing was found.
pub fn badge_reply(found: Option<String>) -> (r: Reply)
    ensures
        r.status == 200,
        r.body matches ReplyBody::Badge(b) && b.schema_version == 1 && b.label@.len() == 0
            && b.message@ == badge_message(
            match found {
                Some(u) => Some(u@),
                None => None,
            },
        ) && b.color@ == GUNMETAL_COLOR@ && b.named_logo@ == BADGE_LOGO@,
{
    let badge = match found {
        Some(u) => ShieldsResponse::new("", u.as_str(), GUNMETAL_COLOR),
        None => ShieldsResponse::new("", NOT_PUBLISHED, GUNMETAL_COLOR),
    };
    proof {
        reveal_strlit("");
    }
    Reply { status: 200, body: ReplyBody::Badge(badge) }
}

} // verus!
