//! The key-value substrate as this library sees it: the calls it asks for, a
//! model of what those calls do, and the reference and category operations
//! built on them.
use vstd::prelude::*;

verus! {

/// Prefix of every key that holds a category's member set.
pub const OFFICIAL_KEY_PREFIX: &'static str = "wasmcloud:category";

/// A stored reference: a provider name and the location it lives at.
pub struct ReferenceInformation {
    pub name: String,
    pub url: String,
}

/// What a key lookup hands back: whether the key exists, and its value.
pub struct Lookup {
    pub exists: bool,
    pub value: String,
}

/// A request to the key-value store.
pub enum StoreCall {
    Put { key: String, value: String },
    Get { key: String },
    SetAdd { set_name: String, value: String },
    SetDel { set_name: String, value: String },
    SetQuery { set_name: String },
}

/// A store request over character sequences.
pub enum StoreOp {
    Put { key: Seq<char>, value: Seq<char> },
    Get { key: Seq<char> },
    SetAdd { set_name: Seq<char>, value: Seq<char> },
    SetDel { set_name: Seq<char>, value: Seq<char> },
    SetQuery { set_name: Seq<char> },
}

impl View for StoreCall {
    type V = StoreOp;

    open spec fn view(&self) -> StoreOp {
        match self {
            StoreCall::Put { key, value } => StoreOp::Put { key: key@, value: value@ },
            StoreCall::Get { key } => StoreOp::Get { key: key@ },
            StoreCall::SetAdd { set_name, value } => StoreOp::SetAdd {
                set_name: set_name@,
                value: value@,
            },
            StoreCall::SetDel { set_name, value } => StoreOp::SetDel {
                set_name: set_name@,
                value: value@,
            },
            StoreCall::SetQuery { set_name } => StoreOp::SetQuery { set_name: set_name@ },
        }
    }
}

/// The contents of the key-value store: plain values, and named sets.
/// A set that is absent is the same as an empty one.
pub struct StoreState {
    pub values: Map<Seq<char>, Seq<char>>,
    pub sets: Map<Seq<char>, Set<Seq<char>>>,
}

/// The value stored under `key`, if any.
pub open spec fn lookup(s: StoreState, key: Seq<char>) -> Option<Seq<char>> {
    if s.values.contains_key(key) {
        Some(s.values[key])
    } else {
        None
    }
}

/// The members of the set named `set_name`.
pub open spec fn members(s: StoreState, set_name: Seq<char>) -> Set<Seq<char>> {
    if s.sets.contains_key(set_name) {
        s.sets[set_name]
    } else {
        Set::empty()
    }
}

/// The store after a request has succeeded on it.
pub open spec fn after(s: StoreState, op: StoreOp) -> StoreState {
    match op {
        StoreOp::Put { key, value } => StoreState { values: s.values.insert(key, value), ..s },
        StoreOp::SetAdd { set_name, value } => StoreState {
            sets: s.sets.insert(set_name, members(s, set_name).insert(value)),
            ..s
        },
        StoreOp::SetDel { set_name, value } => StoreState {
            sets: s.sets.insert(set_name, members(s, set_name).remove(value)),
            ..s
        },
        _ => s,
    }
}

/// The key of the member set of `category`.
pub open spec fn category_key(category: Seq<char>) -> Seq<char> {
    OFFICIAL_KEY_PREFIX@ + ":"@ + category
}

/// Storing `url` under `name`.
pub open spec fn put_op(name: Seq<char>, url: Seq<char>) -> StoreOp {
    StoreOp::Put { key: name, value: url }
}

/// Adding `name` to the member set of `category`.
pub open spec fn add_op(category: Seq<char>, name: Seq<char>) -> StoreOp {
    StoreOp::SetAdd { set_name: category_key(category), value: name }
}

/// Removing `name` from the member set of `category`.
pub open spec fn remove_op(category: Seq<char>, name: Seq<char>) -> StoreOp {
    StoreOp::SetDel { set_name: category_key(category), value: name }
}

/// The value a lookup answer stands for: present only when the call
/// succeeded and reported the key as existing.
pub open spec fn found_of(outcome: Result<Lookup, String>) -> Option<Seq<char>> {
    match outcome {
        Ok(l) => if l.exists {
            Some(l.value@)
        } else {
            None
        },
        Err(_) => None,
    }
}

/// A lookup after storing `url` under `name` finds `url`, and a later store
/// under the same name replaces it.
pub proof fn lemma_put_then_get(
    s: StoreState,
    name: Seq<char>,
    url: Seq<char>,
    url2: Seq<char>,
)
    ensures
        lookup(after(s, put_op(name, url)), name) == Some(url),
        lookup(after(after(s, put_op(name, url)), put_op(name, url2)), name) == Some(url2),
{
}

/// The request that stores `url` under `name`, replacing any earlier value.
pub fn put_call(name: &str, url: &str) -> (r: StoreCall)
    ensures
        r@ == put_op(name@, url@),
{
    StoreCall::Put { key: name.to_owned(), value: url.to_owned() }
}

/// The request that looks `name` up.
pub fn get_call(name: &str) -> (r: StoreCall)
    ensures
        r@ == (StoreOp::Get { key: name@ }),
{
    StoreCall::Get { key: name.to_owned() }
}

/// The key of the member set of `category`.
pub fn category_set_name(category: &str) -> (r: String)
    ensures
        r@ == category_key(category@),
{
    let mut key = OFFICIAL_KEY_PREFIX.to_owned();
    key.append(":");
    key.append(category);
    key
}

/// The request that adds `name` to `category`.
pub fn add_call(category: &str, name: &str) -> (r: StoreCall)
    ensures
        r@ == add_op(category@, name@),
{
    StoreCall::SetAdd { set_name: category_set_name(category), value: name.to_owned() }
}

/// The request that removes `name` from `category`.
pub fn remove_call(category: &str, name: &str) -> (r: StoreCall)
    ensures
        r@ == remove_op(category@, name@),
{
    StoreCall::SetDel { set_name: category_set_name(category), value: name.to_owned() }
}

/// The request that lists the members of `category`.
pub fn query_call(category: &str) -> (r: StoreCall)
    ensures
        r@ == (StoreOp::SetQuery { set_name: category_key(category@) }),
{
    StoreCall::SetQuery { set_name: category_set_name(category) }
}

/// The value that a lookup answer reports: a failed call and a missing key
/// both give `None`.
pub fn fetch_result(outcome: Result<Lookup, String>) -> (r: Option<String>)
    ensures
        r matches Some(v) ==> found_of(outcome) == Some(v@),
        r is None ==> found_of(outcome) is None,
{
    match outcome {
        Ok(l) => if l.exists {
            Some(l.value)
        } else {
            None
        },
        Err(_) => None,
    }
}

} // verus!
