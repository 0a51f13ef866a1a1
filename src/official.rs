//! Category membership: a set of provider names per category, listed by
//! joining each member against its stored reference.
use vstd::prelude::*;
use crate::store::{
    add_op, after, category_key, found_of, get_call, lookup, members, put_op, remove_op, Lookup,
    ReferenceInformation, StoreCall, StoreState,
};

verus! {

/// A request body naming a category and a provider.
pub struct OfficialPost {
    pub category: String,
    pub name: String,
}

/// A request body naming a category.
pub struct OfficialGet {
    pub category: String,
}

/// The (name, url) pairs that a listing yields: one for each member whose
/// lookup found a value, in member order. Members without a value are left out.
pub open spec fn joined(names: Seq<Seq<char>>, found: Seq<Option<Seq<char>>>) -> Seq<
    (Seq<char>, Seq<char>),
>
    decreases found.len(),
{
    if found.len() == 0 {
        seq![]
    } else {
        let k = found.len() - 1;
        let prev = joined(names, found.drop_last());
        match found[k] {
            Some(u) => prev.push((names[k], u)),
            None => prev,
        }
    }
}

/// The (name, url) pairs that a sequence of references holds.
pub open spec fn entry_views(e: Seq<ReferenceInformation>) -> Seq<(Seq<char>, Seq<char>)> {
    e.map_values(|r: ReferenceInformation| (r.name@, r.url@))
}

/// The views of a sequence of strings.
pub open spec fn string_views(v: Seq<String>) -> Seq<Seq<char>> {
    v.map_values(|s: String| s@)
}

/// A listing of one category in progress: the members that the set query
/// returned, how many of them were looked up, and what was found so far.
pub struct Listing {
    names: Vec<String>,
    next: usize,
    entries: Vec<ReferenceInformation>,
    found: Ghost<Seq<Option<Seq<char>>>>,
}

impl Listing {
    /// The members being listed.
    pub closed spec fn member_names(&self) -> Seq<Seq<char>> {
        string_views(self.names@)
    }

    /// What the lookups made so far reported, one per member, in order.
    pub closed spec fn found(&self) -> Seq<Option<Seq<char>>> {
        self.found@
    }

    /// The listing is consistent with the lookups made so far.
    pub closed spec fn wf(&self) -> bool {
        &&& self.next as int == self.found@.len()
        &&& self.next <= self.names.len()
        &&& entry_views(self.entries@) == joined(string_views(self.names@), self.found@)
    }

    /// Begins a listing from the answer of the set query. A failed query
    /// lists no member, like a category that was never used.
    pub fn start(query: Result<Vec<String>, String>) -> (r: Listing)
        ensures
            r.wf(),
            r.found().len() == 0,
            r.member_names() == match query {
                Ok(v) => string_views(v@),
                Err(_) => Seq::<Seq<char>>::empty(),
            },
    {
        let names = match query {
            Ok(v) => v,
            Err(_) => Vec::new(),
        };
        let r = Listing { names, next: 0, entries: Vec::new(), found: Ghost(Seq::empty()) };
        assert(entry_views(r.entries@) =~= seq![]);
        r
    }

    /// The lookup that the listing needs next, or `None` once every member
    /// has been looked up.
    pub fn next_call(&self) -> (r: Option<StoreCall>)
        requires
            self.wf(),
        ensures
            self.found().len() < self.member_names().len() ==> (r matches Some(c) && c@ == (
            crate::store::StoreOp::Get { key: self.member_names()[self.found().len() as int] })),
            self.found().len() >= self.member_names().len() ==> r is None,
    {
        if self.next < self.names.len() {
            Some(get_call(self.names[self.next].as_str()))
        } else {
            None
        }
    }

    /// Records the answer of the lookup of the next member.
    pub fn record(&mut self, outcome: Result<Lookup, String>)
        requires
            old(self).wf(),
            old(self).found().len() < old(self).member_names().len(),
        ensures
            final(self).wf(),
            final(self).member_names() == old(self).member_names(),
            final(self).found() == old(self).found().push(found_of(outcome)),
    {
        let ghost names = string_views(self.names@);
        let ghost old_found = self.found@;
        let ghost old_entries = self.entries@;
        let name = self.names[self.next].clone();
        match crate::store::fetch_result(outcome) {
            Some(url) => {
                self.entries.push(ReferenceInformation { name, url });
            },
            None => {},
        }
        self.found = Ghost(old_found.push(found_of(outcome)));
        self.next = self.next + 1;
        assert(self.found@.drop_last() =~= old_found);
        assert(entry_views(self.entries@) =~= joined(names, self.found@));
    }

    /// Whether every member has been looked up.
    pub fn is_done(&self) -> (r: bool)
        requires
            self.wf(),
        ensures
            r == (self.found().len() == self.member_names().len()),
    {
        self.next == self.names.len()
    }

    /// The references found, one for each member whose lookup found a value.
    pub fn into_entries(self) -> (r: Vec<ReferenceInformation>)
        requires
            self.wf(),
        ensures
            entry_views(r@) == joined(self.member_names(), self.found()),
    {
        self.entries
    }
}

/// A listed pair comes from a member whose lookup found that value, and each
/// such member gives its pair.
pub proof fn lemma_joined_entries(names: Seq<Seq<char>>, found: Seq<Option<Seq<char>>>)
    requires
        found.len() <= names.len(),
    ensures
        forall|e: (Seq<char>, Seq<char>)| #[trigger]
            joined(names, found).contains(e) <==> exists|i: int|
                0 <= i < found.len() && names[i] == e.0 && found[i] == Some(e.1),
    decreases found.len(),
{
    if found.len() > 0 {
        let k = found.len() - 1;
        let prefix = found.drop_last();
        lemma_joined_entries(names, prefix);
        assert forall|e: (Seq<char>, Seq<char>)| #[trigger]
            joined(names, found).contains(e) <==> exists|i: int|
                0 <= i < found.len() && names[i] == e.0 && found[i] == Some(e.1) by {
            if joined(names, found).contains(e) {
                if joined(names, prefix).contains(e) {
                    let i = choose|i: int|
                        0 <= i < prefix.len() && names[i] == e.0 && prefix[i] == Some(e.1);
                    assert(found[i] == prefix[i]);
                } else {
                    let j = choose|j: int|
                        0 <= j < joined(names, found).len() && joined(names, found)[j] == e;
                    assert(found[k] == Some(e.1) && names[k] == e.0);
                }
            }
            if exists|i: int| 0 <= i < found.len() && names[i] == e.0 && found[i] == Some(e.1) {
                let i = choose|i: int|
                    0 <= i < found.len() && names[i] == e.0 && found[i] == Some(e.1);
                if i < k {
                    assert(prefix[i] == found[i]);
                    assert(joined(names, prefix).contains(e));
                    let j = choose|j: int|
                        0 <= j < joined(names, prefix).len() && joined(names, prefix)[j] == e;
                    assert(joined(names, found)[j] == e);
                } else {
                    assert(joined(names, found) == joined(names, prefix).push(e));
                    assert(joined(names, found)[joined(names, prefix).len() as int] == e);
                }
            }
        }
    }
}

/// Adding a name that is already a member of a category changes nothing:
/// the member set holds each name once.
pub proof fn lemma_add_idempotent(s: StoreState, category: Seq<char>, name: Seq<char>)
    ensures
        members(after(s, add_op(category, name)), category_key(category)).contains(name),
        after(after(s, add_op(category, name)), add_op(category, name)) == after(
            s,
            add_op(category, name),
        ),
{
    let s1 = after(s, add_op(category, name));
    let key = category_key(category);
    assert(members(s1, key).insert(name) =~= members(s1, key));
    assert(s1.sets.insert(key, members(s1, key).insert(name)) =~= s1.sets);
}

/// Removing a name that is not a member of a category leaves every member
/// set and every stored value as it was.
pub proof fn lemma_remove_absent(s: StoreState, category: Seq<char>, name: Seq<char>)
    requires
        !members(s, category_key(category)).contains(name),
    ensures
        after(s, remove_op(category, name)).values == s.values,
        forall|k: Seq<char>| #[trigger]
            members(after(s, remove_op(category, name)), k) == members(s, k),
{
    let key = category_key(category);
    assert(members(s, key).remove(name) =~= members(s, key));
}

/// After a name is added to a category and a url is stored under it, listing
/// the category yields that name with that url, whatever order the member
/// set comes in.
pub proof fn lemma_listing_has_published(
    s: StoreState,
    category: Seq<char>,
    name: Seq<char>,
    url: Seq<char>,
    names: Seq<Seq<char>>,
    found: Seq<Option<Seq<char>>>,
)
    requires
        names.to_set() == members(
            after(after(s, add_op(category, name)), put_op(name, url)),
            category_key(category),
        ),
        found.len() == names.len(),
        forall|i: int|
            0 <= i < names.len() ==> found[i] == lookup(
                after(after(s, add_op(category, name)), put_op(name, url)),
                #[trigger] names[i],
            ),
    ensures
        joined(names, found).contains((name, url)),
{
    let s2 = after(after(s, add_op(category, name)), put_op(name, url));
    lemma_add_idempotent(s, category, name);
    assert(names.to_set().contains(name));
    let i = choose|i: int| 0 <= i < names.len() && names[i] == name;
    assert(found[i] == Some(url));
    lemma_joined_entries(names, found);
}

/// A name added to a category with no url stored under it is absent from
/// the category's listing.
pub proof fn lemma_listing_omits_unpublished(
    s: StoreState,
    category: Seq<char>,
    name: Seq<char>,
    names: Seq<Seq<char>>,
    found: Seq<Option<Seq<char>>>,
)
    requires
        lookup(s, name) is None,
        found.len() == names.len(),
        forall|i: int|
            0 <= i < names.len() ==> found[i] == lookup(
                after(s, add_op(category, name)),
                #[trigger] names[i],
            ),
    ensures
        forall|e: (Seq<char>, Seq<char>)| joined(names, found).contains(e) ==> e.0 != name,
{
    lemma_joined_entries(names, found);
}

} // verus!
