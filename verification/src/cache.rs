//! The credential cache: vault items by name, as of one listing.
//!
//! A cache is built from a whole listing and swapped in as a whole, so a
//! reader sees the items of one point in time. When a refresh fails the cache
//! keeps what it has.

use crate::json::{lemma_array_value, values_of, Json, JsonValue};
use crate::string_map::StringMap;
use vstd::prelude::*;

verus! {

/// The name of a vault item: its string member `name`.
pub open spec fn item_name(item: JsonValue) -> Option<Seq<char>> {
    item.member_or_null("name"@).text()
}

/// The items by name, a later item taking the place of an earlier one of
/// the same name. An item without a name leaves no entry.
pub open spec fn snapshot(items: Seq<JsonValue>) -> Map<Seq<char>, JsonValue>
    decreases items.len(),
{
    if items.len() == 0 {
        Map::empty()
    } else {
        match item_name(items.last()) {
            Some(name) => snapshot(items.drop_last()).insert(name, items.last()),
            None => snapshot(items.drop_last()),
        }
    }
}

/// Whether every item has a name.
pub open spec fn all_named(items: Seq<JsonValue>) -> bool {
    forall|i: int| 0 <= i < items.len() ==> (#[trigger] item_name(items[i])) is Some
}

/// What a listing holds: the snapshot of its items where it is an array of
/// named items, nothing where it is no array, and `None` where an item of
/// the array has no name.
pub open spec fn listing_snapshot(listing: JsonValue) -> Option<Map<Seq<char>, JsonValue>> {
    match listing.elements() {
        Some(items) => if all_named(items) {
            Some(snapshot(items))
        } else {
            None
        },
        None => Some(Map::empty()),
    }
}

/// The item called `name` in a cache.
pub open spec fn lookup(cache: Map<Seq<char>, JsonValue>, name: Seq<char>) -> Option<JsonValue> {
    if cache.contains_key(name) {
        Some(cache[name])
    } else {
        None
    }
}

/// The cache that serves after a refresh: the fresh one where the refresh
/// brought one, and the one that served before where it failed.
pub open spec fn served_after<E>(
    before: Map<Seq<char>, JsonValue>,
    refreshed: Result<CredentialCache, E>,
) -> Map<Seq<char>, JsonValue> {
    match refreshed {
        Ok(fresh) => fresh@,
        Err(_) => before,
    }
}

/// Vault items by name.
#[derive(Debug)]
pub struct CredentialCache {
    items: StringMap<Json>,
}

impl View for CredentialCache {
    type V = Map<Seq<char>, JsonValue>;

    closed spec fn view(&self) -> Map<Seq<char>, JsonValue> {
        self.items@
    }
}

impl CredentialCache {
    /// The cache before the first listing: it holds nothing.
    pub fn new() -> (cache: Self)
        ensures
            cache@ == Map::<Seq<char>, JsonValue>::empty(),
    {
        CredentialCache { items: StringMap::new() }
    }

    /// The number of items.
    pub fn len(&self) -> (n: usize)
        ensures
            self@.dom().finite(),
            n == self@.dom().len(),
    {
        self.items.len()
    }

    /// The item called `name`.
    pub fn get(&self, name: &str) -> (item: Option<&Json>)
        ensures
            item.deep_view() == lookup(self@, name@),
    {
        self.items.get(name)
    }

    /// The cache of a listing: each item of the array under its name, the
    /// later of two items of one name. A listing that is no array holds
    /// nothing. There is no cache where an item has no name.
    pub fn from_listing(listing: &Json) -> (cache: Option<Self>)
        ensures
            match cache {
                Some(cache) => listing_snapshot(listing@) == Some(cache@),
                None => listing_snapshot(listing@) is None,
            },
    {
        let mut items: StringMap<Json> = StringMap::new();
        match listing.as_array() {
            Some(listed) => {
                proof {
                    lemma_array_value(*listed);
                }
                let ghost values = values_of(listed@);
                assert(values.take(0) =~= Seq::<JsonValue>::empty());
                let mut i: usize = 0;
                while i < listed.len()
                    invariant
                        i <= listed.len(),
                        values == values_of(listed@),
                        listing@.elements() == Some(values),
                        all_named(values.take(i as int)),
                        items@ == snapshot(values.take(i as int)),
                    decreases listed.len() - i,
                {
                    let ghost seen = values.take(i as int);
                    let ghost next = values.take(i + 1);
                    assert(next.drop_last() =~= seen);
                    assert(next.last() == values[i as int]);
                    assert(values[i as int] == listed@[i as int]@);
                    match listed[i].str_member("name") {
                        Some(name) => {
                            items.insert(name.to_owned(), listed[i].clone());
                            assert forall|j: int| 0 <= j < next.len() implies (#[trigger] item_name(
                                next[j],
                            )) is Some by {
                                if j < i {
                                    assert(next[j] == seen[j]);
                                }
                            }
                        },
                        None => {
                            assert(item_name(values[i as int]) is None);
                            return None;
                        },
                    }
                    i += 1;
                }
                assert(values.take(i as int) =~= values);
                Some(CredentialCache { items })
            },
            None => Some(CredentialCache { items }),
        }
    }

    /// Takes in what a refresh brought: a new cache takes the place of this
    /// one as a whole; after a failure this one stays as it is. Returns the
    /// failure, for the caller to report.
    pub fn absorb<E>(&mut self, refreshed: Result<CredentialCache, E>) -> (failure: Option<E>)
        ensures
            final(self)@ == served_after(old(self)@, refreshed),
            failure == match refreshed {
                Ok(_) => None,
                Err(error) => Some(error),
            },
    {
        match refreshed {
            Ok(fresh) => {
                *self = fresh;
                None
            },
            Err(error) => Some(error),
        }
    }
}

/// A failed refresh changes nothing that a reader sees: the cache serves
/// what it served before, item for item, and is not emptied.
pub proof fn lemma_failed_refresh_keeps_snapshot<E>(
    before: Map<Seq<char>, JsonValue>,
    error: E,
    name: Seq<char>,
)
    ensures
        served_after(before, Err::<CredentialCache, E>(error)) == before,
        lookup(served_after(before, Err::<CredentialCache, E>(error)), name) == lookup(before, name),
{
}

/// A snapshot has an entry for each name that occurs among the items, and
/// for no other.
pub proof fn lemma_snapshot_names(items: Seq<JsonValue>, name: Seq<char>)
    ensures
        snapshot(items).contains_key(name) <==> exists|i: int|
            0 <= i < items.len() && #[trigger] item_name(items[i]) == Some(name),
    decreases items.len(),
{
    if items.len() > 0 {
        let earlier = items.drop_last();
        lemma_snapshot_names(earlier, name);
        if snapshot(items).contains_key(name) {
            if item_name(items.last()) == Some(name) {
                assert(item_name(items[items.len() - 1]) == Some(name));
            } else {
                let i = choose|i: int|
                    0 <= i < earlier.len() && #[trigger] item_name(earlier[i]) == Some(name);
                assert(item_name(items[i]) == Some(name));
            }
        }
        if exists|i: int| 0 <= i < items.len() && #[trigger] item_name(items[i]) == Some(name) {
            let i = choose|i: int| 0 <= i < items.len() && #[trigger] item_name(items[i]) == Some(name);
            if i < items.len() - 1 {
                assert(item_name(earlier[i]) == Some(name));
            }
        }
    }
}

/// Of two items of one name the later wins: an item after which no item of
/// the same name follows is the one that the snapshot holds under its name.
pub proof fn lemma_later_item_wins(items: Seq<JsonValue>, i: int, name: Seq<char>)
    requires
        0 <= i < items.len(),
        item_name(items[i]) == Some(name),
        forall|j: int| i < j < items.len() ==> #[trigger] item_name(items[j]) != Some(name),
    ensures
        lookup(snapshot(items), name) == Some(items[i]),
    decreases items.len(),
{
    let earlier = items.drop_last();
    if i < items.len() - 1 {
        assert forall|j: int| i < j < earlier.len() implies #[trigger] item_name(earlier[j]) != Some(
            name,
        ) by {
            assert(earlier[j] == items[j]);
        }
        assert(earlier[i] == items[i]);
        lemma_later_item_wins(earlier, i, name);
        assert(item_name(items[items.len() - 1]) != Some(name));
    }
}

} // verus!
