use crate::errors::Error;
use crate::storage::Backend;
use vstd::prelude::*;

verus! {

/// The kind of content a store may be restricted to.
#[derive(Debug, Clone, Copy, PartialEq, Eq, Structural)]
pub enum ContentType {
    Image,
    Video,
    Audio,
}

/// A tenant namespace with its own upload policy.
#[derive(Debug, Clone, Copy, PartialEq, Eq, Structural)]
pub struct Store {
    pub max_size: usize,
    pub restrict_content_type: Option<ContentType>,
}

/// The configured stores, keyed by their identifier; loaded once at startup
/// and read-only afterwards.
pub struct Stores {
    pub entries: Vec<(String, Store)>,
}

/// Position of the entry for `id`, if any.
pub open spec fn entry_index(entries: Seq<(String, Store)>, id: Seq<char>) -> Option<int>
    decreases entries.len(),
{
    if entries.len() == 0 {
        None
    } else if entries.last().0@ == id {
        Some(entries.len() - 1)
    } else {
        entry_index(entries.drop_last(), id)
    }
}

impl Stores {
    /// The configuration as a map from store identifier to policy.
    pub open spec fn view_map(&self) -> Map<Seq<char>, Store> {
        Map::new(
            |k: Seq<char>| entry_index(self.entries@, k) is Some,
            |k: Seq<char>| self.entries@[entry_index(self.entries@, k)->Some_0].1,
        )
    }

    /// Each identifier stands in at most one entry.
    pub open spec fn wf(&self) -> bool {
        forall|i: int, j: int|
            0 <= i < j < self.entries@.len() ==> self.entries@[i].0@ != self.entries@[j].0@
    }

    pub fn new() -> (r: Stores)
        ensures
            r.wf(),
            r.view_map() == Map::<Seq<char>, Store>::empty(),
    {
        let r = Stores { entries: Vec::new() };
        assert(r.view_map() =~= Map::<Seq<char>, Store>::empty());
        r
    }

    /// Sets the policy of store `id`, replacing an earlier one.
    pub fn insert(&mut self, id: String, store: Store)
        requires
            old(self).wf(),
        ensures
            final(self).wf(),
            final(self).view_map() == old(self).view_map().insert(id@, store),
    {
        let ghost pre = self.entries@;
        proof { lemma_entry_index(pre, id@); }
        let found = find_entry(&self.entries, &id);
        match found {
            Some(i) => {
                self.entries.set(i, (id, store));
                proof {
                    let post = self.entries@;
                    assert forall|j: int| 0 <= j < post.len() implies post[j].0@ == pre[j].0@ by {}
                    assert(self.wf());
                    assert forall|k: Seq<char>| #[trigger] entry_index(post, k) == entry_index(pre, k) by {
                        lemma_entry_index(pre, k);
                        lemma_entry_index(post, k);
                        match entry_index(pre, k) {
                            Some(j) => { assert(post[j].0@ == k); }
                            None => {
                                if entry_index(post, k) is Some {
                                    let j = entry_index(post, k)->Some_0;
                                    assert(pre[j].0@ == k);
                                }
                            }
                        }
                    }
                    assert forall|k: Seq<char>| entry_index(post, k) is Some implies
                        #[trigger] post[entry_index(post, k)->Some_0].1 == (if k == id@ { store } else { pre[entry_index(pre, k)->Some_0].1 }) by {
                        lemma_entry_index(pre, k);
                    }
                    assert(self.view_map() =~= old(self).view_map().insert(id@, store));
                }
            }
            None => {
                self.entries.push((id, store));
                proof {
                    let post = self.entries@;
                    assert forall|j: int| 0 <= j < pre.len() implies post[j] == pre[j] by {}
                    assert(self.wf());
                    assert forall|k: Seq<char>| #[trigger] entry_index(post, k) == (if k == id@ { Some(pre.len() as int) } else { entry_index(pre, k) }) by {
                        assert(post.drop_last() =~= pre);
                    }
                    assert forall|k: Seq<char>| entry_index(pre, k) is Some implies
                        #[trigger] post[entry_index(pre, k)->Some_0] == pre[entry_index(pre, k)->Some_0] by {
                        lemma_entry_index(pre, k);
                    }
                    assert(self.view_map() =~= old(self).view_map().insert(id@, store));
                }
            }
        }
    }
}

/// Under unique keys the entry of `id` is the one whose key is `id`.
proof fn lemma_entry_index(entries: Seq<(String, Store)>, id: Seq<char>)
    ensures
        match entry_index(entries, id) {
            Some(i) => 0 <= i < entries.len() && entries[i].0@ == id,
            None => forall|i: int| 0 <= i < entries.len() ==> entries[i].0@ != id,
        },
        (forall|i: int, j: int| 0 <= i < j < entries.len() ==> entries[i].0@ != entries[j].0@)
            ==> forall|i: int| 0 <= i < entries.len() && entries[i].0@ == id ==> entry_index(entries, id) == Some(i),
    decreases entries.len(),
{
    if entries.len() > 0 {
        lemma_entry_index(entries.drop_last(), id);
        assert forall|i: int| 0 <= i < entries.len() - 1 implies entries.drop_last()[i] == entries[i] by {}
    }
}

fn find_entry(entries: &Vec<(String, Store)>, id: &String) -> (r: Option<usize>)
    ensures
        match r {
            Some(i) => i < entries@.len() && entries@[i as int].0@ == id@,
            None => forall|i: int| 0 <= i < entries@.len() ==> entries@[i].0@ != id@,
        },
{
    let mut i: usize = 0;
    while i < entries.len()
        invariant
            i <= entries@.len(),
            forall|j: int| 0 <= j < i ==> entries@[j].0@ != id@,
        decreases entries@.len() - i,
    {
        if entries[i].0 == *id {
            return Some(i);
        }
        i = i + 1;
    }
    None
}

impl Store {
    /// The policy of store `id`, or `UnknownStore` when none is configured.
    pub fn get<'a>(stores: &'a Stores, id: &String) -> (r: Result<&'a Store, Error>)
        requires
            stores.wf(),
        ensures
            match r {
                Ok(s) => stores.view_map().contains_key(id@) && *s == stores.view_map()[id@],
                Err(e) => !stores.view_map().contains_key(id@) && e == Error::UnknownStore,
            },
    {
        proof { lemma_entry_index(stores.entries@, id@); }
        match find_entry(&stores.entries, id) {
            Some(i) => Ok(&stores.entries[i].1),
            None => Err(Error::UnknownStore),
        }
    }
}

/// The state shared by every request: read-only once the service runs.
pub struct ServiceState {
    pub stores: Stores,
    pub backend: Backend,
}

/// The store configuration of the running service.
pub fn get_stores(state: &ServiceState) -> (r: &Stores)
    ensures
        r == &state.stores,
{
    &state.stores
}

} // verus!
