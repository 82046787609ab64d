//! The storage gateway: the entry record, the storage error taxonomy, the
//! two storage capabilities (save, get) as independent traits, and an
//! in-memory store that models the remote key-value table.

use vstd::prelude::*;

verus! {

/// The persisted record: a single string id, the primary key.
pub struct Entry {
    pub id: String,
}

impl Entry {
    /// Constructs the entry keyed by `id`.
    pub fn new(id: String) -> (e: Entry)
        ensures
            e.id == id,
    {
        Entry { id }
    }
}

/// A storage failure: either the store reported no item for the key, or the
/// remote call itself failed (or its answer could not be decoded), with the
/// cause's description preserved.
pub enum StorageError {
    NotFound,
    Backend(String),
}

impl StorageError {
    /// The failure's textual description.
    pub open spec fn message_spec(self) -> Seq<char> {
        match self {
            StorageError::NotFound => "Fail"@,
            StorageError::Backend(m) => m@,
        }
    }

    /// Returns the failure's textual description.
    pub fn message(&self) -> (r: String)
        ensures
            r@ == self.message_spec(),
    {
        match self {
            StorageError::NotFound => String::from_str("Fail"),
            StorageError::Backend(m) => m.clone(),
        }
    }
}

/// The stored key set after a save of `id`: overwrite semantics, so a save
/// only ever adds the key.
pub open spec fn save_model(stored: Set<Seq<char>>, id: Seq<char>) -> Set<Seq<char>> {
    stored.insert(id)
}

/// What a get of `id` finds in a stored key set: the id itself when the
/// store holds it, nothing otherwise.
pub open spec fn get_model(stored: Set<Seq<char>>, id: Seq<char>) -> Option<Seq<char>> {
    if stored.contains(id) {
        Some(id)
    } else {
        None
    }
}

/// Law: a get of `id` after a successful save of `id`, with no intervening
/// writes, finds `id`.
pub proof fn lemma_save_then_get(stored: Set<Seq<char>>, id: Seq<char>)
    ensures
        get_model(save_model(stored, id), id) == Some(id),
{
}

/// Law: saving the same id twice leaves the same stored keys as saving it
/// once — overwrite semantics, no uniqueness conflict.
pub proof fn lemma_save_idempotent(stored: Set<Seq<char>>, id: Seq<char>)
    ensures
        save_model(save_model(stored, id), id) == save_model(stored, id),
{
    assert(save_model(save_model(stored, id), id) =~= save_model(stored, id));
}

/// The saver capability: one write of the entry keyed by an id.
pub trait ItemSaver {
    /// The set of ids the backing store holds, as this gateway models it; a
    /// gateway that does not model its store may leave this unknown.
    open spec fn saved(&self) -> Set<Seq<char>> {
        Set::empty()
    }

    /// Writes the entry keyed by `id`, unconditionally overwriting any entry
    /// with that key; fails if the remote call fails.
    fn save_item(&mut self, id: String) -> (res: Result<(), StorageError>)
        ensures
            res is Ok ==> final(self).saved() == save_model(old(self).saved(), id@),
    ;
}

/// The getter capability: one read of the entry keyed by an id.
pub trait ItemGetter {
    /// The set of ids the backing store holds, as this gateway models it; a
    /// gateway that does not model its store may leave this unknown.
    open spec fn stored(&self) -> Set<Seq<char>> {
        Set::empty()
    }

    /// Reads the entry keyed by `id`; an entry that comes back carries the
    /// requested id, and comes back only if the store holds that key.
    fn get_item(&self, id: String) -> (res: Result<Entry, StorageError>)
        ensures
            res matches Ok(e) ==> e.id@ == id@ && get_model(self.stored(), id@) == Some(id@),
    ;
}

/// An in-memory stand-in for the remote table: the ids saved so far, in
/// order of arrival.
pub struct MemoryStore {
    ids: Vec<String>,
}

impl MemoryStore {
    /// The set of ids this store holds.
    pub closed spec fn key_set(&self) -> Set<Seq<char>> {
        Set::new(|id: Seq<char>| exists|j: int| 0 <= j < self.ids@.len() && self.ids@[j]@ == id)
    }

    /// Constructs an empty store.
    pub fn new() -> (s: MemoryStore)
        ensures
            s.key_set() == Set::<Seq<char>>::empty(),
    {
        let s = MemoryStore { ids: Vec::new() };
        proof {
            assert(s.key_set() =~= Set::<Seq<char>>::empty());
        }
        s
    }
}

impl ItemSaver for MemoryStore {
    closed spec fn saved(&self) -> Set<Seq<char>> {
        self.key_set()
    }

    /// A save into memory always succeeds.
    fn save_item(&mut self, id: String) -> (res: Result<(), StorageError>)
        ensures
            res is Ok,
            final(self).saved() == save_model(old(self).saved(), id@),
    {
        let ghost pre = self.ids@;
        self.ids.push(id);
        proof {
            let post = self.ids@;
            assert forall|x: Seq<char>| self.key_set().contains(x) implies old(
                self,
            ).key_set().insert(id@).contains(x) by {
                let j = choose|j: int| 0 <= j < post.len() && post[j]@ == x;
                if j < pre.len() {
                    assert(pre[j]@ == x);
                } else {
                    assert(post[j] == id);
                }
            }
            assert forall|x: Seq<char>| old(self).key_set().insert(id@).contains(x) implies self.key_set().contains(
                x,
            ) by {
                if x == id@ {
                    assert(post[post.len() - 1]@ == x);
                } else {
                    let j = choose|j: int| 0 <= j < pre.len() && pre[j]@ == x;
                    assert(post[j]@ == x);
                }
            }
            assert(self.key_set() =~= old(self).key_set().insert(id@));
        }
        Ok(())
    }
}

impl ItemGetter for MemoryStore {
    closed spec fn stored(&self) -> Set<Seq<char>> {
        self.key_set()
    }

    /// A get from memory succeeds exactly when the id was saved; absence is
    /// reported as `NotFound`.
    fn get_item(&self, id: String) -> (res: Result<Entry, StorageError>)
        ensures
            res matches Ok(e) ==> e.id@ == id@ && get_model(self.stored(), id@) == Some(id@),
            res is Ok <==> self.stored().contains(id@),
            res is Err ==> res matches Err(StorageError::NotFound),
    {
        let n: usize = self.ids.len();
        let mut i: usize = 0;
        while i < n
            invariant
                i <= n,
                n == self.ids@.len(),
                forall|j: int| 0 <= j < i ==> self.ids@[j]@ != id@,
            decreases n - i,
        {
            if self.ids[i] == id {
                proof {
                    assert(self.ids@[i as int]@ == id@);
                    assert(self.key_set().contains(id@));
                }
                return Ok(Entry::new(id));
            }
            i += 1;
        }
        proof {
            assert(!self.key_set().contains(id@));
        }
        Err(StorageError::NotFound)
    }
}

} // verus!
