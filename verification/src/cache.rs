//! Caches for avatars, and composited gifs: image bytes stored under keys
//! made of strings, each key at most once.
use vstd::prelude::*;
use vstd::string::*;

use crate::structs::User;
use crate::text::str_eq;

verus! {

/// Image bytes, carried through the caches unchanged.
#[verifier::external_type_specification]
#[verifier::external_body]
pub struct ExBytes(bytes::Bytes);

/// The key of an entry, as the sequence of its strings.
pub open spec fn key_view(k: &Vec<String>) -> Seq<Seq<char>> {
    k@.map_values(|s: String| s@)
}

struct Entry {
    key: Vec<String>,
    value: bytes::Bytes,
}

/// Bytes stored under keys; no key occurs twice.
pub struct KeyedStore {
    entries: Vec<Entry>,
}

/// Whether two keys hold the same strings.
fn same_key(a: &Vec<String>, b: &Vec<String>) -> (r: bool)
    ensures
        r == (key_view(a) == key_view(b)),
{
    if a.len() != b.len() {
        proof {
            assert(key_view(a).len() != key_view(b).len());
        }
        return false;
    }
    let mut i: usize = 0;
    while i < a.len()
        invariant
            a.len() == b.len(),
            i <= a.len(),
            forall|j: int| 0 <= j < i ==> a@[j]@ == b@[j]@,
        decreases a.len() - i,
    {
        if !str_eq(a[i].as_str(), b[i].as_str()) {
            proof {
                assert(key_view(a)[i as int] != key_view(b)[i as int]);
            }
            return false;
        }
        i = i + 1;
    }
    proof {
        assert(key_view(a) =~= key_view(b));
    }
    true
}

impl KeyedStore {
    #[verifier::type_invariant]
    spec fn keys_distinct(&self) -> bool {
        forall|i: int, j: int|
            0 <= i < self.entries.len() && 0 <= j < self.entries.len() && i != j ==> key_view(
                &self.entries@[i].key,
            ) != key_view(&self.entries@[j].key)
    }

    /// Position of the entry with key `k`, if any.
    spec fn index_of(&self, k: Seq<Seq<char>>) -> int {
        choose|i: int| 0 <= i < self.entries.len() && key_view(&self.entries@[i].key) == k
    }

    /// The stored bytes, by key.
    pub closed spec fn view(&self) -> Map<Seq<Seq<char>>, bytes::Bytes> {
        Map::new(
            |k: Seq<Seq<char>>|
                exists|i: int| 0 <= i < self.entries.len() && key_view(&self.entries@[i].key) == k,
            |k: Seq<Seq<char>>| self.entries@[self.index_of(k)].value,
        )
    }

    pub fn new() -> (r: Self)
        ensures
            r.view() == Map::<Seq<Seq<char>>, bytes::Bytes>::empty(),
    {
        let r = Self { entries: Vec::new() };
        assert(r.view() =~= Map::<Seq<Seq<char>>, bytes::Bytes>::empty());
        r
    }

    fn find(&self, key: &Vec<String>) -> (r: Option<usize>)
        ensures
            r matches Some(i) ==> i < self.entries.len() && key_view(&self.entries@[i as int].key)
                == key_view(key),
            r is None ==> forall|i: int|
                0 <= i < self.entries.len() ==> key_view(&self.entries@[i].key) != key_view(key),
    {
        let mut i: usize = 0;
        while i < self.entries.len()
            invariant
                i <= self.entries.len(),
                forall|j: int| 0 <= j < i ==> key_view(&self.entries@[j].key) != key_view(key),
            decreases self.entries.len() - i,
        {
            if same_key(&self.entries[i].key, key) {
                return Some(i);
            }
            i = i + 1;
        }
        None
    }

    /// The bytes stored under `key`, if any.
    pub fn get(&self, key: &Vec<String>) -> (r: Option<&bytes::Bytes>)
        ensures
            r is Some <==> self.view().contains_key(key_view(key)),
            r matches Some(b) ==> *b == self.view()[key_view(key)],
    {
        proof {
            use_type_invariant(self);
        }
        match self.find(key) {
            Some(i) => {
                proof {
                    let k = key_view(key);
                    assert(self.view().contains_key(k));
                    let j = self.index_of(k);
                    assert(j == i as int);
                }
                Some(&self.entries[i].value)
            },
            None => None,
        }
    }

    /// Stores `value` under `key`, unless something is stored there already.
    pub fn insert_if_absent(&mut self, key: Vec<String>, value: bytes::Bytes)
        ensures
            final(self).view() == if old(self).view().contains_key(key_view(&key)) {
                old(self).view()
            } else {
                old(self).view().insert(key_view(&key), value)
            },
    {
        proof {
            use_type_invariant(&*self);
        }
        let ghost k = key_view(&key);
        let ghost before = self.view();
        match self.find(&key) {
            Some(_) => {},
            None => {
                let ghost old_entries = self.entries@;
                let mut entries: Vec<Entry> = Vec::new();
                std::mem::swap(&mut entries, &mut self.entries);
                entries.push(Entry { key, value });
                self.entries = entries;
                proof {
                    let after = self.view();
                    assert forall|q: Seq<Seq<char>>| #[trigger]
                        after.contains_key(q) == before.insert(k, value).contains_key(q) by {
                        if q != k && after.contains_key(q) {
                            let i = choose|i: int|
                                0 <= i < self.entries.len() && key_view(&self.entries@[i].key) == q;
                            assert(i < old_entries.len());
                            assert(old_entries[i] == self.entries@[i]);
                        }
                        if q != k && before.contains_key(q) {
                            let i = choose|i: int|
                                0 <= i < old_entries.len() && key_view(&old_entries[i].key) == q;
                            assert(self.entries@[i] == old_entries[i]);
                        }
                        if q == k {
                            assert(key_view(&self.entries@[old_entries.len() as int].key) == k);
                        }
                    }
                    assert forall|q: Seq<Seq<char>>| #[trigger] after.contains_key(q) implies after[q]
                        == before.insert(k, value)[q] by {
                        let i = self.index_of(q);
                        if q == k {
                            assert(key_view(&self.entries@[old_entries.len() as int].key) == k);
                            assert(i == old_entries.len() as int);
                        } else {
                            assert(i < old_entries.len());
                            let j = choose|j: int|
                                0 <= j < old_entries.len() && key_view(&old_entries[j].key) == q;
                            assert(self.entries@[j] == old_entries[j]);
                            assert(i == j);
                        }
                    }
                    assert(after =~= before.insert(k, value));
                }
            },
        }
    }
}

impl KeyedStore {
    /// Stores `value` under `key`, replacing what was stored there.
    pub fn insert(&mut self, key: Vec<String>, value: bytes::Bytes)
        ensures
            final(self).view() == old(self).view().insert(key_view(&key), value),
    {
        proof {
            use_type_invariant(&*self);
        }
        let ghost k = key_view(&key);
        let ghost before = self.view();
        match self.find(&key) {
            Some(i) => {
                let ghost old_entries = self.entries@;
                let mut entries: Vec<Entry> = Vec::new();
                std::mem::swap(&mut entries, &mut self.entries);
                entries.set(i, Entry { key, value });
                self.entries = entries;
                proof {
                    let after = self.view();
                    assert forall|q: Seq<Seq<char>>| #[trigger]
                        after.contains_key(q) == before.insert(k, value).contains_key(q) by {
                        if after.contains_key(q) {
                            let j = choose|j: int|
                                0 <= j < self.entries.len() && key_view(&self.entries@[j].key) == q;
                            if j != i {
                                assert(old_entries[j] == self.entries@[j]);
                            }
                        }
                        if before.contains_key(q) {
                            let j = choose|j: int|
                                0 <= j < old_entries.len() && key_view(&old_entries[j].key) == q;
                            if j != i {
                                assert(self.entries@[j] == old_entries[j]);
                            }
                        }
                        if q == k {
                            assert(key_view(&self.entries@[i as int].key) == k);
                        }
                    }
                    assert forall|q: Seq<Seq<char>>| #[trigger] after.contains_key(q) implies after[q]
                        == before.insert(k, value)[q] by {
                        let j = self.index_of(q);
                        if q == k {
                            assert(key_view(&self.entries@[i as int].key) == k);
                            assert(j == i as int);
                        } else {
                            assert(j != i);
                            assert(self.entries@[j] == old_entries[j]);
                            assert(before.contains_key(q));
                            let jj = choose|jj: int|
                                0 <= jj < old_entries.len() && key_view(&old_entries[jj].key) == q;
                            assert(jj == j);
                        }
                    }
                    assert(after =~= before.insert(k, value));
                }
            },
            None => {
                self.insert_if_absent(key, value);
            },
        }
    }
}

/// The key under which a composited gif is cached: user id, avatar hash and command keyword.
pub open spec fn gif_key(user: Seq<char>, avatar_id: Seq<char>, command: Seq<char>) -> Seq<Seq<char>> {
    seq![user, avatar_id, command]
}

#[derive(Debug, Clone)]
pub struct GifKey {
    pub user: String,
    pub avatar_id: String,
    pub command: String,
}

impl GifKey {
    pub fn new(user: String, avatar_id: String, command: String) -> (r: Self)
        ensures
            r.user == user,
            r.avatar_id == avatar_id,
            r.command == command,
    {
        Self { user, avatar_id, command }
    }

    pub open spec fn key(&self) -> Seq<Seq<char>> {
        gif_key(self.user@, self.avatar_id@, self.command@)
    }

    fn to_key(&self) -> (r: Vec<String>)
        ensures
            key_view(&r) == self.key(),
    {
        let mut k: Vec<String> = Vec::new();
        k.push(self.user.clone());
        k.push(self.avatar_id.clone());
        k.push(self.command.clone());
        assert(key_view(&k) =~= self.key());
        k
    }
}

/// The avatars and the composited gifs of the bot.
pub struct Caches {
    avatars: AvatarCache,
    gifs: KeyedStore,
}

impl Caches {
    /// The cached avatars, by user id and avatar hash.
    pub closed spec fn avatars_view(&self) -> Map<Seq<Seq<char>>, bytes::Bytes> {
        self.avatars.view()
    }

    /// The cached gifs, by user id, avatar hash and command keyword.
    pub closed spec fn gifs_view(&self) -> Map<Seq<Seq<char>>, bytes::Bytes> {
        self.gifs.view()
    }

    pub fn new() -> (r: Self)
        ensures
            r.avatars_view() == Map::<Seq<Seq<char>>, bytes::Bytes>::empty(),
            r.gifs_view() == Map::<Seq<Seq<char>>, bytes::Bytes>::empty(),
    {
        let avatars = AvatarCache::new();
        let gifs = KeyedStore::new();
        Self { avatars, gifs }
    }

    /// The cached gif for `key`, if any.
    pub fn get_gif(&self, key: &GifKey) -> (r: Option<&bytes::Bytes>)
        ensures
            r is Some <==> self.gifs_view().contains_key(key.key()),
            r matches Some(b) ==> *b == self.gifs_view()[key.key()],
    {
        let k = key.to_key();
        self.gifs.get(&k)
    }

    /// The cached avatar of `user`, if any.
    pub fn get_avatar(&self, user: &User) -> (r: Option<&bytes::Bytes>)
        ensures
            r is Some <==> self.avatars_view().contains_key(avatar_key(user.id@, user.avatar@)),
            r matches Some(b) ==> *b == self.avatars_view()[avatar_key(user.id@, user.avatar@)],
    {
        self.avatars.get(user)
    }

    /// Caches `avatar` as the image of `user`, unless one is cached already.
    pub fn insert_avatar(&mut self, user: &User, avatar: bytes::Bytes)
        ensures
            final(self).avatars_view() == cache_after_insert(
                old(self).avatars_view(),
                avatar_key(user.id@, user.avatar@),
                avatar,
            ),
            final(self).gifs_view() == old(self).gifs_view(),
    {
        self.avatars.insert(user, avatar);
    }

    /// Caches `gif` under `key`, replacing what was cached there.
    pub fn insert_gif(&mut self, key: GifKey, gif: bytes::Bytes)
        ensures
            final(self).gifs_view() == old(self).gifs_view().insert(key.key(), gif),
            final(self).avatars_view() == old(self).avatars_view(),
    {
        let k = key.to_key();
        self.gifs.insert(k, gif);
    }
}

/// The key under which the avatar of a user is cached: id and avatar hash.
pub open spec fn avatar_key(id: Seq<char>, avatar: Seq<char>) -> Seq<Seq<char>> {
    seq![id, avatar]
}

/// Caches avatar images in memory
pub struct AvatarCache {
    storage: KeyedStore,
}

fn user_key(user: &User) -> (r: Vec<String>)
    ensures
        key_view(&r) == avatar_key(user.id@, user.avatar@),
{
    let mut k: Vec<String> = Vec::new();
    k.push(user.id.clone());
    k.push(user.avatar.clone());
    assert(key_view(&k) =~= avatar_key(user.id@, user.avatar@));
    k
}

impl AvatarCache {
    /// The cached avatars, by user id and avatar hash.
    pub closed spec fn view(&self) -> Map<Seq<Seq<char>>, bytes::Bytes> {
        self.storage.view()
    }

    /// Creates new avatar cache
    pub fn new() -> (r: Self)
        ensures
            r.view() == Map::<Seq<Seq<char>>, bytes::Bytes>::empty(),
    {
        Self { storage: KeyedStore::new() }
    }

    /// Returns the cached avatar image of `user`, if any.
    pub fn get(&self, user: &User) -> (r: Option<&bytes::Bytes>)
        ensures
            r is Some <==> self.view().contains_key(avatar_key(user.id@, user.avatar@)),
            r matches Some(b) ==> *b == self.view()[avatar_key(user.id@, user.avatar@)],
    {
        let key = user_key(user);
        self.storage.get(&key)
    }

    /// Stores `avatar` as the image of `user`, unless one is cached already.
    pub fn insert(&mut self, user: &User, avatar: bytes::Bytes)
        ensures
            final(self).view() == cache_after_insert(
                old(self).view(),
                avatar_key(user.id@, user.avatar@),
                avatar,
            ),
    {
        let key = user_key(user);
        self.storage.insert_if_absent(key, avatar);
    }
}

impl Default for AvatarCache {
    fn default() -> (r: Self)
        ensures
            r.view() == Map::<Seq<Seq<char>>, bytes::Bytes>::empty(),
    {
        Self::new()
    }
}

/// A cache after storing `value` under `k`: what was cached stays.
pub open spec fn cache_after_insert(
    m: Map<Seq<Seq<char>>, bytes::Bytes>,
    k: Seq<Seq<char>>,
    value: bytes::Bytes,
) -> Map<Seq<Seq<char>>, bytes::Bytes> {
    if m.contains_key(k) {
        m
    } else {
        m.insert(k, value)
    }
}

/// After storing an image under a key, that key holds an image: the one
/// stored earlier if there was one, else the new one; the other keys keep
/// what they held.
pub proof fn lemma_cache_read_after_write(
    m: Map<Seq<Seq<char>>, bytes::Bytes>,
    k: Seq<Seq<char>>,
    value: bytes::Bytes,
    other: Seq<Seq<char>>,
)
    requires
        other != k,
    ensures
        cache_after_insert(m, k, value).contains_key(k),
        cache_after_insert(m, k, value)[k] == if m.contains_key(k) {
            m[k]
        } else {
            value
        },
        cache_after_insert(m, k, value).contains_key(other) == m.contains_key(other),
        m.contains_key(other) ==> cache_after_insert(m, k, value)[other] == m[other],
{
}

/// A gif cached under a key is what a lookup of that key gives afterwards,
/// and caching it leaves every other key as it was.
pub proof fn lemma_gif_cache_read_after_write(
    m: Map<Seq<Seq<char>>, bytes::Bytes>,
    k: Seq<Seq<char>>,
    gif: bytes::Bytes,
    other: Seq<Seq<char>>,
)
    requires
        other != k,
    ensures
        m.insert(k, gif).contains_key(k),
        m.insert(k, gif)[k] == gif,
        m.insert(k, gif).contains_key(other) == m.contains_key(other),
        m.contains_key(other) ==> m.insert(k, gif)[other] == m[other],
{
}

/// Two users with the same id but different avatar hashes have their
/// avatars (and gifs) cached apart: a new avatar is fetched after a change.
pub proof fn lemma_avatar_change_misses(id: Seq<char>, a1: Seq<char>, a2: Seq<char>, c: Seq<char>)
    requires
        a1 != a2,
    ensures
        avatar_key(id, a1) != avatar_key(id, a2),
        gif_key(id, a1, c) != gif_key(id, a2, c),
{
    assert(avatar_key(id, a1)[1] != avatar_key(id, a2)[1]);
    assert(gif_key(id, a1, c)[1] != gif_key(id, a2, c)[1]);
}

} // verus!
