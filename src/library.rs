//! The game library index: normalized (uppercase) keys to ROM paths, and the
//! selection of a game from it.
use vstd::prelude::*;

verus! {

use crate::text::{drop_first_char, same_text};
use vstd::arithmetic::div_mod::{lemma_mod_add_multiples_vanish, lemma_small_mod};

/// What `str::to_uppercase` makes of a text.
pub uninterp spec fn upper_of(s: Seq<char>) -> Seq<char>;

/// Relies on `str::to_uppercase`: the result depends on the characters alone.
#[verifier::external_body]
fn uppercase(s: &str) -> (r: String)
    ensures
        r@ == upper_of(s@),
{
    s.to_uppercase()
}

/// The root under which selections read from a card are looked up.
pub open spec fn library_root() -> Seq<char> {
    "ROMS/"@
}

/// One game: its normalized key and its path.
pub struct Entry {
    pub key: String,
    pub path: String,
}

/// The index: entries with distinct keys, each key the uppercase form of its path.
pub struct LibraryIndex {
    entries: Vec<Entry>,
}

/// Position of `k` among the keys of `v`, searching from `i`.
pub open spec fn position_from(v: Seq<(Seq<char>, Seq<char>)>, k: Seq<char>, i: int) -> Option<int>
    decreases v.len() - i,
{
    if i < 0 || i >= v.len() {
        None
    } else if v[i].0 == k {
        Some(i)
    } else {
        position_from(v, k, i + 1)
    }
}

pub open spec fn position(v: Seq<(Seq<char>, Seq<char>)>, k: Seq<char>) -> Option<int> {
    position_from(v, k, 0)
}

/// The path stored under `k`.
pub open spec fn lookup(v: Seq<(Seq<char>, Seq<char>)>, k: Seq<char>) -> Option<Seq<char>> {
    match position(v, k) {
        Some(i) => Some(v[i].1),
        None => None,
    }
}

pub open spec fn has_key(v: Seq<(Seq<char>, Seq<char>)>, k: Seq<char>) -> bool {
    exists|i: int| 0 <= i < v.len() && v[i].0 == k
}

/// The index after storing `path` under `key`: an existing entry with that key
/// is overwritten in place, otherwise the entry is added at the end.
pub open spec fn insert_entry(v: Seq<(Seq<char>, Seq<char>)>, key: Seq<char>, path: Seq<char>) -> Seq<
    (Seq<char>, Seq<char>),
> {
    match position(v, key) {
        Some(i) => v.update(i, (key, path)),
        None => v.push((key, path)),
    }
}

/// The index built from `paths` in order, each stored under its uppercase form.
pub open spec fn build_entries(paths: Seq<Seq<char>>) -> Seq<(Seq<char>, Seq<char>)>
    decreases paths.len(),
{
    if paths.len() == 0 {
        Seq::empty()
    } else {
        let last = paths.last();
        insert_entry(build_entries(paths.drop_last()), upper_of(last), last)
    }
}

/// The shape check on a key: the three characters at positions 5 to 7 (the
/// platform segment) are also the key's last three characters.
pub open spec fn valid_key(k: Seq<char>) -> bool {
    k.len() >= 8 && k.subrange(k.len() - 3, k.len() as int) == k.subrange(5, 8)
}

/// The first valid key met when walking the keys cyclically from `start`,
/// having already passed `k` of them.
pub open spec fn pick_from(keys: Seq<Seq<char>>, start: int, k: int) -> Option<Seq<char>>
    decreases keys.len() - k,
{
    if k < 0 || k >= keys.len() {
        None
    } else if valid_key(keys[(start + k) % (keys.len() as int)]) {
        Some(keys[(start + k) % (keys.len() as int)])
    } else {
        pick_from(keys, start, k + 1)
    }
}

/// The key that a draw selects: the walk starts at `draw` modulo the number of keys.
pub open spec fn pick(keys: Seq<Seq<char>>, draw: int) -> Option<Seq<char>> {
    if keys.len() == 0 {
        None
    } else {
        pick_from(keys, draw % (keys.len() as int), 0)
    }
}

/// The lookup key for text read from a card: its first character dropped,
/// the rest placed under the library root, all uppercase.
pub open spec fn normalized_selection(text: Seq<char>) -> Seq<char> {
    upper_of(library_root() + drop_first_char(text))
}

/// What `resolve` answers: the normalized selection when the index holds it.
pub open spec fn resolved(v: Seq<(Seq<char>, Seq<char>)>, text: Seq<char>) -> Option<Seq<char>> {
    if has_key(v, normalized_selection(text)) {
        Some(normalized_selection(text))
    } else {
        None
    }
}

impl View for LibraryIndex {
    type V = Seq<(Seq<char>, Seq<char>)>;

    closed spec fn view(&self) -> Seq<(Seq<char>, Seq<char>)> {
        self.entries@.map_values(|e: Entry| (e.key@, e.path@))
    }
}

pub open spec fn keys_of(v: Seq<(Seq<char>, Seq<char>)>) -> Seq<Seq<char>> {
    v.map_values(|e: (Seq<char>, Seq<char>)| e.0)
}

/// Keys are distinct and each is the uppercase form of its own path.
pub open spec fn entries_wf(v: Seq<(Seq<char>, Seq<char>)>) -> bool {
    &&& forall|i: int, j: int| 0 <= i < j < v.len() ==> v[i].0 != v[j].0
    &&& forall|i: int| 0 <= i < v.len() ==> #[trigger] v[i].0 == upper_of(v[i].1)
}

pub proof fn lemma_position_from(v: Seq<(Seq<char>, Seq<char>)>, k: Seq<char>, i: int)
    requires
        0 <= i,
    ensures
        position_from(v, k, i) matches Some(p) ==> i <= p < v.len() && v[p].0 == k,
        position_from(v, k, i) is None ==> forall|j: int| i <= j < v.len() ==> v[j].0 != k,
    decreases v.len() - i,
{
    if i < v.len() && v[i].0 != k {
        lemma_position_from(v, k, i + 1);
    }
}

proof fn lemma_insert_entry(v: Seq<(Seq<char>, Seq<char>)>, path: Seq<char>)
    requires
        entries_wf(v),
    ensures
        entries_wf(insert_entry(v, upper_of(path), path)),
{
    lemma_position_from(v, upper_of(path), 0);
    let w = insert_entry(v, upper_of(path), path);
    assert forall|i: int| 0 <= i < w.len() implies #[trigger] w[i].0 == upper_of(w[i].1) by {
        if i < v.len() && w[i] == v[i] {
            assert(v[i].0 == upper_of(v[i].1));
        }
    }
}

impl LibraryIndex {
    pub closed spec fn wf(&self) -> bool {
        entries_wf(self@)
    }

    /// An empty index.
    pub fn new() -> (r: LibraryIndex)
        ensures
            r.wf(),
            r@ == Seq::<(Seq<char>, Seq<char>)>::empty(),
    {
        let r = LibraryIndex { entries: Vec::new() };
        assert(r@ =~= Seq::<(Seq<char>, Seq<char>)>::empty());
        r
    }

    /// The number of games.
    pub fn len(&self) -> (r: usize)
        ensures
            r == self@.len(),
    {
        self.entries.len()
    }

    /// Position of the entry whose key is `key`.
    fn find_key(&self, key: &str) -> (r: Option<usize>)
        ensures
            r matches Some(i) ==> position(self@, key@) == Some(i as int) && i < self@.len(),
            r is None ==> position(self@, key@) is None,
    {
        let mut i: usize = 0;
        while i < self.entries.len()
            invariant
                i <= self.entries.len(),
                position(self@, key@) == position_from(self@, key@, i as int),
            decreases self.entries.len() - i,
        {
            if same_text(self.entries[i].key.as_str(), key) {
                return Some(i);
            }
            i += 1;
        }
        None
    }

    /// Adds a game by its path, stored under the path's uppercase form. A game
    /// already stored under that key is replaced.
    pub fn insert_path(&mut self, path: String)
        requires
            old(self).wf(),
        ensures
            final(self).wf(),
            final(self)@ == insert_entry(old(self)@, upper_of(path@), path@),
    {
        let key = uppercase(path.as_str());
        proof {
            lemma_insert_entry(self@, path@);
            lemma_position_from(self@, key@, 0);
        }
        match self.find_key(key.as_str()) {
            Some(i) => {
                self.entries.set(i, Entry { key, path });
                assert(self@ =~= insert_entry(old(self)@, upper_of(path@), path@));
            },
            None => {
                self.entries.push(Entry { key, path });
                assert(self@ =~= insert_entry(old(self)@, upper_of(path@), path@));
            },
        }
    }

    /// Builds an index from the paths listed in the library directories, in order.
    pub fn build(paths: &Vec<String>) -> (r: LibraryIndex)
        ensures
            r.wf(),
            r@ == build_entries(paths@.map_values(|p: String| p@)),
    {
        let ghost all = paths@.map_values(|p: String| p@);
        let mut index = LibraryIndex::new();
        let mut i: usize = 0;
        while i < paths.len()
            invariant
                all == paths@.map_values(|p: String| p@),
                i <= paths.len(),
                index.wf(),
                index@ == build_entries(all.subrange(0, i as int)),
            decreases paths.len() - i,
        {
            assert(all.subrange(0, i + 1).drop_last() =~= all.subrange(0, i as int));
            index.insert_path(paths[i].clone());
            i += 1;
        }
        assert(all.subrange(0, i as int) =~= all);
        index
    }

    /// The path stored under `key`.
    pub fn get(&self, key: &str) -> (r: Option<String>)
        ensures
            r matches Some(p) ==> lookup(self@, key@) == Some(p@),
            r is None ==> lookup(self@, key@) is None,
    {
        proof {
            lemma_position_from(self@, key@, 0);
        }
        match self.find_key(key) {
            Some(i) => Some(self.entries[i].path.clone()),
            None => None,
        }
    }

    /// Whether some key is stored under `key`.
    pub fn contains_key(&self, key: &str) -> (r: bool)
        ensures
            r == has_key(self@, key@),
    {
        proof {
            lemma_position_from(self@, key@, 0);
        }
        self.find_key(key).is_some()
    }
}

/// Whether a key has the expected shape.
pub fn is_valid_key(k: &str) -> (r: bool)
    ensures
        r == valid_key(k@),
{
    let n = k.unicode_len();
    if n < 8 {
        return false;
    }
    let tail = k.substring_char(n - 3, n);
    let segment = k.substring_char(5, 8);
    same_text(tail, segment)
}

/// One step of a cyclic walk over `n` positions.
proof fn lemma_cyclic_step(start: int, k: int, n: int)
    requires
        0 <= start < n,
        0 <= k < n,
    ensures
        (start + k) % n == if start + k < n { start + k } else { start + k - n },
{
    if start + k < n {
        lemma_small_mod((start + k) as nat, n as nat);
    } else {
        lemma_mod_add_multiples_vanish(start + k - n, n);
        lemma_small_mod((start + k - n) as nat, n as nat);
    }
}

/// Picks a game to start with. `draw` is any number, typically taken from the
/// clock: the walk over the keys starts at `draw` modulo their number and goes
/// round them once, returning the first key that passes the shape check.
/// Nothing is returned when no key passes it, an empty index included.
pub fn pick_random(games: &LibraryIndex, draw: u64) -> (r: Option<String>)
    ensures
        r matches Some(k) ==> pick(keys_of(games@), draw as int) == Some(k@),
        r is None ==> pick(keys_of(games@), draw as int) is None,
{
    let ghost keys = keys_of(games@);
    let n = games.entries.len();
    if n == 0 {
        return None;
    }
    let start = (draw % (n as u64)) as usize;
    assert(start as int == draw as int % (keys.len() as int));
    let mut k: usize = 0;
    while k < n
        invariant
            keys == keys_of(games@),
            n == keys.len(),
            n > 0,
            start < n,
            start as int == draw as int % (keys.len() as int),
            k <= n,
            pick_from(keys, start as int, 0) == pick_from(keys, start as int, k as int),
        decreases n - k,
    {
        let i = if k < n - start { start + k } else { k - (n - start) };
        proof {
            lemma_cyclic_step(start as int, k as int, n as int);
        }
        let key = &games.entries[i].key;
        assert(keys[i as int] == key@);
        if is_valid_key(key.as_str()) {
            return Some(key.clone());
        }
        k += 1;
    }
    None
}

/// The lookup key for text read from a card: its first character dropped, the
/// rest placed under the library root, all uppercase.
pub fn selection_key(text: &str) -> (r: String)
    ensures
        r@ == normalized_selection(text@),
{
    let n = text.unicode_len();
    let rest = if n == 0 { text } else { text.substring_char(1, n) };
    let mut selection = String::from_str("ROMS/");
    selection.append(rest);
    uppercase(selection.as_str())
}

/// Looks up text read from a card: its first character is dropped, the rest is
/// placed under the library root and uppercased. The key is returned when the
/// index holds it; text that names no game gives nothing.
pub fn resolve(games: &LibraryIndex, text: &str) -> (r: Option<String>)
    ensures
        r matches Some(k) ==> resolved(games@, text@) == Some(k@),
        r is None ==> resolved(games@, text@) is None,
{
    let key = selection_key(text);
    if games.contains_key(key.as_str()) {
        Some(key)
    } else {
        None
    }
}

proof fn lemma_pick_from_some(keys: Seq<Seq<char>>, start: int, k: int, j: int)
    requires
        0 <= k <= j < keys.len(),
        valid_key(keys[(start + j) % (keys.len() as int)]),
    ensures
        pick_from(keys, start, k) matches Some(r) && valid_key(r) && exists|i: int|
            0 <= i < keys.len() && keys[i] == r,
    decreases j - k,
{
    let n = keys.len() as int;
    let i = (start + k) % n;
    assert(0 <= i < n);
    if !valid_key(keys[i]) {
        lemma_pick_from_some(keys, start, k + 1, j);
    }
}

/// Whenever some key of the index passes the shape check, whatever the draw,
/// the pick is a key of the index that passes the shape check.
pub proof fn lemma_pick_is_valid_key(v: Seq<(Seq<char>, Seq<char>)>, draw: u64)
    requires
        exists|i: int| 0 <= i < v.len() && valid_key(#[trigger] v[i].0),
    ensures
        pick(keys_of(v), draw as int) matches Some(k) && has_key(v, k) && valid_key(k),
{
    let keys = keys_of(v);
    let n = keys.len() as int;
    let w = choose|i: int| 0 <= i < v.len() && valid_key(#[trigger] v[i].0);
    let start = draw as int % n;
    assert(0 <= start < n);
    let j = if w >= start { w - start } else { w - start + n };
    lemma_cyclic_step(start, j, n);
    assert(keys[(start + j) % n] == v[w].0);
    lemma_pick_from_some(keys, start, 0, j);
    let r = pick(keys, draw as int)->0;
    let i = choose|i: int| 0 <= i < keys.len() && keys[i] == r;
    assert(v[i].0 == r);
}

/// For every key of the index, text whose normalized selection is that key
/// resolves to it; text whose normalized selection the index lacks resolves to
/// nothing.
pub proof fn lemma_resolve_normalized(v: Seq<(Seq<char>, Seq<char>)>, text: Seq<char>, k: Seq<char>)
    ensures
        has_key(v, k) && normalized_selection(text) == k ==> resolved(v, text) == Some(k),
        !has_key(v, normalized_selection(text)) ==> resolved(v, text) is None,
{
}

} // verus!
