use vstd::prelude::*;

verus! {

/// A channel the user has joined on a server, and whether sending to it is
/// locked.
#[derive(Clone, Debug, PartialEq)]
pub struct ChannelState {
    pub name: String,
    pub locked: bool,
}

/// A channel as plain values.
pub struct ChannelView {
    pub name: Seq<char>,
    pub locked: bool,
}

impl View for ChannelState {
    type V = ChannelView;

    open spec fn view(&self) -> ChannelView {
        ChannelView { name: self.name@, locked: self.locked }
    }
}

/// `s` holds each key at most once.
pub open spec fn unique_keys<T>(s: Seq<(String, T)>) -> bool {
    forall|i: int, j: int|
        0 <= i < s.len() && 0 <= j < s.len() && i != j ==> #[trigger] s[i].0@ != #[trigger] s[j].0@
}

/// `s` holds key `k` somewhere.
pub open spec fn has_key<T>(s: Seq<(String, T)>, k: Seq<char>) -> bool {
    exists|i: int| 0 <= i < s.len() && #[trigger] s[i].0@ == k
}

/// The map that a sequence of (key, channel) entries stands for.
pub open spec fn entries_map(s: Seq<(String, ChannelState)>) -> Map<Seq<char>, ChannelView> {
    Map::new(
        |k: Seq<char>| has_key(s, k),
        |k: Seq<char>| s[choose|i: int| 0 <= i < s.len() && #[trigger] s[i].0@ == k].1@,
    )
}

/// `list` names each channel of `m` once, with its lock flag, and nothing else.
pub open spec fn lists_channels(list: Seq<(String, bool)>, m: Map<Seq<char>, ChannelView>) -> bool {
    &&& unique_keys(list)
    &&& forall|i: int|
        0 <= i < list.len() ==> m.contains_key(#[trigger] list[i].0@) && m[list[i].0@].locked
            == list[i].1
    &&& forall|k: Seq<char>| #[trigger] m.contains_key(k) ==> has_key(list, k)
}

/// `list` holds each channel of `m` once under its key, and nothing else.
pub open spec fn lists_entries(list: Seq<(String, ChannelState)>, m: Map<Seq<char>, ChannelView>) -> bool {
    &&& unique_keys(list)
    &&& forall|i: int|
        0 <= i < list.len() ==> m.contains_key(#[trigger] list[i].0@) && m[list[i].0@] == list[i].1@
    &&& forall|k: Seq<char>| #[trigger] m.contains_key(k) ==> has_key(list, k)
}

/// `list` names each key of `m` once, and nothing else.
pub open spec fn lists_keys(list: Seq<String>, m: Map<Seq<char>, ChannelView>) -> bool {
    &&& forall|i: int, j: int|
        0 <= i < list.len() && 0 <= j < list.len() && i != j ==> #[trigger] list[i]@
            != #[trigger] list[j]@
    &&& forall|i: int| 0 <= i < list.len() ==> m.contains_key(#[trigger] list[i]@)
    &&& forall|k: Seq<char>|
        #[trigger] m.contains_key(k) ==> exists|i: int| 0 <= i < list.len() && #[trigger] list[i]@ == k
}

/// The channels of a server, keyed by channel name.
pub struct ChannelTable {
    entries: Vec<(String, ChannelState)>,
}

impl View for ChannelTable {
    type V = Map<Seq<char>, ChannelView>;

    closed spec fn view(&self) -> Map<Seq<char>, ChannelView> {
        entries_map(self.entries@)
    }
}

proof fn lemma_entry_in_map(s: Seq<(String, ChannelState)>, i: int)
    requires
        unique_keys(s),
        0 <= i < s.len(),
    ensures
        entries_map(s).contains_key(s[i].0@),
        entries_map(s)[s[i].0@] == s[i].1@,
{
    let k = s[i].0@;
    assert(has_key(s, k));
    let j = choose|j: int| 0 <= j < s.len() && #[trigger] s[j].0@ == k;
    assert(j == i);
}

proof fn lemma_map_value(s: Seq<(String, ChannelState)>, k: Seq<char>)
    requires
        unique_keys(s),
        entries_map(s).contains_key(k),
    ensures
        exists|i: int| 0 <= i < s.len() && s[i].0@ == k && entries_map(s)[k] == #[trigger] s[i].1@,
{
    let i = choose|i: int| 0 <= i < s.len() && #[trigger] s[i].0@ == k;
    lemma_entry_in_map(s, i);
}

impl ChannelTable {
    #[verifier::type_invariant]
    closed spec fn keys_are_unique(&self) -> bool {
        unique_keys(self.entries@)
    }

    pub fn new() -> (t: ChannelTable)
        ensures
            t@ == Map::<Seq<char>, ChannelView>::empty(),
    {
        let t = ChannelTable { entries: Vec::new() };
        assert(t@ =~= Map::<Seq<char>, ChannelView>::empty());
        t
    }

    fn find(&self, key: &str) -> (r: Option<usize>)
        ensures
            match r {
                Some(i) => i < self.entries@.len() && self.entries@[i as int].0@ == key@,
                None => !has_key(self.entries@, key@),
            },
    {
        let k = key.to_owned();
        let n: usize = self.entries.len();
        let mut i: usize = 0;
        while i < n
            invariant
                n == self.entries@.len(),
                k@ == key@,
                i <= n,
                forall|j: int| 0 <= j < i ==> #[trigger] self.entries@[j].0@ != key@,
            decreases n - i,
        {
            if self.entries[i].0 == k {
                return Some(i);
            }
            i = i + 1;
        }
        None
    }

    /// Whether the table holds a channel under `key`.
    pub fn contains_key(&self, key: &str) -> (b: bool)
        ensures
            b == self@.contains_key(key@),
    {
        self.find(key).is_some()
    }

    /// Whether the channel under `key` is locked; `false` when there is none.
    pub fn is_locked(&self, key: &str) -> (b: bool)
        ensures
            b == (self@.contains_key(key@) && self@[key@].locked),
    {
        proof {
            use_type_invariant(self);
        }
        match self.find(key) {
            Some(i) => {
                proof {
                    lemma_entry_in_map(self.entries@, i as int);
                }
                self.entries[i].1.locked
            },
            None => false,
        }
    }

    /// Puts `state` under `key`, replacing what was there.
    pub fn insert(&mut self, key: String, state: ChannelState)
        ensures
            final(self)@ == old(self)@.insert(key@, state@),
    {
        proof {
            use_type_invariant(&*self);
        }
        let ghost old_entries = self.entries@;
        let ghost k = key@;
        let ghost v = state@;
        let found = self.find(key.as_str());
        let mut entries: Vec<(String, ChannelState)> = Vec::new();
        std::mem::swap(&mut entries, &mut self.entries);
        match found {
            Some(i) => {
                entries.set(i, (key, state));
                proof {
                    let ne = entries@;
                    assert(unique_keys(ne)) by {
                        assert forall|a: int, b: int|
                            0 <= a < ne.len() && 0 <= b < ne.len() && a != b implies #[trigger] ne[a].0@
                            != #[trigger] ne[b].0@ by {
                            assert(ne[a].0@ == old_entries[a].0@);
                            assert(ne[b].0@ == old_entries[b].0@);
                        }
                    }
                    assert forall|k2: Seq<char>| #[trigger]
                        entries_map(ne).contains_key(k2) == entries_map(old_entries).insert(k, v).contains_key(k2) by {
                        if has_key(ne, k2) {
                            let j = choose|j: int| 0 <= j < ne.len() && #[trigger] ne[j].0@ == k2;
                            assert(old_entries[j].0@ == ne[j].0@);
                        }
                        if has_key(old_entries, k2) {
                            let j = choose|j: int| 0 <= j < old_entries.len() && #[trigger] old_entries[j].0@ == k2;
                            assert(old_entries[j].0@ == ne[j].0@);
                        }
                        if k2 == k {
                            assert(ne[i as int].0@ == k2);
                        }
                    }
                    assert forall|k2: Seq<char>| #[trigger] entries_map(ne).contains_key(k2) implies
                        entries_map(ne)[k2] == entries_map(old_entries).insert(k, v)[k2] by {
                        lemma_map_value(ne, k2);
                        let j = choose|j: int| 0 <= j < ne.len() && ne[j].0@ == k2 && entries_map(ne)[k2] == #[trigger] ne[j].1@;
                        if j != i {
                            lemma_entry_in_map(old_entries, j);
                        } else {
                            lemma_entry_in_map(ne, i as int);
                        }
                    }
                    assert(entries_map(ne) =~= entries_map(old_entries).insert(k, v));
                }
            },
            None => {
                entries.push((key, state));
                proof {
                    let ne = entries@;
                    let n = old_entries.len() as int;
                    assert(unique_keys(ne)) by {
                        assert forall|a: int, b: int|
                            0 <= a < ne.len() && 0 <= b < ne.len() && a != b implies #[trigger] ne[a].0@
                            != #[trigger] ne[b].0@ by {
                            if a == n {
                                assert(ne[b] == old_entries[b]);
                            } else if b == n {
                                assert(ne[a] == old_entries[a]);
                            } else {
                                assert(ne[a] == old_entries[a]);
                                assert(ne[b] == old_entries[b]);
                            }
                        }
                    }
                    assert forall|k2: Seq<char>|
                        #[trigger] entries_map(ne).contains_key(k2) == entries_map(old_entries).insert(k, v).contains_key(k2) by {
                        if has_key(ne, k2) {
                            let j = choose|j: int| 0 <= j < ne.len() && #[trigger] ne[j].0@ == k2;
                            if j < n {
                                assert(old_entries[j] == ne[j]);
                            }
                        }
                        if has_key(old_entries, k2) {
                            let j = choose|j: int| 0 <= j < old_entries.len() && #[trigger] old_entries[j].0@ == k2;
                            assert(old_entries[j] == ne[j]);
                        }
                        if k2 == k {
                            assert(ne[n].0@ == k2);
                        }
                    }
                    assert forall|k2: Seq<char>| #[trigger] entries_map(ne).contains_key(k2) implies
                        entries_map(ne)[k2] == entries_map(old_entries).insert(k, v)[k2] by {
                        lemma_map_value(ne, k2);
                        let j = choose|j: int| 0 <= j < ne.len() && ne[j].0@ == k2 && entries_map(ne)[k2] == #[trigger] ne[j].1@;
                        if j < n {
                            assert(old_entries[j] == ne[j]);
                            lemma_entry_in_map(old_entries, j);
                        }
                    }
                    assert(entries_map(ne) =~= entries_map(old_entries).insert(k, v));
                }
            },
        }
        self.entries = entries;
    }

    /// Sets the lock flag of the channel under `key`; does nothing when there
    /// is none.
    pub fn set_locked(&mut self, key: &str, locked: bool)
        ensures
            old(self)@.contains_key(key@) ==> final(self)@ == old(self)@.insert(
                key@,
                ChannelView { name: old(self)@[key@].name, locked },
            ),
            !old(self)@.contains_key(key@) ==> final(self)@ == old(self)@,
    {
        proof {
            use_type_invariant(&*self);
        }
        match self.find(key) {
            Some(i) => {
                proof {
                    lemma_entry_in_map(self.entries@, i as int);
                }
                let name = self.entries[i].1.name.clone();
                self.insert(key.to_owned(), ChannelState { name, locked });
            },
            None => {},
        }
    }

    /// Drops the channel under `key`, if any.
    pub fn remove(&mut self, key: &str)
        ensures
            final(self)@ == old(self)@.remove(key@),
    {
        proof {
            use_type_invariant(&*self);
        }
        let ghost old_entries = self.entries@;
        let ghost k = key@;
        match self.find(key) {
            Some(i) => {
                let mut entries: Vec<(String, ChannelState)> = Vec::new();
                std::mem::swap(&mut entries, &mut self.entries);
                entries.remove(i);
                proof {
                    let ne = entries@;
                    let ii = i as int;
                    assert forall|j: int| 0 <= j < ne.len() implies #[trigger] ne[j] == old_entries[
                        if j < ii { j } else { j + 1 }] by {}
                    assert(unique_keys(ne)) by {
                        assert forall|a: int, b: int|
                            0 <= a < ne.len() && 0 <= b < ne.len() && a != b implies #[trigger] ne[a].0@
                            != #[trigger] ne[b].0@ by {
                            assert(ne[a] == old_entries[if a < ii { a } else { a + 1 }]);
                            assert(ne[b] == old_entries[if b < ii { b } else { b + 1 }]);
                        }
                    }
                    assert forall|k2: Seq<char>|
                        #[trigger] entries_map(ne).contains_key(k2) == entries_map(old_entries).remove(k).contains_key(k2) by {
                        if has_key(ne, k2) {
                            let j = choose|j: int| 0 <= j < ne.len() && #[trigger] ne[j].0@ == k2;
                            assert(ne[j] == old_entries[if j < ii { j } else { j + 1 }]);
                        }
                        if has_key(old_entries, k2) && k2 != k {
                            let j = choose|j: int| 0 <= j < old_entries.len() && #[trigger] old_entries[j].0@ == k2;
                            assert(j != ii);
                            let jj = if j < ii { j } else { j - 1 };
                            assert(ne[jj] == old_entries[j]);
                        }
                    }
                    assert forall|k2: Seq<char>| #[trigger] entries_map(ne).contains_key(k2) implies
                        entries_map(ne)[k2] == entries_map(old_entries).remove(k)[k2] by {
                        lemma_map_value(ne, k2);
                        let j = choose|j: int| 0 <= j < ne.len() && ne[j].0@ == k2 && entries_map(ne)[k2] == #[trigger] ne[j].1@;
                        let jo = if j < ii { j } else { j + 1 };
                        assert(ne[j] == old_entries[jo]);
                        lemma_entry_in_map(old_entries, jo);
                    }
                    assert(entries_map(ne) =~= entries_map(old_entries).remove(k));
                }
                self.entries = entries;
            },
            None => {
                assert(entries_map(old_entries) =~= entries_map(old_entries).remove(k));
            },
        }
    }

    /// Each channel's key with its lock flag, each once, in no set order.
    pub fn lock_flags(&self) -> (list: Vec<(String, bool)>)
        ensures
            lists_channels(list@, self@),
    {
        proof {
            use_type_invariant(self);
        }
        let n: usize = self.entries.len();
        let mut list: Vec<(String, bool)> = Vec::new();
        let mut i: usize = 0;
        while i < n
            invariant
                n == self.entries@.len(),
                unique_keys(self.entries@),
                i <= n,
                list@.len() == i,
                forall|j: int| 0 <= j < i ==> #[trigger] list@[j] == (self.entries@[j].0, self.entries@[j].1.locked),
            decreases n - i,
        {
            let key = self.entries[i].0.clone();
            let locked = self.entries[i].1.locked;
            list.push((key, locked));
            i = i + 1;
        }
        proof {
            let s = self.entries@;
            assert forall|a: int, b: int|
                0 <= a < list@.len() && 0 <= b < list@.len() && a != b implies #[trigger] list@[a].0@
                != #[trigger] list@[b].0@ by {
                assert(list@[a].0@ == s[a].0@);
                assert(list@[b].0@ == s[b].0@);
            }
            assert forall|j: int| 0 <= j < list@.len() implies self@.contains_key(#[trigger] list@[j].0@)
                && self@[list@[j].0@].locked == list@[j].1 by {
                lemma_entry_in_map(s, j);
            }
            assert forall|k: Seq<char>| #[trigger] self@.contains_key(k) implies has_key(list@, k) by {
                let j = choose|j: int| 0 <= j < s.len() && #[trigger] s[j].0@ == k;
                assert(list@[j].0@ == k);
            }
        }
        list
    }

    /// The key of each channel, each once, in no set order.
    pub fn keys(&self) -> (list: Vec<String>)
        ensures
            lists_keys(list@, self@),
    {
        proof {
            use_type_invariant(self);
        }
        let n: usize = self.entries.len();
        let mut list: Vec<String> = Vec::new();
        let mut i: usize = 0;
        while i < n
            invariant
                n == self.entries@.len(),
                unique_keys(self.entries@),
                i <= n,
                list@.len() == i,
                forall|j: int| 0 <= j < i ==> #[trigger] list@[j]@ == self.entries@[j].0@,
            decreases n - i,
        {
            list.push(self.entries[i].0.clone());
            i = i + 1;
        }
        proof {
            let s = self.entries@;
            assert forall|a: int, b: int|
                0 <= a < list@.len() && 0 <= b < list@.len() && a != b implies #[trigger] list@[a]@
                != #[trigger] list@[b]@ by {
                assert(list@[a]@ == s[a].0@);
                assert(list@[b]@ == s[b].0@);
            }
            assert forall|j: int| 0 <= j < list@.len() implies self@.contains_key(#[trigger] list@[j]@) by {
                lemma_entry_in_map(s, j);
            }
            assert forall|k: Seq<char>| #[trigger] self@.contains_key(k) implies exists|i: int|
                0 <= i < list@.len() && #[trigger] list@[i]@ == k by {
                let j = choose|j: int| 0 <= j < s.len() && #[trigger] s[j].0@ == k;
                assert(list@[j]@ == k);
            }
        }
        list
    }

    /// Each channel under its key, each once, in no set order.
    pub fn entries(&self) -> (list: Vec<(String, ChannelState)>)
        ensures
            lists_entries(list@, self@),
    {
        proof {
            use_type_invariant(self);
        }
        let t = self.copy();
        proof {
            use_type_invariant(&t);
            assert forall|i: int| 0 <= i < t.entries@.len() implies self@.contains_key(#[trigger] t.entries@[i].0@)
                && self@[t.entries@[i].0@] == t.entries@[i].1@ by {
                lemma_entry_in_map(t.entries@, i);
            }
        }
        t.entries
    }

    /// An independent table with the same channels.
    pub fn copy(&self) -> (t: ChannelTable)
        ensures
            t@ == self@,
    {
        proof {
            use_type_invariant(self);
        }
        let n: usize = self.entries.len();
        let mut entries: Vec<(String, ChannelState)> = Vec::new();
        let mut i: usize = 0;
        while i < n
            invariant
                n == self.entries@.len(),
                i <= n,
                entries@.len() == i,
                forall|j: int| 0 <= j < i ==> #[trigger] entries@[j].0@ == self.entries@[j].0@
                    && entries@[j].1@ == self.entries@[j].1@,
            decreases n - i,
        {
            let st = ChannelState { name: self.entries[i].1.name.clone(), locked: self.entries[i].1.locked };
            entries.push((self.entries[i].0.clone(), st));
            i = i + 1;
        }
        proof {
            let s = self.entries@;
            let ne = entries@;
            assert forall|a: int, b: int|
                0 <= a < ne.len() && 0 <= b < ne.len() && a != b implies #[trigger] ne[a].0@
                != #[trigger] ne[b].0@ by {
                assert(ne[a].0@ == s[a].0@);
                assert(ne[b].0@ == s[b].0@);
            }
            assert forall|k: Seq<char>| #[trigger] entries_map(ne).contains_key(k) == entries_map(s).contains_key(k) by {
                if has_key(ne, k) {
                    let j = choose|j: int| 0 <= j < ne.len() && #[trigger] ne[j].0@ == k;
                    assert(s[j].0@ == k);
                }
                if has_key(s, k) {
                    let j = choose|j: int| 0 <= j < s.len() && #[trigger] s[j].0@ == k;
                    assert(ne[j].0@ == k);
                }
            }
            assert forall|k: Seq<char>| #[trigger] entries_map(ne).contains_key(k) implies
                entries_map(ne)[k] == entries_map(s)[k] by {
                lemma_map_value(ne, k);
                let j = choose|j: int| 0 <= j < ne.len() && ne[j].0@ == k && entries_map(ne)[k] == #[trigger] ne[j].1@;
                lemma_entry_in_map(s, j);
            }
            assert(entries_map(ne) =~= entries_map(s));
        }
        ChannelTable { entries }
    }
}

} // verus!
