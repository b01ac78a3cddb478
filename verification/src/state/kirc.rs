use vstd::prelude::*;
use std::collections::HashMap;
use crate::error::KircError;
use crate::persistence::{
    restored_server, snapshot_of, KircStateSnapshot, ServerSnapshotView, ServerStateSnapshot,
};
use crate::state::server::{ServerRuntime, ServerState, ServerView};
use crate::trusted::new_server_id;
use crate::types::ServerConfig;

verus! {

broadcast use vstd::std_specs::hash::group_hash_axioms;

/// Every server the client knows, as plain values, and the file the state is
/// saved to.
pub struct KircView {
    pub servers: Map<u128, ServerView>,
    pub persistence_path: Option<Seq<char>>,
}

/// `ids` names each key of `m` once, and nothing else.
pub open spec fn lists_ids<V>(ids: Seq<u128>, m: Map<u128, V>) -> bool {
    ids.no_duplicates() && ids.to_set() == m.dom()
}

/// The servers that restoring the records `snaps` under the ids `ids` gives:
/// record `i` becomes a disconnected server under `ids[i]`, a later record
/// taking the place of an earlier one under the same id.
pub open spec fn restored_servers(snaps: Seq<ServerSnapshotView>, ids: Seq<u128>) -> Map<
    u128,
    ServerView,
>
    decreases snaps.len(),
{
    if snaps.len() == 0 || ids.len() == 0 {
        Map::empty()
    } else {
        restored_servers(snaps.drop_last(), ids.drop_last()).insert(
            ids.last(),
            restored_server(snaps.last()),
        )
    }
}

/// `snap` records every server of `state` once.
pub open spec fn saves_state(snap: Seq<ServerSnapshotView>, state: KircView) -> bool {
    exists|ids: Seq<u128>|
        #[trigger] lists_ids(ids, state.servers) && snap == ids.map_values(
            |k: u128| snapshot_of(state.servers[k]),
        )
}

/// The record of the state to write, and the file to write it to.
pub struct SaveRequest {
    pub path: String,
    pub snapshot: KircStateSnapshot,
}

/// `new` is `old` with a disconnected server for `config` added under `id`.
pub open spec fn added_under(old: KircView, new: KircView, id: u128, config: ServerConfig) -> bool {
    new == (KircView {
        servers: old.servers.insert(
            id,
            ServerView {
                runtime: ServerRuntime::Disconnected,
                config,
                channels: Map::empty(),
                nickname: config.spec_nickname(),
                sent: Seq::empty(),
            },
        ),
        ..old
    })
}

/// The `i`-th candidate after `id`: `id + i`, wrapping past the largest
/// value to 0.
pub open spec fn id_after(id: u128, i: int) -> u128 {
    if id + i <= u128::MAX {
        (id + i) as u128
    } else {
        (id + i - u128::MAX - 1) as u128
    }
}

/// Whether `x` occurs in `v`.
fn holds_id(v: &Vec<u128>, x: u128) -> (b: bool)
    ensures
        b == v@.contains(x),
{
    let mut i: usize = 0;
    while i < v.len()
        invariant
            i <= v@.len(),
            forall|j: int| 0 <= j < i ==> v@[j] != x,
        decreases v@.len() - i,
    {
        if v[i] == x {
            return true;
        }
        i = i + 1;
    }
    false
}

/// More than `m` distinct candidates after `id` cannot all lie in a set of
/// `m` values or fewer.
proof fn lemma_candidates_exceed(used: Set<u128>, id: u128, m: int)
    requires
        used.finite(),
        0 <= m <= u128::MAX,
        forall|i: int| 0 <= i <= m ==> used.contains(#[trigger] id_after(id, i)),
    ensures
        used.len() > m,
{
    let cands = Seq::new((m + 1) as nat, |i: int| id_after(id, i));
    assert(cands.no_duplicates()) by {
        assert forall|i: int, j: int| 0 <= i < cands.len() && 0 <= j < cands.len() && i != j implies cands[i]
            != cands[j] by {
            assert(cands[i] == id_after(id, i));
            assert(cands[j] == id_after(id, j));
        }
    }
    cands.unique_seq_to_set();
    assert(cands.to_set().subset_of(used)) by {
        assert forall|x: u128| cands.to_set().contains(x) implies used.contains(x) by {
            let i = choose|i: int| 0 <= i < cands.len() && cands[i] == x;
            assert(used.contains(id_after(id, i)));
        }
    }
    vstd::set_lib::lemma_len_subset(cands.to_set(), used);
}

/// The first of `id`, `id + 1`, ... (wrapping past the largest value to 0)
/// that `used` does not hold: `id` itself when it is not used.
fn first_unused(used: &Vec<u128>, id: u128) -> (r: u128)
    ensures
        !used@.contains(r),
        !used@.contains(id) ==> r == id,
{
    let n: usize = used.len();
    let mut c: u128 = id;
    let mut j: usize = 0;
    while holds_id(used, c)
        invariant
            n == used@.len(),
            j <= n,
            c == id_after(id, j as int),
            forall|i: int| 0 <= i < j ==> used@.contains(#[trigger] id_after(id, i)),
        decreases n - j,
    {
        proof {
            assert forall|i: int| 0 <= i <= j implies used@.to_set().contains(#[trigger] id_after(id, i)) by {
                assert(used@.contains(id_after(id, i)));
            }
            lemma_candidates_exceed(used@.to_set(), id, j as int);
            used@.lemma_cardinality_of_set();
        }
        c = if c == u128::MAX { 0 } else { c + 1 };
        j = j + 1;
    }
    proof {
        if j > 0 {
            assert(used@.contains(id_after(id, 0)));
        }
    }
    c
}

/// The client's state: servers by id, and where to persist them.
pub struct KircState {
    servers: HashMap<u128, ServerState>,
    persistence_path: Option<String>,
}

impl View for KircState {
    type V = KircView;

    closed spec fn view(&self) -> KircView {
        KircView {
            servers: self.servers@.map_values(|s: ServerState| s@),
            persistence_path: match self.persistence_path {
                Some(p) => Some(p@),
                None => None,
            },
        }
    }
}

proof fn lemma_unref_no_duplicates()
    ensures
        forall|s: Seq<&u128>| #[trigger] s.unref().no_duplicates() <== s.no_duplicates(),
{
    assert forall|s: Seq<&u128>| s.no_duplicates() implies #[trigger] s.unref().no_duplicates() by {
        assert forall|i: int, j: int|
            0 <= i < s.unref().len() && 0 <= j < s.unref().len() && i != j implies s.unref()[i]
            != s.unref()[j] by {
            assert(s[i] != s[j]);
        }
    }
}

impl KircState {
    pub fn new() -> (s: Self)
        ensures
            s@.servers == Map::<u128, ServerView>::empty(),
            s@.persistence_path is None,
    {
        let s = KircState { servers: HashMap::new(), persistence_path: None };
        assert(s@.servers =~= Map::<u128, ServerView>::empty());
        s
    }

    /// The ids of all servers, each once, in no set order.
    pub fn get_all_servers(&self) -> (ids: Vec<u128>)
        ensures
            lists_ids(ids@, self@.servers),
    {
        let mut ids: Vec<u128> = Vec::new();
        proof {
            assert(vstd::std_specs::hash::obeys_key_model::<u128>());
            assert(vstd::std_specs::hash::builds_valid_hashers::<std::hash::RandomState>());
            assert(self@.servers.dom() =~= self.servers@.dom());
            if self.servers@.dom().len() == 0 {
                assert(self.servers@.dom() =~= Set::<u128>::empty());
                assert(ids@.to_set() =~= Set::<u128>::empty());
            }
        }
        for k in it: self.servers.keys()
            invariant
                ids@ == it.seq().take(it.index()).unref(),
                it.seq().no_duplicates(),
                it.seq().unref().to_set() == self.servers@.dom(),
                it.index() == it.seq().len() ==> lists_ids(ids@, self.servers@),
            ensures
                lists_ids(ids@, self.servers@),
        {
            ids.push(*k);
            assert(ids@ =~= it.seq().take(it.index() + 1).unref());
            proof {
                lemma_unref_no_duplicates();
            }
            assert(it.index() + 1 == it.seq().len() ==> ids@ =~= it.seq().unref());
        }
        ids
    }

    pub fn set_persistence_path(&mut self, path: String)
        ensures
            final(self)@ == (KircView { persistence_path: Some(path@), ..old(self)@ }),
    {
        self.persistence_path = Some(path);
        assert(final(self)@.servers =~= old(self)@.servers);
    }

    pub fn contains_server(&self, server_id: u128) -> (b: bool)
        ensures
            b == self@.servers.contains_key(server_id),
    {
        self.servers.contains_key(&server_id)
    }

    pub fn get_server(&self, server_id: u128) -> (r: Option<&ServerState>)
        ensures
            match r {
                Some(s) => self@.servers.contains_key(server_id) && s@ == self@.servers[server_id],
                None => !self@.servers.contains_key(server_id),
            },
    {
        self.servers.get(&server_id)
    }

    /// Takes the server out of the state, if there is one under the id.
    pub fn take_server(&mut self, server_id: u128) -> (r: Option<ServerState>)
        ensures
            final(self)@ == (KircView {
                servers: old(self)@.servers.remove(server_id),
                ..old(self)@
            }),
            match r {
                Some(s) => old(self)@.servers.contains_key(server_id) && s@ == old(self)@.servers[server_id],
                None => !old(self)@.servers.contains_key(server_id),
            },
    {
        let r = self.servers.remove(&server_id);
        assert(final(self)@.servers =~= old(self)@.servers.remove(server_id));
        r
    }

    /// Puts a server into the state under the id, replacing what was there.
    pub fn put_server(&mut self, server_id: u128, server: ServerState)
        ensures
            final(self)@ == (KircView {
                servers: old(self)@.servers.insert(server_id, server@),
                ..old(self)@
            }),
    {
        let _ = self.servers.insert(server_id, server);
        assert(final(self)@.servers =~= old(self)@.servers.insert(server_id, server@));
    }

    /// Adds a disconnected server under `server_id`. The server stays added
    /// either way; the answer is `NoPersistencePath` when no file is set to
    /// save the state to, and the id otherwise.
    pub fn add_server_with_id(&mut self, server_id: u128, config: ServerConfig) -> (r: Result<
        u128,
        KircError,
    >)
        ensures
            final(self)@ == (KircView {
                servers: old(self)@.servers.insert(
                    server_id,
                    ServerView {
                        runtime: ServerRuntime::Disconnected,
                        config,
                        channels: Map::empty(),
                        nickname: config.spec_nickname(),
                        sent: Seq::empty(),
                    },
                ),
                ..old(self)@
            }),
            old(self)@.persistence_path is None ==> r == Err::<u128, KircError>(
                KircError::NoPersistencePath,
            ),
            old(self)@.persistence_path is Some ==> r == Ok::<u128, KircError>(server_id),
    {
        self.put_server(server_id, ServerState::new(ServerRuntime::Disconnected, config));
        if self.persistence_path.is_none() {
            Err(KircError::NoPersistencePath)
        } else {
            Ok(server_id)
        }
    }

    /// Adds a disconnected server, as `add_server_with_id` does, under an id
    /// that no server uses: a fresh version 7 UUID, or, should that one be
    /// taken, the first unused id after it.
    pub fn add_server(&mut self, config: ServerConfig) -> (r: Result<u128, KircError>)
        ensures
            exists|id: u128|
                #[trigger] added_under(old(self)@, final(self)@, id, config) && !old(self)@.servers.contains_key(id)
                    && (match r {
                    Ok(x) => x == id && old(self)@.persistence_path is Some,
                    Err(e) => e == KircError::NoPersistencePath && old(self)@.persistence_path is None,
                }),
            final(self)@.servers.len() == old(self)@.servers.len() + 1,
    {
        let drawn: u128 = new_server_id();
        let id: u128 = match self.get_server(drawn) {
            None => drawn,
            Some(_) => {
                let used = self.get_all_servers();
                let free = first_unused(&used, drawn);
                assert(!used@.to_set().contains(free));
                free
            },
        };
        proof {
            assert(self@.servers.dom().finite()) by {
                broadcast use vstd::std_specs::hash::axiom_hashmap_view_finite_dom;
                assert(self@.servers.dom() =~= self.servers@.dom());
            }
        }
        let r = self.add_server_with_id(id, config);
        assert(added_under(old(self)@, final(self)@, id, config));
        r
    }

    /// Whether the channel is known on the server and locked; `false` when
    /// either is unknown.
    pub fn is_channel_locked(&self, server_id: u128, channel: &str) -> (b: bool)
        ensures
            b == (self@.servers.contains_key(server_id) && self@.servers[server_id].channels.contains_key(
                channel@,
            ) && self@.servers[server_id].channels[channel@].locked),
    {
        match self.servers.get(&server_id) {
            Some(s) => s.is_channel_locked(channel),
            None => false,
        }
    }

    /// Takes the runtime of every server, one per server in no set order, and
    /// drops all servers.
    pub fn drain_runtimes(&mut self) -> (r: Vec<ServerRuntime>)
        ensures
            final(self)@ == (KircView { servers: Map::empty(), ..old(self)@ }),
            exists|ids: Seq<u128>|
                #[trigger] lists_ids(ids, old(self)@.servers) && r@.len() == ids.len() && forall|i: int|
                    0 <= i < ids.len() ==> #[trigger] r@[i] == old(self)@.servers[ids[i]].runtime,
    {
        let ids = self.get_all_servers();
        let ghost old_servers = old(self)@.servers;
        let mut out: Vec<ServerRuntime> = Vec::new();
        let n: usize = ids.len();
        let mut i: usize = 0;
        while i < n
            invariant
                n == ids@.len(),
                i <= n,
                lists_ids(ids@, old_servers),
                self@.persistence_path == old(self)@.persistence_path,
                out@.len() == i,
                forall|j: int| 0 <= j < i ==> #[trigger] out@[j] == old_servers[ids@[j]].runtime,
                forall|k: u128|
                    #[trigger] self@.servers.contains_key(k) == (old_servers.contains_key(k)
                        && !ids@.take(i as int).contains(k)),
                forall|k: u128| #[trigger] self@.servers.contains_key(k) ==> self@.servers[k] == old_servers[k],
            decreases n - i,
        {
            let id: u128 = ids[i];
            proof {
                assert(ids@.to_set().contains(id));
                assert(!ids@.take(i as int).contains(id)) by {
                    if ids@.take(i as int).contains(id) {
                        let j = choose|j: int| 0 <= j < i && #[trigger] ids@.take(i as int)[j] == id;
                        assert(ids@[j] == ids@[i as int]);
                    }
                }
            }
            let taken = self.take_server(id);
            match taken {
                Some(mut s) => {
                    out.push(s.take_runtime());
                },
                None => {},
            }
            proof {
                assert forall|k: u128|
                    #[trigger] self@.servers.contains_key(k) == (old_servers.contains_key(k)
                        && !ids@.take(i + 1).contains(k)) by {
                    if ids@.take(i + 1).contains(k) && !ids@.take(i as int).contains(k) {
                        let j = choose|j: int| 0 <= j < i + 1 && #[trigger] ids@.take(i + 1)[j] == k;
                        assert(j == i);
                    }
                    if ids@.take(i as int).contains(k) {
                        let j = choose|j: int| 0 <= j < i && #[trigger] ids@.take(i as int)[j] == k;
                        assert(ids@.take(i + 1)[j] == k);
                    }
                    if k == id {
                        assert(ids@.take(i + 1)[i as int] == k);
                    }
                }
            }
            i = i + 1;
        }
        proof {
            assert(ids@.take(n as int) =~= ids@);
            assert forall|k: u128| !#[trigger] self@.servers.contains_key(k) by {
                if old_servers.contains_key(k) {
                    assert(ids@.to_set().contains(k));
                }
            }
            assert(self@.servers =~= Map::<u128, ServerView>::empty());
            assert(lists_ids(ids@, old(self)@.servers));
        }
        out
    }

    /// The record of every server, one per server in no set order.
    pub fn snapshot(&self) -> (r: KircStateSnapshot)
        ensures
            saves_state(r@, self@),
    {
        let ids = self.get_all_servers();
        let n: usize = ids.len();
        let mut out: Vec<ServerStateSnapshot> = Vec::new();
        let mut i: usize = 0;
        while i < n
            invariant
                n == ids@.len(),
                i <= n,
                lists_ids(ids@, self@.servers),
                out@.len() == i,
                forall|j: int| 0 <= j < i ==> #[trigger] out@[j]@ == snapshot_of(self@.servers[ids@[j]]),
            decreases n - i,
        {
            let id: u128 = ids[i];
            proof {
                assert(ids@.to_set().contains(id));
            }
            match self.servers.get(&id) {
                Some(s) => {
                    out.push(s.snapshot());
                },
                None => {},
            }
            i = i + 1;
        }
        let r = KircStateSnapshot::from_iter(out);
        assert(r@ =~= ids@.map_values(|k: u128| snapshot_of(self@.servers[k])));
        r
    }

    /// The state that the records restore to, record `i` under `ids[i]`.
    pub fn restore_with_ids(snapshot: KircStateSnapshot, ids: Vec<u128>) -> (s: KircState)
        requires
            ids@.len() == snapshot@.len(),
        ensures
            s@.servers == restored_servers(snapshot@, ids@),
            s@.persistence_path is None,
    {
        let ghost snaps = snapshot@;
        let mut records = snapshot.into_servers();
        let n: usize = records.len();
        // Reverse the records, so that popping hands them out in order.
        let mut reversed: Vec<ServerStateSnapshot> = Vec::new();
        while records.len() > 0
            invariant
                reversed@.len() + records@.len() == n,
                n == snaps.len(),
                records@.map_values(|x: ServerStateSnapshot| x@) == snaps.take(records@.len() as int),
                forall|j: int| 0 <= j < reversed@.len() ==> #[trigger] reversed@[j]@ == snaps[n - 1 - j],
            decreases records@.len(),
        {
            let ghost before = records@;
            let r = records.pop().unwrap();
            reversed.push(r);
            proof {
                assert(records@.map_values(|x: ServerStateSnapshot| x@) =~= snaps.take(records@.len() as int)) by {
                    assert forall|j: int| 0 <= j < records@.len() implies records@[j]@ == snaps[j] by {
                        assert(before.map_values(|x: ServerStateSnapshot| x@)[j] == snaps.take(before.len() as int)[j]);
                    }
                }
                assert(before.map_values(|x: ServerStateSnapshot| x@)[before.len() - 1] == snaps[before.len() - 1]);
            }
        }
        let mut state = KircState::new();
        let mut i: usize = 0;
        while i < n
            invariant
                i <= n,
                n == snaps.len(),
                n == ids@.len(),
                reversed@.len() == n - i,
                forall|j: int| 0 <= j < reversed@.len() ==> #[trigger] reversed@[j]@ == snaps[n - 1 - j],
                state@.servers == restored_servers(snaps.take(i as int), ids@.take(i as int)),
                state@.persistence_path is None,
            decreases n - i,
        {
            let r = reversed.pop().unwrap();
            let ghost rv = r@;
            assert(rv == snaps[i as int]);
            state.put_server(ids[i], r.restore());
            proof {
                let t = snaps.take(i + 1);
                let u = ids@.take(i + 1);
                assert(t.drop_last() =~= snaps.take(i as int));
                assert(u.drop_last() =~= ids@.take(i as int));
            }
            i = i + 1;
        }
        proof {
            assert(snaps.take(n as int) =~= snaps);
            assert(ids@.take(n as int) =~= ids@);
        }
        state
    }

    /// The state that the records restore to, each record under its own id:
    /// a fresh version 7 UUID, or, should that one be taken by an earlier
    /// record, the first unused id after it. So `n` records give `n` servers.
    pub fn from_snapshot(snapshot: KircStateSnapshot) -> (s: KircState)
        ensures
            exists|ids: Seq<u128>|
                #[trigger] restored_servers(snapshot@, ids) == s@.servers && ids.len() == snapshot@.len()
                    && ids.no_duplicates(),
            s@.servers.dom().len() == snapshot@.len(),
            s@.persistence_path is None,
    {
        let n: usize = snapshot.len();
        let mut ids: Vec<u128> = Vec::new();
        let mut i: usize = 0;
        while i < n
            invariant
                i <= n,
                ids@.len() == i,
                ids@.no_duplicates(),
            decreases n - i,
        {
            let drawn: u128 = new_server_id();
            let id: u128 = first_unused(&ids, drawn);
            ids.push(id);
            i = i + 1;
        }
        let ghost gids = ids@;
        let ghost snaps = snapshot@;
        let s = KircState::restore_with_ids(snapshot, ids);
        assert(restored_servers(snaps, gids) == s@.servers);
        proof {
            lemma_restored_servers(snaps, gids);
            gids.unique_seq_to_set();
        }
        s
    }

    /// The file to write and the record to write to it; `NoPersistencePath`
    /// when no file is set.
    pub fn save_snapshot(&self) -> (r: Result<SaveRequest, KircError>)
        ensures
            match r {
                Ok(req) => self@.persistence_path == Some(req.path@) && saves_state(req.snapshot@, self@),
                Err(e) => e == KircError::NoPersistencePath && self@.persistence_path is None,
            },
    {
        match &self.persistence_path {
            Some(p) => Ok(SaveRequest { path: p.clone(), snapshot: self.snapshot() }),
            None => Err(KircError::NoPersistencePath),
        }
    }
}

impl KircStateSnapshot {
    /// The state these records restore to, each server under its own id, as
    /// `KircState::from_snapshot` does.
    pub fn restore(self) -> (s: KircState)
        ensures
            exists|ids: Seq<u128>|
                #[trigger] restored_servers(self@, ids) == s@.servers && ids.len() == self@.len()
                    && ids.no_duplicates(),
            s@.servers.dom().len() == self@.len(),
            s@.persistence_path is None,
    {
        KircState::from_snapshot(self)
    }
}

/// Restoring records under distinct ids puts record `i`, as a disconnected
/// server, under `ids[i]`, and nothing else.
pub proof fn lemma_restored_servers(snaps: Seq<ServerSnapshotView>, ids: Seq<u128>)
    requires
        snaps.len() == ids.len(),
        ids.no_duplicates(),
    ensures
        restored_servers(snaps, ids).dom() == ids.to_set(),
        forall|i: int|
            0 <= i < ids.len() ==> #[trigger] restored_servers(snaps, ids)[ids[i]] == restored_server(
                snaps[i],
            ),
    decreases snaps.len(),
{
    if snaps.len() > 0 {
        let n = snaps.len() - 1;
        lemma_restored_servers(snaps.drop_last(), ids.drop_last());
        assert(ids.drop_last().no_duplicates());
        assert(restored_servers(snaps, ids).dom() =~= ids.to_set()) by {
            assert forall|k: u128| #[trigger] ids.to_set().contains(k) == (ids.drop_last().to_set().contains(k) || k == ids.last()) by {
                if ids.to_set().contains(k) {
                    let j = choose|j: int| 0 <= j < ids.len() && ids[j] == k;
                    if j < n {
                        assert(ids.drop_last()[j] == k);
                    }
                }
                if ids.drop_last().to_set().contains(k) {
                    let j = choose|j: int| 0 <= j < n && ids.drop_last()[j] == k;
                    assert(ids[j] == k);
                }
            }
        }
        assert forall|i: int| 0 <= i < ids.len() implies #[trigger] restored_servers(snaps, ids)[ids[i]]
            == restored_server(snaps[i]) by {
            if i < n {
                assert(ids[i] != ids[n]);
                assert(ids.drop_last()[i] == ids[i]);
                assert(snaps.drop_last()[i] == snaps[i]);
            }
        }
    } else {
        assert(restored_servers(snaps, ids).dom() =~= ids.to_set());
    }
}

/// Saving the state and restoring the record under distinct ids gives back
/// every server, disconnected, with its configuration, its channels and its
/// configured nickname: the server under the `i`-th saved id comes back under
/// `ids[i]`, and no other server appears.
pub proof fn law_restore_of_snapshot(servers: Map<u128, ServerView>, saved_ids: Seq<u128>, ids: Seq<u128>)
    requires
        lists_ids(saved_ids, servers),
        ids.len() == saved_ids.len(),
        ids.no_duplicates(),
    ensures
        ({
            let restored = restored_servers(
                saved_ids.map_values(|k: u128| snapshot_of(servers[k])),
                ids,
            );
            &&& restored.dom() == ids.to_set()
            &&& forall|i: int|
                0 <= i < ids.len() ==> #[trigger] restored[ids[i]] == (ServerView {
                    runtime: ServerRuntime::Disconnected,
                    config: servers[saved_ids[i]].config,
                    channels: servers[saved_ids[i]].channels,
                    nickname: servers[saved_ids[i]].config.spec_nickname(),
                    sent: Seq::empty(),
                })
        }),
{
    let snaps = saved_ids.map_values(|k: u128| snapshot_of(servers[k]));
    lemma_restored_servers(snaps, ids);
}

/// Adding two servers, each under an id that was not in use, keeps every
/// earlier server and adds two distinct ones, each with its configuration:
/// the client holds two servers more.
pub proof fn law_additions_add_servers(
    a: KircView,
    b: KircView,
    c: KircView,
    id1: u128,
    id2: u128,
    config1: ServerConfig,
    config2: ServerConfig,
)
    requires
        a.servers.dom().finite(),
        added_under(a, b, id1, config1),
        !a.servers.contains_key(id1),
        added_under(b, c, id2, config2),
        !b.servers.contains_key(id2),
    ensures
        id1 != id2,
        c.servers.dom() == a.servers.dom().insert(id1).insert(id2),
        c.servers.len() == a.servers.len() + 2,
        c.servers[id1].config == config1,
        c.servers[id2].config == config2,
        forall|k: u128| #[trigger] a.servers.contains_key(k) ==> c.servers[k] == a.servers[k],
{
    assert(c.servers.dom() =~= a.servers.dom().insert(id1).insert(id2));
}

} // verus!
