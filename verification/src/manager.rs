use vstd::prelude::*;
use tokio::task::JoinHandle;
use crate::error::KircError;
use crate::state::app::AppState;
use crate::state::channel::ChannelView;
use crate::state::kirc::{added_under, lists_ids, saves_state, KircState, KircView, SaveRequest};
use crate::state::server::{
    after_abort_connecting, after_command, after_disconnect, connecting_runtime, runtime_is_active, runtime_status,
    runtime_takes_commands, shutdown_ops_of, shutdown_wait_of, ConnectionOp, SentCommand, ServerRuntime, ServerState,
    ServerView, ShutdownWait, command_view, ops_of,
};
use crate::trusted::Receipt;
use crate::types::{ServerCommand, ServerConfig, ServerStatus};

verus! {

/// The client as plain values: its servers and the application lifecycle.
pub struct ManagerView {
    pub state: KircView,
    pub app_state: AppState,
}

/// What starting a connection takes: the server's id and configuration for
/// the connection task, and, for a newly added server, the record to save.
pub struct ConnectPlan {
    pub server_id: u128,
    pub config: ServerConfig,
    pub save: Option<SaveRequest>,
}

/// `new` is `old` with the server under `id` changed to `s`.
pub open spec fn with_server(old: ManagerView, id: u128, s: ServerView) -> ManagerView {
    ManagerView {
        state: KircView { servers: old.state.servers.insert(id, s), ..old.state },
        ..old
    }
}

/// The outcome of handing a command to a known server: refused with
/// `NotConnected` unless it takes commands, otherwise sent or refused with
/// `SendFailed`.
pub open spec fn send_result_ok(runtime: ServerRuntime, r: Result<(), KircError>) -> bool {
    &&& !runtime_takes_commands(runtime) ==> r == Err::<(), KircError>(KircError::NotConnected)
    &&& runtime_takes_commands(runtime) ==> (r == Ok::<(), KircError>(()) || r == Err::<
        (),
        KircError,
    >(KircError::SendFailed))
}

/// The client after a command is handed to the connection of server `id`:
/// recorded on that server when it takes commands; otherwise nothing
/// changes.
pub open spec fn handed(m: ManagerView, id: u128, c: SentCommand) -> ManagerView {
    if runtime_takes_commands(m.state.servers[id].runtime) {
        with_server(m, id, after_command(m.state.servers[id], c))
    } else {
        m
    }
}

/// The client after joining `name` on the known server `id` succeeded: the
/// `JOIN` is handed over and the channel is recorded, unlocked.
pub open spec fn joined(m: ManagerView, id: u128, name: Seq<char>) -> ManagerView {
    let s = after_command(m.state.servers[id], SentCommand::Join(name));
    with_server(
        m,
        id,
        ServerView { channels: s.channels.insert(name, ChannelView { name, locked: false }), ..s },
    )
}

/// The client after leaving `name` on the known server `id` succeeded: the
/// `PART` is handed over and the channel is forgotten.
pub open spec fn parted(m: ManagerView, id: u128, name: Seq<char>) -> ManagerView {
    let s = after_command(m.state.servers[id], SentCommand::Part(name));
    with_server(m, id, ServerView { channels: s.channels.remove(name), ..s })
}

/// The client after a message to `target` is asked for: nothing changes
/// when the target channel is locked or the server is unknown; otherwise
/// the `PRIVMSG` is handed to the server's connection.
pub open spec fn after_send_message(m: ManagerView, id: u128, target: Seq<char>, message: Seq<char>) -> ManagerView {
    if channel_locked_in(m, id, target) || !m.state.servers.contains_key(id) {
        m
    } else {
        handed(m, id, SentCommand::Privmsg { target, message })
    }
}

/// Whether the channel is known on the server and locked.
pub open spec fn channel_locked_in(m: ManagerView, id: u128, channel: Seq<char>) -> bool {
    m.state.servers.contains_key(id) && m.state.servers[id].channels.contains_key(channel)
        && m.state.servers[id].channels[channel].locked
}

/// The client after setting the lock flag of a channel of a known server: the
/// flag changes when the channel is known, and nothing else changes.
pub open spec fn set_lock_outcome(old: ManagerView, id: u128, channel: Seq<char>, locked: bool) -> ManagerView {
    let s = old.state.servers[id];
    if s.channels.contains_key(channel) {
        with_server(
            old,
            id,
            ServerView {
                channels: s.channels.insert(channel, ChannelView { name: s.channels[channel].name, locked }),
                ..s
            },
        )
    } else {
        old
    }
}

/// Manages the lifecycle of servers and of the application.
pub struct KircManager {
    kirc_state: KircState,
    app_state: AppState,
}

impl View for KircManager {
    type V = ManagerView;

    closed spec fn view(&self) -> ManagerView {
        ManagerView { state: self.kirc_state@, app_state: self.app_state }
    }
}

impl KircManager {
    pub fn new(kirc_state: KircState) -> (m: Self)
        ensures
            m@ == (ManagerView { state: kirc_state@, app_state: AppState::Running }),
    {
        KircManager { kirc_state, app_state: AppState::Running }
    }

    pub fn kirc_state(&self) -> (s: &KircState)
        ensures
            s@ == self@.state,
    {
        &self.kirc_state
    }

    pub fn app_state(&self) -> (s: AppState)
        ensures
            s == self@.app_state,
    {
        self.app_state
    }

    fn set_app_state(&mut self, state: AppState)
        ensures
            final(self)@ == (ManagerView { app_state: state, ..old(self)@ }),
    {
        self.app_state = state;
    }

    pub fn is_shutting_down(&self) -> (b: bool)
        ensures
            b == (self@.app_state == AppState::ShuttingDown),
    {
        match self.app_state {
            AppState::ShuttingDown => true,
            _ => false,
        }
    }

    /// Takes the record to save, then enters `ShuttingDown`.
    pub fn prepare_shutdown(&mut self) -> (r: Result<SaveRequest, KircError>)
        ensures
            final(self)@ == (ManagerView { app_state: AppState::ShuttingDown, ..old(self)@ }),
            match r {
                Ok(req) => old(self)@.state.persistence_path == Some(req.path@) && saves_state(
                    req.snapshot@,
                    old(self)@.state,
                ),
                Err(e) => e == KircError::NoPersistencePath && old(self)@.state.persistence_path is None,
            },
    {
        let r = self.kirc_state.save_snapshot();
        self.set_app_state(AppState::ShuttingDown);
        r
    }

    pub fn complete_shutdown(&mut self)
        ensures
            final(self)@ == (ManagerView { app_state: AppState::Terminated, ..old(self)@ }),
    {
        self.set_app_state(AppState::Terminated);
    }

    /// Enters `ShuttingDown`, drops every server and starts the graceful
    /// shutdown of each connection; answers the record to save, what is left
    /// to wait for, one wait per server, and the record of what was done to
    /// each server's task, in the same order.
    pub fn begin_shutdown(&mut self) -> (r: (
        Result<SaveRequest, KircError>,
        Vec<ShutdownWait>,
        Ghost<Seq<Seq<Receipt>>>,
    ))
        ensures
            final(self)@ == (ManagerView {
                state: KircView { servers: Map::empty(), ..old(self)@.state },
                app_state: AppState::ShuttingDown,
            }),
            match r.0 {
                Ok(req) => old(self)@.state.persistence_path == Some(req.path@) && saves_state(
                    req.snapshot@,
                    old(self)@.state,
                ),
                Err(e) => e == KircError::NoPersistencePath && old(self)@.state.persistence_path is None,
            },
            exists|ids: Seq<u128>|
                #[trigger] lists_ids(ids, old(self)@.state.servers) && r.1@.len() == ids.len() && r.2@.len()
                    == ids.len() && forall|i: int|
                    0 <= i < ids.len() ==> #[trigger] r.1@[i] == shutdown_wait_of(
                        old(self)@.state.servers[ids[i]].runtime,
                    ) && ops_of(r.2@[i]) == shutdown_ops_of(old(self)@.state.servers[ids[i]].runtime),
    {
        let save = self.prepare_shutdown();
        let ghost servers = self@.state.servers;
        let mut runtimes = self.kirc_state.drain_runtimes();
        let ghost ids = choose|ids: Seq<u128>|
            #[trigger] lists_ids(ids, servers) && runtimes@.len() == ids.len() && forall|i: int|
                0 <= i < ids.len() ==> #[trigger] runtimes@[i] == servers[ids[i]].runtime;
        let ghost rts = runtimes@;
        let n: usize = runtimes.len();
        let mut waits: Vec<ShutdownWait> = Vec::new();
        // Runtimes are popped from the back; the waits are built back to front.
        let mut reversed: Vec<ShutdownWait> = Vec::new();
        let ghost mut ops: Seq<Seq<Receipt>> = Seq::empty();
        while runtimes.len() > 0
            invariant
                runtimes@ == rts.take(runtimes@.len() as int),
                rts.len() == n,
                reversed@.len() + runtimes@.len() == n,
                ops.len() == reversed@.len(),
                forall|j: int| 0 <= j < reversed@.len() ==> #[trigger] reversed@[j] == shutdown_wait_of(rts[n - 1 - j]),
                forall|j: int| 0 <= j < ops.len() ==> ops_of(#[trigger] ops[j]) == shutdown_ops_of(rts[n - 1 - j]),
            decreases runtimes@.len(),
        {
            let rt = runtimes.pop().unwrap();
            let (w, done) = rt.begin_graceful_shutdown();
            reversed.push(w);
            proof {
                ops = ops.push(done@);
            }
            assert(runtimes@ =~= rts.take(runtimes@.len() as int));
        }
        while reversed.len() > 0
            invariant
                reversed@.len() + waits@.len() == n,
                forall|j: int| 0 <= j < reversed@.len() ==> #[trigger] reversed@[j] == shutdown_wait_of(rts[n - 1 - j]),
                forall|j: int| 0 <= j < waits@.len() ==> #[trigger] waits@[j] == shutdown_wait_of(rts[j]),
            decreases reversed@.len(),
        {
            let w = reversed.pop().unwrap();
            waits.push(w);
        }
        let ghost in_order = ops.reverse();
        assert forall|j: int| 0 <= j < n implies ops_of(#[trigger] in_order[j]) == shutdown_ops_of(rts[j]) by {
            assert(in_order[j] == ops[n - 1 - j]);
            assert(ops_of(ops[n - 1 - j]) == shutdown_ops_of(rts[j]));
        }
        assert(lists_ids(ids, servers));
        (save, waits, Ghost(in_order))
    }

    /// Decides how to start a connection. Refused while shutting down; a known
    /// server must exist and be neither connecting nor connected; without an
    /// id the configuration is added as a new server, under an id no server
    /// uses, which needs a file to save to. The plan carries the configuration stored for the server.
    pub fn connect_server(&mut self, server_id: Option<u128>, config: ServerConfig) -> (r: Result<
        ConnectPlan,
        KircError,
    >)
        ensures
            old(self)@.app_state == AppState::ShuttingDown ==> (r matches Err(e) && e
                == KircError::ShuttingDown && final(self)@ == old(self)@),
            old(self)@.app_state != AppState::ShuttingDown ==> match server_id {
                Some(sid) => {
                    &&& final(self)@ == old(self)@
                    &&& !old(self)@.state.servers.contains_key(sid) ==> (r matches Err(e) && e
                        == KircError::ServerNotFound)
                    &&& old(self)@.state.servers.contains_key(sid) && runtime_is_active(
                        old(self)@.state.servers[sid].runtime,
                    ) ==> (r matches Err(e) && e == KircError::AlreadyActive)
                    &&& old(self)@.state.servers.contains_key(sid) && !runtime_is_active(
                        old(self)@.state.servers[sid].runtime,
                    ) ==> (r matches Ok(p) && p.server_id == sid && p.config
                        == old(self)@.state.servers[sid].config && p.save is None)
                },
                None => exists|id: u128|
                    #[trigger] added_under(old(self)@.state, final(self)@.state, id, config)
                        && !old(self)@.state.servers.contains_key(id)
                        && final(self)@.app_state == old(self)@.app_state && match r {
                        Ok(p) => p.server_id == id && p.config == config && p.save is Some && old(
                            self,
                        )@.state.persistence_path == Some(p.save->0.path@) && saves_state(
                            p.save->0.snapshot@,
                            final(self)@.state,
                        ),
                        Err(e) => e == KircError::NoPersistencePath
                            && old(self)@.state.persistence_path is None,
                    },
            },
    {
        if self.is_shutting_down() {
            return Err(KircError::ShuttingDown);
        }
        match server_id {
            Some(sid) => {
                match self.kirc_state.get_server(sid) {
                    Some(server) => {
                        if server.is_active() {
                            Err(KircError::AlreadyActive)
                        } else {
                            Ok(ConnectPlan { server_id: sid, config: server.config(), save: None })
                        }
                    },
                    None => Err(KircError::ServerNotFound),
                }
            },
            None => {
                let stored = config.copied();
                let added = self.kirc_state.add_server(config);
                match added {
                    Ok(sid) => {
                        match self.kirc_state.save_snapshot() {
                            Ok(req) => Ok(ConnectPlan { server_id: sid, config: stored, save: Some(req) }),
                            Err(e) => Err(e),
                        }
                    },
                    Err(e) => Err(e),
                }
            },
        }
    }

    /// Records the spawned connection task of a server; `ServerNotFound` when
    /// the server is gone.
    pub fn start_connecting(&mut self, server_id: u128, handle: JoinHandle<()>) -> (r: Result<
        (),
        KircError,
    >)
        ensures
            !old(self)@.state.servers.contains_key(server_id) ==> r == Err::<(), KircError>(
                KircError::ServerNotFound,
            ) && final(self)@ == old(self)@,
            old(self)@.state.servers.contains_key(server_id) ==> r is Ok && final(self)@ == with_server(
                old(self)@,
                server_id,
                ServerView {
                    runtime: connecting_runtime(old(self)@.state.servers[server_id].runtime, handle),
                    ..old(self)@.state.servers[server_id]
                },
            ),
    {
        match self.kirc_state.take_server(server_id) {
            Some(mut server) => {
                server.transition_to_connecting(handle);
                self.kirc_state.put_server(server_id, server);
                proof {
                    assert(final(self)@.state.servers =~= old(self)@.state.servers.insert(server_id, server@));
                }
                Ok(())
            },
            None => {
                proof {
                    assert(final(self)@.state.servers =~= old(self)@.state.servers);
                }
                Err(KircError::ServerNotFound)
            },
        }
    }

    /// Disconnects the server and answers its new status.
    pub fn disconnect_server(&mut self, server_id: u128) -> (r: Result<ServerStatus, KircError>)
        ensures
            !old(self)@.state.servers.contains_key(server_id) ==> r == Err::<ServerStatus, KircError>(
                KircError::ServerNotFound,
            ) && final(self)@ == old(self)@,
            old(self)@.state.servers.contains_key(server_id) ==> {
                let s = after_disconnect(old(self)@.state.servers[server_id]);
                &&& final(self)@ == with_server(old(self)@, server_id, s)
                &&& r == Ok::<ServerStatus, KircError>(runtime_status(s.runtime))
            },
    {
        match self.kirc_state.take_server(server_id) {
            Some(mut server) => {
                server.disconnect();
                let status = server.status();
                self.kirc_state.put_server(server_id, server);
                proof {
                    assert(final(self)@.state.servers =~= old(self)@.state.servers.insert(server_id, server@));
                }
                Ok(status)
            },
            None => {
                proof {
                    assert(final(self)@.state.servers =~= old(self)@.state.servers);
                }
                Err(KircError::ServerNotFound)
            },
        }
    }

    /// Aborts a connection attempt; answers whether one was running (and a
    /// `Failed` status should be announced).
    pub fn cancel_connect(&mut self, server_id: u128) -> (r: Result<bool, KircError>)
        ensures
            !old(self)@.state.servers.contains_key(server_id) ==> r == Err::<bool, KircError>(
                KircError::ServerNotFound,
            ) && final(self)@ == old(self)@,
            old(self)@.state.servers.contains_key(server_id) ==> {
                let s = old(self)@.state.servers[server_id];
                &&& final(self)@ == with_server(old(self)@, server_id, after_abort_connecting(s))
                &&& r == Ok::<bool, KircError>(s.runtime is Connecting)
            },
    {
        match self.kirc_state.take_server(server_id) {
            Some(mut server) => {
                let aborted = server.abort_connecting();
                self.kirc_state.put_server(server_id, server);
                proof {
                    assert(final(self)@.state.servers =~= old(self)@.state.servers.insert(server_id, server@));
                }
                Ok(aborted)
            },
            None => {
                proof {
                    assert(final(self)@.state.servers =~= old(self)@.state.servers);
                }
                Err(KircError::ServerNotFound)
            },
        }
    }

    /// Every server with its configuration, to start a connection task for
    /// each at start-up.
    pub fn process_auto_connect(&self) -> (targets: Vec<(u128, ServerConfig)>)
        ensures
            exists|ids: Seq<u128>|
                #[trigger] lists_ids(ids, self@.state.servers) && targets@.len() == ids.len() && forall|i: int|
                    0 <= i < ids.len() ==> #[trigger] targets@[i] == (ids[i], self@.state.servers[ids[i]].config),
    {
        let ids = self.kirc_state.get_all_servers();
        let n: usize = ids.len();
        let mut targets: Vec<(u128, ServerConfig)> = Vec::new();
        let mut i: usize = 0;
        while i < n
            invariant
                n == ids@.len(),
                i <= n,
                lists_ids(ids@, self@.state.servers),
                targets@.len() == i,
                forall|j: int| 0 <= j < i ==> #[trigger] targets@[j] == (ids@[j], self@.state.servers[ids@[j]].config),
            decreases n - i,
        {
            let id: u128 = ids[i];
            proof {
                assert(ids@.to_set().contains(id));
            }
            match self.kirc_state.get_server(id) {
                Some(server) => {
                    targets.push((id, server.config()));
                },
                None => {},
            }
            i = i + 1;
        }
        targets
    }

    /// Joins a channel: the server must be known; the `JOIN` is handed to
    /// its connection when it takes commands, and once taken the channel is
    /// recorded, unlocked. A refused command leaves the channels as they were.
    pub fn join_channel(&mut self, server_id: u128, channel_name: &str) -> (r: Result<(), KircError>)
        ensures
            !old(self)@.state.servers.contains_key(server_id) ==> r == Err::<(), KircError>(
                KircError::CantFindServer,
            ) && final(self)@ == old(self)@,
            old(self)@.state.servers.contains_key(server_id) ==> {
                &&& send_result_ok(old(self)@.state.servers[server_id].runtime, r)
                &&& r is Err ==> final(self)@ == handed(old(self)@, server_id, SentCommand::Join(channel_name@))
                &&& r is Ok ==> final(self)@ == joined(old(self)@, server_id, channel_name@)
                &&& r is Ok ==> final(self)@.state.servers[server_id].channels == old(
                    self,
                )@.state.servers[server_id].channels.insert(
                    channel_name@,
                    ChannelView { name: channel_name@, locked: false },
                )
                &&& r is Err ==> final(self)@.state.servers[server_id].channels == old(
                    self,
                )@.state.servers[server_id].channels
            },
    {
        match self.kirc_state.take_server(server_id) {
            Some(mut server) => {
                let sent = server.send_command(ServerCommand::Join(channel_name.to_owned()));
                if sent.is_ok() {
                    server.insert_channel(channel_name, false);
                }
                self.kirc_state.put_server(server_id, server);
                proof {
                    assert(final(self)@.state.servers =~= old(self)@.state.servers.insert(server_id, server@));
                    if sent.is_err() && !runtime_takes_commands(old(self)@.state.servers[server_id].runtime) {
                        assert(final(self)@.state.servers =~= old(self)@.state.servers);
                    }
                }
                sent
            },
            None => {
                proof {
                    assert(final(self)@.state.servers =~= old(self)@.state.servers);
                }
                Err(KircError::CantFindServer)
            },
        }
    }

    /// Leaves a channel: the server must be known; the `PART` is handed to
    /// its connection when it takes commands, and once taken the channel is
    /// forgotten. A refused command leaves the channels as they were.
    pub fn part_channel(&mut self, server_id: u128, channel_name: &str) -> (r: Result<(), KircError>)
        ensures
            !old(self)@.state.servers.contains_key(server_id) ==> r == Err::<(), KircError>(
                KircError::CantFindServer,
            ) && final(self)@ == old(self)@,
            old(self)@.state.servers.contains_key(server_id) ==> {
                &&& send_result_ok(old(self)@.state.servers[server_id].runtime, r)
                &&& r is Err ==> final(self)@ == handed(old(self)@, server_id, SentCommand::Part(channel_name@))
                &&& r is Ok ==> final(self)@ == parted(old(self)@, server_id, channel_name@)
                &&& r is Ok ==> final(self)@.state.servers[server_id].channels == old(
                    self,
                )@.state.servers[server_id].channels.remove(channel_name@)
                &&& r is Err ==> final(self)@.state.servers[server_id].channels == old(
                    self,
                )@.state.servers[server_id].channels
            },
    {
        match self.kirc_state.take_server(server_id) {
            Some(mut server) => {
                let sent = server.send_command(
                    ServerCommand::Part { channel_name: channel_name.to_owned() },
                );
                if sent.is_ok() {
                    server.remove_channel(channel_name);
                }
                self.kirc_state.put_server(server_id, server);
                proof {
                    assert(final(self)@.state.servers =~= old(self)@.state.servers.insert(server_id, server@));
                    if sent.is_err() && !runtime_takes_commands(old(self)@.state.servers[server_id].runtime) {
                        assert(final(self)@.state.servers =~= old(self)@.state.servers);
                    }
                }
                sent
            },
            None => {
                proof {
                    assert(final(self)@.state.servers =~= old(self)@.state.servers);
                }
                Err(KircError::CantFindServer)
            },
        }
    }

    /// Hands a command to the connection of a known server, recording it;
    /// an unknown server gives `CantFindServer`.
    fn hand_command(&mut self, server_id: u128, cmd: ServerCommand) -> (r: Result<(), KircError>)
        ensures
            !old(self)@.state.servers.contains_key(server_id) ==> r == Err::<(), KircError>(
                KircError::CantFindServer,
            ) && final(self)@ == old(self)@,
            old(self)@.state.servers.contains_key(server_id) ==> {
                &&& send_result_ok(old(self)@.state.servers[server_id].runtime, r)
                &&& final(self)@ == handed(old(self)@, server_id, command_view(cmd))
            },
    {
        match self.kirc_state.take_server(server_id) {
            Some(mut server) => {
                let sent = server.send_command(cmd);
                self.kirc_state.put_server(server_id, server);
                proof {
                    assert(final(self)@.state.servers =~= old(self)@.state.servers.insert(server_id, server@));
                    if !runtime_takes_commands(old(self)@.state.servers[server_id].runtime) {
                        assert(final(self)@.state.servers =~= old(self)@.state.servers);
                    }
                }
                sent
            },
            None => {
                proof {
                    assert(final(self)@.state.servers =~= old(self)@.state.servers);
                }
                Err(KircError::CantFindServer)
            },
        }
    }

    /// Sends a message. A locked target channel refuses it with
    /// `ChannelLocked` before anything is handed over; an unknown server
    /// gives `CantFindServer`; otherwise the `PRIVMSG` is handed to the
    /// connection.
    pub fn send_message(&mut self, server_id: u128, target: String, message: String) -> (r: Result<
        (),
        KircError,
    >)
        ensures
            final(self)@ == after_send_message(old(self)@, server_id, target@, message@),
            channel_locked_in(old(self)@, server_id, target@) ==> r == Err::<(), KircError>(
                KircError::ChannelLocked,
            ),
            !old(self)@.state.servers.contains_key(server_id) ==> r == Err::<(), KircError>(
                KircError::CantFindServer,
            ),
            old(self)@.state.servers.contains_key(server_id) && !channel_locked_in(
                old(self)@,
                server_id,
                target@,
            ) ==> send_result_ok(old(self)@.state.servers[server_id].runtime, r),
    {
        if self.kirc_state.is_channel_locked(server_id, target.as_str()) {
            return Err(KircError::ChannelLocked);
        }
        self.hand_command(server_id, ServerCommand::Privmsg { target, message })
    }

    /// Asks the server to change the client's nickname: the `NICK` is handed
    /// to the connection of a known server; an unknown server gives
    /// `CantFindServer`.
    pub fn change_nickname(&mut self, server_id: u128, nickname: String) -> (r: Result<(), KircError>)
        ensures
            !old(self)@.state.servers.contains_key(server_id) ==> r == Err::<(), KircError>(
                KircError::CantFindServer,
            ) && final(self)@ == old(self)@,
            old(self)@.state.servers.contains_key(server_id) ==> {
                &&& send_result_ok(old(self)@.state.servers[server_id].runtime, r)
                &&& final(self)@ == handed(old(self)@, server_id, SentCommand::Nick(nickname@))
            },
    {
        self.hand_command(server_id, ServerCommand::Nick(nickname))
    }

    /// Locks a channel against sending; an unknown channel is left out.
    pub fn lock_channel(&mut self, server_id: u128, channel: &str) -> (r: Result<(), KircError>)
        ensures
            !old(self)@.state.servers.contains_key(server_id) ==> r == Err::<(), KircError>(
                KircError::CantFindServer,
            ) && final(self)@ == old(self)@,
            old(self)@.state.servers.contains_key(server_id) ==> r is Ok && final(self)@ == set_lock_outcome(
                old(self)@,
                server_id,
                channel@,
                true,
            ),
    {
        match self.kirc_state.take_server(server_id) {
            Some(mut server) => {
                server.set_channel_locked(channel, true);
                self.kirc_state.put_server(server_id, server);
                proof {
                    assert(final(self)@.state.servers =~= old(self)@.state.servers.insert(server_id, server@));
                    if !old(self)@.state.servers[server_id].channels.contains_key(channel@) {
                        assert(final(self)@.state.servers =~= old(self)@.state.servers);
                    }
                }
                Ok(())
            },
            None => {
                proof {
                    assert(final(self)@.state.servers =~= old(self)@.state.servers);
                }
                Err(KircError::CantFindServer)
            },
        }
    }

    /// Unlocks a channel; an unknown server or channel is left out. The
    /// change is announced either way.
    pub fn unlock_channel(&mut self, server_id: u128, channel: &str)
        ensures
            !old(self)@.state.servers.contains_key(server_id) ==> final(self)@ == old(self)@,
            old(self)@.state.servers.contains_key(server_id) ==> final(self)@ == set_lock_outcome(
                old(self)@,
                server_id,
                channel@,
                false,
            ),
    {
        match self.kirc_state.take_server(server_id) {
            Some(mut server) => {
                server.set_channel_locked(channel, false);
                self.kirc_state.put_server(server_id, server);
                proof {
                    assert(final(self)@.state.servers =~= old(self)@.state.servers.insert(server_id, server@));
                    if !old(self)@.state.servers[server_id].channels.contains_key(channel@) {
                        assert(final(self)@.state.servers =~= old(self)@.state.servers);
                    }
                }
            },
            None => {
                proof {
                    assert(final(self)@.state.servers =~= old(self)@.state.servers);
                }
            },
        }
    }

    /// Whether the channel is known on the server and locked.
    pub fn is_channel_locked(&self, server_id: u128, channel: &str) -> (b: bool)
        ensures
            b == channel_locked_in(self@, server_id, channel@),
    {
        self.kirc_state.is_channel_locked(server_id, channel)
    }

    /// Takes the server out, if there is one under the id.
    pub fn take_server(&mut self, server_id: u128) -> (r: Option<ServerState>)
        ensures
            final(self)@ == (ManagerView {
                state: KircView { servers: old(self)@.state.servers.remove(server_id), ..old(self)@.state },
                ..old(self)@
            }),
            match r {
                Some(s) => old(self)@.state.servers.contains_key(server_id) && s@ == old(self)@.state.servers[server_id],
                None => !old(self)@.state.servers.contains_key(server_id),
            },
    {
        self.kirc_state.take_server(server_id)
    }

    /// Puts a server in under the id, replacing what was there.
    pub fn put_server(&mut self, server_id: u128, server: ServerState)
        ensures
            final(self)@ == with_server(old(self)@, server_id, server@),
    {
        self.kirc_state.put_server(server_id, server);
    }

    pub fn get_server(&self, server_id: u128) -> (r: Option<&ServerState>)
        ensures
            match r {
                Some(s) => self@.state.servers.contains_key(server_id) && s@ == self@.state.servers[server_id],
                None => !self@.state.servers.contains_key(server_id),
            },
    {
        self.kirc_state.get_server(server_id)
    }
}

/// Locking a known channel makes it locked and unlocking makes it unlocked,
/// and nothing else changes: the other channels keep their flags and the
/// other servers stay as they were. A locked channel refuses messages (see
/// `send_message`).
pub proof fn law_channel_lock(m: ManagerView, id: u128, channel: Seq<char>, other: Seq<char>, other_id: u128)
    requires
        m.state.servers.contains_key(id),
        m.state.servers[id].channels.contains_key(channel),
    ensures
        channel_locked_in(set_lock_outcome(m, id, channel, true), id, channel),
        !channel_locked_in(set_lock_outcome(m, id, channel, false), id, channel),
        other != channel ==> channel_locked_in(set_lock_outcome(m, id, channel, true), id, other)
            == channel_locked_in(m, id, other),
        other != channel ==> channel_locked_in(set_lock_outcome(m, id, channel, false), id, other)
            == channel_locked_in(m, id, other),
        other_id != id ==> set_lock_outcome(m, id, channel, true).state.servers[other_id] == m.state.servers[other_id],
        set_lock_outcome(m, id, channel, true).state.servers.dom() == m.state.servers.dom(),
        set_lock_outcome(m, id, channel, true).app_state == m.app_state,
{
    assert(set_lock_outcome(m, id, channel, true).state.servers.dom() =~= m.state.servers.dom());
}

/// Locking a channel that is not known, or a channel of an unknown server,
/// changes nothing: the channel stays unlocked.
pub proof fn law_lock_unknown_channel(m: ManagerView, id: u128, channel: Seq<char>, locked: bool)
    requires
        m.state.servers.contains_key(id),
        !m.state.servers[id].channels.contains_key(channel),
    ensures
        set_lock_outcome(m, id, channel, locked) == m,
        !channel_locked_in(m, id, channel),
{
}

/// A channel that was just joined is recorded and unlocked, the `JOIN` is
/// the last command handed to the server, and the server's other channels
/// keep their flags.
pub proof fn law_joined_channel_is_unlocked(m: ManagerView, id: u128, name: Seq<char>, other: Seq<char>)
    requires
        m.state.servers.contains_key(id),
        runtime_takes_commands(m.state.servers[id].runtime),
    ensures
        ({
            let after = joined(m, id, name);
            &&& after.state.servers[id].channels.contains_key(name)
            &&& !channel_locked_in(after, id, name)
            &&& after.state.servers[id].sent == m.state.servers[id].sent.push(
                ConnectionOp::Send(SentCommand::Join(name)),
            )
            &&& other != name ==> channel_locked_in(after, id, other) == channel_locked_in(m, id, other)
        }),
{
}

/// Leaving a channel that was joined when it was not recorded before gives
/// back the channels as they were; what is left is the `JOIN` and the
/// `PART` handed to the server, in that order.
pub proof fn law_part_undoes_join(m: ManagerView, id: u128, name: Seq<char>)
    requires
        m.state.servers.contains_key(id),
        runtime_takes_commands(m.state.servers[id].runtime),
        !m.state.servers[id].channels.contains_key(name),
    ensures
        ({
            let s = m.state.servers[id];
            parted(joined(m, id, name), id, name) == with_server(
                m,
                id,
                ServerView {
                    sent: s.sent.push(ConnectionOp::Send(SentCommand::Join(name))).push(
                        ConnectionOp::Send(SentCommand::Part(name)),
                    ),
                    ..s
                },
            )
        }),
{
    let s = m.state.servers[id];
    let after = parted(joined(m, id, name), id, name);
    assert(after.state.servers[id].channels =~= s.channels);
    assert(after.state.servers =~= with_server(
        m,
        id,
        ServerView {
            sent: s.sent.push(ConnectionOp::Send(SentCommand::Join(name))).push(
                ConnectionOp::Send(SentCommand::Part(name)),
            ),
            ..s
        },
    ).state.servers);
}

/// A message to a locked channel hands nothing to the connection and
/// changes nothing, also right after the channel was locked; a message to
/// an unlocked channel of a server that takes commands is handed over as
/// the server's last command, target and text as given.
pub proof fn law_locked_channel_sends_nothing(
    m: ManagerView,
    id: u128,
    channel: Seq<char>,
    message: Seq<char>,
)
    requires
        m.state.servers.contains_key(id),
    ensures
        channel_locked_in(m, id, channel) ==> after_send_message(m, id, channel, message) == m,
        m.state.servers[id].channels.contains_key(channel) ==> ({
            let locked = set_lock_outcome(m, id, channel, true);
            after_send_message(locked, id, channel, message) == locked
        }),
        !channel_locked_in(m, id, channel) && runtime_takes_commands(m.state.servers[id].runtime)
            ==> after_send_message(m, id, channel, message).state.servers[id].sent == m.state.servers[id].sent.push(
            ConnectionOp::Send(SentCommand::Privmsg { target: channel, message }),
        ),
{
}

/// Unlocking a channel that was locked while unlocked gives back the client
/// as it was.
pub proof fn law_unlock_undoes_lock(m: ManagerView, id: u128, channel: Seq<char>)
    requires
        m.state.servers.contains_key(id),
        m.state.servers[id].channels.contains_key(channel),
        !m.state.servers[id].channels[channel].locked,
    ensures
        set_lock_outcome(set_lock_outcome(m, id, channel, true), id, channel, false) == m,
{
    let s = m.state.servers[id];
    let after = set_lock_outcome(set_lock_outcome(m, id, channel, true), id, channel, false);
    assert(after.state.servers[id].channels =~= s.channels);
    assert(after.state.servers =~= m.state.servers);
}

/// Leaving a channel of a known server forgets exactly that channel, locked
/// or not, keeps the server's other channels and every other server, and
/// hands the `PART` to its connection when it takes commands.
pub proof fn law_part_forgets_the_channel(m: ManagerView, id: u128, name: Seq<char>, other_id: u128)
    requires
        m.state.servers.contains_key(id),
    ensures
        ({
            let s = m.state.servers[id];
            let after = parted(m, id, name);
            &&& after.state.servers.dom() == m.state.servers.dom()
            &&& after.state.servers[id].channels == s.channels.remove(name)
            &&& !after.state.servers[id].channels.contains_key(name)
            &&& after.state.servers[id].runtime == s.runtime
            &&& after.state.servers[id].nickname == s.nickname
            &&& runtime_takes_commands(s.runtime) ==> after.state.servers[id].sent == s.sent.push(
                ConnectionOp::Send(SentCommand::Part(name)),
            )
            &&& other_id != id ==> after.state.servers[other_id] == m.state.servers[other_id]
            &&& after.app_state == m.app_state
        }),
{
    assert(parted(m, id, name).state.servers.dom() =~= m.state.servers.dom());
}

/// Joining a channel of a known server records it unlocked, replacing an
/// earlier record and its lock, keeps the server's other channels and every
/// other server, and hands the `JOIN` to its connection when it takes
/// commands.
pub proof fn law_join_records_the_channel(m: ManagerView, id: u128, name: Seq<char>, other_id: u128)
    requires
        m.state.servers.contains_key(id),
    ensures
        ({
            let s = m.state.servers[id];
            let after = joined(m, id, name);
            &&& after.state.servers.dom() == m.state.servers.dom()
            &&& after.state.servers[id].channels == s.channels.insert(name, ChannelView { name, locked: false })
            &&& after.state.servers[id].runtime == s.runtime
            &&& runtime_takes_commands(s.runtime) ==> after.state.servers[id].sent == s.sent.push(
                ConnectionOp::Send(SentCommand::Join(name)),
            )
            &&& other_id != id ==> after.state.servers[other_id] == m.state.servers[other_id]
        }),
{
    assert(joined(m, id, name).state.servers.dom() =~= m.state.servers.dom());
}

} // verus!
