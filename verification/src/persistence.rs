use vstd::prelude::*;
use crate::state::channel::{ChannelTable, ChannelView};
use crate::state::server::{ServerRuntime, ServerState, ServerView};
use crate::types::ServerConfig;

verus! {

/// What is saved of one server: its configuration and its channels.
pub struct ServerStateSnapshot {
    config: ServerConfig,
    channels: ChannelTable,
}

/// A saved server as plain values.
pub struct ServerSnapshotView {
    pub config: ServerConfig,
    pub channels: Map<Seq<char>, ChannelView>,
}

impl View for ServerStateSnapshot {
    type V = ServerSnapshotView;

    closed spec fn view(&self) -> ServerSnapshotView {
        ServerSnapshotView { config: self.config, channels: self.channels@ }
    }
}

/// What is saved of a server.
pub open spec fn snapshot_of(s: ServerView) -> ServerSnapshotView {
    ServerSnapshotView { config: s.config, channels: s.channels }
}

/// The server that a saved record restores to: disconnected, with the saved
/// configuration and channels, using the configured nickname.
pub open spec fn restored_server(s: ServerSnapshotView) -> ServerView {
    ServerView {
        runtime: ServerRuntime::Disconnected,
        config: s.config,
        channels: s.channels,
        nickname: s.config.spec_nickname(),
        sent: Seq::empty(),
    }
}

impl ServerStateSnapshot {
    pub fn new(config: ServerConfig, channels: ChannelTable) -> (s: Self)
        ensures
            s@ == (ServerSnapshotView { config, channels: channels@ }),
    {
        ServerStateSnapshot { config, channels }
    }

    pub fn config(&self) -> (c: &ServerConfig)
        ensures
            *c == self@.config,
    {
        &self.config
    }

    pub fn channels(&self) -> (t: &ChannelTable)
        ensures
            t@ == self@.channels,
    {
        &self.channels
    }

    /// The server this record stands for.
    pub fn restore(self) -> (s: ServerState)
        ensures
            s@ == restored_server(self@),
    {
        ServerState::with_channel(self.config, self.channels)
    }
}

impl ServerState {
    /// The record saved for this server.
    pub fn snapshot(&self) -> (s: ServerStateSnapshot)
        ensures
            s@ == snapshot_of(self@),
    {
        ServerStateSnapshot::new(self.config(), self.channels())
    }
}

/// Everything that is saved: one record per server.
pub struct KircStateSnapshot {
    servers: Vec<ServerStateSnapshot>,
}

impl View for KircStateSnapshot {
    type V = Seq<ServerSnapshotView>;

    closed spec fn view(&self) -> Seq<ServerSnapshotView> {
        self.servers@.map_values(|s: ServerStateSnapshot| s@)
    }
}

impl KircStateSnapshot {
    /// No servers.
    pub fn empty() -> (s: Self)
        ensures
            s@ == Seq::<ServerSnapshotView>::empty(),
    {
        let s = KircStateSnapshot { servers: Vec::new() };
        assert(s@ =~= Seq::<ServerSnapshotView>::empty());
        s
    }

    /// How many servers are recorded.
    pub fn len(&self) -> (n: usize)
        ensures
            n == self@.len(),
    {
        self.servers.len()
    }

    /// The records, in the given order.
    pub fn from_iter(servers: Vec<ServerStateSnapshot>) -> (s: Self)
        ensures
            s@ == servers@.map_values(|x: ServerStateSnapshot| x@),
    {
        KircStateSnapshot { servers }
    }

    pub fn servers(&self) -> (v: &Vec<ServerStateSnapshot>)
        ensures
            v@.map_values(|x: ServerStateSnapshot| x@) == self@,
    {
        &self.servers
    }

    pub fn into_servers(self) -> (v: Vec<ServerStateSnapshot>)
        ensures
            v@.map_values(|x: ServerStateSnapshot| x@) == self@,
    {
        self.servers
    }
}

} // verus!
