use vstd::prelude::*;
use crate::state::channel::ChannelView;
use crate::state::kirc::{lists_ids, KircState};
use crate::state::server::{runtime_status, ServerView};
use crate::types::{ServerConfig, ServerStatus};

verus! {

/// What the user interface asks for to connect: a known server by id, or a
/// new server by host, port, TLS and nickname.
pub struct ConnectServerPayload {
    pub server_id: Option<u128>,
    pub host: String,
    pub port: u16,
    pub tls: bool,
    pub nickname: String,
}

impl ConnectServerPayload {
    pub fn server_id(&self) -> (r: Option<u128>)
        ensures
            r == self.server_id,
    {
        self.server_id
    }

    /// The configuration for host, port, TLS and nickname.
    pub fn to_config(&self) -> (c: ServerConfig)
        ensures
            c.spec_server() == self.host@,
            c.spec_port() == self.port,
            c.spec_use_tls() == self.tls,
            c.spec_nickname() == self.nickname@,
    {
        ServerConfig::new(self.host.clone(), self.port, self.tls, self.nickname.clone())
    }
}

/// A channel of a server, as the user interface names it.
pub struct ChannelPayload {
    pub server_id: u128,
    pub channel: String,
}

impl ChannelPayload {
    pub fn server_id(&self) -> (r: u128)
        ensures
            r == self.server_id,
    {
        self.server_id
    }

    pub fn channel(&self) -> (r: &str)
        ensures
            r@ == self.channel@,
    {
        self.channel.as_str()
    }
}

/// A channel as listed to the user interface.
pub struct ChannelInfo {
    pub name: String,
    pub locked: bool,
}

impl ChannelInfo {
    pub fn new(name: &str, locked: bool) -> (c: Self)
        ensures
            c.name@ == name@,
            c.locked == locked,
    {
        ChannelInfo { name: name.to_owned(), locked }
    }
}

/// A server as listed to the user interface.
pub struct ServerInfo {
    pub id: u128,
    pub name: String,
    pub host: String,
    pub port: u16,
    pub tls: bool,
    pub nickname: String,
    pub status: ServerStatus,
    pub channels: Vec<ChannelInfo>,
}

impl ServerInfo {
    pub fn builder() -> (b: ServerInfoBuilder)
        ensures
            b.is_empty(),
    {
        ServerInfoBuilder::new()
    }
}

/// Collects the fields of a `ServerInfo` one by one.
pub struct ServerInfoBuilder {
    pub id: Option<u128>,
    pub name: Option<String>,
    pub host: Option<String>,
    pub port: Option<u16>,
    pub tls: Option<bool>,
    pub nickname: Option<String>,
    pub status: Option<ServerStatus>,
    pub channels: Option<Vec<ChannelInfo>>,
}

impl ServerInfoBuilder {
    /// No field is set yet.
    pub open spec fn is_empty(&self) -> bool {
        &&& self.id is None
        &&& self.name is None
        &&& self.host is None
        &&& self.port is None
        &&& self.tls is None
        &&& self.nickname is None
        &&& self.status is None
        &&& self.channels is None
    }

    /// Every field is set.
    pub open spec fn is_complete(&self) -> bool {
        &&& self.id is Some
        &&& self.name is Some
        &&& self.host is Some
        &&& self.port is Some
        &&& self.tls is Some
        &&& self.nickname is Some
        &&& self.status is Some
        &&& self.channels is Some
    }

    pub fn new() -> (b: Self)
        ensures
            b.is_empty(),
    {
        ServerInfoBuilder {
            id: None,
            name: None,
            host: None,
            port: None,
            tls: None,
            nickname: None,
            status: None,
            channels: None,
        }
    }

    /// The info with the collected fields; every field must be set.
    pub fn build(self) -> (info: ServerInfo)
        requires
            self.is_complete(),
        ensures
            info.id == self.id->0,
            info.name@ == self.name->0@,
            info.host@ == self.host->0@,
            info.port == self.port->0,
            info.tls == self.tls->0,
            info.nickname@ == self.nickname->0@,
            info.status == self.status->0,
            info.channels@ == self.channels->0@,
    {
        ServerInfo {
            id: self.id.unwrap(),
            name: self.name.unwrap(),
            host: self.host.unwrap(),
            port: self.port.unwrap(),
            tls: self.tls.unwrap(),
            nickname: self.nickname.unwrap(),
            status: self.status.unwrap(),
            channels: self.channels.unwrap(),
        }
    }

    pub fn id(self, id: u128) -> (b: Self)
        ensures
            b == (ServerInfoBuilder { id: Some(id), ..self }),
    {
        ServerInfoBuilder { id: Some(id), ..self }
    }

    pub fn name(self, name: &str) -> (b: Self)
        ensures
            b.name matches Some(n) && n@ == name@,
            b == (ServerInfoBuilder { name: b.name, ..self }),
    {
        ServerInfoBuilder { name: Some(name.to_owned()), ..self }
    }

    pub fn host(self, host: &str) -> (b: Self)
        ensures
            b.host matches Some(h) && h@ == host@,
            b == (ServerInfoBuilder { host: b.host, ..self }),
    {
        ServerInfoBuilder { host: Some(host.to_owned()), ..self }
    }

    pub fn port(self, port: u16) -> (b: Self)
        ensures
            b == (ServerInfoBuilder { port: Some(port), ..self }),
    {
        ServerInfoBuilder { port: Some(port), ..self }
    }

    pub fn tls(self, tls: bool) -> (b: Self)
        ensures
            b == (ServerInfoBuilder { tls: Some(tls), ..self }),
    {
        ServerInfoBuilder { tls: Some(tls), ..self }
    }

    pub fn nickname(self, nickname: &str) -> (b: Self)
        ensures
            b.nickname matches Some(n) && n@ == nickname@,
            b == (ServerInfoBuilder { nickname: b.nickname, ..self }),
    {
        ServerInfoBuilder { nickname: Some(nickname.to_owned()), ..self }
    }

    pub fn status(self, status: ServerStatus) -> (b: Self)
        ensures
            b == (ServerInfoBuilder { status: Some(status), ..self }),
    {
        ServerInfoBuilder { status: Some(status), ..self }
    }

    pub fn channels(self, channels: Vec<ChannelInfo>) -> (b: Self)
        ensures
            b == (ServerInfoBuilder { channels: Some(channels), ..self }),
    {
        ServerInfoBuilder { channels: Some(channels), ..self }
    }
}

/// `infos` lists the channels of `m` once each, with their lock flags.
pub open spec fn describes_channels(infos: Seq<ChannelInfo>, m: Map<Seq<char>, ChannelView>) -> bool {
    &&& forall|i: int, j: int|
        0 <= i < infos.len() && 0 <= j < infos.len() && i != j ==> #[trigger] infos[i].name@
            != #[trigger] infos[j].name@
    &&& forall|i: int|
        0 <= i < infos.len() ==> m.contains_key(#[trigger] infos[i].name@) && m[infos[i].name@].locked
            == infos[i].locked
    &&& forall|k: Seq<char>|
        #[trigger] m.contains_key(k) ==> exists|i: int| 0 <= i < infos.len() && #[trigger] infos[i].name@ == k
}

/// `info` lists the server `s` under `id`: the host as name and host, the
/// configured port, TLS flag and nickname, the status and the channels.
pub open spec fn describes_server(info: ServerInfo, id: u128, s: ServerView) -> bool {
    &&& info.id == id
    &&& info.name@ == s.config.spec_server()
    &&& info.host@ == s.config.spec_server()
    &&& info.port == s.config.spec_port()
    &&& info.tls == s.config.spec_use_tls()
    &&& info.nickname@ == s.config.spec_nickname()
    &&& info.status == runtime_status(s.runtime)
    &&& describes_channels(info.channels@, s.channels)
}

/// Channel infos for the listed (key, lock flag) pairs.
fn channel_infos(pairs: &Vec<(String, bool)>) -> (infos: Vec<ChannelInfo>)
    ensures
        infos@.len() == pairs@.len(),
        forall|i: int|
            0 <= i < pairs@.len() ==> (#[trigger] infos@[i]).name@ == pairs@[i].0@ && infos@[i].locked
                == pairs@[i].1,
{
    let mut infos: Vec<ChannelInfo> = Vec::new();
    let n: usize = pairs.len();
    let mut i: usize = 0;
    while i < n
        invariant
            n == pairs@.len(),
            i <= n,
            infos@.len() == i,
            forall|j: int|
                0 <= j < i ==> (#[trigger] infos@[j]).name@ == pairs@[j].0@ && infos@[j].locked
                    == pairs@[j].1,
        decreases n - i,
    {
        infos.push(ChannelInfo::new(pairs[i].0.as_str(), pairs[i].1));
        i = i + 1;
    }
    infos
}

/// Lists every server once, in no set order.
pub fn get_servers(state: &KircState) -> (infos: Vec<ServerInfo>)
    ensures
        exists|ids: Seq<u128>|
            #[trigger] lists_ids(ids, state@.servers) && infos@.len() == ids.len() && forall|i: int|
                0 <= i < ids.len() ==> #[trigger] describes_server(
                    infos@[i],
                    ids[i],
                    state@.servers[ids[i]],
                ),
{
    let ids = state.get_all_servers();
    let n: usize = ids.len();
    let mut infos: Vec<ServerInfo> = Vec::new();
    let mut i: usize = 0;
    while i < n
        invariant
            n == ids@.len(),
            i <= n,
            lists_ids(ids@, state@.servers),
            infos@.len() == i,
            forall|j: int|
                0 <= j < i ==> #[trigger] describes_server(infos@[j], ids@[j], state@.servers[ids@[j]]),
        decreases n - i,
    {
        let id: u128 = ids[i];
        proof {
            assert(ids@.to_set().contains(id));
        }
        match state.get_server(id) {
            Some(server) => {
                let config = server.config();
                let pairs = server.channel_locks();
                let channel_infos = channel_infos(&pairs);
                proof {
                    let m = server@.channels;
                    let ci = channel_infos@;
                    assert forall|a: int, b: int|
                        0 <= a < ci.len() && 0 <= b < ci.len() && a != b implies #[trigger] ci[a].name@
                        != #[trigger] ci[b].name@ by {
                        assert(ci[a].name@ == pairs@[a].0@);
                        assert(ci[b].name@ == pairs@[b].0@);
                    }
                    assert forall|a: int| 0 <= a < ci.len() implies m.contains_key(#[trigger] ci[a].name@)
                        && m[ci[a].name@].locked == ci[a].locked by {
                        assert(ci[a].name@ == pairs@[a].0@);
                    }
                    assert forall|k: Seq<char>| #[trigger] m.contains_key(k) implies exists|a: int|
                        0 <= a < ci.len() && #[trigger] ci[a].name@ == k by {
                        let a = choose|a: int| 0 <= a < pairs@.len() && #[trigger] pairs@[a].0@ == k;
                        assert(ci[a].name@ == k);
                    }
                }
                let info = ServerInfo::builder()
                    .id(id)
                    .name(config.server())
                    .host(config.server())
                    .port(config.port())
                    .tls(config.use_tls())
                    .nickname(config.nickname())
                    .status(server.status())
                    .channels(channel_infos)
                    .build();
                infos.push(info);
            },
            None => {},
        }
        i = i + 1;
    }
    infos
}

} // verus!
