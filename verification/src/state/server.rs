use vstd::prelude::*;
use tokio::sync::mpsc::UnboundedSender;
use tokio::task::JoinHandle;
use crate::error::KircError;
use crate::state::channel::{ChannelState, ChannelTable, ChannelView};
use crate::trusted::{abort_task, receipt_op, send_over, Receipt};
use crate::types::{ServerCommand, ServerConfig, ServerStatus};

verus! {

/// Seconds that a graceful shutdown waits for a connection task to end.
pub const SHUTDOWN_TIMEOUT_SECS: u64 = 5;

/// The live side of a server connection: which phase it is in, and the task
/// and command queue that belong to that phase.
pub enum ServerRuntime {
    Disconnected,
    Connecting { handle: JoinHandle<()> },
    Registering { tx: UnboundedSender<ServerCommand>, handle: JoinHandle<()> },
    Connected { tx: UnboundedSender<ServerCommand>, handle: JoinHandle<()> },
    Disconnecting { handle: JoinHandle<()> },
    Failed { error: String },
}

/// The status that each phase shows.
pub open spec fn runtime_status(r: ServerRuntime) -> ServerStatus {
    match r {
        ServerRuntime::Disconnected => ServerStatus::Disconnected,
        ServerRuntime::Connecting { .. } => ServerStatus::Connecting,
        ServerRuntime::Registering { .. } => ServerStatus::Registering,
        ServerRuntime::Connected { .. } => ServerStatus::Connected,
        ServerRuntime::Disconnecting { .. } => ServerStatus::Disconnecting,
        ServerRuntime::Failed { .. } => ServerStatus::Failed,
    }
}

/// A connection that is being set up or is up.
pub open spec fn runtime_is_active(r: ServerRuntime) -> bool {
    r is Connecting || r is Registering || r is Connected
}

/// A connection that can take commands.
pub open spec fn runtime_takes_commands(r: ServerRuntime) -> bool {
    r is Registering || r is Connected
}

/// The phase after a new connection task starts: disconnected or failed
/// servers start connecting; any other phase falls back to disconnected.
pub open spec fn connecting_runtime(r: ServerRuntime, handle: JoinHandle<()>) -> ServerRuntime {
    if r is Disconnected || r is Failed {
        ServerRuntime::Connecting { handle }
    } else {
        ServerRuntime::Disconnected
    }
}

/// The phase after the connection opens: a connecting server registers,
/// keeping its task; any other phase falls back to disconnected.
pub open spec fn registering_runtime(r: ServerRuntime, tx: UnboundedSender<ServerCommand>) -> ServerRuntime {
    match r {
        ServerRuntime::Connecting { handle } => ServerRuntime::Registering { tx, handle },
        _ => ServerRuntime::Disconnected,
    }
}

/// The phase after the server welcomes the client: a registering server is
/// connected, keeping task and queue; any other phase falls back to
/// disconnected.
pub open spec fn connected_runtime(r: ServerRuntime) -> ServerRuntime {
    match r {
        ServerRuntime::Registering { tx, handle } => ServerRuntime::Connected { tx, handle },
        _ => ServerRuntime::Disconnected,
    }
}

/// The phase after the user disconnects: a registering or connected server
/// starts disconnecting, keeping its task; any other phase stays.
pub open spec fn disconnecting_runtime(r: ServerRuntime) -> ServerRuntime {
    match r {
        ServerRuntime::Registering { handle, .. } => ServerRuntime::Disconnecting { handle },
        ServerRuntime::Connected { handle, .. } => ServerRuntime::Disconnecting { handle },
        other => other,
    }
}

/// A command as plain values, as it is handed to a connection task.
pub enum SentCommand {
    Join(Seq<char>),
    Privmsg { target: Seq<char>, message: Seq<char> },
    Part(Seq<char>),
    Nick(Seq<char>),
    Quit,
}

/// What the client does to a connection task: hand it a command, or abort it.
pub enum ConnectionOp {
    Send(SentCommand),
    Abort,
}

/// A command taken as plain values.
pub open spec fn command_view(c: ServerCommand) -> SentCommand {
    match c {
        ServerCommand::Join(x) => SentCommand::Join(x@),
        ServerCommand::Privmsg { target, message } => SentCommand::Privmsg {
            target: target@,
            message: message@,
        },
        ServerCommand::Part { channel_name } => SentCommand::Part(channel_name@),
        ServerCommand::Nick(n) => SentCommand::Nick(n@),
        ServerCommand::Quit => SentCommand::Quit,
    }
}

/// The operations that receipts are evidence of, in order.
pub open spec fn ops_of(receipts: Seq<Receipt>) -> Seq<ConnectionOp> {
    receipts.map_values(|r: Receipt| receipt_op(r))
}

/// What the graceful shutdown of a phase does to its task: a registering or
/// connected task is handed `Quit`, a connecting task is aborted, and
/// nothing is done to any other phase.
pub open spec fn shutdown_ops_of(r: ServerRuntime) -> Seq<ConnectionOp> {
    if runtime_takes_commands(r) {
        seq![ConnectionOp::Send(SentCommand::Quit)]
    } else if r is Connecting {
        seq![ConnectionOp::Abort]
    } else {
        Seq::empty()
    }
}

/// What a graceful shutdown of one connection still has to wait for.
pub enum ShutdownWait {
    /// Wait for the task, at most `SHUTDOWN_TIMEOUT_SECS` seconds.
    Bounded(JoinHandle<()>),
    /// Wait for the task, which has been asked to abort.
    Aborted(JoinHandle<()>),
    /// Nothing runs.
    Nothing,
}

/// The wait that the graceful shutdown of a phase leaves.
pub open spec fn shutdown_wait_of(r: ServerRuntime) -> ShutdownWait {
    match r {
        ServerRuntime::Connected { handle, .. } => ShutdownWait::Bounded(handle),
        ServerRuntime::Registering { handle, .. } => ShutdownWait::Bounded(handle),
        ServerRuntime::Connecting { handle } => ShutdownWait::Aborted(handle),
        ServerRuntime::Disconnecting { handle } => ShutdownWait::Bounded(handle),
        _ => ShutdownWait::Nothing,
    }
}

impl ServerRuntime {
    pub fn status(&self) -> (s: ServerStatus)
        ensures
            s == runtime_status(*self),
    {
        match self {
            ServerRuntime::Disconnected => ServerStatus::Disconnected,
            ServerRuntime::Connecting { .. } => ServerStatus::Connecting,
            ServerRuntime::Registering { .. } => ServerStatus::Registering,
            ServerRuntime::Connected { .. } => ServerStatus::Connected,
            ServerRuntime::Disconnecting { .. } => ServerStatus::Disconnecting,
            ServerRuntime::Failed { .. } => ServerStatus::Failed,
        }
    }

    /// Starts a graceful shutdown: a registering or connected task is handed
    /// `Quit` and waited for within the timeout; a connecting task is aborted
    /// and waited for; a disconnecting task is waited for within the timeout.
    /// Answers what is left to wait for, and the receipts for what was done
    /// to the task.
    pub fn begin_graceful_shutdown(self) -> (r: (ShutdownWait, Ghost<Seq<Receipt>>))
        ensures
            r.0 == shutdown_wait_of(self),
            ops_of(r.1@) == shutdown_ops_of(self),
    {
        match self {
            ServerRuntime::Connected { tx, handle } => {
                let (_, receipt) = send_over(&tx, ServerCommand::Quit);
                let done = Ghost(Seq::empty().push(receipt@));
                assert(ops_of(done@) =~= shutdown_ops_of(ServerRuntime::Connected { tx, handle }));
                (ShutdownWait::Bounded(handle), done)
            },
            ServerRuntime::Registering { tx, handle } => {
                let (_, receipt) = send_over(&tx, ServerCommand::Quit);
                let done = Ghost(Seq::empty().push(receipt@));
                assert(ops_of(done@) =~= shutdown_ops_of(ServerRuntime::Registering { tx, handle }));
                (ShutdownWait::Bounded(handle), done)
            },
            ServerRuntime::Connecting { handle } => {
                let receipt = abort_task(&handle);
                let done = Ghost(Seq::empty().push(receipt@));
                assert(ops_of(done@) =~= shutdown_ops_of(ServerRuntime::Connecting { handle }));
                (ShutdownWait::Aborted(handle), done)
            },
            ServerRuntime::Disconnecting { handle } => {
                let done = Ghost(Seq::empty());
                assert(ops_of(done@) =~= Seq::<ConnectionOp>::empty());
                (ShutdownWait::Bounded(handle), done)
            },
            ServerRuntime::Disconnected => {
                let done = Ghost(Seq::empty());
                assert(ops_of(done@) =~= Seq::<ConnectionOp>::empty());
                (ShutdownWait::Nothing, done)
            },
            ServerRuntime::Failed { .. } => {
                let done = Ghost(Seq::empty());
                assert(ops_of(done@) =~= Seq::<ConnectionOp>::empty());
                (ShutdownWait::Nothing, done)
            },
        }
    }
}

/// Maps the outcome of handing a command to the connection task to the
/// library's result.
pub fn send_outcome(sent: Result<(), ServerCommand>) -> (r: Result<(), KircError>)
    ensures
        sent is Ok ==> r == Ok::<(), KircError>(()),
        sent is Err ==> r == Err::<(), KircError>(KircError::SendFailed),
{
    match sent {
        Ok(()) => Ok(()),
        Err(_) => Err(KircError::SendFailed),
    }
}

/// A server as plain values: its phase, configuration, channels, the
/// nickname it currently uses, and what has been done to its connection
/// tasks, oldest first.
pub struct ServerView {
    pub runtime: ServerRuntime,
    pub config: ServerConfig,
    pub channels: Map<Seq<char>, ChannelView>,
    pub nickname: Seq<char>,
    pub sent: Seq<ConnectionOp>,
}

/// The server after a command is handed to its connection: recorded when
/// the server takes commands, else nothing happens.
pub open spec fn after_command(s: ServerView, c: SentCommand) -> ServerView {
    if runtime_takes_commands(s.runtime) {
        ServerView { sent: s.sent.push(ConnectionOp::Send(c)), ..s }
    } else {
        s
    }
}

/// The server after the user disconnects it: a registering or connected
/// server is handed `Quit` and starts disconnecting; any other is left as
/// it is.
pub open spec fn after_disconnect(s: ServerView) -> ServerView {
    ServerView {
        runtime: disconnecting_runtime(s.runtime),
        ..after_command(s, SentCommand::Quit)
    }
}

/// The server after a connection attempt is cancelled: a connecting task is
/// aborted; the server is disconnected whatever its phase was.
pub open spec fn after_abort_connecting(s: ServerView) -> ServerView {
    ServerView {
        runtime: ServerRuntime::Disconnected,
        sent: if s.runtime is Connecting {
            s.sent.push(ConnectionOp::Abort)
        } else {
            s.sent
        },
        ..s
    }
}

/// Everything the client keeps about one server.
pub struct ServerState {
    runtime: ServerRuntime,
    config: ServerConfig,
    channels: ChannelTable,
    current_nickname: String,
    sent: Ghost<Seq<Receipt>>,
}

impl View for ServerState {
    type V = ServerView;

    closed spec fn view(&self) -> ServerView {
        ServerView {
            runtime: self.runtime,
            config: self.config,
            channels: self.channels@,
            nickname: self.current_nickname@,
            sent: ops_of(self.sent@),
        }
    }
}

impl ServerState {
    pub fn new(runtime: ServerRuntime, config: ServerConfig) -> (s: Self)
        ensures
            s@ == (ServerView {
                runtime,
                config,
                channels: Map::empty(),
                nickname: config.spec_nickname(),
                sent: Seq::empty(),
            }),
    {
        let current_nickname = config.nickname().to_owned();
        let s = ServerState {
            runtime,
            config,
            channels: ChannelTable::new(),
            current_nickname,
            sent: Ghost(Seq::empty()),
        };
        assert(ops_of(s.sent@) =~= Seq::<ConnectionOp>::empty());
        s
    }

    /// A disconnected server with the given channels.
    pub fn with_channel(config: ServerConfig, channels: ChannelTable) -> (s: Self)
        ensures
            s@ == (ServerView {
                runtime: ServerRuntime::Disconnected,
                config,
                channels: channels@,
                nickname: config.spec_nickname(),
                sent: Seq::empty(),
            }),
    {
        let current_nickname = config.nickname().to_owned();
        let s = ServerState {
            runtime: ServerRuntime::Disconnected,
            config,
            channels,
            current_nickname,
            sent: Ghost(Seq::empty()),
        };
        assert(ops_of(s.sent@) =~= Seq::<ConnectionOp>::empty());
        s
    }

    pub fn status(&self) -> (s: ServerStatus)
        ensures
            s == runtime_status(self@.runtime),
    {
        self.runtime.status()
    }

    pub fn config(&self) -> (c: ServerConfig)
        ensures
            c == self@.config,
    {
        self.config.copied()
    }

    pub fn channels(&self) -> (t: ChannelTable)
        ensures
            t@ == self@.channels,
    {
        self.channels.copy()
    }

    /// The channel keys, each once.
    pub fn channel_names(&self) -> (names: Vec<String>)
        ensures
            crate::state::channel::lists_keys(names@, self@.channels),
    {
        self.channels.keys()
    }

    /// The channel keys with their lock flags, each once.
    pub fn channel_locks(&self) -> (list: Vec<(String, bool)>)
        ensures
            crate::state::channel::lists_channels(list@, self@.channels),
    {
        self.channels.lock_flags()
    }

    pub fn current_nickname(&self) -> (n: &str)
        ensures
            n@ == self@.nickname,
    {
        self.current_nickname.as_str()
    }

    pub fn set_current_nickname(&mut self, nickname: &str)
        ensures
            final(self)@ == (ServerView { nickname: nickname@, ..old(self)@ }),
    {
        self.current_nickname = nickname.to_owned();
    }

    /// Records the channel under its name, replacing an earlier record.
    pub fn insert_channel(&mut self, channel_name: &str, locked: bool)
        ensures
            final(self)@ == (ServerView {
                channels: old(self)@.channels.insert(
                    channel_name@,
                    ChannelView { name: channel_name@, locked },
                ),
                ..old(self)@
            }),
    {
        self.channels.insert(
            channel_name.to_owned(),
            ChannelState { name: channel_name.to_owned(), locked },
        );
    }

    pub fn remove_channel(&mut self, channel_name: &str)
        ensures
            final(self)@ == (ServerView {
                channels: old(self)@.channels.remove(channel_name@),
                ..old(self)@
            }),
    {
        self.channels.remove(channel_name);
    }

    /// Connecting, registering or connected.
    pub fn is_active(&self) -> (b: bool)
        ensures
            b == runtime_is_active(self@.runtime),
    {
        match &self.runtime {
            ServerRuntime::Connecting { .. } => true,
            ServerRuntime::Registering { .. } => true,
            ServerRuntime::Connected { .. } => true,
            _ => false,
        }
    }

    /// Whether the channel is known and locked.
    pub fn is_channel_locked(&self, channel: &str) -> (b: bool)
        ensures
            b == (self@.channels.contains_key(channel@) && self@.channels[channel@].locked),
    {
        self.channels.is_locked(channel)
    }

    /// Sets the lock flag of a known channel; an unknown channel is left out.
    pub fn set_channel_locked(&mut self, channel: &str, locked: bool)
        ensures
            old(self)@.channels.contains_key(channel@) ==> final(self)@ == (ServerView {
                channels: old(self)@.channels.insert(
                    channel@,
                    ChannelView { name: old(self)@.channels[channel@].name, locked },
                ),
                ..old(self)@
            }),
            !old(self)@.channels.contains_key(channel@) ==> final(self)@ == old(self)@,
    {
        self.channels.set_locked(channel, locked);
    }

    /// Hands a command to the connection task. Refused with `NotConnected`
    /// unless the server is registering or connected; otherwise the command
    /// is handed over, and it succeeds unless the task no longer takes
    /// commands.
    pub fn send_command(&mut self, cmd: ServerCommand) -> (r: Result<(), KircError>)
        ensures
            final(self)@ == after_command(old(self)@, command_view(cmd)),
            !runtime_takes_commands(old(self)@.runtime) ==> r == Err::<(), KircError>(
                KircError::NotConnected,
            ),
            runtime_takes_commands(old(self)@.runtime) ==> r == Ok::<(), KircError>(()) || r == Err::<
                (),
                KircError,
            >(KircError::SendFailed),
    {
        match &self.runtime {
            ServerRuntime::Connected { tx, .. } => {
                let (sent, receipt) = send_over(tx, cmd);
                self.sent = Ghost(self.sent@.push(receipt@));
                assert(ops_of(self.sent@) =~= ops_of(old(self).sent@).push(receipt_op(receipt@)));
                send_outcome(sent)
            },
            ServerRuntime::Registering { tx, .. } => {
                let (sent, receipt) = send_over(tx, cmd);
                self.sent = Ghost(self.sent@.push(receipt@));
                assert(ops_of(self.sent@) =~= ops_of(old(self).sent@).push(receipt_op(receipt@)));
                send_outcome(sent)
            },
            _ => Err(KircError::NotConnected),
        }
    }

    /// Disconnected or failed servers start connecting with the new task;
    /// from any other phase the server falls back to disconnected.
    pub fn transition_to_connecting(&mut self, handle: JoinHandle<()>)
        ensures
            final(self)@ == (ServerView {
                runtime: connecting_runtime(old(self)@.runtime, handle),
                ..old(self)@
            }),
    {
        let mut rt = ServerRuntime::Disconnected;
        std::mem::swap(&mut rt, &mut self.runtime);
        match rt {
            ServerRuntime::Disconnected => {
                self.runtime = ServerRuntime::Connecting { handle };
            },
            ServerRuntime::Failed { .. } => {
                self.runtime = ServerRuntime::Connecting { handle };
            },
            _ => {},
        }
    }

    /// A connecting server starts registering, keeping its task and taking
    /// the command queue; from any other phase it falls back to disconnected.
    pub fn transition_to_registering(&mut self, tx: UnboundedSender<ServerCommand>)
        ensures
            final(self)@ == (ServerView {
                runtime: registering_runtime(old(self)@.runtime, tx),
                ..old(self)@
            }),
    {
        let mut rt = ServerRuntime::Disconnected;
        std::mem::swap(&mut rt, &mut self.runtime);
        match rt {
            ServerRuntime::Connecting { handle } => {
                self.runtime = ServerRuntime::Registering { tx, handle };
            },
            _ => {},
        }
    }

    /// A registering server becomes connected, keeping its task and queue;
    /// from any other phase it falls back to disconnected.
    pub fn transition_to_connected(&mut self)
        ensures
            final(self)@ == (ServerView {
                runtime: connected_runtime(old(self)@.runtime),
                ..old(self)@
            }),
    {
        let mut rt = ServerRuntime::Disconnected;
        std::mem::swap(&mut rt, &mut self.runtime);
        match rt {
            ServerRuntime::Registering { tx, handle } => {
                self.runtime = ServerRuntime::Connected { tx, handle };
            },
            _ => {},
        }
    }

    pub fn transition_to_disconnected(&mut self)
        ensures
            final(self)@ == (ServerView { runtime: ServerRuntime::Disconnected, ..old(self)@ }),
    {
        self.runtime = ServerRuntime::Disconnected;
    }

    pub fn transition_to_failed(&mut self, error: String)
        ensures
            final(self)@ == (ServerView { runtime: ServerRuntime::Failed { error }, ..old(self)@ }),
    {
        self.runtime = ServerRuntime::Failed { error };
    }

    /// A registering or connected server is handed `Quit` and starts
    /// disconnecting, keeping its task; any other phase is left as it is.
    pub fn disconnect(&mut self)
        ensures
            final(self)@ == after_disconnect(old(self)@),
    {
        let mut rt = ServerRuntime::Disconnected;
        std::mem::swap(&mut rt, &mut self.runtime);
        match rt {
            ServerRuntime::Registering { tx, handle } => {
                let (_, receipt) = send_over(&tx, ServerCommand::Quit);
                self.sent = Ghost(self.sent@.push(receipt@));
                assert(ops_of(self.sent@) =~= ops_of(old(self).sent@).push(receipt_op(receipt@)));
                self.runtime = ServerRuntime::Disconnecting { handle };
            },
            ServerRuntime::Connected { tx, handle } => {
                let (_, receipt) = send_over(&tx, ServerCommand::Quit);
                self.sent = Ghost(self.sent@.push(receipt@));
                assert(ops_of(self.sent@) =~= ops_of(old(self).sent@).push(receipt_op(receipt@)));
                self.runtime = ServerRuntime::Disconnecting { handle };
            },
            other => {
                self.runtime = other;
            },
        }
    }

    /// A connecting server has its task aborted and becomes disconnected,
    /// answering `true`; any other phase also falls back to disconnected,
    /// answering `false`.
    pub fn abort_connecting(&mut self) -> (aborted: bool)
        ensures
            aborted == (old(self)@.runtime is Connecting),
            final(self)@ == after_abort_connecting(old(self)@),
    {
        let mut rt = ServerRuntime::Disconnected;
        std::mem::swap(&mut rt, &mut self.runtime);
        match rt {
            ServerRuntime::Connecting { handle } => {
                let receipt = abort_task(&handle);
                self.sent = Ghost(self.sent@.push(receipt@));
                assert(ops_of(self.sent@) =~= ops_of(old(self).sent@).push(receipt_op(receipt@)));
                true
            },
            _ => false,
        }
    }

    /// Hands out the runtime, leaving the server disconnected.
    pub fn take_runtime(&mut self) -> (r: ServerRuntime)
        ensures
            r == old(self)@.runtime,
            final(self)@ == (ServerView { runtime: ServerRuntime::Disconnected, ..old(self)@ }),
    {
        let mut rt = ServerRuntime::Disconnected;
        std::mem::swap(&mut rt, &mut self.runtime);
        rt
    }
}

/// The connection lifecycle: from disconnected (or failed), starting a task,
/// opening the connection and being welcomed leads to connected with that
/// task and queue; disconnecting then leaves only the task to wait for, and
/// the status passes Connecting, Registering, Connected, Disconnecting.
pub proof fn law_connection_lifecycle(
    r: ServerRuntime,
    handle: JoinHandle<()>,
    tx: UnboundedSender<ServerCommand>,
)
    requires
        r is Disconnected || r is Failed,
    ensures
        ({
            let c = connecting_runtime(r, handle);
            let g = registering_runtime(c, tx);
            let w = connected_runtime(g);
            let d = disconnecting_runtime(w);
            &&& runtime_status(c) == ServerStatus::Connecting
            &&& runtime_status(g) == ServerStatus::Registering
            &&& w == ServerRuntime::Connected { tx, handle }
            &&& runtime_status(w) == ServerStatus::Connected
            &&& d == ServerRuntime::Disconnecting { handle }
            &&& runtime_status(d) == ServerStatus::Disconnecting
        }),
{
}

/// A server is connected only after registering, registers only after
/// connecting, and starts connecting only from disconnected or failed; a step
/// out of order leaves it disconnected.
pub proof fn law_transitions_in_order(r: ServerRuntime, handle: JoinHandle<()>, tx: UnboundedSender<ServerCommand>)
    ensures
        connected_runtime(r) is Connected <==> r is Registering,
        registering_runtime(r, tx) is Registering <==> r is Connecting,
        connecting_runtime(r, handle) is Connecting <==> (r is Disconnected || r is Failed),
        !(connected_runtime(r) is Connected) ==> connected_runtime(r) is Disconnected,
        !(registering_runtime(r, tx) is Registering) ==> registering_runtime(r, tx) is Disconnected,
        !(connecting_runtime(r, handle) is Connecting) ==> connecting_runtime(r, handle) is Disconnected,
{
}

/// Only a registering or connected server takes commands, and exactly the
/// connecting, registering and connected ones count as active.
pub proof fn law_active_and_commands(r: ServerRuntime)
    ensures
        runtime_takes_commands(r) <==> (runtime_status(r) == ServerStatus::Registering || runtime_status(r)
            == ServerStatus::Connected),
        runtime_is_active(r) <==> (runtime_status(r) == ServerStatus::Connecting || runtime_status(r)
            == ServerStatus::Registering || runtime_status(r) == ServerStatus::Connected),
        runtime_takes_commands(r) ==> runtime_is_active(r),
{
}

} // verus!
