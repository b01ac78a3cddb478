use vstd::prelude::*;
use crate::ctcp::{
    after_first_word, ctcp_body, ctcp_delim, ctcp_reply_at, ctcp_reply_text, first_word, is_ctcp_framed, parse_ctcp,
    parsed_ctcp,
};
use crate::error::KircError;
use crate::events::{opt_text, UiEvent, UiEventBuilder, UiEventView};
use crate::manager::{with_server, KircManager, ManagerView};
use crate::state::channel::lists_keys;
use crate::state::channel::ChannelView;
use crate::state::server::{connected_runtime, registering_runtime, ConnectionOp, SentCommand, ServerRuntime, ServerView};
use crate::trusted::{local_now_rfc2822, name_part, prefix_nickname, privmsg_echo, uppercase, utc_now_millis};
use tokio::sync::mpsc::UnboundedSender;
use crate::types::{ServerCommand, ServerStatus};

verus! {

/// The commands of an incoming IRC message that the client acts on.
pub enum IrcCommand {
    Privmsg { target: String, content: String },
    Join { channels: String },
    Part { channels: String, comment: Option<String> },
    Quit { comment: Option<String> },
    Nick { nickname: String },
    Topic { channel: String, topic: Option<String> },
    Error { message: String },
    Welcome,
    NicknameInUse,
    Other,
}

/// An incoming IRC message: who sent it, if a nickname is known, and what it
/// says.
pub struct IrcMessage {
    pub source_nickname: Option<String>,
    pub command: IrcCommand,
}

/// An IRC command as plain values.
pub enum IrcCommandView {
    Privmsg { target: Seq<char>, content: Seq<char> },
    Join { channels: Seq<char> },
    Part { channels: Seq<char>, comment: Option<Seq<char>> },
    Quit { comment: Option<Seq<char>> },
    Nick { nickname: Seq<char> },
    Topic { channel: Seq<char>, topic: Option<Seq<char>> },
    Error { message: Seq<char> },
    Welcome,
    NicknameInUse,
    Other,
}

/// An IRC message as plain values.
pub struct IrcMessageView {
    pub source: Option<Seq<char>>,
    pub command: IrcCommandView,
}

impl View for IrcMessage {
    type V = IrcMessageView;

    open spec fn view(&self) -> IrcMessageView {
        IrcMessageView {
            source: opt_text(self.source_nickname),
            command: match self.command {
                IrcCommand::Privmsg { target, content } => IrcCommandView::Privmsg {
                    target: target@,
                    content: content@,
                },
                IrcCommand::Join { channels } => IrcCommandView::Join { channels: channels@ },
                IrcCommand::Part { channels, comment } => IrcCommandView::Part {
                    channels: channels@,
                    comment: opt_text(comment),
                },
                IrcCommand::Quit { comment } => IrcCommandView::Quit { comment: opt_text(comment) },
                IrcCommand::Nick { nickname } => IrcCommandView::Nick { nickname: nickname@ },
                IrcCommand::Topic { channel, topic } => IrcCommandView::Topic {
                    channel: channel@,
                    topic: opt_text(topic),
                },
                IrcCommand::Error { message } => IrcCommandView::Error { message: message@ },
                IrcCommand::Welcome => IrcCommandView::Welcome,
                IrcCommand::NicknameInUse => IrcCommandView::NicknameInUse,
                IrcCommand::Other => IrcCommandView::Other,
            },
        }
    }
}

/// What the connection task does after a message or command.
pub enum ActorEffect {
    /// Emit an event to the user interface.
    Ui(UiEvent),
    /// Send a `NOTICE` with `text` to `target` (a CTCP reply).
    Notice { target: String, text: String },
    /// Announce the server's status.
    Status(ServerStatus),
    /// Show a message of the client itself.
    System(String),
    /// Announce that the nickname could not be changed.
    NickChangeFailed(String),
}

/// An effect as plain values.
pub enum ActorEffectView {
    Ui(UiEventView),
    Notice { target: Seq<char>, text: Seq<char> },
    Status(ServerStatus),
    System(Seq<char>),
    NickChangeFailed(Seq<char>),
}

impl View for ActorEffect {
    type V = ActorEffectView;

    open spec fn view(&self) -> ActorEffectView {
        match self {
            ActorEffect::Ui(e) => ActorEffectView::Ui(e@),
            ActorEffect::Notice { target, text } => ActorEffectView::Notice {
                target: target@,
                text: text@,
            },
            ActorEffect::Status(s) => ActorEffectView::Status(*s),
            ActorEffect::System(t) => ActorEffectView::System(t@),
            ActorEffect::NickChangeFailed(t) => ActorEffectView::NickChangeFailed(t@),
        }
    }
}

/// The effects as plain values.
pub open spec fn effects_view(v: Seq<ActorEffect>) -> Seq<ActorEffectView> {
    v.map_values(|e: ActorEffect| e@)
}

/// The text shown when the server has welcomed the client.
pub open spec fn welcome_text() -> Seq<char> {
    "서버에 연결되었습니다."@
}

/// The sender's nickname, empty when unknown.
pub open spec fn source_of(m: IrcMessageView) -> Seq<char> {
    match m.source {
        Some(s) => s,
        None => Seq::empty(),
    }
}

/// The effects of a message of server `id`, given the time stamp for user
/// messages and the local time for CTCP `TIME` replies.
pub open spec fn message_effects(id: u128, m: IrcMessageView, timestamp: u64, local_time: Seq<char>) -> Seq<
    ActorEffectView,
> {
    let src = source_of(m);
    match m.command {
        IrcCommandView::Privmsg { target, content } => match parsed_ctcp(content) {
            Some(c) => match ctcp_reply_text(c, local_time) {
                Some(t) => seq![ActorEffectView::Notice { target: src, text: t }],
                None => Seq::empty(),
            },
            None => seq![
                ActorEffectView::Ui(
                    UiEventView::UserMessage {
                        server_id: id,
                        channel: target,
                        nick: src,
                        content,
                        timestamp,
                    },
                ),
            ],
        },
        IrcCommandView::Join { channels } => seq![
            ActorEffectView::Ui(UiEventView::Join { server_id: id, channel: channels, nick: src }),
        ],
        IrcCommandView::Part { channels, comment } => seq![
            ActorEffectView::Ui(
                UiEventView::Part { server_id: id, channel: channels, nick: src, reason: comment },
            ),
        ],
        IrcCommandView::Quit { comment } => seq![
            ActorEffectView::Ui(UiEventView::Quit { server_id: id, nick: src, reason: comment }),
        ],
        IrcCommandView::Nick { nickname } => seq![
            ActorEffectView::Ui(
                UiEventView::Nick { server_id: id, old_nick: src, new_nick: nickname },
            ),
        ],
        IrcCommandView::Topic { channel, topic } => seq![
            ActorEffectView::Ui(UiEventView::Topic { server_id: id, channel, topic }),
        ],
        IrcCommandView::Error { message } => seq![
            ActorEffectView::Ui(UiEventView::Error { server_id: id, message }),
        ],
        IrcCommandView::Welcome => seq![
            ActorEffectView::Status(ServerStatus::Connected),
            ActorEffectView::System(welcome_text()),
        ],
        IrcCommandView::NicknameInUse => Seq::empty(),
        IrcCommandView::Other => Seq::empty(),
    }
}

/// The client after a message of server `id` other than a welcome: a `NICK`
/// from the client's own nickname takes the new one; nothing else changes
/// the state.
pub open spec fn state_after_message(old: ManagerView, id: u128, m: IrcMessageView) -> ManagerView {
    if old.state.servers.contains_key(id) {
        let s = old.state.servers[id];
        match m.command {
            IrcCommandView::Nick { nickname } => if s.nickname == source_of(m) {
                with_server(old, id, ServerView { nickname, ..s })
            } else {
                old
            },
            _ => old,
        }
    } else {
        old
    }
}

/// The `JOIN`s of the channels named, in order, as handed to a connection.
pub open spec fn join_ops(names: Seq<Seq<char>>) -> Seq<ConnectionOp> {
    names.map_values(|n: Seq<char>| ConnectionOp::Send(SentCommand::Join(n)))
}

/// `names` holds each channel key of `channels` once, and nothing else.
pub open spec fn names_channels(names: Seq<Seq<char>>, channels: Map<Seq<char>, ChannelView>) -> bool {
    &&& names.no_duplicates()
    &&& names.to_set() == channels.dom()
}

/// The server after a welcome: connected (from registering; from any other
/// phase disconnected), with the `JOIN`s of the first `k` of `names` handed
/// to its connection.
pub open spec fn welcomed_server(s: ServerView, names: Seq<Seq<char>>, k: int) -> ServerView {
    ServerView { runtime: connected_runtime(s.runtime), sent: s.sent + join_ops(names.take(k)), ..s }
}

/// How rejoining `n` channels ends after `k` `JOIN`s were handed over: a
/// server that becomes connected takes all `n` and answers `Ok`, or stops
/// after the `k`-th, which its task refused, with `SendFailed`; a server
/// that does not become connected takes none and refuses the first with
/// `NotConnected`.
pub open spec fn rejoin_outcome(s: ServerView, n: int, k: int, r: Result<(), KircError>) -> bool {
    if connected_runtime(s.runtime) is Connected {
        ||| r is Ok && k == n
        ||| r == Err::<(), KircError>(KircError::SendFailed) && 1 <= k <= n
    } else {
        &&& k == 0
        &&& n == 0 ==> r is Ok
        &&& n > 0 ==> r == Err::<(), KircError>(KircError::NotConnected)
    }
}

/// The client `new` after a welcome of server `id`, rejoining having ended
/// with `r`: the server becomes connected and a `JOIN` of each recorded
/// channel is handed over, in some order, up to the first refused one; an
/// unknown server changes nothing.
pub open spec fn welcome_step(old: ManagerView, id: u128, new: ManagerView, r: Result<(), KircError>) -> bool {
    if old.state.servers.contains_key(id) {
        let s = old.state.servers[id];
        exists|names: Seq<Seq<char>>, k: int|
            #![trigger welcomed_server(s, names, k)]
            names_channels(names, s.channels) && 0 <= k <= names.len() && new == with_server(
                old,
                id,
                welcomed_server(s, names, k),
            ) && rejoin_outcome(s, names.len() as int, k, r)
    } else {
        new == old && r is Ok
    }
}

/// The client `new` after message `m` of server `id`, the handling having
/// ended with `r`: a welcome as `welcome_step` says; any other message as
/// `state_after_message` says, and it always succeeds.
pub open spec fn message_step(
    old: ManagerView,
    id: u128,
    m: IrcMessageView,
    new: ManagerView,
    r: Result<(), KircError>,
) -> bool {
    if m.command is Welcome {
        welcome_step(old, id, new, r)
    } else {
        new == state_after_message(old, id, m) && r is Ok
    }
}

/// Whether an answer succeeded, and its error.
pub open spec fn outcome_of(r: Result<Vec<ActorEffect>, KircError>) -> Result<(), KircError> {
    match r {
        Ok(_) => Ok(()),
        Err(e) => Err(e),
    }
}

/// What handling message `m` of server `id` answers when it succeeds, with
/// `timestamp` and `local_time` as the times: the effects of the message.
pub open spec fn message_outcome(
    id: u128,
    m: IrcMessageView,
    timestamp: u64,
    local_time: Seq<char>,
    r: Result<Vec<ActorEffect>, KircError>,
) -> bool {
    r matches Ok(v) ==> effects_view(v@) == message_effects(id, m, timestamp, local_time)
}

/// The message can be handled: a private message that is the lone CTCP
/// delimiter cannot.
pub open spec fn message_is_handled(m: IrcMessageView) -> bool {
    !(m.command matches IrcCommandView::Privmsg { content, .. } && content == seq![ctcp_delim()])
}

impl KircManager {
    /// Handles a message that server `server_id` sent, with `timestamp` as
    /// the time of user messages and `local_time` as the time in CTCP `TIME`
    /// replies. Answers the effects to carry out, in order. A welcome rejoins
    /// every recorded channel; a refused `JOIN` stops with its error.
    pub fn handle_message_at(
        &mut self,
        server_id: u128,
        message: IrcMessage,
        timestamp: u64,
        local_time: &str,
    ) -> (r: Result<Vec<ActorEffect>, KircError>)
        requires
            message_is_handled(message@),
        ensures
            message_step(old(self)@, server_id, message@, final(self)@, outcome_of(r)),
            message_outcome(server_id, message@, timestamp, local_time@, r),
    {
        let ghost mv = message@;
        let source = match &message.source_nickname {
            Some(s) => s.clone(),
            None => String::new(),
        };
        assert(source@ == source_of(mv));
        match message.command {
            IrcCommand::Privmsg { target, content } => {
                let mut effects: Vec<ActorEffect> = Vec::new();
                match parse_ctcp(content.as_str()) {
                    Some(ctcp) => {
                        match ctcp_reply_at(&ctcp, local_time) {
                            Some(text) => {
                                effects.push(ActorEffect::Notice { target: source, text });
                            },
                            None => {},
                        }
                    },
                    None => {
                        let ev = UiEventBuilder::new().user_message_at(
                            server_id,
                            target,
                            source,
                            content,
                            timestamp,
                        ).emit();
                        match ev {
                            Ok(e) => effects.push(ActorEffect::Ui(e)),
                            Err(_) => {},
                        }
                    },
                }
                assert(effects_view(effects@) =~= message_effects(server_id, mv, timestamp, local_time@));
                Ok(effects)
            },
            IrcCommand::Join { channels } => {
                let mut effects: Vec<ActorEffect> = Vec::new();
                effects.push(ActorEffect::Ui(UiEvent::Join { server_id, channel: channels, nick: source }));
                assert(effects_view(effects@) =~= message_effects(server_id, mv, timestamp, local_time@));
                Ok(effects)
            },
            IrcCommand::Part { channels, comment } => {
                let mut effects: Vec<ActorEffect> = Vec::new();
                effects.push(
                    ActorEffect::Ui(
                        UiEvent::Part { server_id, channel: channels, nick: source, reason: comment },
                    ),
                );
                assert(effects_view(effects@) =~= message_effects(server_id, mv, timestamp, local_time@));
                Ok(effects)
            },
            IrcCommand::Quit { comment } => {
                let mut effects: Vec<ActorEffect> = Vec::new();
                effects.push(ActorEffect::Ui(UiEvent::Quit { server_id, nick: source, reason: comment }));
                assert(effects_view(effects@) =~= message_effects(server_id, mv, timestamp, local_time@));
                Ok(effects)
            },
            IrcCommand::Nick { nickname } => {
                self.adopt_nickname(server_id, source.as_str(), nickname.as_str());
                let mut effects: Vec<ActorEffect> = Vec::new();
                effects.push(
                    ActorEffect::Ui(UiEvent::Nick { server_id, old_nick: source, new_nick: nickname }),
                );
                assert(effects_view(effects@) =~= message_effects(server_id, mv, timestamp, local_time@));
                Ok(effects)
            },
            IrcCommand::Topic { channel, topic } => {
                let mut effects: Vec<ActorEffect> = Vec::new();
                effects.push(ActorEffect::Ui(UiEvent::Topic { server_id, channel, topic }));
                assert(effects_view(effects@) =~= message_effects(server_id, mv, timestamp, local_time@));
                Ok(effects)
            },
            IrcCommand::Error { message } => {
                let mut effects: Vec<ActorEffect> = Vec::new();
                effects.push(ActorEffect::Ui(UiEvent::Error { server_id, message }));
                assert(effects_view(effects@) =~= message_effects(server_id, mv, timestamp, local_time@));
                Ok(effects)
            },
            IrcCommand::Welcome => {
                match self.welcome(server_id) {
                    Ok(()) => {
                        let mut effects: Vec<ActorEffect> = Vec::new();
                        effects.push(ActorEffect::Status(ServerStatus::Connected));
                        effects.push(ActorEffect::System(String::from_str("서버에 연결되었습니다.")));
                        assert(effects_view(effects@) =~= message_effects(server_id, mv, timestamp, local_time@));
                        Ok(effects)
                    },
                    Err(e) => Err(e),
                }
            },
            IrcCommand::NicknameInUse => {
                let effects: Vec<ActorEffect> = Vec::new();
                assert(effects_view(effects@) =~= message_effects(server_id, mv, timestamp, local_time@));
                Ok(effects)
            },
            IrcCommand::Other => {
                let effects: Vec<ActorEffect> = Vec::new();
                assert(effects_view(effects@) =~= message_effects(server_id, mv, timestamp, local_time@));
                Ok(effects)
            },
        }
    }

    /// Handles a message that server `server_id` sent, stamping user messages
    /// with the current time and answering CTCP `TIME` with the local time.
    pub fn handle_message(&mut self, server_id: u128, message: IrcMessage) -> (r: Result<
        Vec<ActorEffect>,
        KircError,
    >)
        requires
            message_is_handled(message@),
        ensures
            message_step(old(self)@, server_id, message@, final(self)@, outcome_of(r)),
            exists|ts: u64, lt: Seq<char>| #[trigger] message_outcome(server_id, message@, ts, lt, r),
    {
        let now: i64 = utc_now_millis();
        let local = local_now_rfc2822();
        let ghost mv = message@;
        let r = self.handle_message_at(server_id, message, now as u64, local.as_str());
        assert(message_outcome(server_id, mv, now as u64, local@, r));
        r
    }

    /// Takes `nickname` as the server's nickname when `source` is the one in
    /// use.
    fn adopt_nickname(&mut self, server_id: u128, source: &str, nickname: &str)
        ensures
            final(self)@ == state_after_message(
                old(self)@,
                server_id,
                IrcMessageView {
                    source: Some(source@),
                    command: IrcCommandView::Nick { nickname: nickname@ },
                },
            ),
    {
        match self.take_server(server_id) {
            Some(mut server) => {
                let current = server.current_nickname().to_owned();
                let same = current == source.to_owned();
                if same {
                    server.set_current_nickname(nickname);
                }
                self.put_server(server_id, server);
                assert(final(self)@.state.servers =~= old(self)@.state.servers.insert(server_id, server@));
                if !same {
                    assert(final(self)@.state.servers =~= old(self)@.state.servers);
                }
            },
            None => {
                assert(final(self)@.state.servers =~= old(self)@.state.servers);
            },
        }
    }

    /// The server has welcomed the client: it becomes connected (from
    /// registering; from any other phase it falls back to disconnected) and
    /// every recorded channel is joined again, stopping at the first refused
    /// `JOIN`.
    fn welcome(&mut self, server_id: u128) -> (r: Result<(), KircError>)
        ensures
            welcome_step(old(self)@, server_id, final(self)@, r),
    {
        match self.take_server(server_id) {
            Some(mut server) => {
                let ghost s = server@;
                server.transition_to_connected();
                let names = server.channel_names();
                let ghost nv = names@.map_values(|x: String| x@);
                proof {
                    lemma_names_channels(names@, s.channels);
                    assert(s.sent + join_ops(nv.take(0)) =~= s.sent);
                }
                let ghost connected = server@.runtime is Connected;
                let n: usize = names.len();
                let mut result: Result<(), KircError> = Ok(());
                let mut i: usize = 0;
                while i < n && result.is_ok()
                    invariant
                        n == names@.len(),
                        nv == names@.map_values(|x: String| x@),
                        i <= n,
                        connected == (connected_runtime(s.runtime) is Connected),
                        server@ == welcomed_server(s, nv, if connected { i as int } else { 0 }),
                        connected ==> (result is Ok || (result == Err::<(), KircError>(KircError::SendFailed)
                            && i >= 1)),
                        !connected ==> (result is Ok <==> i == 0),
                        !connected && i > 0 ==> result == Err::<(), KircError>(KircError::NotConnected),
                    decreases n - i,
                {
                    result = server.send_command(ServerCommand::Join(names[i].clone()));
                    proof {
                        assert(join_ops(nv.take(i + 1)) =~= join_ops(nv.take(i as int)).push(
                            ConnectionOp::Send(SentCommand::Join(nv[i as int])),
                        ));
                        assert(s.sent + join_ops(nv.take(i + 1)) =~= (s.sent + join_ops(nv.take(i as int))).push(
                            ConnectionOp::Send(SentCommand::Join(nv[i as int])),
                        ));
                    }
                    i = i + 1;
                }
                let ghost k: int = if connected { i as int } else { 0 };
                self.put_server(server_id, server);
                assert(final(self)@.state.servers =~= old(self)@.state.servers.insert(server_id, server@));
                assert(final(self)@ == with_server(old(self)@, server_id, welcomed_server(s, nv, k)));
                result
            },
            None => {
                assert(final(self)@.state.servers =~= old(self)@.state.servers);
                Ok(())
            },
        }
    }
}

/// A list of the channel keys, each once, names each channel once.
proof fn lemma_names_channels(names: Seq<String>, channels: Map<Seq<char>, ChannelView>)
    requires
        lists_keys(names, channels),
    ensures
        names_channels(names.map_values(|x: String| x@), channels),
{
    let nv = names.map_values(|x: String| x@);
    assert forall|i: int, j: int| 0 <= i < nv.len() && 0 <= j < nv.len() && i != j implies nv[i] != nv[j] by {
        assert(nv[i] == names[i]@);
        assert(nv[j] == names[j]@);
    }
    assert forall|k: Seq<char>| nv.to_set().contains(k) <==> channels.dom().contains(k) by {
        if channels.contains_key(k) {
            let i = choose|i: int| 0 <= i < names.len() && #[trigger] names[i]@ == k;
            assert(nv[i] == k);
        }
        if nv.contains(k) {
            let i = choose|i: int| 0 <= i < nv.len() && nv[i] == k;
            assert(nv[i] == names[i]@);
        }
    }
    assert(nv.to_set() =~= channels.dom());
}

/// What the connection task sends to the IRC server for a command.
pub enum ClientAction {
    SendJoin(String),
    SendPrivmsg { target: String, message: String },
    SendPart(String),
    SendNick(String),
    SendQuit(String),
}

/// The connection task's step for one command: what to send, the echo of a
/// sent message to handle as if it had come in, and whether to stop.
pub struct CommandStep {
    pub action: ClientAction,
    pub echo: Option<IrcMessage>,
    pub stop: bool,
}

/// The connection task's step after a failure of the message stream: the
/// effects, and whether to stop.
pub struct StreamStep {
    pub effects: Vec<ActorEffect>,
    pub stop: bool,
}

/// The text announced when the nickname cannot be changed.
pub open spec fn nick_change_failed_text() -> Seq<char> {
    "Can't change nickname"@
}

/// The nickname the client uses on the server, empty when the server is
/// unknown.
pub open spec fn nickname_in(m: ManagerView, id: u128) -> Seq<char> {
    if m.state.servers.contains_key(id) {
        m.state.servers[id].nickname
    } else {
        Seq::empty()
    }
}

/// The client after a server's phase is set by `f` when the server is known.
pub open spec fn with_runtime(old: ManagerView, id: u128, rt: ServerRuntime) -> ManagerView {
    if old.state.servers.contains_key(id) {
        with_server(old, id, ServerView { runtime: rt, ..old.state.servers[id] })
    } else {
        old
    }
}

impl KircManager {
    /// The connection is open: a connecting server starts registering with
    /// the command queue (from any other phase it falls back to
    /// disconnected), and `Registering` is announced.
    pub fn on_connected(&mut self, server_id: u128, tx: UnboundedSender<ServerCommand>) -> (effects: Vec<ActorEffect>)
        ensures
            final(self)@ == if old(self)@.state.servers.contains_key(server_id) {
                with_runtime(
                    old(self)@,
                    server_id,
                    registering_runtime(old(self)@.state.servers[server_id].runtime, tx),
                )
            } else {
                old(self)@
            },
            effects_view(effects@) == seq![ActorEffectView::Status(ServerStatus::Registering)],
    {
        match self.take_server(server_id) {
            Some(mut server) => {
                server.transition_to_registering(tx);
                self.put_server(server_id, server);
                assert(final(self)@.state.servers =~= old(self)@.state.servers.insert(server_id, server@));
            },
            None => {
                assert(final(self)@.state.servers =~= old(self)@.state.servers);
            },
        }
        let mut effects: Vec<ActorEffect> = Vec::new();
        effects.push(ActorEffect::Status(ServerStatus::Registering));
        assert(effects_view(effects@) =~= seq![ActorEffectView::Status(ServerStatus::Registering)]);
        effects
    }

    /// The connection task has ended: the server becomes disconnected and
    /// `Disconnected` is announced.
    pub fn on_finished(&mut self, server_id: u128) -> (effects: Vec<ActorEffect>)
        ensures
            final(self)@ == with_runtime(old(self)@, server_id, ServerRuntime::Disconnected),
            effects_view(effects@) == seq![ActorEffectView::Status(ServerStatus::Disconnected)],
    {
        match self.take_server(server_id) {
            Some(mut server) => {
                server.transition_to_disconnected();
                self.put_server(server_id, server);
                assert(final(self)@.state.servers =~= old(self)@.state.servers.insert(server_id, server@));
            },
            None => {
                assert(final(self)@.state.servers =~= old(self)@.state.servers);
            },
        }
        let mut effects: Vec<ActorEffect> = Vec::new();
        effects.push(ActorEffect::Status(ServerStatus::Disconnected));
        assert(effects_view(effects@) =~= seq![ActorEffectView::Status(ServerStatus::Disconnected)]);
        effects
    }

    /// The connection could not be set up: the server fails with the message
    /// and `Failed` is announced.
    pub fn fail_state(&mut self, server_id: u128, message: String) -> (effects: Vec<ActorEffect>)
        ensures
            final(self)@ == with_runtime(old(self)@, server_id, ServerRuntime::Failed { error: message }),
            effects_view(effects@) == seq![ActorEffectView::Status(ServerStatus::Failed)],
    {
        match self.take_server(server_id) {
            Some(mut server) => {
                server.transition_to_failed(message);
                self.put_server(server_id, server);
                assert(final(self)@.state.servers =~= old(self)@.state.servers.insert(server_id, server@));
            },
            None => {
                assert(final(self)@.state.servers =~= old(self)@.state.servers);
            },
        }
        let mut effects: Vec<ActorEffect> = Vec::new();
        effects.push(ActorEffect::Status(ServerStatus::Failed));
        assert(effects_view(effects@) =~= seq![ActorEffectView::Status(ServerStatus::Failed)]);
        effects
    }

    /// The nickname the client uses on the server; empty when the server is
    /// unknown.
    pub fn current_nickname(&self, server_id: u128) -> (n: String)
        ensures
            n@ == nickname_in(self@, server_id),
    {
        match self.get_server(server_id) {
            Some(server) => server.current_nickname().to_owned(),
            None => String::new(),
        }
    }

    /// What the connection task does with a command: `JOIN`, `PRIVMSG`,
    /// `PART` and `NICK` are sent; a sent message is echoed back from the
    /// client's current nickname; `QUIT` is sent with "bye" and stops the task.
    pub fn on_command(&self, server_id: u128, cmd: ServerCommand) -> (step: CommandStep)
        ensures
            match cmd {
                ServerCommand::Join(ch) => step.action == ClientAction::SendJoin(ch) && step.echo is None
                    && !step.stop,
                ServerCommand::Privmsg { target, message } => {
                    &&& step.action == ClientAction::SendPrivmsg { target, message }
                    &&& !step.stop
                    &&& step.echo matches Some(m) && m@ == (IrcMessageView {
                        source: prefix_nickname(nickname_in(self@, server_id)),
                        command: IrcCommandView::Privmsg { target: target@, content: message@ },
                    })
                },
                ServerCommand::Part { channel_name } => step.action == ClientAction::SendPart(channel_name)
                    && step.echo is None && !step.stop,
                ServerCommand::Nick(n) => step.action == ClientAction::SendNick(n) && step.echo is None
                    && !step.stop,
                ServerCommand::Quit => (step.action matches ClientAction::SendQuit(t) && t@ == "bye"@)
                    && step.echo is None && step.stop,
            },
    {
        match cmd {
            ServerCommand::Join(ch) => CommandStep { action: ClientAction::SendJoin(ch), echo: None, stop: false },
            ServerCommand::Privmsg { target, message } => {
                let nick = self.current_nickname(server_id);
                let echo = privmsg_echo(nick.as_str(), target.as_str(), message.as_str());
                CommandStep { action: ClientAction::SendPrivmsg { target, message }, echo, stop: false }
            },
            ServerCommand::Part { channel_name } => CommandStep {
                action: ClientAction::SendPart(channel_name),
                echo: None,
                stop: false,
            },
            ServerCommand::Nick(n) => CommandStep { action: ClientAction::SendNick(n), echo: None, stop: false },
            ServerCommand::Quit => CommandStep {
                action: ClientAction::SendQuit(String::from_str("bye")),
                echo: None,
                stop: true,
            },
        }
    }
}

/// What the connection task does when the message stream fails: when no
/// nickname is usable (a nickname change was refused) it announces so and
/// goes on; any other failure stops it.
pub fn on_stream_error(no_usable_nick: bool) -> (step: StreamStep)
    ensures
        no_usable_nick ==> !step.stop && effects_view(step.effects@) == seq![
            ActorEffectView::NickChangeFailed(nick_change_failed_text()),
        ],
        !no_usable_nick ==> step.stop && step.effects@.len() == 0,
{
    let mut effects: Vec<ActorEffect> = Vec::new();
    if no_usable_nick {
        effects.push(ActorEffect::NickChangeFailed(String::from_str("Can't change nickname")));
        assert(effects_view(effects@) =~= seq![
            ActorEffectView::NickChangeFailed(nick_change_failed_text()),
        ]);
        StreamStep { effects, stop: false }
    } else {
        StreamStep { effects, stop: true }
    }
}

/// A message the client sends comes back as a user message in its target,
/// from the sender that its nickname parses to (empty when it parses to no
/// nickname), unless the text is framed as a CTCP request.
pub proof fn law_echo_is_shown(id: u128, nick: Seq<char>, target: Seq<char>, content: Seq<char>, timestamp: u64, local_time: Seq<char>)
    requires
        !is_ctcp_framed(content),
    ensures
        ({
            let echo = IrcMessageView {
                source: prefix_nickname(nick),
                command: IrcCommandView::Privmsg { target, content },
            };
            message_effects(id, echo, timestamp, local_time) == seq![
                ActorEffectView::Ui(
                    UiEventView::UserMessage {
                        server_id: id,
                        channel: target,
                        nick: match prefix_nickname(nick) {
                            Some(n) => n,
                            None => Seq::empty(),
                        },
                        content,
                        timestamp,
                    },
                ),
            ]
        }),
{
}

/// A nickname without `!` and `@` is its own name part.
proof fn lemma_name_part_plain(nick: Seq<char>)
    requires
        !nick.contains('!'),
        !nick.contains('@'),
    ensures
        name_part(nick) == nick,
    decreases nick.len(),
{
    if nick.len() > 0 {
        let rest = nick.drop_first();
        assert(nick[0] != '!' && nick[0] != '@') by {
            assert(nick.contains(nick[0]));
        }
        assert forall|i: int| 0 <= i < rest.len() implies rest[i] != '!' && rest[i] != '@' by {
            assert(nick[i + 1] == rest[i]);
            assert(nick.contains(nick[i + 1]));
        }
        lemma_name_part_plain(rest);
        assert(seq![nick[0]] + rest =~= nick);
    }
}

/// A message sent under a plain nickname, one without `!`, `@` and `.`,
/// comes back showing that nickname as its sender.
pub proof fn law_plain_nickname_is_shown(nick: Seq<char>)
    requires
        !nick.contains('!'),
        !nick.contains('@'),
        !nick.contains('.'),
    ensures
        prefix_nickname(nick) == Some(nick),
{
    lemma_name_part_plain(nick);
}

/// A welcome of a registering server that ends well leaves it connected,
/// with a `JOIN` of every recorded channel handed to its connection after
/// what was handed before, and nothing else.
pub proof fn law_welcome_rejoins_every_channel(old: ManagerView, id: u128, new: ManagerView)
    requires
        old.state.servers.contains_key(id),
        old.state.servers[id].runtime is Registering,
        welcome_step(old, id, new, Ok(())),
    ensures
        ({
            let s = old.state.servers[id];
            let t = new.state.servers[id];
            let added = t.sent.subrange(s.sent.len() as int, t.sent.len() as int);
            &&& t.runtime is Connected
            &&& t.channels == s.channels
            &&& t.sent.subrange(0, s.sent.len() as int) == s.sent
            &&& added.len() == s.channels.dom().len()
            &&& forall|name: Seq<char>|
                #[trigger] s.channels.contains_key(name) ==> added.contains(
                    ConnectionOp::Send(SentCommand::Join(name)),
                )
            &&& forall|j: int|
                0 <= j < added.len() ==> (#[trigger] added[j] matches ConnectionOp::Send(
                    SentCommand::Join(n),
                ) && s.channels.contains_key(n))
        }),
{
    let s = old.state.servers[id];
    let (names, k) = choose|names: Seq<Seq<char>>, k: int|
        #![trigger welcomed_server(s, names, k)]
        names_channels(names, s.channels) && 0 <= k <= names.len() && new == with_server(
            old,
            id,
            welcomed_server(s, names, k),
        ) && rejoin_outcome(s, names.len() as int, k, Ok(()));
    let t = new.state.servers[id];
    assert(names.take(k) =~= names);
    let added = t.sent.subrange(s.sent.len() as int, t.sent.len() as int);
    assert(added =~= join_ops(names));
    assert(t.sent.subrange(0, s.sent.len() as int) =~= s.sent);
    names.unique_seq_to_set();
    assert forall|name: Seq<char>| #[trigger] s.channels.contains_key(name) implies added.contains(
        ConnectionOp::Send(SentCommand::Join(name)),
    ) by {
        assert(names.to_set().contains(name));
        let i = choose|i: int| 0 <= i < names.len() && names[i] == name;
        assert(added[i] == ConnectionOp::Send(SentCommand::Join(name)));
    }
    assert forall|j: int| 0 <= j < added.len() implies (#[trigger] added[j] matches ConnectionOp::Send(
        SentCommand::Join(n),
    ) && s.channels.contains_key(n)) by {
        assert(added[j] == ConnectionOp::Send(SentCommand::Join(names[j])));
        assert(names.to_set().contains(names[j]));
    }
}

/// A `NICK` message of a known server changes the client's nickname there
/// exactly when it comes from the nickname the client uses there now,
/// whatever nickname was configured: the server then uses the new nickname
/// and nothing else changes; a `NICK` from anyone else changes nothing.
pub proof fn law_nick_follows_current_nickname(
    old: ManagerView,
    id: u128,
    m: IrcMessageView,
    new: ManagerView,
    r: Result<(), KircError>,
)
    requires
        old.state.servers.contains_key(id),
        m.command is Nick,
        message_step(old, id, m, new, r),
    ensures
        r is Ok,
        source_of(m) == old.state.servers[id].nickname ==> new == with_server(
            old,
            id,
            ServerView { nickname: m.command->nickname, ..old.state.servers[id] },
        ),
        source_of(m) == old.state.servers[id].nickname ==> new.state.servers[id].nickname
            == m.command->nickname,
        source_of(m) != old.state.servers[id].nickname ==> new == old,
        new.state.servers[id].config == old.state.servers[id].config,
{
}

/// A private message framed as a CTCP `PING` (its first word, uppercased, is
/// `PING`) is answered, to its sender, with `PING` and the whole text after
/// that word, spaces included, between the delimiters; nothing else happens.
pub proof fn law_ping_echoes_whole_payload(
    id: u128,
    m: IrcMessageView,
    timestamp: u64,
    local_time: Seq<char>,
)
    requires
        m.command is Privmsg,
        is_ctcp_framed(m.command->content),
        uppercase(first_word(ctcp_body(m.command->content))) == "PING"@,
    ensures
        message_effects(id, m, timestamp, local_time) == seq![
            ActorEffectView::Notice {
                target: source_of(m),
                text: "\x01PING "@ + after_first_word(ctcp_body(m.command->content)) + "\x01"@,
            },
        ],
{
    reveal_strlit("PING");
    reveal_strlit("VERSION");
    assert("PING"@ != "VERSION"@) by {
        assert("PING"@.len() != "VERSION"@.len());
    }
}

} // verus!
