use vstd::prelude::*;
use crate::error::KircError;
use crate::trusted::utc_now_millis;
use crate::types::ServerStatus;

verus! {

/// An IRC event shown to the user.
pub enum UiEvent {
    UserMessage { server_id: u128, channel: String, nick: String, content: String, timestamp: u64 },
    Join { server_id: u128, channel: String, nick: String },
    Part { server_id: u128, channel: String, nick: String, reason: Option<String> },
    Quit { server_id: u128, nick: String, reason: Option<String> },
    Nick { server_id: u128, old_nick: String, new_nick: String },
    Topic { server_id: u128, channel: String, topic: Option<String> },
    Error { server_id: u128, message: String },
}

/// An optional text as plain characters.
pub open spec fn opt_text(o: Option<String>) -> Option<Seq<char>> {
    match o {
        Some(s) => Some(s@),
        None => None,
    }
}

/// A user-interface event as plain values.
pub enum UiEventView {
    UserMessage {
        server_id: u128,
        channel: Seq<char>,
        nick: Seq<char>,
        content: Seq<char>,
        timestamp: u64,
    },
    Join { server_id: u128, channel: Seq<char>, nick: Seq<char> },
    Part { server_id: u128, channel: Seq<char>, nick: Seq<char>, reason: Option<Seq<char>> },
    Quit { server_id: u128, nick: Seq<char>, reason: Option<Seq<char>> },
    Nick { server_id: u128, old_nick: Seq<char>, new_nick: Seq<char> },
    Topic { server_id: u128, channel: Seq<char>, topic: Option<Seq<char>> },
    Error { server_id: u128, message: Seq<char> },
}

impl View for UiEvent {
    type V = UiEventView;

    open spec fn view(&self) -> UiEventView {
        match self {
            UiEvent::UserMessage { server_id, channel, nick, content, timestamp } => UiEventView::UserMessage {
                server_id: *server_id,
                channel: channel@,
                nick: nick@,
                content: content@,
                timestamp: *timestamp,
            },
            UiEvent::Join { server_id, channel, nick } => UiEventView::Join {
                server_id: *server_id,
                channel: channel@,
                nick: nick@,
            },
            UiEvent::Part { server_id, channel, nick, reason } => UiEventView::Part {
                server_id: *server_id,
                channel: channel@,
                nick: nick@,
                reason: opt_text(*reason),
            },
            UiEvent::Quit { server_id, nick, reason } => UiEventView::Quit {
                server_id: *server_id,
                nick: nick@,
                reason: opt_text(*reason),
            },
            UiEvent::Nick { server_id, old_nick, new_nick } => UiEventView::Nick {
                server_id: *server_id,
                old_nick: old_nick@,
                new_nick: new_nick@,
            },
            UiEvent::Topic { server_id, channel, topic } => UiEventView::Topic {
                server_id: *server_id,
                channel: channel@,
                topic: opt_text(*topic),
            },
            UiEvent::Error { server_id, message } => UiEventView::Error {
                server_id: *server_id,
                message: message@,
            },
        }
    }
}

/// Builds one `UiEvent`; emitting it needs its payload set.
pub struct UiEventBuilder {
    pub payload: Option<UiEvent>,
}

impl UiEventBuilder {
    pub fn new() -> (b: Self)
        ensures
            b.payload is None,
    {
        UiEventBuilder { payload: None }
    }

    /// The event to emit; `MissingPayload` when none was set.
    pub fn emit(self) -> (r: Result<UiEvent, KircError>)
        ensures
            match self.payload {
                Some(e) => r == Ok::<UiEvent, KircError>(e),
                None => r == Err::<UiEvent, KircError>(KircError::MissingPayload),
            },
    {
        match self.payload {
            Some(e) => Ok(e),
            None => Err(KircError::MissingPayload),
        }
    }

    /// A user's message, stamped with the given time.
    pub fn user_message_at(
        self,
        server_id: u128,
        channel: String,
        nickname: String,
        content: String,
        timestamp: u64,
    ) -> (b: Self)
        ensures
            b.payload == Some(
                UiEvent::UserMessage { server_id, channel, nick: nickname, content, timestamp },
            ),
    {
        UiEventBuilder {
            payload: Some(
                UiEvent::UserMessage { server_id, channel, nick: nickname, content, timestamp },
            ),
        }
    }

    /// A user's message, stamped with the current time in milliseconds.
    pub fn user_message(self, server_id: u128, channel: String, nickname: String, content: String) -> (b: Self)
        ensures
            b.payload matches Some(UiEvent::UserMessage { server_id: s, channel: c, nick: n, content: t, .. })
                && s == server_id && c == channel && n == nickname && t == content,
    {
        let now: i64 = utc_now_millis();
        self.user_message_at(server_id, channel, nickname, content, now as u64)
    }

    pub fn join(self, server_id: u128, channel: String, nickname: String) -> (b: Self)
        ensures
            b.payload == Some(UiEvent::Join { server_id, channel, nick: nickname }),
    {
        UiEventBuilder { payload: Some(UiEvent::Join { server_id, channel, nick: nickname }) }
    }

    pub fn part(self, server_id: u128, channels: String, nickname: String, reason: Option<String>) -> (b: Self)
        ensures
            b.payload == Some(UiEvent::Part { server_id, channel: channels, nick: nickname, reason }),
    {
        UiEventBuilder {
            payload: Some(UiEvent::Part { server_id, channel: channels, nick: nickname, reason }),
        }
    }

    pub fn quit(self, server_id: u128, nickname: String, reason: Option<String>) -> (b: Self)
        ensures
            b.payload == Some(UiEvent::Quit { server_id, nick: nickname, reason }),
    {
        UiEventBuilder { payload: Some(UiEvent::Quit { server_id, nick: nickname, reason }) }
    }

    pub fn nick(self, server_id: u128, old_nick: String, new_nick: String) -> (b: Self)
        ensures
            b.payload == Some(UiEvent::Nick { server_id, old_nick, new_nick }),
    {
        UiEventBuilder { payload: Some(UiEvent::Nick { server_id, old_nick, new_nick }) }
    }

    pub fn topic(self, server_id: u128, channel: String, topic: Option<String>) -> (b: Self)
        ensures
            b.payload == Some(UiEvent::Topic { server_id, channel, topic }),
    {
        UiEventBuilder { payload: Some(UiEvent::Topic { server_id, channel, topic }) }
    }

    pub fn error(self, server_id: u128, message: String) -> (b: Self)
        ensures
            b.payload == Some(UiEvent::Error { server_id, message }),
    {
        UiEventBuilder { payload: Some(UiEvent::Error { server_id, message }) }
    }
}

/// Announces a newly added server.
pub struct ServerDetail {
    pub server_id: u128,
    pub host: String,
    pub port: u16,
    pub tls: bool,
    pub nickname: String,
    pub status: ServerStatus,
}

impl ServerDetail {
    pub fn new(
        server_id: u128,
        host: String,
        port: u16,
        tls: bool,
        nickname: String,
        status: ServerStatus,
    ) -> (d: Self)
        ensures
            d == (ServerDetail { server_id, host, port, tls, nickname, status }),
    {
        ServerDetail { server_id, host, port, tls, nickname, status }
    }
}

/// Announces the status of a server.
pub struct ServerStatusPayload {
    pub server_id: u128,
    pub status: ServerStatus,
}

impl ServerStatusPayload {
    pub fn new(server_id: u128, status: ServerStatus) -> (p: Self)
        ensures
            p == (ServerStatusPayload { server_id, status }),
    {
        ServerStatusPayload { server_id, status }
    }
}

/// Announces that a channel was locked or unlocked.
pub struct ChannelLockChangedEvent {
    pub server_id: u128,
    pub channel: String,
    pub locked: bool,
}

impl ChannelLockChangedEvent {
    pub fn new(server_id: u128, channel: String, locked: bool) -> (e: Self)
        ensures
            e == (ChannelLockChangedEvent { server_id, channel, locked }),
    {
        ChannelLockChangedEvent { server_id, channel, locked }
    }
}

/// A message of the client itself about a server.
pub struct SystemMessagePayload {
    pub server_id: u128,
    pub message: String,
}

impl SystemMessagePayload {
    pub fn new(server_id: u128, message: &str) -> (p: Self)
        ensures
            p.server_id == server_id,
            p.message@ == message@,
    {
        SystemMessagePayload { server_id, message: message.to_owned() }
    }
}

} // verus!
