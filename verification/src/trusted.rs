//! The calls this library makes into std and into other crates whose
//! behaviour is taken on trust: each item here states what the called
//! function's documentation promises, and no more.
use vstd::prelude::*;
use crate::actor::{IrcCommand, IrcCommandView, IrcMessage, IrcMessageView};
use crate::state::server::{command_view, ConnectionOp};

verus! {

/// What `str::to_uppercase` returns for a string: the Unicode uppercase
/// mapping of each character, concatenated.
pub uninterp spec fn uppercase(s: Seq<char>) -> Seq<char>;

/// Calls `str::to_uppercase`. Claimed: the result depends on the characters
/// of `s` alone; what the mapping is, is left to the name `uppercase`.
#[verifier::external_body]
pub(crate) fn to_uppercase(s: &str) -> (r: String)
    ensures
        r@ == uppercase(s@),
{
    s.to_uppercase()
}


/// The handle of a spawned connection task (`tokio::task::JoinHandle`),
/// carried through the state machine as an opaque value.
#[verifier::external_type_specification]
#[verifier::external_body]
#[verifier::reject_recursive_types(T)]
pub struct OpaqueJoinHandle<T>(tokio::task::JoinHandle<T>);

/// The error a connection task ends with when it panics or is cancelled
/// (`tokio::task::JoinError`); declared because a task handle's output type
/// names it.
#[verifier::external_type_specification]
#[verifier::external_body]
pub struct OpaqueJoinError(tokio::task::JoinError);

/// The sending half of a connection task's command queue
/// (`tokio::sync::mpsc::UnboundedSender`), carried as an opaque value.
#[verifier::external_type_specification]
#[verifier::external_body]
#[verifier::reject_recursive_types(T)]
pub struct OpaqueUnboundedSender<T>(tokio::sync::mpsc::UnboundedSender<T>);

/// Evidence that a call of this module did something to a connection task:
/// its field is private and read only through `receipt_op`, so outside this
/// module a receipt for an operation comes only from the call that performs
/// it.
pub struct Receipt {
    op: ConnectionOp,
}

/// The operation a receipt is evidence of.
pub closed spec fn receipt_op(r: Receipt) -> ConnectionOp {
    r.op
}

/// Calls `UnboundedSender::send`, and answers with a receipt for handing
/// `cmd` to the queue. Claimed, as its documentation says: when the send
/// fails (the receiving half is closed) the error carries back the value
/// that was passed. Whether it fails depends on the receiving task and is
/// left unsaid.
#[verifier::external_body]
pub(crate) fn send_over(
    tx: &tokio::sync::mpsc::UnboundedSender<crate::types::ServerCommand>,
    cmd: crate::types::ServerCommand,
) -> (r: (Result<(), crate::types::ServerCommand>, Ghost<Receipt>))
    ensures
        r.0 matches Err(c) ==> c == cmd,
        receipt_op(r.1@) == ConnectionOp::Send(command_view(cmd)),
{
    let receipt = Ghost(Receipt { op: ConnectionOp::Send(command_view(cmd)) });
    (tx.send(cmd).map_err(|e| e.0), receipt)
}

/// Calls `JoinHandle::abort`, which asks the runtime to cancel the task, and
/// answers with a receipt for the abort. Nothing is claimed of its effect.
#[verifier::external_body]
pub(crate) fn abort_task(handle: &tokio::task::JoinHandle<()>) -> (r: Ghost<Receipt>)
    ensures
        receipt_op(r@) == ConnectionOp::Abort,
{
    handle.abort();
    Ghost(Receipt { op: ConnectionOp::Abort })
}


/// Calls `uuid::Uuid::now_v7` and takes the 128-bit value of the id.
/// Claimed, as the documentation says, that the id is a version 7 UUID: its
/// version nibble (bits 76 to 79) is 7. The rest rests on the clock and on
/// chance and is left unsaid.
#[verifier::external_body]
pub(crate) fn new_server_id() -> (id: u128)
    ensures
        (id >> 76u128) & 0xfu128 == 7,
{
    uuid::Uuid::now_v7().as_u128()
}


/// Calls `chrono::Utc::now().timestamp_millis()`: the current time in
/// milliseconds since the Unix epoch. It rests on the clock; nothing is
/// claimed of it.
#[verifier::external_body]
pub(crate) fn utc_now_millis() -> i64 {
    chrono::Utc::now().timestamp_millis()
}

/// Calls `chrono::Local::now().to_rfc2822()`: the current local time as an
/// RFC 2822 date. It rests on the clock and on the machine's time zone;
/// nothing is claimed of it.
#[verifier::external_body]
pub(crate) fn local_now_rfc2822() -> String {
    chrono::Local::now().to_rfc2822()
}


/// The text of a prefix up to its first `!` or `@`.
pub open spec fn name_part(prefix: Seq<char>) -> Seq<char>
    decreases prefix.len(),
{
    if prefix.len() == 0 || prefix[0] == '!' || prefix[0] == '@' {
        Seq::empty()
    } else {
        seq![prefix[0]] + name_part(prefix.drop_first())
    }
}

/// The nickname that `irc::proto::Message::source_nickname` reads from a
/// message whose prefix is parsed from `prefix` (`Prefix::new_from_str`):
/// none when the text has no `!` and no `@` and holds a `.` (a server
/// name); otherwise the text up to the first `!` or `@`.
pub open spec fn prefix_nickname(prefix: Seq<char>) -> Option<Seq<char>> {
    if !prefix.contains('!') && !prefix.contains('@') && prefix.contains('.') {
        None
    } else {
        Some(name_part(prefix))
    }
}

/// Calls `irc::proto::Message::with_tags(None, Some(nick), "PRIVMSG",
/// vec![target, message])` and reads the message back. Claimed, as the
/// source of `Message::with_tags` and `Command::new` shows: the call succeeds
/// and yields `PRIVMSG` with the target and text unchanged; its sender is
/// what `Prefix::new_from_str` and `Message::source_nickname` make of
/// `nick`, as `prefix_nickname` states it.
#[verifier::external_body]
pub(crate) fn privmsg_echo(nick: &str, target: &str, message: &str) -> (r: Option<IrcMessage>)
    ensures
        r is Some,
        r->0@ == (IrcMessageView {
            source: prefix_nickname(nick@),
            command: IrcCommandView::Privmsg { target: target@, content: message@ },
        }),
{
    match irc::proto::Message::with_tags(None, Some(nick), "PRIVMSG", vec![target, message]) {
        Ok(m) => {
            let source_nickname = m.source_nickname().map(|s| s.to_owned());
            match m.command {
                irc::proto::Command::PRIVMSG(target, content) => Some(IrcMessage {
                    source_nickname,
                    command: IrcCommand::Privmsg { target, content },
                }),
                _ => None,
            }
        },
        Err(_) => None,
    }
}

} // verus!
