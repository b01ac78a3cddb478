use vstd::prelude::*;
use crate::trusted::{local_now_rfc2822, to_uppercase, uppercase};

verus! {

/// A CTCP request found in the text of a private message.
#[derive(Debug, Clone, PartialEq, Eq)]
pub enum CtcpCommand {
    Version,
    Ping(String),
    Time,
    Unknown(String),
}

/// A CTCP request as plain sequences of characters.
pub enum CtcpRequest {
    Version,
    Ping(Seq<char>),
    Time,
    Unknown(Seq<char>),
}

impl View for CtcpCommand {
    type V = CtcpRequest;

    open spec fn view(&self) -> CtcpRequest {
        match self {
            CtcpCommand::Version => CtcpRequest::Version,
            CtcpCommand::Ping(p) => CtcpRequest::Ping(p@),
            CtcpCommand::Time => CtcpRequest::Time,
            CtcpCommand::Unknown(s) => CtcpRequest::Unknown(s@),
        }
    }
}

/// The delimiter that opens and closes a CTCP request.
pub open spec fn ctcp_delim() -> char {
    '\x01'
}

/// A message is a CTCP request when it starts and ends with the delimiter.
pub open spec fn is_ctcp_framed(m: Seq<char>) -> bool {
    m.len() > 0 && m[0] == ctcp_delim() && m[m.len() - 1] == ctcp_delim()
}

/// The text between the two delimiters.
pub open spec fn ctcp_body(m: Seq<char>) -> Seq<char> {
    m.subrange(1, m.len() - 1)
}

/// Length of the run of non-space characters at the start of `s`.
pub open spec fn word_len(s: Seq<char>) -> nat
    decreases s.len(),
{
    if s.len() == 0 {
        0
    } else if s[0] == ' ' {
        0
    } else {
        1 + word_len(s.drop_first())
    }
}

/// The text before the first space (all of `s` when it has none).
pub open spec fn first_word(s: Seq<char>) -> Seq<char> {
    s.take(word_len(s) as int)
}

/// The text after the first space (empty when `s` has none).
pub open spec fn after_first_word(s: Seq<char>) -> Seq<char> {
    if word_len(s) < s.len() {
        s.skip(word_len(s) + 1int)
    } else {
        Seq::empty()
    }
}

/// Which request an uppercased command word names; `arg` is the text after
/// the word and `body` the whole text between the delimiters.
pub open spec fn ctcp_request_of(cmd: Seq<char>, arg: Seq<char>, body: Seq<char>) -> CtcpRequest {
    if cmd == "VERSION"@ {
        CtcpRequest::Version
    } else if cmd == "PING"@ {
        CtcpRequest::Ping(arg)
    } else if cmd == "TIME"@ {
        CtcpRequest::Time
    } else {
        CtcpRequest::Unknown(body)
    }
}

/// The request that a message carries, if it is framed as one.
pub open spec fn parsed_ctcp(m: Seq<char>) -> Option<CtcpRequest> {
    if !is_ctcp_framed(m) {
        None
    } else {
        let body = ctcp_body(m);
        Some(ctcp_request_of(uppercase(first_word(body)), after_first_word(body), body))
    }
}

proof fn lemma_word_len_bound(s: Seq<char>)
    ensures
        word_len(s) <= s.len(),
    decreases s.len(),
{
    if s.len() > 0 && s[0] != ' ' {
        lemma_word_len_bound(s.drop_first());
    }
}

/// `k` is the length of the leading word of `s` when no space comes before
/// `k` and `k` is the end of `s` or the place of a space.
proof fn lemma_word_len_is(s: Seq<char>, k: int)
    requires
        0 <= k <= s.len(),
        forall|j: int| 0 <= j < k ==> s[j] != ' ',
        k == s.len() || s[k] == ' ',
    ensures
        word_len(s) == k,
    decreases k,
{
    if k > 0 {
        let t = s.drop_first();
        assert forall|j: int| 0 <= j < k - 1 implies t[j] != ' ' by {
            assert(t[j] == s[j + 1]);
        }
        if k < s.len() {
            assert(t[k - 1] == s[k]);
        }
        lemma_word_len_is(t, k - 1);
    }
}

/// Classifies a CTCP request from its uppercased command word, its argument
/// and its whole body.
pub fn ctcp_command_from(cmd: &str, arg: &str, body: &str) -> (c: CtcpCommand)
    ensures
        c@ == ctcp_request_of(cmd@, arg@, body@),
{
    let cmd = cmd.to_owned();
    if cmd == String::from_str("VERSION") {
        CtcpCommand::Version
    } else if cmd == String::from_str("PING") {
        CtcpCommand::Ping(arg.to_owned())
    } else if cmd == String::from_str("TIME") {
        CtcpCommand::Time
    } else {
        CtcpCommand::Unknown(body.to_owned())
    }
}

/// Reads a CTCP request out of a message: `None` unless the message starts
/// and ends with the delimiter; otherwise the uppercased first word of the
/// body picks `VERSION`, `PING <arg>`, `TIME` or an unknown request.
pub fn parse_ctcp(message: &str) -> (r: Option<CtcpCommand>)
    requires
        message@ != seq![ctcp_delim()],
    ensures
        match r {
            None => parsed_ctcp(message@) is None,
            Some(c) => parsed_ctcp(message@) == Some(c@),
        },
{
    let n: usize = message.unicode_len();
    if n == 0 {
        return None;
    }
    if message.get_char(0) != '\x01' || message.get_char(n - 1) != '\x01' {
        return None;
    }
    if n == 1 {
        assert(message@ =~= seq![ctcp_delim()]);
    }
    let inner = message.substring_char(1, n - 1);
    let m: usize = n - 2;
    assert(inner@.len() == m);
    let mut i: usize = 0;
    while i < m && inner.get_char(i) != ' '
        invariant
            i <= m,
            m == inner@.len(),
            forall|j: int| 0 <= j < i ==> inner@[j] != ' ',
        decreases m - i,
    {
        i = i + 1;
    }
    proof {
        lemma_word_len_is(inner@, i as int);
    }
    let word = inner.substring_char(0, i);
    let arg = if i < m {
        inner.substring_char(i + 1, m)
    } else {
        ""
    };
    proof {
        if i == m {
            reveal_strlit("");
            assert(arg@ =~= Seq::<char>::empty());
        } else {
            assert(arg@ =~= inner@.skip(i + 1));
        }
        assert(word@ =~= first_word(inner@));
    }
    let upper = to_uppercase(word);
    Some(ctcp_command_from(upper.as_str(), arg, inner))
}

/// The reply to a request: the version, the ping payload echoed back, or the
/// given local time; unknown requests get none.
pub open spec fn ctcp_reply_text(c: CtcpRequest, local_time: Seq<char>) -> Option<Seq<char>> {
    match c {
        CtcpRequest::Version => Some("\x01VERSION kirc v0.1\x01"@),
        CtcpRequest::Ping(p) => Some("\x01PING "@ + p + "\x01"@),
        CtcpRequest::Time => Some("\x01TIME "@ + local_time + "\x01"@),
        CtcpRequest::Unknown(_) => None,
    }
}

/// The reply to a request, with `local_time` as the time of day.
pub fn ctcp_reply_at(cmd: &CtcpCommand, local_time: &str) -> (r: Option<String>)
    ensures
        match r {
            Some(t) => ctcp_reply_text(cmd@, local_time@) == Some(t@),
            None => ctcp_reply_text(cmd@, local_time@) is None,
        },
        match cmd@ {
            CtcpRequest::Version => r matches Some(t) && t@ == "\x01VERSION kirc v0.1\x01"@,
            CtcpRequest::Ping(p) => r matches Some(t) && t@ == "\x01PING "@ + p + "\x01"@,
            CtcpRequest::Time => r matches Some(t) && t@ == "\x01TIME "@ + local_time@ + "\x01"@,
            CtcpRequest::Unknown(_) => r is None,
        },
{
    match cmd {
        CtcpCommand::Version => Some(String::from_str("\x01VERSION kirc v0.1\x01")),
        CtcpCommand::Ping(payload) => {
            let mut t = String::from_str("\x01PING ");
            t.append(payload.as_str());
            t.append("\x01");
            Some(t)
        },
        CtcpCommand::Time => {
            let mut t = String::from_str("\x01TIME ");
            t.append(local_time);
            t.append("\x01");
            Some(t)
        },
        CtcpCommand::Unknown(_) => None,
    }
}

/// The reply to a request; a `TIME` request is answered with the current
/// local time as an RFC 2822 date.
pub fn ctcp_reply(cmd: &CtcpCommand) -> (r: Option<String>)
    ensures
        !(cmd@ is Time) ==> match r {
            Some(t) => ctcp_reply_text(cmd@, Seq::empty()) == Some(t@),
            None => ctcp_reply_text(cmd@, Seq::empty()) is None,
        },
        cmd@ is Time ==> (r matches Some(t) && exists|now: Seq<char>|
            #[trigger] ctcp_reply_text(cmd@, now) == Some(t@)),
{
    match cmd {
        CtcpCommand::Time => {
            let now = local_now_rfc2822();
            let r = ctcp_reply_at(cmd, now.as_str());
            assert(ctcp_reply_text(cmd@, now@) == Some(r->0@));
            r
        },
        _ => {
            proof {
                reveal_strlit("");
            }
            ctcp_reply_at(cmd, "")
        },
    }
}

} // verus!
