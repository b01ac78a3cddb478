use vstd::prelude::*;

verus! {

/// Connection status of a server, as shown to the user interface.
#[derive(Clone, Copy, Debug, PartialEq, Eq, Structural)]
pub enum ServerStatus {
    Connecting,
    Connected,
    Registering,
    Disconnected,
    Disconnecting,
    Failed,
}

/// A command handed from the application to a running connection.
#[derive(Debug)]
pub enum ServerCommand {
    Join(String),
    Privmsg { target: String, message: String },
    Part { channel_name: String },
    Nick(String),
    Quit,
}

/// The text form of a command, as it appears in the logs.
pub open spec fn command_text(cmd: ServerCommand) -> Seq<char> {
    match cmd {
        ServerCommand::Join(x) => "Join, "@ + x@,
        ServerCommand::Privmsg { target, message } => "Privmsg, "@ + target@ + ", "@ + message@,
        ServerCommand::Part { channel_name } => "Part, "@ + channel_name@,
        ServerCommand::Nick(n) => "Nick, "@ + n@,
        ServerCommand::Quit => "Quit"@,
    }
}

impl ServerCommand {
    /// Renders the command as `Join, <channel>`, `Privmsg, <target>, <message>`,
    /// `Part, <channel>`, `Nick, <nick>` or `Quit`.
    pub fn describe(&self) -> (s: String)
        ensures
            s@ == command_text(*self),
    {
        match self {
            ServerCommand::Join(x) => {
                let mut s = String::from_str("Join, ");
                s.append(x.as_str());
                s
            },
            ServerCommand::Privmsg { target, message } => {
                let mut s = String::from_str("Privmsg, ");
                s.append(target.as_str());
                s.append(", ");
                s.append(message.as_str());
                s
            },
            ServerCommand::Part { channel_name } => {
                let mut s = String::from_str("Part, ");
                s.append(channel_name.as_str());
                s
            },
            ServerCommand::Nick(n) => {
                let mut s = String::from_str("Nick, ");
                s.append(n.as_str());
                s
            },
            ServerCommand::Quit => String::from_str("Quit"),
        }
    }
}

/// Where and as whom to connect: host, port, TLS and nickname.
#[derive(Clone, Debug)]
pub struct ServerConfig {
    server: String,
    port: u16,
    use_tls: bool,
    nickname: String,
}

impl ServerConfig {
    pub closed spec fn spec_server(&self) -> Seq<char> {
        self.server@
    }

    pub closed spec fn spec_port(&self) -> u16 {
        self.port
    }

    pub closed spec fn spec_use_tls(&self) -> bool {
        self.use_tls
    }

    pub closed spec fn spec_nickname(&self) -> Seq<char> {
        self.nickname@
    }

    pub fn new(server: String, port: u16, use_tls: bool, nickname: String) -> (c: Self)
        ensures
            c.spec_server() == server@,
            c.spec_port() == port,
            c.spec_use_tls() == use_tls,
            c.spec_nickname() == nickname@,
    {
        ServerConfig { server, port, use_tls, nickname }
    }

    /// An independent configuration with the same fields.
    pub fn copied(&self) -> (c: Self)
        ensures
            c == *self,
    {
        ServerConfig {
            server: self.server.clone(),
            port: self.port,
            use_tls: self.use_tls,
            nickname: self.nickname.clone(),
        }
    }

    pub fn server(&self) -> (s: &str)
        ensures
            s@ == self.spec_server(),
    {
        self.server.as_str()
    }

    pub fn port(&self) -> (p: u16)
        ensures
            p == self.spec_port(),
    {
        self.port
    }

    pub fn use_tls(&self) -> (b: bool)
        ensures
            b == self.spec_use_tls(),
    {
        self.use_tls
    }

    pub fn nickname(&self) -> (s: &str)
        ensures
            s@ == self.spec_nickname(),
    {
        self.nickname.as_str()
    }
}

} // verus!
