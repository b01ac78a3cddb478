use kirc::actor::{
    on_stream_error, ActorEffect, ClientAction, IrcCommand, IrcMessage,
};
use kirc::commands::{get_servers, ChannelInfo, ChannelPayload, ConnectServerPayload, ServerInfo};
use kirc::ctcp::{ctcp_command_from, ctcp_reply, ctcp_reply_at, parse_ctcp, CtcpCommand};
use kirc::error::KircError;
use kirc::events::{
    ChannelLockChangedEvent, ServerDetail, ServerStatusPayload, SystemMessagePayload, UiEvent,
    UiEventBuilder,
};
use kirc::manager::KircManager;
use kirc::memento::{Memento, Originator};
use kirc::menu::{menu_action, MenuAction};
use kirc::persistence::{KircStateSnapshot, ServerStateSnapshot};
use kirc::state::app::AppState;
use kirc::state::channel::{ChannelState, ChannelTable};
use kirc::state::kirc::KircState;
use kirc::state::server::{send_outcome, ServerRuntime, ServerState, ShutdownWait};
use kirc::types::{ServerCommand, ServerConfig, ServerStatus};
use tokio::sync::mpsc::{unbounded_channel, UnboundedReceiver};

fn config(host: &str, nick: &str) -> ServerConfig {
    ServerConfig::new(host.to_string(), 6667, false, nick.to_string())
}

fn runtime() -> tokio::runtime::Runtime {
    tokio::runtime::Builder::new_current_thread().enable_all().build().unwrap()
}

fn state_with_servers(n: usize) -> (KircState, Vec<u128>) {
    let mut state = KircState::new();
    state.set_persistence_path("config.json".to_string());
    let mut ids = Vec::new();
    for i in 0..n {
        ids.push(state.add_server(config(&format!("irc{}.net", i), "me")).unwrap());
    }
    (state, ids)
}

/// A manager whose one server is registering, with the receiving half of its
/// command queue.
fn registering_manager(rt: &tokio::runtime::Runtime) -> (KircManager, u128, UnboundedReceiver<ServerCommand>) {
    let (state, ids) = state_with_servers(1);
    let mut m = KircManager::new(state);
    let id = ids[0];
    let handle = rt.spawn(async {});
    m.start_connecting(id, handle).unwrap();
    let (tx, rx) = unbounded_channel();
    let effects = m.on_connected(id, tx);
    assert_eq!(effects.len(), 1);
    assert!(matches!(effects[0], ActorEffect::Status(ServerStatus::Registering)));
    (m, id, rx)
}

// ---- CTCP ----

#[test]
fn ctcp_parses_each_request() {
    assert_eq!(parse_ctcp("\x01VERSION\x01"), Some(CtcpCommand::Version));
    assert_eq!(parse_ctcp("\x01PING 12345\x01"), Some(CtcpCommand::Ping("12345".to_string())));
    assert_eq!(parse_ctcp("\x01PING\x01"), Some(CtcpCommand::Ping(String::new())));
    assert_eq!(parse_ctcp("\x01TIME\x01"), Some(CtcpCommand::Time));
    assert_eq!(parse_ctcp("\x01ACTION waves hello\x01"), Some(CtcpCommand::Unknown("ACTION waves hello".to_string())));
    assert_eq!(parse_ctcp("\x01PING a b\x01"), Some(CtcpCommand::Ping("a b".to_string())));
    assert_eq!(parse_ctcp("\x01\x01"), Some(CtcpCommand::Unknown(String::new())));
}

#[test]
fn ctcp_command_word_is_uppercased() {
    assert_eq!(parse_ctcp("\x01version\x01"), Some(CtcpCommand::Version));
    assert_eq!(parse_ctcp("\x01Ping x\x01"), Some(CtcpCommand::Ping("x".to_string())));
    assert_eq!(parse_ctcp("\x01time\x01"), Some(CtcpCommand::Time));
    // The unknown request keeps the body as it came.
    assert_eq!(parse_ctcp("\x01foo Bar\x01"), Some(CtcpCommand::Unknown("foo Bar".to_string())));
}

#[test]
fn ctcp_needs_both_delimiters() {
    assert_eq!(parse_ctcp("hello"), None);
    assert_eq!(parse_ctcp(""), None);
    assert_eq!(parse_ctcp("\x01VERSION"), None);
    assert_eq!(parse_ctcp("VERSION\x01"), None);
}

#[test]
fn ctcp_classifies_uppercased_words() {
    assert_eq!(ctcp_command_from("VERSION", "", "VERSION"), CtcpCommand::Version);
    assert_eq!(ctcp_command_from("PING", "9", "PING 9"), CtcpCommand::Ping("9".to_string()));
    assert_eq!(ctcp_command_from("TIME", "", "TIME"), CtcpCommand::Time);
    assert_eq!(ctcp_command_from("version", "", "version"), CtcpCommand::Unknown("version".to_string()));
}

#[test]
fn ctcp_replies() {
    assert_eq!(ctcp_reply_at(&CtcpCommand::Version, "x"), Some("\x01VERSION kirc v0.1\x01".to_string()));
    assert_eq!(ctcp_reply_at(&CtcpCommand::Ping("42".to_string()), "x"), Some("\x01PING 42\x01".to_string()));
    assert_eq!(
        ctcp_reply_at(&CtcpCommand::Time, "Mon, 1 Jan 2024 00:00:00 +0000"),
        Some("\x01TIME Mon, 1 Jan 2024 00:00:00 +0000\x01".to_string())
    );
    assert_eq!(ctcp_reply_at(&CtcpCommand::Unknown("X".to_string()), "x"), None);
    let t = ctcp_reply(&CtcpCommand::Time).unwrap();
    assert!(t.starts_with("\x01TIME ") && t.ends_with('\x01') && t.len() > 7);
    assert_eq!(ctcp_reply(&CtcpCommand::Version), Some("\x01VERSION kirc v0.1\x01".to_string()));
}

// ---- plain values ----

#[test]
fn command_descriptions() {
    assert_eq!(ServerCommand::Join("#rust".to_string()).describe(), "Join, #rust");
    assert_eq!(
        ServerCommand::Privmsg { target: "#rust".to_string(), message: "hi".to_string() }.describe(),
        "Privmsg, #rust, hi"
    );
    assert_eq!(ServerCommand::Part { channel_name: "#rust".to_string() }.describe(), "Part, #rust");
    assert_eq!(ServerCommand::Nick("bob".to_string()).describe(), "Nick, bob");
    assert_eq!(ServerCommand::Quit.describe(), "Quit");
}

#[test]
fn error_messages() {
    assert_eq!(KircError::ServerNotFound.message(), "Server not found");
    assert_eq!(KircError::CantFindServer.message(), "Can't find server");
    assert_eq!(KircError::AlreadyActive.message(), "Already connecting or connected");
    assert_eq!(KircError::ShuttingDown.message(), "Application is shutting down");
    assert_eq!(KircError::NotConnected.message(), "Server not connected");
    assert_eq!(KircError::SendFailed.message(), "Failed to send: channel closed");
    assert_eq!(KircError::ChannelLocked.message(), "Channel is locked");
    assert_eq!(KircError::NoPersistencePath.message(), "No persistence path was provided");
    assert_eq!(KircError::MissingPayload.message(), "Event payload is missing");
}

#[test]
fn app_state_round_trip() {
    for s in [AppState::Running, AppState::ShuttingDown, AppState::Terminated] {
        assert_eq!(AppState::from_u8(s.as_u8()), Some(s));
    }
    for v in 3..=255u8 {
        assert_eq!(AppState::from_u8(v), None);
    }
}

#[test]
fn menu_actions() {
    assert_eq!(menu_action("show"), MenuAction::Show);
    assert_eq!(menu_action("quit"), MenuAction::Quit);
    assert_eq!(menu_action("open"), MenuAction::Unhandled);
    assert_eq!(menu_action("Show"), MenuAction::Unhandled);
}

#[test]
fn config_copy_and_payloads() {
    let c = config("irc.libera.chat", "nick");
    let d = c.copied();
    assert_eq!(d.server(), "irc.libera.chat");
    assert_eq!(d.nickname(), "nick");
    let p = ConnectServerPayload {
        server_id: None,
        host: "h".to_string(),
        port: 6697,
        tls: true,
        nickname: "n".to_string(),
    };
    assert_eq!(p.server_id(), None);
    let c = p.to_config();
    assert_eq!((c.server(), c.port(), c.use_tls(), c.nickname()), ("h", 6697, true, "n"));
    let cp = ChannelPayload { server_id: 7, channel: "#a".to_string() };
    assert_eq!((cp.server_id(), cp.channel()), (7, "#a"));
    let ci = ChannelInfo::new("#a", true);
    assert_eq!((ci.name.as_str(), ci.locked), ("#a", true));
    let info = ServerInfo::builder()
        .id(1)
        .name("n")
        .host("h")
        .port(1)
        .tls(false)
        .nickname("k")
        .status(ServerStatus::Failed)
        .channels(vec![])
        .build();
    assert_eq!((info.id, info.name.as_str(), info.host.as_str(), info.port), (1, "n", "h", 1));
    assert_eq!((info.tls, info.nickname.as_str(), info.status), (false, "k", ServerStatus::Failed));
}

#[test]
fn event_payloads() {
    assert!(matches!(UiEventBuilder::new().emit(), Err(KircError::MissingPayload)));
    match UiEventBuilder::new().join(3, "#c".to_string(), "n".to_string()).emit() {
        Ok(UiEvent::Join { server_id, channel, nick }) => {
            assert_eq!((server_id, channel.as_str(), nick.as_str()), (3, "#c", "n"))
        }
        _ => panic!("expected a join event"),
    }
    match UiEventBuilder::new().user_message_at(3, "#c".to_string(), "n".to_string(), "hi".to_string(), 99).emit() {
        Ok(UiEvent::UserMessage { timestamp, content, .. }) => assert_eq!((timestamp, content.as_str()), (99, "hi")),
        _ => panic!("expected a user message"),
    }
    match UiEventBuilder::new().user_message(3, "#c".to_string(), "n".to_string(), "hi".to_string()).emit() {
        Ok(UiEvent::UserMessage { timestamp, .. }) => assert!(timestamp > 1_600_000_000_000),
        _ => panic!("expected a user message"),
    }
    let d = ServerDetail::new(1, "h".to_string(), 2, true, "n".to_string(), ServerStatus::Disconnected);
    assert_eq!((d.server_id, d.port, d.tls, d.status), (1, 2, true, ServerStatus::Disconnected));
    let s = ServerStatusPayload::new(4, ServerStatus::Connected);
    assert_eq!((s.server_id, s.status), (4, ServerStatus::Connected));
    let l = ChannelLockChangedEvent::new(5, "#x".to_string(), true);
    assert_eq!((l.server_id, l.channel.as_str(), l.locked), (5, "#x", true));
    let m = SystemMessagePayload::new(6, "hello");
    assert_eq!((m.server_id, m.message.as_str()), (6, "hello"));
}

// ---- channels ----

#[test]
fn channel_table_insert_lock_remove() {
    let mut t = ChannelTable::new();
    assert!(!t.contains_key("#a"));
    t.insert("#a".to_string(), ChannelState { name: "#a".to_string(), locked: false });
    t.insert("#b".to_string(), ChannelState { name: "#b".to_string(), locked: true });
    assert!(t.contains_key("#a") && t.contains_key("#b"));
    assert!(!t.is_locked("#a") && t.is_locked("#b"));
    t.set_locked("#a", true);
    assert!(t.is_locked("#a"));
    t.set_locked("#zzz", true);
    assert!(!t.contains_key("#zzz") && !t.is_locked("#zzz"));
    t.insert("#a".to_string(), ChannelState { name: "#a".to_string(), locked: false });
    assert!(!t.is_locked("#a"));
    let mut keys: Vec<String> = t.keys();
    keys.sort();
    assert_eq!(keys, vec!["#a".to_string(), "#b".to_string()]);
    t.remove("#a");
    assert!(!t.contains_key("#a") && t.contains_key("#b"));
    let flags = t.copy().lock_flags();
    assert_eq!(flags, vec![("#b".to_string(), true)]);
}

// ---- the connection state machine ----

#[test]
fn server_lifecycle_in_order() {
    let rt = runtime();
    let mut s = ServerState::new(ServerRuntime::Disconnected, config("h", "me"));
    assert_eq!(s.status(), ServerStatus::Disconnected);
    assert!(!s.is_active());
    assert!(matches!(s.send_command(ServerCommand::Quit), Err(KircError::NotConnected)));
    s.transition_to_connecting(rt.spawn(async {}));
    assert_eq!(s.status(), ServerStatus::Connecting);
    assert!(s.is_active());
    let (tx, mut rx) = unbounded_channel();
    s.transition_to_registering(tx);
    assert_eq!(s.status(), ServerStatus::Registering);
    assert!(s.send_command(ServerCommand::Join("#a".to_string())).is_ok());
    assert!(matches!(rx.try_recv(), Ok(ServerCommand::Join(c)) if c == "#a"));
    s.transition_to_connected();
    assert_eq!(s.status(), ServerStatus::Connected);
    s.disconnect();
    assert_eq!(s.status(), ServerStatus::Disconnecting);
    assert!(matches!(rx.try_recv(), Ok(ServerCommand::Quit)));
    assert!(!s.is_active());
    s.transition_to_disconnected();
    assert_eq!(s.status(), ServerStatus::Disconnected);
}

#[test]
fn server_steps_out_of_order_fall_back_to_disconnected() {
    let rt = runtime();
    let mut s = ServerState::new(ServerRuntime::Disconnected, config("h", "me"));
    s.transition_to_connected();
    assert_eq!(s.status(), ServerStatus::Disconnected);
    let (tx, _rx) = unbounded_channel();
    s.transition_to_registering(tx);
    assert_eq!(s.status(), ServerStatus::Disconnected);
    s.transition_to_failed("refused".to_string());
    assert_eq!(s.status(), ServerStatus::Failed);
    s.transition_to_connecting(rt.spawn(async {}));
    assert_eq!(s.status(), ServerStatus::Connecting);
    // A second task while connecting drops the server to disconnected.
    s.transition_to_connecting(rt.spawn(async {}));
    assert_eq!(s.status(), ServerStatus::Disconnected);
    // Disconnecting a disconnected server leaves it so.
    s.disconnect();
    assert_eq!(s.status(), ServerStatus::Disconnected);
}

#[test]
fn abort_connecting_only_when_connecting() {
    let rt = runtime();
    let mut s = ServerState::new(ServerRuntime::Disconnected, config("h", "me"));
    assert!(!s.abort_connecting());
    s.transition_to_connecting(rt.spawn(async {}));
    assert!(s.abort_connecting());
    assert_eq!(s.status(), ServerStatus::Disconnected);
    s.transition_to_connecting(rt.spawn(async {}));
    let (tx, _rx) = unbounded_channel();
    s.transition_to_registering(tx);
    assert!(!s.abort_connecting());
    assert_eq!(s.status(), ServerStatus::Disconnected);
}

#[test]
fn send_fails_when_the_task_is_gone() {
    let rt = runtime();
    let mut s = ServerState::new(ServerRuntime::Disconnected, config("h", "me"));
    s.transition_to_connecting(rt.spawn(async {}));
    let (tx, rx) = unbounded_channel();
    s.transition_to_registering(tx);
    drop(rx);
    assert!(matches!(s.send_command(ServerCommand::Quit), Err(KircError::SendFailed)));
    assert!(matches!(send_outcome(Err(ServerCommand::Quit)), Err(KircError::SendFailed)));
    assert!(send_outcome(Ok(())).is_ok());
}

#[test]
fn graceful_shutdown_waits() {
    let rt = runtime();
    assert!(matches!(ServerRuntime::Disconnected.begin_graceful_shutdown().0, ShutdownWait::Nothing));
    assert!(matches!(
        ServerRuntime::Failed { error: "e".to_string() }.begin_graceful_shutdown().0,
        ShutdownWait::Nothing
    ));
    let (w, _) = ServerRuntime::Connecting { handle: rt.spawn(async {}) }.begin_graceful_shutdown();
    assert!(matches!(w, ShutdownWait::Aborted(_)));
    let (tx, mut rx) = unbounded_channel();
    let (w, _) = ServerRuntime::Connected { tx, handle: rt.spawn(async {}) }.begin_graceful_shutdown();
    assert!(matches!(w, ShutdownWait::Bounded(_)));
    assert!(matches!(rx.try_recv(), Ok(ServerCommand::Quit)));
    assert!(rx.try_recv().is_err());
    let (tx, mut rx) = unbounded_channel();
    let (w, _) = ServerRuntime::Registering { tx, handle: rt.spawn(async {}) }.begin_graceful_shutdown();
    assert!(matches!(w, ShutdownWait::Bounded(_)));
    assert!(matches!(rx.try_recv(), Ok(ServerCommand::Quit)));
    let (w, _) = ServerRuntime::Disconnecting { handle: rt.spawn(async {}) }.begin_graceful_shutdown();
    assert!(matches!(w, ShutdownWait::Bounded(_)));
}

#[test]
fn graceful_shutdown_aborts_a_connecting_task() {
    let rt = runtime();
    let handle = rt.spawn(std::future::pending::<()>());
    let (w, _) = ServerRuntime::Connecting { handle }.begin_graceful_shutdown();
    match w {
        ShutdownWait::Aborted(h) => {
            let joined = rt.block_on(h);
            assert!(joined.unwrap_err().is_cancelled());
        }
        _ => panic!("a connecting task is aborted"),
    }
}

#[test]
fn cancel_connect_aborts_the_task() {
    let rt = runtime();
    let (state, ids) = state_with_servers(1);
    let mut m = KircManager::new(state);
    let (tx, mut rx) = unbounded_channel::<()>();
    let handle = rt.spawn(async move {
        std::future::pending::<()>().await;
        drop(tx);
    });
    m.start_connecting(ids[0], handle).unwrap();
    assert_eq!(m.cancel_connect(ids[0]), Ok(true));
    // Running the runtime lets the aborted task drop its sender.
    rt.block_on(async {
        tokio::task::yield_now().await;
    });
    assert!(matches!(rx.try_recv(), Err(tokio::sync::mpsc::error::TryRecvError::Disconnected)));
}

#[test]
fn disconnect_hands_over_one_quit() {
    let rt = runtime();
    let (mut m, id, mut rx) = registering_manager(&rt);
    assert_eq!(m.disconnect_server(id), Ok(ServerStatus::Disconnecting));
    assert!(matches!(rx.try_recv(), Ok(ServerCommand::Quit)));
    assert!(rx.try_recv().is_err());
    // Disconnecting again hands over nothing.
    assert_eq!(m.disconnect_server(id), Ok(ServerStatus::Disconnecting));
    assert!(rx.try_recv().is_err());
}

#[test]
fn change_nickname_hands_over_nick() {
    let rt = runtime();
    let (mut m, id, mut rx) = registering_manager(&rt);
    m.change_nickname(id, "me2".to_string()).unwrap();
    assert!(matches!(rx.try_recv(), Ok(ServerCommand::Nick(n)) if n == "me2"));
    assert!(matches!(m.change_nickname(99, "x".to_string()), Err(KircError::CantFindServer)));
    let (state, ids) = state_with_servers(1);
    let mut idle = KircManager::new(state);
    assert!(matches!(idle.change_nickname(ids[0], "x".to_string()), Err(KircError::NotConnected)));
}

// ---- the client state ----

#[test]
fn new_server_ids_are_version_seven() {
    let (state, ids) = state_with_servers(3);
    for id in &ids {
        assert_eq!((id >> 76) & 0xf, 7);
        assert!(state.contains_server(*id));
    }
    assert_eq!(state.get_all_servers().len(), 3);
}

#[test]
fn each_addition_and_each_record_gets_its_own_id() {
    let mut state = KircState::new();
    state.set_persistence_path("p".to_string());
    state.add_server_with_id(5, config("first", "me")).unwrap();
    let id = state.add_server(config("second", "me")).unwrap();
    assert_ne!(id, 5);
    assert_eq!(state.get_all_servers().len(), 2);
    assert_eq!(state.get_server(5).unwrap().config().server(), "first");
    let records: Vec<ServerStateSnapshot> =
        (0..50).map(|i| ServerStateSnapshot::new(config(&format!("irc{}.net", i), "me"), ChannelTable::new())).collect();
    let restored = KircStateSnapshot::from_iter(records).restore();
    assert_eq!(restored.get_all_servers().len(), 50);
}

#[test]
fn added_server_is_kept_even_without_a_file() {
    let mut state = KircState::new();
    assert!(matches!(state.add_server(config("h", "me")), Err(KircError::NoPersistencePath)));
    assert_eq!(state.get_all_servers().len(), 1);
    assert!(matches!(state.save_snapshot(), Err(KircError::NoPersistencePath)));
    let id = state.get_all_servers()[0];
    let mut state2 = KircState::new();
    state2.set_persistence_path("p".to_string());
    assert_eq!(state2.add_server_with_id(42, config("h", "me")), Ok(42));
    assert!(state2.get_server(42).is_some());
    assert!(state.get_server(id).is_some());
}

#[test]
fn snapshot_and_restore_keep_servers_and_channels() {
    let (mut state, ids) = state_with_servers(2);
    let mut s0 = state.take_server(ids[0]).unwrap();
    s0.insert_channel("#a", false);
    s0.insert_channel("#b", false);
    s0.set_channel_locked("#b", true);
    state.put_server(ids[0], s0);
    let snap = state.snapshot();
    assert_eq!(snap.len(), 2);
    let restored = KircState::restore_with_ids(snap, vec![10, 20]);
    let mut hosts = Vec::new();
    for id in [10u128, 20] {
        let s = restored.get_server(id).unwrap();
        assert_eq!(s.status(), ServerStatus::Disconnected);
        hosts.push(s.config().server().to_string());
        if s.config().server() == "irc0.net" {
            assert!(s.channels().contains_key("#a") && !s.is_channel_locked("#a"));
            assert!(s.is_channel_locked("#b"));
        } else {
            assert!(s.channel_names().is_empty());
        }
    }
    hosts.sort();
    assert_eq!(hosts, vec!["irc0.net".to_string(), "irc1.net".to_string()]);
    // The trait forms give the same results.
    let again = Memento::restore(Originator::snapshot(&restored));
    assert_eq!(again.get_all_servers().len(), 2);
    let one = Memento::restore(Originator::snapshot(restored.get_server(10).unwrap()));
    assert_eq!(one.status(), ServerStatus::Disconnected);
    let empty = KircStateSnapshot::empty().restore();
    assert!(empty.get_all_servers().is_empty());
    let _ = ServerStateSnapshot::new(config("h", "n"), ChannelTable::new());
}

#[test]
fn drain_takes_every_runtime() {
    let rt = runtime();
    let (mut state, ids) = state_with_servers(2);
    let mut s = state.take_server(ids[1]).unwrap();
    s.transition_to_connecting(rt.spawn(async {}));
    state.put_server(ids[1], s);
    let runtimes = state.drain_runtimes();
    assert_eq!(runtimes.len(), 2);
    let connecting = runtimes.iter().filter(|r| r.status() == ServerStatus::Connecting).count();
    assert_eq!(connecting, 1);
    assert!(state.get_all_servers().is_empty());
}

// ---- the manager ----

#[test]
fn connect_refusals() {
    let rt = runtime();
    let (state, ids) = state_with_servers(1);
    let mut m = KircManager::new(state);
    assert!(matches!(m.connect_server(Some(12345), config("h", "me")), Err(KircError::ServerNotFound)));
    let plan = m.connect_server(Some(ids[0]), config("other", "x")).unwrap();
    assert_eq!(plan.server_id, ids[0]);
    assert_eq!(plan.config.server(), "irc0.net");
    assert!(plan.save.is_none());
    m.start_connecting(ids[0], rt.spawn(async {})).unwrap();
    assert!(matches!(m.connect_server(Some(ids[0]), config("h", "me")), Err(KircError::AlreadyActive)));
    assert!(matches!(m.start_connecting(999, rt.spawn(async {})), Err(KircError::ServerNotFound)));
    let _ = m.prepare_shutdown();
    assert!(m.is_shutting_down());
    assert!(matches!(m.connect_server(None, config("h", "me")), Err(KircError::ShuttingDown)));
}

#[test]
fn connect_new_server() {
    let mut m = KircManager::new(KircState::new());
    assert!(matches!(m.connect_server(None, config("h", "me")), Err(KircError::NoPersistencePath)));
    assert_eq!(m.kirc_state().get_all_servers().len(), 1);
    let mut state = KircState::new();
    state.set_persistence_path("config.json".to_string());
    let mut m = KircManager::new(state);
    let plan = m.connect_server(None, config("new.net", "me")).unwrap();
    assert_eq!(plan.config.server(), "new.net");
    let save = plan.save.unwrap();
    assert_eq!(save.path, "config.json");
    assert_eq!(save.snapshot.len(), 1);
    assert!(m.kirc_state().contains_server(plan.server_id));
}

#[test]
fn disconnect_and_cancel() {
    let rt = runtime();
    let (mut m, id, mut rx) = registering_manager(&rt);
    assert_eq!(m.disconnect_server(id), Ok(ServerStatus::Disconnecting));
    assert!(matches!(rx.try_recv(), Ok(ServerCommand::Quit)));
    assert!(matches!(m.disconnect_server(77), Err(KircError::ServerNotFound)));
    assert!(matches!(m.cancel_connect(77), Err(KircError::ServerNotFound)));
    assert_eq!(m.cancel_connect(id), Ok(false));
    m.start_connecting(id, rt.spawn(async {})).unwrap();
    assert_eq!(m.cancel_connect(id), Ok(true));
    assert_eq!(m.get_server(id).unwrap().status(), ServerStatus::Disconnected);
}

#[test]
fn join_part_and_send() {
    let rt = runtime();
    let (mut m, id, mut rx) = registering_manager(&rt);
    assert!(matches!(m.join_channel(99, "#a"), Err(KircError::CantFindServer)));
    m.join_channel(id, "#a").unwrap();
    assert!(matches!(rx.try_recv(), Ok(ServerCommand::Join(c)) if c == "#a"));
    assert!(!m.is_channel_locked(id, "#a"));
    m.send_message(id, "#a".to_string(), "hi".to_string()).unwrap();
    assert!(matches!(rx.try_recv(), Ok(ServerCommand::Privmsg { target, message }) if target == "#a" && message == "hi"));
    m.lock_channel(id, "#a").unwrap();
    assert!(m.is_channel_locked(id, "#a"));
    assert!(matches!(m.send_message(id, "#a".to_string(), "no".to_string()), Err(KircError::ChannelLocked)));
    assert!(rx.try_recv().is_err());
    m.unlock_channel(id, "#a");
    assert!(!m.is_channel_locked(id, "#a"));
    assert!(matches!(m.lock_channel(99, "#a"), Err(KircError::CantFindServer)));
    m.unlock_channel(99, "#a");
    assert!(matches!(m.send_message(99, "#a".to_string(), "x".to_string()), Err(KircError::CantFindServer)));
    m.part_channel(id, "#a").unwrap();
    assert!(matches!(rx.try_recv(), Ok(ServerCommand::Part { channel_name }) if channel_name == "#a"));
    assert!(!m.get_server(id).unwrap().channels().contains_key("#a"));
    assert!(matches!(m.part_channel(99, "#a"), Err(KircError::CantFindServer)));
}

#[test]
fn join_refused_when_not_connected() {
    let (state, ids) = state_with_servers(1);
    let mut m = KircManager::new(state);
    assert!(matches!(m.join_channel(ids[0], "#a"), Err(KircError::NotConnected)));
    assert!(!m.get_server(ids[0]).unwrap().channels().contains_key("#a"));
    assert!(matches!(m.send_message(ids[0], "#a".to_string(), "x".to_string()), Err(KircError::NotConnected)));
}

#[test]
fn server_list() {
    let (mut state, ids) = state_with_servers(2);
    let mut s = state.take_server(ids[0]).unwrap();
    s.insert_channel("#x", true);
    state.put_server(ids[0], s);
    let infos = get_servers(&state);
    assert_eq!(infos.len(), 2);
    for info in &infos {
        assert_eq!(info.name, info.host);
        assert_eq!(info.port, 6667);
        assert_eq!(info.nickname, "me");
        assert_eq!(info.status, ServerStatus::Disconnected);
        if info.id == ids[0] {
            assert_eq!(info.channels.len(), 1);
            assert_eq!((info.channels[0].name.as_str(), info.channels[0].locked), ("#x", true));
        } else {
            assert!(info.channels.is_empty());
        }
    }
}

#[test]
fn shutdown_drops_servers() {
    let rt = runtime();
    let (mut m, _id, mut rx) = registering_manager(&rt);
    let targets = m.process_auto_connect();
    assert_eq!(targets.len(), 1);
    let (save, waits, _) = m.begin_shutdown();
    assert!(save.is_ok());
    assert_eq!(waits.len(), 1);
    assert!(matches!(waits[0], ShutdownWait::Bounded(_)));
    assert!(matches!(rx.try_recv(), Ok(ServerCommand::Quit)));
    assert_eq!(m.app_state(), AppState::ShuttingDown);
    assert!(m.kirc_state().get_all_servers().is_empty());
    m.complete_shutdown();
    assert_eq!(m.app_state(), AppState::Terminated);
}

// ---- the connection task ----

fn message(source: Option<&str>, command: IrcCommand) -> IrcMessage {
    IrcMessage { source_nickname: source.map(|s| s.to_string()), command }
}

#[test]
fn incoming_messages_become_events() {
    let rt = runtime();
    let (mut m, id, _rx) = registering_manager(&rt);
    let e = m
        .handle_message_at(id, message(Some("bob"), IrcCommand::Join { channels: "#a".to_string() }), 1, "t")
        .unwrap();
    assert!(matches!(&e[0], ActorEffect::Ui(UiEvent::Join { channel, nick, .. }) if channel == "#a" && nick == "bob"));
    let e = m
        .handle_message_at(
            id,
            message(Some("bob"), IrcCommand::Privmsg { target: "#a".to_string(), content: "hello".to_string() }),
            77,
            "t",
        )
        .unwrap();
    assert!(matches!(&e[0], ActorEffect::Ui(UiEvent::UserMessage { content, timestamp: 77, .. }) if content == "hello"));
    let e = m
        .handle_message_at(
            id,
            message(Some("bob"), IrcCommand::Privmsg { target: "me".to_string(), content: "\x01PING 5\x01".to_string() }),
            0,
            "t",
        )
        .unwrap();
    assert!(matches!(&e[0], ActorEffect::Notice { target, text } if target == "bob" && text == "\x01PING 5\x01"));
    let e = m
        .handle_message_at(
            id,
            message(Some("bob"), IrcCommand::Privmsg { target: "me".to_string(), content: "\x01TIME\x01".to_string() }),
            0,
            "noon",
        )
        .unwrap();
    assert!(matches!(&e[0], ActorEffect::Notice { text, .. } if text == "\x01TIME noon\x01"));
    let e = m
        .handle_message_at(
            id,
            message(Some("bob"), IrcCommand::Privmsg { target: "me".to_string(), content: "\x01DCC x\x01".to_string() }),
            0,
            "t",
        )
        .unwrap();
    assert!(e.is_empty());
    let e = m.handle_message_at(id, message(None, IrcCommand::Quit { comment: None }), 0, "t").unwrap();
    assert!(matches!(&e[0], ActorEffect::Ui(UiEvent::Quit { nick, reason: None, .. }) if nick.is_empty()));
    let e = m
        .handle_message_at(
            id,
            message(Some("x"), IrcCommand::Part { channels: "#a".to_string(), comment: Some("bye".to_string()) }),
            0,
            "t",
        )
        .unwrap();
    assert!(matches!(&e[0], ActorEffect::Ui(UiEvent::Part { reason: Some(r), .. }) if r == "bye"));
    let e = m
        .handle_message_at(id, message(None, IrcCommand::Topic { channel: "#a".to_string(), topic: None }), 0, "t")
        .unwrap();
    assert!(matches!(&e[0], ActorEffect::Ui(UiEvent::Topic { topic: None, .. })));
    let e = m.handle_message_at(id, message(None, IrcCommand::Error { message: "bad".to_string() }), 0, "t").unwrap();
    assert!(matches!(&e[0], ActorEffect::Ui(UiEvent::Error { message, .. }) if message == "bad"));
    assert!(m.handle_message_at(id, message(None, IrcCommand::Other), 0, "t").unwrap().is_empty());
    assert!(m.handle_message_at(id, message(None, IrcCommand::NicknameInUse), 0, "t").unwrap().is_empty());
    let e = m
        .handle_message(id, message(Some("bob"), IrcCommand::Privmsg { target: "#a".to_string(), content: "x".to_string() }))
        .unwrap();
    assert!(matches!(&e[0], ActorEffect::Ui(UiEvent::UserMessage { .. })));
}

#[test]
fn own_nick_change_is_adopted() {
    let rt = runtime();
    let (mut m, id, _rx) = registering_manager(&rt);
    let e = m.handle_message_at(id, message(Some("other"), IrcCommand::Nick { nickname: "x".to_string() }), 0, "t").unwrap();
    assert!(matches!(&e[0], ActorEffect::Ui(UiEvent::Nick { old_nick, new_nick, .. }) if old_nick == "other" && new_nick == "x"));
    assert_eq!(m.current_nickname(id), "me");
    m.handle_message_at(id, message(Some("me"), IrcCommand::Nick { nickname: "me2".to_string() }), 0, "t").unwrap();
    assert_eq!(m.current_nickname(id), "me2");
    assert_eq!(m.current_nickname(12345), "");
}

#[test]
fn welcome_connects_and_rejoins() {
    let rt = runtime();
    let (mut m, id, mut rx) = registering_manager(&rt);
    m.join_channel(id, "#a").unwrap();
    m.join_channel(id, "#b").unwrap();
    let _ = rx.try_recv();
    let _ = rx.try_recv();
    let e = m.handle_message_at(id, message(None, IrcCommand::Welcome), 0, "t").unwrap();
    assert_eq!(e.len(), 2);
    assert!(matches!(e[0], ActorEffect::Status(ServerStatus::Connected)));
    assert!(matches!(&e[1], ActorEffect::System(t) if t == "서버에 연결되었습니다."));
    assert_eq!(m.get_server(id).unwrap().status(), ServerStatus::Connected);
    let mut rejoined = Vec::new();
    while let Ok(cmd) = rx.try_recv() {
        match cmd {
            ServerCommand::Join(c) => rejoined.push(c),
            _ => panic!("only JOINs are handed over on a welcome"),
        }
    }
    rejoined.sort();
    assert_eq!(rejoined, vec!["#a".to_string(), "#b".to_string()]);
    // A second welcome finds the server connected, not registering.
    assert!(matches!(
        m.handle_message_at(id, message(None, IrcCommand::Welcome), 0, "t"),
        Err(KircError::NotConnected)
    ));
    assert_eq!(m.get_server(id).unwrap().status(), ServerStatus::Disconnected);
}

#[test]
fn task_end_and_failure() {
    let rt = runtime();
    let (mut m, id, _rx) = registering_manager(&rt);
    let e = m.on_finished(id);
    assert!(matches!(e[0], ActorEffect::Status(ServerStatus::Disconnected)));
    assert_eq!(m.get_server(id).unwrap().status(), ServerStatus::Disconnected);
    let e = m.fail_state(id, "no route".to_string());
    assert!(matches!(e[0], ActorEffect::Status(ServerStatus::Failed)));
    assert_eq!(m.get_server(id).unwrap().status(), ServerStatus::Failed);
}

#[test]
fn commands_for_the_connection_task() {
    let rt = runtime();
    let (m, id, _rx) = registering_manager(&rt);
    let step = m.on_command(id, ServerCommand::Join("#a".to_string()));
    assert!(matches!(step.action, ClientAction::SendJoin(ref c) if c == "#a") && step.echo.is_none() && !step.stop);
    let step = m.on_command(id, ServerCommand::Privmsg { target: "#a".to_string(), message: "hi".to_string() });
    assert!(!step.stop);
    let echo = step.echo.unwrap();
    assert_eq!(echo.source_nickname.as_deref(), Some("me"));
    assert!(matches!(echo.command, IrcCommand::Privmsg { ref target, ref content } if target == "#a" && content == "hi"));
    let step = m.on_command(id, ServerCommand::Quit);
    assert!(matches!(step.action, ClientAction::SendQuit(ref t) if t == "bye") && step.stop);
    let step = m.on_command(id, ServerCommand::Nick("n2".to_string()));
    assert!(matches!(step.action, ClientAction::SendNick(ref n) if n == "n2"));
    let step = m.on_command(id, ServerCommand::Part { channel_name: "#a".to_string() });
    assert!(matches!(step.action, ClientAction::SendPart(ref n) if n == "#a"));
}

#[test]
fn echo_from_a_server_like_nickname_has_no_sender() {
    let (state, ids) = {
        let mut state = KircState::new();
        state.set_persistence_path("p".to_string());
        let id = state.add_server(config("h", "irc.example.org")).unwrap();
        (state, vec![id])
    };
    let m = KircManager::new(state);
    let step = m.on_command(ids[0], ServerCommand::Privmsg { target: "#a".to_string(), message: "x".to_string() });
    assert_eq!(step.echo.unwrap().source_nickname, None);
    let step = m.on_command(999, ServerCommand::Privmsg { target: "#a".to_string(), message: "x".to_string() });
    assert_eq!(step.echo.unwrap().source_nickname.as_deref(), Some(""));
}

#[test]
fn echo_sender_is_the_name_part() {
    for (nick, shown) in [("nick!user@host", "nick"), ("a.b@c", "a.b"), ("plain", "plain"), ("x@y!z", "x")] {
        let mut state = KircState::new();
        state.set_persistence_path("p".to_string());
        let id = state.add_server(config("h", nick)).unwrap();
        let m = KircManager::new(state);
        let step = m.on_command(id, ServerCommand::Privmsg { target: "#a".to_string(), message: "x".to_string() });
        assert_eq!(step.echo.unwrap().source_nickname.as_deref(), Some(shown));
    }
}

#[test]
fn stream_errors() {
    let s = on_stream_error(true);
    assert!(!s.stop);
    assert!(matches!(&s.effects[0], ActorEffect::NickChangeFailed(t) if t == "Can't change nickname"));
    let s = on_stream_error(false);
    assert!(s.stop && s.effects.is_empty());
}


#[test]
fn sent_message_echo_is_shown() {
    let rt = runtime();
    let (mut m, id, _rx) = registering_manager(&rt);
    let step = m.on_command(id, ServerCommand::Privmsg { target: "#a".to_string(), message: "hello".to_string() });
    let effects = m.handle_message_at(id, step.echo.unwrap(), 5, "t").unwrap();
    assert_eq!(effects.len(), 1);
    assert!(matches!(&effects[0], ActorEffect::Ui(UiEvent::UserMessage { channel, nick, content, timestamp: 5, .. })
        if channel == "#a" && nick == "me" && content == "hello"));
}

#[test]
fn part_after_join_leaves_no_channel_and_unlock_after_lock_restores() {
    let rt = runtime();
    let (mut m, id, _rx) = registering_manager(&rt);
    m.join_channel(id, "#z").unwrap();
    m.lock_channel(id, "#z").unwrap();
    m.unlock_channel(id, "#z");
    assert!(m.get_server(id).unwrap().channels().contains_key("#z"));
    assert!(!m.is_channel_locked(id, "#z"));
    m.part_channel(id, "#z").unwrap();
    assert!(m.get_server(id).unwrap().channel_names().is_empty());
    // Locking a channel that is not joined changes nothing.
    m.lock_channel(id, "#nope").unwrap();
    assert!(!m.is_channel_locked(id, "#nope"));
    assert!(m.get_server(id).unwrap().channel_names().is_empty());
}
