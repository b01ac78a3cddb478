use kirc::persistence::{KircStateSnapshot, ServerStateSnapshot};
use kirc::state::app::AppState;
use kirc::state::channel::{ChannelState, ChannelTable};
use kirc::state::kirc::KircState;
use kirc::types::{ServerConfig, ServerStatus};

fn mock_server_config(name: &str) -> ServerConfig {
    ServerConfig::new(name.to_string(), 6667, false, "nick".to_string())
}

fn mock_config() -> ServerConfig {
    ServerConfig::new("irc.test.net".to_string(), 6667, false, "nick".to_string())
}

#[test]
fn test_app_state_conversions() {
    assert_eq!(AppState::Running.as_u8(), 0);
    assert_eq!(AppState::ShuttingDown.as_u8(), 1);
    assert_eq!(AppState::Terminated.as_u8(), 2);

    assert_eq!(AppState::from_u8(0), Some(AppState::Running));
    assert_eq!(AppState::from_u8(1), Some(AppState::ShuttingDown));
    assert_eq!(AppState::from_u8(2), Some(AppState::Terminated));
    assert_eq!(AppState::from_u8(3), None);
}

#[test]
fn test_channel_state_new() {
    let name = "#test".to_string();
    let state = ChannelState {
        name: name.clone(),
        locked: false,
    };

    assert_eq!(state.name, name);
    assert!(!state.locked);
}

#[test]
fn test_server_config_new() {
    let server = "irc.libera.chat".to_string();
    let port = 6697;
    let use_tls = true;
    let nickname = "test_nick".to_string();

    let config = ServerConfig::new(server.clone(), port, use_tls, nickname.clone());

    assert_eq!(config.server(), server);
    assert_eq!(config.port(), port);
    assert_eq!(config.use_tls(), use_tls);
    assert_eq!(config.nickname(), nickname);
}

#[test]
fn test_server_state_snapshot_restore() {
    let config = mock_server_config("irc.test.net");
    let mut channels = ChannelTable::new();
    channels.insert(
        "#test".to_string(),
        ChannelState {
            name: "#test".to_string(),
            locked: true,
        },
    );

    let snapshot = ServerStateSnapshot::new(config, channels);
    let server_state = snapshot.restore();

    assert_eq!(server_state.status(), ServerStatus::Disconnected);
    assert!(server_state.channels().contains_key("#test"));
    assert!(server_state.is_channel_locked("#test"));
}

#[test]
fn test_kirc_state_snapshot_restoration() {
    let config1 = mock_server_config("irc.1.net");
    let config2 = mock_server_config("irc.2.net");

    let s1 = ServerStateSnapshot::new(config1, ChannelTable::new());
    let s2 = ServerStateSnapshot::new(config2, ChannelTable::new());

    let kirc_snapshot = KircStateSnapshot::from_iter(vec![s1, s2]);
    let kirc_state = kirc_snapshot.restore();

    assert_eq!(kirc_state.get_all_servers().len(), 2);
}

#[test]
fn test_kirc_state_new() {
    let state = KircState::new();
    assert!(state.get_all_servers().is_empty());
}

#[test]
fn test_add_server_fails_without_persistence_path() {
    let mut state = KircState::new();
    let config = mock_config();
    let result = state.add_server(config);
    assert!(result.is_err());
}

#[test]
fn test_add_server_success() {
    let mut state = KircState::new();
    let path = "state.json".to_string();
    state.set_persistence_path(path.clone());

    let config = mock_config();
    let server_id = state.add_server(config).unwrap();

    assert!(state.get_server(server_id).is_some());
    assert_eq!(state.get_all_servers().len(), 1);
    let request = state.save_snapshot().unwrap();
    assert_eq!(request.path, path);
    assert_eq!(request.snapshot.len(), 1);
}

#[test]
fn test_drain_runtimes() {
    let mut state = KircState::new();
    state.set_persistence_path("state.json".to_string());

    state.add_server(mock_config()).unwrap();
    state.add_server(mock_config()).unwrap();

    assert_eq!(state.get_all_servers().len(), 2);
    let runtimes = state.drain_runtimes();
    assert_eq!(runtimes.len(), 2);
    assert!(state.get_all_servers().is_empty());
}
