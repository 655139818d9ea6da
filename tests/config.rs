use container_updater::config::{
    resolve_config_path, Config, ConfigError, DockerConnectMode, DEFAULT_STATE_PATH,
};

fn bare(key: &str, dir: &str) -> Config {
    Config {
        steam_api_key: key.to_string(),
        check_interval_ms: 60_000,
        containers: Vec::new(),
        state_directory: dir.to_string(),
        connect_mode: DockerConnectMode::default(),
    }
}

#[test]
fn config_path_precedence() {
    assert_eq!(resolve_config_path(Some("a.yml".to_string()), Some("b.yml".to_string())), "a.yml");
    assert_eq!(resolve_config_path(None, Some("b.yml".to_string())), "b.yml");
    assert_eq!(resolve_config_path(None, None), "./config.yml");
}

#[test]
fn api_key_from_file_wins() {
    let c = bare("filekey", "/data").resolve(Some("envkey".to_string()), None).unwrap();
    assert_eq!(c.steam_api_key, "filekey");
    assert_eq!(c.state_directory, "/data");
}

#[test]
fn api_key_and_state_dir_from_environment() {
    let c = bare("", "").resolve(Some("envkey".to_string()), Some("/env/state".to_string())).unwrap();
    assert_eq!(c.steam_api_key, "envkey");
    assert_eq!(c.state_directory, "/env/state");
}

#[test]
fn state_dir_defaults() {
    let c = bare("k", "").resolve(None, None).unwrap();
    assert_eq!(c.state_directory, DEFAULT_STATE_PATH);
    assert_eq!(c.state_directory, "./state");
}

#[test]
fn missing_api_key_is_an_error() {
    assert_eq!(bare("", "").resolve(None, None).err(), Some(ConfigError::MissingApiKey));
}

#[test]
fn consume_hands_out_fields() {
    let (containers, key, interval, dir, mode) = bare("k", "/d").consume();
    assert!(containers.is_empty());
    assert_eq!(key, "k");
    assert_eq!(interval, 60_000);
    assert_eq!(dir, "/d");
    assert_eq!(mode, DockerConnectMode::UnixSocket);
}
