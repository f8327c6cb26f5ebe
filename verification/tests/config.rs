use janitorai_grabber::config::{
    Config, Mode, PROJECT_APPLICATION, PROJECT_ORGANIZATION, PROJECT_QUALIFIER, TEMP_DATA_DIR_NAME,
};

fn user_data_dir() -> Option<String> {
    directories::ProjectDirs::from(PROJECT_QUALIFIER, PROJECT_ORGANIZATION, PROJECT_APPLICATION)
        .map(|d| d.data_dir().to_string_lossy().into_owned())
}

#[test]
fn defaults_are_loopback_and_off_repo() {
    let cfg = Config::default();
    assert!(cfg.listen_addr.starts_with("127.0.0.1"));
    let fallback = format!("/tmp/{}", TEMP_DATA_DIR_NAME);
    let dir = cfg.data_dir(user_data_dir(), fallback);
    assert!(std::path::Path::new(&dir).is_absolute());
}

#[test]
fn default_config_values() {
    let cfg = Config::default();
    assert_eq!(cfg.listen_addr, "127.0.0.1:8817");
    assert_eq!(cfg.upstream_base_url, "https://api.openai.com");
    assert_eq!(cfg.data_dir, None);
    assert_eq!(cfg.mode, Mode::Capture);
}

#[test]
fn configured_data_dir_wins() {
    let mut cfg = Config::default();
    cfg.data_dir = Some("/srv/captures".to_string());
    let dir = cfg.data_dir(Some("/home/u/.local/share/x".to_string()), "/tmp/y".to_string());
    assert_eq!(dir, "/srv/captures");
}

#[test]
fn user_dir_then_fallback() {
    let cfg = Config::default();
    assert_eq!(cfg.data_dir(Some("/home/u/data".to_string()), "/tmp/y".to_string()), "/home/u/data");
    assert_eq!(cfg.data_dir(None, "/tmp/y".to_string()), "/tmp/y");
}

#[test]
fn first_loaded_candidate_wins() {
    let mut second = Config::default();
    second.listen_addr = "127.0.0.1:9999".to_string();
    let mut third = Config::default();
    third.listen_addr = "127.0.0.1:7777".to_string();
    let cfg = Config::from_candidates(vec![None, Some(second), Some(third)]);
    assert_eq!(cfg.listen_addr, "127.0.0.1:9999");
}

#[test]
fn no_candidate_gives_defaults() {
    let cfg = Config::from_candidates(vec![None, None]);
    assert_eq!(cfg.listen_addr, "127.0.0.1:8817");
    let cfg = Config::from_candidates(vec![]);
    assert_eq!(cfg.upstream_base_url, "https://api.openai.com");
}

#[test]
fn mode_labels() {
    assert_eq!(Mode::Capture.label(), "capture");
    assert_eq!(Mode::Forward.label(), "forward");
}
