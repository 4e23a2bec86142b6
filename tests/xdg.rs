use plasma::xdg::{
    cache_dir, cache_dir_from, daemon_state_dir, data_dir, data_dir_from, default_cache_dir,
    default_cache_dir_from, oauth_tokens_dir, state_dir, state_dir_from,
};

#[test]
fn test_default_cache_dir() {
    let cache_dir = default_cache_dir();
    assert!(cache_dir.contains("plasma"));
}

#[test]
fn test_state_dir_respects_xdg_env() {
    let dir = state_dir(Some("/tmp/test-state".to_string()));
    assert_eq!(dir, "/tmp/test-state/plasma");
}

#[test]
fn test_data_dir_respects_xdg_env() {
    let dir = data_dir(Some("/tmp/test-data".to_string()));
    assert_eq!(dir, "/tmp/test-data/plasma");
}

#[test]
fn test_cache_dir_respects_xdg_env() {
    let dir = cache_dir(Some("/tmp/test-cache".to_string()));
    assert_eq!(dir, "/tmp/test-cache/plasma");
}

#[test]
fn test_daemon_state_dir() {
    let dir = daemon_state_dir(Some("/tmp/test-state".to_string()));
    assert_eq!(dir, "/tmp/test-state/plasma/daemons");
}

#[test]
fn test_oauth_tokens_dir() {
    let dir = oauth_tokens_dir(Some("/tmp/test-data".to_string()));
    assert_eq!(dir, "/tmp/test-data/plasma/oauth-tokens");
}

#[test]
fn state_dir_falls_back_to_home() {
    assert_eq!(state_dir_from(None, Some("/home/u")), "/home/u/.local/state/plasma");
    assert_eq!(state_dir_from(None, None), ".plasma-state");
    assert_eq!(state_dir_from(Some("/s/"), Some("/home/u")), "/s/plasma");
}

#[test]
fn data_dir_prefers_platform_then_home() {
    assert_eq!(data_dir_from(None, Some("/d"), Some("/h")), "/d/plasma");
    assert_eq!(data_dir_from(None, None, Some("/h")), "/h/.local/share/plasma");
    assert_eq!(data_dir_from(None, None, None), ".plasma-data");
}

#[test]
fn cache_dir_prefers_platform_then_home() {
    assert_eq!(cache_dir_from(None, Some("/c"), Some("/h")), "/c/plasma");
    assert_eq!(cache_dir_from(None, None, Some("/h")), "/h/.cache/plasma");
    assert_eq!(cache_dir_from(None, None, None), ".plasma-cache");
    assert_eq!(default_cache_dir_from(Some("/c")), "/c/plasma");
    assert_eq!(default_cache_dir_from(None), ".plasma/cache");
}
