use pynthora_terminal::config::{config_search_names, Config, ConfigError};

#[test]
fn test_config_validation() {
    let config = Config {
        api_key: "test_key_12345678".to_string(),
        ingest_url: "https://api.pynthora.network/ingest".to_string(),
        workspace: "test-workspace".to_string(),
    };

    assert!(config.validate().is_ok());
}

#[test]
fn short_api_key_is_refused() {
    let config = Config {
        api_key: "short".to_string(),
        ingest_url: "https://api.pynthora.network/ingest".to_string(),
        workspace: "test-workspace".to_string(),
    };
    assert_eq!(config.validate(), Err(ConfigError::ApiKeyTooShort));
}

#[test]
fn malformed_url_is_refused() {
    let config = Config {
        api_key: "test_key_12345678".to_string(),
        ingest_url: "not a url at all".to_string(),
        workspace: "test-workspace".to_string(),
    };
    assert_eq!(config.validate(), Err(ConfigError::InvalidIngestUrl));
}

#[test]
fn empty_workspace_is_refused() {
    let config = Config {
        api_key: "test_key_12345678".to_string(),
        ingest_url: "https://api.pynthora.network/ingest".to_string(),
        workspace: "".to_string(),
    };
    assert_eq!(config.validate(), Err(ConfigError::EmptyWorkspace));
}

#[test]
fn search_names_in_order() {
    let names = config_search_names(None);
    assert_eq!(names, vec![".pynthorarc", ".pynthorarc.json", ".pynthorarc.yaml"]);
    let names = config_search_names(Some("custom.json".to_string()));
    assert_eq!(
        names,
        vec!["custom.json", ".pynthorarc", ".pynthorarc.json", ".pynthorarc.yaml"]
    );
}
