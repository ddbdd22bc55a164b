use pynthora_terminal::workspace::{Workspace, WorkspaceManager};

fn profile(name: &str, key: &str) -> Workspace {
    Workspace {
        name: name.to_string(),
        api_key: key.to_string(),
        ingest_url: "https://api.pynthora.network/ingest".to_string(),
        description: None,
    }
}

#[test]
fn empty_manager_has_no_selection() {
    let m = WorkspaceManager::new();
    assert!(m.get_current().is_none());
    assert!(m.list().is_empty());
    assert!(m.to_config().is_err());
    assert_eq!(m.to_config().unwrap_err(), "No workspace selected");
}

#[test]
fn adding_and_selecting_profiles() {
    let mut m = WorkspaceManager::new();
    m.add_workspace(profile("dev", "dev_key_1234567890"));
    m.add_workspace(profile("prod", "prod_key_123456789"));
    assert_eq!(m.list().len(), 2);
    assert!(m.get_current().is_none());

    assert!(m.set_current("prod").is_ok());
    let current = m.get_current().expect("prod was selected");
    assert_eq!(current.name, "prod");

    let config = m.to_config().expect("a selected profile becomes a config");
    assert_eq!(config.api_key, "prod_key_123456789");
    assert_eq!(config.workspace, "prod");
    assert_eq!(config.ingest_url, "https://api.pynthora.network/ingest");
}

#[test]
fn selecting_a_missing_profile_is_refused() {
    let mut m = WorkspaceManager::new();
    m.add_workspace(profile("dev", "dev_key_1234567890"));
    let e = m.set_current("staging").unwrap_err();
    assert_eq!(e, "Workspace 'staging' not found");
    assert!(m.get_current().is_none());
}

#[test]
fn adding_a_known_name_replaces_the_entry() {
    let mut m = WorkspaceManager::new();
    m.add_workspace(profile("dev", "old_key_1234567890"));
    m.add_workspace(profile("dev", "new_key_1234567890"));
    assert_eq!(m.list().len(), 1);
    assert_eq!(m.list()[0].api_key, "new_key_1234567890");
}
