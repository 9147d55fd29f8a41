use pookie_paste::app_paths::{
    choose_config_path, config_directory, config_path_candidates, data_directory, database_path,
    AppPathError, APP_DIRECTORY, CONFIG_FILE, DATABASE_FILE,
};

#[test]
fn database_file_name_is_stable() {
    assert_eq!(DATABASE_FILE, "pookie-paste.db",);
}

#[test]
fn app_directory_name_is_stable() {
    assert_eq!(APP_DIRECTORY, "pookie-paste",);
}

#[test]
fn config_file_name_is_stable() {
    assert_eq!(CONFIG_FILE, "config.toml");
}

#[test]
fn config_directory_ends_with_app_directory() {
    let dir = config_directory(None, Some("/home/user")).expect("failed to resolve config directory");
    assert!(std::path::Path::new(&dir).ends_with(APP_DIRECTORY));
}

#[test]
fn data_directory_prefers_xdg_data_home() {
    assert_eq!(
        data_directory(Some("/data"), Some("/home/user")).unwrap(),
        "/data/pookie-paste"
    );
    assert_eq!(
        data_directory(Some(""), Some("/home/user")).unwrap(),
        "/home/user/.local/share/pookie-paste"
    );
}

#[test]
fn data_directory_without_home_is_an_error() {
    assert_eq!(
        data_directory(None, None),
        Err(AppPathError::NotFound(
            "neither XDG_DATA_HOME nor HOME is available".to_string()
        ))
    );
    assert_eq!(
        data_directory(None, Some("")),
        Err(AppPathError::NotFound("HOME is empty".to_string()))
    );
}

#[test]
fn database_lives_in_data_directory() {
    assert_eq!(
        database_path(None, Some("/home/user/")).unwrap(),
        "/home/user/.local/share/pookie-paste/pookie-paste.db"
    );
}

#[test]
fn config_candidates_include_legacy_location() {
    let (default_path, legacy) = config_path_candidates(Some("/cfg"), Some("/home/u")).unwrap();
    assert_eq!(default_path, "/cfg/pookie-paste/config.toml");
    assert_eq!(legacy.as_deref(), Some("/cfg/pookie/config.toml"));
    let (default_path, legacy) = config_path_candidates(None, Some("/home/u")).unwrap();
    assert_eq!(default_path, "/home/u/.config/pookie-paste/config.toml");
    assert_eq!(legacy.as_deref(), Some("/home/u/.config/pookie/config.toml"));
    assert_eq!(
        config_path_candidates(None, None),
        Err(AppPathError::NotFound(
            "neither XDG_CONFIG_HOME nor HOME is available".to_string()
        ))
    );
}

#[test]
fn legacy_config_is_used_only_when_canonical_is_missing() {
    let d = "/c/pookie-paste/config.toml".to_string();
    let l = Some("/c/pookie/config.toml".to_string());
    assert_eq!(choose_config_path(d.clone(), l.clone(), true, true), d);
    assert_eq!(choose_config_path(d.clone(), l.clone(), false, true), "/c/pookie/config.toml");
    assert_eq!(choose_config_path(d.clone(), l, false, false), d);
}
