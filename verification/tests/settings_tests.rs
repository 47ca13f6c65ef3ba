use librarian::settings::{
    default_download_mode, load_settings, load_settings_from_path, save_settings, settings_file_path,
    DownloadMode, Settings, SettingsError, StoredSettings,
};
use std::cell::RefCell;

#[test]
fn test_load_settings_default_from_specific_path() {
    let settings = load_settings_from_path(StoredSettings::Missing).unwrap();
    assert_eq!(settings.download_directory, None);
    assert_eq!(settings.download_mode, DownloadMode::Direct);
    assert_eq!(settings, Settings::default());
}

#[test]
fn test_save_and_load_settings() {
    let stored: RefCell<Option<(String, Settings)>> = RefCell::new(None);
    let mut settings_to_save = Settings::default();
    settings_to_save.download_directory = Some("/tmp/downloads".to_string());
    settings_to_save.download_mode = DownloadMode::TorrentOnly;
    settings_to_save.max_concurrent_downloads = Some(10);
    settings_to_save.favorite_collections = vec!["test_coll".to_string()];

    let config_dir = Some("/home/u/.config/archiver".to_string());
    save_settings(&settings_to_save, config_dir.clone(), |path: String, s: &Settings| {
        *stored.borrow_mut() = Some((path, s.clone()));
        Ok(())
    })
    .unwrap();
    assert!(stored.borrow().is_some());

    let loaded_settings = load_settings(config_dir, |path: String| match &*stored.borrow() {
        Some((p, s)) if *p == path => StoredSettings::Found(s.clone()),
        _ => StoredSettings::Missing,
    })
    .unwrap();
    assert_eq!(loaded_settings.download_directory, Some("/tmp/downloads".to_string()));
    assert_eq!(loaded_settings.download_mode, DownloadMode::TorrentOnly);
    assert_eq!(loaded_settings.max_concurrent_downloads, Some(10));
    assert_eq!(loaded_settings.favorite_collections, vec!["test_coll".to_string()]);
}

#[test]
fn test_load_settings_file_not_found_returns_default_from_specific_path() {
    let settings = load_settings(Some("/nowhere".to_string()), |_path: String| StoredSettings::Missing).unwrap();
    assert_eq!(settings.download_directory, None);
    assert!(settings.download_directory.is_none());
    assert_eq!(settings.max_concurrent_downloads, Some(4));
}

#[test]
fn test_save_settings_creates_directory() {
    let written: RefCell<Vec<String>> = RefCell::new(Vec::new());
    let settings_to_save = Settings {
        download_directory: Some("test_dir".to_string()),
        download_mode: DownloadMode::Direct,
        max_concurrent_downloads: Some(5),
        favorite_collections: vec!["coll1".to_string(), "coll2".to_string()],
        max_concurrent_collections: Some(2),
    };
    save_settings(&settings_to_save, Some("/home/u/.config/archiver".to_string()), |path: String, s: &Settings| {
        assert_eq!(s.favorite_collections, vec!["coll1".to_string(), "coll2".to_string()]);
        written.borrow_mut().push(path);
        Ok(())
    })
    .unwrap();
    assert_eq!(*written.borrow(), vec!["/home/u/.config/archiver/settings.toml".to_string()]);
}

#[test]
fn defaults_of_settings() {
    let s = Settings::default();
    assert_eq!(s.max_concurrent_downloads, Some(4));
    assert_eq!(s.max_concurrent_collections, Some(1));
    assert!(s.favorite_collections.is_empty());
    assert_eq!(default_download_mode(), DownloadMode::Direct);
}

#[test]
fn settings_errors() {
    assert_eq!(
        load_settings(None, |_p: String| StoredSettings::Missing),
        Err(SettingsError::NoProjectDirs)
    );
    assert_eq!(
        load_settings_from_path(StoredSettings::Unreadable("denied".to_string())),
        Err(SettingsError::Read("denied".to_string()))
    );
    assert_eq!(
        load_settings_from_path(StoredSettings::Malformed("bad toml".to_string())),
        Err(SettingsError::Parse("bad toml".to_string()))
    );
    assert_eq!(
        save_settings(&Settings::default(), None, |_p: String, _s: &Settings| Ok(())),
        Err(SettingsError::NoProjectDirs)
    );
    assert_eq!(
        save_settings(&Settings::default(), Some("/c".to_string()), |_p: String, _s: &Settings| Err(
            "disk full".to_string()
        )),
        Err(SettingsError::Write("disk full".to_string()))
    );
}

#[test]
fn settings_path_and_labels() {
    assert_eq!(settings_file_path("/home/u/.config/archiver"), "/home/u/.config/archiver/settings.toml");
    assert_eq!(settings_file_path("/cfg/"), "/cfg/settings.toml");
    assert_eq!(DownloadMode::Direct.label(), "Direct (All Files)");
    assert_eq!(DownloadMode::TorrentOnly.label(), "Torrent Only (.torrent)");
    assert_eq!(DownloadMode::Direct.toggled(), DownloadMode::TorrentOnly);
    assert_eq!(DownloadMode::TorrentOnly.toggled(), DownloadMode::Direct);
}
