//! Application settings: the model, its defaults, and where the settings file
//! lives. Reading and writing the file are handed in by the caller.
use crate::paths::{join, join_path};
use vstd::prelude::*;

verus! {

/// Qualifier of the project directories.
pub const QUALIFIER: &'static str = "com";

/// Organization of the project directories.
pub const ORGANIZATION: &'static str = "riffcc";

/// Application name of the project directories.
pub const APPLICATION: &'static str = "archiver";

/// Name of the settings file inside the configuration directory.
pub const SETTINGS_FILE_NAME: &'static str = "settings.toml";

/// Defines the download strategy.
#[derive(Clone, Copy, Debug, PartialEq, Eq, Structural)]
pub enum DownloadMode {
    /// Download all files directly.
    Direct,
    /// Download only the .torrent file.
    TorrentOnly,
}

/// The other download mode.
pub open spec fn toggled_mode(m: DownloadMode) -> DownloadMode {
    match m {
        DownloadMode::Direct => DownloadMode::TorrentOnly,
        DownloadMode::TorrentOnly => DownloadMode::Direct,
    }
}

/// The text shown for a download mode in the user interface.
pub open spec fn mode_text(m: DownloadMode) -> Seq<char> {
    match m {
        DownloadMode::Direct => "Direct (All Files)"@,
        DownloadMode::TorrentOnly => "Torrent Only (.torrent)"@,
    }
}

impl DownloadMode {
    /// The text shown for the mode in the user interface.
    pub fn label(&self) -> (r: &'static str)
        ensures
            r@ == mode_text(*self),
    {
        match self {
            DownloadMode::Direct => "Direct (All Files)",
            DownloadMode::TorrentOnly => "Torrent Only (.torrent)",
        }
    }

    /// The other mode: the settings view cycles between the two.
    pub fn toggled(&self) -> (r: DownloadMode)
        ensures
            r == toggled_mode(*self),
    {
        match self {
            DownloadMode::Direct => DownloadMode::TorrentOnly,
            DownloadMode::TorrentOnly => DownloadMode::Direct,
        }
    }
}

/// The user's settings.
#[derive(Debug, PartialEq)]
pub struct Settings {
    pub download_directory: Option<String>,
    /// Download mode (Direct or TorrentOnly).
    pub download_mode: DownloadMode,
    /// Max concurrent file downloads *within* a single item/collection download task.
    pub max_concurrent_downloads: Option<usize>,
    /// List of saved collection identifiers.
    pub favorite_collections: Vec<String>,
    /// Max concurrent collection downloads (when downloading multiple collections).
    pub max_concurrent_collections: Option<usize>,
}

/// Whether `s` holds the default settings.
pub open spec fn is_default_settings(s: Settings) -> bool {
    &&& s.download_directory is None
    &&& s.download_mode == DownloadMode::Direct
    &&& s.max_concurrent_downloads == Some(4usize)
    &&& s.favorite_collections@.len() == 0
    &&& s.max_concurrent_collections == Some(1usize)
}

/// The download mode used when the settings file names none.
pub fn default_download_mode() -> (m: DownloadMode)
    ensures
        m == DownloadMode::Direct,
{
    DownloadMode::Direct
}

impl Default for Settings {
    fn default() -> (s: Self)
        ensures
            is_default_settings(s),
    {
        Settings {
            download_directory: None,
            download_mode: default_download_mode(),
            max_concurrent_downloads: Some(4),
            favorite_collections: Vec::new(),
            max_concurrent_collections: Some(1),
        }
    }
}

impl Clone for Settings {
    fn clone(&self) -> (r: Self)
        ensures
            r.download_directory == self.download_directory,
            r.download_mode == self.download_mode,
            r.max_concurrent_downloads == self.max_concurrent_downloads,
            r.favorite_collections@ == self.favorite_collections@,
            r.max_concurrent_collections == self.max_concurrent_collections,
    {
        Settings {
            download_directory: crate::text::clone_opt(&self.download_directory),
            download_mode: self.download_mode,
            max_concurrent_downloads: self.max_concurrent_downloads,
            favorite_collections: crate::text::clone_texts(&self.favorite_collections),
            max_concurrent_collections: self.max_concurrent_collections,
        }
    }
}

/// Why settings could not be loaded or saved.
#[derive(Debug, PartialEq, Eq)]
pub enum SettingsError {
    /// The platform offers no configuration directory for the project.
    NoProjectDirs,
    /// The settings file exists but could not be read.
    Read(String),
    /// The settings file could not be understood.
    Parse(String),
    /// The settings file could not be written.
    Write(String),
}

/// What looking for the settings file found.
#[derive(Debug)]
pub enum StoredSettings {
    /// There is no settings file.
    Missing,
    /// The file held these settings.
    Found(Settings),
    /// The file exists but reading it failed.
    Unreadable(String),
    /// The file was read but does not hold settings.
    Malformed(String),
}

/// The settings that a stored file stands for.
pub open spec fn settings_from_stored(stored: StoredSettings, loaded: Result<Settings, SettingsError>) -> bool {
    match stored {
        StoredSettings::Missing => loaded matches Ok(s) && is_default_settings(s),
        StoredSettings::Found(s) => loaded == Ok::<Settings, SettingsError>(s),
        StoredSettings::Unreadable(e) => loaded == Err::<Settings, SettingsError>(SettingsError::Read(e)),
        StoredSettings::Malformed(e) => loaded == Err::<Settings, SettingsError>(SettingsError::Parse(e)),
    }
}

/// The path of the settings file inside the configuration directory.
pub fn settings_file_path(config_dir: &str) -> (r: String)
    ensures
        r@ == join_path(config_dir@, SETTINGS_FILE_NAME@),
{
    join(config_dir, SETTINGS_FILE_NAME)
}

/// Settings from what was found at the settings path: the defaults when there
/// is no file.
pub fn load_settings_from_path(stored: StoredSettings) -> (r: Result<Settings, SettingsError>)
    ensures
        settings_from_stored(stored, r),
{
    match stored {
        StoredSettings::Missing => Ok(Settings::default()),
        StoredSettings::Found(s) => Ok(s),
        StoredSettings::Unreadable(e) => Err(SettingsError::Read(e)),
        StoredSettings::Malformed(e) => Err(SettingsError::Parse(e)),
    }
}

/// Loads the settings from the settings file of the configuration directory
/// `config_dir` (`None` when the platform has none), reading it with `read`.
pub fn load_settings(config_dir: Option<String>, read: impl Fn(String) -> StoredSettings) -> (r: Result<
    Settings,
    SettingsError,
>)
    requires
        forall|p: String| call_requires(read, (p,)),
    ensures
        config_dir is None ==> r == Err::<Settings, SettingsError>(SettingsError::NoProjectDirs),
        config_dir matches Some(d) ==> exists|p: String, stored: StoredSettings|
            {
                &&& p@ == join_path(d@, SETTINGS_FILE_NAME@)
                &&& call_ensures(read, (p,), stored)
                &&& settings_from_stored(stored, r)
            },
{
    match config_dir {
        None => Err(SettingsError::NoProjectDirs),
        Some(d) => {
            let path = settings_file_path(d.as_str());
            let ghost p = path;
            let stored = read(path);
            let r = load_settings_from_path(stored);
            assert(settings_from_stored(stored, r));
            r
        },
    }
}

/// Saves `settings` to the settings file of the configuration directory
/// `config_dir` (`None` when the platform has none), writing it with `write`.
pub fn save_settings(
    settings: &Settings,
    config_dir: Option<String>,
    write: impl Fn(String, &Settings) -> Result<(), String>,
) -> (r: Result<(), SettingsError>)
    requires
        forall|p: String| call_requires(write, (p, settings)),
    ensures
        config_dir is None ==> r == Err::<(), SettingsError>(SettingsError::NoProjectDirs),
        config_dir matches Some(d) ==> exists|p: String, written: Result<(), String>|
            {
                &&& p@ == join_path(d@, SETTINGS_FILE_NAME@)
                &&& call_ensures(write, (p, settings), written)
                &&& r == match written {
                    Ok(()) => Ok::<(), SettingsError>(()),
                    Err(e) => Err(SettingsError::Write(e)),
                }
            },
{
    match config_dir {
        None => Err(SettingsError::NoProjectDirs),
        Some(d) => {
            let path = settings_file_path(d.as_str());
            match write(path, settings) {
                Ok(()) => Ok(()),
                Err(e) => Err(SettingsError::Write(e)),
            }
        },
    }
}

} // verus!
