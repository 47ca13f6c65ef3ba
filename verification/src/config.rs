//! The directories that the librarian keeps its files in, under the user's
//! home directory.
use crate::paths::{join, join_path};
use crate::text::concat_text;
use vstd::prelude::*;

verus! {

/// The librarian's directories.
pub struct LibrarianConfig {
    pub downloads_dir: String,
    pub processing_dir: String,
    pub library_dir: String,
    pub cache_dir: String,
}

/// Why the configuration could not be made.
#[derive(Debug, PartialEq, Eq)]
pub enum ConfigError {
    /// The user's home directory could not be determined.
    NoHomeDir,
}

/// The base directory of the librarian under `home`: `home/.riffcc/librarian`.
pub open spec fn base_dir(home: Seq<char>) -> Seq<char> {
    join_path(join_path(home, ".riffcc"@), "librarian"@)
}

impl LibrarianConfig {
    /// The directories under the home directory `home` (`None` when it could
    /// not be determined): `downloads`, `processing`, `library` and `cache`
    /// in `home/.riffcc/librarian`. Creating them is up to the caller.
    pub fn new(home: Option<String>) -> (r: Result<Self, ConfigError>)
        ensures
            home is None ==> r == Err::<Self, ConfigError>(ConfigError::NoHomeDir),
            home matches Some(h) ==> r matches Ok(c) && {
                let base = base_dir(h@);
                &&& c.downloads_dir@ == join_path(base, "downloads"@)
                &&& c.processing_dir@ == join_path(base, "processing"@)
                &&& c.library_dir@ == join_path(base, "library"@)
                &&& c.cache_dir@ == join_path(base, "cache"@)
            },
    {
        match home {
            None => Err(ConfigError::NoHomeDir),
            Some(h) => {
                let riffcc = join(h.as_str(), ".riffcc");
                let base = join(riffcc.as_str(), "librarian");
                Ok(
                    LibrarianConfig {
                        downloads_dir: join(base.as_str(), "downloads"),
                        processing_dir: join(base.as_str(), "processing"),
                        library_dir: join(base.as_str(), "library"),
                        cache_dir: join(base.as_str(), "cache"),
                    },
                )
            },
        }
    }

    /// The directory of cached thumbnails: `cache/thumbnails`.
    pub fn thumbnail_cache_dir(&self) -> (r: String)
        ensures
            r@ == join_path(self.cache_dir@, "thumbnails"@),
    {
        join(self.cache_dir.as_str(), "thumbnails")
    }

    /// The cached thumbnail of item `identifier`: `cache/thumbnails/{identifier}.jpg`.
    pub fn thumbnail_cache_path(&self, identifier: &str) -> (r: String)
        ensures
            r@ == join_path(join_path(self.cache_dir@, "thumbnails"@), identifier@ + ".jpg"@),
    {
        let dir = self.thumbnail_cache_dir();
        let file = concat_text(identifier, ".jpg");
        join(dir.as_str(), file.as_str())
    }
}

} // verus!
