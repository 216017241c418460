//! The user's configuration and the context built from it at start-up.

use vstd::prelude::*;
use crate::paths::{Paths, APPLICATION_NAME, CONFIG_FILE_NAME};
use crate::text::{join, join_path};

verus! {

/// The user's configuration.
pub struct Config {
    pub encryption: EncryptionConfig,
    pub upstream: UpstreamConfig,
}

/// How encrypted files are protected.
pub struct EncryptionConfig {
    /// The passphrase that encrypted files are encrypted with.
    pub passphrase: String,
}

/// The remote repository the mirror synchronises with.
pub struct UpstreamConfig {
    pub url: String,
    /// The SSH key used to authenticate, if any.
    pub key_file: Option<String>,
    /// The branch that is checked out.
    pub branch: String,
}

/// The branch used where the configuration names none.
pub fn default_branch() -> (r: String)
    ensures
        r@ == "main"@,
{
    String::from_str("main")
}

impl Default for Config {
    /// Empty passphrase, URL and branch, and no key file.
    fn default() -> (r: Self)
        ensures
            r.encryption.passphrase@.len() == 0,
            r.upstream.url@.len() == 0,
            r.upstream.key_file is None,
            r.upstream.branch@.len() == 0,
    {
        Config {
            encryption: EncryptionConfig { passphrase: String::new() },
            upstream: UpstreamConfig { url: String::new(), key_file: None, branch: String::new() },
        }
    }
}

impl Config {
    /// The configuration file under the user's configuration directory `config_dir`.
    pub fn config_file(config_dir: &str) -> (r: String)
        ensures
            r@ == join_path(join_path(config_dir@, "conman"@), "config.toml"@),
    {
        proof {
            reveal_strlit("conman");
            reveal_strlit("config.toml");
        }
        let dir = join(config_dir, APPLICATION_NAME);
        join(dir.as_str(), CONFIG_FILE_NAME)
    }
}

/// The application's directories.
pub struct Directories {
    /// Where the mirror repositories are cloned.
    pub cache: String,
    /// Where the configuration lives.
    pub config: String,
}

impl Directories {
    /// The directories under the user's data and configuration directories.
    pub fn new(data_dir: &str, config_dir: &str) -> (r: Self)
        ensures
            r.cache@ == join_path(data_dir@, "conman"@),
            r.config@ == join_path(config_dir@, "conman"@),
    {
        proof {
            reveal_strlit("conman");
        }
        Directories { cache: join(data_dir, APPLICATION_NAME), config: join(config_dir, APPLICATION_NAME) }
    }

    /// The local clone of the upstream repository whose URL has the path
    /// segments `url_path`: named by the last segment, inside the cache
    /// directory. None where the URL has no path.
    pub fn local_repo_path(&self, url_path: &Option<Vec<String>>) -> (r: Option<String>)
        ensures
            match url_path {
                Some(segments) if segments@.len() > 0 => r is Some && r->0@ == join_path(
                    self.cache@,
                    segments@.last()@,
                ),
                _ => r is None,
            },
    {
        match url_path {
            Some(segments) => {
                if segments.len() == 0 {
                    None
                } else {
                    Some(join(self.cache.as_str(), segments[segments.len() - 1].as_str()))
                }
            },
            None => None,
        }
    }

    /// The store document of the local clone, see [`Directories::local_repo_path`].
    pub fn metadata_path(&self, url_path: &Option<Vec<String>>) -> (r: Option<String>)
        ensures
            match url_path {
                Some(segments) if segments@.len() > 0 => r is Some && r->0@ == join_path(
                    join_path(self.cache@, segments@.last()@),
                    "metadata.toml"@,
                ),
                _ => r is None,
            },
    {
        proof {
            reveal_strlit("metadata.toml");
        }
        match self.local_repo_path(url_path) {
            Some(repo) => Some(join(repo.as_str(), "metadata.toml")),
            None => None,
        }
    }

    /// The configuration file.
    pub fn config_path(&self) -> (r: String)
        ensures
            r@ == join_path(self.config@, "config.toml"@),
    {
        proof {
            reveal_strlit("config.toml");
        }
        join(self.config.as_str(), CONFIG_FILE_NAME)
    }
}

/// The context every operation runs in: the locations and the configuration,
/// built once at start-up and passed on.
pub struct State {
    pub paths: Paths,
    pub config: Config,
}

impl State {
    pub fn new(paths: Paths, config: Config) -> (r: Self)
        ensures
            r.paths == paths,
            r.config == config,
    {
        State { paths, config }
    }
}

} // verus!
