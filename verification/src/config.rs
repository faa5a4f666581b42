//! The typed configuration document and its defaults.
//!
//! Paths are carried as strings; reading the home directory, prompting, and
//! the YAML file itself are the surrounding process's concern. `min_score`
//! holds the IEEE-754 bit pattern of the advisory 32-bit threshold; the core
//! never interprets it.

use crate::embeddings::repo_name_spec;
use crate::embeddings::ModelType;
use vstd::prelude::*;

verus! {

/// Default advisory relevance threshold: the bit pattern of 32-bit 0.25.
pub const DEFAULT_MIN_SCORE_BITS: u32 = 0x3E80_0000;

/// Default number of search results.
pub const DEFAULT_NUM_RESULTS: usize = 20;

/// Default server port.
pub const DEFAULT_PORT: u16 = 5001;

/// Joining a directory and a relative name with a single separator.
pub open spec fn join_path_spec(dir: Seq<char>, name: Seq<char>) -> Seq<char> {
    if dir.len() == 0 {
        name
    } else if dir.last() == '/' {
        dir + name
    } else {
        dir + "/"@ + name
    }
}

/// The configuration directory under a home directory.
pub open spec fn config_dir_spec(home: Seq<char>) -> Seq<char> {
    join_path_spec(join_path_spec(home, ".config/"@), "mindmap"@)
}

/// Joins a directory and a relative name, adding a separator only where
/// the directory does not already end in one.
pub fn join_path(dir: &str, name: &str) -> (r: String)
    ensures
        r@ == join_path_spec(dir@, name@),
{
    let dir_len = dir.unicode_len();
    if dir_len == 0 {
        return name.to_owned();
    }
    let mut s = dir.to_owned();
    if dir.get_char(dir_len - 1) != '/' {
        s.append("/");
    }
    s.append(name);
    s
}

/// Where the server listens and how other processes find it.
#[derive(Clone, Debug)]
pub struct ServerConfig {
    pub host: String,
    pub port: u16,
    pub lock_path: String,
}

/// The watcher's own lock file.
#[derive(Clone, Debug)]
pub struct WatcherConfig {
    pub lock_path: String,
}

/// Model selection: which model, whether it is fetched remotely, and the
/// local cache directory.
#[derive(Clone, Debug)]
pub struct ModelConfig {
    pub model: ModelType,
    pub remote: bool,
    pub dir: String,
}

impl ModelConfig {
    /// The local directory holding this model's files.
    pub fn get_model_path(&self) -> (r: String)
        ensures
            r@ == join_path_spec(self.dir@, repo_name_spec(self.model)),
    {
        join_path(self.dir.as_str(), self.model.to_repo_name())
    }
}

/// The whole persisted configuration document.
#[derive(Clone, Debug)]
pub struct MindmapConfig {
    pub data_dir: String,
    pub db_path: String,
    pub log_path: String,
    pub min_score: u32,
    pub num_results: usize,
    pub server: ServerConfig,
    pub model: ModelConfig,
    pub watcher: WatcherConfig,
}

impl MindmapConfig {
    /// The configuration directory for a given home directory.
    pub fn get_config_dir(home: &str) -> (r: String)
        ensures
            r@ == config_dir_spec(home@),
    {
        let base = join_path(home, ".config/");
        join_path(base.as_str(), "mindmap")
    }

    /// The default configuration for a given home directory: notes under
    /// `notes`, store and log under the configuration directory, the small
    /// all-purpose model fetched remotely, and the loopback server address.
    pub fn default_for_home(home: &str) -> (r: MindmapConfig)
        ensures
            r.data_dir@ == join_path_spec(home@, "notes"@),
            r.db_path@ == join_path_spec(config_dir_spec(home@), "mindmap.db"@),
            r.log_path@ == join_path_spec(config_dir_spec(home@), "mindmap.log"@),
            r.min_score == DEFAULT_MIN_SCORE_BITS,
            r.num_results == DEFAULT_NUM_RESULTS,
            r.server.host@ == "127.0.0.1"@,
            r.server.port == DEFAULT_PORT,
            r.server.lock_path@ == join_path_spec(home@, ".mindmap-server.lock"@),
            r.model.model == ModelType::AllMiniLmL12V2,
            r.model.remote == true,
            r.model.dir@ == join_path_spec(config_dir_spec(home@), "models/"@),
            r.watcher.lock_path@ == join_path_spec(home@, ".mindmap-watcher.lock"@),
    {
        let config_dir = Self::get_config_dir(home);
        MindmapConfig {
            data_dir: join_path(home, "notes"),
            db_path: join_path(config_dir.as_str(), "mindmap.db"),
            log_path: join_path(config_dir.as_str(), "mindmap.log"),
            min_score: DEFAULT_MIN_SCORE_BITS,
            num_results: DEFAULT_NUM_RESULTS,
            server: ServerConfig {
                host: "127.0.0.1".to_owned(),
                port: DEFAULT_PORT,
                lock_path: join_path(home, ".mindmap-server.lock"),
            },
            model: ModelConfig {
                model: ModelType::AllMiniLmL12V2,
                remote: true,
                dir: join_path(config_dir.as_str(), "models/"),
            },
            watcher: WatcherConfig { lock_path: join_path(home, ".mindmap-watcher.lock") },
        }
    }
}

} // verus!
