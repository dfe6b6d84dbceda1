//! The agent's configuration and its built-in defaults.

use vstd::prelude::*;

use crate::paths::{path_parent, spec_path_parent};

verus! {

/// Where to watch, where sorted documents go, where to log, and which file
/// extensions are handled. Paths are kept as strings.
#[derive(Debug, Clone)]
pub struct Config {
    pub watch_path: String,
    pub root_path: String,
    pub log_file: String,
    pub allowed_file_extensions: Vec<String>,
}

/// The extensions handled by default.
pub open spec fn default_extensions() -> Seq<Seq<char>> {
    seq!["pdf"@, "docx"@, "xls"@, "xlsx"@]
}

/// The characters of each string, in order.
pub open spec fn string_views(v: Seq<String>) -> Seq<Seq<char>> {
    v.map_values(|s: String| s@)
}

impl Config {
    /// The configured extensions, as character sequences.
    pub open spec fn extensions(&self) -> Seq<Seq<char>> {
        string_views(self.allowed_file_extensions@)
    }
}

impl Default for Config {
    /// Watch `./bucket`, sort into `./docs`, log to `./logs/docsort.log`, and
    /// handle PDF, Word and Excel files.
    fn default() -> (res: Self)
        ensures
            res.watch_path@ == "./bucket"@,
            res.root_path@ == "./docs"@,
            res.log_file@ == "./logs/docsort.log"@,
            res.extensions() == default_extensions(),
    {
        let mut exts: Vec<String> = Vec::new();
        exts.push(String::from_str("pdf"));
        exts.push(String::from_str("docx"));
        exts.push(String::from_str("xls"));
        exts.push(String::from_str("xlsx"));
        let res = Config {
            watch_path: String::from_str("./bucket"),
            root_path: String::from_str("./docs"),
            log_file: String::from_str("./logs/docsort.log"),
            allowed_file_extensions: exts,
        };
        assert(res.extensions() =~= default_extensions());
        res
    }
}

/// The folder that holds the log file, given the parent of its path: the
/// parent, or the current folder when the path has none.
pub fn log_directory_from_parent(parent: Option<String>) -> (res: String)
    ensures
        res@ == (match parent {
            Some(p) => p@,
            None => "."@,
        }),
{
    match parent {
        Some(p) => p,
        None => String::from_str("."),
    }
}

/// The folder that holds the log file: its parent, or the current folder
/// when the path has none.
pub fn log_directory(log_file: &str) -> (res: String)
    ensures
        res@ == (match spec_path_parent(log_file@) {
            Some(parent) => parent,
            None => "."@,
        }),
{
    log_directory_from_parent(path_parent(log_file))
}

/// The configuration to run with, from what reading the configuration file
/// gave: the file's contents, or the built-in defaults when it could not be
/// read. The flag says whether the defaults should be written back.
pub fn config_or_defaults(loaded: Option<Config>) -> (res: (Config, bool))
    ensures
        (match loaded {
            Some(cfg) => res.0 == cfg && !res.1,
            None => {
                &&& res.1
                &&& res.0.watch_path@ == "./bucket"@
                &&& res.0.root_path@ == "./docs"@
                &&& res.0.log_file@ == "./logs/docsort.log"@
                &&& res.0.extensions() == default_extensions()
            },
        }),
{
    match loaded {
        Some(cfg) => (cfg, false),
        None => (Config::default(), true),
    }
}

} // verus!
