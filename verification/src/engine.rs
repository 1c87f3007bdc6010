//! Configuration of the external CRS-transformation engine service.
//!
//! The engine itself is an external collaborator; this crate only decides
//! what to hand it.  Its process-wide configuration is modelled as explicit
//! state handed to every call that needs it, so callers (and tests) can reset
//! it between uses.  Installing a configuration is idempotent: the most
//! recent call wins.

use vstd::prelude::*;
use vstd::string::StringExecFns;

verus! {

/// Failure of an engine-string projection.
#[derive(Clone, Copy, PartialEq, Eq, Structural, Debug)]
pub enum EngineError {
    /// No engine configuration has ever been installed.
    NotConfigured,
    /// The identity's stored definition is internally inconsistent, so no
    /// engine-consumable form can be derived from it.
    UnrecognizedIdentity,
}

/// Options for the CRS-transformation engine: a shared-library path, a
/// definition-database path, and additional search paths, each optional.
pub struct ProjEngineOptions {
    pub shared_library_path: Option<String>,
    pub database_path: Option<String>,
    pub search_paths: Vec<String>,
}

impl ProjEngineOptions {
    /// Options with nothing set.
    pub fn new() -> (r: Self)
        ensures
            r.shared_library_path is None,
            r.database_path is None,
            r.search_paths@.len() == 0,
    {
        ProjEngineOptions {
            shared_library_path: None,
            database_path: None,
            search_paths: Vec::new(),
        }
    }

    /// The same options with the shared-library path set.
    pub fn with_shared_library(self, path: String) -> (r: Self)
        ensures
            r.shared_library_path == Some(path),
            r.database_path == self.database_path,
            r.search_paths == self.search_paths,
    {
        ProjEngineOptions {
            shared_library_path: Some(path),
            database_path: self.database_path,
            search_paths: self.search_paths,
        }
    }

    /// The same options with the definition-database path set.
    pub fn with_database_path(self, path: String) -> (r: Self)
        ensures
            r.database_path == Some(path),
            r.shared_library_path == self.shared_library_path,
            r.search_paths == self.search_paths,
    {
        ProjEngineOptions {
            shared_library_path: self.shared_library_path,
            database_path: Some(path),
            search_paths: self.search_paths,
        }
    }

    /// The same options with the search paths replaced.
    pub fn with_search_paths(self, paths: Vec<String>) -> (r: Self)
        ensures
            r.search_paths == paths,
            r.shared_library_path == self.shared_library_path,
            r.database_path == self.database_path,
    {
        ProjEngineOptions {
            shared_library_path: self.shared_library_path,
            database_path: self.database_path,
            search_paths: paths,
        }
    }
}

/// The engine configuration installed so far, if any.
pub struct EngineState {
    pub installed: Option<ProjEngineOptions>,
}

impl EngineState {
    /// A state in which no configuration has ever been installed.
    pub fn new() -> (r: Self)
        ensures
            r.installed is None,
    {
        EngineState { installed: None }
    }

    /// Installs a configuration; the most recent call wins.
    pub fn configure(&mut self, options: ProjEngineOptions)
        ensures
            final(self).installed == Some(options),
    {
        self.installed = Some(options);
    }
}

/// Builds engine options from up to three optional paths, exactly as the
/// caller-facing configuration entry point supplies them.
pub fn options_from_paths(
    shared_library_path: Option<&str>,
    database_path: Option<&str>,
    search_path: Option<&str>,
) -> (r: ProjEngineOptions)
    ensures
        match shared_library_path {
            Some(p) => r.shared_library_path matches Some(q) && q@ == p@,
            None => r.shared_library_path is None,
        },
        match database_path {
            Some(p) => r.database_path matches Some(q) && q@ == p@,
            None => r.database_path is None,
        },
        match search_path {
            Some(p) => r.search_paths@.len() == 1 && r.search_paths@[0]@ == p@,
            None => r.search_paths@.len() == 0,
        },
{
    let mut builder = ProjEngineOptions::new();
    if let Some(p) = shared_library_path {
        builder = builder.with_shared_library(String::from_str(p));
    }
    if let Some(p) = database_path {
        builder = builder.with_database_path(String::from_str(p));
    }
    if let Some(p) = search_path {
        let mut paths: Vec<String> = Vec::new();
        paths.push(String::from_str(p));
        builder = builder.with_search_paths(paths);
    }
    builder
}

} // verus!
