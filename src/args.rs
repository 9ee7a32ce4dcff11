//! The commands of the tool and the settings they run with.
use vstd::prelude::*;

use crate::path::{has_root, is_absolute, join, joined};

verus! {

#[allow(inconsistent_fields)]
pub enum Command {
    /// Bootstrap.
    Init,
    /// Sync the named projects, or every auto-sync project where none is named.
    Sync { projects: Vec<String> },
    /// Run a shell command in every project.
    ForEach { args: String, timeout_ms: u64 },
    /// List the projects, with their fetch URL and path where asked for.
    List { fetch_url: bool, path: bool },
    /// Show one project's path.
    Path { project: String },
    /// List the projects that have uncommitted or untracked changes.
    Changed { ls_files: bool },
    /// Register a new project and run a command in it.
    Create {
        run_command: String,
        timeout_ms: u64,
        project_name: String,
        path: String,
        fetch_url: String,
        reference: String,
        auto_sync: bool,
    },
}

pub struct Args {
    pub gl_config_home: String,
    pub gl_manifest: String,
    pub verbose: usize,
    pub jobs: usize,
    pub command: Command,
}

/// A path that starts at the current directory (`.` as its first segment).
pub open spec fn from_current_dir(m: Seq<char>) -> bool {
    m.len() > 0 && m[0] == '.' && (m.len() == 1 || m[1] == '/')
}

pub open spec fn manifest_path(config_home: Seq<char>, manifest: Seq<char>) -> Seq<char> {
    if is_absolute(manifest) || from_current_dir(manifest) {
        manifest
    } else {
        joined(config_home, manifest)
    }
}

/// Where the manifest is: as given where it is absolute or starts at the
/// current directory, else under the configuration directory.
pub fn manifest_location(config_home: &str, manifest: &str) -> (r: String)
    ensures
        r@ == manifest_path(config_home@, manifest@),
{
    let n = manifest.unicode_len();
    let here = n > 0 && manifest.get_char(0) == '.' && (n == 1 || manifest.get_char(1) == '/');
    if has_root(manifest) || here {
        String::from_str(manifest)
    } else {
        join(config_home, manifest)
    }
}

/// The number of workers for `jobs` requested: at least one.
pub fn worker_count(jobs: usize) -> (r: usize)
    ensures
        r == if jobs == 0 {
            1
        } else {
            jobs
        },
{
    if jobs == 0 {
        1
    } else {
        jobs
    }
}

} // verus!
