//! Path resolution: project root and data directory for a run mode.
//!
//! Paths are held as strings. Joining, taking a parent and testing a final
//! component are done by `std::path`, whose results are pure functions of the
//! texts on the platform the library is built for; they are named here and
//! the resolution rules are stated over those names.

use vstd::prelude::*;
use vstd::string::StringExecFns;
use crate::kinds::RunMode;
use crate::process::ProcessManager;

verus! {

/// What `std::path::Path::join` gives for a base path and a part.
pub uninterp spec fn path_join(base: Seq<char>, part: Seq<char>) -> Seq<char>;

/// What `std::path::Path::parent` gives for a path.
pub uninterp spec fn path_parent(path: Seq<char>) -> Option<Seq<char>>;

/// What `std::path::Path::ends_with` gives for a path and a trailing part.
pub uninterp spec fn path_ends_with(path: Seq<char>, child: Seq<char>) -> bool;

/// Calls `std::path::Path::join` on `base` with `part` and hands the joined
/// path back as a string. Trusted: the result is the named join of the two.
#[verifier::external_body]
pub(crate) fn join_path(base: &str, part: &str) -> (joined: String)
    ensures
        joined@ == path_join(base@, part@),
{
    std::path::Path::new(base).join(part).to_string_lossy().into_owned()
}

/// Calls `std::path::Path::parent` on `path`. Trusted: the result is the
/// named parent, absent where the path has none.
#[verifier::external_body]
pub(crate) fn parent_of(path: &str) -> (parent: Option<String>)
    ensures
        opt_view(parent) == path_parent(path@),
{
    match std::path::Path::new(path).parent() {
        Some(dir) => Some(dir.to_string_lossy().into_owned()),
        None => None,
    }
}

/// Calls `std::path::Path::ends_with` on `path` with `child`. Trusted: the
/// result is the named test.
#[verifier::external_body]
pub(crate) fn ends_with_part(path: &str, child: &str) -> (found: bool)
    ensures
        found == path_ends_with(path@, child@),
{
    std::path::Path::new(path).ends_with(child)
}

/// The view of an optional string.
pub open spec fn opt_view(s: Option<String>) -> Option<Seq<char>> {
    match s {
        Some(text) => Some(text@),
        None => None,
    }
}

/// The root in development mode: the working directory, or the directory above
/// it when the working directory is the shell's own sub-directory and a
/// directory above it exists.
pub open spec fn spec_development_root(
    cwd: Seq<char>,
    in_shell_dir: bool,
    above: Option<Seq<char>>,
) -> Seq<char> {
    if in_shell_dir && above.is_some() {
        above.unwrap()
    } else {
        cwd
    }
}

/// Picks the development root from the working directory, whether it is the
/// shell's sub-directory, and the directory above it.
pub fn development_root(cwd: String, in_shell_dir: bool, above: Option<String>) -> (root: String)
    ensures
        root@ == spec_development_root(cwd@, in_shell_dir, opt_view(above)),
{
    if in_shell_dir {
        match above {
            Some(dir) => dir,
            None => cwd,
        }
    } else {
        cwd
    }
}

/// The root in production mode: the bundle's resources directory where the
/// executable sits in a bundle, else the executable's directory, else the
/// working directory.
pub open spec fn spec_production_root(
    exe_dir: Option<Seq<char>>,
    resources: Option<Seq<char>>,
    cwd: Seq<char>,
) -> Seq<char> {
    match exe_dir {
        Some(dir) => match resources {
            Some(res) => res,
            None => dir,
        },
        None => cwd,
    }
}

/// Picks the production root from the executable's directory, the bundle's
/// resources directory (present only for a bundle-style install) and the
/// working directory.
pub fn production_root(exe_dir: Option<String>, resources: Option<String>, cwd: String) -> (root:
    String)
    ensures
        root@ == spec_production_root(opt_view(exe_dir), opt_view(resources), cwd@),
{
    match exe_dir {
        Some(dir) => match resources {
            Some(res) => res,
            None => dir,
        },
        None => cwd,
    }
}

/// The working directory that is used: the one reported, or `.` where none is.
pub open spec fn spec_working_dir(cwd: Option<Seq<char>>) -> Seq<char> {
    match cwd {
        Some(dir) => dir,
        None => "."@,
    }
}

/// The resources directory of a bundle whose executable directory is
/// `exe_dir`: present where that directory is named `MacOS` and has a
/// directory above it.
pub open spec fn spec_bundle_resources(exe_dir: Seq<char>) -> Option<Seq<char>> {
    if path_ends_with(exe_dir, "MacOS"@) && path_parent(exe_dir).is_some() {
        Some(path_join(path_parent(exe_dir).unwrap(), "Resources"@))
    } else {
        None
    }
}

/// The project root for a mode, a working directory and the path of the
/// running executable.
pub open spec fn spec_project_root(
    mode: RunMode,
    cwd: Option<Seq<char>>,
    exe: Option<Seq<char>>,
) -> Seq<char> {
    let here = spec_working_dir(cwd);
    match mode {
        RunMode::Development => spec_development_root(
            here,
            path_ends_with(here, "src-tauri"@),
            path_parent(here),
        ),
        RunMode::Production => {
            let exe_dir = match exe {
                Some(path) => path_parent(path),
                None => None,
            };
            let resources = match exe_dir {
                Some(dir) => spec_bundle_resources(dir),
                None => None,
            };
            spec_production_root(exe_dir, resources, here)
        },
    }
}

impl ProcessManager {
    /// Resolves the project root. `cwd` is the current working directory and
    /// `exe` the path of the running executable, each absent where the system
    /// could not report it.
    pub fn get_project_root(mode: RunMode, cwd: Option<String>, exe: Option<String>) -> (root: String)
        ensures
            root@ == spec_project_root(mode, opt_view(cwd), opt_view(exe)),
    {
        let here = match cwd {
            Some(dir) => dir,
            None => String::from_str("."),
        };
        match mode {
            RunMode::Development => {
                let in_shell_dir = ends_with_part(here.as_str(), "src-tauri");
                let above = parent_of(here.as_str());
                development_root(here, in_shell_dir, above)
            },
            RunMode::Production => {
                let exe_dir = match exe {
                    Some(path) => parent_of(path.as_str()),
                    None => None,
                };
                let resources = match &exe_dir {
                    Some(dir) => bundle_resources(dir.as_str()),
                    None => None,
                };
                production_root(exe_dir, resources, here)
            },
        }
    }
}

/// The resources directory of a bundle-style install, where `exe_dir` is the
/// executable's directory of one.
pub fn bundle_resources(exe_dir: &str) -> (resources: Option<String>)
    ensures
        opt_view(resources) == spec_bundle_resources(exe_dir@),
{
    if ends_with_part(exe_dir, "MacOS") {
        match parent_of(exe_dir) {
            Some(contents) => Some(join_path(contents.as_str(), "Resources")),
            None => None,
        }
    } else {
        None
    }
}

/// The data directory in production mode: `.ragbase` under the home
/// directory, or `./data` where no home directory is known.
pub open spec fn spec_production_data_dir(home: Option<Seq<char>>) -> Seq<char> {
    match home {
        Some(dir) => dir + "/.ragbase"@,
        None => "./data"@,
    }
}

/// The data directory for a mode: `data` under the project root in
/// development, the production directory otherwise.
pub open spec fn spec_data_dir(
    mode: RunMode,
    project_root: Seq<char>,
    home: Option<Seq<char>>,
) -> Seq<char> {
    match mode {
        RunMode::Development => path_join(project_root, "data"@),
        RunMode::Production => spec_production_data_dir(home),
    }
}

/// The production data directory for a home directory, if one is known.
pub fn production_data_dir(home: Option<String>) -> (dir: String)
    ensures
        dir@ == spec_production_data_dir(opt_view(home)),
{
    match home {
        Some(base) => base.concat("/.ragbase"),
        None => String::from_str("./data"),
    }
}

impl ProcessManager {
    /// Resolves the data directory. The caller creates it where it is
    /// missing, before any child process starts.
    pub fn get_data_dir(mode: RunMode, project_root: &str, home: Option<String>) -> (dir: String)
        ensures
            dir@ == spec_data_dir(mode, project_root@, opt_view(home)),
    {
        match mode {
            RunMode::Development => join_path(project_root, "data"),
            RunMode::Production => production_data_dir(home),
        }
    }
}

} // verus!
