//! Launch recipes: the command line, working directory and environment of the
//! migration step, the server and the worker.

use vstd::prelude::*;
use vstd::string::StringExecFns;
use crate::kinds::{ProcessKind, RunMode};
use crate::paths::{join_path, path_join};

verus! {

/// A command to run: program, arguments, working directory and the
/// environment variables set on top of the inherited ones. Standard output
/// and error of the child go to the parent's own streams.
#[derive(Debug)]
pub struct LaunchSpec {
    pub program: String,
    pub args: Vec<String>,
    pub cwd: String,
    pub envs: Vec<(String, String)>,
}

/// The mathematical value of a `LaunchSpec`.
pub struct LaunchModel {
    pub program: Seq<char>,
    pub args: Seq<Seq<char>>,
    pub cwd: Seq<char>,
    pub envs: Seq<(Seq<char>, Seq<char>)>,
}

impl View for LaunchSpec {
    type V = LaunchModel;

    open spec fn view(&self) -> LaunchModel {
        LaunchModel {
            program: self.program@,
            args: Seq::new(self.args@.len(), |i: int| self.args@[i]@),
            cwd: self.cwd@,
            envs: Seq::new(self.envs@.len(), |i: int| (self.envs@[i].0@, self.envs@[i].1@)),
        }
    }
}

/// The script of the migration step under a project root.
pub open spec fn spec_migration_script(root: Seq<char>) -> Seq<char> {
    path_join(path_join(path_join(root, "dist"@), "db"@), "migrate.js"@)
}

/// The file name of the script that a kind of process runs.
pub open spec fn spec_script_name(kind: ProcessKind) -> Seq<char> {
    match kind {
        ProcessKind::Server => "next"@,
        ProcessKind::Worker => "tasks.js"@,
    }
}

/// The script that a kind of process runs, under a project root.
pub open spec fn spec_script(kind: ProcessKind, root: Seq<char>) -> Seq<char> {
    match kind {
        ProcessKind::Server => path_join(
            path_join(
                path_join(path_join(path_join(root, "node_modules"@), "next"@), "dist"@),
                "bin"@,
            ),
            spec_script_name(kind),
        ),
        ProcessKind::Worker => path_join(
            path_join(path_join(root, "dist"@), "app"@),
            spec_script_name(kind),
        ),
    }
}

/// The arguments that follow the script.
pub open spec fn spec_extra_args(kind: ProcessKind, mode: RunMode) -> Seq<Seq<char>> {
    match kind {
        ProcessKind::Server => match mode {
            RunMode::Development => seq!["dev"@, "--turbopack"@],
            RunMode::Production => seq!["start"@],
        },
        ProcessKind::Worker => seq![],
    }
}

/// The environment of a supervised process: the data directory, for the
/// worker a logging level, and the run mode.
pub open spec fn spec_envs(kind: ProcessKind, mode: RunMode, data_dir: Seq<char>) -> Seq<
    (Seq<char>, Seq<char>),
> {
    match kind {
        ProcessKind::Server => seq![
            ("DATA_DIRECTORY"@, data_dir),
            ("NODE_ENV"@, mode.spec_node_env()),
        ],
        ProcessKind::Worker => seq![
            ("DATA_DIRECTORY"@, data_dir),
            ("RUST_LOG"@, "info;lancedb=info"@),
            ("NODE_ENV"@, mode.spec_node_env()),
        ],
    }
}

/// The launch recipe of a supervised process whose script is `script`.
pub open spec fn spec_process_command(
    kind: ProcessKind,
    mode: RunMode,
    script: Seq<char>,
    cwd: Seq<char>,
    data_dir: Seq<char>,
) -> LaunchModel {
    LaunchModel {
        program: "node"@,
        args: seq![script] + spec_extra_args(kind, mode),
        cwd,
        envs: spec_envs(kind, mode, data_dir),
    }
}

/// The launch recipe of the migration step whose script is `script`.
pub open spec fn spec_migration_command(
    mode: RunMode,
    script: Seq<char>,
    cwd: Seq<char>,
    data_dir: Seq<char>,
) -> LaunchModel {
    LaunchModel {
        program: "node"@,
        args: seq![script],
        cwd,
        envs: seq![("DATA_DIRECTORY"@, data_dir), ("NODE_ENV"@, mode.spec_node_env())],
    }
}

/// Resolves the migration script under `root`.
pub fn migration_script(root: &str) -> (script: String)
    ensures
        script@ == spec_migration_script(root@),
{
    let dist = join_path(root, "dist");
    let db = join_path(dist.as_str(), "db");
    join_path(db.as_str(), "migrate.js")
}

/// Resolves the script of a supervised process under `root`.
pub fn script_path(kind: ProcessKind, root: &str) -> (script: String)
    ensures
        script@ == spec_script(kind, root@),
{
    match kind {
        ProcessKind::Server => {
            let modules = join_path(root, "node_modules");
            let package = join_path(modules.as_str(), "next");
            let dist = join_path(package.as_str(), "dist");
            let bin = join_path(dist.as_str(), "bin");
            join_path(bin.as_str(), "next")
        },
        ProcessKind::Worker => {
            let dist = join_path(root, "dist");
            let app = join_path(dist.as_str(), "app");
            join_path(app.as_str(), "tasks.js")
        },
    }
}

/// Builds the launch recipe of a supervised process from its resolved script.
pub fn process_command(
    kind: ProcessKind,
    mode: RunMode,
    script: String,
    cwd: String,
    data_dir: String,
) -> (spec: LaunchSpec)
    ensures
        spec@ == spec_process_command(kind, mode, script@, cwd@, data_dir@),
{
    let mut args: Vec<String> = Vec::new();
    args.push(script);
    let mut envs: Vec<(String, String)> = Vec::new();
    envs.push((String::from_str("DATA_DIRECTORY"), data_dir));
    match kind {
        ProcessKind::Server => {
            match mode {
                RunMode::Development => {
                    args.push(String::from_str("dev"));
                    args.push(String::from_str("--turbopack"));
                },
                RunMode::Production => {
                    args.push(String::from_str("start"));
                },
            }
        },
        ProcessKind::Worker => {
            envs.push((String::from_str("RUST_LOG"), String::from_str("info;lancedb=info")));
        },
    }
    envs.push((String::from_str("NODE_ENV"), mode.node_env()));
    let spec = LaunchSpec { program: String::from_str("node"), args, cwd, envs };
    assert(spec@.args =~= spec_process_command(kind, mode, script@, cwd@, data_dir@).args);
    assert(spec@.envs =~= spec_envs(kind, mode, data_dir@));
    spec
}

/// Builds the launch recipe of the migration step from its resolved script.
pub fn migration_command(mode: RunMode, script: String, cwd: String, data_dir: String) -> (spec:
    LaunchSpec)
    ensures
        spec@ == spec_migration_command(mode, script@, cwd@, data_dir@),
{
    let mut args: Vec<String> = Vec::new();
    args.push(script);
    let mut envs: Vec<(String, String)> = Vec::new();
    envs.push((String::from_str("DATA_DIRECTORY"), data_dir));
    envs.push((String::from_str("NODE_ENV"), mode.node_env()));
    let spec = LaunchSpec { program: String::from_str("node"), args, cwd, envs };
    assert(spec@.args =~= seq![script@]);
    assert(spec@.envs =~= spec_migration_command(mode, script@, cwd@, data_dir@).envs);
    spec
}

/// The launch recipe of a supervised process under a project root, which is
/// also its working directory.
pub fn launch_command(kind: ProcessKind, mode: RunMode, project_root: &str, data_dir: &str) -> (spec:
    LaunchSpec)
    ensures
        spec@ == spec_process_command(
            kind,
            mode,
            spec_script(kind, project_root@),
            project_root@,
            data_dir@,
        ),
{
    let script = script_path(kind, project_root);
    process_command(
        kind,
        mode,
        script,
        String::from_str(project_root),
        String::from_str(data_dir),
    )
}

/// How the migration step ended, as the system reported it.
#[derive(Debug)]
pub struct MigrationExit {
    /// Whether the exit code was zero.
    pub success: bool,
    /// The exit status in words.
    pub status: String,
}

/// What is reported of a migration step that ran to its end.
pub open spec fn spec_migration_exit(success: bool, status: Seq<char>) -> Result<
    (),
    Seq<char>,
> {
    if success {
        Ok(())
    } else {
        Err("Migration failed with code "@ + status)
    }
}

/// What is reported of a migration step that could not be launched.
pub open spec fn spec_migration_launch_failure(cause: Seq<char>) -> Seq<char> {
    "Failed to run migration: "@ + cause
}

/// The view of a migration report.
pub open spec fn report_view(report: Result<(), String>) -> Result<(), Seq<char>> {
    match report {
        Ok(_) => Ok(()),
        Err(text) => Err(text@),
    }
}

/// Judges the migration step: success on a zero exit code, otherwise an error
/// text that names the exit status or the cause of the failed launch.
pub fn migration_report(outcome: Result<MigrationExit, String>) -> (report: Result<(), String>)
    ensures
        report_view(report) == (match outcome {
            Ok(exit) => spec_migration_exit(exit.success, exit.status@),
            Err(cause) => Err(spec_migration_launch_failure(cause@)),
        }),
{
    match outcome {
        Ok(exit) => {
            if exit.success {
                Ok(())
            } else {
                Err(String::from_str("Migration failed with code ").concat(exit.status.as_str()))
            }
        },
        Err(cause) => Err(String::from_str("Failed to run migration: ").concat(cause.as_str())),
    }
}

} // verus!
