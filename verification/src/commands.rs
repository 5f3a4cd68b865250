//! The operations offered to the desktop shell: what each answers, given what
//! the shell observed.

use vstd::prelude::*;
use vstd::string::StringExecFns;
use crate::kinds::{ProcessKind, RunMode};
use crate::launch::{spec_process_command, spec_script, LaunchSpec};
use crate::paths::{opt_view, spec_data_dir, spec_project_root};
use crate::process::ProcessManager;
use crate::slot::{spec_stop_steps, StopStep};

verus! {

/// The answer to a request to open a file.
#[derive(Debug)]
pub struct OpenFileResult {
    pub success: bool,
    pub error: Option<String>,
}

/// A point-in-time view of the two supervised processes.
#[derive(Clone, Copy, Debug, PartialEq, Eq, Structural)]
pub struct ProcessStatus {
    pub next_running: bool,
    pub tasks_running: bool,
}

/// What the shell shows about the installation.
#[derive(Debug)]
pub struct AppInfo {
    pub data_dir: String,
    pub is_dev: bool,
    pub project_root: String,
}

/// What a restart consists of: the steps that stop the old process, to be
/// performed to their end, and then the launch of the new one.
#[derive(Debug)]
pub struct RestartPlan {
    pub stop: Vec<StopStep>,
    pub launch: LaunchSpec,
}

/// The view of a result that carries texts on both sides.
pub open spec fn text_result_view(r: Result<String, String>) -> Result<Seq<char>, Seq<char>> {
    match r {
        Ok(text) => Ok(text@),
        Err(text) => Err(text@),
    }
}

/// Answers a folder selection. `received` is what came back from the picker:
/// the chosen paths, nothing where the user cancelled, or the reason why no
/// answer arrived. A cancelled selection is an empty list.
pub fn select_directories(received: Result<Option<Vec<String>>, String>) -> (listing: Result<
    Vec<String>,
    String,
>)
    ensures
        match received {
            Ok(Some(paths)) => listing == Ok::<Vec<String>, String>(paths),
            Ok(None) => listing is Ok && listing->Ok_0@.len() == 0,
            Err(cause) => listing is Err && listing->Err_0@
                == "Failed to receive directory selection result: "@ + cause@,
        },
{
    match received {
        Ok(Some(paths)) => Ok(paths),
        Ok(None) => Ok(Vec::new()),
        Err(cause) => Err(
            String::from_str("Failed to receive directory selection result: ").concat(
                cause.as_str(),
            ),
        ),
    }
}

/// The error text of an answer to a request to open a file: none on success.
pub open spec fn spec_open_error(exists: bool, opened: Result<(), String>) -> Option<Seq<char>> {
    if !exists {
        Some("File does not exist"@)
    } else {
        match opened {
            Ok(_) => None,
            Err(cause) => Some("Failed to open file: "@ + cause@),
        }
    }
}

/// Answers a request to open a file. `exists` tells whether the path is
/// there; `opened` is what the opener reported and counts only where the path
/// exists, since a missing path is never handed to the opener.
pub fn open_file(exists: bool, opened: Result<(), String>) -> (answer: OpenFileResult)
    ensures
        answer.success == (exists && opened is Ok),
        opt_view(answer.error) == spec_open_error(exists, opened),
{
    if !exists {
        OpenFileResult { success: false, error: Some(String::from_str("File does not exist")) }
    } else {
        match opened {
            Ok(_) => OpenFileResult { success: true, error: None },
            Err(cause) => OpenFileResult {
                success: false,
                error: Some(String::from_str("Failed to open file: ").concat(cause.as_str())),
            },
        }
    }
}

/// Answers a request for the data directory, which the caller has just tried
/// to create: the directory, or why it could not be created.
pub fn get_app_data_dir(data_dir: String, created: Result<(), String>) -> (answer: Result<
    String,
    String,
>)
    ensures
        text_result_view(answer) == (match created {
            Ok(_) => Ok::<Seq<char>, Seq<char>>(data_dir@),
            Err(cause) => Err("Failed to create data directory: "@ + cause@),
        }),
{
    match created {
        Ok(_) => Ok(data_dir),
        Err(cause) => Err(
            String::from_str("Failed to create data directory: ").concat(cause.as_str()),
        ),
    }
}

/// Describes the installation: the run mode, the project root as it is
/// resolved for that mode from the working directory and the path of the
/// running executable, and the data directory as it is resolved for that
/// mode under that root and the home directory.
pub fn get_app_info(
    mode: RunMode,
    cwd: Option<String>,
    exe: Option<String>,
    home: Option<String>,
) -> (info: AppInfo)
    ensures
        info.is_dev == mode.is_development(),
        info.project_root@ == spec_project_root(mode, opt_view(cwd), opt_view(exe)),
        info.data_dir@ == spec_data_dir(
            mode,
            spec_project_root(mode, opt_view(cwd), opt_view(exe)),
            opt_view(home),
        ),
{
    let project_root = ProcessManager::get_project_root(mode, cwd, exe);
    let data_dir = ProcessManager::get_data_dir(mode, project_root.as_str(), home);
    AppInfo { data_dir, is_dev: mode.is_dev(), project_root }
}

/// Reports which of the two processes are running, given the process ids
/// that the system reports alive.
pub fn check_process_status(manager: &ProcessManager, live: &Vec<u32>) -> (status: ProcessStatus)
    ensures
        status.next_running == manager@.running(ProcessKind::Server, live@),
        status.tasks_running == manager@.running(ProcessKind::Worker, live@),
{
    let (next_running, tasks_running) = manager.check_processes_health(live);
    ProcessStatus { next_running, tasks_running }
}

/// Plans a restart of `kind`: its slot is emptied, the old process is
/// stopped first, the new one launched after.
pub fn restart(
    manager: &mut ProcessManager,
    kind: ProcessKind,
    mode: RunMode,
    project_root: &str,
    data_dir: &str,
) -> (plan: RestartPlan)
    requires
        old(manager)@.wf(),
    ensures
        final(manager)@ == old(manager)@.stop(kind),
        final(manager)@.wf(),
        plan.stop@ == spec_stop_steps(old(manager)@.slot(kind)),
        plan.launch@ == spec_process_command(
            kind,
            mode,
            spec_script(kind, project_root@),
            project_root@,
            data_dir@,
        ),
{
    let stop = manager.stop(kind);
    let launch = match kind {
        ProcessKind::Server => manager.start_next_server(mode, project_root, data_dir),
        ProcessKind::Worker => manager.start_background_tasks(mode, project_root, data_dir),
    };
    RestartPlan { stop, launch }
}

/// Plans a restart of the server.
pub fn restart_next_server(
    manager: &mut ProcessManager,
    mode: RunMode,
    project_root: &str,
    data_dir: &str,
) -> (plan: RestartPlan)
    requires
        old(manager)@.wf(),
    ensures
        final(manager)@ == old(manager)@.stop(ProcessKind::Server),
        final(manager)@.wf(),
        plan.stop@ == spec_stop_steps(old(manager)@.server),
        plan.launch@ == spec_process_command(
            ProcessKind::Server,
            mode,
            spec_script(ProcessKind::Server, project_root@),
            project_root@,
            data_dir@,
        ),
{
    restart(manager, ProcessKind::Server, mode, project_root, data_dir)
}

/// Plans a restart of the worker.
pub fn restart_background_tasks(
    manager: &mut ProcessManager,
    mode: RunMode,
    project_root: &str,
    data_dir: &str,
) -> (plan: RestartPlan)
    requires
        old(manager)@.wf(),
    ensures
        final(manager)@ == old(manager)@.stop(ProcessKind::Worker),
        final(manager)@.wf(),
        plan.stop@ == spec_stop_steps(old(manager)@.worker),
        plan.launch@ == spec_process_command(
            ProcessKind::Worker,
            mode,
            spec_script(ProcessKind::Worker, project_root@),
            project_root@,
            data_dir@,
        ),
{
    restart(manager, ProcessKind::Worker, mode, project_root, data_dir)
}

/// The launch of the server, as asked for by the shell.
pub fn start_next_server(
    manager: &ProcessManager,
    mode: RunMode,
    project_root: &str,
    data_dir: &str,
) -> (launch: LaunchSpec)
    ensures
        launch@ == spec_process_command(
            ProcessKind::Server,
            mode,
            spec_script(ProcessKind::Server, project_root@),
            project_root@,
            data_dir@,
        ),
{
    manager.start_next_server(mode, project_root, data_dir)
}

/// The launch of the worker, as asked for by the shell.
pub fn start_background_tasks(
    manager: &ProcessManager,
    mode: RunMode,
    project_root: &str,
    data_dir: &str,
) -> (launch: LaunchSpec)
    ensures
        launch@ == spec_process_command(
            ProcessKind::Worker,
            mode,
            spec_script(ProcessKind::Worker, project_root@),
            project_root@,
            data_dir@,
        ),
{
    manager.start_background_tasks(mode, project_root, data_dir)
}

} // verus!
