//! The supervisor: two slots, a lifecycle phase, and the decisions taken on
//! each event of the application's life.

use vstd::prelude::*;
use vstd::string::StringExecFns;
use crate::kinds::{ProcessKind, RunMode};
use crate::launch::{
    launch_command, migration_command, migration_script, spec_migration_command,
    spec_migration_script, spec_process_command, spec_script, LaunchSpec,
};
use crate::slot::{
    spec_running, spec_stop_steps, ChildProcessSlot, ProcessHandle, StopStep, SweepTarget,
};

verus! {

/// The port on which the server is expected to listen.
pub const SERVER_PORT: u16 = 3000;

/// How long readiness of the server is waited for, in seconds.
pub const READY_TIMEOUT_SECONDS: u64 = 30;

/// The time between two health checks, in seconds.
pub const HEALTH_INTERVAL_SECONDS: u64 = 30;

/// Where the supervisor stands in its life.
#[derive(Clone, Copy, Debug, PartialEq, Eq, Structural)]
pub enum Phase {
    Uninitialized,
    Migrating,
    Starting,
    Ready,
    Running,
    ShuttingDown,
    Stopped,
}

impl Phase {
    /// True once a full stop has begun: no process is taken in from then on.
    pub open spec fn spec_closing(self) -> bool {
        self == Phase::ShuttingDown || self == Phase::Stopped
    }

    #[verifier::when_used_as_spec(spec_closing)]
    pub fn closing(self) -> (closing: bool)
        ensures
            closing == self.spec_closing(),
    {
        match self {
            Phase::ShuttingDown => true,
            Phase::Stopped => true,
            _ => false,
        }
    }
}

/// What happened, as the caller reports it to the supervisor.
#[derive(Clone, Copy, Debug, PartialEq, Eq, Structural)]
pub enum Event {
    /// The application is being set up.
    Setup,
    /// The migration step resolved, well or badly.
    MigrationResolved { success: bool },
    /// Waiting for the server's port ended; `occupied` is false on a timeout.
    PortResolved { occupied: bool },
    /// The window was pointed at the server, or could not be.
    WindowSettled,
    /// The health-check interval elapsed.
    HealthTick,
    /// The steps of a full stop were all performed.
    StopCompleted,
}

/// What the caller is to do next.
#[derive(Clone, Copy, Debug, PartialEq, Eq, Structural)]
pub enum Directive {
    /// Run the migration step and report how it resolved.
    RunMigration,
    /// Launch a supervised process in the background.
    Start { kind: ProcessKind },
    /// Wait in the background until the port is occupied or the time is up.
    WaitForPort { port: u16, timeout_seconds: u64 },
    /// Point the window at the server's address.
    PointWindow,
    /// Report a health tick every so many seconds from now on.
    ScheduleHealthChecks { interval_seconds: u64 },
    /// Collect the live process ids and ask which kinds to start again.
    CheckHealth,
    /// Leave the host process.
    Exit,
}

/// What became of a freshly spawned process.
#[derive(Clone, Copy, Debug, PartialEq, Eq, Structural)]
pub enum SpawnVerdict {
    /// The slot now holds it; `displaced` is the handle that the slot held
    /// before and no longer owns.
    Installed { displaced: Option<ProcessHandle> },
    /// A full stop has begun: the slot stays empty and the caller terminates
    /// the process.
    Discarded { pid: u32 },
}

/// The mathematical value of a supervisor.
pub struct ManagerModel {
    pub server: Option<ProcessHandle>,
    pub worker: Option<ProcessHandle>,
    pub phase: Phase,
}

impl ManagerModel {
    /// What the slot of a kind holds.
    pub open spec fn slot(self, kind: ProcessKind) -> Option<ProcessHandle> {
        match kind {
            ProcessKind::Server => self.server,
            ProcessKind::Worker => self.worker,
        }
    }

    /// The same supervisor with the slot of `kind` holding `held`.
    pub open spec fn with_slot(self, kind: ProcessKind, held: Option<ProcessHandle>) -> ManagerModel {
        match kind {
            ProcessKind::Server => ManagerModel { server: held, ..self },
            ProcessKind::Worker => ManagerModel { worker: held, ..self },
        }
    }

    /// Once a full stop has begun both slots are empty.
    pub open spec fn wf(self) -> bool {
        self.phase.spec_closing() ==> self.server is None && self.worker is None
    }

    /// The supervisor at construction.
    pub open spec fn initial() -> ManagerModel {
        ManagerModel { server: None, worker: None, phase: Phase::Uninitialized }
    }

    /// The phase that an event leads to.
    pub open spec fn next_phase(self, event: Event) -> Phase {
        match (self.phase, event) {
            (Phase::Uninitialized, Event::Setup) => Phase::Migrating,
            (Phase::Migrating, Event::MigrationResolved { .. }) => Phase::Starting,
            (Phase::Starting, Event::PortResolved { .. }) => Phase::Ready,
            (Phase::Ready, Event::WindowSettled) => Phase::Running,
            (Phase::ShuttingDown, Event::StopCompleted) => Phase::Stopped,
            _ => self.phase,
        }
    }

    /// What the caller is told to do on an event.
    pub open spec fn directives(self, event: Event) -> Seq<Directive> {
        match (self.phase, event) {
            (Phase::Uninitialized, Event::Setup) => seq![Directive::RunMigration],
            (Phase::Migrating, Event::MigrationResolved { .. }) => seq![
                Directive::Start { kind: ProcessKind::Server },
                Directive::Start { kind: ProcessKind::Worker },
                Directive::WaitForPort {
                    port: SERVER_PORT,
                    timeout_seconds: READY_TIMEOUT_SECONDS,
                },
            ],
            (Phase::Starting, Event::PortResolved { occupied }) => if occupied {
                seq![Directive::PointWindow]
            } else {
                seq![]
            },
            (Phase::Ready, Event::WindowSettled) => seq![
                Directive::ScheduleHealthChecks { interval_seconds: HEALTH_INTERVAL_SECONDS },
            ],
            (Phase::Running, Event::HealthTick) => seq![Directive::CheckHealth],
            (Phase::ShuttingDown, Event::StopCompleted) => seq![Directive::Exit],
            _ => seq![],
        }
    }

    /// The supervisor after an event: only the phase moves.
    pub open spec fn advance(self, event: Event) -> ManagerModel {
        ManagerModel { phase: self.next_phase(event), ..self }
    }

    /// The supervisor after a spawn of `kind` was reported.
    pub open spec fn record_spawn(self, kind: ProcessKind, handle: ProcessHandle) -> ManagerModel {
        if self.phase.spec_closing() {
            self
        } else {
            self.with_slot(kind, Some(handle))
        }
    }

    /// What is answered to a reported spawn.
    pub open spec fn spawn_verdict(self, kind: ProcessKind, handle: ProcessHandle) -> SpawnVerdict {
        if self.phase.spec_closing() {
            SpawnVerdict::Discarded { pid: handle.pid }
        } else {
            SpawnVerdict::Installed { displaced: self.slot(kind) }
        }
    }

    /// The supervisor after the slot of `kind` was stopped.
    pub open spec fn stop(self, kind: ProcessKind) -> ManagerModel {
        self.with_slot(kind, None)
    }

    /// The supervisor after a full stop began.
    pub open spec fn stop_all(self) -> ManagerModel {
        ManagerModel {
            server: None,
            worker: None,
            phase: if self.phase == Phase::Stopped {
                Phase::Stopped
            } else {
                Phase::ShuttingDown
            },
        }
    }

    /// The steps of a full stop in a run mode: the server's, then the
    /// worker's, then the sweep for strays that carry the launch signature of
    /// the server in that mode or that of the worker.
    pub open spec fn stop_all_steps(self, mode: RunMode) -> Seq<StopStep> {
        spec_stop_steps(self.server) + spec_stop_steps(self.worker) + seq![
            StopStep::Sweep { target: SweepTarget::Server { mode } },
            StopStep::Sweep { target: SweepTarget::Worker },
        ]
    }

    /// Whether the process of `kind` is running, given the live process ids.
    pub open spec fn running(self, kind: ProcessKind, live: Seq<u32>) -> bool {
        spec_running(self.slot(kind), live)
    }

    /// The kinds that a health check starts again: in the running phase,
    /// each kind that is not running, the server first.
    pub open spec fn restarts(self, live: Seq<u32>) -> Seq<ProcessKind> {
        if self.phase == Phase::Running {
            (if self.running(ProcessKind::Server, live) {
                seq![]
            } else {
                seq![ProcessKind::Server]
            }) + (if self.running(ProcessKind::Worker, live) {
                seq![]
            } else {
                seq![ProcessKind::Worker]
            })
        } else {
            seq![]
        }
    }
}

/// How a supervised process is called in messages.
pub open spec fn spec_display_name(kind: ProcessKind) -> Seq<char> {
    match kind {
        ProcessKind::Server => "Next.js server"@,
        ProcessKind::Worker => "background tasks"@,
    }
}

/// The text shown when a start, or a restart, of `kind` failed for `cause`.
pub open spec fn spec_failure_text(kind: ProcessKind, restarting: bool, cause: Seq<char>) -> Seq<
    char,
> {
    (if restarting {
        "Failed to restart "@
    } else {
        "Failed to start "@
    }) + spec_display_name(kind) + ": "@ + cause
}

/// Words a failed start or restart for the shell.
pub fn failure_text(kind: ProcessKind, restarting: bool, cause: &str) -> (text: String)
    ensures
        text@ == spec_failure_text(kind, restarting, cause@),
{
    let lead = if restarting {
        String::from_str("Failed to restart ")
    } else {
        String::from_str("Failed to start ")
    };
    let name = match kind {
        ProcessKind::Server => "Next.js server",
        ProcessKind::Worker => "background tasks",
    };
    lead.concat(name).concat(": ").concat(cause)
}

/// The view of what is answered to the outcome of a start.
pub open spec fn start_view(answer: Result<SpawnVerdict, String>) -> Result<
    SpawnVerdict,
    Seq<char>,
> {
    match answer {
        Ok(verdict) => Ok(verdict),
        Err(text) => Err(text@),
    }
}

/// The supervisor of the server and the worker process.
#[derive(Debug)]
pub struct ProcessManager {
    next_process: ChildProcessSlot,
    tasks_process: ChildProcessSlot,
    phase: Phase,
}

impl View for ProcessManager {
    type V = ManagerModel;

    closed spec fn view(&self) -> ManagerModel {
        ManagerModel {
            server: self.next_process@,
            worker: self.tasks_process@,
            phase: self.phase,
        }
    }
}

impl ProcessManager {
    /// A supervisor with two empty slots, not yet set up.
    pub fn new() -> (manager: ProcessManager)
        ensures
            manager@ == ManagerModel::initial(),
            manager@.wf(),
    {
        ProcessManager {
            next_process: ChildProcessSlot::new(),
            tasks_process: ChildProcessSlot::new(),
            phase: Phase::Uninitialized,
        }
    }

    /// The phase the supervisor is in.
    pub fn phase(&self) -> (phase: Phase)
        ensures
            phase == self@.phase,
    {
        self.phase
    }

    /// Whether both slots are empty once a full stop has begun. Every
    /// operation keeps this true.
    pub fn is_well_formed(&self) -> (ok: bool)
        ensures
            ok == self@.wf(),
    {
        !self.phase.closing() || (self.next_process.handle().is_none()
            && self.tasks_process.handle().is_none())
    }

    /// The handle that the slot of `kind` holds, if any.
    pub fn handle(&self, kind: ProcessKind) -> (held: Option<ProcessHandle>)
        ensures
            held == self@.slot(kind),
    {
        match kind {
            ProcessKind::Server => self.next_process.handle(),
            ProcessKind::Worker => self.tasks_process.handle(),
        }
    }

    /// Takes an event in: moves the phase and says what to do next. An event
    /// that does not belong to the current phase changes nothing.
    pub fn advance(&mut self, event: Event) -> (todo: Vec<Directive>)
        requires
            old(self)@.wf(),
        ensures
            final(self)@ == old(self)@.advance(event),
            todo@ == old(self)@.directives(event),
            final(self)@.wf(),
    {
        let mut todo: Vec<Directive> = Vec::new();
        match (self.phase, event) {
            (Phase::Uninitialized, Event::Setup) => {
                todo.push(Directive::RunMigration);
                self.phase = Phase::Migrating;
            },
            (Phase::Migrating, Event::MigrationResolved { .. }) => {
                todo.push(Directive::Start { kind: ProcessKind::Server });
                todo.push(Directive::Start { kind: ProcessKind::Worker });
                todo.push(
                    Directive::WaitForPort {
                        port: SERVER_PORT,
                        timeout_seconds: READY_TIMEOUT_SECONDS,
                    },
                );
                self.phase = Phase::Starting;
            },
            (Phase::Starting, Event::PortResolved { occupied }) => {
                if occupied {
                    todo.push(Directive::PointWindow);
                }
                self.phase = Phase::Ready;
            },
            (Phase::Ready, Event::WindowSettled) => {
                todo.push(
                    Directive::ScheduleHealthChecks { interval_seconds: HEALTH_INTERVAL_SECONDS },
                );
                self.phase = Phase::Running;
            },
            (Phase::Running, Event::HealthTick) => {
                todo.push(Directive::CheckHealth);
            },
            (Phase::ShuttingDown, Event::StopCompleted) => {
                todo.push(Directive::Exit);
                self.phase = Phase::Stopped;
            },
            _ => {},
        }
        assert(todo@ =~= old(self)@.directives(event));
        todo
    }

    /// The launch recipe of the migration step. The project root is also its
    /// working directory.
    pub fn run_database_migration(&self, mode: RunMode, project_root: &str, data_dir: &str) -> (spec:
        LaunchSpec)
        ensures
            spec@ == spec_migration_command(
                mode,
                spec_migration_script(project_root@),
                project_root@,
                data_dir@,
            ),
    {
        let script = migration_script(project_root);
        migration_command(
            mode,
            script,
            project_root.to_owned(),
            data_dir.to_owned(),
        )
    }

    /// The launch recipe of the server.
    pub fn start_next_server(&self, mode: RunMode, project_root: &str, data_dir: &str) -> (spec:
        LaunchSpec)
        ensures
            spec@ == spec_process_command(
                ProcessKind::Server,
                mode,
                spec_script(ProcessKind::Server, project_root@),
                project_root@,
                data_dir@,
            ),
    {
        launch_command(ProcessKind::Server, mode, project_root, data_dir)
    }

    /// The launch recipe of the worker.
    pub fn start_background_tasks(&self, mode: RunMode, project_root: &str, data_dir: &str) -> (spec:
        LaunchSpec)
        ensures
            spec@ == spec_process_command(
                ProcessKind::Worker,
                mode,
                spec_script(ProcessKind::Worker, project_root@),
                project_root@,
                data_dir@,
            ),
    {
        launch_command(ProcessKind::Worker, mode, project_root, data_dir)
    }

    /// Takes in a process that was spawned for `kind`. Before a full stop it
    /// goes into the slot; after one has begun the slot stays empty and the
    /// process is handed back to be terminated.
    pub fn record_spawn(&mut self, kind: ProcessKind, handle: ProcessHandle) -> (verdict:
        SpawnVerdict)
        requires
            old(self)@.wf(),
        ensures
            final(self)@ == old(self)@.record_spawn(kind, handle),
            verdict == old(self)@.spawn_verdict(kind, handle),
            final(self)@.wf(),
    {
        if self.phase.closing() {
            SpawnVerdict::Discarded { pid: handle.pid }
        } else {
            let displaced = match kind {
                ProcessKind::Server => self.next_process.install(handle),
                ProcessKind::Worker => self.tasks_process.install(handle),
            };
            SpawnVerdict::Installed { displaced }
        }
    }

    /// Takes in the outcome of a start, or of the start within a restart,
    /// of `kind`: a spawned process is taken in as by `record_spawn`; a
    /// failure leaves the supervisor as it was and is worded for the shell.
    pub fn finish_start(
        &mut self,
        kind: ProcessKind,
        restarting: bool,
        spawned: Result<ProcessHandle, String>,
    ) -> (answer: Result<SpawnVerdict, String>)
        requires
            old(self)@.wf(),
        ensures
            final(self)@.wf(),
            match spawned {
                Ok(handle) => final(self)@ == old(self)@.record_spawn(kind, handle)
                    && start_view(answer) == Ok::<SpawnVerdict, Seq<char>>(
                    old(self)@.spawn_verdict(kind, handle),
                ),
                Err(cause) => final(self)@ == old(self)@ && start_view(answer) == Err::<
                    SpawnVerdict,
                    Seq<char>,
                >(spec_failure_text(kind, restarting, cause@)),
            },
    {
        match spawned {
            Ok(handle) => Ok(self.record_spawn(kind, handle)),
            Err(cause) => Err(failure_text(kind, restarting, cause.as_str())),
        }
    }

    /// Empties the slot of `kind` and returns the steps that terminate what
    /// it held: the first half of a restart.
    pub fn stop(&mut self, kind: ProcessKind) -> (steps: Vec<StopStep>)
        requires
            old(self)@.wf(),
        ensures
            final(self)@ == old(self)@.stop(kind),
            steps@ == spec_stop_steps(old(self)@.slot(kind)),
            final(self)@.wf(),
    {
        match kind {
            ProcessKind::Server => self.next_process.stop(),
            ProcessKind::Worker => self.tasks_process.stop(),
        }
    }

    /// Begins a full stop: empties both slots, enters the shutting-down phase
    /// unless already stopped, and returns the steps that terminate the
    /// server, then the worker, then sweep for strays launched as the server
    /// is in `mode` or as the worker is.
    pub fn stop_all_processes(&mut self, mode: RunMode) -> (steps: Vec<StopStep>)
        ensures
            final(self)@ == old(self)@.stop_all(),
            steps@ == old(self)@.stop_all_steps(mode),
            final(self)@.wf(),
    {
        let mut steps = self.next_process.stop();
        let mut worker_steps = self.tasks_process.stop();
        steps.append(&mut worker_steps);
        steps.push(StopStep::Sweep { target: SweepTarget::Server { mode } });
        steps.push(StopStep::Sweep { target: SweepTarget::Worker });
        match self.phase {
            Phase::Stopped => {},
            _ => {
                self.phase = Phase::ShuttingDown;
            },
        }
        assert(steps@ =~= old(self)@.stop_all_steps(mode));
        steps
    }

    /// Whether each process is running: the server first, then the worker.
    pub fn check_processes_health(&self, live: &Vec<u32>) -> (health: (bool, bool))
        ensures
            health.0 == self@.running(ProcessKind::Server, live@),
            health.1 == self@.running(ProcessKind::Worker, live@),
    {
        (self.next_process.is_running(live), self.tasks_process.is_running(live))
    }

    /// The kinds to start again at a health check.
    pub fn health_check(&self, live: &Vec<u32>) -> (kinds: Vec<ProcessKind>)
        ensures
            kinds@ == self@.restarts(live@),
    {
        let mut kinds: Vec<ProcessKind> = Vec::new();
        match self.phase {
            Phase::Running => {
                let (server_running, worker_running) = self.check_processes_health(live);
                if !server_running {
                    kinds.push(ProcessKind::Server);
                }
                if !worker_running {
                    kinds.push(ProcessKind::Worker);
                }
            },
            _ => {},
        }
        assert(kinds@ =~= self@.restarts(live@));
        kinds
    }
}

} // verus!
