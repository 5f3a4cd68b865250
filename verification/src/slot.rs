//! The slot that holds at most one child process handle, and the steps that
//! terminate the process it holds.

use vstd::prelude::*;
use vstd::string::StringExecFns;
use crate::kinds::{ProcessKind, RunMode};
use crate::launch::{spec_extra_args, spec_script_name};

verus! {

/// The grace period between a termination request and a forced kill.
pub const GRACE_MILLIS: u64 = 500;

/// A spawned child process, known by its process id.
#[derive(Clone, Copy, Debug, PartialEq, Eq, Structural)]
pub struct ProcessHandle {
    pub pid: u32,
}

/// A launch signature that the final sweep looks for.
#[derive(Clone, Copy, Debug, PartialEq, Eq, Structural)]
pub enum SweepTarget {
    /// The server as it is launched in `mode`.
    Server { mode: RunMode },
    /// The worker.
    Worker,
}

impl SweepTarget {
    /// The text that a stray process's command line is matched against. For
    /// the server it is the end of its launch line in the mode: the script's
    /// file name and the first argument behind it. For the worker it is the
    /// script's file name, which ends its launch line.
    pub open spec fn spec_pattern(self) -> Seq<char> {
        match self {
            SweepTarget::Server { mode } => spec_script_name(ProcessKind::Server) + " "@
                + spec_extra_args(ProcessKind::Server, mode)[0],
            SweepTarget::Worker => spec_script_name(ProcessKind::Worker),
        }
    }

    pub fn pattern(self) -> (text: String)
        ensures
            text@ == self.spec_pattern(),
    {
        match self {
            SweepTarget::Server { mode } => {
                let word = match mode {
                    RunMode::Development => "dev",
                    RunMode::Production => "start",
                };
                String::from_str("next").concat(" ").concat(word)
            },
            SweepTarget::Worker => String::from_str("tasks.js"),
        }
    }
}

/// The steps that stop a process which no slot holds, or none where there is
/// no such process: the same as for one that a slot holds.
pub fn stop_steps(held: Option<ProcessHandle>) -> (steps: Vec<StopStep>)
    ensures
        steps@ == spec_stop_steps(held),
{
    let mut steps: Vec<StopStep> = Vec::new();
    match held {
        Some(handle) => {
            steps.push(StopStep::Terminate { pid: handle.pid });
            steps.push(StopStep::Wait { millis: GRACE_MILLIS });
            steps.push(StopStep::Reap { pid: handle.pid });
        },
        None => {},
    }
    assert(steps@ =~= spec_stop_steps(held));
    steps
}

/// One step of a termination, for the caller to perform in order.
#[derive(Clone, Copy, Debug, PartialEq, Eq, Structural)]
pub enum StopStep {
    /// Ask the process to terminate.
    Terminate { pid: u32 },
    /// Let this many milliseconds pass.
    Wait { millis: u64 },
    /// Ask whether the process has exited and perform what `escalate`
    /// answers.
    Reap { pid: u32 },
    /// Kill the processes whose parent is `pid`.
    KillDescendants { pid: u32 },
    /// Kill the process without asking.
    ForceKill { pid: u32 },
    /// Kill every process whose command line matches the target.
    Sweep { target: SweepTarget },
}

/// The steps that stop what a slot holds: none for an empty slot; for a
/// handle, a termination request, the grace period, and a check for exit.
pub open spec fn spec_stop_steps(held: Option<ProcessHandle>) -> Seq<StopStep> {
    match held {
        Some(handle) => seq![
            StopStep::Terminate { pid: handle.pid },
            StopStep::Wait { millis: GRACE_MILLIS },
            StopStep::Reap { pid: handle.pid },
        ],
        None => seq![],
    }
}

/// The steps after the grace period: none where the process has exited,
/// otherwise a kill of its descendants and a forced kill.
pub open spec fn spec_escalate(pid: u32, exited: bool) -> Seq<StopStep> {
    if exited {
        seq![]
    } else {
        seq![StopStep::KillDescendants { pid }, StopStep::ForceKill { pid }]
    }
}

/// Whether a held handle counts as running, given the process ids that the
/// system reports alive.
pub open spec fn spec_running(held: Option<ProcessHandle>, live: Seq<u32>) -> bool {
    match held {
        Some(handle) => live.contains(handle.pid),
        None => false,
    }
}

/// Decides what follows the grace period of a termination.
pub fn escalate(pid: u32, exited: bool) -> (steps: Vec<StopStep>)
    ensures
        steps@ == spec_escalate(pid, exited),
{
    let mut steps: Vec<StopStep> = Vec::new();
    if !exited {
        steps.push(StopStep::KillDescendants { pid });
        steps.push(StopStep::ForceKill { pid });
    }
    assert(steps@ =~= spec_escalate(pid, exited));
    steps
}

/// Whether `pid` occurs among `live`.
pub fn is_alive(pid: u32, live: &Vec<u32>) -> (found: bool)
    ensures
        found == live@.contains(pid),
{
    let mut i: usize = 0;
    while i < live.len()
        invariant
            i <= live.len(),
            forall|j: int| 0 <= j < i ==> live@[j] != pid,
        decreases live.len() - i,
    {
        if live[i] == pid {
            return true;
        }
        i += 1;
    }
    false
}

/// Holder of at most one child process handle.
#[derive(Debug)]
pub struct ChildProcessSlot {
    current: Option<ProcessHandle>,
}

impl View for ChildProcessSlot {
    type V = Option<ProcessHandle>;

    closed spec fn view(&self) -> Option<ProcessHandle> {
        self.current
    }
}

impl ChildProcessSlot {
    /// An empty slot.
    pub fn new() -> (slot: ChildProcessSlot)
        ensures
            slot@ is None,
    {
        ChildProcessSlot { current: None }
    }

    /// The handle that the slot holds, if any.
    pub fn handle(&self) -> (held: Option<ProcessHandle>)
        ensures
            held == self@,
    {
        self.current
    }

    /// Puts a freshly spawned handle into the slot and hands back the one it
    /// held before, which the slot then no longer owns.
    pub fn install(&mut self, handle: ProcessHandle) -> (displaced: Option<ProcessHandle>)
        ensures
            final(self)@ == Some(handle),
            displaced == old(self)@,
    {
        let displaced = self.current;
        self.current = Some(handle);
        displaced
    }

    /// Empties the slot and returns the steps that terminate what it held.
    /// On an empty slot nothing changes and no step is returned.
    pub fn stop(&mut self) -> (steps: Vec<StopStep>)
        ensures
            final(self)@ is None,
            steps@ == spec_stop_steps(old(self)@),
    {
        let steps = stop_steps(self.current);
        self.current = None;
        steps
    }

    /// True iff the slot holds a handle whose process id is among the live
    /// ones.
    pub fn is_running(&self, live: &Vec<u32>) -> (running: bool)
        ensures
            running == spec_running(self@, live@),
    {
        match self.current {
            Some(handle) => is_alive(handle.pid, live),
            None => false,
        }
    }
}

} // verus!
