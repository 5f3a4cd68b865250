//! What holds of the supervisor over whole runs: facts that relate several
//! of its operations, proved over the same models that their contracts use.

use vstd::prelude::*;
use crate::kinds::{ProcessKind, RunMode};
use crate::launch::{spec_process_command, spec_script_name};
use crate::process::{Event, ManagerModel, Phase, SpawnVerdict};
use crate::slot::{spec_running, spec_stop_steps, ProcessHandle, StopStep, SweepTarget};

verus! {

/// The supervisor together with the processes of one kind that this run has
/// spawned and that are still alive.
pub struct World {
    pub manager: ManagerModel,
    pub alive: Set<u32>,
}

/// Something that happens to the slot of one kind.
pub enum SlotOp {
    /// A process was spawned and reported to the supervisor.
    Spawned { handle: ProcessHandle },
    /// The slot was stopped and the steps performed to their end.
    Stopped,
    /// A full stop was begun in a run mode and its steps performed to their
    /// end.
    FullStop { mode: RunMode },
    /// A process died by itself.
    Died { pid: u32 },
    /// An event of the lifecycle was taken in.
    Lifecycle { event: Event },
}

/// The processes left alive once the steps have been performed to their end:
/// a process whose exit was checked after the grace period has either exited
/// or been killed by the escalation.
pub open spec fn survivors(alive: Set<u32>, steps: Seq<StopStep>) -> Set<u32> {
    Set::new(|pid: u32| alive.contains(pid) && !steps.contains(StopStep::Reap { pid }))
}

/// The world after one operation on the slot of `kind`. A spawned process
/// that the supervisor discards is terminated by the caller and never counts
/// as alive.
pub open spec fn apply(world: World, kind: ProcessKind, op: SlotOp) -> World {
    match op {
        SlotOp::Spawned { handle } => World {
            manager: world.manager.record_spawn(kind, handle),
            alive: match world.manager.spawn_verdict(kind, handle) {
                SpawnVerdict::Installed { .. } => world.alive.insert(handle.pid),
                SpawnVerdict::Discarded { .. } => world.alive,
            },
        },
        SlotOp::Stopped => World {
            manager: world.manager.stop(kind),
            alive: survivors(world.alive, spec_stop_steps(world.manager.slot(kind))),
        },
        SlotOp::FullStop { mode } => World {
            manager: world.manager.stop_all(),
            alive: survivors(world.alive, world.manager.stop_all_steps(mode)),
        },
        SlotOp::Died { pid } => World { manager: world.manager, alive: world.alive.remove(pid) },
        SlotOp::Lifecycle { event } => World {
            manager: world.manager.advance(event),
            alive: world.alive,
        },
    }
}

/// The rule that callers keep: a new process is spawned for a kind only
/// while the slot of that kind does not hold another that is alive, which is
/// so after a stop (the restart) and where a health check found it not
/// running.
pub open spec fn permitted(world: World, kind: ProcessKind, op: SlotOp) -> bool {
    match op {
        SlotOp::Spawned { handle } => match world.manager.slot(kind) {
            Some(held) => world.alive.contains(held.pid) ==> held.pid == handle.pid,
            None => true,
        },
        _ => true,
    }
}

/// The world after a sequence of operations.
pub open spec fn run(world: World, kind: ProcessKind, ops: Seq<SlotOp>) -> World
    decreases ops.len(),
{
    if ops.len() == 0 {
        world
    } else {
        apply(run(world, kind, ops.drop_last()), kind, ops.last())
    }
}

/// Every operation of the sequence is permitted in the world it meets.
pub open spec fn all_permitted(world: World, kind: ProcessKind, ops: Seq<SlotOp>) -> bool
    decreases ops.len(),
{
    if ops.len() == 0 {
        true
    } else {
        all_permitted(world, kind, ops.drop_last()) && permitted(
            run(world, kind, ops.drop_last()),
            kind,
            ops.last(),
        )
    }
}

/// Every live process of the kind is the one that the slot holds.
pub open spec fn owned(world: World, kind: ProcessKind) -> bool {
    forall|pid: u32| #[trigger]
        world.alive.contains(pid) ==> world.manager.slot(kind) == Some(ProcessHandle { pid })
}

/// The world of a freshly constructed supervisor.
pub open spec fn fresh() -> World {
    World { manager: ManagerModel::initial(), alive: Set::empty() }
}

/// One permitted operation keeps every live process owned by the slot and
/// the supervisor well-formed.
pub proof fn lemma_step_keeps_owned(world: World, kind: ProcessKind, op: SlotOp)
    requires
        owned(world, kind),
        world.manager.wf(),
        permitted(world, kind, op),
    ensures
        owned(apply(world, kind, op), kind),
        apply(world, kind, op).manager.wf(),
{
    let next = apply(world, kind, op);
    match op {
        SlotOp::Spawned { handle } => {},
        SlotOp::Stopped => {
            assert forall|pid: u32| #[trigger] next.alive.contains(pid) implies false by {
                assert(world.manager.slot(kind) == Some(ProcessHandle { pid }));
                let steps = spec_stop_steps(world.manager.slot(kind));
                assert(steps[2] == StopStep::Reap { pid });
            }
        },
        SlotOp::FullStop { mode } => {
            assert forall|pid: u32| #[trigger] next.alive.contains(pid) implies false by {
                assert(world.manager.slot(kind) == Some(ProcessHandle { pid }));
                let steps = world.manager.stop_all_steps(mode);
                match kind {
                    ProcessKind::Server => {
                        assert(steps[2] == StopStep::Reap { pid });
                    },
                    ProcessKind::Worker => {
                        if world.manager.server is Some {
                            assert(steps[5] == StopStep::Reap { pid });
                        } else {
                            assert(steps[2] == StopStep::Reap { pid });
                        }
                    },
                }
            }
        },
        SlotOp::Died { pid } => {},
        SlotOp::Lifecycle { event } => {},
    }
}

/// At most one live process per kind: after any sequence of spawns, stops,
/// full stops, deaths and lifecycle events on a fresh supervisor, in which a
/// process is spawned only while the slot holds no live one, every live
/// process of the kind is the one in the slot, so no two differ.
pub proof fn lemma_at_most_one_live(kind: ProcessKind, ops: Seq<SlotOp>)
    requires
        all_permitted(fresh(), kind, ops),
    ensures
        owned(run(fresh(), kind, ops), kind),
        run(fresh(), kind, ops).manager.wf(),
        forall|p: u32, q: u32|
            run(fresh(), kind, ops).alive.contains(p) && run(fresh(), kind, ops).alive.contains(q)
                ==> p == q,
    decreases ops.len(),
{
    if ops.len() > 0 {
        lemma_at_most_one_live(kind, ops.drop_last());
        lemma_step_keeps_owned(run(fresh(), kind, ops.drop_last()), kind, ops.last());
    }
}

/// Stopping is idempotent: on an empty slot a stop returns no step and
/// changes nothing, so a second stop after a first does nothing.
pub proof fn lemma_stop_idempotent(manager: ManagerModel, kind: ProcessKind)
    ensures
        manager.slot(kind) is None ==> manager.stop(kind) == manager && spec_stop_steps(
            manager.slot(kind),
        ) == Seq::<StopStep>::empty(),
        manager.stop(kind).stop(kind) == manager.stop(kind),
        spec_stop_steps(manager.stop(kind).slot(kind)) == Seq::<StopStep>::empty(),
{
}

/// A full stop is idempotent: a second one changes nothing and returns only
/// the sweep for strays.
pub proof fn lemma_full_stop_idempotent(manager: ManagerModel, mode: RunMode)
    ensures
        manager.stop_all().stop_all() == manager.stop_all(),
        manager.stop_all().stop_all_steps(mode) == seq![
            StopStep::Sweep { target: SweepTarget::Server { mode } },
            StopStep::Sweep { target: SweepTarget::Worker },
        ],
{
    assert(manager.stop_all().stop_all_steps(mode) =~= seq![
        StopStep::Sweep { target: SweepTarget::Server { mode } },
        StopStep::Sweep { target: SweepTarget::Worker },
    ]);
}

/// The sweep of a full stop looks for the server as it is launched in the
/// mode of the stop, and for the worker: each pattern is made of the last
/// words of the launch line, the script's file name and, for the server, the
/// first argument behind the script.
pub proof fn lemma_sweep_follows_launch(manager: ManagerModel, mode: RunMode)
    ensures
        manager.stop_all_steps(mode).contains(
            StopStep::Sweep { target: SweepTarget::Server { mode } },
        ),
        manager.stop_all_steps(mode).contains(StopStep::Sweep { target: SweepTarget::Worker }),
        (SweepTarget::Server { mode }).spec_pattern() == spec_script_name(ProcessKind::Server)
            + " "@ + spec_process_command(
            ProcessKind::Server,
            mode,
            spec_script_name(ProcessKind::Server),
            Seq::empty(),
            Seq::empty(),
        ).args[1],
        SweepTarget::Worker.spec_pattern() == spec_script_name(ProcessKind::Worker),
{
    let steps = manager.stop_all_steps(mode);
    assert(steps[steps.len() - 2] == StopStep::Sweep { target: SweepTarget::Server { mode } });
    assert(steps[steps.len() - 1] == StopStep::Sweep { target: SweepTarget::Worker });
}

/// After a stop the slot is not running, whatever processes are alive; after
/// a full stop neither slot is.
pub proof fn lemma_stopped_is_not_running(manager: ManagerModel, kind: ProcessKind, live: Seq<u32>)
    ensures
        !manager.stop(kind).running(kind, live),
        !manager.stop_all().running(ProcessKind::Server, live),
        !manager.stop_all().running(ProcessKind::Worker, live),
{
}

/// A health check in the running phase asks for a start of exactly the kinds
/// that are not running; once the replacement is reported and alive, the kind
/// is running again and the next check leaves it alone.
pub proof fn lemma_health_check_replaces(
    manager: ManagerModel,
    kind: ProcessKind,
    live: Seq<u32>,
    replacement: ProcessHandle,
    live_after: Seq<u32>,
)
    requires
        manager.phase == Phase::Running,
        live_after.contains(replacement.pid),
    ensures
        manager.restarts(live).contains(kind) <==> !manager.running(kind, live),
        manager.record_spawn(kind, replacement).running(kind, live_after),
        !manager.record_spawn(kind, replacement).restarts(live_after).contains(kind),
{
    let asked = manager.restarts(live);
    if !manager.running(kind, live) {
        match kind {
            ProcessKind::Server => {
                assert(asked[0] == ProcessKind::Server);
            },
            ProcessKind::Worker => {
                assert(asked[asked.len() - 1] == ProcessKind::Worker);
            },
        }
    }
}

/// Once a full stop has begun nothing fills a slot again: a process reported
/// afterwards is discarded, and no lifecycle event leaves the closing phases.
pub proof fn lemma_closed_stays_empty(manager: ManagerModel, kind: ProcessKind, late: ProcessHandle, event: Event)
    requires
        manager.wf(),
        manager.phase.spec_closing(),
    ensures
        manager.record_spawn(kind, late) == manager,
        manager.spawn_verdict(kind, late) == (SpawnVerdict::Discarded { pid: late.pid }),
        manager.advance(event).phase.spec_closing(),
        manager.advance(event).server is None,
        manager.advance(event).worker is None,
        manager.stop_all().server is None && manager.stop_all().worker is None,
{
}

/// A failed migration does not hold the start back: whatever the migration
/// reported, the events of a start lead to the running phase, and the
/// directives on the way ask for both processes.
pub proof fn lemma_migration_never_blocks(success: bool, occupied: bool)
    ensures
        ManagerModel::initial().advance(Event::Setup).advance(
            Event::MigrationResolved { success },
        ).advance(Event::PortResolved { occupied }).advance(Event::WindowSettled).phase
            == Phase::Running,
        ManagerModel::initial().advance(Event::Setup).directives(
            Event::MigrationResolved { success },
        ).contains(crate::process::Directive::Start { kind: ProcessKind::Server }),
        ManagerModel::initial().advance(Event::Setup).directives(
            Event::MigrationResolved { success },
        ).contains(crate::process::Directive::Start { kind: ProcessKind::Worker }),
{
    let todo = ManagerModel::initial().advance(Event::Setup).directives(
        Event::MigrationResolved { success },
    );
    assert(todo[0] == crate::process::Directive::Start { kind: ProcessKind::Server });
    assert(todo[1] == crate::process::Directive::Start { kind: ProcessKind::Worker });
}

} // verus!
