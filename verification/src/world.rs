//! The engine and the display module together, and what carrying out a
//! task means.
use crate::arduino::Arduino;
use crate::dbarduino::DBArduino;
use crate::ermc192641::{Core, Engine, Task};
use crate::panel::PanelState;
use crate::signal::Event;
use vstd::prelude::*;

verus! {

/// The engine and the display module that it drives, taken together.
pub struct World {
    /// The state of the engine.
    pub core: Core,
    /// The state of the display module.
    pub panel: PanelState,
}

impl World {
    /// The engine's record of the lines is what the lines are.
    pub open spec fn wired(self) -> bool {
        self.core.control_bus == self.panel.control && self.core.data_bus == self.panel.data
    }

    /// The world with the control lines at the given levels.
    pub open spec fn control(self, control: Arduino) -> World {
        World {
            core: Core { control_bus: control, ..self.core },
            panel: PanelState { control, ..self.panel },
        }
    }

    /// The world with the data lines in the given state.
    pub open spec fn data(self, data: DBArduino) -> World {
        World {
            core: Core { data_bus: data, ..self.core },
            panel: PanelState { data, ..self.panel },
        }
    }

    /// The world with another panel.
    pub open spec fn panel(self, panel: PanelState) -> World {
        World { core: self.core, panel }
    }

    /// The world with another byte taken as the last one read.
    pub open spec fn latch(self, latch: u8) -> World {
        World { core: Core { latch, ..self.core }, panel: self.panel }
    }
}

/// How deep the plans under a task go: 0 for an operation of a bus, and
/// more than the rank of every task in its plan for any other task.
pub open spec fn rank(task: Task) -> nat {
    match task {
        Task::WaitReady(_) => 1,
        Task::Command(_, _) => 2,
        Task::Store(_, _) => 2,
        Task::Prime(_) => 2,
        Task::Load(_) => 2,
        Task::Goto(_, _) => 3,
        Task::Merge(_, _) => 3,
        Task::Read => 4,
        Task::Advance => 4,
        Task::Next(_, _) => 4,
        Task::Write(_) => 5,
        Task::Column(_, _) => 6,
        Task::Band(n, _, _) => 7 + n as nat,
        Task::Fill(_, y1, _, _, _) => if y1 < 64 {
            (364 - y1) as nat
        } else {
            300
        },
        Task::Init => 400,
        _ => 0,
    }
}

/// A bound above the rank of every task.
pub open spec fn rank_limit() -> nat {
    401
}

/// The world after one operation of a bus: the engine changes its record
/// and the board carries out the burst. A poll goes on until the
/// controller that is asked reports ready; a capture takes what the data
/// lines show.
pub open spec fn bus_effect(task: Task, w: World) -> World {
    match task {
        Task::Check => World { core: w.core, panel: w.panel.settled() },
        Task::Latch => World {
            core: Core { latch: w.panel.shown().byte(), ..w.core },
            panel: w.panel,
        },
        Task::Poll => {
            let turn = w.core.poll();
            World { core: turn.core, panel: w.panel.after_all(turn.burst).settled() }
        },
        Task::Capture => {
            let turn = w.core.capture();
            let panel = w.panel.after_all(turn.burst);
            World { core: Core { latch: panel.shown().byte(), ..turn.core }, panel }
        },
        _ => {
            let turn = w.core.bus_turn(task, Event::Nothing);
            World { core: turn.core, panel: w.panel.after_all(turn.burst) }
        },
    }
}

/// The world after the tasks of a list have been carried out in order,
/// those of rank `r` or more passed over: an operation of a bus as
/// `bus_effect` says, any other task by carrying out its plan.
#[verifier::opaque]
pub open spec fn run_below(r: nat, tasks: Seq<Task>, w: World) -> World
    decreases r, tasks.len(),
{
    if tasks.len() == 0 {
        w
    } else {
        let task = tasks[0];
        let turn = w.core.turn(task, Event::Nothing);
        let then = if rank(task) >= r {
            w
        } else if rank(task) == 0 {
            bus_effect(task, w)
        } else {
            run_below(rank(task), turn.plan, World { core: turn.core, panel: w.panel })
        };
        run_below(r, tasks.skip(1), then)
    }
}

/// The world after `task` has been carried out in full.
#[verifier::opaque]
pub open spec fn effect(task: Task, w: World) -> World {
    if rank(task) == 0 {
        bus_effect(task, w)
    } else {
        let turn = w.core.turn(task, Event::Nothing);
        run_below(rank(task), turn.plan, World { core: turn.core, panel: w.panel })
    }
}

/// The world after all tasks of a list have been carried out in order.
pub open spec fn run(tasks: Seq<Task>, w: World) -> World {
    run_below(rank_limit(), tasks, w)
}

/// The world once the engine has nothing left to do.
pub open spec fn outcome(e: Engine, p: PanelState) -> World {
    run(e.tasks, World { core: e.core, panel: p })
}

/// What `effect` is, written out.
pub proof fn lemma_effect(task: Task, w: World)
    ensures
        effect(task, w) == if rank(task) == 0 {
            bus_effect(task, w)
        } else {
            run_below(
                rank(task),
                w.core.turn(task, Event::Nothing).plan,
                World { core: w.core.turn(task, Event::Nothing).core, panel: w.panel },
            )
        },
{
    reveal(effect);
}

/// What `run_below` is, written out.
pub proof fn lemma_run_below(r: nat, tasks: Seq<Task>, w: World)
    ensures
        run_below(r, tasks, w) == if tasks.len() == 0 {
            w
        } else if rank(tasks[0]) < r {
            run_below(r, tasks.skip(1), effect(tasks[0], w))
        } else {
            run_below(r, tasks.skip(1), w)
        },
{
    reveal_with_fuel(run_below, 1);
    reveal(effect);
}

/// Whether a task takes a reading that the board has made.
pub open spec fn takes_reading(task: Task) -> bool {
    task is Check || task is Latch
}

/// Whether no task of a list takes a reading.
pub open spec fn fine(plan: Seq<Task>) -> bool {
    forall|i: int| 0 <= i < plan.len() ==> !takes_reading(#[trigger] plan[i])
}

/// A task appended to a list is carried out after the list, if its rank
/// lies below the bound.
pub proof fn lemma_run_below_push(r: nat, tasks: Seq<Task>, task: Task, w: World)
    ensures
        run_below(r, tasks.push(task), w) == if rank(task) < r {
            effect(task, run_below(r, tasks, w))
        } else {
            run_below(r, tasks, w)
        },
{
    lemma_run_concat(r, tasks, seq![task], w);
    assert(tasks + seq![task] =~= tasks.push(task));
    let after = run_below(r, tasks, w);
    assert(seq![task].skip(1) =~= Seq::<Task>::empty());
    assert(seq![task][0] == task);
    lemma_run_below(r, seq![task], after);
    lemma_run_below(r, Seq::empty(), effect(task, after));
    lemma_run_below(r, Seq::empty(), after);
}

/// Carrying out two lists one after the other is carrying out both as one.
pub proof fn lemma_run_concat(r: nat, first: Seq<Task>, second: Seq<Task>, w: World)
    ensures
        run_below(r, first + second, w) == run_below(r, second, run_below(r, first, w)),
    decreases first.len(),
{
    lemma_run_below(r, first, w);
    lemma_run_below(r, first + second, w);
    if first.len() == 0 {
        assert(first + second =~= second);
    } else {
        assert((first + second).skip(1) =~= first.skip(1) + second);
        assert((first + second)[0] == first[0]);
        if rank(first[0]) < r {
            lemma_run_concat(r, first.skip(1), second, effect(first[0], w));
        } else {
            lemma_run_concat(r, first.skip(1), second, w);
        }
    }
}

/// Every task lies below the bound that `run` uses.
pub proof fn lemma_rank_limit(task: Task)
    ensures
        rank(task) < rank_limit(),
{
}

/// Carrying out a list is carrying out its first task and then the rest.
pub proof fn lemma_run_first(tasks: Seq<Task>, w: World)
    requires
        tasks.len() > 0,
    ensures
        run(tasks, w) == run(tasks.skip(1), effect(tasks[0], w)),
{
    lemma_rank_limit(tasks[0]);
    lemma_run_below(rank_limit(), tasks, w);
}

/// A task appended to a list is carried out after the list.
pub proof fn lemma_run_push(tasks: Seq<Task>, task: Task, w: World)
    ensures
        run(tasks.push(task), w) == effect(task, run(tasks, w)),
{
    lemma_rank_limit(task);
    lemma_run_below_push(rank_limit(), tasks, task, w);
}

} // verus!
