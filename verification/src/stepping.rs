//! One step of the engine with the board, and any number of them.

use crate::ermc192641::{Core, Engine, Task};
use crate::panel::PanelState;
use crate::plans::{lemma_plan, lemma_turn_bus};
use crate::readings::{
    agreed, lemma_capture_step, lemma_check_step, lemma_latch_step, lemma_poll_step, operated,
};
use crate::signal::{Action, Event, Levels};
use crate::wiring::{
    lemma_after_none, lemma_all_chips_burst, lemma_choose_burst, lemma_delay_burst,
    lemma_listen_burst, lemma_mode_burst, lemma_put_burst, lemma_strobe_burst,
    lemma_turn_out_burst,
};
use crate::world::{
    effect, lemma_effect, lemma_run_below, lemma_run_concat, lemma_run_first, lemma_run_push,
    outcome, rank, rank_limit, run, takes_reading, World,
};
use vstd::prelude::*;

verus! {

/// What the engine, the panel and the last report of the board must
/// satisfy between two steps: the engine's record of the lines is true, and
/// a task that takes a reading stands only at the head of the list, with
/// the data bus listening and the report being what the data lines show.
pub open spec fn in_step(e: Engine, p: PanelState, event: Event) -> bool {
    &&& e.core.control_bus == p.control
    &&& e.core.data_bus == p.data
    &&& forall|i: int| 1 <= i < e.tasks.len() ==> !takes_reading(#[trigger] e.tasks[i])
    &&& e.tasks.len() > 0 && e.tasks[0] is Check ==> e.core.data_bus.is_input() && event
        == Event::Level(p.shown().d7)
    &&& e.tasks.len() > 0 && e.tasks[0] is Latch ==> e.core.data_bus.is_input() && event
        == Event::Levels(p.shown())
}

proof fn lemma_control_step(core: Core, p: PanelState, task: Task, event: Event)
    requires
        task is Mode || task is Strobe || task is Unselect || task is Select,
        agreed(core, p, task, event),
    ensures
        operated(core, p, task, event),
{
    lemma_turn_bus(core, task, event);
    reveal(Core::bus_turn);
    let w = World { core, panel: p };
    let turn = core.turn(task, event);
    let w1 = World { core: turn.core, panel: p.after_all(turn.burst) };
    lemma_run_below(rank_limit(), Seq::empty(), w1);
    lemma_effect(task, w);
    reveal(Core::bus_turn);
    match task {
        Task::Mode(m, s) => {
            lemma_mode_burst(p, m, s);
        },
        Task::Strobe(high) => {
            lemma_strobe_burst(p, high);
        },
        Task::Unselect => {
            lemma_all_chips_burst(p, true);
        },
        Task::Select(chip) => {
            lemma_choose_burst(p, chip);
        },
        _ => {},
    }
}

proof fn lemma_data_step(core: Core, p: PanelState, task: Task, event: Event)
    requires
        task is Listen || task is TurnOut || task is Put || task is Pause || task is Rest,
        agreed(core, p, task, event),
    ensures
        operated(core, p, task, event),
{
    lemma_turn_bus(core, task, event);
    reveal(Core::bus_turn);
    let w = World { core, panel: p };
    let turn = core.turn(task, event);
    let w1 = World { core: turn.core, panel: p.after_all(turn.burst) };
    lemma_run_below(rank_limit(), Seq::empty(), w1);
    lemma_effect(task, w);
    match task {
        Task::Listen => {
            lemma_listen_burst(p);
        },
        Task::TurnOut => {
            lemma_turn_out_burst(p);
        },
        Task::Put(byte) => {
            lemma_put_burst(p, byte);
        },
        Task::Pause(us) => {
            lemma_delay_burst(p, Action::DelayUs(us));
        },
        Task::Rest(ms) => {
            lemma_delay_burst(p, Action::DelayMs(ms));
        },
        _ => {},
    }
}

/// Every operation of a bus, carried out by engine and board alike.
pub proof fn lemma_bus_step(core: Core, p: PanelState, task: Task, event: Event)
    requires
        rank(task) == 0,
        agreed(core, p, task, event),
    ensures
        operated(core, p, task, event),
{
    match task {
        Task::Mode(_, _) | Task::Strobe(_) | Task::Unselect | Task::Select(_) => {
            lemma_control_step(core, p, task, event)
        },
        Task::Listen | Task::TurnOut | Task::Put(_) | Task::Pause(_) | Task::Rest(_) => {
            lemma_data_step(core, p, task, event)
        },
        Task::Poll => lemma_poll_step(core, p, task, event),
        Task::Capture => lemma_capture_step(core, p, task, event),
        Task::Check => lemma_check_step(core, p, task, event),
        Task::Latch => lemma_latch_step(core, p, task, event),
        _ => {},
    }
}

/// A step of the engine, with the board carrying out the burst and
/// reporting back, keeps engine and board in step and does not change what
/// the world will be once all the work is done.
pub proof fn lemma_step(e: Engine, p: PanelState, event: Event)
    requires
        in_step(e, p, event),
    ensures
        ({
            let (e1, burst) = e.next(event);
            let q = p.after_all(burst);
            &&& in_step(e1, q, p.answer_all(burst))
            &&& outcome(e1, q) == outcome(e, p)
        }),
{
    let (e1, burst) = e.next(event);
    let q = p.after_all(burst);
    lemma_after_none(p);
    assert(p.answer_all(Seq::empty()) == Event::Nothing);
    if e.tasks.len() > 0 {
        let task = e.tasks[0];
        let rest = e.tasks.skip(1);
        let w = World { core: e.core, panel: p };
        let turn = e.core.turn(task, event);
        let w1 = World { core: turn.core, panel: q };
        lemma_run_first(e.tasks, w);
        lemma_run_concat(rank_limit(), turn.plan, rest, w1);
        if rank(task) == 0 {
            lemma_bus_step(e.core, p, task, event);
        } else {
            lemma_plan(e.core, task, event, p);
            assert(q == p);
        }
        assert(run(turn.plan, w1) == effect(task, w));
        assert forall|i: int| 1 <= i < e1.tasks.len() implies !takes_reading(
            #[trigger] e1.tasks[i],
        ) by {
            if i < turn.plan.len() {
                assert(e1.tasks[i] == turn.plan[i]);
            } else {
                assert(e1.tasks[i] == e.tasks[i - turn.plan.len() + 1]);
            }
        }
        if turn.plan.len() == 0 {
            if rest.len() > 0 {
                assert(e1.tasks[0] == e.tasks[1]);
            }
        } else {
            assert(e1.tasks[0] == turn.plan[0]);
        }
    }
}

/// The engine, the display module and the last report of the board,
/// between two steps.
pub struct Session {
    /// The engine.
    pub engine: Engine,
    /// The display module.
    pub panel: PanelState,
    /// What the board reported of the last burst.
    pub event: Event,
}

impl Session {
    /// The session after the engine made one step and the board carried
    /// out the burst and reported back.
    pub open spec fn step(self) -> Session {
        let (engine, burst) = self.engine.next(self.event);
        Session {
            engine,
            panel: self.panel.after_all(burst),
            event: self.panel.answer_all(burst),
        }
    }

    /// The session after `k` steps.
    pub open spec fn steps(self, k: nat) -> Session
        decreases k,
    {
        if k == 0 {
            self
        } else {
            self.steps((k - 1) as nat).step()
        }
    }

    /// Engine and board are in step.
    pub open spec fn in_step(self) -> bool {
        in_step(self.engine, self.panel, self.event)
    }

    /// The world as it is now.
    pub open spec fn world(self) -> World {
        World { core: self.engine.core, panel: self.panel }
    }
}

/// An engine with nothing to do has reached its outcome.
pub proof fn lemma_idle(e: Engine, p: PanelState)
    requires
        e.tasks.len() == 0,
    ensures
        outcome(e, p) == (World { core: e.core, panel: p }),
{
    lemma_run_below(rank_limit(), e.tasks, World { core: e.core, panel: p });
}

/// Whatever number of steps engine and board make, they stay in step and
/// head for the same outcome; and once the engine has nothing left to do,
/// the world is that outcome: every task has been carried out in full, in
/// the order in which the tasks were asked for.
pub proof fn lemma_steps(s: Session, k: nat)
    requires
        s.in_step(),
    ensures
        s.steps(k).in_step(),
        outcome(s.steps(k).engine, s.steps(k).panel) == outcome(s.engine, s.panel),
        s.steps(k).engine.tasks.len() == 0 ==> s.steps(k).world() == outcome(s.engine, s.panel),
    decreases k,
{
    if k > 0 {
        lemma_steps(s, (k - 1) as nat);
        let before = s.steps((k - 1) as nat);
        lemma_step(before.engine, before.panel, before.event);
    }
    lemma_idle_or_not(s.steps(k));
}

proof fn lemma_idle_or_not(s: Session)
    ensures
        s.engine.tasks.len() == 0 ==> s.world() == outcome(s.engine, s.panel),
{
    if s.engine.tasks.len() == 0 {
        lemma_idle(s.engine, s.panel);
    }
}

/// A task asked of the engine is carried out after all that the engine
/// had to do before.
pub proof fn lemma_scheduled(e: Engine, task: Task, p: PanelState)
    ensures
        outcome(e.with_task(task), p) == effect(task, outcome(e, p)),
        forall|event: Event| in_step(e, p, event) && !takes_reading(task) ==> in_step(
            e.with_task(task),
            p,
            event,
        ),
{
    lemma_run_push(e.tasks, task, World { core: e.core, panel: p });
}

} // verus!
