//! Every task other than an operation of a bus is carried out by its plan.
use crate::arduino::ChipSelect;
use crate::ermc192641::{init_plan, load_plan, prime_plan, send_plan, wait_ready_plan, Core, Task};
use crate::panel::PanelState;
use crate::signal::{Action, Event};
use crate::world::{
    effect, fine, lemma_effect, lemma_run_below, lemma_run_below_push, rank, run, run_below,
    takes_reading, World,
};
use vstd::prelude::*;

verus! {

/// A task hands nothing to the board, whatever the board last reported, and
/// leaves the engine's record of the lines alone; no task of its plan takes
/// a reading; and carrying out its plan is what
/// carrying out the task means.
pub open spec fn planned(core: Core, task: Task, event: Event, p: PanelState) -> bool {
    let turn = core.turn(task, event);
    &&& turn == core.turn(task, Event::Nothing)
    &&& turn.burst == Seq::<Action>::empty()
    &&& turn.core.control_bus == core.control_bus
    &&& turn.core.data_bus == core.data_bus
    &&& fine(turn.plan)
    &&& run(turn.plan, World { core: turn.core, panel: p }) == effect(
        task,
        World { core, panel: p },
    )
}

/// Lists that are built by appending one task after the other: none of
/// them takes a reading if none of the tasks does, and carrying them out
/// is carrying out their tasks in turn.
pub proof fn lemma_chains()
    ensures
        fine(Seq::<Task>::empty()),
        forall|s: Seq<Task>, t: Task|
            fine(s) && !takes_reading(t) ==> #[trigger] fine(s.push(t)),
        forall|r: nat, w: World| #[trigger] run_below(r, Seq::<Task>::empty(), w) == w,
        forall|r: nat, s: Seq<Task>, t: Task, w: World| #[trigger]
            run_below(r, s.push(t), w) == if rank(t) < r {
                effect(t, run_below(r, s, w))
            } else {
                run_below(r, s, w)
            },
{
    assert forall|s: Seq<Task>, t: Task| fine(s) && !takes_reading(t) implies #[trigger] fine(
        s.push(t),
    ) by {
        assert forall|i: int| 0 <= i < s.push(t).len() implies !takes_reading(
            #[trigger] s.push(t)[i],
        ) by {
            if i < s.len() {
                assert(s.push(t)[i] == s[i]);
            }
        }
    }
    assert forall|r: nat, w: World| #[trigger] run_below(r, Seq::<Task>::empty(), w) == w by {
        lemma_run_below(r, Seq::empty(), w);
    }
    assert forall|r: nat, s: Seq<Task>, t: Task, w: World| #[trigger]
        run_below(r, s.push(t), w) == if rank(t) < r {
            effect(t, run_below(r, s, w))
        } else {
            run_below(r, s, w)
        } by {
        lemma_run_below_push(r, s, t, w);
    }
}

proof fn lemma_plan_wait(core: Core, task: Task, event: Event, p: PanelState)
    requires
        task is WaitReady,
    ensures
        planned(core, task, event, p),
{
    reveal(Core::turn);
    lemma_chains();
    lemma_effect(task, World { core, panel: p });
}

proof fn lemma_plan_send(core: Core, task: Task, event: Event, p: PanelState)
    requires
        task is Command || task is Store,
    ensures
        planned(core, task, event, p),
{
    reveal(Core::turn);
    lemma_chains();
    lemma_effect(task, World { core, panel: p });
}

proof fn lemma_plan_fetch(core: Core, task: Task, event: Event, p: PanelState)
    requires
        task is Prime || task is Load,
    ensures
        planned(core, task, event, p),
{
    reveal(Core::turn);
    lemma_chains();
    lemma_effect(task, World { core, panel: p });
}

proof fn lemma_plan_goto(core: Core, task: Task, event: Event, p: PanelState)
    requires
        task is Goto || task is Next || task is Advance,
    ensures
        planned(core, task, event, p),
{
    reveal(Core::turn);
    lemma_chains();
    lemma_effect(task, World { core, panel: p });
}

proof fn lemma_plan_read(core: Core, task: Task, event: Event, p: PanelState)
    requires
        task is Read || task is Merge,
    ensures
        planned(core, task, event, p),
{
    reveal(Core::turn);
    lemma_chains();
    lemma_effect(task, World { core, panel: p });
}

proof fn lemma_plan_write(core: Core, task: Task, event: Event, p: PanelState)
    requires
        task is Write,
    ensures
        planned(core, task, event, p),
{
    reveal(Core::turn);
    lemma_chains();
    lemma_effect(task, World { core, panel: p });
}

proof fn lemma_plan_column(core: Core, task: Task, event: Event, p: PanelState)
    requires
        task is Column || task is Band,
    ensures
        planned(core, task, event, p),
{
    reveal(Core::turn);
    lemma_chains();
    lemma_effect(task, World { core, panel: p });
}

proof fn lemma_plan_fill(core: Core, task: Task, event: Event, p: PanelState)
    requires
        task is Fill,
    ensures
        planned(core, task, event, p),
{
    reveal(Core::turn);
    lemma_chains();
    lemma_effect(task, World { core, panel: p });
}

proof fn lemma_plan_init(core: Core, task: Task, event: Event, p: PanelState)
    requires
        task is Init,
    ensures
        planned(core, task, event, p),
{
    reveal(Core::turn);
    lemma_chains();
    lemma_effect(task, World { core, panel: p });
}

proof fn lemma_turns_protocol(core: Core, event: Event)
    ensures
        forall|chip: ChipSelect| #[trigger]
            core.turn(Task::WaitReady(chip), event) == core.unfold(wait_ready_plan(chip)),
        forall|chip: ChipSelect, byte: u8| #[trigger]
            core.turn(Task::Command(chip, byte), event) == core.unfold(send_plan(chip, 0, byte)),
        forall|chip: ChipSelect, byte: u8| #[trigger]
            core.turn(Task::Store(chip, byte), event) == core.unfold(send_plan(chip, 1, byte)),
{
    reveal(Core::turn);
}

proof fn lemma_turns_fetch(core: Core, event: Event)
    ensures
        forall|chip: ChipSelect| #[trigger]
            core.turn(Task::Prime(chip), event) == core.unfold(prime_plan(chip)),
        forall|chip: ChipSelect| #[trigger]
            core.turn(Task::Load(chip), event) == core.unfold(load_plan(chip)),
        core.turn(Task::Init, event) == core.unfold(init_plan()),
{
    reveal(Core::turn);
}

proof fn lemma_turns_cursor(core: Core, event: Event)
    ensures
        forall|x: u8, y: u8| #[trigger] core.turn(Task::Goto(x, y), event) == core.goto(x, y),
        core.turn(Task::Advance, event) == core.advance(),
        forall|x: u8, y: u8| #[trigger]
            core.turn(Task::Next(x, y), event) == core.next_column(x, y),
{
    reveal(Core::turn);
}

proof fn lemma_turns_data(core: Core, event: Event)
    ensures
        core.turn(Task::Read, event) == core.read(),
        forall|pattern: u8| #[trigger]
            core.turn(Task::Write(pattern), event) == core.write(pattern),
        forall|set: u8, clear: u8| #[trigger]
            core.turn(Task::Merge(set, clear), event) == core.merge(set, clear),
{
    reveal(Core::turn);
}

proof fn lemma_turns_drawing(core: Core, event: Event)
    ensures
        forall|mask: u8, on: bool| #[trigger]
            core.turn(Task::Column(mask, on), event) == core.column(mask, on),
        forall|n: u8, mask: u8, on: bool| #[trigger]
            core.turn(Task::Band(n, mask, on), event) == core.band(n, mask, on),
        forall|x1: u8, y1: u8, x2: u8, y2: u8, on: bool| #[trigger]
            core.turn(Task::Fill(x1, y1, x2, y2, on), event) == core.fill(x1, y1, x2, y2, on),
{
    reveal(Core::turn);
}

/// What taking up each kind of task comes to, kind by kind.
pub proof fn lemma_turns(core: Core, event: Event)
    ensures
        forall|chip: ChipSelect| #[trigger]
            core.turn(Task::WaitReady(chip), event) == core.unfold(wait_ready_plan(chip)),
        forall|chip: ChipSelect, byte: u8| #[trigger]
            core.turn(Task::Command(chip, byte), event) == core.unfold(send_plan(chip, 0, byte)),
        forall|chip: ChipSelect, byte: u8| #[trigger]
            core.turn(Task::Store(chip, byte), event) == core.unfold(send_plan(chip, 1, byte)),
        forall|chip: ChipSelect| #[trigger]
            core.turn(Task::Prime(chip), event) == core.unfold(prime_plan(chip)),
        forall|chip: ChipSelect| #[trigger]
            core.turn(Task::Load(chip), event) == core.unfold(load_plan(chip)),
        forall|x: u8, y: u8| #[trigger] core.turn(Task::Goto(x, y), event) == core.goto(x, y),
        core.turn(Task::Read, event) == core.read(),
        forall|pattern: u8| #[trigger]
            core.turn(Task::Write(pattern), event) == core.write(pattern),
        forall|set: u8, clear: u8| #[trigger]
            core.turn(Task::Merge(set, clear), event) == core.merge(set, clear),
        core.turn(Task::Advance, event) == core.advance(),
        forall|x: u8, y: u8| #[trigger]
            core.turn(Task::Next(x, y), event) == core.next_column(x, y),
        forall|mask: u8, on: bool| #[trigger]
            core.turn(Task::Column(mask, on), event) == core.column(mask, on),
        forall|n: u8, mask: u8, on: bool| #[trigger]
            core.turn(Task::Band(n, mask, on), event) == core.band(n, mask, on),
        forall|x1: u8, y1: u8, x2: u8, y2: u8, on: bool| #[trigger]
            core.turn(Task::Fill(x1, y1, x2, y2, on), event) == core.fill(x1, y1, x2, y2, on),
        core.turn(Task::Init, event) == core.unfold(init_plan()),
{
    lemma_turns_protocol(core, event);
    lemma_turns_fetch(core, event);
    lemma_turns_cursor(core, event);
    lemma_turns_data(core, event);
    lemma_turns_drawing(core, event);
}

/// An operation of a bus is taken up as `bus_turn` says.
pub proof fn lemma_turn_bus(core: Core, task: Task, event: Event)
    requires
        rank(task) == 0,
    ensures
        core.turn(task, event) == core.bus_turn(task, event),
{
    reveal(Core::turn);
}

/// Every task that is no operation of a bus is carried out by carrying out
/// its plan.
pub proof fn lemma_plan(core: Core, task: Task, event: Event, p: PanelState)
    requires
        rank(task) > 0,
    ensures
        planned(core, task, event, p),
{
    match task {
        Task::WaitReady(_) => lemma_plan_wait(core, task, event, p),
        Task::Command(_, _) | Task::Store(_, _) => lemma_plan_send(core, task, event, p),
        Task::Prime(_) | Task::Load(_) => lemma_plan_fetch(core, task, event, p),
        Task::Goto(_, _) | Task::Next(_, _) | Task::Advance => lemma_plan_goto(
            core,
            task,
            event,
            p,
        ),
        Task::Read | Task::Merge(_, _) => lemma_plan_read(core, task, event, p),
        Task::Write(_) => lemma_plan_write(core, task, event, p),
        Task::Column(_, _) | Task::Band(_, _, _) => lemma_plan_column(core, task, event, p),
        Task::Fill(_, _, _, _, _) => lemma_plan_fill(core, task, event, p),
        Task::Init => lemma_plan_init(core, task, event, p),
        _ => {},
    }
}

} // verus!
