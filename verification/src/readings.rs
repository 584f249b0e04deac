//! The steps that ask the board for a reading and the steps that take it.
use crate::dbarduino::DBArduino;
use crate::ermc192641::{Core, Task};
use crate::panel::PanelState;
use crate::plans::lemma_turn_bus;
use crate::signal::{Action, Event, Levels};
use crate::wiring::{lemma_after_none, lemma_sample_burst};
use crate::world::{
    effect, lemma_effect, lemma_run_below, lemma_run_push, rank_limit, run, World,
};
use vstd::prelude::*;

verus! {

/// The status of a controller shows bit 7 exactly while it is busy.
pub proof fn lemma_status_flag(busy: u8, on: bool)
    ensures
        Levels::of(
            if busy > 0 {
                if on {
                    0x80u8
                } else {
                    0xA0u8
                }
            } else {
                if on {
                    0x00u8
                } else {
                    0x20u8
                }
            },
        ).d7 == (busy > 0),
{
    assert((0x80u8 >> 7u8) & 1 == 1 && (0xA0u8 >> 7u8) & 1 == 1 && (0x00u8 >> 7u8) & 1 == 0 && (
    0x20u8 >> 7u8) & 1 == 0) by (bit_vector);
}

/// A panel whose data lines show bit 7 low while its status is read has
/// nothing left to wait for; and the time of one more reading does not
/// change what the panel is once it is ready.
pub proof fn lemma_settled(p: PanelState)
    ensures
        !p.shown().d7 ==> p.settled() == p,
        p.asked().settled() == p.settled(),
        p.asked().control == p.control,
        p.asked().data == p.data,
        p.settled().control == p.control,
        p.settled().data == p.data,
{
    match p.speaker() {
        Some(c) => {
            lemma_status_flag(p.chip(c).busy, p.chip(c).on);
            assert(p.asked().speaker() == p.speaker());
        },
        None => {},
    }
}

/// One operation of a bus: the engine's record and the lines of the board
/// stay the same thing, what the step leaves to do comes to what the
/// operation was to do, and where it leaves a reading to be taken, the
/// board reports that reading.
pub open spec fn operated(core: Core, p: PanelState, task: Task, event: Event) -> bool {
    let turn = core.turn(task, event);
    let q = p.after_all(turn.burst);
    let w1 = World { core: turn.core, panel: q };
    &&& turn.core.control_bus == q.control
    &&& turn.core.data_bus == q.data
    &&& run(turn.plan, w1) == effect(task, World { core, panel: p })
    &&& turn.plan.len() <= 1
    &&& turn.plan.len() == 1 && turn.plan[0] is Check ==> turn.core.data_bus.is_input()
        && p.answer_all(turn.burst) == Event::Level(q.shown().d7)
    &&& turn.plan.len() == 1 && turn.plan[0] is Latch ==> turn.core.data_bus.is_input()
        && p.answer_all(turn.burst) == Event::Levels(q.shown())
}

/// Whether engine and board agree on the lines and, where `task` takes a
/// reading, on that reading.
pub open spec fn agreed(core: Core, p: PanelState, task: Task, event: Event) -> bool {
    &&& core.control_bus == p.control
    &&& core.data_bus == p.data
    &&& task is Check ==> core.data_bus.is_input() && event == Event::Level(p.shown().d7)
    &&& task is Latch ==> core.data_bus.is_input() && event == Event::Levels(p.shown())
}

/// A step that polls leaves the reading to be taken, and the board reports it.
pub proof fn lemma_poll_step(core: Core, p: PanelState, task: Task, event: Event)
    requires
        task is Poll,
        agreed(core, p, task, event),
    ensures
        operated(core, p, task, event),
{
    lemma_turn_bus(core, task, event);
    reveal(Core::bus_turn);
    let w = World { core, panel: p };
    let turn = core.turn(task, event);
    let q = p.after_all(turn.burst);
    let w1 = World { core: turn.core, panel: q };
    let heard = PanelState { data: DBArduino::listening(), ..p };
    lemma_effect(task, w);
    lemma_settled(heard);
    lemma_sample_burst(p, Action::SampleReady);
    assert(q == heard.asked());
    lemma_run_push(Seq::empty(), Task::Check, w1);
    lemma_effect(Task::Check, w1);
    lemma_run_below(rank_limit(), Seq::empty(), w1);
    assert(turn.burst.last() == Action::SampleReady);
}

/// A step that captures leaves the byte to be taken, and the board reports it.
pub proof fn lemma_capture_step(core: Core, p: PanelState, task: Task, event: Event)
    requires
        task is Capture,
        agreed(core, p, task, event),
    ensures
        operated(core, p, task, event),
{
    lemma_turn_bus(core, task, event);
    reveal(Core::bus_turn);
    let w = World { core, panel: p };
    let turn = core.turn(task, event);
    let q = p.after_all(turn.burst);
    let w1 = World { core: turn.core, panel: q };
    let heard = PanelState { data: DBArduino::listening(), ..p };
    lemma_effect(task, w);
    lemma_settled(heard);
    lemma_sample_burst(p, Action::Sample);
    assert(q == heard.asked());
    lemma_run_push(Seq::empty(), Task::Latch, w1);
    lemma_effect(Task::Latch, w1);
    lemma_run_below(rank_limit(), Seq::empty(), w1);
    assert(turn.burst.last() == Action::Sample);
}

/// A step that takes the busy flag: done where the flag is low, one more
/// reading where it is high.
pub proof fn lemma_check_step(core: Core, p: PanelState, task: Task, event: Event)
    requires
        task is Check,
        agreed(core, p, task, event),
    ensures
        operated(core, p, task, event),
{
    lemma_turn_bus(core, task, event);
    reveal(Core::bus_turn);
    let w = World { core, panel: p };
    let turn = core.turn(task, event);
    let q = p.after_all(turn.burst);
    let w1 = World { core: turn.core, panel: q };
    lemma_effect(task, w);
    lemma_settled(p);
    assert(p.data == DBArduino::listening());
    if event == Event::Level(false) {
        lemma_after_none(p);
        lemma_run_below(rank_limit(), Seq::empty(), w1);
        assert(p.settled() == p);
    } else {
        assert(p == PanelState { data: DBArduino::listening(), ..p });
        lemma_sample_burst(p, Action::SampleReady);
        assert(q == p.asked());
        lemma_run_push(Seq::empty(), Task::Check, w1);
        lemma_effect(Task::Check, w1);
        lemma_run_below(rank_limit(), Seq::empty(), w1);
        assert(turn.burst.last() == Action::SampleReady);
    }
}

/// A step that takes the byte that the board read.
pub proof fn lemma_latch_step(core: Core, p: PanelState, task: Task, event: Event)
    requires
        task is Latch,
        agreed(core, p, task, event),
    ensures
        operated(core, p, task, event),
{
    lemma_turn_bus(core, task, event);
    reveal(Core::bus_turn);
    let w = World { core, panel: p };
    let turn = core.turn(task, event);
    let q = p.after_all(turn.burst);
    let w1 = World { core: turn.core, panel: q };
    lemma_after_none(p);
    lemma_effect(task, w);
    lemma_run_below(rank_limit(), Seq::empty(), w1);
}

} // verus!
