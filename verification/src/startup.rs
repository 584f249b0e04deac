//! Bringing the display up.
use crate::arduino::ChipSelect;
use crate::constants::{LCD_ON, POWER_UP_MS};
use crate::cursor::lemma_command_touches;
use crate::drawing::{lemma_fill, lemma_goto_picture};
use crate::ermc192641::{start_line_command, Task};
use crate::plans::{lemma_chains, lemma_turns};
use crate::protocol::{
    lemma_lower, lemma_mode, lemma_operation, lemma_rest, lemma_unselect, operation,
};
use crate::signal::Event;
use crate::world::{effect, lemma_effect, World};
use vstd::prelude::*;

verus! {

/// The world after `chip` was switched on and told to start at line 0.
pub open spec fn switched_on(w: World, chip: ChipSelect) -> World {
    effect(
        Task::Command(chip, start_line_command(0)),
        effect(Task::Command(chip, LCD_ON), w),
    )
}

/// The world after the bus was put to rest and the power-up time has passed.
pub open spec fn rested(w: World) -> World {
    operation(
        Task::Rest(POWER_UP_MS),
        operation(
            Task::Mode(0, 0),
            operation(Task::Strobe(false), operation(Task::Unselect, w)),
        ),
    )
}

proof fn lemma_init_steps(w: World)
    requires
        w.wired(),
    ensures
        effect(Task::Init, w) == effect(
            Task::Goto(0, 0),
            effect(
                Task::Fill(0, 0, 191, 63, false),
                switched_on(
                    switched_on(switched_on(rested(w), ChipSelect::CHIP1), ChipSelect::CHIP2),
                    ChipSelect::CHIP3,
                ),
            ),
        ),
{
    lemma_chains();
    lemma_turns(w.core, Event::Nothing);
    lemma_effect(Task::Init, w);
    let w1 = operation(Task::Unselect, w);
    lemma_operation(Task::Unselect, w);
    let w2 = operation(Task::Strobe(false), w1);
    lemma_operation(Task::Strobe(false), w1);
    let w3 = operation(Task::Mode(0, 0), w2);
    lemma_operation(Task::Mode(0, 0), w2);
    lemma_operation(Task::Rest(POWER_UP_MS), w3);
}

/// Putting the bus to rest changes no controller and nothing that the
/// engine remembers.
proof fn lemma_rested(w: World)
    requires
        w.sound(),
    ensures
        rested(w).sound(),
        rested(w).panel.chip1 == w.panel.chip1,
        rested(w).panel.chip2 == w.panel.chip2,
        rested(w).panel.chip3 == w.panel.chip3,
{
    let w1 = operation(Task::Unselect, w);
    lemma_unselect(w);
    let w2 = operation(Task::Strobe(false), w1);
    lemma_lower(w1);
    let w3 = operation(Task::Mode(0, 0), w2);
    lemma_mode(w2, 0, 0);
    lemma_rest(w3, POWER_UP_MS);
    assert(w1.panel.edge_chip(ChipSelect::CHIP1) == w.panel.chip1);
    assert(w1.panel.edge_chip(ChipSelect::CHIP2) == w.panel.chip2);
    assert(w1.panel.edge_chip(ChipSelect::CHIP3) == w.panel.chip3);
}

/// A controller that is switched on and told to start at line 0 shows
/// its memory from the top; its memory and its address are untouched.
proof fn lemma_switched_on(w: World, chip: ChipSelect)
    requires
        w.sound(),
    ensures
        switched_on(w, chip).sound(),
        w.touched(switched_on(w, chip), chip),
        switched_on(w, chip).panel.chip(chip).on,
        switched_on(w, chip).panel.chip(chip).start_line == 0,
        switched_on(w, chip).panel.chip(chip).cells == w.panel.chip(chip).cells,
        switched_on(w, chip).panel.chip(chip).lag == w.panel.chip(chip).lag,
{
    assert(start_line_command(0) == 0xC0) by {
        assert(0xC0u8 | 0u8 == 0xC0u8) by (bit_vector);
    }
    lemma_command_touches(w, chip, LCD_ON);
    let w1 = effect(Task::Command(chip, LCD_ON), w);
    lemma_command_touches(w1, chip, start_line_command(0));
}

/// What a world is after the display was brought up: engine and
/// controllers are in order, the cursor stands at the origin with the first
/// controller addressed there, every controller is switched on and shows
/// its memory from line 0, and every pixel is clear.
pub open spec fn brought_up(w: World) -> bool {
    &&& w.sound()
    &&& w.placed()
    &&& w.released()
    &&& w.core.x == 0
    &&& w.core.y == 0
    &&& w.panel.chip1.on && w.panel.chip1.start_line == 0
    &&& w.panel.chip2.on && w.panel.chip2.start_line == 0
    &&& w.panel.chip3.on && w.panel.chip3.start_line == 0
    &&& forall|px: u8, py: u8| px < 192 && py < 64 ==> !#[trigger] w.panel.pixel(px, py)
}

/// Bringing the display up, from whatever the controllers held before.
pub proof fn lemma_init(w: World)
    requires
        w.sound(),
    ensures
        brought_up(effect(Task::Init, w)),
{
    lemma_init_steps(w);
    lemma_rested(w);
    let w0 = rested(w);
    lemma_switched_on(w0, ChipSelect::CHIP1);
    let w1 = switched_on(w0, ChipSelect::CHIP1);
    lemma_switched_on(w1, ChipSelect::CHIP2);
    let w2 = switched_on(w1, ChipSelect::CHIP2);
    lemma_switched_on(w2, ChipSelect::CHIP3);
    let w3 = switched_on(w2, ChipSelect::CHIP3);
    lemma_fill(w3, 0, 0, 191, 63, false);
    let w4 = effect(Task::Fill(0, 0, 191, 63, false), w3);
    lemma_goto_picture(w4, 0, 0);
}

} // verus!
