//! Reading, storing and moving on by a column.
use crate::arduino::ChipSelect;
use crate::cursor::{going, lemma_goto};
use crate::ermc192641::{column_command, merged, Core, Task};
use crate::panel::{cell_index, ChipState, PanelState};
use crate::plans::{lemma_chains, lemma_turns};
use crate::protocol::{lemma_load, lemma_prime, lemma_store};
use crate::signal::Event;
use crate::world::{effect, lemma_effect, World};
use vstd::prelude::*;

verus! {

/// A priming read changes the controller that is read and the lines alone.
pub proof fn lemma_prime_touches(w: World, chip: ChipSelect)
    requires
        w.wired(),
    ensures
        effect(Task::Prime(chip), w).wired(),
        w.touched(effect(Task::Prime(chip), w), chip),
        effect(Task::Prime(chip), w).panel.chip(chip) == w.panel.chip(chip).ready().fetch(),
{
    lemma_prime(w, chip);
}

/// A read hands the engine the output register of the controller, and
/// changes that controller and the lines alone.
pub proof fn lemma_load_touches(w: World, chip: ChipSelect)
    requires
        w.wired(),
    ensures
        effect(Task::Load(chip), w).wired(),
        effect(Task::Load(chip), w).released(),
        w.latch(w.panel.chip(chip).latch).touched(effect(Task::Load(chip), w), chip),
        effect(Task::Load(chip), w).panel.chip(chip) == w.panel.chip(chip).ready().fetch(),
{
    lemma_load(w, chip);
}

/// A byte of display data sent to a controller changes that controller and
/// the lines alone.
pub proof fn lemma_store_touches(w: World, chip: ChipSelect, byte: u8)
    requires
        w.wired(),
    ensures
        effect(Task::Store(chip, byte), w).wired(),
        effect(Task::Store(chip, byte), w).released(),
        w.touched(effect(Task::Store(chip, byte), w), chip),
        effect(Task::Store(chip, byte), w).panel.chip(chip) == w.panel.chip(chip).ready().store(
            byte,
        ),
{
    lemma_store(w, chip, byte);
}

proof fn lemma_read_steps(w: World)
    ensures
        w.core.on_display() ==> effect(Task::Read, w) == effect(
            Task::Goto(w.core.x, w.core.y),
            effect(
                Task::Load(ChipSelect::at(w.core.x)),
                effect(Task::Prime(ChipSelect::at(w.core.x)), w),
            ),
        ),
        !w.core.on_display() ==> effect(Task::Read, w) == w.latch(0),
{
    lemma_chains();
    lemma_turns(w.core, Event::Nothing);
    lemma_effect(Task::Read, w);
}

/// Reading the byte under the cursor: the engine holds that byte, the
/// controller stands where it stood, and no memory has changed. The
/// controller has taken one more set-column command.
pub proof fn lemma_read(w: World)
    requires
        w.sound(),
        w.placed(),
        w.core.on_display(),
    ensures
        effect(Task::Read, w).sound(),
        effect(Task::Read, w).placed(),
        effect(Task::Read, w).released(),
        w.latch(w.panel.byte_at(w.core.x, (w.core.y / 8) as u8)).touched(
            effect(Task::Read, w),
            ChipSelect::at(w.core.x),
        ),
        effect(Task::Read, w).panel.chip(ChipSelect::at(w.core.x)).same_picture(
            w.panel.chip(ChipSelect::at(w.core.x)),
        ),
        effect(Task::Read, w).panel.chip(ChipSelect::at(w.core.x)).log == w.panel.chip(
            ChipSelect::at(w.core.x),
        ).log.push(column_command((w.core.x % 64) as u8)),
{
    let chip = ChipSelect::at(w.core.x);
    lemma_read_steps(w);
    lemma_prime_touches(w, chip);
    let w1 = effect(Task::Prime(chip), w);
    lemma_load_touches(w1, chip);
    let w2 = effect(Task::Load(chip), w1);
    assert(w2.sound());
    lemma_goto(w2, w.core.x, w.core.y);
    assert(going(w2, w.core.x, w.core.y) == w2);
}

/// Merging is one store of the byte last read, with bits set and cleared.
pub proof fn lemma_merge_steps(w: World, set: u8, clear: u8)
    ensures
        w.core.on_display() ==> effect(Task::Merge(set, clear), w) == effect(
            Task::Store(ChipSelect::at(w.core.x), merged(w.core.latch, set, clear)),
            w,
        ),
        !w.core.on_display() ==> effect(Task::Merge(set, clear), w) == w,
{
    lemma_chains();
    lemma_turns(w.core, Event::Nothing);
    lemma_effect(Task::Merge(set, clear), w);
}

proof fn lemma_advance_steps(w: World)
    ensures
        effect(Task::Advance, w) == if w.core.x < 192 {
            let moved = World {
                core: Core { x: (w.core.x + 1) as u8, ..w.core },
                panel: w.panel,
            };
            if moved.core.x < 192 && moved.core.x % 64 == 0 {
                effect(Task::Goto(moved.core.x, w.core.y), moved)
            } else {
                moved
            }
        } else {
            w
        },
{
    lemma_chains();
    lemma_turns(w.core, Event::Nothing);
    lemma_effect(Task::Advance, w);
}

/// Whether `later` shows what this panel shows but for one byte: the one
/// at `index` in the memory of `chip`, which is `byte`.
pub open spec fn repainted(
    before: PanelState,
    later: PanelState,
    chip: ChipSelect,
    index: int,
    byte: u8,
) -> bool {
    &&& later.chip(chip).same_picture(
        ChipState { cells: before.chip(chip).cells.update(index, byte), ..before.chip(chip) },
    )
    &&& chip != ChipSelect::CHIP1 ==> later.chip1.same_picture(before.chip1)
    &&& chip != ChipSelect::CHIP2 ==> later.chip2.same_picture(before.chip2)
    &&& chip != ChipSelect::CHIP3 ==> later.chip3.same_picture(before.chip3)
}

/// The world after a byte went to the controller under the cursor while
/// the cursor stayed behind: the controller has stored the byte and counts
/// one column further than the cursor.
pub open spec fn stored(w: World, later: World, byte: u8) -> bool {
    let chip = ChipSelect::at(w.core.x);
    &&& later.wired()
    &&& later.released()
    &&& w.touched(later, chip)
    &&& later.panel.chip(chip) == w.panel.chip(chip).ready().store(byte)
}

/// Following the controller after a store: the cursor has moved on by one
/// column and the controller under it is addressed there. Where the cursor
/// came into the slice of the next controller, that controller has taken a
/// set-column command for its column 0; no memory has changed.
pub proof fn lemma_advance(before: World, w: World, byte: u8)
    requires
        before.sound(),
        before.placed(),
        before.core.on_display(),
        stored(before, w, byte),
    ensures
        effect(Task::Advance, w).sound(),
        effect(Task::Advance, w).placed(),
        effect(Task::Advance, w).released(),
        effect(Task::Advance, w).core.x == before.core.x + 1,
        effect(Task::Advance, w).core.y == before.core.y,
        effect(Task::Advance, w).core.latch == before.core.latch,
        repainted(
            before.panel,
            effect(Task::Advance, w).panel,
            ChipSelect::at(before.core.x),
            cell_index((before.core.y / 8) as u8, (before.core.x % 64) as u8),
            byte,
        ),
        before.core.x + 1 < 192 && (before.core.x + 1) % 64 == 0 ==> effect(
            Task::Advance,
            w,
        ).panel.chip(ChipSelect::at((before.core.x + 1) as u8)).log.last() == column_command(0),
{
    lemma_advance_steps(w);
    let x = (before.core.x + 1) as u8;
    let moved = World { core: Core { x, ..w.core }, panel: w.panel };
    if x < 192 && x % 64 == 0 {
        assert(moved.sound());
        lemma_goto(moved, x, w.core.y);
    }
}

} // verus!
