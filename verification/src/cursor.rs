//! Moving the cursor: which commands go out and where the controllers stand.
use crate::arduino::ChipSelect;
use crate::ermc192641::{column_command, page_command, Core, Task};
use crate::panel::ChipState;
use crate::plans::{lemma_chains, lemma_turns};
use crate::protocol::{lemma_command, sent};
use crate::signal::Event;
use crate::world::{effect, lemma_effect, World};
use vstd::prelude::*;

verus! {

impl ChipState {
    /// Whether two states of a controller show the same picture: the same
    /// memory, switched on or off alike, from the same start line.
    pub open spec fn same_picture(self, other: ChipState) -> bool {
        &&& self.cells == other.cells
        &&& self.on == other.on
        &&& self.start_line == other.start_line
        &&& self.lag == other.lag
    }
}

impl World {
    /// Whether the engine knows the lines, the controllers are in a valid
    /// state, and every controller is at the page that the engine
    /// remembers for it, where it remembers one.
    pub open spec fn sound(self) -> bool {
        &&& self.wired()
        &&& self.panel.wf()
        &&& self.knows(ChipSelect::CHIP1)
        &&& self.knows(ChipSelect::CHIP2)
        &&& self.knows(ChipSelect::CHIP3)
    }

    /// Whether the engine has let go of the bus: the data lines are
    /// outputs again and the strobe is low.
    pub open spec fn released(self) -> bool {
        self.core.data_bus.is_output() && !self.core.control_bus.en
    }

    /// Whether controller `c` is at the page that the engine remembers for
    /// it, where it remembers one.
    pub open spec fn knows(self, c: ChipSelect) -> bool {
        self.core.pages.of(c) is Some ==> self.panel.chip(c).page == self.core.pages.of(c)->Some_0
    }

    /// Whether controller `c` is in the same state in both worlds, unless
    /// it is `chip`.
    pub open spec fn spared(self, later: World, chip: ChipSelect, c: ChipSelect) -> bool {
        c != chip ==> later.panel.chip(c) == self.panel.chip(c)
    }

    /// Whether the controller under the cursor is addressed where the
    /// cursor stands: the next byte read or written is the one under the
    /// cursor. A cursor past the right edge asks nothing.
    pub open spec fn placed(self) -> bool {
        self.core.on_display() ==> {
            let chip = ChipSelect::at(self.core.x);
            &&& self.core.pages.of(chip) == Some((self.core.y / 8) as u8)
            &&& self.panel.chip(chip).page == self.core.y / 8
            &&& self.panel.chip(chip).column == self.core.x % 64
        }
    }

    /// Whether `later` differs from this world in the lines and in the
    /// controller `chip` at most: the cursor, the remembered pages, the byte
    /// last read and the other two controllers are the same.
    pub open spec fn touched(self, later: World, chip: ChipSelect) -> bool {
        &&& later.core.x == self.core.x
        &&& later.core.y == self.core.y
        &&& later.core.pages == self.core.pages
        &&& later.core.latch == self.core.latch
        &&& self.spared(later, chip, ChipSelect::CHIP1)
        &&& self.spared(later, chip, ChipSelect::CHIP2)
        &&& self.spared(later, chip, ChipSelect::CHIP3)
    }
}

/// The command bytes for a page and for a column are the opcode plus the
/// number.
pub proof fn lemma_address_commands(page: u8, column: u8)
    requires
        page < 8,
        column < 64,
    ensures
        page_command(page) == 0xB8 + page,
        column_command(column) == 0x40 + column,
{
    assert((0xB8u8 | page) & 0xBF == 0xB8 + page) by (bit_vector)
        requires
            page < 8,
    ;
    assert((0x40u8 | column) & 0x7F == 0x40 + column) by (bit_vector)
        requires
            column < 64,
    ;
}

/// A controller that takes a set-page command is at that page, and one
/// that takes a set-column command is at that column; nothing else about
/// it changes but the record of commands taken.
pub proof fn lemma_addressed(chip: ChipState, page: u8, column: u8)
    requires
        page < 8,
        column < 64,
        chip.wf(),
    ensures
        chip.ready().command(page_command(page)) == (ChipState {
            page,
            busy: chip.lag,
            log: chip.log.push(page_command(page)),
            ..chip
        }),
        chip.ready().command(column_command(column)) == (ChipState {
            column,
            busy: chip.lag,
            log: chip.log.push(column_command(column)),
            ..chip
        }),
{
    lemma_address_commands(page, column);
}

/// A command sent to a controller changes that controller and the lines
/// alone.
pub proof fn lemma_command_touches(w: World, chip: ChipSelect, byte: u8)
    requires
        w.wired(),
    ensures
        effect(Task::Command(chip, byte), w).wired(),
        effect(Task::Command(chip, byte), w).released(),
        w.touched(effect(Task::Command(chip, byte), w), chip),
        effect(Task::Command(chip, byte), w).panel.chip(chip) == w.panel.chip(
            chip,
        ).ready().command(byte),
{
    lemma_command(w, chip, byte);
}

/// The controller under column `x` after the cursor went there in row `y`.
pub open spec fn gone_to(w: World, x: u8, y: u8) -> ChipState {
    let chip = ChipSelect::at(x);
    let page = (y / 8) as u8;
    let column = (x % 64) as u8;
    let before = w.panel.chip(chip);
    ChipState {
        page,
        column,
        busy: before.lag,
        log: if w.core.pages.of(chip) == Some(page) {
            before.log.push(column_command(column))
        } else {
            before.log.push(page_command(page)).push(column_command(column))
        },
        ..before
    }
}

/// The world in which the engine has taken up `Goto(x, y)` and has yet
/// to send its commands.
pub open spec fn going(w: World, x: u8, y: u8) -> World {
    World {
        core: Core {
            x,
            y,
            pages: w.core.pages.with(ChipSelect::at(x), (y / 8) as u8),
            ..w.core
        },
        panel: w.panel,
    }
}

proof fn lemma_goto_steps(w: World, x: u8, y: u8)
    requires
        x < 192,
        y < 64,
    ensures
        effect(Task::Goto(x, y), w) == if w.core.pages.of(ChipSelect::at(x)) == Some(
            (y / 8) as u8,
        ) {
            effect(
                Task::Command(ChipSelect::at(x), column_command((x % 64) as u8)),
                going(w, x, y),
            )
        } else {
            effect(
                Task::Command(ChipSelect::at(x), column_command((x % 64) as u8)),
                effect(
                    Task::Command(ChipSelect::at(x), page_command((y / 8) as u8)),
                    going(w, x, y),
                ),
            )
        },
{
    lemma_chains();
    lemma_turns(w.core, Event::Nothing);
    lemma_effect(Task::Goto(x, y), w);
}

/// Moving the cursor: the controller under the new column is at the page
/// and the column of the cursor; its memory and the other controllers are
/// untouched; the page was sent exactly where the engine did not know the
/// controller to be at it, and the column in any case.
pub proof fn lemma_goto(w: World, x: u8, y: u8)
    requires
        w.sound(),
        x < 192,
        y < 64,
    ensures
        effect(Task::Goto(x, y), w).sound(),
        effect(Task::Goto(x, y), w).placed(),
        effect(Task::Goto(x, y), w).released(),
        going(w, x, y).touched(effect(Task::Goto(x, y), w), ChipSelect::at(x)),
        effect(Task::Goto(x, y), w).panel.chip(ChipSelect::at(x)) == gone_to(w, x, y),
{
    let chip = ChipSelect::at(x);
    let page = (y / 8) as u8;
    let column = (x % 64) as u8;
    lemma_goto_steps(w, x, y);
    let w0 = going(w, x, y);
    let before = w.panel.chip(chip);
    lemma_addressed(before, page, column);
    if w.core.pages.of(chip) == Some(page) {
        lemma_command_touches(w0, chip, column_command(column));
    } else {
        lemma_command_touches(w0, chip, page_command(page));
        let w1 = effect(Task::Command(chip, page_command(page)), w0);
        lemma_addressed(w1.panel.chip(chip), page, column);
        lemma_command_touches(w1, chip, column_command(column));
    }
}

} // verus!
