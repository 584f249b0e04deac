//! A model of the display module: the lines, the three controllers and
//! their reaction to what the board does.
use crate::arduino::{Arduino, ChipSelect};
use crate::constants::{LCD_OFF, LCD_ON};
use crate::dbarduino::DBArduino;
use crate::signal::{Action, Event, Levels, Line};
use vstd::prelude::*;

verus! {

/// Index of the byte at `page` and `column` in the memory of one controller.
pub open spec fn cell_index(page: u8, column: u8) -> int {
    page as int * 64 + column as int
}

/// The column after `column` in a controller: the address counter counts
/// up by itself and wraps inside the 64 columns of its slice.
pub open spec fn next_column(column: u8) -> u8 {
    if column == 63 {
        0
    } else {
        (column + 1) as u8
    }
}

/// What one controller holds.
pub struct ChipState {
    /// Whether the display is switched on.
    pub on: bool,
    /// The display start line.
    pub start_line: u8,
    /// The page register, below 8.
    pub page: u8,
    /// The column address counter, below 64.
    pub column: u8,
    /// The output register that a data read presents.
    pub latch: u8,
    /// Number of status reads for which the controller still reports busy.
    pub busy: u8,
    /// Number of status reads that the controller stays busy for after a transfer.
    pub lag: u8,
    /// The display memory, 8 pages of 64 bytes: see `cell_index`.
    pub cells: Seq<u8>,
    /// The command bytes taken so far, oldest first.
    pub log: Seq<u8>,
}

impl ChipState {
    /// Whether the registers are in range and the memory has its 512 bytes.
    pub open spec fn wf(self) -> bool {
        &&& self.page < 8
        &&& self.column < 64
        &&& self.start_line < 64
        &&& self.cells.len() == 512
    }

    /// A controller after power-up: switched off, at page 0 and column 0,
    /// busy for `lag` readings of its status and slow by `lag` readings
    /// after every transfer, with every byte of its memory equal to `fill`.
    pub open spec fn fresh(lag: u8, fill: u8) -> ChipState {
        ChipState {
            on: false,
            start_line: 0,
            page: 0,
            column: 0,
            latch: 0,
            busy: lag,
            lag,
            cells: Seq::new(512, |i: int| fill),
            log: Seq::empty(),
        }
    }

    /// The byte at `page` and `column`.
    pub open spec fn cell(self, page: u8, column: u8) -> u8 {
        self.cells[cell_index(page, column)]
    }

    /// The status byte: bit 7 is the busy flag, bit 5 is set while the
    /// display is off.
    pub open spec fn status(self) -> u8 {
        if self.busy > 0 {
            if self.on {
                0x80
            } else {
                0xA0
            }
        } else {
            if self.on {
                0x00
            } else {
                0x20
            }
        }
    }

    /// The controller after it took the command `byte`.
    pub open spec fn command(self, byte: u8) -> ChipState {
        let taken = ChipState { busy: self.lag, log: self.log.push(byte), ..self };
        if byte == LCD_ON {
            ChipState { on: true, ..taken }
        } else if byte == LCD_OFF {
            ChipState { on: false, ..taken }
        } else if 0x40 <= byte < 0x80 {
            ChipState { column: (byte - 0x40) as u8, ..taken }
        } else if 0xB8 <= byte < 0xC0 {
            ChipState { page: (byte - 0xB8) as u8, ..taken }
        } else if 0xC0 <= byte {
            ChipState { start_line: (byte - 0xC0) as u8, ..taken }
        } else {
            taken
        }
    }

    /// The controller after it took the display data `byte`: the byte lands
    /// at the current address and the column counter moves on.
    pub open spec fn store(self, byte: u8) -> ChipState {
        ChipState {
            cells: self.cells.update(cell_index(self.page, self.column), byte),
            column: next_column(self.column),
            busy: self.lag,
            ..self
        }
    }

    /// The controller after a data read: the byte at the current address
    /// goes to the output register and the column counter moves on.
    pub open spec fn fetch(self) -> ChipState {
        ChipState {
            latch: self.cell(self.page, self.column),
            column: next_column(self.column),
            busy: self.lag,
            ..self
        }
    }

    /// The controller after the falling edge of the strobe while it is
    /// selected. A busy controller takes nothing.
    pub open spec fn strobed(self, rw: bool, rs: bool, byte: u8) -> ChipState {
        if self.busy > 0 {
            self
        } else if !rw && !rs {
            self.command(byte)
        } else if !rw && rs {
            self.store(byte)
        } else if rw && rs {
            self.fetch()
        } else {
            self
        }
    }

    /// The controller after its status was read once.
    pub open spec fn asked(self) -> ChipState {
        if self.busy > 0 {
            ChipState { busy: (self.busy - 1) as u8, ..self }
        } else {
            self
        }
    }

    /// The controller once it has stopped being busy.
    pub open spec fn ready(self) -> ChipState {
        ChipState { busy: 0, ..self }
    }
}

/// The display module as the board sees it: the levels on the fourteen
/// wires and the three controllers behind them.
pub struct PanelState {
    /// The levels on the control lines.
    pub control: Arduino,
    /// The direction and levels that the board gives the data lines.
    pub data: DBArduino,
    /// The controller of columns 0 to 63.
    pub chip1: ChipState,
    /// The controller of columns 64 to 127.
    pub chip2: ChipState,
    /// The controller of columns 128 to 191.
    pub chip3: ChipState,
}

impl PanelState {
    /// Whether all three controllers are in a valid state.
    pub open spec fn wf(self) -> bool {
        &&& self.chip1.wf()
        &&& self.chip2.wf()
        &&& self.chip3.wf()
    }

    /// The state of controller `c`.
    pub open spec fn chip(self, c: ChipSelect) -> ChipState {
        match c {
            ChipSelect::CHIP1 => self.chip1,
            ChipSelect::CHIP2 => self.chip2,
            ChipSelect::CHIP3 => self.chip3,
        }
    }

    /// The panel with controller `c` replaced by `state`.
    pub open spec fn with_chip(self, c: ChipSelect, state: ChipState) -> PanelState {
        match c {
            ChipSelect::CHIP1 => PanelState { chip1: state, ..self },
            ChipSelect::CHIP2 => PanelState { chip2: state, ..self },
            ChipSelect::CHIP3 => PanelState { chip3: state, ..self },
        }
    }

    /// The controller that drives the data lines: the strobe is high, the
    /// board reads, and exactly that controller is selected.
    pub open spec fn speaker(self) -> Option<ChipSelect> {
        if self.control.en && self.control.rw {
            if self.control.selects_only(ChipSelect::CHIP1) {
                Some(ChipSelect::CHIP1)
            } else if self.control.selects_only(ChipSelect::CHIP2) {
                Some(ChipSelect::CHIP2)
            } else if self.control.selects_only(ChipSelect::CHIP3) {
                Some(ChipSelect::CHIP3)
            } else {
                None
            }
        } else {
            None
        }
    }

    /// The levels that a reading of the data lines finds: the status or the
    /// output register of the controller that drives them, and all lines
    /// high through the pull-ups where none does.
    pub open spec fn shown(self) -> Levels {
        match self.speaker() {
            Some(c) => if self.control.rs {
                Levels::of(self.chip(c).latch)
            } else {
                Levels::of(self.chip(c).status())
            },
            None => Levels::released(),
        }
    }

    /// The panel after a controller was given the time of one reading: a
    /// controller whose status is being read comes one step closer to ready.
    pub open spec fn asked(self) -> PanelState {
        match self.speaker() {
            Some(c) => if self.control.rs {
                self
            } else {
                self.with_chip(c, self.chip(c).asked())
            },
            None => self,
        }
    }

    /// The panel once the controller whose status is being read is ready.
    pub open spec fn settled(self) -> PanelState {
        match self.speaker() {
            Some(c) => if self.control.rs {
                self
            } else {
                self.with_chip(c, self.chip(c).ready())
            },
            None => self,
        }
    }

    /// Controller `c` after a falling edge of the strobe.
    pub open spec fn edge_chip(self, c: ChipSelect) -> ChipState {
        if self.control.selects(c) {
            self.chip(c).strobed(self.control.rw, self.control.rs, self.data.levels().byte())
        } else {
            self.chip(c)
        }
    }

    /// The panel after the strobe line was lowered.
    pub open spec fn edge(self) -> PanelState {
        if self.control.en {
            PanelState {
                control: self.control.strobed(false),
                data: self.data,
                chip1: self.edge_chip(ChipSelect::CHIP1),
                chip2: self.edge_chip(ChipSelect::CHIP2),
                chip3: self.edge_chip(ChipSelect::CHIP3),
            }
        } else {
            self
        }
    }

    /// The panel after the board carried out `action`.
    pub open spec fn after(self, action: Action) -> PanelState {
        match action {
            Action::Drive(Line::EN, false) => self.edge(),
            Action::Sample => self.asked(),
            Action::SampleReady => self.asked(),
            _ => PanelState {
                control: self.control.after(action),
                data: self.data.after(action),
                ..self
            },
        }
    }

    /// What the board reports after it carried out `action` and the panel
    /// is in state `self`.
    pub open spec fn answer(self, action: Action) -> Event {
        match action {
            Action::Sample => Event::Levels(self.shown()),
            Action::SampleReady => Event::Level(self.shown().d7),
            _ => Event::Nothing,
        }
    }

    /// The panel after the board carried out a burst of actions in order.
    #[verifier::opaque]
    pub open spec fn after_all(self, burst: Seq<Action>) -> PanelState
        decreases burst.len(),
    {
        if burst.len() == 0 {
            self
        } else {
            self.after_all(burst.drop_last()).after(burst.last())
        }
    }

    /// What the board reports after a burst: the reading that its last
    /// action asked for, if it asked for one.
    pub open spec fn answer_all(self, burst: Seq<Action>) -> Event {
        if burst.len() == 0 {
            Event::Nothing
        } else {
            self.after_all(burst).answer(burst.last())
        }
    }

    /// Whether the pixel in column `x` and row `y` of the display is set.
    pub open spec fn pixel(self, x: u8, y: u8) -> bool {
        crate::signal::bit(self.chip(ChipSelect::at(x)).cell(y / 8, x % 64), y % 8)
    }

    /// The byte of display memory that holds rows `8 * page` to `8 * page + 7`
    /// of column `x`.
    pub open spec fn byte_at(self, x: u8, page: u8) -> u8 {
        self.chip(ChipSelect::at(x)).cell(page, x % 64)
    }
}

} // verus!
