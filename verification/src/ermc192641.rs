//! The engine: its tasks, what taking up each task comes to, and `step`.
use crate::arduino::{Arduino, ChipSelect};
use crate::constants::{
    ADDRESS_SETUP_US, DATA_DELAY_US, DISPLAY_HEIGHT, DISPLAY_WIDTH, LCD_ON, LCD_SET_COLUMN,
    LCD_SET_ROW, LCD_START_LINE, PIXEL_OFF, PIXEL_ON, POWER_UP_MS, PULSE_HIGH_US, PULSE_LOW_US,
};
use crate::dbarduino::DBArduino;
use crate::laws::{
    attended, commanded, filled_in, fresh_engine, lemma_appended, lemma_draw_iter,
    lemma_fill_rect, lemma_fresh, lemma_goto_xy, lemma_wait_ready_done, lemma_write_command,
    painted, went,
};
use crate::panel::PanelState;
use crate::signal::{Action, Event, Levels};
use crate::split::{lemma_read_data, lemma_write, read_out, written};
use crate::startup::{brought_up, lemma_init};
use crate::stepping::{in_step, lemma_scheduled, lemma_step};
use crate::world::outcome;
use vstd::prelude::*;

verus! {

/// The page that each controller was last told to go to, where that is known.
#[derive(Copy, Clone, Debug, PartialEq, Eq, Structural)]
pub struct ChipSelectPage {
    /// The page of the first controller.
    pub page1: Option<u8>,
    /// The page of the second controller.
    pub page2: Option<u8>,
    /// The page of the third controller.
    pub page3: Option<u8>,
}

impl ChipSelectPage {
    /// Nothing is known of any controller.
    pub open spec fn unknown() -> ChipSelectPage {
        ChipSelectPage { page1: None, page2: None, page3: None }
    }

    /// The page remembered for `chip`.
    pub open spec fn of(self, chip: ChipSelect) -> Option<u8> {
        match chip {
            ChipSelect::CHIP1 => self.page1,
            ChipSelect::CHIP2 => self.page2,
            ChipSelect::CHIP3 => self.page3,
        }
    }

    /// The record with `page` remembered for `chip`.
    pub open spec fn with(self, chip: ChipSelect, page: u8) -> ChipSelectPage {
        match chip {
            ChipSelect::CHIP1 => ChipSelectPage { page1: Some(page), ..self },
            ChipSelect::CHIP2 => ChipSelectPage { page2: Some(page), ..self },
            ChipSelect::CHIP3 => ChipSelectPage { page3: Some(page), ..self },
        }
    }

    /// The page remembered for `chip`.
    pub fn index(&self, chip: ChipSelect) -> (page: Option<u8>)
        ensures
            page == self.of(chip),
    {
        match chip {
            ChipSelect::CHIP1 => self.page1,
            ChipSelect::CHIP2 => self.page2,
            ChipSelect::CHIP3 => self.page3,
        }
    }

    /// Remembers `page` for `chip`.
    pub fn index_mut(&mut self, chip: ChipSelect, page: u8)
        ensures
            *final(self) == old(self).with(chip, page),
    {
        match chip {
            ChipSelect::CHIP1 => {
                self.page1 = Some(page);
            },
            ChipSelect::CHIP2 => {
                self.page2 = Some(page);
            },
            ChipSelect::CHIP3 => {
                self.page3 = Some(page);
            },
        }
    }
}

/// The command that sets the page register to `page`.
pub open spec fn page_command(page: u8) -> u8 {
    (LCD_SET_ROW | page) & 0xBF
}

/// The command that sets the column address to `column`.
pub open spec fn column_command(column: u8) -> u8 {
    (LCD_SET_COLUMN | column) & 0x7F
}

/// The command that sets the display start line to `line`.
pub open spec fn start_line_command(line: u8) -> u8 {
    LCD_START_LINE | line
}

/// The byte with exactly the bits `first` to `last` set.
pub open spec fn rows_mask(first: u8, last: u8) -> u8
    recommends
        first <= last < 8,
{
    (0xFFu8 >> ((7 - last + first) as u8)) << first
}

/// The part of a row pattern that lands in the page of the cursor when the
/// cursor stands `offset` rows below the top of that page.
pub open spec fn lower_part(pattern: u8, offset: u8) -> u8
    recommends
        offset < 8,
{
    pattern << offset
}

/// The part of a row pattern that lands in the page below.
pub open spec fn upper_part(pattern: u8, offset: u8) -> u8
    recommends
        0 < offset < 8,
{
    pattern >> ((8 - offset) as u8)
}

/// The byte read from a column with the bits of `set` raised and the bits
/// of `clear` dropped.
pub open spec fn merged(read: u8, set: u8, clear: u8) -> u8 {
    (read | set) & !clear
}

/// A piece of work that the engine has yet to carry out. The first group
/// are single operations of the two buses; every other task stands for the
/// sequence of tasks that `Core::turn` gives as its plan.
#[derive(Copy, Clone, Debug, PartialEq, Eq, Structural)]
pub enum Task {
    /// Set the read/write and register select lines.
    Mode(u8, u8),
    /// Drive the strobe line.
    Strobe(bool),
    /// Release all select lines.
    Unselect,
    /// Assert the select line of one controller.
    Select(ChipSelect),
    /// Switch the data bus to input.
    Listen,
    /// Switch the data bus to output.
    TurnOut,
    /// Switch the data bus to output and put a byte on it.
    Put(u8),
    /// Switch the data bus to input and read the busy flag.
    Poll,
    /// Take the busy flag that was read; read again while it is set.
    Check,
    /// Switch the data bus to input and read a byte.
    Capture,
    /// Take the byte that was read.
    Latch,
    /// Wait some microseconds.
    Pause(u32),
    /// Wait some milliseconds.
    Rest(u16),
    /// Select one controller and wait until it is no longer busy.
    WaitReady(ChipSelect),
    /// Send a command byte to one controller.
    Command(ChipSelect, u8),
    /// Send a byte of display data to one controller.
    Store(ChipSelect, u8),
    /// The priming read that a controller needs before a data read.
    Prime(ChipSelect),
    /// Read the output register of one controller.
    Load(ChipSelect),
    /// Move the cursor and address the controller under it.
    Goto(u8, u8),
    /// Read the byte under the cursor.
    Read,
    /// Write a pattern of eight rows at the cursor and move on one column.
    Write(u8),
    /// Store the byte last read, with bits set and bits cleared.
    Merge(u8, u8),
    /// Move the cursor on one column after a store.
    Advance,
    /// Move the cursor to the column after the given one in the given row.
    Next(u8, u8),
    /// Set or clear the rows of a mask in the column under the cursor.
    Column(u8, bool),
    /// The same in a number of columns, from the cursor to the right.
    Band(u8, u8, bool),
    /// Set or clear the pixels of a rectangle.
    Fill(u8, u8, u8, u8, bool),
    /// Bring the display up.
    Init,
}

/// What the engine keeps between steps, but for its list of tasks.
#[derive(Copy, Clone, Debug, PartialEq, Eq, Structural)]
pub struct Core {
    /// The levels that the engine has put on the control lines.
    pub control_bus: Arduino,
    /// The direction and levels that the engine has given the data lines.
    pub data_bus: DBArduino,
    /// Column of the cursor; `DISPLAY_WIDTH` when it is past the right edge.
    pub x: u8,
    /// Row of the cursor.
    pub y: u8,
    /// The page that each controller was last sent to.
    pub pages: ChipSelectPage,
    /// The byte last read from the display.
    pub latch: u8,
}

/// What taking up one task comes to: the new state of the engine, the tasks
/// that take the place of the one taken up, and the burst of actions for
/// the board.
pub struct Turn {
    /// The state of the engine after the turn.
    pub core: Core,
    /// The tasks that take the place of the task taken up, first to last.
    pub plan: Seq<Task>,
    /// The pin actions for the board, in order.
    pub burst: Seq<Action>,
}

/// The engine as contracts see it.
pub struct Engine {
    /// What the engine keeps but for its tasks.
    pub core: Core,
    /// The work to do, first things first.
    pub tasks: Seq<Task>,
}

/// Selecting `chip` alone and waiting for it.
pub open spec fn wait_ready_plan(chip: ChipSelect) -> Seq<Task> {
    seq![Task::Listen]
        .push(Task::Unselect)
        .push(Task::Select(chip))
        .push(Task::Mode(1, 0))
        .push(Task::Pause(ADDRESS_SETUP_US))
        .push(Task::Strobe(true))
        .push(Task::Pause(DATA_DELAY_US))
        .push(Task::Poll)
        .push(Task::Strobe(false))
}

/// Writing `byte` to `chip`, as a command where `s` is 0 and as display
/// data where it is 1.
pub open spec fn send_plan(chip: ChipSelect, s: u8, byte: u8) -> Seq<Task> {
    seq![Task::WaitReady(chip)]
        .push(Task::Mode(0, s))
        .push(Task::Put(byte))
        .push(Task::Pause(ADDRESS_SETUP_US))
        .push(Task::Strobe(true))
        .push(Task::Pause(PULSE_HIGH_US))
        .push(Task::Strobe(false))
        .push(Task::Pause(PULSE_LOW_US))
}

/// One read cycle of `chip` whose byte is not looked at.
pub open spec fn prime_plan(chip: ChipSelect) -> Seq<Task> {
    seq![Task::WaitReady(chip)]
        .push(Task::Mode(1, 1))
        .push(Task::Pause(ADDRESS_SETUP_US))
        .push(Task::Strobe(true))
        .push(Task::Pause(PULSE_HIGH_US))
        .push(Task::Strobe(false))
        .push(Task::Pause(PULSE_LOW_US))
}

/// One read cycle of `chip` whose byte is taken, after which the bus is an
/// output again.
pub open spec fn load_plan(chip: ChipSelect) -> Seq<Task> {
    seq![Task::WaitReady(chip)]
        .push(Task::Mode(1, 1))
        .push(Task::Pause(ADDRESS_SETUP_US))
        .push(Task::Strobe(true))
        .push(Task::Pause(DATA_DELAY_US))
        .push(Task::Capture)
        .push(Task::Strobe(false))
        .push(Task::Pause(PULSE_LOW_US))
        .push(Task::TurnOut)
}

/// Bringing the display up: the bus at rest, the power-up time, every
/// controller switched on with start line 0, the memory cleared, and the
/// cursor at the origin.
pub open spec fn init_plan() -> Seq<Task> {
    seq![Task::Unselect]
        .push(Task::Strobe(false))
        .push(Task::Mode(0, 0))
        .push(Task::Rest(POWER_UP_MS))
        .push(Task::Command(ChipSelect::CHIP1, LCD_ON))
        .push(Task::Command(ChipSelect::CHIP1, start_line_command(0)))
        .push(Task::Command(ChipSelect::CHIP2, LCD_ON))
        .push(Task::Command(ChipSelect::CHIP2, start_line_command(0)))
        .push(Task::Command(ChipSelect::CHIP3, LCD_ON))
        .push(Task::Command(ChipSelect::CHIP3, start_line_command(0)))
        .push(Task::Fill(0, 0, 191, 63, false))
        .push(Task::Goto(0, 0))
}

impl Core {
    /// Whether the cursor is on the display.
    pub open spec fn on_display(self) -> bool {
        self.x < DISPLAY_WIDTH && self.y < DISPLAY_HEIGHT
    }

    /// Nothing to plan and nothing to tell the board.
    pub open spec fn quiet(self) -> Turn {
        Turn { core: self, plan: Seq::empty(), burst: Seq::empty() }
    }

    /// Handing a burst to the board.
    pub open spec fn emit(self, burst: Seq<Action>) -> Turn {
        Turn { core: self, plan: Seq::empty(), burst }
    }

    /// Replacing a task by a plan.
    pub open spec fn unfold(self, plan: Seq<Task>) -> Turn {
        Turn { core: self, plan, burst: Seq::empty() }
    }

    /// Switching the bus to input and asking for the busy flag.
    pub open spec fn poll(self) -> Turn {
        Turn {
            core: Core { data_bus: DBArduino::listening(), ..self },
            plan: seq![Task::Check],
            burst: DBArduino::listen_burst().push(Action::SampleReady),
        }
    }

    /// Switching the bus to input and asking for a byte.
    pub open spec fn capture(self) -> Turn {
        Turn {
            core: Core { data_bus: DBArduino::listening(), ..self },
            plan: seq![Task::Latch],
            burst: DBArduino::listen_burst().push(Action::Sample),
        }
    }

    /// Taking the busy flag that the board read: done where it is low,
    /// asked for once more where it is high or was not read at all.
    pub open spec fn check(self, event: Event) -> Turn {
        if self.data_bus.is_input() && event == Event::Level(false) {
            self.quiet()
        } else {
            self.poll()
        }
    }

    /// Taking the byte that the board read, or asking for it once more
    /// where none was read.
    pub open spec fn latch(self, event: Event) -> Turn {
        if self.data_bus.is_input() && event is Levels {
            Core { latch: event->Levels_0.byte(), ..self }.quiet()
        } else {
            self.capture()
        }
    }

    /// Moving the cursor to column `x` of row `y`: the page is sent only
    /// where the controller is not known to be at it, the column always.
    pub open spec fn goto(self, x: u8, y: u8) -> Turn {
        if x < DISPLAY_WIDTH && y < DISPLAY_HEIGHT {
            let chip = ChipSelect::at(x);
            let page = y / 8;
            let column = Task::Command(chip, column_command(x % 64));
            Turn {
                core: Core { x, y, pages: self.pages.with(chip, page), ..self },
                plan: if self.pages.of(chip) == Some(page) {
                    seq![column]
                } else {
                    seq![Task::Command(chip, page_command(page))].push(column)
                },
                burst: Seq::empty(),
            }
        } else {
            self.quiet()
        }
    }

    /// Reading the byte under the cursor: a priming read, the read itself,
    /// and the column address once more, since both reads moved it on. Off
    /// the display nothing is read and the byte is 0.
    pub open spec fn read(self) -> Turn {
        if self.on_display() {
            let chip = ChipSelect::at(self.x);
            self.unfold(seq![Task::Prime(chip)]
                .push(Task::Load(chip))
                .push(Task::Goto(self.x, self.y)))
        } else {
            Core { latch: 0, ..self }.quiet()
        }
    }

    /// Writing a pattern of eight rows whose top row is the row of the cursor.
    pub open spec fn write(self, pattern: u8) -> Turn {
        if self.on_display() {
            let chip = ChipSelect::at(self.x);
            let offset = self.y % 8;
            if offset == 0 {
                self.unfold(seq![Task::Store(chip, pattern)].push(Task::Advance))
            } else if self.y + 8 < DISPLAY_HEIGHT {
                self.unfold(
                    seq![Task::Read]
                        .push(Task::Merge(lower_part(pattern, offset), 0))
                        .push(Task::Goto(self.x, (self.y + 8) as u8))
                        .push(Task::Read)
                        .push(Task::Merge(upper_part(pattern, offset), 0))
                        .push(Task::Next(self.x, self.y)),
                )
            } else {
                self.unfold(
                    seq![Task::Read]
                        .push(Task::Merge(lower_part(pattern, offset), 0))
                        .push(Task::Advance),
                )
            }
        } else {
            self.quiet()
        }
    }

    /// Storing the byte last read with bits set and cleared.
    pub open spec fn merge(self, set: u8, clear: u8) -> Turn {
        if self.on_display() {
            self.unfold(seq![Task::Store(ChipSelect::at(self.x), merged(self.latch, set, clear))])
        } else {
            self.quiet()
        }
    }

    /// Following the column counter of the controller after a store: the
    /// cursor moves on by one, and where that takes it into the slice of the
    /// next controller, that controller is addressed.
    pub open spec fn advance(self) -> Turn {
        if self.x < DISPLAY_WIDTH {
            let x = (self.x + 1) as u8;
            let moved = Core { x, ..self };
            if x < DISPLAY_WIDTH && x % 64 == 0 {
                moved.unfold(seq![Task::Goto(x, self.y)])
            } else {
                moved.quiet()
            }
        } else {
            self.quiet()
        }
    }

    /// Going to the column after `x` in row `y`, or past the right edge
    /// where `x` is the last column.
    pub open spec fn next_column(self, x: u8, y: u8) -> Turn {
        if x < DISPLAY_WIDTH - 1 {
            self.unfold(seq![Task::Goto((x + 1) as u8, y)])
        } else if x == DISPLAY_WIDTH - 1 && y < DISPLAY_HEIGHT {
            Core { x: DISPLAY_WIDTH, y, ..self }.quiet()
        } else {
            self.quiet()
        }
    }

    /// Setting or clearing the rows of `mask` in the column under the
    /// cursor: a whole byte is written outright, part of one is read first.
    pub open spec fn column(self, mask: u8, on: bool) -> Turn {
        if mask == 0xFF {
            self.unfold(seq![Task::Write(if on { PIXEL_ON } else { PIXEL_OFF })])
        } else if on {
            self.unfold(seq![Task::Read].push(Task::Merge(mask, 0)).push(Task::Advance))
        } else {
            self.unfold(seq![Task::Read].push(Task::Merge(0, mask)).push(Task::Advance))
        }
    }

    /// The same in `n` columns from the cursor to the right.
    pub open spec fn band(self, n: u8, mask: u8, on: bool) -> Turn {
        if n == 0 {
            self.quiet()
        } else {
            self.unfold(seq![Task::Column(mask, on)].push(Task::Band((n - 1) as u8, mask, on)))
        }
    }

    /// Filling the rectangle from column `x1` to `x2` and row `y1` to `y2`:
    /// the part of it in the page of `y1` first, then the rest below.
    pub open spec fn fill(self, x1: u8, y1: u8, x2: u8, y2: u8, on: bool) -> Turn {
        if x1 <= x2 < DISPLAY_WIDTH && y1 <= y2 < DISPLAY_HEIGHT {
            let first = y1 % 8;
            let top = (y1 - first) as u8;
            let last = if y2 - top < 7 { (y2 - top) as u8 } else { 7u8 };
            let go = Task::Goto(x1, top);
            let band = Task::Band((x2 - x1 + 1) as u8, rows_mask(first, last), on);
            if y2 - top > 7 {
                self.unfold(seq![go].push(band).push(Task::Fill(x1, (top + 8) as u8, x2, y2, on)))
            } else {
                self.unfold(seq![go].push(band))
            }
        } else {
            self.quiet()
        }
    }

    /// What taking up an operation of one of the buses comes to.
    #[verifier::opaque]
    pub open spec fn bus_turn(self, task: Task, event: Event) -> Turn {
        match task {
            Task::Mode(w, s) => Core { control_bus: self.control_bus.moded(w, s), ..self }.emit(
                Arduino::mode_burst(w, s),
            ),
            Task::Strobe(high) => Core {
                control_bus: self.control_bus.strobed(high),
                ..self
            }.emit(Arduino::strobe_burst(high)),
            Task::Unselect => Core { control_bus: self.control_bus.all_chips(true), ..self }.emit(
                Arduino::all_chips_burst(true),
            ),
            Task::Select(chip) => Core { control_bus: self.control_bus.chosen(chip), ..self }.emit(
                Arduino::choose_burst(chip),
            ),
            Task::Listen => Core { data_bus: DBArduino::listening(), ..self }.emit(
                DBArduino::listen_burst(),
            ),
            Task::TurnOut => Core { data_bus: self.data_bus.turned_out(), ..self }.emit(
                DBArduino::turn_out_burst(),
            ),
            Task::Put(byte) => Core {
                data_bus: DBArduino::driving(Levels::of(byte)),
                ..self
            }.emit(DBArduino::turn_out_burst() + DBArduino::write_burst(byte)),
            Task::Poll => self.poll(),
            Task::Check => self.check(event),
            Task::Capture => self.capture(),
            Task::Latch => self.latch(event),
            Task::Pause(us) => self.emit(seq![Action::DelayUs(us)]),
            Task::Rest(ms) => self.emit(seq![Action::DelayMs(ms)]),
            _ => self.quiet(),
        }
    }

    /// What taking up `task` comes to when the board last reported `event`.
    #[verifier::opaque]
    pub open spec fn turn(self, task: Task, event: Event) -> Turn {
        match task {
            Task::WaitReady(chip) => self.unfold(wait_ready_plan(chip)),
            Task::Command(chip, byte) => self.unfold(send_plan(chip, 0, byte)),
            Task::Store(chip, byte) => self.unfold(send_plan(chip, 1, byte)),
            Task::Prime(chip) => self.unfold(prime_plan(chip)),
            Task::Load(chip) => self.unfold(load_plan(chip)),
            Task::Goto(x, y) => self.goto(x, y),
            Task::Read => self.read(),
            Task::Write(pattern) => self.write(pattern),
            Task::Merge(set, clear) => self.merge(set, clear),
            Task::Advance => self.advance(),
            Task::Next(x, y) => self.next_column(x, y),
            Task::Column(mask, on) => self.column(mask, on),
            Task::Band(n, mask, on) => self.band(n, mask, on),
            Task::Fill(x1, y1, x2, y2, on) => self.fill(x1, y1, x2, y2, on),
            Task::Init => self.unfold(init_plan()),
            _ => self.bus_turn(task, event),
        }
    }
}

impl Engine {
    /// The engine and the burst for the board after one step: the first
    /// task is taken up and gives way to its plan.
    pub open spec fn next(self, event: Event) -> (Engine, Seq<Action>) {
        if self.tasks.len() == 0 {
            (self, Seq::empty())
        } else {
            let turn = self.core.turn(self.tasks[0], event);
            (Engine { core: turn.core, tasks: turn.plan + self.tasks.skip(1) }, turn.burst)
        }
    }

    /// The engine with one more task at the end of its list.
    pub open spec fn with_task(self, task: Task) -> Engine {
        Engine { tasks: self.tasks.push(task), ..self }
    }
}

/// The tasks that draw a list of pixels, each given by column, row and
/// colour: one fill of a single pixel for every entry that lies on the
/// display, in the order of the list. Entries off the display are left out.
pub open spec fn pixel_tasks(pixels: Seq<(i32, i32, bool)>) -> Seq<Task>
    decreases pixels.len(),
{
    if pixels.len() == 0 {
        Seq::empty()
    } else {
        let (x, y, on) = pixels.last();
        let before = pixel_tasks(pixels.drop_last());
        if 0 <= x < DISPLAY_WIDTH && 0 <= y < DISPLAY_HEIGHT {
            before.push(Task::Fill(x as u8, y as u8, x as u8, y as u8, on))
        } else {
            before
        }
    }
}

impl Core {
    fn poll_now(&mut self) -> (out: (Vec<Task>, Vec<Action>))
        ensures
            *final(self) == old(self).poll().core,
            out.0@ == old(self).poll().plan,
            out.1@ == old(self).poll().burst,
    {
        let (bus, mut burst) = self.data_bus.data_dir_in();
        self.data_bus = bus;
        burst.push(Action::SampleReady);
        (vec![Task::Check], burst)
    }

    fn capture_now(&mut self) -> (out: (Vec<Task>, Vec<Action>))
        ensures
            *final(self) == old(self).capture().core,
            out.0@ == old(self).capture().plan,
            out.1@ == old(self).capture().burst,
    {
        let (bus, mut burst) = self.data_bus.data_dir_in();
        self.data_bus = bus;
        burst.push(Action::Sample);
        (vec![Task::Latch], burst)
    }

    /// Carries out one operation of a bus on the engine's record of the
    /// lines and returns the pin actions that do the same on the board.
    fn operate(&mut self, task: Task, event: Event) -> (out: (Vec<Task>, Vec<Action>))
        ensures
            *final(self) == old(self).bus_turn(task, event).core,
            out.0@ == old(self).bus_turn(task, event).plan,
            out.1@ == old(self).bus_turn(task, event).burst,
    {
        reveal(Core::bus_turn);
        match task {
            Task::Mode(w, s) => (Vec::new(), self.control_bus.set_rwrs(w, s)),
            Task::Strobe(high) => if high {
                (Vec::new(), self.control_bus.en_strobe_high())
            } else {
                (Vec::new(), self.control_bus.en_strobe_low())
            },
            Task::Unselect => (Vec::new(), self.control_bus.unselect_all_chips()),
            Task::Select(chip) => (Vec::new(), self.control_bus.select_chip(chip)),
            Task::Listen => {
                let (bus, burst) = self.data_bus.data_dir_in();
                self.data_bus = bus;
                (Vec::new(), burst)
            },
            Task::TurnOut => {
                let (bus, burst) = self.data_bus.data_dir_out();
                self.data_bus = bus;
                (Vec::new(), burst)
            },
            Task::Put(byte) => {
                let (bus, mut burst) = self.data_bus.data_dir_out();
                self.data_bus = bus;
                let mut levels = self.data_bus.write_byte(byte);
                burst.append(&mut levels);
                (Vec::new(), burst)
            },
            Task::Poll => self.poll_now(),
            Task::Check => {
                match event {
                    Event::Level(level) if self.data_bus.all_inputs() => {
                        if self.data_bus.ready_busy_status(level) {
                            self.poll_now()
                        } else {
                            (Vec::new(), Vec::new())
                        }
                    },
                    _ => self.poll_now(),
                }
            },
            Task::Capture => self.capture_now(),
            Task::Latch => {
                match event {
                    Event::Levels(levels) if self.data_bus.all_inputs() => {
                        self.latch = self.data_bus.read_byte(levels);
                        (Vec::new(), Vec::new())
                    },
                    _ => self.capture_now(),
                }
            },
            Task::Pause(us) => (Vec::new(), vec![Action::DelayUs(us)]),
            Task::Rest(ms) => (Vec::new(), vec![Action::DelayMs(ms)]),
            _ => (Vec::new(), Vec::new()),
        }
    }

    fn send_now(chip: ChipSelect, s: u8, byte: u8) -> (plan: Vec<Task>)
        ensures
            plan@ == send_plan(chip, s, byte),
    {
        vec![
            Task::WaitReady(chip),
            Task::Mode(0, s),
            Task::Put(byte),
            Task::Pause(ADDRESS_SETUP_US),
            Task::Strobe(true),
            Task::Pause(PULSE_HIGH_US),
            Task::Strobe(false),
            Task::Pause(PULSE_LOW_US),
        ]
    }

    fn goto_now(&mut self, x: u8, y: u8) -> (plan: Vec<Task>)
        ensures
            *final(self) == old(self).goto(x, y).core,
            plan@ == old(self).goto(x, y).plan,
    {
        if x < DISPLAY_WIDTH && y < DISPLAY_HEIGHT {
            let (chip, column) = ChipSelect::locate(x);
            let page: u8 = y / 8;
            let known: bool = match self.pages.index(chip) {
                Some(p) => p == page,
                None => false,
            };
            self.x = x;
            self.y = y;
            self.pages.index_mut(chip, page);
            let address: u8 = (LCD_SET_COLUMN | column) & 0x7F;
            if known {
                vec![Task::Command(chip, address)]
            } else {
                let row: u8 = (LCD_SET_ROW | page) & 0xBF;
                vec![Task::Command(chip, row), Task::Command(chip, address)]
            }
        } else {
            Vec::new()
        }
    }

    fn write_now(&self, pattern: u8) -> (plan: Vec<Task>)
        ensures
            plan@ == self.write(pattern).plan,
    {
        if self.x < DISPLAY_WIDTH && self.y < DISPLAY_HEIGHT {
            let (chip, _) = ChipSelect::locate(self.x);
            let offset: u8 = self.y % 8;
            if offset == 0 {
                vec![Task::Store(chip, pattern), Task::Advance]
            } else if self.y + 8 < DISPLAY_HEIGHT {
                let lower: u8 = pattern << offset;
                let rest: u8 = 8 - offset;
                let upper: u8 = pattern >> rest;
                let below: u8 = self.y + 8;
                vec![
                    Task::Read,
                    Task::Merge(lower, 0),
                    Task::Goto(self.x, below),
                    Task::Read,
                    Task::Merge(upper, 0),
                    Task::Next(self.x, self.y),
                ]
            } else {
                let lower: u8 = pattern << offset;
                vec![Task::Read, Task::Merge(lower, 0), Task::Advance]
            }
        } else {
            Vec::new()
        }
    }

    fn fill_now(x1: u8, y1: u8, x2: u8, y2: u8, on: bool) -> (plan: Vec<Task>)
        ensures
            forall|core: Core| plan@ == (#[trigger] core.fill(x1, y1, x2, y2, on)).plan,
    {
        if x1 <= x2 && x2 < DISPLAY_WIDTH && y1 <= y2 && y2 < DISPLAY_HEIGHT {
            let first: u8 = y1 % 8;
            let top: u8 = y1 - first;
            let last: u8 = if y2 - top < 7 {
                y2 - top
            } else {
                7
            };
            let shift: u8 = 7 - last + first;
            let mask: u8 = (0xFFu8 >> shift) << first;
            let width: u8 = x2 - x1 + 1;
            if y2 - top > 7 {
                let below: u8 = top + 8;
                let rest = Task::Fill(x1, below, x2, y2, on);
                vec![Task::Goto(x1, top), Task::Band(width, mask, on), rest]
            } else {
                vec![Task::Goto(x1, top), Task::Band(width, mask, on)]
            }
        } else {
            Vec::new()
        }
    }

    fn wait_ready_now(chip: ChipSelect) -> (plan: Vec<Task>)
        ensures
            plan@ == wait_ready_plan(chip),
    {
        vec![
            Task::Listen,
            Task::Unselect,
            Task::Select(chip),
            Task::Mode(1, 0),
            Task::Pause(ADDRESS_SETUP_US),
            Task::Strobe(true),
            Task::Pause(DATA_DELAY_US),
            Task::Poll,
            Task::Strobe(false),
        ]
    }

    fn prime_now(chip: ChipSelect) -> (plan: Vec<Task>)
        ensures
            plan@ == prime_plan(chip),
    {
        vec![
            Task::WaitReady(chip),
            Task::Mode(1, 1),
            Task::Pause(ADDRESS_SETUP_US),
            Task::Strobe(true),
            Task::Pause(PULSE_HIGH_US),
            Task::Strobe(false),
            Task::Pause(PULSE_LOW_US),
        ]
    }

    fn load_now(chip: ChipSelect) -> (plan: Vec<Task>)
        ensures
            plan@ == load_plan(chip),
    {
        vec![
            Task::WaitReady(chip),
            Task::Mode(1, 1),
            Task::Pause(ADDRESS_SETUP_US),
            Task::Strobe(true),
            Task::Pause(DATA_DELAY_US),
            Task::Capture,
            Task::Strobe(false),
            Task::Pause(PULSE_LOW_US),
            Task::TurnOut,
        ]
    }

    fn init_now() -> (plan: Vec<Task>)
        ensures
            plan@ == init_plan(),
    {
        let start: u8 = LCD_START_LINE | 0;
        vec![
            Task::Unselect,
            Task::Strobe(false),
            Task::Mode(0, 0),
            Task::Rest(POWER_UP_MS),
            Task::Command(ChipSelect::CHIP1, LCD_ON),
            Task::Command(ChipSelect::CHIP1, start),
            Task::Command(ChipSelect::CHIP2, LCD_ON),
            Task::Command(ChipSelect::CHIP2, start),
            Task::Command(ChipSelect::CHIP3, LCD_ON),
            Task::Command(ChipSelect::CHIP3, start),
            Task::Fill(0, 0, 191, 63, false),
            Task::Goto(0, 0),
        ]
    }

    fn move_now(&mut self, task: Task) -> (plan: Vec<Task>)
        requires
            task is Read || task is Merge || task is Advance || task is Next || task is Column
                || task is Band,
        ensures
            *final(self) == old(self).turn(task, Event::Nothing).core,
            plan@ == old(self).turn(task, Event::Nothing).plan,
    {
        reveal(Core::turn);
        match task {
            Task::Read => {
                if self.x < DISPLAY_WIDTH && self.y < DISPLAY_HEIGHT {
                    let (chip, _) = ChipSelect::locate(self.x);
                    vec![Task::Prime(chip), Task::Load(chip), Task::Goto(self.x, self.y)]
                } else {
                    self.latch = 0;
                    Vec::new()
                }
            },
            Task::Merge(set, clear) => {
                if self.x < DISPLAY_WIDTH && self.y < DISPLAY_HEIGHT {
                    let (chip, _) = ChipSelect::locate(self.x);
                    let byte: u8 = (self.latch | set) & !clear;
                    vec![Task::Store(chip, byte)]
                } else {
                    Vec::new()
                }
            },
            Task::Advance => {
                if self.x < DISPLAY_WIDTH {
                    self.x = self.x + 1;
                    if self.x < DISPLAY_WIDTH && self.x % 64 == 0 {
                        vec![Task::Goto(self.x, self.y)]
                    } else {
                        Vec::new()
                    }
                } else {
                    Vec::new()
                }
            },
            Task::Next(x, y) => {
                if x < DISPLAY_WIDTH - 1 {
                    let right: u8 = x + 1;
                    vec![Task::Goto(right, y)]
                } else if x == DISPLAY_WIDTH - 1 && y < DISPLAY_HEIGHT {
                    self.x = DISPLAY_WIDTH;
                    self.y = y;
                    Vec::new()
                } else {
                    Vec::new()
                }
            },
            Task::Column(mask, on) => {
                if mask == 0xFF {
                    let colour: u8 = if on {
                        PIXEL_ON
                    } else {
                        PIXEL_OFF
                    };
                    vec![Task::Write(colour)]
                } else if on {
                    vec![Task::Read, Task::Merge(mask, 0), Task::Advance]
                } else {
                    vec![Task::Read, Task::Merge(0, mask), Task::Advance]
                }
            },
            Task::Band(n, mask, on) => {
                if n > 0 {
                    let left: u8 = n - 1;
                    vec![Task::Column(mask, on), Task::Band(left, mask, on)]
                } else {
                    Vec::new()
                }
            },
            _ => Vec::new(),
        }
    }

    /// Takes up one task: changes the engine's state as the task asks and
    /// returns the tasks that take its place and the burst for the board.
    pub fn take(&mut self, task: Task, event: Event) -> (out: (Vec<Task>, Vec<Action>))
        ensures
            *final(self) == old(self).turn(task, event).core,
            out.0@ == old(self).turn(task, event).plan,
            out.1@ == old(self).turn(task, event).burst,
    {
        reveal(Core::turn);
        match task {
            Task::WaitReady(chip) => (Self::wait_ready_now(chip), Vec::new()),
            Task::Command(chip, byte) => (Self::send_now(chip, 0, byte), Vec::new()),
            Task::Store(chip, byte) => (Self::send_now(chip, 1, byte), Vec::new()),
            Task::Prime(chip) => (Self::prime_now(chip), Vec::new()),
            Task::Load(chip) => (Self::load_now(chip), Vec::new()),
            Task::Goto(x, y) => (self.goto_now(x, y), Vec::new()),
            Task::Write(pattern) => (self.write_now(pattern), Vec::new()),
            Task::Fill(x1, y1, x2, y2, on) => (Self::fill_now(x1, y1, x2, y2, on), Vec::new()),
            Task::Init => (Self::init_now(), Vec::new()),
            Task::Read | Task::Merge(_, _) | Task::Advance | Task::Next(_, _) | Task::Column(
                _,
                _,
            ) | Task::Band(_, _, _) => (self.move_now(task), Vec::new()),
            _ => self.operate(task, event),
        }
    }
}

/// The display driver. It owns the two buses and decides what is done on
/// them; the pins themselves are moved by whoever calls `step` and carries
/// out the bursts that it returns.
pub struct Ermc192641 {
    core: Core,
    tasks: Vec<Task>,
}

impl View for Ermc192641 {
    type V = Engine;

    closed spec fn view(&self) -> Engine {
        Engine { core: self.core, tasks: self.tasks@ }
    }
}

impl Ermc192641 {
    /// An engine that owns the two buses, with the cursor at the origin,
    /// nothing known of the controllers and nothing to do.
    pub fn new(dbus: DBArduino, cbus: Arduino) -> (engine: Self)
        ensures
            engine@.core == (Core {
                control_bus: cbus,
                data_bus: dbus,
                x: 0,
                y: 0,
                pages: ChipSelectPage::unknown(),
                latch: 0,
            }),
            engine@.tasks == Seq::<Task>::empty(),
            forall|p: PanelState|
                p.wf() && p.control == cbus && p.data == dbus ==> in_step(
                    engine@,
                    p,
                    Event::Nothing,
                ) && (#[trigger] outcome(engine@, p)).sound() && outcome(engine@, p).panel == p,
    {
        proof {
            assert forall|p: PanelState|
                p.wf() && p.control == cbus && p.data == dbus implies in_step(
                fresh_engine(dbus, cbus),
                p,
                Event::Nothing,
            ) && (#[trigger] outcome(fresh_engine(dbus, cbus), p)).sound() && outcome(
                fresh_engine(dbus, cbus),
                p,
            ).panel == p by {
                lemma_fresh(p);
            }
        }
        Ermc192641 {
            core: Core {
                control_bus: cbus,
                data_bus: dbus,
                x: 0,
                y: 0,
                pages: ChipSelectPage { page1: None, page2: None, page3: None },
                latch: 0,
            },
            tasks: Vec::new(),
        }
    }

    /// Whether nothing is left to do.
    pub fn is_idle(&self) -> (idle: bool)
        ensures
            idle == (self@.tasks.len() == 0),
    {
        self.tasks.len() == 0
    }

    /// The state of the engine but for its list of tasks: the two buses as
    /// it has left them, the cursor, the pages it remembers and the byte
    /// last read.
    pub fn state(&self) -> (state: Core)
        ensures
            state == self@.core,
    {
        self.core
    }

    /// Column and row of the cursor.
    pub fn cursor(&self) -> (at: (u8, u8))
        ensures
            at == (self@.core.x, self@.core.y),
    {
        (self.core.x, self.core.y)
    }

    /// The byte last read from the display.
    pub fn data(&self) -> (byte: u8)
        ensures
            byte == self@.core.latch,
    {
        self.core.latch
    }

    fn schedule(&mut self, task: Task)
        ensures
            final(self)@ == old(self)@.with_task(task),
    {
        self.tasks.push(task);
    }

    /// Asks for `chip` to be selected and waited for until it is not busy,
    /// and for the data bus to be an output again after that.
    pub fn wait_ready(&mut self, chip: ChipSelect)
        ensures
            final(self)@ == old(self)@.with_task(Task::WaitReady(chip)).with_task(Task::TurnOut),
            forall|p: PanelState|
                outcome(old(self)@, p).wired() ==> attended(
                    outcome(old(self)@, p),
                    #[trigger] outcome(final(self)@, p),
                    chip,
                ),
    {
        self.schedule(Task::WaitReady(chip));
        self.schedule(Task::TurnOut);
        proof {
            assert forall|p: PanelState| outcome(old(self)@, p).wired() implies attended(
                outcome(old(self)@, p),
                #[trigger] outcome(self@, p),
                chip,
            ) by {
                lemma_scheduled(old(self)@, Task::WaitReady(chip), p);
                lemma_scheduled(old(self)@.with_task(Task::WaitReady(chip)), Task::TurnOut, p);
                lemma_wait_ready_done(outcome(old(self)@, p), chip);
            }
        }
    }

    /// Asks for the command `cmd` to be sent to `chip`.
    pub fn write_command(&mut self, cmd: u8, chip: ChipSelect)
        ensures
            final(self)@ == old(self)@.with_task(Task::Command(chip, cmd)),
            forall|p: PanelState|
                outcome(old(self)@, p).wired() ==> commanded(
                    outcome(old(self)@, p),
                    #[trigger] outcome(final(self)@, p),
                    chip,
                    cmd,
                ),
    {
        self.schedule(Task::Command(chip, cmd));
        proof {
            assert forall|p: PanelState| outcome(old(self)@, p).wired() implies commanded(
                outcome(old(self)@, p),
                #[trigger] outcome(self@, p),
                chip,
                cmd,
            ) by {
                lemma_scheduled(old(self)@, Task::Command(chip, cmd), p);
                lemma_write_command(outcome(old(self)@, p), chip, cmd);
            }
        }
    }

    /// Asks for the cursor to be moved to column `x` of row `y`.
    pub fn goto_xy(&mut self, x: u8, y: u8)
        requires
            x < DISPLAY_WIDTH,
            y < DISPLAY_HEIGHT,
        ensures
            final(self)@ == old(self)@.with_task(Task::Goto(x, y)),
            forall|p: PanelState|
                outcome(old(self)@, p).sound() ==> went(
                    outcome(old(self)@, p),
                    #[trigger] outcome(final(self)@, p),
                    x,
                    y,
                ),
    {
        self.schedule(Task::Goto(x, y));
        proof {
            assert forall|p: PanelState| outcome(old(self)@, p).sound() implies went(
                outcome(old(self)@, p),
                #[trigger] outcome(self@, p),
                x,
                y,
            ) by {
                lemma_scheduled(old(self)@, Task::Goto(x, y), p);
                lemma_goto_xy(outcome(old(self)@, p), x, y);
            }
        }
    }

    /// Asks for the byte under the cursor to be read; `data` gives it once
    /// the work is done.
    pub fn read_data(&mut self)
        ensures
            final(self)@ == old(self)@.with_task(Task::Read),
            forall|p: PanelState|
                outcome(old(self)@, p).sound() && outcome(old(self)@, p).placed() ==> read_out(
                    outcome(old(self)@, p),
                    #[trigger] outcome(final(self)@, p),
                ),
    {
        self.schedule(Task::Read);
        proof {
            assert forall|p: PanelState|
                outcome(old(self)@, p).sound() && outcome(old(self)@, p).placed() implies read_out(
                outcome(old(self)@, p),
                #[trigger] outcome(self@, p),
            ) by {
                lemma_scheduled(old(self)@, Task::Read, p);
                lemma_read_data(outcome(old(self)@, p));
            }
        }
    }

    /// Asks for a pattern of eight rows to be written at the cursor.
    pub fn write_data(&mut self, pattern: u8)
        ensures
            final(self)@ == old(self)@.with_task(Task::Write(pattern)),
            forall|p: PanelState|
                outcome(old(self)@, p).sound() && outcome(old(self)@, p).placed() ==> written(
                    outcome(old(self)@, p),
                    #[trigger] outcome(final(self)@, p),
                    pattern,
                ),
    {
        self.schedule(Task::Write(pattern));
        proof {
            assert forall|p: PanelState|
                outcome(old(self)@, p).sound() && outcome(old(self)@, p).placed() implies written(
                outcome(old(self)@, p),
                #[trigger] outcome(self@, p),
                pattern,
            ) by {
                lemma_scheduled(old(self)@, Task::Write(pattern), p);
                lemma_write(outcome(old(self)@, p), pattern);
            }
        }
    }

    /// Asks for the pixels of the rectangle from column `x1` to `x2` and row
    /// `y1` to `y2` to be set (`on`) or cleared. The rectangle may span
    /// several pages and controllers; with `x2` left of `x1` or `y2` above
    /// `y1` it holds no pixel.
    pub fn set_pixels(&mut self, x1: u8, y1: u8, x2: u8, y2: u8, on: bool)
        requires
            x1 < DISPLAY_WIDTH,
            x2 < DISPLAY_WIDTH,
            y1 < DISPLAY_HEIGHT,
            y2 < DISPLAY_HEIGHT,
        ensures
            final(self)@ == old(self)@.with_task(Task::Fill(x1, y1, x2, y2, on)),
            forall|p: PanelState|
                outcome(old(self)@, p).sound() ==> filled_in(
                    outcome(old(self)@, p),
                    #[trigger] outcome(final(self)@, p),
                    x1,
                    y1,
                    x2,
                    y2,
                    on,
                ),
    {
        self.schedule(Task::Fill(x1, y1, x2, y2, on));
        proof {
            assert forall|p: PanelState| outcome(old(self)@, p).sound() implies filled_in(
                outcome(old(self)@, p),
                #[trigger] outcome(self@, p),
                x1,
                y1,
                x2,
                y2,
                on,
            ) by {
                lemma_scheduled(old(self)@, Task::Fill(x1, y1, x2, y2, on), p);
                lemma_fill_rect(outcome(old(self)@, p), x1, y1, x2, y2, on);
            }
        }
    }

    /// Asks for the pixel in column `x` of row `y` to be set or cleared.
    pub fn set_pixel(&mut self, x: u8, y: u8, on: bool)
        requires
            x < DISPLAY_WIDTH,
            y < DISPLAY_HEIGHT,
        ensures
            final(self)@ == old(self)@.with_task(Task::Fill(x, y, x, y, on)),
            forall|p: PanelState|
                outcome(old(self)@, p).sound() ==> filled_in(
                    outcome(old(self)@, p),
                    #[trigger] outcome(final(self)@, p),
                    x,
                    y,
                    x,
                    y,
                    on,
                ),
    {
        self.set_pixels(x, y, x, y, on);
    }

    /// Asks for a rectangle to be filled: `set_pixels` under the name that
    /// drawing code knows.
    pub fn fill_rect(&mut self, x1: u8, y1: u8, x2: u8, y2: u8, on: bool)
        requires
            x1 < DISPLAY_WIDTH,
            x2 < DISPLAY_WIDTH,
            y1 < DISPLAY_HEIGHT,
            y2 < DISPLAY_HEIGHT,
        ensures
            final(self)@ == old(self)@.with_task(Task::Fill(x1, y1, x2, y2, on)),
            forall|p: PanelState|
                outcome(old(self)@, p).sound() ==> filled_in(
                    outcome(old(self)@, p),
                    #[trigger] outcome(final(self)@, p),
                    x1,
                    y1,
                    x2,
                    y2,
                    on,
                ),
    {
        self.set_pixels(x1, y1, x2, y2, on);
    }

    /// Asks for the pixel in column `x` of row `y` to be set where `color`
    /// is `PIXEL_ON` and cleared where it is `PIXEL_OFF`.
    pub fn draw_point(&mut self, x: u8, y: u8, color: u8)
        requires
            x < DISPLAY_WIDTH,
            y < DISPLAY_HEIGHT,
            color == PIXEL_ON || color == PIXEL_OFF,
        ensures
            final(self)@ == old(self)@.with_task(Task::Fill(x, y, x, y, color == PIXEL_ON)),
            forall|p: PanelState|
                outcome(old(self)@, p).sound() ==> filled_in(
                    outcome(old(self)@, p),
                    #[trigger] outcome(final(self)@, p),
                    x,
                    y,
                    x,
                    y,
                    color == PIXEL_ON,
                ),
    {
        let on: bool = match color {
            PIXEL_OFF => false,
            _ => true,
        };
        self.set_pixel(x, y, on);
    }

    /// Asks for the display to be brought up.
    pub fn init_lcd(&mut self)
        ensures
            final(self)@ == old(self)@.with_task(Task::Init),
            forall|p: PanelState|
                outcome(old(self)@, p).sound() ==> brought_up(#[trigger] outcome(final(self)@, p)),
    {
        self.schedule(Task::Init);
        proof {
            assert forall|p: PanelState| outcome(old(self)@, p).sound() implies brought_up(
                #[trigger] outcome(self@, p),
            ) by {
                lemma_scheduled(old(self)@, Task::Init, p);
                lemma_init(outcome(old(self)@, p));
            }
        }
    }

    /// Asks for the display to be brought up: `init_lcd` under the name
    /// that drawing code knows.
    pub fn init(&mut self)
        ensures
            final(self)@ == old(self)@.with_task(Task::Init),
            forall|p: PanelState|
                outcome(old(self)@, p).sound() ==> brought_up(#[trigger] outcome(final(self)@, p)),
    {
        self.init_lcd();
    }

    /// Asks for each pixel of a list to be drawn, in the order of the list.
    /// A pixel is given by column, row and colour; one that lies off the
    /// display is passed over.
    pub fn draw_iter(&mut self, pixels: &Vec<(i32, i32, bool)>)
        ensures
            final(self)@.core == old(self)@.core,
            final(self)@.tasks == old(self)@.tasks + pixel_tasks(pixels@),
            forall|p: PanelState|
                outcome(old(self)@, p).sound() ==> painted(
                    outcome(old(self)@, p),
                    #[trigger] outcome(final(self)@, p),
                    pixels@,
                ),
    {
        let mut i: usize = 0;
        assert(self@.tasks =~= old(self)@.tasks + pixel_tasks(pixels@.take(0)));
        while i < pixels.len()
            invariant
                i <= pixels.len(),
                self@.core == old(self)@.core,
                self@.tasks == old(self)@.tasks + pixel_tasks(pixels@.take(i as int)),
            decreases pixels.len() - i,
        {
            let (x, y, on) = pixels[i];
            proof {
                assert(pixels@.take(i + 1).drop_last() =~= pixels@.take(i as int));
                assert(pixels@.take(i + 1).last() == pixels@[i as int]);
            }
            if 0 <= x && x <= 191 && 0 <= y && y <= 63 {
                self.draw_point(x as u8, y as u8, if on { PIXEL_ON } else { PIXEL_OFF });
                assert(self@.tasks =~= old(self)@.tasks + pixel_tasks(pixels@.take(i + 1)));
            }
            i += 1;
        }
        proof {
            assert(pixels@.take(pixels.len() as int) =~= pixels@);
            assert forall|p: PanelState| outcome(old(self)@, p).sound() implies painted(
                outcome(old(self)@, p),
                #[trigger] outcome(self@, p),
                pixels@,
            ) by {
                lemma_appended(old(self)@, pixel_tasks(pixels@), p);
                lemma_draw_iter(outcome(old(self)@, p), pixels@);
                assert(self@ == Engine {
                    tasks: old(self)@.tasks + pixel_tasks(pixels@),
                    ..old(self)@
                });
            }
        }
    }

    /// Takes the report of the board on the last burst, takes up the next
    /// task, and returns the burst of actions that the board is to carry out
    /// in order before the next step. An idle engine changes nothing and
    /// asks for nothing.
    pub fn step(&mut self, event: Event) -> (burst: Vec<Action>)
        ensures
            final(self)@ == old(self)@.next(event).0,
            burst@ == old(self)@.next(event).1,
            forall|p: PanelState|
                in_step(old(self)@, p, event) ==> in_step(
                    final(self)@,
                    p.after_all(burst@),
                    p.answer_all(burst@),
                ) && #[trigger] outcome(final(self)@, p.after_all(burst@)) == outcome(
                    old(self)@,
                    p,
                ),
    {
        proof {
            assert forall|p: PanelState| in_step(old(self)@, p, event) implies in_step(
                old(self)@.next(event).0,
                p.after_all(old(self)@.next(event).1),
                p.answer_all(old(self)@.next(event).1),
            ) && #[trigger] outcome(
                old(self)@.next(event).0,
                p.after_all(old(self)@.next(event).1),
            ) == outcome(old(self)@, p) by {
                lemma_step(old(self)@, p, event);
            }
        }
        if self.tasks.len() == 0 {
            return Vec::new();
        }
        let task = self.tasks.remove(0);
        assert(self@.tasks =~= old(self)@.tasks.skip(1));
        let (mut plan, burst) = self.core.take(task, event);
        plan.append(&mut self.tasks);
        self.tasks = plan;
        burst
    }
}

} // verus!
