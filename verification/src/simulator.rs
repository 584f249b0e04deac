//! A display module in executable form, and a loop that drives it.
use crate::arduino::{Arduino, ChipSelect};
use crate::constants::{LCD_OFF, LCD_ON};
use crate::dbarduino::DBArduino;
use crate::ermc192641::Ermc192641;
use crate::panel::{cell_index, next_column, ChipState, PanelState};
use crate::signal::{Action, Event, Levels, Line};
use crate::stepping::{in_step, lemma_steps, Session};
use crate::wiring::{lemma_after_none, lemma_after_push};
use crate::world::{outcome, World};
use vstd::prelude::*;

verus! {

/// One simulated controller.
pub struct Chip {
    on: bool,
    start_line: u8,
    page: u8,
    column: u8,
    latch: u8,
    busy: u8,
    lag: u8,
    cells: Vec<u8>,
    log: Vec<u8>,
}

impl View for Chip {
    type V = ChipState;

    closed spec fn view(&self) -> ChipState {
        ChipState {
            on: self.on,
            start_line: self.start_line,
            page: self.page,
            column: self.column,
            latch: self.latch,
            busy: self.busy,
            lag: self.lag,
            cells: self.cells@,
            log: self.log@,
        }
    }
}

impl Chip {
    /// A controller after power-up: switched off, at page 0 and column 0,
    /// busy for `lag` readings of its status, and slow by `lag` readings
    /// after every transfer. Every byte of its memory is `fill`.
    pub fn new(lag: u8, fill: u8) -> (chip: Chip)
        ensures
            chip@.wf(),
            chip@ == ChipState::fresh(lag, fill),
    {
        let mut cells: Vec<u8> = Vec::new();
        let mut i: usize = 0;
        while i < 512
            invariant
                i <= 512,
                cells@.len() == i,
                forall|j: int| 0 <= j < i ==> cells@[j] == fill,
            decreases 512 - i,
        {
            cells.push(fill);
            i += 1;
        }
        assert(cells@ =~= Seq::new(512, |i: int| fill));
        Chip {
            on: false,
            start_line: 0,
            page: 0,
            column: 0,
            latch: 0,
            busy: lag,
            lag,
            cells,
            log: Vec::new(),
        }
    }

    fn index(&self) -> (i: usize)
        requires
            self@.wf(),
        ensures
            i == cell_index(self@.page, self@.column),
            i < 512,
    {
        let page: usize = self.page as usize;
        let column: usize = self.column as usize;
        page * 64 + column
    }

    fn step_column(&mut self)
        requires
            old(self)@.wf(),
        ensures
            final(self)@ == (ChipState { column: next_column(old(self)@.column), ..old(self)@ }),
            final(self)@.wf(),
    {
        if self.column == 63 {
            self.column = 0;
        } else {
            self.column = self.column + 1;
        }
    }

    fn command(&mut self, byte: u8)
        requires
            old(self)@.wf(),
        ensures
            final(self)@ == old(self)@.command(byte),
            final(self)@.wf(),
    {
        self.busy = self.lag;
        self.log.push(byte);
        if byte == LCD_ON {
            self.on = true;
        } else if byte == LCD_OFF {
            self.on = false;
        } else if 0x40 <= byte && byte < 0x80 {
            self.column = byte - 0x40;
        } else if 0xB8 <= byte && byte < 0xC0 {
            self.page = byte - 0xB8;
        } else if 0xC0 <= byte {
            self.start_line = byte - 0xC0;
        }
    }

    fn store(&mut self, byte: u8)
        requires
            old(self)@.wf(),
        ensures
            final(self)@ == old(self)@.store(byte),
            final(self)@.wf(),
    {
        let i = self.index();
        self.cells.set(i, byte);
        self.step_column();
        self.busy = self.lag;
    }

    fn fetch(&mut self)
        requires
            old(self)@.wf(),
        ensures
            final(self)@ == old(self)@.fetch(),
            final(self)@.wf(),
    {
        let i = self.index();
        self.latch = self.cells[i];
        self.step_column();
        self.busy = self.lag;
    }

    fn strobed(&mut self, rw: bool, rs: bool, byte: u8)
        requires
            old(self)@.wf(),
        ensures
            final(self)@ == old(self)@.strobed(rw, rs, byte),
            final(self)@.wf(),
    {
        if self.busy > 0 {
        } else if !rw && !rs {
            self.command(byte);
        } else if !rw && rs {
            self.store(byte);
        } else if rw && rs {
            self.fetch();
        }
    }

    fn asked(&mut self)
        requires
            old(self)@.wf(),
        ensures
            final(self)@ == old(self)@.asked(),
            final(self)@.wf(),
    {
        if self.busy > 0 {
            self.busy = self.busy - 1;
        }
    }

    fn status(&self) -> (byte: u8)
        ensures
            byte == self@.status(),
    {
        if self.busy > 0 {
            if self.on {
                0x80
            } else {
                0xA0
            }
        } else {
            if self.on {
                0x00
            } else {
                0x20
            }
        }
    }
}

/// A simulated display module: the lines as the board has left them, and
/// three simulated controllers that react to them.
pub struct Panel {
    control: Arduino,
    data: DBArduino,
    chip1: Chip,
    chip2: Chip,
    chip3: Chip,
}

impl View for Panel {
    type V = PanelState;

    closed spec fn view(&self) -> PanelState {
        PanelState {
            control: self.control,
            data: self.data,
            chip1: self.chip1@,
            chip2: self.chip2@,
            chip3: self.chip3@,
        }
    }
}

impl Panel {
    /// A display module after power-up, wired to the two buses in the
    /// given state. Each controller is as `Chip::new` makes it.
    pub fn new(control: Arduino, data: DBArduino, lag: u8, fill: u8) -> (panel: Panel)
        ensures
            panel@.wf(),
            panel@.control == control,
            panel@.data == data,
            panel@.chip1 == ChipState::fresh(lag, fill),
            panel@.chip2 == panel@.chip1,
            panel@.chip3 == panel@.chip1,
    {
        Panel {
            control,
            data,
            chip1: Chip::new(lag, fill),
            chip2: Chip::new(lag, fill),
            chip3: Chip::new(lag, fill),
        }
    }

    /// The control lines as the board has left them.
    pub fn control_bus(&self) -> (bus: Arduino)
        ensures
            bus == self@.control,
    {
        self.control
    }

    /// The data lines as the board has left them.
    pub fn data_bus(&self) -> (bus: DBArduino)
        ensures
            bus == self@.data,
    {
        self.data
    }

    fn speaker(&self) -> (chip: Option<ChipSelect>)
        ensures
            chip == self@.speaker(),
    {
        if self.control.en && self.control.rw {
            if self.control.only_selected(ChipSelect::CHIP1) {
                Some(ChipSelect::CHIP1)
            } else if self.control.only_selected(ChipSelect::CHIP2) {
                Some(ChipSelect::CHIP2)
            } else if self.control.only_selected(ChipSelect::CHIP3) {
                Some(ChipSelect::CHIP3)
            } else {
                None
            }
        } else {
            None
        }
    }

    fn chip(&self, c: ChipSelect) -> (chip: &Chip)
        ensures
            chip@ == self@.chip(c),
    {
        match c {
            ChipSelect::CHIP1 => &self.chip1,
            ChipSelect::CHIP2 => &self.chip2,
            ChipSelect::CHIP3 => &self.chip3,
        }
    }

    /// The levels that a reading of the data lines finds.
    pub fn shown(&self) -> (levels: Levels)
        ensures
            levels == self@.shown(),
    {
        match self.speaker() {
            Some(c) => if self.control.rs {
                Levels::from_byte(self.chip(c).latch)
            } else {
                Levels::from_byte(self.chip(c).status())
            },
            None => Levels {
                d0: true,
                d1: true,
                d2: true,
                d3: true,
                d4: true,
                d5: true,
                d6: true,
                d7: true,
            },
        }
    }

    fn asked(&mut self)
        requires
            old(self)@.wf(),
        ensures
            final(self)@ == old(self)@.asked(),
            final(self)@.wf(),
    {
        if !self.control.rs {
            match self.speaker() {
                Some(ChipSelect::CHIP1) => self.chip1.asked(),
                Some(ChipSelect::CHIP2) => self.chip2.asked(),
                Some(ChipSelect::CHIP3) => self.chip3.asked(),
                None => {},
            }
        }
    }

    fn edge(&mut self)
        requires
            old(self)@.wf(),
        ensures
            final(self)@ == old(self)@.edge(),
            final(self)@.wf(),
    {
        if self.control.en {
            let byte = self.data.wire_levels().to_byte();
            let rw = self.control.rw;
            let rs = self.control.rs;
            if !self.control.cs1 {
                self.chip1.strobed(rw, rs, byte);
            }
            if !self.control.cs2 {
                self.chip2.strobed(rw, rs, byte);
            }
            if !self.control.cs3 {
                self.chip3.strobed(rw, rs, byte);
            }
            self.control.en = false;
        }
    }

    /// Carries out one action of the board and returns what the board
    /// reports of it.
    pub fn perform(&mut self, action: Action) -> (event: Event)
        requires
            old(self)@.wf(),
        ensures
            final(self)@ == old(self)@.after(action),
            event == final(self)@.answer(action),
            final(self)@.wf(),
    {
        match action {
            Action::Drive(Line::EN, false) => {
                self.edge();
                Event::Nothing
            },
            Action::Sample => {
                self.asked();
                Event::Levels(self.shown())
            },
            Action::SampleReady => {
                self.asked();
                Event::Level(self.shown().d7)
            },
            _ => {
                self.control.perform(action);
                self.data.perform(action);
                Event::Nothing
            },
        }
    }

    /// Carries out a burst of actions in order and returns what the board
    /// reports of the last of them.
    pub fn perform_all(&mut self, burst: &Vec<Action>) -> (event: Event)
        requires
            old(self)@.wf(),
        ensures
            final(self)@ == old(self)@.after_all(burst@),
            event == old(self)@.answer_all(burst@),
            final(self)@.wf(),
    {
        let mut event = Event::Nothing;
        let mut i: usize = 0;
        proof {
            lemma_after_none(self@);
            assert(burst@.take(0) =~= Seq::<Action>::empty());
        }
        while i < burst.len()
            invariant
                i <= burst.len(),
                self@.wf(),
                self@ == old(self)@.after_all(burst@.take(i as int)),
                event == old(self)@.answer_all(burst@.take(i as int)),
            decreases burst.len() - i,
        {
            proof {
                lemma_after_push(old(self)@, burst@.take(i as int), burst@[i as int]);
                assert(burst@.take(i + 1) =~= burst@.take(i as int).push(burst@[i as int]));
            }
            event = self.perform(burst[i]);
            i += 1;
        }
        proof {
            assert(burst@.take(burst.len() as int) =~= burst@);
        }
        event
    }

    /// The byte of display memory that holds rows `8 * page` to
    /// `8 * page + 7` of column `x`.
    pub fn byte_at(&self, x: u8, page: u8) -> (byte: u8)
        requires
            self@.wf(),
            x < 192,
            page < 8,
        ensures
            byte == self@.byte_at(x, page),
    {
        let (c, column) = ChipSelect::locate(x);
        let i: usize = page as usize * 64 + column as usize;
        self.chip(c).cells[i]
    }

    /// Whether the pixel in column `x` and row `y` is set.
    pub fn pixel(&self, x: u8, y: u8) -> (set: bool)
        requires
            self@.wf(),
            x < 192,
            y < 64,
        ensures
            set == self@.pixel(x, y),
    {
        let byte = self.byte_at(x, y / 8);
        (byte >> (y % 8)) & 1 == 1
    }

    /// The command bytes that `chip` has taken so far, oldest first.
    pub fn commands(&self, chip: ChipSelect) -> (log: Vec<u8>)
        ensures
            log@ == self@.chip(chip).log,
    {
        self.chip(chip).log.clone()
    }

    /// Whether `chip` is switched on, and its start line.
    pub fn switches(&self, chip: ChipSelect) -> (state: (bool, u8))
        ensures
            state == (self@.chip(chip).on, self@.chip(chip).start_line),
    {
        (self.chip(chip).on, self.chip(chip).start_line)
    }

    /// Puts a byte into the memory of the controller that drives column
    /// `x`, without any traffic on the bus: for setting a scene up.
    pub fn place(&mut self, x: u8, page: u8, byte: u8)
        requires
            old(self)@.wf(),
            x < 192,
            page < 8,
        ensures
            final(self)@.wf(),
            final(self)@ == old(self)@.with_chip(
                ChipSelect::at(x),
                ChipState {
                    cells: old(self)@.chip(ChipSelect::at(x)).cells.update(
                        cell_index(page, (x % 64) as u8),
                        byte,
                    ),
                    ..old(self)@.chip(ChipSelect::at(x))
                },
            ),
    {
        let (c, column) = ChipSelect::locate(x);
        let i: usize = page as usize * 64 + column as usize;
        match c {
            ChipSelect::CHIP1 => self.chip1.cells.set(i, byte),
            ChipSelect::CHIP2 => self.chip2.cells.set(i, byte),
            ChipSelect::CHIP3 => self.chip3.cells.set(i, byte),
        }
    }
}

/// Lets the engine and a simulated display module take turns: the engine
/// makes a step, the module carries out the burst and reports back. Stops
/// when the engine has nothing left to do or after `budget` steps, and
/// returns the number of steps made. Where engine and module were in step
/// at the start and the budget was not used up, every task has been
/// carried out in full.
pub fn run(engine: &mut Ermc192641, panel: &mut Panel, budget: usize) -> (made: usize)
    requires
        old(panel)@.wf(),
    ensures
        made <= budget,
        final(panel)@.wf(),
        final(engine)@ == (Session {
            engine: old(engine)@,
            panel: old(panel)@,
            event: Event::Nothing,
        }).steps(made as nat).engine,
        final(panel)@ == (Session {
            engine: old(engine)@,
            panel: old(panel)@,
            event: Event::Nothing,
        }).steps(made as nat).panel,
        made < budget ==> final(engine)@.tasks.len() == 0,
        forall|j: nat|
            j < made ==> (#[trigger] (Session {
                engine: old(engine)@,
                panel: old(panel)@,
                event: Event::Nothing,
            }).steps(j)).engine.tasks.len() > 0,
        in_step(old(engine)@, old(panel)@, Event::Nothing) ==> outcome(
            final(engine)@,
            final(panel)@,
        ) == outcome(old(engine)@, old(panel)@),
        in_step(old(engine)@, old(panel)@, Event::Nothing) && made < budget ==> (World {
            core: final(engine)@.core,
            panel: final(panel)@,
        }) == outcome(old(engine)@, old(panel)@),
{
    let ghost start = Session { engine: engine@, panel: panel@, event: Event::Nothing };
    let mut event = Event::Nothing;
    let mut made: usize = 0;
    while made < budget && !engine.is_idle()
        invariant
            made <= budget,
            panel@.wf(),
            start.steps(made as nat) == (Session { engine: engine@, panel: panel@, event }),
            forall|j: nat| j < made ==> (#[trigger] start.steps(j)).engine.tasks.len() > 0,
        decreases budget - made,
    {
        let burst = engine.step(event);
        event = panel.perform_all(&burst);
        made += 1;
    }
    proof {
        if start.in_step() {
            lemma_steps(start, made as nat);
        }
    }
    made
}

} // verus!
