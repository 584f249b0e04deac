//! The three controllers and the control bus.
use crate::constants::{CHIP_WIDTH, DISPLAY_WIDTH};
use crate::signal::{Action, Line};
use vstd::prelude::*;

verus! {

/// One of the three controllers, each driving a slice of 64 columns.
#[derive(Copy, Clone, Debug, PartialEq, Eq, Structural)]
pub enum ChipSelect {
    CHIP1,
    CHIP2,
    CHIP3,
}

impl ChipSelect {
    /// The three controllers from left to right.
    pub fn iter() -> (chips: [ChipSelect; 3])
        ensures
            chips@ == seq![ChipSelect::CHIP1, ChipSelect::CHIP2, ChipSelect::CHIP3],
    {
        [ChipSelect::CHIP1, ChipSelect::CHIP2, ChipSelect::CHIP3]
    }

    /// Position of the controller counted from the left, starting at 0.
    pub open spec fn ordinal(self) -> u8 {
        match self {
            ChipSelect::CHIP1 => 0,
            ChipSelect::CHIP2 => 1,
            ChipSelect::CHIP3 => 2,
        }
    }

    /// The controller that drives display column `x`.
    pub open spec fn at(x: u8) -> ChipSelect
        recommends
            x < DISPLAY_WIDTH,
    {
        if x < 64 {
            ChipSelect::CHIP1
        } else if x < 128 {
            ChipSelect::CHIP2
        } else {
            ChipSelect::CHIP3
        }
    }

    /// The select line of the controller.
    pub open spec fn wire(self) -> Line {
        match self {
            ChipSelect::CHIP1 => Line::CS1,
            ChipSelect::CHIP2 => Line::CS2,
            ChipSelect::CHIP3 => Line::CS3,
        }
    }

    /// Position of the controller counted from the left, starting at 0.
    pub fn index(self) -> (i: u8)
        ensures
            i == self.ordinal(),
    {
        match self {
            ChipSelect::CHIP1 => 0,
            ChipSelect::CHIP2 => 1,
            ChipSelect::CHIP3 => 2,
        }
    }

    /// The controller that drives display column `x`, and the column inside its slice.
    pub fn locate(x: u8) -> (place: (ChipSelect, u8))
        requires
            x < DISPLAY_WIDTH,
        ensures
            place.0 == ChipSelect::at(x),
            place.0.ordinal() == x / CHIP_WIDTH,
            place.1 == x % CHIP_WIDTH,
            CHIP_WIDTH * place.0.ordinal() <= x < CHIP_WIDTH * (place.0.ordinal() + 1),
            CHIP_WIDTH * place.0.ordinal() + place.1 == x,
    {
        let slice: u8 = x / CHIP_WIDTH;
        let column: u8 = x - CHIP_WIDTH * slice;
        if slice == 0 {
            (ChipSelect::CHIP1, column)
        } else if slice == 1 {
            (ChipSelect::CHIP2, column)
        } else {
            (ChipSelect::CHIP3, column)
        }
    }
}

impl TryFrom<u8> for ChipSelect {
    type Error = ();

    fn try_from(i: u8) -> (r: Result<Self, Self::Error>) {
        match i {
            0 => Ok(ChipSelect::CHIP1),
            1 => Ok(ChipSelect::CHIP2),
            2 => Ok(ChipSelect::CHIP3),
            _ => Err(()),
        }
    }
}

impl vstd::std_specs::convert::TryFromSpecImpl<u8> for ChipSelect {
    open spec fn obeys_try_from_spec() -> bool {
        true
    }

    open spec fn try_from_spec(i: u8) -> Result<Self, Self::Error> {
        if i == 0 {
            Ok(ChipSelect::CHIP1)
        } else if i == 1 {
            Ok(ChipSelect::CHIP2)
        } else if i == 2 {
            Ok(ChipSelect::CHIP3)
        } else {
            Err(())
        }
    }
}

/// Every column of the display lies in the slice of exactly the controller
/// that `ChipSelect::at` names: the slices are 64 columns wide and follow one
/// another without gap or overlap.
pub proof fn lemma_slices_partition(x: u8)
    requires
        x < DISPLAY_WIDTH,
    ensures
        ChipSelect::at(x).ordinal() == x / CHIP_WIDTH,
        CHIP_WIDTH * ChipSelect::at(x).ordinal() <= x < CHIP_WIDTH * (ChipSelect::at(x).ordinal()
            + 1),
        forall|c: ChipSelect|
            CHIP_WIDTH * (#[trigger] c.ordinal()) <= x < CHIP_WIDTH * (c.ordinal() + 1) ==> c
                == ChipSelect::at(x),
{
}

/// The control bus: the levels that the six control lines are driven to,
/// `true` for high. The select lines are active low.
#[derive(Copy, Clone, Debug, PartialEq, Eq, Structural)]
pub struct Arduino {
    /// Read/write select: high to read from a controller, low to write to it.
    pub rw: bool,
    /// Register select: high for display data, low for a command or the status.
    pub rs: bool,
    /// Enable strobe.
    pub en: bool,
    /// Select line of the first controller, low to select it.
    pub cs1: bool,
    /// Select line of the second controller.
    pub cs2: bool,
    /// Select line of the third controller.
    pub cs3: bool,
}

impl Arduino {
    /// The bus at rest: writing a command, strobe low, no controller selected.
    pub open spec fn rest() -> Arduino {
        Arduino { rw: false, rs: false, en: false, cs1: true, cs2: true, cs3: true }
    }

    /// Level of the select line of `chip`.
    pub open spec fn cs(self, chip: ChipSelect) -> bool {
        match chip {
            ChipSelect::CHIP1 => self.cs1,
            ChipSelect::CHIP2 => self.cs2,
            ChipSelect::CHIP3 => self.cs3,
        }
    }

    /// Whether `chip` listens to the bus: its select line is low.
    pub open spec fn selects(self, chip: ChipSelect) -> bool {
        !self.cs(chip)
    }

    /// Whether `chip` and no other controller listens to the bus.
    pub open spec fn selects_only(self, chip: ChipSelect) -> bool {
        match chip {
            ChipSelect::CHIP1 => !self.cs1 && self.cs2 && self.cs3,
            ChipSelect::CHIP2 => self.cs1 && !self.cs2 && self.cs3,
            ChipSelect::CHIP3 => self.cs1 && self.cs2 && !self.cs3,
        }
    }

    /// The levels after the board carried out `action`: driving a control
    /// line changes that line, anything else changes nothing here.
    pub open spec fn after(self, action: Action) -> Arduino {
        match action {
            Action::Drive(Line::RW, high) => Arduino { rw: high, ..self },
            Action::Drive(Line::RS, high) => Arduino { rs: high, ..self },
            Action::Drive(Line::EN, high) => Arduino { en: high, ..self },
            Action::Drive(Line::CS1, high) => Arduino { cs1: high, ..self },
            Action::Drive(Line::CS2, high) => Arduino { cs2: high, ..self },
            Action::Drive(Line::CS3, high) => Arduino { cs3: high, ..self },
            _ => self,
        }
    }

    /// Carries out one pin action on the record of the control lines.
    pub fn perform(&mut self, action: Action)
        ensures
            *final(self) == old(self).after(action),
    {
        match action {
            Action::Drive(Line::RW, high) => {
                self.rw = high;
            },
            Action::Drive(Line::RS, high) => {
                self.rs = high;
            },
            Action::Drive(Line::EN, high) => {
                self.en = high;
            },
            Action::Drive(Line::CS1, high) => {
                self.cs1 = high;
            },
            Action::Drive(Line::CS2, high) => {
                self.cs2 = high;
            },
            Action::Drive(Line::CS3, high) => {
                self.cs3 = high;
            },
            _ => {},
        }
    }

    /// Whether `chip` and no other controller listens to the bus.
    pub fn only_selected(&self, chip: ChipSelect) -> (only: bool)
        ensures
            only == self.selects_only(chip),
    {
        match chip {
            ChipSelect::CHIP1 => !self.cs1 && self.cs2 && self.cs3,
            ChipSelect::CHIP2 => self.cs1 && !self.cs2 && self.cs3,
            ChipSelect::CHIP3 => self.cs1 && self.cs2 && !self.cs3,
        }
    }

    /// The levels after `set_rwrs(w, s)`.
    pub open spec fn moded(self, w: u8, s: u8) -> Arduino {
        Arduino { rw: w == 1, rs: s == 1, ..self }
    }

    /// What `set_rwrs(w, s)` asks of the board.
    pub open spec fn mode_burst(w: u8, s: u8) -> Seq<Action> {
        seq![Action::Drive(Line::RW, w == 1), Action::Drive(Line::RS, s == 1)]
    }

    /// The levels with the strobe line at `high`.
    pub open spec fn strobed(self, high: bool) -> Arduino {
        Arduino { en: high, ..self }
    }

    /// What a change of the strobe line asks of the board.
    pub open spec fn strobe_burst(high: bool) -> Seq<Action> {
        seq![Action::Drive(Line::EN, high)]
    }

    /// The levels with all three select lines at `high`.
    pub open spec fn all_chips(self, high: bool) -> Arduino {
        Arduino { cs1: high, cs2: high, cs3: high, ..self }
    }

    /// What driving all three select lines to `high` asks of the board.
    pub open spec fn all_chips_burst(high: bool) -> Seq<Action> {
        seq![
            Action::Drive(Line::CS1, high),
            Action::Drive(Line::CS2, high),
            Action::Drive(Line::CS3, high),
        ]
    }

    /// The levels after `select_chip(chip)`: the line of `chip` is low, the
    /// other two are as before.
    pub open spec fn chosen(self, chip: ChipSelect) -> Arduino {
        match chip {
            ChipSelect::CHIP1 => Arduino { cs1: false, ..self },
            ChipSelect::CHIP2 => Arduino { cs2: false, ..self },
            ChipSelect::CHIP3 => Arduino { cs3: false, ..self },
        }
    }

    /// What `select_chip(chip)` asks of the board.
    pub open spec fn choose_burst(chip: ChipSelect) -> Seq<Action> {
        seq![Action::Drive(chip.wire(), false)]
    }

    /// What `new` asks of the board.
    pub open spec fn rest_burst() -> Seq<Action> {
        seq![
            Action::Drive(Line::RW, false),
            Action::Drive(Line::RS, false),
            Action::Drive(Line::EN, false),
            Action::Drive(Line::CS1, true),
            Action::Drive(Line::CS2, true),
            Action::Drive(Line::CS3, true),
        ]
    }

    /// A control bus at rest, and the pin writes that bring the lines there.
    pub fn new() -> (made: (Arduino, Vec<Action>))
        ensures
            made.0 == Arduino::rest(),
            made.1@ == Arduino::rest_burst(),
    {
        let bus = Arduino { rw: false, rs: false, en: false, cs1: true, cs2: true, cs3: true };
        let burst = vec![
            Action::Drive(Line::RW, false),
            Action::Drive(Line::RS, false),
            Action::Drive(Line::EN, false),
            Action::Drive(Line::CS1, true),
            Action::Drive(Line::CS2, true),
            Action::Drive(Line::CS3, true),
        ];
        (bus, burst)
    }

    /// Sets the read/write line high where `w` is 1 and low otherwise, then
    /// the register select line high where `s` is 1 and low otherwise.
    pub fn set_rwrs(&mut self, w: u8, s: u8) -> (burst: Vec<Action>)
        ensures
            *final(self) == old(self).moded(w, s),
            burst@ == Arduino::mode_burst(w, s),
    {
        let read: bool = w == 1;
        let data: bool = s == 1;
        self.rw = read;
        self.rs = data;
        vec![Action::Drive(Line::RW, read), Action::Drive(Line::RS, data)]
    }

    /// Raises the strobe line.
    pub fn en_strobe_high(&mut self) -> (burst: Vec<Action>)
        ensures
            *final(self) == old(self).strobed(true),
            burst@ == Arduino::strobe_burst(true),
    {
        self.en = true;
        vec![Action::Drive(Line::EN, true)]
    }

    /// Lowers the strobe line.
    pub fn en_strobe_low(&mut self) -> (burst: Vec<Action>)
        ensures
            *final(self) == old(self).strobed(false),
            burst@ == Arduino::strobe_burst(false),
    {
        self.en = false;
        vec![Action::Drive(Line::EN, false)]
    }

    /// Raises all three select lines: no controller listens.
    pub fn unselect_all_chips(&mut self) -> (burst: Vec<Action>)
        ensures
            *final(self) == old(self).all_chips(true),
            burst@ == Arduino::all_chips_burst(true),
            forall|c: ChipSelect| !final(self).selects(c),
    {
        self.cs1 = true;
        self.cs2 = true;
        self.cs3 = true;
        vec![
            Action::Drive(Line::CS1, true),
            Action::Drive(Line::CS2, true),
            Action::Drive(Line::CS3, true),
        ]
    }

    /// Lowers all three select lines: every controller listens.
    pub fn select_all_chips(&mut self) -> (burst: Vec<Action>)
        ensures
            *final(self) == old(self).all_chips(false),
            burst@ == Arduino::all_chips_burst(false),
            forall|c: ChipSelect| final(self).selects(c),
    {
        self.cs1 = false;
        self.cs2 = false;
        self.cs3 = false;
        vec![
            Action::Drive(Line::CS1, false),
            Action::Drive(Line::CS2, false),
            Action::Drive(Line::CS3, false),
        ]
    }

    /// Lowers the select line of `chip` and leaves the other two alone.
    pub fn select_chip(&mut self, chip: ChipSelect) -> (burst: Vec<Action>)
        ensures
            *final(self) == old(self).chosen(chip),
            burst@ == Arduino::choose_burst(chip),
            final(self).selects(chip),
            forall|c: ChipSelect| c != chip ==> final(self).selects(c) == old(self).selects(c),
    {
        match chip {
            ChipSelect::CHIP1 => {
                self.cs1 = false;
                vec![Action::Drive(Line::CS1, false)]
            },
            ChipSelect::CHIP2 => {
                self.cs2 = false;
                vec![Action::Drive(Line::CS2, false)]
            },
            ChipSelect::CHIP3 => {
                self.cs3 = false;
                vec![Action::Drive(Line::CS3, false)]
            },
        }
    }
}

} // verus!
