//! The data bus: eight lines that change direction together.
use crate::signal::{bit, Action, Levels, Line};
use vstd::prelude::*;

verus! {

/// One data line in one of its two directions. An output carries the level
/// that it drives; an input carries nothing, its level is read from the wire.
#[derive(Copy, Clone, Debug, PartialEq, Eq, Structural)]
pub enum DBPort {
    DBOutput(bool),
    DBInput,
}

impl DBPort {
    /// The line as an output: an output stays as it is, an input starts to
    /// drive high, the level that its pull-up held.
    pub open spec fn turned_out(self) -> DBPort {
        match self {
            DBPort::DBInput => DBPort::DBOutput(true),
            DBPort::DBOutput(level) => DBPort::DBOutput(level),
        }
    }

    /// The line driven to `high` where it is an output, unchanged where it is not.
    pub open spec fn driven_to(self, high: bool) -> DBPort {
        match self {
            DBPort::DBInput => DBPort::DBInput,
            DBPort::DBOutput(_) => DBPort::DBOutput(high),
        }
    }

    /// The level that the board puts on the wire: the driven level of an
    /// output, high through the pull-up of an input.
    pub open spec fn level(self) -> bool {
        match self {
            DBPort::DBInput => true,
            DBPort::DBOutput(level) => level,
        }
    }

    /// The level that the board puts on the wire.
    pub fn wire_level(&self) -> (high: bool)
        ensures
            high == self.level(),
    {
        match self {
            DBPort::DBInput => true,
            DBPort::DBOutput(level) => *level,
        }
    }

    /// Makes the line an input with pull-up, whatever it was.
    pub fn data_dir_in_helper(self) -> (port: Self)
        ensures
            port == DBPort::DBInput,
    {
        if let DBPort::DBOutput(_) = self {
            DBPort::DBInput
        } else {
            self
        }
    }

    /// Makes the line an output, unless it is one already.
    pub fn data_dir_out_helper(self) -> (port: Self)
        ensures
            port == self.turned_out(),
            port is DBOutput,
    {
        if let DBPort::DBInput = self {
            DBPort::DBOutput(true)
        } else {
            self
        }
    }

    /// Drives the line low. Fails on an input, which is left as it is.
    pub fn set_low(&mut self) -> (r: Result<(), ()>)
        ensures
            r is Ok <==> *old(self) is DBOutput,
            *final(self) == old(self).driven_to(false),
    {
        if let DBPort::DBOutput(_) = self {
            *self = DBPort::DBOutput(false);
            Ok(())
        } else {
            Err(())
        }
    }

    /// Drives the line high. Fails on an input, which is left as it is.
    pub fn set_high(&mut self) -> (r: Result<(), ()>)
        ensures
            r is Ok <==> *old(self) is DBOutput,
            *final(self) == old(self).driven_to(true),
    {
        if let DBPort::DBOutput(_) = self {
            *self = DBPort::DBOutput(true);
            Ok(())
        } else {
            Err(())
        }
    }

    /// Drives the line to `high`. Fails on an input, which is left as it is.
    pub fn set_state(&mut self, high: bool) -> (r: Result<(), ()>)
        ensures
            r is Ok <==> *old(self) is DBOutput,
            *final(self) == old(self).driven_to(high),
    {
        if high {
            self.set_high()
        } else {
            self.set_low()
        }
    }

    /// Whether an input line is high, given the level read from its pin.
    /// Fails on an output.
    pub fn is_high(&self, level: bool) -> (r: Result<bool, ()>)
        ensures
            *self is DBInput ==> r == Ok::<bool, ()>(level),
            *self is DBOutput ==> r is Err,
    {
        if let DBPort::DBInput = self {
            Ok(level)
        } else {
            Err(())
        }
    }

    /// Whether an input line is low, given the level read from its pin.
    /// Fails on an output.
    pub fn is_low(&self, level: bool) -> (r: Result<bool, ()>)
        ensures
            *self is DBInput ==> r == Ok::<bool, ()>(!level),
            *self is DBOutput ==> r is Err,
    {
        if let DBPort::DBInput = self {
            Ok(!level)
        } else {
            Err(())
        }
    }
}

/// The data bus: eight lines that change direction together and carry one
/// byte, line `i` holding bit `i`.
#[derive(Copy, Clone, Debug, PartialEq, Eq, Structural)]
pub struct DBArduino {
    pub db0: DBPort,
    pub db1: DBPort,
    pub db2: DBPort,
    pub db3: DBPort,
    pub db4: DBPort,
    pub db5: DBPort,
    pub db6: DBPort,
    pub db7: DBPort,
}

impl DBArduino {
    /// All eight lines are outputs.
    pub open spec fn is_output(self) -> bool {
        &&& self.db0 is DBOutput
        &&& self.db1 is DBOutput
        &&& self.db2 is DBOutput
        &&& self.db3 is DBOutput
        &&& self.db4 is DBOutput
        &&& self.db5 is DBOutput
        &&& self.db6 is DBOutput
        &&& self.db7 is DBOutput
    }

    /// All eight lines are inputs.
    pub open spec fn is_input(self) -> bool {
        &&& self.db0 is DBInput
        &&& self.db1 is DBInput
        &&& self.db2 is DBInput
        &&& self.db3 is DBInput
        &&& self.db4 is DBInput
        &&& self.db5 is DBInput
        &&& self.db6 is DBInput
        &&& self.db7 is DBInput
    }

    /// The bus with every line an output that drives the given level.
    pub open spec fn driving(levels: Levels) -> DBArduino {
        DBArduino {
            db0: DBPort::DBOutput(levels.d0),
            db1: DBPort::DBOutput(levels.d1),
            db2: DBPort::DBOutput(levels.d2),
            db3: DBPort::DBOutput(levels.d3),
            db4: DBPort::DBOutput(levels.d4),
            db5: DBPort::DBOutput(levels.d5),
            db6: DBPort::DBOutput(levels.d6),
            db7: DBPort::DBOutput(levels.d7),
        }
    }

    /// The bus with every line an input.
    pub open spec fn listening() -> DBArduino {
        DBArduino {
            db0: DBPort::DBInput,
            db1: DBPort::DBInput,
            db2: DBPort::DBInput,
            db3: DBPort::DBInput,
            db4: DBPort::DBInput,
            db5: DBPort::DBInput,
            db6: DBPort::DBInput,
            db7: DBPort::DBInput,
        }
    }

    /// The bus after `data_dir_out`: outputs stay, inputs become outputs.
    pub open spec fn turned_out(self) -> DBArduino {
        DBArduino {
            db0: self.db0.turned_out(),
            db1: self.db1.turned_out(),
            db2: self.db2.turned_out(),
            db3: self.db3.turned_out(),
            db4: self.db4.turned_out(),
            db5: self.db5.turned_out(),
            db6: self.db6.turned_out(),
            db7: self.db7.turned_out(),
        }
    }

    /// The levels that the board puts on the eight wires.
    pub open spec fn levels(self) -> Levels {
        Levels {
            d0: self.db0.level(),
            d1: self.db1.level(),
            d2: self.db2.level(),
            d3: self.db3.level(),
            d4: self.db4.level(),
            d5: self.db5.level(),
            d6: self.db6.level(),
            d7: self.db7.level(),
        }
    }

    /// The bus after the board carried out `action`: an action on a data
    /// line changes that line, anything else changes nothing here.
    pub open spec fn after(self, action: Action) -> DBArduino {
        match action {
            Action::Drive(Line::DB0, high) => DBArduino { db0: self.db0.driven_to(high), ..self },
            Action::Drive(Line::DB1, high) => DBArduino { db1: self.db1.driven_to(high), ..self },
            Action::Drive(Line::DB2, high) => DBArduino { db2: self.db2.driven_to(high), ..self },
            Action::Drive(Line::DB3, high) => DBArduino { db3: self.db3.driven_to(high), ..self },
            Action::Drive(Line::DB4, high) => DBArduino { db4: self.db4.driven_to(high), ..self },
            Action::Drive(Line::DB5, high) => DBArduino { db5: self.db5.driven_to(high), ..self },
            Action::Drive(Line::DB6, high) => DBArduino { db6: self.db6.driven_to(high), ..self },
            Action::Drive(Line::DB7, high) => DBArduino { db7: self.db7.driven_to(high), ..self },
            Action::PullUp(Line::DB0) => DBArduino { db0: DBPort::DBInput, ..self },
            Action::PullUp(Line::DB1) => DBArduino { db1: DBPort::DBInput, ..self },
            Action::PullUp(Line::DB2) => DBArduino { db2: DBPort::DBInput, ..self },
            Action::PullUp(Line::DB3) => DBArduino { db3: DBPort::DBInput, ..self },
            Action::PullUp(Line::DB4) => DBArduino { db4: DBPort::DBInput, ..self },
            Action::PullUp(Line::DB5) => DBArduino { db5: DBPort::DBInput, ..self },
            Action::PullUp(Line::DB6) => DBArduino { db6: DBPort::DBInput, ..self },
            Action::PullUp(Line::DB7) => DBArduino { db7: DBPort::DBInput, ..self },
            Action::Output(Line::DB0) => DBArduino { db0: self.db0.turned_out(), ..self },
            Action::Output(Line::DB1) => DBArduino { db1: self.db1.turned_out(), ..self },
            Action::Output(Line::DB2) => DBArduino { db2: self.db2.turned_out(), ..self },
            Action::Output(Line::DB3) => DBArduino { db3: self.db3.turned_out(), ..self },
            Action::Output(Line::DB4) => DBArduino { db4: self.db4.turned_out(), ..self },
            Action::Output(Line::DB5) => DBArduino { db5: self.db5.turned_out(), ..self },
            Action::Output(Line::DB6) => DBArduino { db6: self.db6.turned_out(), ..self },
            Action::Output(Line::DB7) => DBArduino { db7: self.db7.turned_out(), ..self },
            _ => self,
        }
    }

    /// Carries out one pin action on the record of the data lines.
    pub fn perform(&mut self, action: Action)
        ensures
            *final(self) == old(self).after(action),
    {
        match action {
            Action::Drive(line, high) => {
                match line {
                    Line::DB0 => {
                        let _ = self.db0.set_state(high);
                    },
                    Line::DB1 => {
                        let _ = self.db1.set_state(high);
                    },
                    Line::DB2 => {
                        let _ = self.db2.set_state(high);
                    },
                    Line::DB3 => {
                        let _ = self.db3.set_state(high);
                    },
                    Line::DB4 => {
                        let _ = self.db4.set_state(high);
                    },
                    Line::DB5 => {
                        let _ = self.db5.set_state(high);
                    },
                    Line::DB6 => {
                        let _ = self.db6.set_state(high);
                    },
                    Line::DB7 => {
                        let _ = self.db7.set_state(high);
                    },
                    _ => {},
                }
            },
            Action::PullUp(line) => {
                match line {
                    Line::DB0 => {
                        self.db0 = self.db0.data_dir_in_helper();
                    },
                    Line::DB1 => {
                        self.db1 = self.db1.data_dir_in_helper();
                    },
                    Line::DB2 => {
                        self.db2 = self.db2.data_dir_in_helper();
                    },
                    Line::DB3 => {
                        self.db3 = self.db3.data_dir_in_helper();
                    },
                    Line::DB4 => {
                        self.db4 = self.db4.data_dir_in_helper();
                    },
                    Line::DB5 => {
                        self.db5 = self.db5.data_dir_in_helper();
                    },
                    Line::DB6 => {
                        self.db6 = self.db6.data_dir_in_helper();
                    },
                    Line::DB7 => {
                        self.db7 = self.db7.data_dir_in_helper();
                    },
                    _ => {},
                }
            },
            Action::Output(line) => {
                match line {
                    Line::DB0 => {
                        self.db0 = self.db0.data_dir_out_helper();
                    },
                    Line::DB1 => {
                        self.db1 = self.db1.data_dir_out_helper();
                    },
                    Line::DB2 => {
                        self.db2 = self.db2.data_dir_out_helper();
                    },
                    Line::DB3 => {
                        self.db3 = self.db3.data_dir_out_helper();
                    },
                    Line::DB4 => {
                        self.db4 = self.db4.data_dir_out_helper();
                    },
                    Line::DB5 => {
                        self.db5 = self.db5.data_dir_out_helper();
                    },
                    Line::DB6 => {
                        self.db6 = self.db6.data_dir_out_helper();
                    },
                    Line::DB7 => {
                        self.db7 = self.db7.data_dir_out_helper();
                    },
                    _ => {},
                }
            },
            _ => {},
        }
    }

    /// The levels that the board puts on the eight wires.
    pub fn wire_levels(&self) -> (levels: Levels)
        ensures
            levels == self.levels(),
    {
        Levels {
            d0: self.db0.wire_level(),
            d1: self.db1.wire_level(),
            d2: self.db2.wire_level(),
            d3: self.db3.wire_level(),
            d4: self.db4.wire_level(),
            d5: self.db5.wire_level(),
            d6: self.db6.wire_level(),
            d7: self.db7.wire_level(),
        }
    }

    /// What `data_dir_in` asks of the board.
    pub open spec fn listen_burst() -> Seq<Action> {
        seq![
            Action::PullUp(Line::DB0),
            Action::PullUp(Line::DB1),
            Action::PullUp(Line::DB2),
            Action::PullUp(Line::DB3),
            Action::PullUp(Line::DB4),
            Action::PullUp(Line::DB5),
            Action::PullUp(Line::DB6),
            Action::PullUp(Line::DB7),
        ]
    }

    /// What `data_dir_out` asks of the board.
    pub open spec fn turn_out_burst() -> Seq<Action> {
        seq![
            Action::Output(Line::DB0),
            Action::Output(Line::DB1),
            Action::Output(Line::DB2),
            Action::Output(Line::DB3),
            Action::Output(Line::DB4),
            Action::Output(Line::DB5),
            Action::Output(Line::DB6),
            Action::Output(Line::DB7),
        ]
    }

    /// What `write_byte(data)` asks of the board.
    pub open spec fn write_burst(data: u8) -> Seq<Action> {
        seq![
            Action::Drive(Line::DB0, bit(data, 0)),
            Action::Drive(Line::DB1, bit(data, 1)),
            Action::Drive(Line::DB2, bit(data, 2)),
            Action::Drive(Line::DB3, bit(data, 3)),
            Action::Drive(Line::DB4, bit(data, 4)),
            Action::Drive(Line::DB5, bit(data, 5)),
            Action::Drive(Line::DB6, bit(data, 6)),
            Action::Drive(Line::DB7, bit(data, 7)),
        ]
    }

    /// A data bus of eight outputs that drive the given levels.
    pub fn new(levels: Levels) -> (bus: DBArduino)
        ensures
            bus == DBArduino::driving(levels),
            bus.is_output(),
    {
        DBArduino {
            db0: DBPort::DBOutput(levels.d0),
            db1: DBPort::DBOutput(levels.d1),
            db2: DBPort::DBOutput(levels.d2),
            db3: DBPort::DBOutput(levels.d3),
            db4: DBPort::DBOutput(levels.d4),
            db5: DBPort::DBOutput(levels.d5),
            db6: DBPort::DBOutput(levels.d6),
            db7: DBPort::DBOutput(levels.d7),
        }
    }

    /// Switches all eight lines to input with pull-up. The old handle is
    /// used up; the new one allows reading only.
    pub fn data_dir_in(self) -> (turned: (DBArduino, Vec<Action>))
        ensures
            turned.0 == DBArduino::listening(),
            turned.0.is_input(),
            turned.1@ == DBArduino::listen_burst(),
    {
        let bus = DBArduino {
            db0: self.db0.data_dir_in_helper(),
            db1: self.db1.data_dir_in_helper(),
            db2: self.db2.data_dir_in_helper(),
            db3: self.db3.data_dir_in_helper(),
            db4: self.db4.data_dir_in_helper(),
            db5: self.db5.data_dir_in_helper(),
            db6: self.db6.data_dir_in_helper(),
            db7: self.db7.data_dir_in_helper(),
        };
        let burst = vec![
            Action::PullUp(Line::DB0),
            Action::PullUp(Line::DB1),
            Action::PullUp(Line::DB2),
            Action::PullUp(Line::DB3),
            Action::PullUp(Line::DB4),
            Action::PullUp(Line::DB5),
            Action::PullUp(Line::DB6),
            Action::PullUp(Line::DB7),
        ];
        (bus, burst)
    }

    /// Switches all eight lines to output. The old handle is used up; the
    /// new one allows writing only.
    pub fn data_dir_out(self) -> (turned: (DBArduino, Vec<Action>))
        ensures
            turned.0 == self.turned_out(),
            turned.0.is_output(),
            self.is_output() ==> turned.0 == self,
            turned.1@ == DBArduino::turn_out_burst(),
    {
        let bus = DBArduino {
            db0: self.db0.data_dir_out_helper(),
            db1: self.db1.data_dir_out_helper(),
            db2: self.db2.data_dir_out_helper(),
            db3: self.db3.data_dir_out_helper(),
            db4: self.db4.data_dir_out_helper(),
            db5: self.db5.data_dir_out_helper(),
            db6: self.db6.data_dir_out_helper(),
            db7: self.db7.data_dir_out_helper(),
        };
        let burst = vec![
            Action::Output(Line::DB0),
            Action::Output(Line::DB1),
            Action::Output(Line::DB2),
            Action::Output(Line::DB3),
            Action::Output(Line::DB4),
            Action::Output(Line::DB5),
            Action::Output(Line::DB6),
            Action::Output(Line::DB7),
        ];
        (bus, burst)
    }

    /// Puts `data` on the bus: line `i` is driven high where bit `i` of
    /// `data` is set and low where it is not.
    pub fn write_byte(&mut self, data: u8) -> (burst: Vec<Action>)
        requires
            old(self).is_output(),
        ensures
            *final(self) == DBArduino::driving(Levels::of(data)),
            final(self).levels().byte() == data,
            burst@ == DBArduino::write_burst(data),
    {
        let b0: bool = (data & 1) != 0;
        let b1: bool = (data & 2) != 0;
        let b2: bool = (data & 4) != 0;
        let b3: bool = (data & 8) != 0;
        let b4: bool = (data & 16) != 0;
        let b5: bool = (data & 32) != 0;
        let b6: bool = (data & 64) != 0;
        let b7: bool = (data & 128) != 0;
        proof {
            assert((((data >> 0u8) & 1 == 1) == ((data & 1) != 0)) && (((data >> 1u8) & 1 == 1) == (
            (data & 2) != 0)) && (((data >> 2u8) & 1 == 1) == ((data & 4) != 0)) && (((data >> 3u8)
                & 1 == 1) == ((data & 8) != 0)) && (((data >> 4u8) & 1 == 1) == ((data & 16) != 0))
                && (((data >> 5u8) & 1 == 1) == ((data & 32) != 0)) && (((data >> 6u8) & 1 == 1)
                == ((data & 64) != 0)) && (((data >> 7u8) & 1 == 1) == ((data & 128) != 0)))
                by (bit_vector);
            crate::signal::lemma_byte_of_levels(data);
        }
        let r0 = self.db0.set_state(b0);
        let r1 = self.db1.set_state(b1);
        let r2 = self.db2.set_state(b2);
        let r3 = self.db3.set_state(b3);
        let r4 = self.db4.set_state(b4);
        let r5 = self.db5.set_state(b5);
        let r6 = self.db6.set_state(b6);
        let r7 = self.db7.set_state(b7);
        vec![
            Action::Drive(Line::DB0, b0),
            Action::Drive(Line::DB1, b1),
            Action::Drive(Line::DB2, b2),
            Action::Drive(Line::DB3, b3),
            Action::Drive(Line::DB4, b4),
            Action::Drive(Line::DB5, b5),
            Action::Drive(Line::DB6, b6),
            Action::Drive(Line::DB7, b7),
        ]
    }

    /// Whether all eight lines are inputs.
    pub fn all_inputs(&self) -> (yes: bool)
        ensures
            yes == self.is_input(),
    {
        let dirs = [
            self.db0.is_high(true).is_ok(),
            self.db1.is_high(true).is_ok(),
            self.db2.is_high(true).is_ok(),
            self.db3.is_high(true).is_ok(),
        ];
        let more = [
            self.db4.is_high(true).is_ok(),
            self.db5.is_high(true).is_ok(),
            self.db6.is_high(true).is_ok(),
            self.db7.is_high(true).is_ok(),
        ];
        dirs[0] && dirs[1] && dirs[2] && dirs[3] && more[0] && more[1] && more[2] && more[3]
    }

    /// The byte that the levels read from the eight pins spell, line `i`
    /// giving bit `i`.
    pub fn read_byte(&self, levels: Levels) -> (data: u8)
        requires
            self.is_input(),
        ensures
            data == levels.byte(),
            Levels::of(data) == levels,
    {
        let mut data: u8 = 0;
        proof {
            assert(0u8 | 0u8 == 0u8 && 1u8 << 0u8 == 1u8 && 1u8 << 1u8 == 2u8 && 1u8 << 2u8 == 4u8
                && 1u8 << 3u8 == 8u8 && 1u8 << 4u8 == 16u8 && 1u8 << 5u8 == 32u8 && 1u8 << 6u8
                == 64u8 && 1u8 << 7u8 == 128u8) by (bit_vector);
            assert(forall|v: u8| #[trigger] (v | 0u8) == v) by (bit_vector);
            assert(forall|v: u8| #[trigger] (0u8 | v) == v) by (bit_vector);
            crate::signal::lemma_levels_of_byte(levels);
        }
        if self.db0.is_high(levels.d0).unwrap() {
            data |= 1 << 0;
        };
        if self.db1.is_high(levels.d1).unwrap() {
            data |= 1 << 1;
        };
        if self.db2.is_high(levels.d2).unwrap() {
            data |= 1 << 2;
        };
        if self.db3.is_high(levels.d3).unwrap() {
            data |= 1 << 3;
        };
        if self.db4.is_high(levels.d4).unwrap() {
            data |= 1 << 4;
        };
        if self.db5.is_high(levels.d5).unwrap() {
            data |= 1 << 5;
        };
        if self.db6.is_high(levels.d6).unwrap() {
            data |= 1 << 6;
        };
        if self.db7.is_high(levels.d7).unwrap() {
            data |= 1 << 7;
        };
        data
    }

    /// The busy flag of the selected controller, given the level read from
    /// data line 7: high while the controller is busy.
    pub fn ready_busy_status(&self, level: bool) -> (busy: bool)
        requires
            self.db7 is DBInput,
        ensures
            busy == level,
    {
        self.db7.is_high(level).unwrap()
    }
}

} // verus!
