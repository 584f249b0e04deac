//! What each burst of pin actions does to the lines of the display module.
use crate::arduino::{Arduino, ChipSelect};
use crate::dbarduino::DBArduino;
use crate::panel::PanelState;
use crate::signal::{Action, Levels, Line};
use vstd::prelude::*;

verus! {

/// Whether an action leaves the controllers alone: it neither lowers the
/// strobe nor reads the data lines.
pub open spec fn calm(action: Action) -> bool {
    match action {
        Action::Drive(Line::EN, false) => false,
        Action::Sample => false,
        Action::SampleReady => false,
        _ => true,
    }
}

/// Carrying out a burst and then one more action is carrying out the
/// longer burst.
pub proof fn lemma_after_push(p: PanelState, burst: Seq<Action>, action: Action)
    ensures
        p.after_all(burst.push(action)) == p.after_all(burst).after(action),
{
    reveal_with_fuel(PanelState::after_all, 1);
    assert(burst.push(action).drop_last() =~= burst);
}

/// Carrying out two bursts one after the other is carrying out both as one.
pub proof fn lemma_after_concat(p: PanelState, first: Seq<Action>, second: Seq<Action>)
    ensures
        p.after_all(first + second) == p.after_all(first).after_all(second),
    decreases second.len(),
{
    reveal_with_fuel(PanelState::after_all, 1);
    if second.len() == 0 {
        assert(first + second =~= first);
    } else {
        lemma_after_concat(p, first, second.drop_last());
        assert((first + second).drop_last() =~= first + second.drop_last());
        assert((first + second).last() == second.last());
    }
}

/// The empty burst changes nothing.
pub proof fn lemma_after_none(p: PanelState)
    ensures
        p.after_all(Seq::empty()) == p,
{
    reveal_with_fuel(PanelState::after_all, 1);
}

/// A burst of one action.
pub proof fn lemma_after_one(p: PanelState, a: Action)
    ensures
        p.after_all(seq![a]) == p.after(a),
{
    lemma_after_none(p);
    lemma_after_push(p, Seq::empty(), a);
    assert(Seq::<Action>::empty().push(a) =~= seq![a]);
}

/// `set_rwrs` on the board: the two mode lines change, nothing else does.
pub proof fn lemma_mode_burst(p: PanelState, w: u8, s: u8)
    ensures
        p.after_all(Arduino::mode_burst(w, s)) == (PanelState {
            control: p.control.moded(w, s),
            ..p
        }),
{
    let a = Action::Drive(Line::RW, w == 1);
    let b = Action::Drive(Line::RS, s == 1);
    let one = Seq::<Action>::empty().push(a);
    lemma_after_none(p);
    lemma_after_push(p, Seq::empty(), a);
    lemma_after_push(p, one, b);
    assert(one.push(b) =~= Arduino::mode_burst(w, s));
}

/// Raising the strobe on the board changes that line alone; lowering it
/// lets the selected controllers take what is on the bus.
pub proof fn lemma_strobe_burst(p: PanelState, high: bool)
    ensures
        high ==> p.after_all(Arduino::strobe_burst(high)) == (PanelState {
            control: p.control.strobed(true),
            ..p
        }),
        !high ==> p.after_all(Arduino::strobe_burst(high)) == p.edge(),
        p.after_all(Arduino::strobe_burst(high)).control == p.control.strobed(high),
        p.after_all(Arduino::strobe_burst(high)).data == p.data,
{
    lemma_after_one(p, Action::Drive(Line::EN, high));
}

/// Driving all three select lines on the board.
pub proof fn lemma_all_chips_burst(p: PanelState, high: bool)
    ensures
        p.after_all(Arduino::all_chips_burst(high)) == (PanelState {
            control: p.control.all_chips(high),
            ..p
        }),
{
    let a = Action::Drive(Line::CS1, high);
    let b = Action::Drive(Line::CS2, high);
    let c = Action::Drive(Line::CS3, high);
    let one = Seq::<Action>::empty().push(a);
    let two = one.push(b);
    lemma_after_none(p);
    lemma_after_push(p, Seq::empty(), a);
    lemma_after_push(p, one, b);
    lemma_after_push(p, two, c);
    assert(two.push(c) =~= Arduino::all_chips_burst(high));
}

/// `select_chip` on the board.
pub proof fn lemma_choose_burst(p: PanelState, chip: ChipSelect)
    ensures
        p.after_all(Arduino::choose_burst(chip)) == (PanelState {
            control: p.control.chosen(chip),
            ..p
        }),
{
    lemma_after_one(p, Action::Drive(chip.wire(), false));
}

/// Eight actions, none of which lowers the strobe or reads the bus, change
/// the lines one after the other and leave the controllers alone.
proof fn lemma_after_eight(p: PanelState, s: Seq<Action>)
    requires
        s.len() == 8,
        forall|i: int| 0 <= i < 8 ==> calm(#[trigger] s[i]),
    ensures
        p.after_all(s) == (PanelState {
            control: p.control.after(s[0]).after(s[1]).after(s[2]).after(s[3]).after(s[4]).after(
                s[5],
            ).after(s[6]).after(s[7]),
            data: p.data.after(s[0]).after(s[1]).after(s[2]).after(s[3]).after(s[4]).after(
                s[5],
            ).after(s[6]).after(s[7]),
            ..p
        }),
{
    let s0 = Seq::<Action>::empty();
    let s1 = s0.push(s[0]);
    let s2 = s1.push(s[1]);
    let s3 = s2.push(s[2]);
    let s4 = s3.push(s[3]);
    let s5 = s4.push(s[4]);
    let s6 = s5.push(s[5]);
    let s7 = s6.push(s[6]);
    let s8 = s7.push(s[7]);
    assert(s8 =~= s);
    lemma_after_none(p);
    lemma_after_push(p, s0, s[0]);
    lemma_after_push(p, s1, s[1]);
    lemma_after_push(p, s2, s[2]);
    lemma_after_push(p, s3, s[3]);
    lemma_after_push(p, s4, s[4]);
    lemma_after_push(p, s5, s[5]);
    lemma_after_push(p, s6, s[6]);
    lemma_after_push(p, s7, s[7]);
    assert(calm(s[0]) && calm(s[1]) && calm(s[2]) && calm(s[3]) && calm(s[4]) && calm(s[5])
        && calm(s[6]) && calm(s[7]));
}

/// `data_dir_in` on the board: all eight data lines become inputs.
pub proof fn lemma_listen_burst(p: PanelState)
    ensures
        p.after_all(DBArduino::listen_burst()) == (PanelState {
            data: DBArduino::listening(),
            ..p
        }),
{
    lemma_after_eight(p, DBArduino::listen_burst());
}

/// `data_dir_out` on the board: inputs become outputs, outputs stay.
pub proof fn lemma_turn_out_burst(p: PanelState)
    ensures
        p.after_all(DBArduino::turn_out_burst()) == (PanelState {
            data: p.data.turned_out(),
            ..p
        }),
{
    lemma_after_eight(p, DBArduino::turn_out_burst());
    let d0 = p.data;
    let d1 = d0.after(Action::Output(Line::DB0));
    assert(d1 == DBArduino { db0: d0.db0.turned_out(), ..d0 });
    let d2 = d1.after(Action::Output(Line::DB1));
    assert(d2 == DBArduino { db1: d0.db1.turned_out(), ..d1 });
    let d3 = d2.after(Action::Output(Line::DB2));
    assert(d3 == DBArduino { db2: d0.db2.turned_out(), ..d2 });
    let d4 = d3.after(Action::Output(Line::DB3));
    assert(d4 == DBArduino { db3: d0.db3.turned_out(), ..d3 });
    let d5 = d4.after(Action::Output(Line::DB4));
    assert(d5 == DBArduino { db4: d0.db4.turned_out(), ..d4 });
    let d6 = d5.after(Action::Output(Line::DB5));
    assert(d6 == DBArduino { db5: d0.db5.turned_out(), ..d5 });
    let d7 = d6.after(Action::Output(Line::DB6));
    assert(d7 == DBArduino { db6: d0.db6.turned_out(), ..d6 });
    let d8 = d7.after(Action::Output(Line::DB7));
    assert(d8 == DBArduino { db7: d0.db7.turned_out(), ..d7 });
    assert(d8 == d0.turned_out());
}

/// `write_byte` on a board whose data lines are outputs: the lines spell
/// the byte.
pub proof fn lemma_write_burst(p: PanelState, byte: u8)
    requires
        p.data.is_output(),
    ensures
        p.after_all(DBArduino::write_burst(byte)) == (PanelState {
            data: DBArduino::driving(Levels::of(byte)),
            ..p
        }),
{
    lemma_after_eight(p, DBArduino::write_burst(byte));
}

/// Turning the bus out and writing a byte, as one burst.
pub proof fn lemma_put_burst(p: PanelState, byte: u8)
    ensures
        p.after_all(DBArduino::turn_out_burst() + DBArduino::write_burst(byte)) == (PanelState {
            data: DBArduino::driving(Levels::of(byte)),
            ..p
        }),
{
    lemma_after_concat(p, DBArduino::turn_out_burst(), DBArduino::write_burst(byte));
    lemma_turn_out_burst(p);
    lemma_write_burst(p.after_all(DBArduino::turn_out_burst()), byte);
}

/// Turning the bus in and reading it, as one burst: the lines listen and
/// the controller that is asked for its status has had the time of one
/// reading.
pub proof fn lemma_sample_burst(p: PanelState, sample: Action)
    requires
        sample == Action::Sample || sample == Action::SampleReady,
    ensures
        p.after_all(DBArduino::listen_burst().push(sample)) == (PanelState {
            data: DBArduino::listening(),
            ..p
        }).asked(),
{
    lemma_after_push(p, DBArduino::listen_burst(), sample);
    lemma_listen_burst(p);
}

/// A pause changes nothing on the board.
pub proof fn lemma_delay_burst(p: PanelState, a: Action)
    requires
        a is DelayUs || a is DelayMs,
    ensures
        p.after_all(seq![a]) == p,
{
    lemma_after_one(p, a);
}

} // verus!
