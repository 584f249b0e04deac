//! The handshake: waiting for a controller, sending it a byte, reading one.
use crate::arduino::{Arduino, ChipSelect};
use crate::constants::{ADDRESS_SETUP_US, DATA_DELAY_US, PULSE_HIGH_US, PULSE_LOW_US};
use crate::dbarduino::DBArduino;
use crate::ermc192641::{Core, Task};
use crate::panel::{ChipState, PanelState};
use crate::plans::{lemma_chains, lemma_turn_bus, lemma_turns};
use crate::readings::lemma_settled;
use crate::signal::{lemma_byte_of_levels, Action, Event, Levels};
use crate::wiring::{
    lemma_all_chips_burst, lemma_choose_burst, lemma_delay_burst, lemma_listen_burst,
    lemma_mode_burst, lemma_put_burst, lemma_sample_burst, lemma_strobe_burst,
    lemma_turn_out_burst,
};
use crate::world::{effect, lemma_effect, rank, World};
use vstd::prelude::*;

verus! {

/// The world after one operation of a bus, written out: what the
/// operation does to the lines, to the controllers and to the byte that
/// the engine holds.
#[verifier::opaque]
pub open spec fn operation(task: Task, w: World) -> World {
    match task {
        Task::Mode(m, s) => w.control(w.core.control_bus.moded(m, s)),
        Task::Strobe(high) => if high {
            w.control(w.core.control_bus.strobed(true))
        } else {
            World {
                core: Core { control_bus: w.core.control_bus.strobed(false), ..w.core },
                panel: w.panel.edge(),
            }
        },
        Task::Unselect => w.control(w.core.control_bus.all_chips(true)),
        Task::Select(chip) => w.control(w.core.control_bus.chosen(chip)),
        Task::Listen => w.data(DBArduino::listening()),
        Task::TurnOut => w.data(w.core.data_bus.turned_out()),
        Task::Put(byte) => w.data(DBArduino::driving(Levels::of(byte))),
        Task::Poll => {
            let heard = w.data(DBArduino::listening());
            heard.panel(heard.panel.settled())
        },
        Task::Check => w.panel(w.panel.settled()),
        Task::Capture => {
            let heard = w.data(DBArduino::listening());
            let asked = heard.panel(heard.panel.asked());
            asked.latch(asked.panel.shown().byte())
        },
        Task::Latch => w.latch(w.panel.shown().byte()),
        _ => w,
    }
}

proof fn lemma_operation_control(task: Task, w: World)
    requires
        task is Mode || task is Strobe || task is Unselect || task is Select,
        w.wired(),
    ensures
        effect(task, w) == operation(task, w),
        operation(task, w).wired(),
{
    lemma_turn_bus(w.core, task, Event::Nothing);
    reveal(Core::bus_turn);
    reveal(operation);
    lemma_effect(task, w);
    let p = w.panel;
    match task {
        Task::Mode(m, s) => {
            lemma_mode_burst(p, m, s);
        },
        Task::Strobe(high) => {
            lemma_strobe_burst(p, high);
        },
        Task::Unselect => {
            lemma_all_chips_burst(p, true);
        },
        Task::Select(chip) => {
            lemma_choose_burst(p, chip);
        },
        _ => {},
    }
}

proof fn lemma_operation_data(task: Task, w: World)
    requires
        task is Listen || task is TurnOut || task is Put || task is Pause || task is Rest,
        w.wired(),
    ensures
        effect(task, w) == operation(task, w),
        operation(task, w).wired(),
{
    lemma_turn_bus(w.core, task, Event::Nothing);
    reveal(Core::bus_turn);
    reveal(operation);
    lemma_effect(task, w);
    let p = w.panel;
    match task {
        Task::Listen => {
            lemma_listen_burst(p);
        },
        Task::TurnOut => {
            lemma_turn_out_burst(p);
        },
        Task::Put(byte) => {
            lemma_put_burst(p, byte);
        },
        Task::Pause(us) => {
            lemma_delay_burst(p, Action::DelayUs(us));
        },
        Task::Rest(ms) => {
            lemma_delay_burst(p, Action::DelayMs(ms));
        },
        _ => {},
    }
}

proof fn lemma_operation_reading(task: Task, w: World)
    requires
        task is Poll || task is Capture || task is Check || task is Latch,
        w.wired(),
    ensures
        effect(task, w) == operation(task, w),
        operation(task, w).wired(),
{
    reveal(operation);
    lemma_effect(task, w);
    let p = w.panel;
    let heard = PanelState { data: DBArduino::listening(), ..p };
    lemma_settled(p);
    lemma_settled(heard);
    lemma_settled(heard.asked());
    lemma_sample_burst(p, Action::SampleReady);
    lemma_sample_burst(p, Action::Sample);
}

/// Every operation of a bus does to a world whose engine knows the lines
/// what `operation` says, and the engine knows the lines afterwards.
pub proof fn lemma_operation(task: Task, w: World)
    requires
        rank(task) == 0,
        w.wired(),
    ensures
        effect(task, w) == operation(task, w),
        operation(task, w).wired(),
{
    match task {
        Task::Mode(_, _) | Task::Strobe(_) | Task::Unselect | Task::Select(_) => {
            lemma_operation_control(task, w)
        },
        Task::Listen | Task::TurnOut | Task::Put(_) | Task::Pause(_) | Task::Rest(_) => {
            lemma_operation_data(task, w)
        },
        Task::Poll | Task::Capture | Task::Check | Task::Latch => lemma_operation_reading(
            task,
            w,
        ),
        _ => {},
    }
}

/// Setting the two mode lines.
pub proof fn lemma_mode(w: World, m: u8, s: u8)
    ensures
        operation(Task::Mode(m, s), w) == w.control(w.core.control_bus.moded(m, s)),
{
    reveal(operation);
}

/// Raising the strobe.
pub proof fn lemma_raise(w: World)
    ensures
        operation(Task::Strobe(true), w) == w.control(w.core.control_bus.strobed(true)),
{
    reveal(operation);
}

/// Lowering the strobe: the selected controllers take what the lines say.
pub proof fn lemma_lower(w: World)
    ensures
        operation(Task::Strobe(false), w) == (World {
            core: Core { control_bus: w.core.control_bus.strobed(false), ..w.core },
            panel: w.panel.edge(),
        }),
{
    reveal(operation);
}

/// Releasing all select lines.
pub proof fn lemma_unselect(w: World)
    ensures
        operation(Task::Unselect, w) == w.control(w.core.control_bus.all_chips(true)),
{
    reveal(operation);
}

/// Asserting the select line of one controller.
pub proof fn lemma_select(w: World, chip: ChipSelect)
    ensures
        operation(Task::Select(chip), w) == w.control(w.core.control_bus.chosen(chip)),
{
    reveal(operation);
}

/// Switching the data bus to input.
pub proof fn lemma_listen(w: World)
    ensures
        operation(Task::Listen, w) == w.data(DBArduino::listening()),
{
    reveal(operation);
}

/// Switching the data bus to output.
pub proof fn lemma_turn_out(w: World)
    ensures
        operation(Task::TurnOut, w) == w.data(w.core.data_bus.turned_out()),
{
    reveal(operation);
}

/// Putting a byte on the data bus.
pub proof fn lemma_put(w: World, byte: u8)
    ensures
        operation(Task::Put(byte), w) == w.data(DBArduino::driving(Levels::of(byte))),
{
    reveal(operation);
}

/// A pause of some microseconds changes nothing.
pub proof fn lemma_pause(w: World, us: u32)
    ensures
        operation(Task::Pause(us), w) == w,
{
    reveal(operation);
}

/// A pause of some milliseconds changes nothing.
pub proof fn lemma_rest(w: World, ms: u16)
    ensures
        operation(Task::Rest(ms), w) == w,
{
    reveal(operation);
}

/// Polling: the bus listens, and the controller whose status is read is
/// ready in the end.
pub proof fn lemma_poll(w: World)
    ensures
        operation(Task::Poll, w) == w.data(DBArduino::listening()).panel(
            w.data(DBArduino::listening()).panel.settled(),
        ),
{
    reveal(operation);
}

/// Capturing: the bus listens, and the engine holds what the data lines
/// show.
pub proof fn lemma_capture(w: World)
    ensures
        operation(Task::Capture, w) == w.data(DBArduino::listening()).panel(
            w.data(DBArduino::listening()).panel.asked(),
        ).latch(w.data(DBArduino::listening()).panel.asked().shown().byte()),
{
    reveal(operation);
}

/// The control lines that address `chip` alone, reading (`rw`) or writing,
/// data (`rs`) or command, with the strobe low.
pub open spec fn addressing(chip: ChipSelect, rw: bool, rs: bool) -> Arduino {
    Arduino {
        rw,
        rs,
        en: false,
        cs1: chip != ChipSelect::CHIP1,
        cs2: chip != ChipSelect::CHIP2,
        cs3: chip != ChipSelect::CHIP3,
    }
}

/// The world with `chip` addressed over the given lines and in the given
/// state, the other two controllers as they were.
pub open spec fn exchanged(
    w: World,
    chip: ChipSelect,
    control: Arduino,
    data: DBArduino,
    state: ChipState,
) -> World {
    World {
        core: Core { control_bus: control, data_bus: data, ..w.core },
        panel: PanelState { control, data, ..w.panel }.with_chip(chip, state),
    }
}

/// The world after `chip` was selected and waited for: it is ready, and
/// the bus listens.
pub open spec fn waited(w: World, chip: ChipSelect) -> World {
    exchanged(
        w,
        chip,
        addressing(chip, true, false),
        DBArduino::listening(),
        w.panel.chip(chip).ready(),
    )
}

/// The world after `byte` was sent to `chip`, as a command where `s` is 0
/// and as display data where it is 1: the controller has taken it, and the
/// bus drives it still.
pub open spec fn sent(w: World, chip: ChipSelect, s: u8, byte: u8) -> World {
    let ready = w.panel.chip(chip).ready();
    exchanged(
        w,
        chip,
        addressing(chip, false, s == 1),
        DBArduino::driving(Levels::of(byte)),
        if s == 1 {
            ready.store(byte)
        } else {
            ready.command(byte)
        },
    )
}

/// The world after the priming read of `chip`: the controller has moved
/// the byte under its address to its output register.
pub open spec fn primed(w: World, chip: ChipSelect) -> World {
    exchanged(
        w,
        chip,
        addressing(chip, true, true),
        DBArduino::listening(),
        w.panel.chip(chip).ready().fetch(),
    )
}

/// The world after a read of `chip`: the engine holds what the output
/// register held, the controller has moved on, and the bus is an output
/// again.
pub open spec fn loaded(w: World, chip: ChipSelect) -> World {
    exchanged(
        w,
        chip,
        addressing(chip, true, true),
        DBArduino::driving(Levels::released()),
        w.panel.chip(chip).ready().fetch(),
    ).latch(w.panel.chip(chip).latch)
}

/// The operations of `WaitReady(chip)` applied one after the other.
pub open spec fn wait_ready_steps(w: World, chip: ChipSelect) -> World {
    let w1 = operation(Task::Listen, w);
    let w2 = operation(Task::Unselect, w1);
    let w3 = operation(Task::Select(chip), w2);
    let w4 = operation(Task::Mode(1, 0), w3);
    let w5 = operation(Task::Pause(ADDRESS_SETUP_US), w4);
    let w6 = operation(Task::Strobe(true), w5);
    let w7 = operation(Task::Pause(DATA_DELAY_US), w6);
    let w8 = operation(Task::Poll, w7);
    operation(Task::Strobe(false), w8)
}

proof fn lemma_wait_ready_steps(w: World, chip: ChipSelect)
    requires
        w.wired(),
    ensures
        effect(Task::WaitReady(chip), w) == wait_ready_steps(w, chip),
{
    lemma_chains();
    lemma_turns(w.core, Event::Nothing);
    lemma_effect(Task::WaitReady(chip), w);
    let w1 = operation(Task::Listen, w);
    lemma_operation(Task::Listen, w);
    let w2 = operation(Task::Unselect, w1);
    lemma_operation(Task::Unselect, w1);
    let w3 = operation(Task::Select(chip), w2);
    lemma_operation(Task::Select(chip), w2);
    let w4 = operation(Task::Mode(1, 0), w3);
    lemma_operation(Task::Mode(1, 0), w3);
    let w5 = operation(Task::Pause(ADDRESS_SETUP_US), w4);
    lemma_operation(Task::Pause(ADDRESS_SETUP_US), w4);
    let w6 = operation(Task::Strobe(true), w5);
    lemma_operation(Task::Strobe(true), w5);
    let w7 = operation(Task::Pause(DATA_DELAY_US), w6);
    lemma_operation(Task::Pause(DATA_DELAY_US), w6);
    let w8 = operation(Task::Poll, w7);
    lemma_operation(Task::Poll, w7);
    lemma_operation(Task::Strobe(false), w8);
}

proof fn lemma_wait_ready_lines(w: World, chip: ChipSelect)
    requires
        w.wired(),
    ensures
        wait_ready_steps(w, chip) == waited(w, chip),
        waited(w, chip).wired(),
{
    let w1 = operation(Task::Listen, w);
    lemma_listen(w);
    let w2 = operation(Task::Unselect, w1);
    lemma_unselect(w1);
    let w3 = operation(Task::Select(chip), w2);
    lemma_select(w2, chip);
    let w4 = operation(Task::Mode(1, 0), w3);
    lemma_mode(w3, 1, 0);
    let w5 = operation(Task::Pause(ADDRESS_SETUP_US), w4);
    lemma_pause(w4, ADDRESS_SETUP_US);
    let w6 = operation(Task::Strobe(true), w5);
    lemma_raise(w5);
    let w7 = operation(Task::Pause(DATA_DELAY_US), w6);
    lemma_pause(w6, DATA_DELAY_US);
    let w8 = operation(Task::Poll, w7);
    lemma_poll(w7);
    let w9 = operation(Task::Strobe(false), w8);
    lemma_lower(w8);
    let selected = Arduino { en: true, ..addressing(chip, true, false) };
    assert(w7 == w.data(DBArduino::listening()).control(selected));
    assert(w7.panel.speaker() == Some(chip));
    assert(w8 == w7.panel(w7.panel.with_chip(chip, w.panel.chip(chip).ready())));
    assert(w8.panel.edge_chip(ChipSelect::CHIP1) == w8.panel.chip1);
    assert(w8.panel.edge_chip(ChipSelect::CHIP2) == w8.panel.chip2);
    assert(w8.panel.edge_chip(ChipSelect::CHIP3) == w8.panel.chip3);
    assert(w9.panel == PanelState { control: addressing(chip, true, false), ..w8.panel });
}

/// Selecting a controller and waiting for it leaves it ready and selected
/// alone, whatever the lines were before.
pub proof fn lemma_wait_ready(w: World, chip: ChipSelect)
    requires
        w.wired(),
    ensures
        effect(Task::WaitReady(chip), w) == waited(w, chip),
        waited(w, chip).wired(),
{
    lemma_wait_ready_steps(w, chip);
    lemma_wait_ready_lines(w, chip);
}

/// The operations of a write to `chip` applied one after the other.
pub open spec fn send_steps(w: World, chip: ChipSelect, s: u8, byte: u8) -> World {
    let w1 = waited(w, chip);
    let w2 = operation(Task::Mode(0, s), w1);
    let w3 = operation(Task::Put(byte), w2);
    let w4 = operation(Task::Pause(ADDRESS_SETUP_US), w3);
    let w5 = operation(Task::Strobe(true), w4);
    let w6 = operation(Task::Pause(PULSE_HIGH_US), w5);
    let w7 = operation(Task::Strobe(false), w6);
    operation(Task::Pause(PULSE_LOW_US), w7)
}

proof fn lemma_command_steps(w: World, chip: ChipSelect, byte: u8)
    requires
        w.wired(),
    ensures
        effect(Task::Command(chip, byte), w) == send_steps(w, chip, 0, byte),
{
    lemma_chains();
    lemma_turns(w.core, Event::Nothing);
    lemma_effect(Task::Command(chip, byte), w);
    lemma_wait_ready(w, chip);
    let w1 = waited(w, chip);
    let w2 = operation(Task::Mode(0, 0), w1);
    lemma_operation(Task::Mode(0, 0), w1);
    let w3 = operation(Task::Put(byte), w2);
    lemma_operation(Task::Put(byte), w2);
    let w4 = operation(Task::Pause(ADDRESS_SETUP_US), w3);
    lemma_operation(Task::Pause(ADDRESS_SETUP_US), w3);
    let w5 = operation(Task::Strobe(true), w4);
    lemma_operation(Task::Strobe(true), w4);
    let w6 = operation(Task::Pause(PULSE_HIGH_US), w5);
    lemma_operation(Task::Pause(PULSE_HIGH_US), w5);
    let w7 = operation(Task::Strobe(false), w6);
    lemma_operation(Task::Strobe(false), w6);
    lemma_operation(Task::Pause(PULSE_LOW_US), w7);
}

proof fn lemma_store_steps(w: World, chip: ChipSelect, byte: u8)
    requires
        w.wired(),
    ensures
        effect(Task::Store(chip, byte), w) == send_steps(w, chip, 1, byte),
{
    lemma_chains();
    lemma_turns(w.core, Event::Nothing);
    lemma_effect(Task::Store(chip, byte), w);
    lemma_wait_ready(w, chip);
    let w1 = waited(w, chip);
    let w2 = operation(Task::Mode(0, 1), w1);
    lemma_operation(Task::Mode(0, 1), w1);
    let w3 = operation(Task::Put(byte), w2);
    lemma_operation(Task::Put(byte), w2);
    let w4 = operation(Task::Pause(ADDRESS_SETUP_US), w3);
    lemma_operation(Task::Pause(ADDRESS_SETUP_US), w3);
    let w5 = operation(Task::Strobe(true), w4);
    lemma_operation(Task::Strobe(true), w4);
    let w6 = operation(Task::Pause(PULSE_HIGH_US), w5);
    lemma_operation(Task::Pause(PULSE_HIGH_US), w5);
    let w7 = operation(Task::Strobe(false), w6);
    lemma_operation(Task::Strobe(false), w6);
    lemma_operation(Task::Pause(PULSE_LOW_US), w7);
}

proof fn lemma_send_lines(w: World, chip: ChipSelect, s: u8, byte: u8)
    requires
        w.wired(),
    ensures
        send_steps(w, chip, s, byte) == sent(w, chip, s, byte),
        sent(w, chip, s, byte).wired(),
{
    let w1 = waited(w, chip);
    let w2 = operation(Task::Mode(0, s), w1);
    lemma_mode(w1, 0, s);
    let w3 = operation(Task::Put(byte), w2);
    lemma_put(w2, byte);
    let w4 = operation(Task::Pause(ADDRESS_SETUP_US), w3);
    lemma_pause(w3, ADDRESS_SETUP_US);
    let w5 = operation(Task::Strobe(true), w4);
    lemma_raise(w4);
    let w6 = operation(Task::Pause(PULSE_HIGH_US), w5);
    lemma_pause(w5, PULSE_HIGH_US);
    let w7 = operation(Task::Strobe(false), w6);
    lemma_lower(w6);
    let w8 = operation(Task::Pause(PULSE_LOW_US), w7);
    lemma_pause(w7, PULSE_LOW_US);
    lemma_byte_of_levels(byte);
    let ready = w.panel.chip(chip).ready();
    let taken = if s == 1 {
        ready.store(byte)
    } else {
        ready.command(byte)
    };
    assert(w6.panel.data.levels() == Levels::of(byte));
    assert(w6.panel.chip(chip) == ready);
    assert(w6.panel.control == Arduino { en: true, ..addressing(chip, false, s == 1) });
    assert(w6.panel.edge_chip(chip) == taken);
    assert(w7.panel == PanelState {
        control: addressing(chip, false, s == 1),
        ..w6.panel
    }.with_chip(chip, taken));
}

/// Sending a command to a controller: the controller takes it, whatever
/// the lines were before.
pub proof fn lemma_command(w: World, chip: ChipSelect, byte: u8)
    requires
        w.wired(),
    ensures
        effect(Task::Command(chip, byte), w) == sent(w, chip, 0, byte),
        sent(w, chip, 0, byte).wired(),
{
    lemma_command_steps(w, chip, byte);
    lemma_send_lines(w, chip, 0, byte);
}

/// Sending a byte of display data to a controller: the controller stores
/// it, whatever the lines were before.
pub proof fn lemma_store(w: World, chip: ChipSelect, byte: u8)
    requires
        w.wired(),
    ensures
        effect(Task::Store(chip, byte), w) == sent(w, chip, 1, byte),
        sent(w, chip, 1, byte).wired(),
{
    lemma_store_steps(w, chip, byte);
    lemma_send_lines(w, chip, 1, byte);
}

/// The operations of a priming read applied one after the other.
pub open spec fn prime_steps(w: World, chip: ChipSelect) -> World {
    let w1 = waited(w, chip);
    let w2 = operation(Task::Mode(1, 1), w1);
    let w3 = operation(Task::Pause(ADDRESS_SETUP_US), w2);
    let w4 = operation(Task::Strobe(true), w3);
    let w5 = operation(Task::Pause(PULSE_HIGH_US), w4);
    let w6 = operation(Task::Strobe(false), w5);
    operation(Task::Pause(PULSE_LOW_US), w6)
}

proof fn lemma_prime_steps(w: World, chip: ChipSelect)
    requires
        w.wired(),
    ensures
        effect(Task::Prime(chip), w) == prime_steps(w, chip),
{
    lemma_chains();
    lemma_turns(w.core, Event::Nothing);
    lemma_effect(Task::Prime(chip), w);
    lemma_wait_ready(w, chip);
    let w1 = waited(w, chip);
    let w2 = operation(Task::Mode(1, 1), w1);
    lemma_operation(Task::Mode(1, 1), w1);
    let w3 = operation(Task::Pause(ADDRESS_SETUP_US), w2);
    lemma_operation(Task::Pause(ADDRESS_SETUP_US), w2);
    let w4 = operation(Task::Strobe(true), w3);
    lemma_operation(Task::Strobe(true), w3);
    let w5 = operation(Task::Pause(PULSE_HIGH_US), w4);
    lemma_operation(Task::Pause(PULSE_HIGH_US), w4);
    let w6 = operation(Task::Strobe(false), w5);
    lemma_operation(Task::Strobe(false), w5);
    lemma_operation(Task::Pause(PULSE_LOW_US), w6);
}

proof fn lemma_prime_lines(w: World, chip: ChipSelect)
    requires
        w.wired(),
    ensures
        prime_steps(w, chip) == primed(w, chip),
        primed(w, chip).wired(),
{
    let w1 = waited(w, chip);
    let w2 = operation(Task::Mode(1, 1), w1);
    lemma_mode(w1, 1, 1);
    let w3 = operation(Task::Pause(ADDRESS_SETUP_US), w2);
    lemma_pause(w2, ADDRESS_SETUP_US);
    let w4 = operation(Task::Strobe(true), w3);
    lemma_raise(w3);
    let w5 = operation(Task::Pause(PULSE_HIGH_US), w4);
    lemma_pause(w4, PULSE_HIGH_US);
    let w6 = operation(Task::Strobe(false), w5);
    lemma_lower(w5);
    lemma_pause(w6, PULSE_LOW_US);
    let ready = w.panel.chip(chip).ready();
    assert(w5.panel.chip(chip) == ready);
    assert(w5.panel.control == Arduino { en: true, ..addressing(chip, true, true) });
    assert(w5.panel.edge_chip(chip) == ready.fetch());
    assert(w6.panel == PanelState { control: addressing(chip, true, true), ..w5.panel }.with_chip(
        chip,
        ready.fetch(),
    ));
}

/// The priming read of a controller, whatever the lines were before.
pub proof fn lemma_prime(w: World, chip: ChipSelect)
    requires
        w.wired(),
    ensures
        effect(Task::Prime(chip), w) == primed(w, chip),
        primed(w, chip).wired(),
{
    lemma_prime_steps(w, chip);
    lemma_prime_lines(w, chip);
}

/// The operations of a read applied one after the other.
pub open spec fn load_steps(w: World, chip: ChipSelect) -> World {
    let w1 = waited(w, chip);
    let w2 = operation(Task::Mode(1, 1), w1);
    let w3 = operation(Task::Pause(ADDRESS_SETUP_US), w2);
    let w4 = operation(Task::Strobe(true), w3);
    let w5 = operation(Task::Pause(DATA_DELAY_US), w4);
    let w6 = operation(Task::Capture, w5);
    let w7 = operation(Task::Strobe(false), w6);
    let w8 = operation(Task::Pause(PULSE_LOW_US), w7);
    operation(Task::TurnOut, w8)
}

proof fn lemma_load_steps(w: World, chip: ChipSelect)
    requires
        w.wired(),
    ensures
        effect(Task::Load(chip), w) == load_steps(w, chip),
{
    lemma_chains();
    lemma_turns(w.core, Event::Nothing);
    lemma_effect(Task::Load(chip), w);
    lemma_wait_ready(w, chip);
    let w1 = waited(w, chip);
    let w2 = operation(Task::Mode(1, 1), w1);
    lemma_operation(Task::Mode(1, 1), w1);
    let w3 = operation(Task::Pause(ADDRESS_SETUP_US), w2);
    lemma_operation(Task::Pause(ADDRESS_SETUP_US), w2);
    let w4 = operation(Task::Strobe(true), w3);
    lemma_operation(Task::Strobe(true), w3);
    let w5 = operation(Task::Pause(DATA_DELAY_US), w4);
    lemma_operation(Task::Pause(DATA_DELAY_US), w4);
    let w6 = operation(Task::Capture, w5);
    lemma_operation(Task::Capture, w5);
    let w7 = operation(Task::Strobe(false), w6);
    lemma_operation(Task::Strobe(false), w6);
    let w8 = operation(Task::Pause(PULSE_LOW_US), w7);
    lemma_operation(Task::Pause(PULSE_LOW_US), w7);
    lemma_operation(Task::TurnOut, w8);
}

proof fn lemma_load_lines(w: World, chip: ChipSelect)
    requires
        w.wired(),
    ensures
        load_steps(w, chip) == loaded(w, chip),
        loaded(w, chip).wired(),
{
    let w1 = waited(w, chip);
    let w2 = operation(Task::Mode(1, 1), w1);
    lemma_mode(w1, 1, 1);
    let w3 = operation(Task::Pause(ADDRESS_SETUP_US), w2);
    lemma_pause(w2, ADDRESS_SETUP_US);
    let w4 = operation(Task::Strobe(true), w3);
    lemma_raise(w3);
    let w5 = operation(Task::Pause(DATA_DELAY_US), w4);
    lemma_pause(w4, DATA_DELAY_US);
    let w6 = operation(Task::Capture, w5);
    lemma_capture(w5);
    let w7 = operation(Task::Strobe(false), w6);
    lemma_lower(w6);
    let w8 = operation(Task::Pause(PULSE_LOW_US), w7);
    lemma_pause(w7, PULSE_LOW_US);
    let w9 = operation(Task::TurnOut, w8);
    lemma_turn_out(w8);
    let ready = w.panel.chip(chip).ready();
    lemma_byte_of_levels(ready.latch);
    assert(w5.panel.chip(chip) == ready);
    assert(w5.panel.control == Arduino { en: true, ..addressing(chip, true, true) });
    assert(w5.panel.speaker() == Some(chip));
    assert(w5.data(DBArduino::listening()) == w5);
    assert(w5.panel.asked() == w5.panel);
    assert(w5.panel.shown() == Levels::of(ready.latch));
    assert(w6 == w5.latch(ready.latch));
    assert(w6.panel.edge_chip(chip) == ready.fetch());
    assert(w7.panel == PanelState { control: addressing(chip, true, true), ..w6.panel }.with_chip(
        chip,
        ready.fetch(),
    ));
    assert(DBArduino::listening().turned_out() == DBArduino::driving(Levels::released()));
}

/// A read of a controller, whatever the lines were before.
pub proof fn lemma_load(w: World, chip: ChipSelect)
    requires
        w.wired(),
    ensures
        effect(Task::Load(chip), w) == loaded(w, chip),
        loaded(w, chip).wired(),
{
    lemma_load_steps(w, chip);
    lemma_load_lines(w, chip);
}

} // verus!
