use ermc192641::arduino::{Arduino, ChipSelect};
use ermc192641::dbarduino::DBArduino;
use ermc192641::signal::{Action, Event, Levels, Line};
use ermc192641::simulator::Panel;

fn panel(lag: u8) -> Panel {
    let (control, _) = Arduino::new();
    Panel::new(control, DBArduino::new(Levels::from_byte(0)), lag, 0)
}

fn put(panel: &mut Panel, byte: u8) {
    let lines = [
        Line::DB0,
        Line::DB1,
        Line::DB2,
        Line::DB3,
        Line::DB4,
        Line::DB5,
        Line::DB6,
        Line::DB7,
    ];
    for (i, line) in lines.iter().enumerate() {
        panel.perform(Action::Output(*line));
        panel.perform(Action::Drive(*line, (byte >> i) & 1 == 1));
    }
}

fn listen(panel: &mut Panel) {
    for line in [
        Line::DB0,
        Line::DB1,
        Line::DB2,
        Line::DB3,
        Line::DB4,
        Line::DB5,
        Line::DB6,
        Line::DB7,
    ] {
        panel.perform(Action::PullUp(line));
    }
}

fn pulse(panel: &mut Panel) {
    panel.perform(Action::Drive(Line::EN, true));
    panel.perform(Action::DelayUs(5));
    panel.perform(Action::Drive(Line::EN, false));
}

fn byte_of(event: Event) -> u8 {
    match event {
        Event::Levels(levels) => levels.to_byte(),
        other => panic!("no byte was read: {other:?}"),
    }
}

#[test]
fn a_new_panel_is_off_and_blank() {
    let p = panel(3);
    for chip in ChipSelect::iter() {
        assert_eq!(p.switches(chip), (false, 0));
        assert!(p.commands(chip).is_empty());
    }
    for x in 0u8..192 {
        for page in 0u8..8 {
            assert_eq!(p.byte_at(x, page), 0);
        }
    }
    let (control, _) = Arduino::new();
    assert_eq!(p.control_bus(), control);
}

#[test]
fn a_panel_can_start_with_any_fill() {
    let (control, _) = Arduino::new();
    let p = Panel::new(control, DBArduino::new(Levels::from_byte(0)), 0, 0xC3);
    assert_eq!(p.byte_at(0, 0), 0xC3);
    assert_eq!(p.byte_at(191, 7), 0xC3);
    assert!(p.pixel(5, 0) && p.pixel(5, 1) && !p.pixel(5, 2) && p.pixel(5, 7));
}

#[test]
fn a_command_to_all_selected_controllers_reaches_each() {
    let mut p = panel(0);
    p.perform(Action::Drive(Line::CS1, false));
    p.perform(Action::Drive(Line::CS3, false));
    put(&mut p, 0x3F);
    pulse(&mut p);
    assert_eq!(p.switches(ChipSelect::CHIP1), (true, 0));
    assert_eq!(p.switches(ChipSelect::CHIP2), (false, 0));
    assert_eq!(p.switches(ChipSelect::CHIP3), (true, 0));
    assert_eq!(p.commands(ChipSelect::CHIP1), vec![0x3F]);
    assert_eq!(p.commands(ChipSelect::CHIP2), Vec::<u8>::new());
}

#[test]
fn a_busy_controller_takes_nothing() {
    let mut p = panel(2);
    p.perform(Action::Drive(Line::CS2, false));
    put(&mut p, 0x3F);
    pulse(&mut p);
    assert_eq!(p.switches(ChipSelect::CHIP2), (false, 0));
    assert!(p.commands(ChipSelect::CHIP2).is_empty());
}

#[test]
fn the_status_counts_down_to_ready() {
    let mut p = panel(2);
    listen(&mut p);
    p.perform(Action::Drive(Line::CS2, false));
    p.perform(Action::Drive(Line::RW, true));
    p.perform(Action::Drive(Line::EN, true));
    assert_eq!(p.perform(Action::SampleReady), Event::Level(true));
    assert_eq!(byte_of(p.perform(Action::Sample)), 0x20);
    assert_eq!(p.perform(Action::SampleReady), Event::Level(false));
    p.perform(Action::Drive(Line::EN, false));
    p.perform(Action::Drive(Line::RW, false));
    put(&mut p, 0x3F);
    pulse(&mut p);
    assert_eq!(p.switches(ChipSelect::CHIP2), (true, 0));
    listen(&mut p);
    p.perform(Action::Drive(Line::RW, true));
    p.perform(Action::Drive(Line::EN, true));
    assert_eq!(byte_of(p.perform(Action::Sample)), 0x80);
    assert_eq!(byte_of(p.perform(Action::Sample)), 0x00);
}

#[test]
fn an_undriven_bus_reads_all_ones() {
    let mut p = panel(0);
    listen(&mut p);
    p.perform(Action::Drive(Line::RW, true));
    p.perform(Action::Drive(Line::EN, true));
    assert_eq!(byte_of(p.perform(Action::Sample)), 0xFF);
    assert_eq!(p.perform(Action::SampleReady), Event::Level(true));
    p.perform(Action::Drive(Line::CS1, false));
    p.perform(Action::Drive(Line::CS2, false));
    assert_eq!(byte_of(p.perform(Action::Sample)), 0xFF);
    p.perform(Action::Drive(Line::CS2, true));
    p.perform(Action::Drive(Line::EN, false));
    assert_eq!(byte_of(p.perform(Action::Sample)), 0xFF);
}

#[test]
fn data_goes_to_the_address_and_the_column_counts_on() {
    let mut p = panel(0);
    p.perform(Action::Drive(Line::CS3, false));
    put(&mut p, 0xB8 | 5);
    pulse(&mut p);
    put(&mut p, 0x40 | 62);
    pulse(&mut p);
    p.perform(Action::Drive(Line::RS, true));
    for byte in [0x11u8, 0x22, 0x33] {
        put(&mut p, byte);
        pulse(&mut p);
    }
    assert_eq!(p.byte_at(128 + 62, 5), 0x11);
    assert_eq!(p.byte_at(128 + 63, 5), 0x22);
    assert_eq!(p.byte_at(128, 5), 0x33);
    assert_eq!(p.byte_at(128, 6), 0x00);
    assert_eq!(p.commands(ChipSelect::CHIP3), vec![0xBD, 0x7E]);
}

#[test]
fn a_read_gives_the_byte_after_one_priming_read() {
    let mut p = panel(0);
    p.place(70, 2, 0xAB);
    p.place(71, 2, 0xCD);
    p.perform(Action::Drive(Line::CS2, false));
    put(&mut p, 0xB8 | 2);
    pulse(&mut p);
    put(&mut p, 0x40 | 6);
    pulse(&mut p);
    listen(&mut p);
    p.perform(Action::Drive(Line::RW, true));
    p.perform(Action::Drive(Line::RS, true));
    pulse(&mut p);
    p.perform(Action::Drive(Line::EN, true));
    assert_eq!(byte_of(p.perform(Action::Sample)), 0xAB);
    p.perform(Action::Drive(Line::EN, false));
    p.perform(Action::Drive(Line::EN, true));
    assert_eq!(byte_of(p.perform(Action::Sample)), 0xCD);
}

#[test]
fn a_burst_is_carried_out_in_order() {
    let mut p = panel(0);
    let burst = vec![
        Action::Drive(Line::CS1, false),
        Action::Drive(Line::RW, true),
        Action::Drive(Line::EN, true),
        Action::Sample,
    ];
    assert_eq!(byte_of(p.perform_all(&burst)), 0x20);
    assert_eq!(p.perform_all(&vec![Action::Drive(Line::EN, false)]), Event::Nothing);
    assert_eq!(p.perform_all(&Vec::new()), Event::Nothing);
    assert!(p.control_bus().rw && !p.control_bus().en);
}

#[test]
fn the_start_line_and_the_switch_follow_their_commands() {
    let mut p = panel(0);
    p.perform(Action::Drive(Line::CS1, false));
    for byte in [0x3Fu8, 0xC0 | 33, 0x3E, 0x00, 0x3F] {
        put(&mut p, byte);
        pulse(&mut p);
    }
    assert_eq!(p.switches(ChipSelect::CHIP1), (true, 33));
    assert_eq!(p.commands(ChipSelect::CHIP1), vec![0x3F, 0xE1, 0x3E, 0x00, 0x3F]);
}
