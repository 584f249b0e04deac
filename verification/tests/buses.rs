use ermc192641::arduino::{Arduino, ChipSelect};
use ermc192641::constants::{
    ADDRESS_SETUP_US, CHIP_WIDTH, DATA_DELAY_US, DATA_SETUP_US, DISPLAY_HEIGHT, DISPLAY_WIDTH,
    LCD_OFF, LCD_ON, LCD_SET_COLUMN, LCD_SET_ROW, LCD_START_LINE, PAGE_HEIGHT, PIXEL_OFF,
    PIXEL_ON, POWER_UP_MS, PULSE_HIGH_US, PULSE_LOW_US,
};
use ermc192641::dbarduino::{DBArduino, DBPort};
use ermc192641::signal::{Action, Levels, Line};

fn low() -> Levels {
    Levels::from_byte(0)
}

#[test]
fn opcodes_and_geometry_have_their_values() {
    assert_eq!(LCD_ON, 0x3F);
    assert_eq!(LCD_OFF, 0x3E);
    assert_eq!(LCD_SET_COLUMN, 0x40);
    assert_eq!(LCD_START_LINE, 0xC0);
    assert_eq!(LCD_SET_ROW, 0xB8);
    assert_eq!(PIXEL_ON, 0xFF);
    assert_eq!(PIXEL_OFF, 0x00);
    assert_eq!(CHIP_WIDTH, 64);
    assert_eq!(DISPLAY_WIDTH, 192);
    assert_eq!(DISPLAY_HEIGHT, 64);
    assert_eq!(PAGE_HEIGHT, 8);
    assert_eq!(ADDRESS_SETUP_US, 1);
    assert_eq!(DATA_SETUP_US, 1);
    assert!(DATA_SETUP_US <= PULSE_HIGH_US);
    assert_eq!(PULSE_HIGH_US, 5);
    assert_eq!(PULSE_LOW_US, 5);
    assert_eq!(DATA_DELAY_US, 5);
    assert_eq!(POWER_UP_MS, 50);
}

#[test]
fn a_new_control_bus_is_at_rest() {
    let (bus, burst) = Arduino::new();
    assert_eq!(
        bus,
        Arduino { rw: false, rs: false, en: false, cs1: true, cs2: true, cs3: true }
    );
    assert_eq!(
        burst,
        vec![
            Action::Drive(Line::RW, false),
            Action::Drive(Line::RS, false),
            Action::Drive(Line::EN, false),
            Action::Drive(Line::CS1, true),
            Action::Drive(Line::CS2, true),
            Action::Drive(Line::CS3, true),
        ]
    );
}

#[test]
fn set_rwrs_raises_a_line_for_one_and_lowers_it_otherwise() {
    let (mut bus, _) = Arduino::new();
    let burst = bus.set_rwrs(1, 0);
    assert!(bus.rw && !bus.rs);
    assert_eq!(burst, vec![Action::Drive(Line::RW, true), Action::Drive(Line::RS, false)]);
    let burst = bus.set_rwrs(0, 1);
    assert!(!bus.rw && bus.rs);
    assert_eq!(burst, vec![Action::Drive(Line::RW, false), Action::Drive(Line::RS, true)]);
    let burst = bus.set_rwrs(2, 7);
    assert!(!bus.rw && !bus.rs);
    assert_eq!(burst, vec![Action::Drive(Line::RW, false), Action::Drive(Line::RS, false)]);
}

#[test]
fn the_strobe_goes_up_and_down() {
    let (mut bus, _) = Arduino::new();
    assert_eq!(bus.en_strobe_high(), vec![Action::Drive(Line::EN, true)]);
    assert!(bus.en);
    assert_eq!(bus.en_strobe_low(), vec![Action::Drive(Line::EN, false)]);
    assert!(!bus.en);
}

#[test]
fn selecting_a_controller_lowers_its_line_alone() {
    for (chip, line) in [
        (ChipSelect::CHIP1, Line::CS1),
        (ChipSelect::CHIP2, Line::CS2),
        (ChipSelect::CHIP3, Line::CS3),
    ] {
        let (mut bus, _) = Arduino::new();
        let burst = bus.select_chip(chip);
        assert_eq!(burst, vec![Action::Drive(line, false)]);
        assert_eq!(!bus.cs1, chip == ChipSelect::CHIP1);
        assert_eq!(!bus.cs2, chip == ChipSelect::CHIP2);
        assert_eq!(!bus.cs3, chip == ChipSelect::CHIP3);
        assert!(bus.only_selected(chip));
    }
}

#[test]
fn selecting_adds_to_what_is_selected() {
    let (mut bus, _) = Arduino::new();
    bus.select_chip(ChipSelect::CHIP1);
    bus.select_chip(ChipSelect::CHIP3);
    assert!(!bus.cs1 && bus.cs2 && !bus.cs3);
    assert!(!bus.only_selected(ChipSelect::CHIP1));
}

#[test]
fn all_controllers_are_selected_and_released_together() {
    let (mut bus, _) = Arduino::new();
    let burst = bus.select_all_chips();
    assert!(!bus.cs1 && !bus.cs2 && !bus.cs3);
    assert_eq!(
        burst,
        vec![
            Action::Drive(Line::CS1, false),
            Action::Drive(Line::CS2, false),
            Action::Drive(Line::CS3, false),
        ]
    );
    let burst = bus.unselect_all_chips();
    assert!(bus.cs1 && bus.cs2 && bus.cs3);
    assert_eq!(
        burst,
        vec![
            Action::Drive(Line::CS1, true),
            Action::Drive(Line::CS2, true),
            Action::Drive(Line::CS3, true),
        ]
    );
}

#[test]
fn the_control_bus_follows_pin_actions() {
    let (mut bus, _) = Arduino::new();
    bus.perform(Action::Drive(Line::RS, true));
    bus.perform(Action::Drive(Line::CS2, false));
    bus.perform(Action::Drive(Line::DB3, true));
    bus.perform(Action::DelayUs(5));
    assert_eq!(
        bus,
        Arduino { rw: false, rs: true, en: false, cs1: true, cs2: false, cs3: true }
    );
}

#[test]
fn a_port_changes_direction_once() {
    assert_eq!(DBPort::DBOutput(false).data_dir_in_helper(), DBPort::DBInput);
    assert_eq!(DBPort::DBInput.data_dir_in_helper(), DBPort::DBInput);
    assert_eq!(DBPort::DBInput.data_dir_out_helper(), DBPort::DBOutput(true));
    assert_eq!(DBPort::DBOutput(false).data_dir_out_helper(), DBPort::DBOutput(false));
    assert_eq!(DBPort::DBOutput(true).data_dir_out_helper(), DBPort::DBOutput(true));
}

#[test]
fn an_output_is_driven_and_an_input_refuses() {
    let mut port = DBPort::DBOutput(false);
    assert_eq!(port.set_high(), Ok(()));
    assert_eq!(port, DBPort::DBOutput(true));
    assert_eq!(port.set_low(), Ok(()));
    assert_eq!(port, DBPort::DBOutput(false));
    assert_eq!(port.set_state(true), Ok(()));
    assert_eq!(port, DBPort::DBOutput(true));
    let mut port = DBPort::DBInput;
    assert_eq!(port.set_high(), Err(()));
    assert_eq!(port.set_low(), Err(()));
    assert_eq!(port.set_state(true), Err(()));
    assert_eq!(port, DBPort::DBInput);
}

#[test]
fn an_input_is_read_and_an_output_refuses() {
    assert_eq!(DBPort::DBInput.is_high(true), Ok(true));
    assert_eq!(DBPort::DBInput.is_high(false), Ok(false));
    assert_eq!(DBPort::DBInput.is_low(true), Ok(false));
    assert_eq!(DBPort::DBInput.is_low(false), Ok(true));
    assert_eq!(DBPort::DBOutput(true).is_high(true), Err(()));
    assert_eq!(DBPort::DBOutput(true).is_low(false), Err(()));
}

#[test]
fn an_undriven_line_is_pulled_high() {
    assert!(DBPort::DBInput.wire_level());
    assert!(DBPort::DBOutput(true).wire_level());
    assert!(!DBPort::DBOutput(false).wire_level());
}

#[test]
fn levels_spell_bytes() {
    let levels = Levels::from_byte(0xA5);
    assert_eq!(
        levels,
        Levels {
            d0: true,
            d1: false,
            d2: true,
            d3: false,
            d4: false,
            d5: true,
            d6: false,
            d7: true
        }
    );
    for byte in 0u8..=255 {
        assert_eq!(Levels::from_byte(byte).to_byte(), byte);
    }
}

#[test]
fn write_byte_drives_line_i_with_bit_i() {
    let mut bus = DBArduino::new(low());
    let burst = bus.write_byte(0x81);
    assert_eq!(
        burst,
        vec![
            Action::Drive(Line::DB0, true),
            Action::Drive(Line::DB1, false),
            Action::Drive(Line::DB2, false),
            Action::Drive(Line::DB3, false),
            Action::Drive(Line::DB4, false),
            Action::Drive(Line::DB5, false),
            Action::Drive(Line::DB6, false),
            Action::Drive(Line::DB7, true),
        ]
    );
    assert_eq!(bus.db0, DBPort::DBOutput(true));
    assert_eq!(bus.db1, DBPort::DBOutput(false));
    assert_eq!(bus.db7, DBPort::DBOutput(true));
    assert_eq!(bus.wire_levels().to_byte(), 0x81);
}

#[test]
fn every_byte_written_is_on_the_wires() {
    let mut bus = DBArduino::new(low());
    for byte in 0u8..=255 {
        bus.write_byte(byte);
        assert_eq!(bus.wire_levels().to_byte(), byte);
        assert_eq!(bus, DBArduino::new(Levels::from_byte(byte)));
    }
}

#[test]
fn read_byte_takes_bit_i_from_line_i() {
    let (bus, _) = DBArduino::new(low()).data_dir_in();
    assert_eq!(bus.read_byte(Levels::from_byte(0x01)), 0x01);
    assert_eq!(bus.read_byte(Levels::from_byte(0x80)), 0x80);
    assert_eq!(bus.read_byte(Levels::from_byte(0x5A)), 0x5A);
    for byte in 0u8..=255 {
        assert_eq!(bus.read_byte(Levels::from_byte(byte)), byte);
    }
}

#[test]
fn the_bus_turns_as_a_unit() {
    let out = DBArduino::new(Levels::from_byte(0x0F));
    assert!(!out.all_inputs());
    let (inp, burst) = out.data_dir_in();
    assert!(inp.all_inputs());
    assert_eq!(inp.db0, DBPort::DBInput);
    assert_eq!(inp.db7, DBPort::DBInput);
    assert_eq!(
        burst,
        vec![
            Action::PullUp(Line::DB0),
            Action::PullUp(Line::DB1),
            Action::PullUp(Line::DB2),
            Action::PullUp(Line::DB3),
            Action::PullUp(Line::DB4),
            Action::PullUp(Line::DB5),
            Action::PullUp(Line::DB6),
            Action::PullUp(Line::DB7),
        ]
    );
    assert_eq!(inp.wire_levels().to_byte(), 0xFF);
    let (back, burst) = inp.data_dir_out();
    assert_eq!(back, DBArduino::new(Levels::from_byte(0xFF)));
    assert_eq!(
        burst,
        vec![
            Action::Output(Line::DB0),
            Action::Output(Line::DB1),
            Action::Output(Line::DB2),
            Action::Output(Line::DB3),
            Action::Output(Line::DB4),
            Action::Output(Line::DB5),
            Action::Output(Line::DB6),
            Action::Output(Line::DB7),
        ]
    );
    let (same, _) = out.data_dir_out();
    assert_eq!(same, out);
}

#[test]
fn the_busy_flag_is_the_level_of_line_seven() {
    let (bus, _) = DBArduino::new(low()).data_dir_in();
    assert!(bus.ready_busy_status(true));
    assert!(!bus.ready_busy_status(false));
}

#[test]
fn the_data_bus_follows_pin_actions() {
    let mut bus = DBArduino::new(low());
    bus.perform(Action::Drive(Line::DB2, true));
    assert_eq!(bus.db2, DBPort::DBOutput(true));
    bus.perform(Action::PullUp(Line::DB2));
    assert_eq!(bus.db2, DBPort::DBInput);
    bus.perform(Action::Drive(Line::DB2, false));
    assert_eq!(bus.db2, DBPort::DBInput);
    bus.perform(Action::Output(Line::DB2));
    assert_eq!(bus.db2, DBPort::DBOutput(true));
    bus.perform(Action::Drive(Line::RW, true));
    bus.perform(Action::Sample);
    assert_eq!(bus.db0, DBPort::DBOutput(false));
}
