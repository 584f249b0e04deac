use ermc192641::arduino::{Arduino, ChipSelect};
use ermc192641::constants::{LCD_OFF, LCD_ON, PIXEL_OFF, PIXEL_ON};
use ermc192641::dbarduino::DBArduino;
use ermc192641::ermc192641::Ermc192641;
use ermc192641::signal::Levels;
use ermc192641::simulator::{run, Panel};

const PLENTY: usize = 10_000_000;

fn board(lag: u8, fill: u8) -> (Ermc192641, Panel) {
    let (control, _) = Arduino::new();
    let data = DBArduino::new(Levels::from_byte(0));
    (Ermc192641::new(data, control), Panel::new(control, data, lag, fill))
}

fn finish(engine: &mut Ermc192641, panel: &mut Panel) {
    let made = run(engine, panel, PLENTY);
    assert!(made < PLENTY);
    assert!(engine.is_idle());
}

fn started(lag: u8, fill: u8) -> (Ermc192641, Panel) {
    let (mut engine, mut panel) = board(lag, fill);
    engine.init_lcd();
    finish(&mut engine, &mut panel);
    (engine, panel)
}

fn page_commands(log: &[u8]) -> usize {
    log.iter().filter(|b| (0xB8..0xC0).contains(*b)).count()
}

#[test]
fn init_clears_the_display_and_switches_it_on() {
    let (engine, panel) = started(0, 0xA7);
    for x in 0u8..192 {
        for page in 0u8..8 {
            assert_eq!(panel.byte_at(x, page), 0x00);
        }
    }
    for chip in ChipSelect::iter() {
        assert_eq!(panel.switches(chip), (true, 0));
    }
    assert_eq!(engine.cursor(), (0, 0));
    assert_eq!(engine.state().pages.index(ChipSelect::CHIP1), Some(0));
    assert!(panel.data_bus().wire_levels().to_byte() == 0x40);
    assert!(!panel.control_bus().en);
}

#[test]
fn init_sends_on_and_start_line_to_every_controller_first() {
    let (_, panel) = started(0, 0);
    for chip in ChipSelect::iter() {
        let log = panel.commands(chip);
        assert_eq!(log[0], LCD_ON);
        assert_eq!(log[1], 0xC0);
    }
}

#[test]
fn init_then_set_pixel_at_the_origin_gives_one() {
    let (mut engine, mut panel) = started(0, 0);
    engine.set_pixel(0, 0, true);
    finish(&mut engine, &mut panel);
    assert_eq!(panel.byte_at(0, 0), 0x01);
    assert!(panel.pixel(0, 0));
    engine.goto_xy(0, 0);
    engine.read_data();
    finish(&mut engine, &mut panel);
    assert_eq!(engine.data(), 0x01);
}

#[test]
fn a_second_pixel_in_row_seven_of_the_same_column_gives_eighty_one() {
    let (mut engine, mut panel) = started(0, 0);
    engine.set_pixel(0, 0, true);
    engine.set_pixel(0, 7, true);
    engine.goto_xy(0, 0);
    engine.read_data();
    finish(&mut engine, &mut panel);
    assert_eq!(panel.byte_at(0, 0), 0x81);
    assert_eq!(engine.data(), 0x81);
}

#[test]
fn a_pixel_in_column_seven_leaves_column_zero_alone() {
    let (mut engine, mut panel) = started(0, 0);
    engine.set_pixel(0, 0, true);
    engine.set_pixel(7, 0, true);
    finish(&mut engine, &mut panel);
    assert_eq!(panel.byte_at(0, 0), 0x01);
    assert_eq!(panel.byte_at(7, 0), 0x01);
}

#[test]
fn set_then_clear_restores_an_aligned_page() {
    let (mut engine, mut panel) = started(0, 0);
    engine.fill_rect(0, 0, 63, 7, true);
    finish(&mut engine, &mut panel);
    for x in 0u8..64 {
        assert_eq!(panel.byte_at(x, 0), 0xFF);
    }
    assert_eq!(panel.byte_at(64, 0), 0x00);
    assert_eq!(panel.byte_at(0, 1), 0x00);
    engine.fill_rect(0, 0, 63, 7, false);
    finish(&mut engine, &mut panel);
    for x in 0u8..192 {
        for page in 0u8..8 {
            assert_eq!(panel.byte_at(x, page), 0x00);
        }
    }
}

#[test]
fn a_fill_touches_its_rectangle_and_nothing_else() {
    let (mut engine, mut panel) = started(0, 0);
    engine.set_pixels(60, 5, 130, 42, true);
    finish(&mut engine, &mut panel);
    for x in 0u8..192 {
        for y in 0u8..64 {
            let inside = (60..=130).contains(&x) && (5..=42).contains(&y);
            assert_eq!(panel.pixel(x, y), inside, "pixel {x},{y}");
        }
    }
    engine.set_pixels(100, 0, 191, 63, false);
    finish(&mut engine, &mut panel);
    for x in 0u8..192 {
        for y in 0u8..64 {
            let inside = (60..100).contains(&x) && (5..=42).contains(&y);
            assert_eq!(panel.pixel(x, y), inside, "pixel {x},{y}");
        }
    }
}

#[test]
fn a_fill_in_one_page_leaves_the_other_bits_of_its_bytes() {
    let (mut engine, mut panel) = board(0, 0);
    for x in 0u8..192 {
        panel.place(x, 2, 0b1010_0101);
    }
    engine.set_pixels(10, 18, 20, 20, true);
    finish(&mut engine, &mut panel);
    for x in 0u8..192 {
        let expected = if (10..=20).contains(&x) { 0b1011_1101 } else { 0b1010_0101 };
        assert_eq!(panel.byte_at(x, 2), expected);
    }
    engine.set_pixels(10, 16, 20, 18, false);
    finish(&mut engine, &mut panel);
    for x in 0u8..192 {
        let expected = if (10..=20).contains(&x) { 0b1011_1000 } else { 0b1010_0101 };
        assert_eq!(panel.byte_at(x, 2), expected);
    }
}

#[test]
fn a_rectangle_with_its_corners_out_of_order_holds_no_pixel() {
    let (mut engine, mut panel) = started(0, 0);
    let logs: Vec<Vec<u8>> = ChipSelect::iter().iter().map(|c| panel.commands(*c)).collect();
    engine.set_pixels(20, 5, 10, 9, true);
    engine.fill_rect(10, 9, 20, 5, true);
    finish(&mut engine, &mut panel);
    for x in 0u8..192 {
        for page in 0u8..8 {
            assert_eq!(panel.byte_at(x, page), 0x00);
        }
    }
    let after: Vec<Vec<u8>> = ChipSelect::iter().iter().map(|c| panel.commands(*c)).collect();
    assert_eq!(logs, after);
    assert_eq!(engine.cursor(), (0, 0));
}

#[test]
fn draw_point_sets_and_clears_one_bit() {
    let (mut engine, mut panel) = started(0, 0);
    engine.draw_point(191, 63, PIXEL_ON);
    engine.draw_point(100, 12, PIXEL_ON);
    finish(&mut engine, &mut panel);
    assert_eq!(panel.byte_at(191, 7), 0x80);
    assert_eq!(panel.byte_at(100, 1), 0x10);
    engine.draw_point(100, 12, PIXEL_OFF);
    finish(&mut engine, &mut panel);
    assert_eq!(panel.byte_at(100, 1), 0x00);
    assert_eq!(panel.byte_at(191, 7), 0x80);
}

#[test]
fn draw_iter_passes_over_what_is_off_the_display() {
    let (mut engine, mut panel) = started(0, 0);
    let pixels = vec![
        (3, 3, true),
        (-1, 3, true),
        (3, -1, true),
        (192, 0, true),
        (0, 64, true),
        (191, 63, true),
        (3, 3, false),
        (4, 3, true),
    ];
    engine.draw_iter(&pixels);
    finish(&mut engine, &mut panel);
    for x in 0u8..192 {
        for y in 0u8..64 {
            let lit = (x, y) == (191, 63) || (x, y) == (4, 3);
            assert_eq!(panel.pixel(x, y), lit, "pixel {x},{y}");
        }
    }
}

#[test]
fn the_cache_holds_the_page_of_the_last_move_on_each_controller() {
    let (mut engine, mut panel) = board(0, 0);
    assert_eq!(engine.state().pages.index(ChipSelect::CHIP1), None);
    for (x, y) in [(0u8, 0u8), (5, 7), (70, 9), (6, 3), (7, 8), (8, 15), (71, 63), (9, 16)] {
        engine.goto_xy(x, y);
    }
    finish(&mut engine, &mut panel);
    assert_eq!(engine.state().pages.index(ChipSelect::CHIP1), Some(2));
    assert_eq!(engine.state().pages.index(ChipSelect::CHIP2), Some(7));
    assert_eq!(engine.state().pages.index(ChipSelect::CHIP3), None);
    assert_eq!(engine.cursor(), (9, 16));
}

#[test]
fn one_page_command_goes_out_for_every_change_of_page() {
    let (mut engine, mut panel) = board(0, 0);
    for (x, y) in [(0u8, 0u8), (5, 7), (70, 9), (6, 3), (7, 8), (8, 15), (71, 63), (9, 16)] {
        engine.goto_xy(x, y);
    }
    finish(&mut engine, &mut panel);
    let first = panel.commands(ChipSelect::CHIP1);
    assert_eq!(first, vec![0xB8, 0x40, 0x45, 0x46, 0xB9, 0x47, 0x48, 0xBA, 0x49]);
    assert_eq!(page_commands(&first), 3);
    let second = panel.commands(ChipSelect::CHIP2);
    assert_eq!(second, vec![0xB9, 0x46, 0xBF, 0x47]);
    assert_eq!(page_commands(&second), 2);
    assert_eq!(panel.commands(ChipSelect::CHIP3), Vec::<u8>::new());
}

#[test]
fn going_where_the_cursor_is_sends_the_column_again() {
    let (mut engine, mut panel) = board(0, 0);
    engine.goto_xy(12, 34);
    engine.goto_xy(12, 34);
    engine.goto_xy(12, 34);
    finish(&mut engine, &mut panel);
    assert_eq!(panel.commands(ChipSelect::CHIP1), vec![0xBC, 0x4C, 0x4C, 0x4C]);
}

#[test]
fn writes_run_on_into_the_next_controller_at_its_column_zero() {
    let (mut engine, mut panel) = started(0, 0);
    engine.goto_xy(0, 8);
    for i in 0u8..70 {
        engine.write_data(i + 1);
    }
    finish(&mut engine, &mut panel);
    for i in 0u8..70 {
        assert_eq!(panel.byte_at(i, 1), i + 1);
    }
    assert_eq!(panel.byte_at(70, 1), 0);
    assert_eq!(engine.cursor(), (70, 8));
    let second = panel.commands(ChipSelect::CHIP2);
    assert_eq!(second[second.len() - 1], 0x40);
    assert_eq!(second[second.len() - 2], 0xB9);
    assert_eq!(page_commands(&panel.commands(ChipSelect::CHIP3)), 8);
}

#[test]
fn a_write_at_the_boundary_addresses_the_next_controller_only_then() {
    let (mut engine, mut panel) = started(0, 0);
    engine.goto_xy(62, 0);
    finish(&mut engine, &mut panel);
    let before = panel.commands(ChipSelect::CHIP2).len();
    engine.write_data(0xAA);
    finish(&mut engine, &mut panel);
    assert_eq!(panel.commands(ChipSelect::CHIP2).len(), before);
    assert_eq!(engine.cursor(), (63, 0));
    engine.write_data(0xBB);
    finish(&mut engine, &mut panel);
    let log = panel.commands(ChipSelect::CHIP2);
    assert_eq!(log.len(), before + 2);
    assert_eq!(log[before], 0xB8);
    assert_eq!(log[before + 1], 0x40);
    assert_eq!(engine.cursor(), (64, 0));
    assert_eq!(panel.byte_at(62, 0), 0xAA);
    assert_eq!(panel.byte_at(63, 0), 0xBB);
}

#[test]
fn a_write_between_pages_is_split_over_both() {
    for offset in 1u8..8 {
        let (mut engine, mut panel) = board(0, 0);
        let lower = 0b0000_0001u8;
        let upper = 0b1000_0000u8;
        let pattern = 0b1100_0011u8;
        panel.place(100, 3, lower);
        panel.place(100, 4, upper);
        panel.place(101, 3, 0x55);
        engine.goto_xy(100, 24 + offset);
        engine.write_data(pattern);
        finish(&mut engine, &mut panel);
        assert_eq!(panel.byte_at(100, 3), lower | (pattern << offset));
        assert_eq!(panel.byte_at(100, 4), upper | (pattern >> (8 - offset)));
        assert_eq!(panel.byte_at(101, 3), 0x55);
        assert_eq!(panel.byte_at(99, 3), 0);
        assert_eq!(panel.byte_at(100, 2), 0);
        assert_eq!(panel.byte_at(100, 5), 0);
        assert_eq!(engine.cursor(), (101, 24 + offset));
    }
}

#[test]
fn a_split_write_has_exact_bytes() {
    let (mut engine, mut panel) = board(0, 0);
    panel.place(5, 0, 0x0F);
    panel.place(5, 1, 0xF0);
    engine.goto_xy(5, 3);
    engine.write_data(0xFF);
    finish(&mut engine, &mut panel);
    assert_eq!(panel.byte_at(5, 0), 0xFF);
    assert_eq!(panel.byte_at(5, 1), 0xF7);
}

#[test]
fn a_split_write_in_the_last_page_keeps_its_lower_part() {
    let (mut engine, mut panel) = board(0, 0);
    panel.place(10, 7, 0x01);
    engine.goto_xy(10, 60);
    engine.write_data(0xFF);
    finish(&mut engine, &mut panel);
    assert_eq!(panel.byte_at(10, 7), 0xF1);
    assert_eq!(engine.cursor(), (11, 60));
    for page in 0u8..7 {
        assert_eq!(panel.byte_at(10, page), 0);
    }
}

#[test]
fn a_split_write_in_the_last_column_parks_the_cursor() {
    let (mut engine, mut panel) = board(0, 0);
    engine.goto_xy(191, 4);
    engine.write_data(0xFF);
    finish(&mut engine, &mut panel);
    assert_eq!(panel.byte_at(191, 0), 0xF0);
    assert_eq!(panel.byte_at(191, 1), 0x0F);
    assert_eq!(engine.cursor(), (192, 4));
}

#[test]
fn past_the_right_edge_nothing_is_written_or_read() {
    let (mut engine, mut panel) = started(0, 0);
    engine.goto_xy(191, 0);
    engine.write_data(0x11);
    finish(&mut engine, &mut panel);
    assert_eq!(engine.cursor(), (192, 0));
    let logs: Vec<Vec<u8>> = ChipSelect::iter().iter().map(|c| panel.commands(*c)).collect();
    engine.write_data(0x22);
    engine.read_data();
    finish(&mut engine, &mut panel);
    assert_eq!(engine.cursor(), (192, 0));
    assert_eq!(engine.data(), 0);
    assert_eq!(panel.byte_at(191, 0), 0x11);
    assert_eq!(panel.byte_at(0, 0), 0x00);
    let after: Vec<Vec<u8>> = ChipSelect::iter().iter().map(|c| panel.commands(*c)).collect();
    assert_eq!(logs, after);
}

#[test]
fn read_data_gives_the_byte_under_the_cursor_and_stays() {
    let (mut engine, mut panel) = board(0, 0);
    panel.place(130, 6, 0x3C);
    panel.place(131, 6, 0x99);
    engine.goto_xy(130, 50);
    engine.read_data();
    finish(&mut engine, &mut panel);
    assert_eq!(engine.data(), 0x3C);
    assert_eq!(engine.cursor(), (130, 50));
    engine.read_data();
    finish(&mut engine, &mut panel);
    assert_eq!(engine.data(), 0x3C);
    assert_eq!(panel.byte_at(130, 6), 0x3C);
    assert_eq!(panel.byte_at(131, 6), 0x99);
    assert!(panel.data_bus() == DBArduino::new(Levels::from_byte(0x42)));
}

#[test]
fn slow_controllers_are_waited_for() {
    let (mut engine, mut panel) = board(5, 0x77);
    engine.init_lcd();
    engine.set_pixels(62, 6, 66, 9, true);
    finish(&mut engine, &mut panel);
    for x in 0u8..192 {
        for y in 0u8..64 {
            let inside = (62..=66).contains(&x) && (6..=9).contains(&y);
            assert_eq!(panel.pixel(x, y), inside, "pixel {x},{y}");
        }
    }
}

#[test]
fn a_controller_busy_for_four_readings_is_read_four_times() {
    let (mut quick, mut quick_panel) = board(0, 0);
    quick.write_command(LCD_ON, ChipSelect::CHIP2);
    let few = run(&mut quick, &mut quick_panel, PLENTY);
    let (mut slow, mut slow_panel) = board(4, 0);
    slow.write_command(LCD_ON, ChipSelect::CHIP2);
    let many = run(&mut slow, &mut slow_panel, PLENTY);
    assert_eq!(many, few + 3);
    assert_eq!(quick_panel.switches(ChipSelect::CHIP2), (true, 0));
    assert_eq!(slow_panel.switches(ChipSelect::CHIP2), (true, 0));
}

#[test]
fn a_command_reaches_the_selected_controller_alone() {
    let (mut engine, mut panel) = started(0, 0);
    engine.write_command(LCD_OFF, ChipSelect::CHIP3);
    engine.write_command(0xC0 | 17, ChipSelect::CHIP1);
    finish(&mut engine, &mut panel);
    assert_eq!(panel.switches(ChipSelect::CHIP1), (true, 17));
    assert_eq!(panel.switches(ChipSelect::CHIP2), (true, 0));
    assert_eq!(panel.switches(ChipSelect::CHIP3), (false, 0));
}

#[test]
fn wait_ready_leaves_the_controller_selected_and_lets_go_of_the_bus() {
    let (mut engine, mut panel) = board(3, 0);
    engine.wait_ready(ChipSelect::CHIP2);
    finish(&mut engine, &mut panel);
    let control = panel.control_bus();
    assert!(control.only_selected(ChipSelect::CHIP2));
    assert!(control.rw && !control.rs && !control.en);
    assert_eq!(panel.data_bus(), DBArduino::new(Levels::from_byte(0xFF)));
    assert_eq!(engine.state().control_bus, control);
    assert_eq!(engine.state().data_bus, panel.data_bus());
}

#[test]
fn the_run_stops_when_its_budget_is_spent() {
    let (mut engine, mut panel) = board(0, 0);
    engine.init_lcd();
    let made = run(&mut engine, &mut panel, 100);
    assert_eq!(made, 100);
    assert!(!engine.is_idle());
    finish(&mut engine, &mut panel);
    assert_eq!(panel.switches(ChipSelect::CHIP3), (true, 0));
}

#[test]
fn tasks_are_carried_out_in_the_order_asked() {
    let (mut engine, mut panel) = started(0, 0);
    engine.set_pixels(0, 0, 10, 10, true);
    engine.set_pixels(5, 5, 15, 15, false);
    engine.set_pixel(7, 7, true);
    finish(&mut engine, &mut panel);
    assert!(panel.pixel(4, 4));
    assert!(!panel.pixel(5, 5));
    assert!(panel.pixel(7, 7));
    assert!(!panel.pixel(8, 7));
    assert!(panel.pixel(3, 10));
}
