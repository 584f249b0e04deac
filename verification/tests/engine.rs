use ermc192641::arduino::{Arduino, ChipSelect};
use ermc192641::dbarduino::DBArduino;
use ermc192641::ermc192641::{ChipSelectPage, Core, Ermc192641, Task};
use ermc192641::signal::{Action, Event, Levels, Line};

fn engine() -> Ermc192641 {
    let (control, _) = Arduino::new();
    Ermc192641::new(DBArduino::new(Levels::from_byte(0)), control)
}

fn listen() -> Vec<Action> {
    vec![
        Action::PullUp(Line::DB0),
        Action::PullUp(Line::DB1),
        Action::PullUp(Line::DB2),
        Action::PullUp(Line::DB3),
        Action::PullUp(Line::DB4),
        Action::PullUp(Line::DB5),
        Action::PullUp(Line::DB6),
        Action::PullUp(Line::DB7),
    ]
}

fn put(byte: u8) -> Vec<Action> {
    let lines = [
        Line::DB0,
        Line::DB1,
        Line::DB2,
        Line::DB3,
        Line::DB4,
        Line::DB5,
        Line::DB6,
        Line::DB7,
    ];
    let mut burst: Vec<Action> = lines.iter().map(|l| Action::Output(*l)).collect();
    for (i, line) in lines.iter().enumerate() {
        burst.push(Action::Drive(*line, (byte >> i) & 1 == 1));
    }
    burst
}

/// The bursts of an engine whose board reports every controller ready at
/// once, steps that hand nothing to the board left out.
fn trace(engine: &mut Ermc192641) -> Vec<Vec<Action>> {
    let mut bursts = Vec::new();
    let mut event = Event::Nothing;
    while !engine.is_idle() {
        let burst = engine.step(event);
        event = match burst.last() {
            Some(Action::SampleReady) => Event::Level(false),
            Some(Action::Sample) => Event::Levels(Levels::from_byte(0x5A)),
            _ => Event::Nothing,
        };
        if !burst.is_empty() {
            bursts.push(burst);
        }
    }
    bursts
}

fn turn_out() -> Vec<Action> {
    vec![
        Action::Output(Line::DB0),
        Action::Output(Line::DB1),
        Action::Output(Line::DB2),
        Action::Output(Line::DB3),
        Action::Output(Line::DB4),
        Action::Output(Line::DB5),
        Action::Output(Line::DB6),
        Action::Output(Line::DB7),
    ]
}

fn poll() -> Vec<Action> {
    let mut burst = listen();
    burst.push(Action::SampleReady);
    burst
}

fn wait_ready(line: Line) -> Vec<Vec<Action>> {
    vec![
        listen(),
        vec![
            Action::Drive(Line::CS1, true),
            Action::Drive(Line::CS2, true),
            Action::Drive(Line::CS3, true),
        ],
        vec![Action::Drive(line, false)],
        vec![Action::Drive(Line::RW, true), Action::Drive(Line::RS, false)],
        vec![Action::DelayUs(1)],
        vec![Action::Drive(Line::EN, true)],
        vec![Action::DelayUs(5)],
        poll(),
        vec![Action::Drive(Line::EN, false)],
    ]
}

fn send(line: Line, data: bool, byte: u8) -> Vec<Vec<Action>> {
    let mut bursts = wait_ready(line);
    bursts.extend(vec![
        vec![Action::Drive(Line::RW, false), Action::Drive(Line::RS, data)],
        put(byte),
        vec![Action::DelayUs(1)],
        vec![Action::Drive(Line::EN, true)],
        vec![Action::DelayUs(5)],
        vec![Action::Drive(Line::EN, false)],
        vec![Action::DelayUs(5)],
    ]);
    bursts
}

#[test]
fn a_new_engine_is_idle_at_the_origin() {
    let mut e = engine();
    assert!(e.is_idle());
    assert_eq!(e.cursor(), (0, 0));
    assert_eq!(e.data(), 0);
    let (control, _) = Arduino::new();
    assert_eq!(
        e.state(),
        Core {
            control_bus: control,
            data_bus: DBArduino::new(Levels::from_byte(0)),
            x: 0,
            y: 0,
            pages: ChipSelectPage { page1: None, page2: None, page3: None },
            latch: 0,
        }
    );
    assert_eq!(e.step(Event::Nothing), Vec::<Action>::new());
    assert_eq!(e.step(Event::Level(true)), Vec::<Action>::new());
    assert!(e.is_idle());
}

#[test]
fn the_page_record_is_kept_by_controller() {
    let mut pages = ChipSelectPage { page1: None, page2: None, page3: None };
    pages.index_mut(ChipSelect::CHIP2, 5);
    assert_eq!(pages.index(ChipSelect::CHIP1), None);
    assert_eq!(pages.index(ChipSelect::CHIP2), Some(5));
    assert_eq!(pages.index(ChipSelect::CHIP3), None);
    pages.index_mut(ChipSelect::CHIP3, 7);
    pages.index_mut(ChipSelect::CHIP2, 0);
    assert_eq!(pages, ChipSelectPage { page1: None, page2: Some(0), page3: Some(7) });
}

#[test]
fn wait_ready_follows_the_handshake() {
    let mut e = engine();
    e.wait_ready(ChipSelect::CHIP2);
    let mut expected = wait_ready(Line::CS2);
    expected.push(turn_out());
    assert_eq!(trace(&mut e), expected);
}

#[test]
fn a_busy_controller_is_asked_again() {
    let mut e = engine();
    e.wait_ready(ChipSelect::CHIP1);
    let mut event = Event::Nothing;
    let mut polls = 0;
    let mut answers = vec![true, true, true, false];
    let mut last = Vec::new();
    while !e.is_idle() {
        let burst = e.step(event);
        event = Event::Nothing;
        if burst.last() == Some(&Action::SampleReady) {
            assert_eq!(burst, poll());
            polls += 1;
            event = Event::Level(answers.remove(0));
        }
        if !burst.is_empty() {
            last = burst;
        }
    }
    assert_eq!(polls, 4);
    assert_eq!(last, turn_out());
}

#[test]
fn a_report_of_the_wrong_kind_is_asked_for_again() {
    let mut e = engine();
    e.wait_ready(ChipSelect::CHIP1);
    let mut event = Event::Nothing;
    let mut handed = vec![Event::Nothing, Event::Levels(Levels::from_byte(0)), Event::Level(false)];
    let mut polls = 0;
    while !e.is_idle() {
        let burst = e.step(event);
        event = Event::Nothing;
        if burst.last() == Some(&Action::SampleReady) {
            polls += 1;
            event = handed.remove(0);
        }
    }
    assert_eq!(polls, 3);
}

#[test]
fn a_command_is_strobed_with_its_timing() {
    let mut e = engine();
    e.write_command(0x3F, ChipSelect::CHIP3);
    assert_eq!(trace(&mut e), send(Line::CS3, false, 0x3F));
    assert!(e.state().data_bus == DBArduino::new(Levels::from_byte(0x3F)));
}

#[test]
fn goto_sends_the_page_once_and_the_column_always() {
    let mut e = engine();
    e.goto_xy(70, 21);
    let mut expected = send(Line::CS2, false, 0xBA);
    expected.extend(send(Line::CS2, false, 0x46));
    assert_eq!(trace(&mut e), expected);
    assert_eq!(e.cursor(), (70, 21));
    assert_eq!(e.state().pages.index(ChipSelect::CHIP2), Some(2));
    e.goto_xy(71, 23);
    assert_eq!(trace(&mut e), send(Line::CS2, false, 0x47));
    e.goto_xy(71, 24);
    let mut expected = send(Line::CS2, false, 0xBB);
    expected.extend(send(Line::CS2, false, 0x47));
    assert_eq!(trace(&mut e), expected);
}

#[test]
fn a_write_in_a_page_row_stores_and_counts_on() {
    let mut e = engine();
    e.goto_xy(10, 16);
    trace(&mut e);
    e.write_data(0xC3);
    assert_eq!(trace(&mut e), send(Line::CS1, true, 0xC3));
    assert_eq!(e.cursor(), (11, 16));
}

#[test]
fn a_write_into_the_next_slice_addresses_its_column_zero() {
    let mut e = engine();
    e.goto_xy(127, 0);
    trace(&mut e);
    e.write_data(0x01);
    let mut expected = send(Line::CS2, true, 0x01);
    expected.extend(send(Line::CS3, false, 0xB8));
    expected.extend(send(Line::CS3, false, 0x40));
    assert_eq!(trace(&mut e), expected);
    assert_eq!(e.cursor(), (128, 0));
}

#[test]
fn a_read_primes_reads_and_addresses_again() {
    let mut e = engine();
    e.goto_xy(3, 0);
    trace(&mut e);
    e.read_data();
    let mut capture = listen();
    capture.push(Action::Sample);
    let mut expected = wait_ready(Line::CS1);
    expected.extend(vec![
        vec![Action::Drive(Line::RW, true), Action::Drive(Line::RS, true)],
        vec![Action::DelayUs(1)],
        vec![Action::Drive(Line::EN, true)],
        vec![Action::DelayUs(5)],
        vec![Action::Drive(Line::EN, false)],
        vec![Action::DelayUs(5)],
    ]);
    expected.extend(wait_ready(Line::CS1));
    expected.extend(vec![
        vec![Action::Drive(Line::RW, true), Action::Drive(Line::RS, true)],
        vec![Action::DelayUs(1)],
        vec![Action::Drive(Line::EN, true)],
        vec![Action::DelayUs(5)],
        capture,
        vec![Action::Drive(Line::EN, false)],
        vec![Action::DelayUs(5)],
        turn_out(),
    ]);
    expected.extend(send(Line::CS1, false, 0x43));
    assert_eq!(trace(&mut e), expected);
    assert_eq!(e.data(), 0x5A);
    assert_eq!(e.cursor(), (3, 0));
}

#[test]
fn init_starts_with_the_bus_at_rest_and_the_power_up_time() {
    let mut e = engine();
    e.init_lcd();
    let bursts = trace(&mut e);
    assert_eq!(
        bursts[0],
        vec![
            Action::Drive(Line::CS1, true),
            Action::Drive(Line::CS2, true),
            Action::Drive(Line::CS3, true),
        ]
    );
    assert_eq!(bursts[1], vec![Action::Drive(Line::EN, false)]);
    assert_eq!(bursts[2], vec![Action::Drive(Line::RW, false), Action::Drive(Line::RS, false)]);
    assert_eq!(bursts[3], vec![Action::DelayMs(50)]);
    let on = send(Line::CS1, false, 0x3F);
    assert_eq!(bursts[4..4 + on.len()], on[..]);
    assert_eq!(e.cursor(), (0, 0));
    assert!(e.is_idle());
}

#[test]
fn taking_a_task_up_gives_its_plan() {
    let mut e = engine().state();
    let (plan, burst) = e.take(Task::Band(2, 0x0F, true), Event::Nothing);
    assert_eq!(plan, vec![Task::Column(0x0F, true), Task::Band(1, 0x0F, true)]);
    assert!(burst.is_empty());
    let (plan, _) = e.take(Task::Band(0, 0x0F, true), Event::Nothing);
    assert!(plan.is_empty());
    let (plan, _) = e.take(Task::Fill(3, 5, 9, 20, false), Event::Nothing);
    assert_eq!(
        plan,
        vec![Task::Goto(3, 0), Task::Band(7, 0xE0, false), Task::Fill(3, 8, 9, 20, false)]
    );
    let (plan, _) = e.take(Task::Fill(3, 17, 9, 20, true), Event::Nothing);
    assert_eq!(plan, vec![Task::Goto(3, 16), Task::Band(7, 0x1E, true)]);
    let (plan, _) = e.take(Task::Fill(9, 17, 3, 20, true), Event::Nothing);
    assert!(plan.is_empty());
    let (plan, _) = e.take(Task::Column(0xFF, false), Event::Nothing);
    assert_eq!(plan, vec![Task::Write(0x00)]);
    let (plan, _) = e.take(Task::Column(0x18, false), Event::Nothing);
    assert_eq!(plan, vec![Task::Read, Task::Merge(0, 0x18), Task::Advance]);
    e.latch = 0b1010_1010;
    let (plan, _) = e.take(Task::Merge(0b0000_1111, 0b1000_0001), Event::Nothing);
    assert_eq!(plan, vec![Task::Store(ChipSelect::CHIP1, 0b0010_1110)]);
}

#[test]
fn a_goto_off_the_display_is_not_taken_up() {
    let mut e = engine().state();
    let before = e;
    let (plan, burst) = e.take(Task::Goto(192, 0), Event::Nothing);
    assert!(plan.is_empty() && burst.is_empty());
    let (plan, _) = e.take(Task::Goto(0, 64), Event::Nothing);
    assert!(plan.is_empty());
    assert_eq!(e, before);
}
