//! What the requests of the engine come to once the work is done.
use crate::arduino::{Arduino, ChipSelect};
use crate::dbarduino::DBArduino;
use crate::cursor::{going, gone_to, lemma_command_touches, lemma_goto};
use crate::drawing::{filled, lemma_fill, lemma_fill_empty, same_switches};
use crate::ermc192641::{pixel_tasks, ChipSelectPage, Core, Engine, Task};
use crate::panel::PanelState;
use crate::protocol::{lemma_operation, lemma_turn_out, lemma_wait_ready};
use crate::signal::Event;
use crate::split::{lemma_same_bytes, same_bytes};
use crate::startup::{brought_up, lemma_init};
use crate::stepping::{in_step, lemma_idle, lemma_scheduled};
use crate::world::{
    effect, lemma_run_below, lemma_run_concat, lemma_run_push, outcome, rank_limit, run, World,
};
use vstd::prelude::*;

verus! {

/// The engine as `Ermc192641::new` makes it.
pub open spec fn fresh_engine(dbus: DBArduino, cbus: Arduino) -> Engine {
    Engine {
        core: Core {
            control_bus: cbus,
            data_bus: dbus,
            x: 0,
            y: 0,
            pages: ChipSelectPage::unknown(),
            latch: 0,
        },
        tasks: Seq::empty(),
    }
}

/// A new engine that was given the buses as they are is in step with the
/// display module, and claims to know the page of no controller: it is in
/// order whatever the controllers hold.
pub proof fn lemma_fresh(p: PanelState)
    requires
        p.wf(),
    ensures
        in_step(fresh_engine(p.data, p.control), p, Event::Nothing),
        outcome(fresh_engine(p.data, p.control), p).sound(),
        outcome(fresh_engine(p.data, p.control), p).panel == p,
{
    lemma_idle(fresh_engine(p.data, p.control), p);
}

/// Asking for the display to be brought up: once the engine has done all
/// its work, every controller is switched on and shows its memory from
/// line 0, every pixel is clear, and the cursor stands at the origin.
pub proof fn lemma_init_lcd(e: Engine, p: PanelState)
    requires
        outcome(e, p).sound(),
    ensures
        brought_up(outcome(e.with_task(Task::Init), p)),
{
    lemma_scheduled(e, Task::Init, p);
    lemma_init(outcome(e, p));
}

/// What a world is after a rectangle was filled: every pixel of the
/// rectangle is set (`on`) or clear, every other pixel is as before, the
/// switches of the controllers are untouched, and engine and controllers
/// are in order. A rectangle whose second corner lies left of or above its
/// first holds no pixel, and nothing changes.
pub open spec fn filled_in(
    w: World,
    later: World,
    x1: u8,
    y1: u8,
    x2: u8,
    y2: u8,
    on: bool,
) -> bool {
    if x1 <= x2 && y1 <= y2 {
        &&& later.sound()
        &&& later.placed()
        &&& later.released()
        &&& filled(w.panel, later.panel, x1 as int, y1 as int, x2 as int, y2 as int, on)
    } else {
        later == w
    }
}

/// Filling a rectangle.
pub proof fn lemma_fill_rect(w: World, x1: u8, y1: u8, x2: u8, y2: u8, on: bool)
    requires
        w.sound(),
        x1 < 192,
        x2 < 192,
        y1 < 64,
        y2 < 64,
    ensures
        filled_in(w, effect(Task::Fill(x1, y1, x2, y2, on), w), x1, y1, x2, y2, on),
{
    if x1 <= x2 && y1 <= y2 {
        lemma_fill(w, x1, y1, x2, y2, on);
    } else {
        lemma_fill_empty(w, x1, y1, x2, y2, on);
    }
}

/// Asking for a rectangle to be filled: once the engine has done all its
/// work, every pixel of the rectangle is set (`on`) or clear, and every
/// other pixel is what it would have been without the request.
pub proof fn lemma_set_pixels(e: Engine, p: PanelState, x1: u8, y1: u8, x2: u8, y2: u8, on: bool)
    requires
        outcome(e, p).sound(),
        x1 <= x2 < 192,
        y1 <= y2 < 64,
    ensures
        outcome(e.with_task(Task::Fill(x1, y1, x2, y2, on)), p).sound(),
        outcome(e.with_task(Task::Fill(x1, y1, x2, y2, on)), p).released(),
        filled(
            outcome(e, p).panel,
            outcome(e.with_task(Task::Fill(x1, y1, x2, y2, on)), p).panel,
            x1 as int,
            y1 as int,
            x2 as int,
            y2 as int,
            on,
        ),
{
    lemma_scheduled(e, Task::Fill(x1, y1, x2, y2, on), p);
    lemma_fill(outcome(e, p), x1, y1, x2, y2, on);
}

/// Asking for one pixel to be set or cleared: once the engine has done
/// all its work, that pixel is as asked and every other pixel is what it
/// would have been without the request.
pub proof fn lemma_set_pixel(e: Engine, p: PanelState, x: u8, y: u8, on: bool)
    requires
        outcome(e, p).sound(),
        x < 192,
        y < 64,
    ensures
        outcome(e.with_task(Task::Fill(x, y, x, y, on)), p).sound(),
        outcome(e.with_task(Task::Fill(x, y, x, y, on)), p).panel.pixel(x, y) == on,
        forall|px: u8, py: u8|
            px < 192 && py < 64 && (px != x || py != y) ==> #[trigger] outcome(
                e.with_task(Task::Fill(x, y, x, y, on)),
                p,
            ).panel.pixel(px, py) == outcome(e, p).panel.pixel(px, py),
{
    lemma_set_pixels(e, p, x, y, x, y, on);
}

/// Filling a rectangle and then clearing it leaves every pixel of the
/// rectangle clear and every other pixel as it was: on a clear display,
/// set-then-clear restores the clear display.
pub proof fn lemma_set_then_clear(w: World, x1: u8, y1: u8, x2: u8, y2: u8)
    requires
        w.sound(),
        x1 <= x2 < 192,
        y1 <= y2 < 64,
    ensures
        filled(
            w.panel,
            effect(
                Task::Fill(x1, y1, x2, y2, false),
                effect(Task::Fill(x1, y1, x2, y2, true), w),
            ).panel,
            x1 as int,
            y1 as int,
            x2 as int,
            y2 as int,
            false,
        ),
{
    lemma_fill(w, x1, y1, x2, y2, true);
    let w1 = effect(Task::Fill(x1, y1, x2, y2, true), w);
    lemma_fill(w1, x1, y1, x2, y2, false);
}

/// What a world is after the cursor was moved to column `x` of row `y`:
/// the cursor stands there and the controller under it is addressed
/// there; the engine remembers the page for that controller; the
/// controller has taken a set-page command only if the engine did not know
/// it to be at that page, and a set-column command in any case; the
/// picture and the other controllers are untouched.
pub open spec fn went(w: World, later: World, x: u8, y: u8) -> bool {
    &&& later.sound()
    &&& later.placed()
    &&& later.released()
    &&& later.core.x == x
    &&& later.core.y == y
    &&& later.core.latch == w.core.latch
    &&& later.core.pages == w.core.pages.with(ChipSelect::at(x), (y / 8) as u8)
    &&& going(w, x, y).touched(later, ChipSelect::at(x))
    &&& later.panel.chip(ChipSelect::at(x)) == gone_to(w, x, y)
    &&& same_bytes(w.panel, later.panel)
}

/// Moving the cursor.
pub proof fn lemma_goto_xy(w: World, x: u8, y: u8)
    requires
        w.sound(),
        x < 192,
        y < 64,
    ensures
        went(w, effect(Task::Goto(x, y), w), x, y),
{
    lemma_goto(w, x, y);
    lemma_same_bytes(w.panel, effect(Task::Goto(x, y), w).panel);
}

/// What a world is after a command was sent to `chip`: that controller has
/// taken the command once it was ready, nothing else about the
/// controllers or the engine has changed, and the engine has let go of the
/// bus.
pub open spec fn commanded(w: World, later: World, chip: ChipSelect, byte: u8) -> bool {
    &&& later.wired()
    &&& later.released()
    &&& w.touched(later, chip)
    &&& later.panel.chip(chip) == w.panel.chip(chip).ready().command(byte)
}

/// Sending a command.
pub proof fn lemma_write_command(w: World, chip: ChipSelect, byte: u8)
    requires
        w.wired(),
    ensures
        commanded(w, effect(Task::Command(chip, byte), w), chip, byte),
{
    lemma_command_touches(w, chip, byte);
}

/// What a world is after `chip` was waited for: it is selected alone and
/// no longer busy, nothing else about it or the other controllers has
/// changed, and the engine has let go of the bus.
pub open spec fn attended(w: World, later: World, chip: ChipSelect) -> bool {
    &&& later.wired()
    &&& later.released()
    &&& later.panel.control.selects_only(chip)
    &&& w.touched(later, chip)
    &&& later.panel.chip(chip) == w.panel.chip(chip).ready()
}

/// Waiting for a controller.
pub proof fn lemma_wait_ready_done(w: World, chip: ChipSelect)
    requires
        w.wired(),
    ensures
        attended(w, effect(Task::TurnOut, effect(Task::WaitReady(chip), w)), chip),
{
    lemma_wait_ready(w, chip);
    let w1 = effect(Task::WaitReady(chip), w);
    lemma_operation(Task::TurnOut, w1);
    lemma_turn_out(w1);
}

/// The colour of the pixel in column `px` and row `py` after a list of
/// pixels was drawn: the colour of the last entry of the list for that
/// place, or `before` where the list has none.
pub open spec fn colour_after(pixels: Seq<(i32, i32, bool)>, px: u8, py: u8, before: bool) -> bool
    decreases pixels.len(),
{
    if pixels.len() == 0 {
        before
    } else if pixels.last().0 == px && pixels.last().1 == py {
        pixels.last().2
    } else {
        colour_after(pixels.drop_last(), px, py, before)
    }
}

/// What a world is after a list of pixels was drawn: every pixel of the
/// display has the colour of the last entry for its place, or its old
/// colour where there is none. Entries off the display change nothing.
pub open spec fn painted(w: World, later: World, pixels: Seq<(i32, i32, bool)>) -> bool {
    &&& later.sound()
    &&& same_switches(w.panel, later.panel)
    &&& forall|px: u8, py: u8|
        px < 192 && py < 64 ==> #[trigger] later.panel.pixel(px, py) == colour_after(
            pixels,
            px,
            py,
            w.panel.pixel(px, py),
        )
}

/// Drawing a list of pixels.
pub proof fn lemma_draw_iter(w: World, pixels: Seq<(i32, i32, bool)>)
    requires
        w.sound(),
    ensures
        painted(w, run(pixel_tasks(pixels), w), pixels),
    decreases pixels.len(),
{
    if pixels.len() == 0 {
        lemma_run_below(rank_limit(), Seq::empty(), w);
    } else {
        let before = pixels.drop_last();
        let (x, y, on) = pixels.last();
        lemma_draw_iter(w, before);
        let w1 = run(pixel_tasks(before), w);
        if 0 <= x < 192 && 0 <= y < 64 {
            let task = Task::Fill(x as u8, y as u8, x as u8, y as u8, on);
            lemma_run_push(pixel_tasks(before), task, w);
            lemma_fill(w1, x as u8, y as u8, x as u8, y as u8, on);
        }
    }
}

/// Work asked of an engine that has work left is carried out after that
/// work.
pub proof fn lemma_appended(e: Engine, tasks: Seq<Task>, p: PanelState)
    ensures
        outcome(Engine { tasks: e.tasks + tasks, ..e }, p) == run(tasks, outcome(e, p)),
{
    lemma_run_concat(rank_limit(), e.tasks, tasks, World { core: e.core, panel: p });
}

} // verus!
