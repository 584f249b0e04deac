//! Writing a pattern whose rows lie in two pages.
use crate::arduino::ChipSelect;
use crate::cursor::lemma_goto;
use crate::drawing::{
    column_done, lemma_blend_forms, lemma_read_merge_advance, lemma_repainted_bytes,
    lemma_write_aligned, same_switches,
};
use crate::ermc192641::{lower_part, merged, upper_part, Core, Task};
use crate::panel::{cell_index, PanelState};
use crate::plans::{lemma_chains, lemma_turns};
use crate::signal::Event;
use crate::transfer::{lemma_merge_steps, lemma_read, lemma_store_touches, repainted};
use crate::world::{effect, lemma_effect, World};
use vstd::prelude::*;

verus! {

/// Whether two panels hold the same bytes and switches.
pub open spec fn same_bytes(p: PanelState, q: PanelState) -> bool {
    &&& same_switches(p, q)
    &&& forall|col: u8, pg: u8|
        col < 192 && pg < 8 ==> #[trigger] q.byte_at(col, pg) == p.byte_at(col, pg)
}

/// Panels whose controllers show the same pictures hold the same bytes.
pub proof fn lemma_same_bytes(p: PanelState, q: PanelState)
    requires
        q.chip1.same_picture(p.chip1),
        q.chip2.same_picture(p.chip2),
        q.chip3.same_picture(p.chip3),
    ensures
        same_bytes(p, q),
{
}

proof fn lemma_next_steps(w: World, x: u8, y: u8)
    ensures
        effect(Task::Next(x, y), w) == if x < 191 {
            effect(Task::Goto((x + 1) as u8, y), w)
        } else if x == 191 && y < 64 {
            World { core: Core { x: 192, y, ..w.core }, panel: w.panel }
        } else {
            w
        },
{
    lemma_chains();
    lemma_turns(w.core, Event::Nothing);
    lemma_effect(Task::Next(x, y), w);
}

/// What a world is after the byte under the cursor was replaced while the
/// cursor stayed where it was.
pub open spec fn byte_stored(w: World, later: World, byte: u8) -> bool {
    &&& later.sound()
    &&& later.released()
    &&& later.core.x == w.core.x
    &&& later.core.y == w.core.y
    &&& later.core.pages == w.core.pages
    &&& same_switches(w.panel, later.panel)
    &&& forall|col: u8, pg: u8|
        col < 192 && pg < 8 ==> #[trigger] later.panel.byte_at(col, pg) == if col == w.core.x
            && pg == w.core.y / 8 {
            byte
        } else {
            w.panel.byte_at(col, pg)
        }
}

/// Reading the byte under the cursor and storing it back with bits set
/// and cleared: that byte changes as `merged` says and no other does.
pub proof fn lemma_read_merge(w: World, set: u8, clear: u8)
    requires
        w.sound(),
        w.placed(),
        w.core.on_display(),
    ensures
        byte_stored(
            w,
            effect(Task::Merge(set, clear), effect(Task::Read, w)),
            merged(w.panel.byte_at(w.core.x, (w.core.y / 8) as u8), set, clear),
        ),
{
    let chip = ChipSelect::at(w.core.x);
    let page = (w.core.y / 8) as u8;
    lemma_read(w);
    let w1 = effect(Task::Read, w);
    let byte = merged(w1.core.latch, set, clear);
    lemma_merge_steps(w1, set, clear);
    lemma_store_touches(w1, chip, byte);
    let w2 = effect(Task::Merge(set, clear), w1);
    assert(repainted(
        w.panel,
        w2.panel,
        chip,
        cell_index(page, (w.core.x % 64) as u8),
        byte,
    ));
    lemma_repainted_bytes(w.panel, w2.panel, w.core.x, page, byte);
}

/// What a world is after a pattern was written across two pages: the
/// byte in the page of the cursor has the lower part of the pattern added,
/// the byte in the page below has the upper part added, and no other byte
/// has changed.
pub open spec fn split_written(w: World, later: World, pattern: u8) -> bool {
    let page = (w.core.y / 8) as u8;
    let offset = (w.core.y % 8) as u8;
    &&& later.sound()
    &&& later.placed()
    &&& later.released()
    &&& later.core.x == w.core.x + 1
    &&& later.core.y == w.core.y
    &&& same_switches(w.panel, later.panel)
    &&& forall|col: u8, pg: u8|
        col < 192 && pg < 8 ==> #[trigger] later.panel.byte_at(col, pg) == if col == w.core.x
            && pg == page {
            w.panel.byte_at(col, pg) | lower_part(pattern, offset)
        } else if col == w.core.x && pg == page + 1 {
            w.panel.byte_at(col, pg) | upper_part(pattern, offset)
        } else {
            w.panel.byte_at(col, pg)
        }
}

proof fn lemma_split_steps(w: World, pattern: u8)
    requires
        w.core.on_display(),
        w.core.y % 8 != 0,
        w.core.y + 8 < 64,
    ensures
        effect(Task::Write(pattern), w) == effect(
            Task::Next(w.core.x, w.core.y),
            effect(
                Task::Merge(upper_part(pattern, w.core.y % 8), 0),
                effect(
                    Task::Read,
                    effect(
                        Task::Goto(w.core.x, (w.core.y + 8) as u8),
                        effect(
                            Task::Merge(lower_part(pattern, w.core.y % 8), 0),
                            effect(Task::Read, w),
                        ),
                    ),
                ),
            ),
        ),
{
    lemma_chains();
    lemma_turns(w.core, Event::Nothing);
    lemma_effect(Task::Write(pattern), w);
}

/// Writing a pattern in a row that is not the top of a page, with a page
/// below it.
pub proof fn lemma_write_split(w: World, pattern: u8)
    requires
        w.sound(),
        w.placed(),
        w.core.on_display(),
        w.core.y % 8 != 0,
        w.core.y + 8 < 64,
    ensures
        split_written(w, effect(Task::Write(pattern), w), pattern),
{
    let x = w.core.x;
    let y = w.core.y;
    let page = (y / 8) as u8;
    let offset = (y % 8) as u8;
    let low = lower_part(pattern, offset);
    let up = upper_part(pattern, offset);
    lemma_split_steps(w, pattern);
    lemma_read_merge(w, low, 0);
    let w2 = effect(Task::Merge(low, 0), effect(Task::Read, w));
    lemma_goto(w2, x, (y + 8) as u8);
    let w3 = effect(Task::Goto(x, (y + 8) as u8), w2);
    lemma_same_bytes(w2.panel, w3.panel);
    lemma_read_merge(w3, up, 0);
    let w5 = effect(Task::Merge(up, 0), effect(Task::Read, w3));
    lemma_next_steps(w5, x, y);
    let w6 = effect(Task::Next(x, y), w5);
    if x < 191 {
        lemma_goto(w5, (x + 1) as u8, y);
        lemma_same_bytes(w5.panel, w6.panel);
    }
    lemma_blend_forms(w.panel.byte_at(x, page), low);
    lemma_blend_forms(w.panel.byte_at(x, (page + 1) as u8), up);
}

/// Writing a pattern in a row that is not the top of a page, in the last
/// page: the byte under the cursor has the lower part of the pattern
/// added, the rest of the pattern falls off the display, and the cursor
/// moves on.
pub proof fn lemma_write_last_page(w: World, pattern: u8)
    requires
        w.sound(),
        w.placed(),
        w.core.on_display(),
        w.core.y % 8 != 0,
        w.core.y + 8 >= 64,
    ensures
        column_done(
            w,
            effect(Task::Write(pattern), w),
            w.panel.byte_at(w.core.x, (w.core.y / 8) as u8) | lower_part(
                pattern,
                (w.core.y % 8) as u8,
            ),
        ),
{
    let low = lower_part(pattern, (w.core.y % 8) as u8);
    lemma_last_page_steps(w, pattern);
    lemma_read_merge_advance(w, low, 0);
    lemma_blend_forms(w.panel.byte_at(w.core.x, (w.core.y / 8) as u8), low);
}

proof fn lemma_last_page_steps(w: World, pattern: u8)
    requires
        w.core.on_display(),
        w.core.y % 8 != 0,
        w.core.y + 8 >= 64,
    ensures
        effect(Task::Write(pattern), w) == effect(
            Task::Advance,
            effect(
                Task::Merge(lower_part(pattern, w.core.y % 8), 0),
                effect(Task::Read, w),
            ),
        ),
{
    lemma_chains();
    lemma_turns(w.core, Event::Nothing);
    lemma_effect(Task::Write(pattern), w);
}

proof fn lemma_off_display_steps(w: World, pattern: u8)
    requires
        !w.core.on_display(),
    ensures
        effect(Task::Write(pattern), w) == w,
        effect(Task::Read, w) == w.latch(0),
{
    lemma_chains();
    lemma_turns(w.core, Event::Nothing);
    lemma_effect(Task::Write(pattern), w);
    lemma_effect(Task::Read, w);
}

/// What a world is after a pattern of eight rows was written at the
/// cursor. In a row at the top of a page the byte under the cursor is the
/// pattern; in any other row the pattern is split over that byte and the
/// one below it, or loses its upper part in the last page; the cursor
/// moves on by one column and no other byte changes. With the cursor off
/// the display nothing at all changes.
pub open spec fn written(w: World, later: World, pattern: u8) -> bool {
    let page = (w.core.y / 8) as u8;
    let offset = (w.core.y % 8) as u8;
    if !w.core.on_display() {
        later == w
    } else if offset == 0 {
        column_done(w, later, pattern)
    } else if w.core.y + 8 < 64 {
        split_written(w, later, pattern)
    } else {
        column_done(w, later, w.panel.byte_at(w.core.x, page) | lower_part(pattern, offset))
    }
}

/// Writing at the cursor, in every case.
pub proof fn lemma_write(w: World, pattern: u8)
    requires
        w.sound(),
        w.placed(),
    ensures
        written(w, effect(Task::Write(pattern), w), pattern),
{
    if !w.core.on_display() {
        lemma_off_display_steps(w, pattern);
    } else if w.core.y % 8 == 0 {
        lemma_write_aligned(w, pattern);
    } else if w.core.y + 8 < 64 {
        lemma_write_split(w, pattern);
    } else {
        lemma_write_last_page(w, pattern);
    }
}

/// What a world is after the byte under the cursor was read: the engine
/// holds that byte, cursor and picture are as before, and engine and
/// controllers are in order. With the cursor off the display the byte is 0
/// and nothing else changes.
pub open spec fn read_out(w: World, later: World) -> bool {
    if w.core.on_display() {
        &&& later.sound()
        &&& later.placed()
        &&& later.released()
        &&& later.core.x == w.core.x
        &&& later.core.y == w.core.y
        &&& later.core.pages == w.core.pages
        &&& later.core.latch == w.panel.byte_at(w.core.x, (w.core.y / 8) as u8)
        &&& same_bytes(w.panel, later.panel)
    } else {
        later == w.latch(0)
    }
}

/// Reading at the cursor, in every case.
pub proof fn lemma_read_data(w: World)
    requires
        w.sound(),
        w.placed(),
    ensures
        read_out(w, effect(Task::Read, w)),
{
    if w.core.on_display() {
        lemma_read(w);
        lemma_same_bytes(w.panel, effect(Task::Read, w).panel);
    } else {
        lemma_off_display_steps(w, 0);
    }
}

} // verus!
