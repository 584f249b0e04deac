//! Columns, bands and rectangles: what filling does to the picture.
use crate::arduino::ChipSelect;
use crate::constants::{PIXEL_OFF, PIXEL_ON};
use crate::cursor::lemma_goto;
use crate::ermc192641::{column_command, lower_part, merged, rows_mask, upper_part, Task};
use crate::panel::{cell_index, PanelState};
use crate::plans::{lemma_chains, lemma_turns};
use crate::signal::{bit, Event};
use crate::transfer::{lemma_advance, lemma_merge_steps, lemma_read, lemma_store_touches, repainted};
use crate::world::{effect, lemma_effect, World};
use vstd::prelude::*;

verus! {

/// A byte with the bits of `mask` set (`on`) or cleared.
pub open spec fn blend(byte: u8, mask: u8, on: bool) -> u8 {
    if on {
        byte | mask
    } else {
        byte & !mask
    }
}

/// Blending changes the bits of the mask and no others.
pub proof fn lemma_blend_bits(byte: u8, mask: u8, on: bool, row: u8)
    requires
        row < 8,
    ensures
        bit(blend(byte, mask, on), row) == if bit(mask, row) {
            on
        } else {
            bit(byte, row)
        },
{
    assert(((byte | mask) >> row) & 1 == if (mask >> row) & 1 == 1 {
        1u8
    } else {
        (byte >> row) & 1
    }) by (bit_vector)
        requires
            row < 8,
    ;
    assert(((byte & !mask) >> row) & 1 == if (mask >> row) & 1 == 1 {
        0u8
    } else {
        (byte >> row) & 1
    }) by (bit_vector)
        requires
            row < 8,
    ;
}

/// The mask of the rows `first` to `last` has exactly those bits set.
pub proof fn lemma_rows_mask(first: u8, last: u8, row: u8)
    requires
        first <= last < 8,
        row < 8,
    ensures
        bit(rows_mask(first, last), row) == (first <= row <= last),
{
    let shift: u8 = (7 - last + first) as u8;
    assert((((0xFFu8 >> shift) << first) >> row) & 1 == 1 <==> first <= row <= last)
        by (bit_vector)
        requires
            first <= last < 8,
            row < 8,
            shift == 7 - last + first,
    ;
}

/// What merging and writing a colour byte come to, as blends.
pub proof fn lemma_blend_forms(byte: u8, mask: u8)
    ensures
        merged(byte, mask, 0) == blend(byte, mask, true),
        merged(byte, 0, mask) == blend(byte, mask, false),
        PIXEL_ON == blend(byte, 0xFF, true),
        PIXEL_OFF == blend(byte, 0xFF, false),
{
    assert((byte | mask) & !0u8 == byte | mask) by (bit_vector);
    assert((byte | 0u8) & !mask == byte & !mask) by (bit_vector);
    assert(0xFFu8 == byte | 0xFFu8) by (bit_vector);
    assert(0x00u8 == byte & !0xFFu8) by (bit_vector);
}

proof fn lemma_write_steps(w: World, pattern: u8)
    ensures
        !w.core.on_display() ==> effect(Task::Write(pattern), w) == w,
        w.core.on_display() && w.core.y % 8 == 0 ==> effect(Task::Write(pattern), w) == effect(
            Task::Advance,
            effect(Task::Store(ChipSelect::at(w.core.x), pattern), w),
        ),
        w.core.on_display() && w.core.y % 8 != 0 && w.core.y + 8 >= 64 ==> effect(
            Task::Write(pattern),
            w,
        ) == effect(
            Task::Advance,
            effect(
                Task::Merge(lower_part(pattern, w.core.y % 8), 0),
                effect(Task::Read, w),
            ),
        ),
        w.core.on_display() && w.core.y % 8 != 0 && w.core.y + 8 < 64 ==> effect(
            Task::Write(pattern),
            w,
        ) == effect(
            Task::Next(w.core.x, w.core.y),
            effect(
                Task::Merge(upper_part(pattern, w.core.y % 8), 0),
                effect(
                    Task::Read,
                    effect(
                        Task::Goto(w.core.x, (w.core.y + 8) as u8),
                        effect(
                            Task::Merge(lower_part(pattern, w.core.y % 8), 0),
                            effect(Task::Read, w),
                        ),
                    ),
                ),
            ),
        ),
{
    lemma_chains();
    lemma_turns(w.core, Event::Nothing);
    lemma_effect(Task::Write(pattern), w);
}

/// What a world is after one byte of the column under the cursor was
/// replaced and the cursor moved on: the engine and the controllers are in
/// order, the cursor stands one column further in the same row, and the
/// picture differs in that one byte alone.
pub open spec fn column_done(w: World, later: World, byte: u8) -> bool {
    &&& later.sound()
    &&& later.placed()
    &&& later.released()
    &&& later.core.x == w.core.x + 1
    &&& later.core.y == w.core.y
    &&& repainted(
        w.panel,
        later.panel,
        ChipSelect::at(w.core.x),
        cell_index((w.core.y / 8) as u8, (w.core.x % 64) as u8),
        byte,
    )
}

/// Writing a byte in a row at the top of a page: the byte under the cursor
/// is the byte written, and the cursor has moved on.
pub proof fn lemma_write_aligned(w: World, pattern: u8)
    requires
        w.sound(),
        w.placed(),
        w.core.on_display(),
        w.core.y % 8 == 0,
    ensures
        column_done(w, effect(Task::Write(pattern), w), pattern),
        effect(Task::Write(pattern), w).core.latch == w.core.latch,
        w.core.x + 1 < 192 && (w.core.x + 1) % 64 == 0 ==> effect(
            Task::Write(pattern),
            w,
        ).panel.chip(ChipSelect::at((w.core.x + 1) as u8)).log.last() == column_command(0),
{
    let chip = ChipSelect::at(w.core.x);
    lemma_write_steps(w, pattern);
    lemma_store_touches(w, chip, pattern);
    let w1 = effect(Task::Store(chip, pattern), w);
    lemma_advance(w, w1, pattern);
}

/// Reading the byte under the cursor, storing it with bits set and
/// cleared, and moving on.
pub proof fn lemma_read_merge_advance(w: World, set: u8, clear: u8)
    requires
        w.sound(),
        w.placed(),
        w.core.on_display(),
    ensures
        column_done(
            w,
            effect(Task::Advance, effect(Task::Merge(set, clear), effect(Task::Read, w))),
            merged(w.panel.byte_at(w.core.x, (w.core.y / 8) as u8), set, clear),
        ),
{
    let chip = ChipSelect::at(w.core.x);
    lemma_read(w);
    let w1 = effect(Task::Read, w);
    let byte = merged(w1.core.latch, set, clear);
    lemma_merge_steps(w1, set, clear);
    lemma_store_touches(w1, chip, byte);
    let w2 = effect(Task::Merge(set, clear), w1);
    lemma_advance(w1, w2, byte);
}

proof fn lemma_column_steps(w: World, mask: u8, on: bool)
    ensures
        effect(Task::Column(mask, on), w) == if mask == 0xFF {
            effect(Task::Write(if on { PIXEL_ON } else { PIXEL_OFF }), w)
        } else if on {
            effect(Task::Advance, effect(Task::Merge(mask, 0), effect(Task::Read, w)))
        } else {
            effect(Task::Advance, effect(Task::Merge(0, mask), effect(Task::Read, w)))
        },
{
    lemma_chains();
    lemma_turns(w.core, Event::Nothing);
    lemma_effect(Task::Column(mask, on), w);
}

/// Setting or clearing the rows of a mask in the column under the cursor,
/// in a row at the top of a page: the byte under the cursor has the bits
/// of the mask set or cleared and its other bits as before, and the cursor
/// has moved on.
pub proof fn lemma_column(w: World, mask: u8, on: bool)
    requires
        w.sound(),
        w.placed(),
        w.core.on_display(),
        w.core.y % 8 == 0,
    ensures
        column_done(
            w,
            effect(Task::Column(mask, on), w),
            blend(w.panel.byte_at(w.core.x, (w.core.y / 8) as u8), mask, on),
        ),
{
    let before = w.panel.byte_at(w.core.x, (w.core.y / 8) as u8);
    lemma_column_steps(w, mask, on);
    lemma_blend_forms(before, mask);
    if mask == 0xFF {
        lemma_write_aligned(w, if on { PIXEL_ON } else { PIXEL_OFF });
    } else if on {
        lemma_read_merge_advance(w, mask, 0);
    } else {
        lemma_read_merge_advance(w, 0, mask);
    }
}

/// Whether two panels agree in everything but the picture: each
/// controller is switched on or off as before and counts from the same
/// start line.
pub open spec fn same_switches(p: PanelState, q: PanelState) -> bool {
    &&& q.chip1.on == p.chip1.on && q.chip1.start_line == p.chip1.start_line && q.chip1.lag
        == p.chip1.lag
    &&& q.chip2.on == p.chip2.on && q.chip2.start_line == p.chip2.start_line && q.chip2.lag
        == p.chip2.lag
    &&& q.chip3.on == p.chip3.on && q.chip3.start_line == p.chip3.start_line && q.chip3.lag
        == p.chip3.lag
}

/// Whether `q` shows what `p` shows but for the `n` bytes of page `page`
/// from column `x` on, each of which has the bits of `mask` set or cleared.
pub open spec fn band_done(
    p: PanelState,
    q: PanelState,
    x: int,
    n: int,
    page: u8,
    mask: u8,
    on: bool,
) -> bool {
    &&& same_switches(p, q)
    &&& forall|col: u8, pg: u8|
        col < 192 && pg < 8 ==> #[trigger] q.byte_at(col, pg) == if pg == page && x <= col < x
            + n {
            blend(p.byte_at(col, pg), mask, on)
        } else {
            p.byte_at(col, pg)
        }
}

/// A panel whose memory differs in one place differs in the byte of one
/// column and one page.
pub proof fn lemma_repainted_bytes(p: PanelState, q: PanelState, x: u8, page: u8, byte: u8)
    requires
        p.wf(),
        x < 192,
        page < 8,
        repainted(p, q, ChipSelect::at(x), cell_index(page, (x % 64) as u8), byte),
    ensures
        same_switches(p, q),
        forall|col: u8, pg: u8|
            col < 192 && pg < 8 ==> #[trigger] q.byte_at(col, pg) == if col == x && pg == page {
                byte
            } else {
                p.byte_at(col, pg)
            },
{
    assert forall|col: u8, pg: u8| col < 192 && pg < 8 implies #[trigger] q.byte_at(col, pg)
        == if col == x && pg == page {
        byte
    } else {
        p.byte_at(col, pg)
    } by {
        let c = ChipSelect::at(col);
        let i = cell_index(pg, (col % 64) as u8);
        let j = cell_index(page, (x % 64) as u8);
        assert(0 <= i < 512 && 0 <= j < 512);
        if c == ChipSelect::at(x) {
            assert(q.chip(c).cells == p.chip(c).cells.update(j, byte));
            if col == x && pg == page {
            } else {
                assert(i != j);
            }
        } else {
            assert(q.chip(c).cells == p.chip(c).cells);
        }
    }
}

proof fn lemma_band_steps(w: World, n: u8, mask: u8, on: bool)
    ensures
        effect(Task::Band(n, mask, on), w) == if n == 0 {
            w
        } else {
            effect(Task::Band((n - 1) as u8, mask, on), effect(Task::Column(mask, on), w))
        },
{
    lemma_chains();
    lemma_turns(w.core, Event::Nothing);
    lemma_effect(Task::Band(n, mask, on), w);
}

/// What a world is after a band was drawn from the cursor to the right.
pub open spec fn band_drawn(w: World, later: World, n: u8, mask: u8, on: bool) -> bool {
    &&& later.sound()
    &&& later.placed()
    &&& later.released()
    &&& later.core.x == w.core.x + n
    &&& later.core.y == w.core.y
    &&& band_done(w.panel, later.panel, w.core.x as int, n as int, (w.core.y / 8) as u8, mask, on)
}

/// Setting or clearing the rows of a mask in `n` columns from the cursor
/// to the right, in a row at the top of a page: each of those bytes has
/// the bits of the mask set or cleared and its other bits as before, no
/// other byte has changed, and the cursor stands behind the last column.
pub proof fn lemma_band(w: World, n: u8, mask: u8, on: bool)
    requires
        w.sound(),
        w.placed(),
        w.released(),
        w.core.y < 64,
        w.core.y % 8 == 0,
        w.core.x + n <= 192,
    ensures
        band_drawn(w, effect(Task::Band(n, mask, on), w), n, mask, on),
    decreases n,
{
    lemma_band_steps(w, n, mask, on);
    if n > 0 {
        let page = (w.core.y / 8) as u8;
        let byte = blend(w.panel.byte_at(w.core.x, page), mask, on);
        lemma_column(w, mask, on);
        let w1 = effect(Task::Column(mask, on), w);
        lemma_repainted_bytes(w.panel, w1.panel, w.core.x, page, byte);
        lemma_band(w1, (n - 1) as u8, mask, on);
    }
}

/// Whether `q` shows what `p` shows but for the pixels of the rectangle
/// from column `x1` to `x2` and row `y1` to `y2`, which are all set (`on`)
/// or all clear.
pub open spec fn filled(
    p: PanelState,
    q: PanelState,
    x1: int,
    y1: int,
    x2: int,
    y2: int,
    on: bool,
) -> bool {
    &&& same_switches(p, q)
    &&& forall|px: u8, py: u8|
        px < 192 && py < 64 ==> #[trigger] q.pixel(px, py) == if x1 <= px <= x2 && y1 <= py
            <= y2 {
            on
        } else {
            p.pixel(px, py)
        }
}

/// A band drawn with the mask of some rows sets or clears the pixels of
/// those rows in its columns and no others.
pub proof fn lemma_band_pixels(
    p: PanelState,
    q: PanelState,
    x: int,
    n: int,
    page: u8,
    first: u8,
    last: u8,
    on: bool,
)
    requires
        first <= last < 8,
        page < 8,
        band_done(p, q, x, n, page, rows_mask(first, last), on),
    ensures
        filled(p, q, x, 8 * page + first, x + n - 1, 8 * page + last, on),
{
    let mask = rows_mask(first, last);
    assert forall|px: u8, py: u8| px < 192 && py < 64 implies #[trigger] q.pixel(px, py) == if x
        <= px <= x + n - 1 && 8 * page + first <= py <= 8 * page + last {
        on
    } else {
        p.pixel(px, py)
    } by {
        let pg = (py / 8) as u8;
        let row = (py % 8) as u8;
        let after = q.byte_at(px, pg);
        let before = p.byte_at(px, pg);
        lemma_blend_bits(before, mask, on, row);
        lemma_rows_mask(first, last, row);
        assert(q.pixel(px, py) == bit(after, row));
        assert(p.pixel(px, py) == bit(before, row));
    }
}

/// Moving the cursor changes no picture.
pub proof fn lemma_goto_picture(w: World, x: u8, y: u8)
    requires
        w.sound(),
        x < 192,
        y < 64,
    ensures
        effect(Task::Goto(x, y), w).sound(),
        effect(Task::Goto(x, y), w).placed(),
        effect(Task::Goto(x, y), w).released(),
        effect(Task::Goto(x, y), w).core.x == x,
        effect(Task::Goto(x, y), w).core.y == y,
        effect(Task::Goto(x, y), w).core.latch == w.core.latch,
        effect(Task::Goto(x, y), w).panel.chip1.same_picture(w.panel.chip1),
        effect(Task::Goto(x, y), w).panel.chip2.same_picture(w.panel.chip2),
        effect(Task::Goto(x, y), w).panel.chip3.same_picture(w.panel.chip3),
        filled(w.panel, effect(Task::Goto(x, y), w).panel, 0, 0, -1, -1, true),
{
    lemma_goto(w, x, y);
}

proof fn lemma_fill_steps(w: World, x1: u8, y1: u8, x2: u8, y2: u8, on: bool)
    ensures
        effect(Task::Fill(x1, y1, x2, y2, on), w) == if x1 <= x2 < 192 && y1 <= y2 < 64 {
            let first = (y1 % 8) as u8;
            let top = (y1 - first) as u8;
            let last = if y2 - top < 7 {
                (y2 - top) as u8
            } else {
                7u8
            };
            let band = effect(
                Task::Band((x2 - x1 + 1) as u8, rows_mask(first, last), on),
                effect(Task::Goto(x1, top), w),
            );
            if y2 - top > 7 {
                effect(Task::Fill(x1, (top + 8) as u8, x2, y2, on), band)
            } else {
                band
            }
        } else {
            w
        },
{
    lemma_chains();
    lemma_turns(w.core, Event::Nothing);
    lemma_effect(Task::Fill(x1, y1, x2, y2, on), w);
}

/// A rectangle whose corners are out of order, or off the display, holds
/// no pixel: filling it does nothing.
pub proof fn lemma_fill_empty(w: World, x1: u8, y1: u8, x2: u8, y2: u8, on: bool)
    requires
        !(x1 <= x2 < 192 && y1 <= y2 < 64),
    ensures
        effect(Task::Fill(x1, y1, x2, y2, on), w) == w,
{
    lemma_fill_steps(w, x1, y1, x2, y2, on);
}

/// Filling a rectangle: every pixel in it is set (`on`) or clear, every
/// pixel outside it is as before, and engine and controllers are in order.
pub proof fn lemma_fill(w: World, x1: u8, y1: u8, x2: u8, y2: u8, on: bool)
    requires
        w.sound(),
        x1 <= x2 < 192,
        y1 <= y2 < 64,
    ensures
        effect(Task::Fill(x1, y1, x2, y2, on), w).sound(),
        effect(Task::Fill(x1, y1, x2, y2, on), w).placed(),
        effect(Task::Fill(x1, y1, x2, y2, on), w).released(),
        filled(
            w.panel,
            effect(Task::Fill(x1, y1, x2, y2, on), w).panel,
            x1 as int,
            y1 as int,
            x2 as int,
            y2 as int,
            on,
        ),
    decreases 64 - y1,
{
    lemma_fill_steps(w, x1, y1, x2, y2, on);
    let first = (y1 % 8) as u8;
    let top = (y1 - first) as u8;
    let page = (top / 8) as u8;
    let last = if y2 - top < 7 {
        (y2 - top) as u8
    } else {
        7u8
    };
    let n = (x2 - x1 + 1) as u8;
    let mask = rows_mask(first, last);
    lemma_goto_picture(w, x1, top);
    let w1 = effect(Task::Goto(x1, top), w);
    lemma_band(w1, n, mask, on);
    let w2 = effect(Task::Band(n, mask, on), w1);
    lemma_band_pixels(w1.panel, w2.panel, x1 as int, n as int, page, first, last, on);
    assert(8 * page + first == y1);
    if y2 - top > 7 {
        lemma_fill(w2, x1, (top + 8) as u8, x2, y2, on);
    }
}

} // verus!
