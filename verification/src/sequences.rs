//! Sequences of moves and of writes.
use crate::arduino::ChipSelect;
use crate::cursor::{lemma_address_commands, lemma_goto};
use crate::drawing::{lemma_repainted_bytes, lemma_write_aligned, same_switches};
use crate::ermc192641::Task;
use crate::world::{lemma_run_below, lemma_run_push, rank_limit, run, World};
use vstd::prelude::*;

verus! {

/// One move of the cursor for each coordinate of a list, in order.
pub open spec fn goto_tasks(places: Seq<(u8, u8)>) -> Seq<Task>
    decreases places.len(),
{
    if places.len() == 0 {
        Seq::empty()
    } else {
        goto_tasks(places.drop_last()).push(Task::Goto(places.last().0, places.last().1))
    }
}

/// The page of the last coordinate of a list that lies in the slice of
/// `chip`, or `known` where none does.
pub open spec fn last_page(places: Seq<(u8, u8)>, chip: ChipSelect, known: Option<u8>) -> Option<
    u8,
>
    decreases places.len(),
{
    if places.len() == 0 {
        known
    } else if ChipSelect::at(places.last().0) == chip {
        Some((places.last().1 / 8) as u8)
    } else {
        last_page(places.drop_last(), chip, known)
    }
}

/// How often, going through a list of coordinates, the page of `chip`
/// changes: once for every coordinate in its slice whose page is not the
/// page of the coordinate in its slice before, or not `known` where there
/// is none before.
pub open spec fn page_changes(places: Seq<(u8, u8)>, chip: ChipSelect, known: Option<u8>) -> nat
    decreases places.len(),
{
    if places.len() == 0 {
        0
    } else {
        let before = places.drop_last();
        let here = places.last();
        if ChipSelect::at(here.0) == chip && last_page(before, chip, known) != Some(
            (here.1 / 8) as u8,
        ) {
            page_changes(before, chip, known) + 1
        } else {
            page_changes(before, chip, known)
        }
    }
}

/// Whether a command byte is a set-page command.
pub open spec fn sets_page(byte: u8) -> bool {
    0xB8 <= byte < 0xC0
}

/// The number of set-page commands in a record of commands.
pub open spec fn page_commands(log: Seq<u8>) -> nat
    decreases log.len(),
{
    if log.len() == 0 {
        0
    } else if sets_page(log.last()) {
        page_commands(log.drop_last()) + 1
    } else {
        page_commands(log.drop_last())
    }
}

/// One more command in the record.
pub proof fn lemma_page_commands_push(log: Seq<u8>, byte: u8)
    ensures
        page_commands(log.push(byte)) == page_commands(log) + if sets_page(byte) {
            1nat
        } else {
            0nat
        },
{
    assert(log.push(byte).drop_last() =~= log);
}

/// Whether all coordinates of a list lie on the display.
pub open spec fn on_display(places: Seq<(u8, u8)>) -> bool {
    forall|i: int| 0 <= i < places.len() ==> (#[trigger] places[i]).0 < 192 && places[i].1 < 64
}

/// What holds of one controller after the cursor went through a list of
/// coordinates: the page that the engine remembers for it is the page of
/// the last coordinate in its slice, and it has taken one set-page command
/// for every change of page, no more.
pub open spec fn pages_followed(
    w: World,
    later: World,
    places: Seq<(u8, u8)>,
    chip: ChipSelect,
) -> bool {
    &&& later.core.pages.of(chip) == last_page(places, chip, w.core.pages.of(chip))
    &&& page_commands(later.panel.chip(chip).log) == page_commands(w.panel.chip(chip).log)
        + page_changes(places, chip, w.core.pages.of(chip))
}

/// After any sequence of moves of the cursor, the page that the engine
/// remembers for a controller is the page of the most recent coordinate in
/// the slice of that controller, the controller is at that page, and it
/// has been sent one set-page command for every change of page, not one
/// for every move.
pub proof fn lemma_gotos(w: World, places: Seq<(u8, u8)>)
    requires
        w.sound(),
        on_display(places),
    ensures
        run(goto_tasks(places), w).sound(),
        pages_followed(w, run(goto_tasks(places), w), places, ChipSelect::CHIP1),
        pages_followed(w, run(goto_tasks(places), w), places, ChipSelect::CHIP2),
        pages_followed(w, run(goto_tasks(places), w), places, ChipSelect::CHIP3),
    decreases places.len(),
{
    if places.len() == 0 {
        lemma_run_below(rank_limit(), Seq::empty(), w);
    } else {
        let before = places.drop_last();
        let (x, y) = places.last();
        assert(places[places.len() - 1] == (x, y));
        assert forall|i: int| 0 <= i < before.len() implies (#[trigger] before[i]).0 < 192
            && before[i].1 < 64 by {
            assert(before[i] == places[i]);
        }
        lemma_gotos(w, before);
        let w1 = run(goto_tasks(before), w);
        lemma_run_push(goto_tasks(before), Task::Goto(x, y), w);
        lemma_goto(w1, x, y);
        let chip = ChipSelect::at(x);
        let page = (y / 8) as u8;
        lemma_address_commands(page, (x % 64) as u8);
        let log = w1.panel.chip(chip).log;
        lemma_page_commands_push(log, crate::ermc192641::column_command((x % 64) as u8));
        lemma_page_commands_push(log, crate::ermc192641::page_command(page));
        lemma_page_commands_push(
            log.push(crate::ermc192641::page_command(page)),
            crate::ermc192641::column_command((x % 64) as u8),
        );
    }
}

/// One write for each byte of a list, in order.
pub open spec fn write_tasks(bytes: Seq<u8>) -> Seq<Task>
    decreases bytes.len(),
{
    if bytes.len() == 0 {
        Seq::empty()
    } else {
        write_tasks(bytes.drop_last()).push(Task::Write(bytes.last()))
    }
}

/// What a world is after a list of bytes was written from the cursor to
/// the right in a row at the top of a page: the bytes stand in consecutive
/// columns of that page, across the slices of the controllers, no other
/// byte has changed, and the cursor stands behind the last of them.
pub open spec fn bytes_written(w: World, later: World, bytes: Seq<u8>) -> bool {
    &&& later.sound()
    &&& later.placed()
    &&& later.released()
    &&& later.core.x == w.core.x + bytes.len()
    &&& later.core.y == w.core.y
    &&& same_switches(w.panel, later.panel)
    &&& forall|col: u8, pg: u8|
        col < 192 && pg < 8 ==> #[trigger] later.panel.byte_at(col, pg) == if pg == w.core.y / 8
            && w.core.x <= col < w.core.x + bytes.len() {
            bytes[col - w.core.x]
        } else {
            w.panel.byte_at(col, pg)
        }
}

/// Consecutive writes fill consecutive columns, also where they pass from
/// the slice of one controller into that of the next.
pub proof fn lemma_writes(w: World, bytes: Seq<u8>)
    requires
        w.sound(),
        w.placed(),
        w.released(),
        w.core.y < 64,
        w.core.y % 8 == 0,
        w.core.x + bytes.len() <= 192,
    ensures
        bytes_written(w, run(write_tasks(bytes), w), bytes),
    decreases bytes.len(),
{
    if bytes.len() == 0 {
        lemma_run_below(rank_limit(), Seq::empty(), w);
    } else {
        let before = bytes.drop_last();
        let byte = bytes.last();
        lemma_writes(w, before);
        let w1 = run(write_tasks(before), w);
        lemma_run_push(write_tasks(before), Task::Write(byte), w);
        lemma_write_aligned(w1, byte);
        let w2 = run(write_tasks(bytes), w);
        let page = (w.core.y / 8) as u8;
        lemma_repainted_bytes(w1.panel, w2.panel, w1.core.x, page, byte);
        assert forall|col: u8, pg: u8| col < 192 && pg < 8 implies #[trigger] w2.panel.byte_at(
            col,
            pg,
        ) == if pg == w.core.y / 8 && w.core.x <= col < w.core.x + bytes.len() {
            bytes[col - w.core.x]
        } else {
            w.panel.byte_at(col, pg)
        } by {
            if pg == page && w.core.x <= col < w.core.x + before.len() {
                assert(before[col - w.core.x] == bytes[col - w.core.x]);
            }
        }
    }
}

} // verus!
