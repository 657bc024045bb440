//! How start and end events nest, and what that means for the markup.

use vstd::prelude::*;
use crate::emitter::{fragment, heading_close, heading_open, markup, markup_of_concat, markup_of_one};
use crate::event::{Block, Event, EventModel, models};

verus! {

/// The blocks that are open after `events`, outermost first, when `open` were open before;
/// `None` where an end event does not close the innermost open block.
pub open spec fn open_blocks(events: Seq<EventModel>, open: Seq<Block>) -> Option<Seq<Block>>
    decreases events.len(),
{
    if events.len() == 0 {
        Some(open)
    } else {
        match events.first() {
            EventModel::Start(block) => open_blocks(events.drop_first(), open.push(block)),
            EventModel::End(block) => if open.len() > 0 && open.last().same_kind(block) {
                open_blocks(events.drop_first(), open.drop_last())
            } else {
                None
            },
            _ => open_blocks(events.drop_first(), open),
        }
    }
}

/// Every start event has its end event, and the pairs nest.
pub open spec fn balanced(events: Seq<EventModel>) -> bool {
    open_blocks(events, Seq::empty()) == Some(Seq::<Block>::empty())
}

/// Whether two blocks are of the same kind.
fn same_kind(open: Block, close: Block) -> (same: bool)
    ensures
        same == open.same_kind(close),
{
    match (open, close) {
        (Block::Paragraph, Block::Paragraph) => true,
        (Block::Heading(_), Block::Heading(_)) => true,
        (Block::List, Block::List) => true,
        (Block::Item, Block::Item) => true,
        (Block::Emphasis, Block::Emphasis) => true,
        (Block::Strong, Block::Strong) => true,
        (Block::Other, Block::Other) => true,
        _ => false,
    }
}

/// Whether every start event of `events` has its end event, and the pairs nest.
pub fn is_balanced(events: &Vec<Event>) -> (result: bool)
    ensures
        result == balanced(models(events@)),
{
    let ghost all = models(events@);
    let mut open: Vec<Block> = Vec::new();
    let mut i: usize = 0;
    assert(all.skip(0) =~= all);
    while i < events.len()
        invariant
            i <= events.len(),
            all == models(events@),
            open_blocks(all, Seq::empty()) == open_blocks(all.skip(i as int), open@),
        decreases events.len() - i,
    {
        assert(all.skip(i as int).first() == events[i as int]@);
        assert(all.skip(i as int).drop_first() =~= all.skip(i + 1));
        match &events[i] {
            Event::Start(block) => {
                open.push(*block);
            },
            Event::End(block) => {
                if open.len() == 0 || !same_kind(open[open.len() - 1], *block) {
                    return false;
                }
                open.pop();
            },
            _ => {},
        }
        i += 1;
    }
    assert(all.skip(i as int).len() == 0);
    assert(open@.len() == 0 ==> open@ =~= Seq::<Block>::empty());
    open.len() == 0
}

/// The index of the first end event at or after `from` that closes a block which was open
/// `depth` levels below the innermost one; the length of `events` where there is none.
pub open spec fn closing_index(events: Seq<EventModel>, from: int, depth: nat) -> int
    decreases events.len() - from,
{
    if from < 0 || from >= events.len() {
        events.len() as int
    } else {
        match events[from] {
            EventModel::Start(_) => closing_index(events, from + 1, depth + 1),
            EventModel::End(_) => if depth == 0 {
                from
            } else {
                closing_index(events, from + 1, (depth - 1) as nat)
            },
            _ => closing_index(events, from + 1, depth),
        }
    }
}

/// The index of the end event that closes what the start event at `start` opens.
pub open spec fn matching_end(events: Seq<EventModel>, start: int) -> int {
    closing_index(events, start + 1, 0)
}

/// The index of the end event that closes what the event at `start` opens: `None` where no
/// end event does.
pub fn find_matching_end(events: &Vec<Event>, start: usize) -> (end: Option<usize>)
    ensures
        match end {
            Some(index) => index < events.len() && matching_end(models(events@), start as int)
                == index,
            None => matching_end(models(events@), start as int) == events.len(),
        },
{
    if start >= events.len() {
        return None;
    }
    let ghost all = models(events@);
    let mut depth: usize = 0;
    let mut i: usize = start + 1;
    while i < events.len()
        invariant
            start < i <= events.len(),
            depth <= i,
            all == models(events@),
            matching_end(all, start as int) == closing_index(all, i as int, depth as nat),
        decreases events.len() - i,
    {
        assert(all[i as int] == events[i as int]@);
        match &events[i] {
            Event::Start(_) => {
                depth += 1;
            },
            Event::End(_) => {
                if depth == 0 {
                    return Some(i);
                }
                depth -= 1;
            },
            _ => {},
        }
        i += 1;
    }
    None
}

/// Running over two sequences, one after the other, is running over the second from where
/// the first one ends.
pub proof fn open_blocks_of_concat(first: Seq<EventModel>, second: Seq<EventModel>, open: Seq<Block>)
    ensures
        open_blocks(first + second, open) == match open_blocks(first, open) {
            Some(between) => open_blocks(second, between),
            None => None,
        },
    decreases first.len(),
{
    if first.len() == 0 {
        assert(first + second =~= second);
    } else {
        assert((first + second).drop_first() =~= first.drop_first() + second);
        assert((first + second).first() == first.first());
        match first.first() {
            EventModel::Start(block) => {
                open_blocks_of_concat(first.drop_first(), second, open.push(block));
            },
            EventModel::End(block) => {
                if open.len() > 0 && open.last().same_kind(block) {
                    open_blocks_of_concat(first.drop_first(), second, open.drop_last());
                }
            },
            _ => {
                open_blocks_of_concat(first.drop_first(), second, open);
            },
        }
    }
}

/// The innermost `depth` blocks of `open`.
spec fn innermost(open: Seq<Block>, depth: nat) -> Seq<Block> {
    open.subrange(open.len() - depth, open.len() as int)
}

/// Where the run from `from` closes the block that is `depth` levels below the innermost open
/// one, `closing_index` finds the end event that does it.
proof fn closing_index_closes(events: Seq<EventModel>, from: int, open: Seq<Block>, depth: nat)
    requires
        0 <= from <= events.len(),
        depth < open.len(),
        open_blocks(events.skip(from), open) is Some,
        open_blocks(events.skip(from), open).unwrap().len() < open.len() - depth,
    ensures
        ({
            let end = closing_index(events, from, depth);
            &&& from <= end < events.len()
            &&& events[end] matches EventModel::End(block) && open[open.len() - 1 - depth].same_kind(
                block,
            )
            &&& open_blocks(events.subrange(from, end), innermost(open, depth)) == Some(
                Seq::<Block>::empty(),
            )
        }),
    decreases events.len() - from,
{
    let rest = events.skip(from);
    if from == events.len() {
        assert(rest.len() == 0);
    } else {
        assert(rest.first() == events[from]);
        assert(rest.drop_first() =~= events.skip(from + 1));
        let inner = innermost(open, depth);
        match events[from] {
            EventModel::Start(block) => {
                closing_index_closes(events, from + 1, open.push(block), depth + 1);
                let end = closing_index(events, from, depth);
                assert(innermost(open.push(block), depth + 1) =~= inner.push(block));
                assert(events.subrange(from, end).first() == events[from]);
                assert(events.subrange(from, end).drop_first() =~= events.subrange(from + 1, end));
            },
            EventModel::End(block) => {
                if depth == 0 {
                    assert(events.subrange(from, from) =~= Seq::<EventModel>::empty());
                    assert(inner =~= Seq::<Block>::empty());
                } else {
                    closing_index_closes(events, from + 1, open.drop_last(), (depth - 1) as nat);
                    let end = closing_index(events, from, depth);
                    assert(innermost(open.drop_last(), (depth - 1) as nat) =~= inner.drop_last());
                    assert(inner.last() == open.last());
                    assert(events.subrange(from, end).first() == events[from]);
                    assert(events.subrange(from, end).drop_first() =~= events.subrange(
                        from + 1,
                        end,
                    ));
                }
            },
            _ => {
                closing_index_closes(events, from + 1, open, depth);
                let end = closing_index(events, from, depth);
                assert(events.subrange(from, end).first() == events[from]);
                assert(events.subrange(from, end).drop_first() =~= events.subrange(from + 1, end));
            },
        }
    }
}

/// In a balanced sequence every start event has a matching end event after it: an end event
/// of the same kind of block, with a balanced sequence between the two. The markup is then the
/// markup before the pair, the fragment of the start event, the markup between, the fragment
/// of the end event, and the markup after the pair.
pub proof fn start_has_matching_end(events: Seq<EventModel>, start: int)
    requires
        balanced(events),
        0 <= start < events.len(),
        events[start] is Start,
    ensures
        ({
            let end = matching_end(events, start);
            &&& start < end < events.len()
            &&& events[start] matches EventModel::Start(opened) && events[end] matches EventModel::End(
                closed,
            ) && opened.same_kind(closed)
            &&& balanced(events.subrange(start + 1, end))
            &&& markup(events) == markup(events.take(start)) + fragment(events[start]) + markup(
                events.subrange(start + 1, end),
            ) + fragment(events[end]) + markup(events.skip(end + 1))
        }),
{
    let before = events.take(start);
    let rest = events.skip(start);
    assert(events =~= before + rest);
    open_blocks_of_concat(before, rest, Seq::empty());
    let open = open_blocks(before, Seq::empty()).unwrap();
    assert(rest.first() == events[start]);
    assert(rest.drop_first() =~= events.skip(start + 1));
    let opened = events[start]->Start_0;
    closing_index_closes(events, start + 1, open.push(opened), 0);
    let end = matching_end(events, start);
    assert(innermost(open.push(opened), 0) =~= Seq::<Block>::empty());

    let between = events.subrange(start + 1, end);
    let after = events.skip(end + 1);
    assert(events =~= before + seq![events[start]] + between + seq![events[end]] + after);
    markup_of_concat(before + seq![events[start]] + between + seq![events[end]], after);
    markup_of_concat(before + seq![events[start]] + between, seq![events[end]]);
    markup_of_concat(before + seq![events[start]], between);
    markup_of_concat(before, seq![events[start]]);
    markup_of_one(events[start]);
    markup_of_one(events[end]);
}

/// In a balanced sequence every start of a heading has its end of a heading: the markup holds
/// what opens the heading, then the markup of the balanced sequence between the two events,
/// then what closes the heading.
pub proof fn heading_is_closed(events: Seq<EventModel>, start: int, level: u8)
    requires
        balanced(events),
        0 <= start < events.len(),
        events[start] == EventModel::Start(Block::Heading(level)),
    ensures
        ({
            let end = matching_end(events, start);
            &&& start < end < events.len()
            &&& events[end] matches EventModel::End(closed) && closed is Heading
            &&& balanced(events.subrange(start + 1, end))
            &&& markup(events) == markup(events.take(start)) + heading_open(level) + markup(
                events.subrange(start + 1, end),
            ) + heading_close() + markup(events.skip(end + 1))
        }),
{
    start_has_matching_end(events, start);
}

} // verus!
