//! Reading the events of a Markdown document.
//!
//! The events come from the parser of `pulldown_cmark`. What the parser yields is not proved
//! here: it has a name, [`markdown_events`], and the functions below that call the parser say
//! how their results relate to that name.

use std::iter::Peekable;
use vstd::prelude::*;
use crate::event::{Block, Event, EventModel, all_well_formed, models};
use crate::nesting::balanced;
use pulldown_cmark::{DefaultBrokenLinkCallback, Event as MdEvent, Parser, TagEnd};

verus! {

/// `pulldown_cmark::Parser`, the iterator over the events of a text.
#[verifier::external_type_specification]
#[verifier::external_body]
#[verifier::reject_recursive_types(F)]
pub struct ExParser<'input, F>(Parser<'input, F>);

/// `pulldown_cmark::DefaultBrokenLinkCallback`, which `Parser::new` gives its parser.
#[verifier::external_type_specification]
#[verifier::external_body]
pub struct ExDefaultBrokenLinkCallback(DefaultBrokenLinkCallback);

/// `std::iter::Peekable`, an iterator that lets its next item be looked at.
#[verifier::external_type_specification]
#[verifier::external_body]
#[verifier::reject_recursive_types(I)]
pub struct ExPeekable<I: Iterator>(Peekable<I>);

/// The events that `pulldown_cmark::Parser::new` yields for a text, each as this library
/// models it.
pub uninterp spec fn markdown_events(text: Seq<char>) -> Seq<EventModel>;

/// The events that a parser has yet to yield, each as this library models it.
pub uninterp spec fn pending_events(parser: Peekable<Parser<'_>>) -> Seq<EventModel>;

/// Makes the parser of a text with `pulldown_cmark::Parser::new`, and lets its next event be
/// looked at with `Iterator::peekable`. The parser is a function of the text alone, and the
/// documentation of `pulldown_cmark::Event` promises that start and end events are balanced.
#[verifier::external_body]
fn open_parser<'a>(markdown: &'a str) -> (parser: Peekable<Parser<'a>>)
    ensures
        pending_events(parser) == markdown_events(markdown@),
        balanced(pending_events(parser)),
{
    Parser::new(markdown).peekable()
}

/// What kind of event an event is, and the text it holds; the block of a start or end event
/// is left out.
enum Shape {
    Start,
    End,
    Text(String),
    Code(String),
    SoftBreak,
    HardBreak,
    Other,
}

/// Whether `shape` is the shape of `event`.
spec fn shape_fits(shape: Shape, event: EventModel) -> bool {
    match shape {
        Shape::Start => event is Start,
        Shape::End => event is End,
        Shape::Text(text) => event == EventModel::Text(text@),
        Shape::Code(code) => event == EventModel::Code(code@),
        Shape::SoftBreak => event is SoftBreak,
        Shape::HardBreak => event is HardBreak,
        Shape::Other => event is Other,
    }
}

/// The block of the first of `events`, where that is a start or end event.
spec fn block_ahead(events: Seq<EventModel>) -> Option<Block> {
    if events.len() == 0 {
        None
    } else {
        match events[0] {
            EventModel::Start(block) => Some(block),
            EventModel::End(block) => Some(block),
            _ => None,
        }
    }
}

/// Looks at the event that the parser yields next, with `Peekable::peek`, and tells the
/// variants of its tag apart; for a start event the tag is what `Tag::to_end` gives. The parser
/// yields that event later all the same. A `HeadingLevel` is one of `H1` to `H6`, which cast to
/// 1 to 6.
#[verifier::external_body]
fn peek_block(parser: &mut Peekable<Parser<'_>>) -> (block: Option<Block>)
    ensures
        pending_events(*final(parser)) == pending_events(*old(parser)),
        block == block_ahead(pending_events(*old(parser))),
        block matches Some(ahead) ==> ahead.well_formed(),
{
    let end = match parser.peek()? {
        MdEvent::Start(tag) => tag.to_end(),
        MdEvent::End(end) => *end,
        _ => return None,
    };
    Some(match end {
        TagEnd::Paragraph => Block::Paragraph,
        TagEnd::Heading(level) => Block::Heading(level as u8),
        TagEnd::List(_) => Block::List,
        TagEnd::Item => Block::Item,
        TagEnd::Emphasis => Block::Emphasis,
        TagEnd::Strong => Block::Strong,
        _ => Block::Other,
    })
}

/// Takes the next event from the parser, with `Iterator::next`, and tells the variants of
/// `pulldown_cmark::Event` apart: `None` where the parser has yielded every event.
#[verifier::external_body]
fn next_shape(parser: &mut Peekable<Parser<'_>>) -> (shape: Option<Shape>)
    ensures
        match shape {
            Some(taken) => pending_events(*old(parser)).len() > 0 && shape_fits(
                taken,
                pending_events(*old(parser))[0],
            ) && pending_events(*final(parser)) == pending_events(*old(parser)).skip(1),
            None => pending_events(*old(parser)).len() == 0 && pending_events(*final(parser)).len()
                == 0,
        },
{
    Some(match parser.next()? {
        MdEvent::Start(_) => Shape::Start,
        MdEvent::End(_) => Shape::End,
        MdEvent::Text(text) => Shape::Text(text.into_string()),
        MdEvent::Code(code) => Shape::Code(code.into_string()),
        MdEvent::SoftBreak => Shape::SoftBreak,
        MdEvent::HardBreak => Shape::HardBreak,
        _ => Shape::Other,
    })
}

/// The events of a Markdown document, in document order.
pub fn parse_events(markdown: &str) -> (events: Vec<Event>)
    ensures
        models(events@) == markdown_events(markdown@),
        balanced(models(events@)),
        all_well_formed(models(events@)),
{
    let mut parser = open_parser(markdown);
    let ghost all = pending_events(parser);
    let mut events: Vec<Event> = Vec::new();
    assert(models(events@) + pending_events(parser) =~= all);
    loop
        invariant
            models(events@) + pending_events(parser) == all,
            all_well_formed(models(events@)),
        ensures
            models(events@) == all,
        decreases pending_events(parser).len(),
    {
        let ghost pending = pending_events(parser);
        let ghost before = models(events@);
        let block = peek_block(&mut parser);
        let event = match next_shape(&mut parser) {
            None => {
                assert(before + pending =~= before);
                break ;
            },
            Some(Shape::Start) => Event::Start(block.unwrap()),
            Some(Shape::End) => Event::End(block.unwrap()),
            Some(Shape::Text(text)) => Event::Text(text),
            Some(Shape::Code(code)) => Event::Code(code),
            Some(Shape::SoftBreak) => Event::SoftBreak,
            Some(Shape::HardBreak) => Event::HardBreak,
            Some(Shape::Other) => Event::Other,
        };
        assert(event@ == pending[0]);
        events.push(event);
        assert(models(events@) =~= before.push(event@));
        assert(before.push(event@) + pending.skip(1) =~= before + pending);
    }
    events
}

} // verus!
