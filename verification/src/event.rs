//! The semantic events of a document.

use vstd::prelude::*;

verus! {

/// A construct that opens with one event, closes with another, and can contain events between.
#[derive(Clone, Copy, Debug, PartialEq, Eq, Structural)]
pub enum Block {
    Paragraph,
    /// A heading with its level.
    Heading(u8),
    List,
    Item,
    Emphasis,
    Strong,
    /// Any construct that has no markup of its own (an image, a link, a table, a footnote).
    Other,
}

impl Block {
    /// A heading has a level from 1 to 6.
    pub open spec fn well_formed(self) -> bool {
        self matches Block::Heading(level) ==> 1 <= level <= 6
    }

    /// Whether `self` and `other` are the same kind of construct; the level of a heading does
    /// not count.
    pub open spec fn same_kind(self, other: Block) -> bool {
        match self {
            Block::Heading(_) => other is Heading,
            _ => self == other,
        }
    }
}

/// One event of a document.
#[derive(Clone, Debug, PartialEq, Eq)]
pub enum Event {
    Start(Block),
    End(Block),
    /// A run of text.
    Text(String),
    /// A span of inline code.
    Code(String),
    SoftBreak,
    HardBreak,
    /// Any event that has no markup of its own.
    Other,
}

/// What an [`Event`] says, with its text as a sequence of characters.
pub enum EventModel {
    Start(Block),
    End(Block),
    Text(Seq<char>),
    Code(Seq<char>),
    SoftBreak,
    HardBreak,
    Other,
}

impl EventModel {
    /// The block that a start or end event names is well formed.
    pub open spec fn well_formed(self) -> bool {
        match self {
            EventModel::Start(block) => block.well_formed(),
            EventModel::End(block) => block.well_formed(),
            _ => true,
        }
    }
}

impl View for Event {
    type V = EventModel;

    open spec fn view(&self) -> EventModel {
        match *self {
            Event::Start(block) => EventModel::Start(block),
            Event::End(block) => EventModel::End(block),
            Event::Text(text) => EventModel::Text(text@),
            Event::Code(code) => EventModel::Code(code@),
            Event::SoftBreak => EventModel::SoftBreak,
            Event::HardBreak => EventModel::HardBreak,
            Event::Other => EventModel::Other,
        }
    }
}

/// The models of a sequence of events, in the same order.
pub open spec fn models(events: Seq<Event>) -> Seq<EventModel> {
    events.map_values(|event: Event| event@)
}

/// Every event of the sequence is well formed.
pub open spec fn all_well_formed(events: Seq<EventModel>) -> bool {
    forall|i: int| 0 <= i < events.len() ==> (#[trigger] events[i]).well_formed()
}

} // verus!
