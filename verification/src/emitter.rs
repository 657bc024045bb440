//! From events to Typst markup.

use vstd::prelude::*;
use vstd::string::StringExecFns;
use crate::event::{Block, Event, EventModel, all_well_formed, models};
use crate::nesting::balanced;
use crate::source::{markdown_events, parse_events};

verus! {

/// The character of a decimal digit.
pub open spec fn digit(d: nat) -> Seq<char> {
    if d == 0 {
        "0"@
    } else if d == 1 {
        "1"@
    } else if d == 2 {
        "2"@
    } else if d == 3 {
        "3"@
    } else if d == 4 {
        "4"@
    } else if d == 5 {
        "5"@
    } else if d == 6 {
        "6"@
    } else if d == 7 {
        "7"@
    } else if d == 8 {
        "8"@
    } else {
        "9"@
    }
}

/// A number in decimal, without leading zeros.
pub open spec fn decimal(n: nat) -> Seq<char>
    decreases n,
{
    if n < 10 {
        digit(n)
    } else {
        decimal(n / 10) + digit(n % 10)
    }
}

/// What opens a heading of the given level.
pub open spec fn heading_open(level: u8) -> Seq<char> {
    "\n#heading(level: "@ + decimal(level as nat) + ")["@
}

/// What closes a heading.
pub open spec fn heading_close() -> Seq<char> {
    "]\n"@
}

/// The markup of one event. An event that has none gives the empty sequence.
pub open spec fn fragment(event: EventModel) -> Seq<char> {
    match event {
        EventModel::Start(Block::Heading(level)) => heading_open(level),
        EventModel::Start(Block::Item) => "\n- "@,
        EventModel::Start(Block::Emphasis) => "_"@,
        EventModel::Start(Block::Strong) => "*"@,
        EventModel::End(Block::Paragraph) => "\n\n"@,
        EventModel::End(Block::Heading(_)) => heading_close(),
        EventModel::End(Block::List) => "\n"@,
        EventModel::End(Block::Emphasis) => "_"@,
        EventModel::End(Block::Strong) => "*"@,
        EventModel::Text(text) => text,
        EventModel::Code(code) => "`"@ + code + "`"@,
        EventModel::SoftBreak => "\\\n"@,
        EventModel::HardBreak => "\\\n"@,
        _ => Seq::empty(),
    }
}

/// The markup of a sequence of events: their fragments, one after the other.
pub open spec fn markup(events: Seq<EventModel>) -> Seq<char>
    decreases events.len(),
{
    if events.len() == 0 {
        Seq::empty()
    } else {
        markup(events.drop_last()) + fragment(events.last())
    }
}

/// Whether an event belongs to a construct that has no markup of its own.
pub open spec fn unsupported(event: EventModel) -> bool {
    event == EventModel::Start(Block::Other) || event == EventModel::End(Block::Other) || event
        == EventModel::Other
}

/// The markup of two sequences of events, one after the other, is the markup of the first
/// followed by the markup of the second.
pub proof fn markup_of_concat(first: Seq<EventModel>, second: Seq<EventModel>)
    ensures
        markup(first + second) == markup(first) + markup(second),
    decreases second.len(),
{
    if second.len() == 0 {
        assert(first + second =~= first);
    } else {
        markup_of_concat(first, second.drop_last());
        assert((first + second).drop_last() =~= first + second.drop_last());
    }
}

/// The markup of a single event is its fragment.
pub proof fn markup_of_one(event: EventModel)
    ensures
        markup(seq![event]) == fragment(event),
{
    reveal_with_fuel(markup, 2);
    assert(Seq::<char>::empty() + fragment(event) =~= fragment(event));
}

/// An emphasis span followed by a strong span gives the emphasis delimiters around the markup
/// of the first span, then at once the strong delimiters around the markup of the second.
pub proof fn emphasis_then_strong(emphasized: Seq<EventModel>, strong: Seq<EventModel>)
    ensures
        markup(
            seq![EventModel::Start(Block::Emphasis)] + emphasized + seq![
                EventModel::End(Block::Emphasis),
                EventModel::Start(Block::Strong),
            ] + strong + seq![EventModel::End(Block::Strong)],
        ) == seq!['_'] + markup(emphasized) + seq!['_', '*'] + markup(strong) + seq!['*'],
{
    let open = seq![EventModel::Start(Block::Emphasis)];
    let turn = seq![EventModel::End(Block::Emphasis), EventModel::Start(Block::Strong)];
    let close = seq![EventModel::End(Block::Strong)];
    markup_of_concat(open + emphasized + turn + strong, close);
    markup_of_concat(open + emphasized + turn, strong);
    markup_of_concat(open + emphasized, turn);
    markup_of_concat(open, emphasized);
    markup_of_one(EventModel::Start(Block::Emphasis));
    markup_of_one(EventModel::End(Block::Strong));
    assert(turn =~= seq![EventModel::End(Block::Emphasis)] + seq![
        EventModel::Start(Block::Strong),
    ]);
    markup_of_concat(
        seq![EventModel::End(Block::Emphasis)],
        seq![EventModel::Start(Block::Strong)],
    );
    markup_of_one(EventModel::End(Block::Emphasis));
    markup_of_one(EventModel::Start(Block::Strong));
    reveal_strlit("_");
    reveal_strlit("*");
    assert("_"@ =~= seq!['_']);
    assert("*"@ =~= seq!['*']);
    assert("_"@ + "*"@ =~= seq!['_', '*']);
}

/// An event of an unsupported construct has no fragment, and the markup around it is what it
/// would be without the event.
pub proof fn unsupported_is_dropped(
    before: Seq<EventModel>,
    event: EventModel,
    after: Seq<EventModel>,
)
    requires
        unsupported(event),
    ensures
        fragment(event) == Seq::<char>::empty(),
        markup(before + seq![event] + after) == markup(before) + markup(after),
        markup(before + seq![event] + after) == markup(before + after),
{
    markup_of_concat(before + seq![event], after);
    markup_of_concat(before, seq![event]);
    markup_of_one(event);
    markup_of_concat(before, after);
    assert(markup(before) + Seq::<char>::empty() =~= markup(before));
}

/// The text that markup is gathered in while one document is converted. It only grows.
pub struct MarkupBuffer {
    text: String,
}

impl View for MarkupBuffer {
    type V = Seq<char>;

    closed spec fn view(&self) -> Seq<char> {
        self.text@
    }
}

impl MarkupBuffer {
    /// An empty buffer.
    pub fn new() -> (buffer: MarkupBuffer)
        ensures
            buffer@ == Seq::<char>::empty(),
    {
        MarkupBuffer { text: String::new() }
    }

    /// Appends `n` in decimal.
    fn push_decimal(&mut self, n: u8)
        ensures
            final(self)@ == old(self)@ + decimal(n as nat),
    {
        if n >= 100 {
            self.push_digit(n / 100);
            self.push_digit((n / 10) % 10);
            self.push_digit(n % 10);
            assert(decimal(n as nat) == digit((n / 100) as nat) + digit(((n / 10) % 10) as nat)
                + digit((n % 10) as nat)) by {
                reveal_with_fuel(decimal, 3);
            }
        } else if n >= 10 {
            self.push_digit(n / 10);
            self.push_digit(n % 10);
            assert(decimal(n as nat) == digit((n / 10) as nat) + digit((n % 10) as nat)) by {
                reveal_with_fuel(decimal, 2);
            }
        } else {
            self.push_digit(n);
        }
    }

    /// Appends one decimal digit.
    fn push_digit(&mut self, d: u8)
        requires
            d < 10,
        ensures
            final(self)@ == old(self)@ + digit(d as nat),
    {
        let text = if d == 0 {
            "0"
        } else if d == 1 {
            "1"
        } else if d == 2 {
            "2"
        } else if d == 3 {
            "3"
        } else if d == 4 {
            "4"
        } else if d == 5 {
            "5"
        } else if d == 6 {
            "6"
        } else if d == 7 {
            "7"
        } else if d == 8 {
            "8"
        } else {
            "9"
        };
        self.text.append(text);
    }

    /// Appends the markup of one event.
    pub fn push_event(&mut self, event: &Event)
        ensures
            final(self)@ == old(self)@ + fragment(event@),
    {
        match event {
            Event::Start(Block::Heading(level)) => {
                self.text.append("\n#heading(level: ");
                self.push_decimal(*level);
                self.text.append(")[");
            },
            Event::Start(Block::Item) => self.text.append("\n- "),
            Event::Start(Block::Emphasis) => self.text.append("_"),
            Event::Start(Block::Strong) => self.text.append("*"),
            Event::End(Block::Paragraph) => self.text.append("\n\n"),
            Event::End(Block::Heading(_)) => self.text.append("]\n"),
            Event::End(Block::List) => self.text.append("\n"),
            Event::End(Block::Emphasis) => self.text.append("_"),
            Event::End(Block::Strong) => self.text.append("*"),
            Event::Text(text) => self.text.append(text.as_str()),
            Event::Code(code) => {
                self.text.append("`");
                self.text.append(code.as_str());
                self.text.append("`");
            },
            Event::SoftBreak => self.text.append("\\\n"),
            Event::HardBreak => self.text.append("\\\n"),
            _ => {
                assert(old(self)@ + Seq::<char>::empty() =~= old(self)@);
            },
        }
    }

    /// The markup gathered.
    pub fn finish(self) -> (text: String)
        ensures
            text@ == self@,
    {
        self.text
    }
}

/// The markup of a document given as its events.
pub fn events_to_typst(events: &Vec<Event>) -> (typst: String)
    ensures
        typst@ == markup(models(events@)),
{
    let mut buffer = MarkupBuffer::new();
    let mut i: usize = 0;
    while i < events.len()
        invariant
            i <= events.len(),
            buffer@ == markup(models(events@).take(i as int)),
        decreases events.len() - i,
    {
        buffer.push_event(&events[i]);
        assert(models(events@).take(i + 1).drop_last() =~= models(events@).take(i as int));
        i += 1;
    }
    assert(models(events@).take(i as int) =~= models(events@));
    buffer.finish()
}

/// The markup of a Markdown document: the markup of the events that the parser yields for
/// it. Those events are balanced, so every heading that is opened in the markup is closed.
pub fn markdown_to_typst(markdown: &str) -> (typst: String)
    ensures
        typst@ == markup(markdown_events(markdown@)),
        balanced(markdown_events(markdown@)),
        all_well_formed(markdown_events(markdown@)),
{
    let events = parse_events(markdown);
    events_to_typst(&events)
}

} // verus!
