use md2pdf::emitter::{events_to_typst, markdown_to_typst};
use md2pdf::event::{Block, Event};
use md2pdf::source::parse_events;

fn text(s: &str) -> Event {
    Event::Text(String::from(s))
}

#[test]
fn heading_is_opened_and_closed() {
    assert_eq!(markdown_to_typst("# Title"), "\n#heading(level: 1)[Title]\n");
    assert_eq!(markdown_to_typst("### Deep\n"), "\n#heading(level: 3)[Deep]\n");
    assert_eq!(markdown_to_typst("###### Six"), "\n#heading(level: 6)[Six]\n");
}

#[test]
fn paragraph_ends_with_a_blank_line() {
    assert_eq!(markdown_to_typst("Hello world"), "Hello world\n\n");
    assert_eq!(markdown_to_typst("one\n\ntwo"), "one\n\ntwo\n\n");
}

#[test]
fn empty_document_gives_empty_markup() {
    assert_eq!(markdown_to_typst(""), "");
    assert_eq!(parse_events(""), Vec::<Event>::new());
}

#[test]
fn parser_events_are_told_apart() {
    assert_eq!(
        parse_events("# A *b*"),
        vec![
            Event::Start(Block::Heading(1)),
            text("A "),
            Event::Start(Block::Emphasis),
            text("b"),
            Event::End(Block::Emphasis),
            Event::End(Block::Heading(1)),
        ]
    );
    assert_eq!(
        parse_events("- x\n"),
        vec![
            Event::Start(Block::List),
            Event::Start(Block::Item),
            text("x"),
            Event::End(Block::Item),
            Event::End(Block::List),
        ]
    );
    assert_eq!(
        parse_events("a `c` **s**"),
        vec![
            Event::Start(Block::Paragraph),
            text("a "),
            Event::Code(String::from("c")),
            text(" "),
            Event::Start(Block::Strong),
            text("s"),
            Event::End(Block::Strong),
            Event::End(Block::Paragraph),
        ]
    );
}

#[test]
fn breaks_are_told_apart() {
    assert_eq!(
        parse_events("a\nb  \nc"),
        vec![
            Event::Start(Block::Paragraph),
            text("a"),
            Event::SoftBreak,
            text("b"),
            Event::HardBreak,
            text("c"),
            Event::End(Block::Paragraph),
        ]
    );
    assert_eq!(markdown_to_typst("a\nb  \nc"), "a\\\nb\\\nc\n\n");
}

#[test]
fn list_items_get_a_prefix() {
    assert_eq!(markdown_to_typst("- one\n- two\n"), "\n- one\n- two\n");
}

#[test]
fn inline_code_is_wrapped() {
    assert_eq!(markdown_to_typst("use `x + y` here"), "use `x + y` here\n\n");
}

#[test]
fn emphasis_then_strong_keep_their_order() {
    let events = vec![
        Event::Start(Block::Emphasis),
        text("a"),
        Event::End(Block::Emphasis),
        Event::Start(Block::Strong),
        text("b"),
        Event::End(Block::Strong),
    ];
    assert_eq!(events_to_typst(&events), "_a_*b*");
    assert_eq!(markdown_to_typst("*a* **b**"), "_a_ *b*\n\n");
}

#[test]
fn image_is_dropped_and_text_around_it_kept() {
    assert_eq!(markdown_to_typst("before ![](pic.png) after"), "before  after\n\n");
    let events = vec![
        text("before"),
        Event::Start(Block::Other),
        Event::End(Block::Other),
        Event::Other,
        text("after"),
    ];
    assert_eq!(events_to_typst(&events), "beforeafter");
    assert_eq!(
        parse_events("![](pic.png)"),
        vec![
            Event::Start(Block::Paragraph),
            Event::Start(Block::Other),
            Event::End(Block::Other),
            Event::End(Block::Paragraph),
        ]
    );
}

#[test]
fn rule_and_html_are_dropped() {
    assert_eq!(markdown_to_typst("---\n"), "");
    assert_eq!(parse_events("---\n"), vec![Event::Other]);
}

#[test]
fn heading_level_is_written_in_decimal() {
    assert_eq!(events_to_typst(&vec![Event::Start(Block::Heading(0))]), "\n#heading(level: 0)[");
    assert_eq!(events_to_typst(&vec![Event::Start(Block::Heading(42))]), "\n#heading(level: 42)[");
    assert_eq!(
        events_to_typst(&vec![Event::Start(Block::Heading(255))]),
        "\n#heading(level: 255)["
    );
    assert_eq!(
        events_to_typst(&vec![Event::Start(Block::Heading(109))]),
        "\n#heading(level: 109)["
    );
}

#[test]
fn events_without_markup_give_nothing() {
    let events = vec![
        Event::Start(Block::Paragraph),
        Event::Start(Block::List),
        Event::End(Block::Item),
    ];
    assert_eq!(events_to_typst(&events), "");
    assert_eq!(events_to_typst(&vec![Event::End(Block::List)]), "\n");
    assert_eq!(events_to_typst(&vec![Event::End(Block::Heading(2))]), "]\n");
}
