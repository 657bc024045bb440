use md2pdf::emitter::events_to_typst;
use md2pdf::event::{Block, Event};
use md2pdf::nesting::{find_matching_end, is_balanced};
use md2pdf::source::parse_events;

fn text(s: &str) -> Event {
    Event::Text(String::from(s))
}

#[test]
fn parser_events_are_balanced() {
    assert!(is_balanced(&parse_events("")));
    assert!(is_balanced(&parse_events("# A *b* **c**\n\ntext\n\n- one\n- two\n")));
    assert!(is_balanced(&parse_events("> quote ![](x.png) [l](u)\n\n| a |\n|---|\n")));
}

#[test]
fn unbalanced_events_are_told() {
    assert!(is_balanced(&vec![]));
    assert!(is_balanced(&vec![text("a")]));
    assert!(is_balanced(&vec![
        Event::Start(Block::Heading(1)),
        Event::Start(Block::Emphasis),
        Event::End(Block::Emphasis),
        Event::End(Block::Heading(2)),
    ]));
    assert!(!is_balanced(&vec![Event::Start(Block::Heading(1))]));
    assert!(!is_balanced(&vec![Event::End(Block::Heading(1))]));
    assert!(!is_balanced(&vec![Event::Start(Block::Emphasis), Event::End(Block::Strong)]));
    assert!(!is_balanced(&vec![
        Event::Start(Block::Heading(1)),
        Event::Start(Block::Emphasis),
        Event::End(Block::Heading(1)),
        Event::End(Block::Emphasis),
    ]));
}

#[test]
fn every_heading_has_its_end_in_the_markup() {
    let events = parse_events("intro\n\n## One *two*\n\nrest\n");
    assert!(is_balanced(&events));
    let start = events.iter().position(|e| *e == Event::Start(Block::Heading(2))).unwrap();
    let end = find_matching_end(&events, start).unwrap();
    assert_eq!(events[end], Event::End(Block::Heading(2)));
    let before = events[..start].to_vec();
    let between = events[start + 1..end].to_vec();
    let after = events[end + 1..].to_vec();
    assert!(is_balanced(&between));
    assert_eq!(events_to_typst(&between), "One _two_");
    assert_eq!(
        events_to_typst(&events),
        format!(
            "{}{}{}{}{}",
            events_to_typst(&before),
            "\n#heading(level: 2)[",
            events_to_typst(&between),
            "]\n",
            events_to_typst(&after)
        )
    );
    assert_eq!(events_to_typst(&events), "intro\n\n\n#heading(level: 2)[One _two_]\nrest\n\n");
}

#[test]
fn matching_end_skips_inner_pairs() {
    let events = vec![
        Event::Start(Block::List),
        Event::Start(Block::Item),
        text("x"),
        Event::End(Block::Item),
        Event::Start(Block::Item),
        Event::End(Block::Item),
        Event::End(Block::List),
        text("y"),
    ];
    assert_eq!(find_matching_end(&events, 0), Some(6));
    assert_eq!(find_matching_end(&events, 1), Some(3));
    assert_eq!(find_matching_end(&events, 4), Some(5));
    assert_eq!(find_matching_end(&vec![Event::Start(Block::List), text("x")], 0), None);
    assert_eq!(find_matching_end(&events, 8), None);
    assert_eq!(find_matching_end(&events, usize::MAX), None);
}

#[test]
fn parser_events_are_balanced_on_odd_documents() {
    let documents = [
        "*a **b* c**",
        "**unclosed *emphasis",
        "- a\n  - b\n    - c\n- d\n\n1. x\n2. y\n",
        "> # quoted heading\n> - item\n>\n> text",
        "```\ncode *not emphasis*\n```\n\n    indented\n",
        "<div>\n*html*\n</div>\n\ntext <span>inline</span>",
        "[link *with* `code`](https://example.org \"title\") ![img](a.png)",
        "# h1\n## h2\n### h3\n#### h4\n##### h5\n###### h6\n####### seven",
        "Setext\n======\n\nSecond\n------\n",
        "| a | b |\n|---|---|\n| 1 | 2 |\n",
        "text[^1]\n\n[^1]: note\n",
        "\\*escaped\\* &amp; &#35; \u{0}",
        "- [ ] task\n- [x] done\n",
        "***\n---\n___\n",
        "\n\n\n",
        "a  \nb\\\nc\nd",
    ];
    for document in documents {
        let events = parse_events(document);
        assert!(is_balanced(&events), "{:?}", document);
        for event in &events {
            match event {
                Event::Start(Block::Heading(level)) | Event::End(Block::Heading(level)) => {
                    assert!(1 <= *level && *level <= 6)
                }
                _ => {}
            }
        }
    }
}
