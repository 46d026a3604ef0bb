use pulldown_cmark::{Options, Parser};
use sapiens::bot::{estimated_markdown_size, is_block_delimiter, sanitize_msgs_for_discord, split_msgs, Formatter, MdKind};
use sapiens::chains::{Message, MessageFormatter};
use sapiens::context::{ChatEntry, ChatEntryFormatter};
use sapiens::models::Role;

const ESTIMATE_MD: &str = "This is a test message that is too long for Discord\n\n# This is a section\n\nThis is the second paragraph\n  \n```python\nprint(\"Hello world\")\n```\n    \nThis is the third paragraph\n\n- This is a list\n   - This is another list item\n   - This is another list item\n- This is another list item\n\n## A subsection\n\n-----------\n| A | B   |\n|---|-----|\n| 1 | 232 |\n| 2 | 3   |\n-----------\n\n   This is the fourth paragraph\n    \n# This is another section\n\nThis is the first paragraph of another section                                               \n";

const SPLIT_MD: &str = "This is a test message that is too long for Discord\n\n# This is a section\n\nThis is the second paragraph\n  \n```python\nprint(\"Hello world\")\n```\n    \nThis is the third paragraph which is much longer than the other.\n    \n## A subsection\n\n   This is the fourth paragraph\n    \n# This is another section\n\nThis is the first paragraph of another section\n              \n";

#[test]
fn estimate_size_in_markdown_one_by_one() {
    let md = ESTIMATE_MD.to_string();

    // normalize
    let mut options = Options::all();
    options.remove(Options::ENABLE_SMART_PUNCTUATION);
    let mut normalized_md = String::with_capacity(md.len() + 128);
    let state = pulldown_cmark_to_cmark::cmark(Parser::new_ext(&md, options), &mut normalized_md);
    if let Ok(state) = state {
        state.finalize(&mut normalized_md).unwrap();
    }

    // count on normalized
    let estimated_normalized_size = estimated_markdown_size(&normalized_md);

    assert!(
        estimated_normalized_size >= normalized_md.len(),
        "estimated_normalized_size: {}, normalized_md.len(): {}",
        estimated_normalized_size,
        normalized_md.len()
    );
}

#[test]
fn test_split_msgs() {
    let msg = SPLIT_MD.to_string();

    let max_size = 100;

    let msgs = split_msgs(msg, max_size);

    assert!(msgs.len() > 1);

    // check that all messages are shorter than max_size
    for msg in &msgs {
        assert!(msg.len() <= max_size);
    }
}

#[test]
fn short_messages_are_kept_whole() {
    let msgs = split_msgs("# Title\n\nshort".to_string(), 100);
    assert_eq!(msgs, vec!["# Title\n\nshort".to_string()]);
}

#[test]
fn split_keeps_every_paragraph() {
    let msgs = split_msgs(SPLIT_MD.to_string(), 100);
    let all = msgs.join("\n");
    for needle in [
        "This is a test message",
        "second paragraph",
        "Hello world",
        "much longer than the other",
        "fourth paragraph",
        "first paragraph of another section",
    ] {
        assert!(all.contains(needle), "{} is lost", needle);
    }
}

#[test]
fn sanitize_cuts_long_pieces() {
    let long = "a".repeat(5000);
    let msgs = sanitize_msgs_for_discord(vec![long]);
    assert_eq!(msgs.len(), 1);
    assert_eq!(msgs[0].len(), 1803);
    assert!(msgs[0].ends_with("..."));
    let short = sanitize_msgs_for_discord(vec!["hello".to_string(), "world".to_string()]);
    assert_eq!(short, vec!["hello".to_string(), "world".to_string()]);
}

#[test]
fn sanitize_cuts_on_a_character() {
    let long = "é".repeat(1000);
    let msgs = sanitize_msgs_for_discord(vec![long]);
    assert_eq!(msgs.len(), 1);
    assert_eq!(msgs[0], format!("{}...", "é".repeat(900)));
}

#[test]
fn formatter_marks_roles() {
    let f = Formatter {};
    let user = ChatEntry { role: Role::User, msg: "hi".to_string() };
    let bot = ChatEntry { role: Role::Assistant, msg: "yo".to_string() };
    let sys = ChatEntry { role: Role::System, msg: "be nice".to_string() };
    assert_eq!(ChatEntryFormatter::format(&f, &user), ":earth_americas:\nhi");
    assert_eq!(ChatEntryFormatter::format(&f, &bot), ":robot:\nyo");
    assert_eq!(ChatEntryFormatter::format(&f, &sys), ":rooster:\nbe nice");
    let m = Message::Task { content: "do it".to_string() };
    assert_eq!(MessageFormatter::format(&f, &m), "Task: do it");
}

#[test]
fn links_are_never_cut() {
    let msg = format!(
        "{} [a link whose text is much longer than the pieces](http://example.com) {} ![an image too](http://example.com/i.png) end",
        "word ".repeat(6),
        "more ".repeat(6)
    );
    let pieces = split_msgs(msg.clone(), 20);
    assert!(pieces.len() > 1);
    let all = pieces.join(" ");
    assert!(all.contains("[a link whose text is much longer than the pieces](http://example.com)"));
    assert!(all.contains("![an image too](http://example.com/i.png)"));
}

#[test]
fn markdown_sizes_follow_the_kinds_of_elements() {
    // a heading of level 2: its level and one, the text, and its end
    assert_eq!(estimated_markdown_size("## Hi"), 3 + 2 + 4);
    // a paragraph holding a link: the destination counts with the start of the link
    assert_eq!(estimated_markdown_size("[a](b)"), 2 + (4 + 1) + 1 + 4 + 4);
    // a fenced code block: its info string and three
    assert_eq!(estimated_markdown_size("```rust\nx\n```\n"), (4 + 3) + 2 + 4);
}

#[test]
fn blocks_end_at_block_elements() {
    for k in [MdKind::Paragraph, MdKind::BlockQuote, MdKind::CodeBlock, MdKind::HtmlBlock, MdKind::List(true), MdKind::Table, MdKind::MetadataBlock] {
        assert!(is_block_delimiter(&k));
    }
    for k in [MdKind::Heading(1), MdKind::Item, MdKind::Link, MdKind::Image, MdKind::Emphasis, MdKind::TableCell] {
        assert!(!is_block_delimiter(&k));
    }
}
