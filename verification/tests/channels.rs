use lingchong_bot::channels::{
    DISCORD_MAX_MESSAGE_LENGTH, TELEGRAM_MAX_MESSAGE_LENGTH, chunk_marker_reserve_chars,
    decorate_chunk_for_telegram,
    split_message_for_discord, split_message_for_telegram,
};
use lingchong_bot::channels::discord::split_message_for_discord_with_limit;
use lingchong_bot::channels::telegram::{
    MarkdownEvent, MarkdownTagEnd, split_message_for_telegram_with_events,
    split_message_with_markdown_events,
};

#[test]
fn discord_split_respects_character_limit() {
    let message = "a".repeat(DISCORD_MAX_MESSAGE_LENGTH + 7);
    let chunks = split_message_for_discord(&message);

    assert_eq!(chunks.len(), 2);
    assert!(
        chunks
            .iter()
            .all(|chunk| chunk.chars().count() <= DISCORD_MAX_MESSAGE_LENGTH)
    );
    assert_eq!(chunks.concat(), message);
}

#[test]
fn telegram_split_respects_character_limit_and_preserves_text() {
    let message = "hello ".repeat(TELEGRAM_MAX_MESSAGE_LENGTH);
    let chunks = split_message_for_telegram(&message);

    assert!(chunks.len() > 1);
    assert!(
        chunks
            .iter()
            .all(|chunk| chunk.chars().count() < TELEGRAM_MAX_MESSAGE_LENGTH)
    );
    assert_eq!(chunks.concat(), message);
}

#[test]
fn telegram_chunk_decoration_marks_sequence_edges() {
    assert_eq!(decorate_chunk_for_telegram("one", 0, 1), "one");
    assert_eq!(decorate_chunk_for_telegram("one", 0, 2), "one\n[continues]");
    assert_eq!(decorate_chunk_for_telegram("two", 1, 2), "[continued]\ntwo");
}

#[test]
fn telegram_markdown_message_splits_at_paragraph_end() {
    let first = "x".repeat(1000);
    let second = "y".repeat(5000);
    let message = format!("{first}\n\n{second}");
    let chunks = split_message_for_telegram(&message);

    assert_eq!(chunks.concat(), message);
    assert!(chunks.len() >= 2);
    assert!(chunks[0].starts_with(&first));
    assert!(chunks[0].chars().count() < 1010);
    assert!(
        chunks
            .iter()
            .all(|chunk| chunk.chars().count() <= TELEGRAM_MAX_MESSAGE_LENGTH - 24)
    );
}

#[test]
fn telegram_split_without_parser_events_uses_plain_windows() {
    let first = "x".repeat(1000);
    let second = "y".repeat(5000);
    let message = format!("{first}\n\n{second}");
    let chunks = split_message_for_telegram_with_events(&message, &[]);

    assert_eq!(chunks.concat(), message);
    assert_eq!(chunks[0].chars().count(), TELEGRAM_MAX_MESSAGE_LENGTH - 24);
}

#[test]
fn telegram_markdown_split_uses_given_block_ends() {
    let message = "aaaa\n\nbbbb\n\ncccc";
    let events = [
        (MarkdownEvent::End(MarkdownTagEnd::Paragraph), 5),
        (MarkdownEvent::End(MarkdownTagEnd::Emphasis), 8),
        (MarkdownEvent::End(MarkdownTagEnd::Paragraph), 11),
    ];
    let chunks = split_message_with_markdown_events(message, &events, 8)
        .expect("markdown boundaries should be used");

    assert_eq!(chunks, vec!["aaaa\n", "\nbbbb\n", "\ncccc"]);
    assert_eq!(split_message_with_markdown_events("plain text only", &events, 8), None);
    assert_eq!(split_message_with_markdown_events(message, &events, 0), None);
}

#[test]
fn telegram_short_message_is_one_chunk() {
    let message = "z".repeat(TELEGRAM_MAX_MESSAGE_LENGTH);
    let chunks = split_message_for_telegram(&message);

    assert_eq!(chunks, vec![message]);
    assert_eq!(chunk_marker_reserve_chars(), 24);
}

#[test]
fn telegram_plain_split_prefers_late_newline_then_space() {
    let mut late_newline = "w".repeat(3000);
    late_newline.push('\n');
    late_newline.push_str(&"v".repeat(500));
    late_newline.push(' ');
    late_newline.push_str(&"u".repeat(2000));
    let chunks = split_message_for_telegram_with_events(&late_newline, &[]);

    assert_eq!(chunks.concat(), late_newline);
    assert_eq!(chunks[0].chars().count(), 3001);

    let mut early_newline = "w".repeat(100);
    early_newline.push('\n');
    early_newline.push_str(&"v".repeat(3000));
    early_newline.push(' ');
    early_newline.push_str(&"u".repeat(2000));
    let chunks = split_message_for_telegram_with_events(&early_newline, &[]);

    assert_eq!(chunks.concat(), early_newline);
    assert_eq!(chunks[0].chars().count(), 3102);
}

#[test]
fn discord_split_with_limit_cuts_by_characters() {
    let chunks = split_message_for_discord_with_limit("héllo wörld", 4);

    assert_eq!(chunks, vec!["héll", "o wö", "rld"]);
    assert_eq!(
        split_message_for_discord_with_limit("", 4),
        Vec::<String>::new()
    );
}

#[test]
fn telegram_decoration_marks_middle_chunks_on_both_sides() {
    assert_eq!(
        decorate_chunk_for_telegram("mid", 1, 3),
        "[continued]\nmid\n[continues]"
    );
}

#[test]
fn telegram_markdown_message_splits_after_heading() {
    let body = "x".repeat(5000);
    let message = format!("# Head\n{body}");
    let chunks = split_message_for_telegram(&message);

    assert_eq!(chunks.concat(), message);
    assert!(chunks[0].starts_with("# Head"));
    assert!(chunks[0].chars().count() <= 7);
}

#[test]
fn telegram_markdown_split_uses_rules_and_item_ends() {
    let message = "a\n\n***\n\nb";
    let events = [
        (MarkdownEvent::Rule, 6),
        (MarkdownEvent::End(MarkdownTagEnd::Item), 3),
        (MarkdownEvent::End(MarkdownTagEnd::Link), 9),
    ];
    let chunks = split_message_with_markdown_events(message, &events, 7)
        .expect("markdown boundaries should be used");

    assert_eq!(chunks, vec!["a\n\n***", "\n\nb"]);
}
