use safeguard::client::{
    api_url, build_text_with_emojis, detect_rtl, escape_html, next_rich_format, pair_rows,
    rich_html, EmojiText, RichFormat,
};

#[test]
fn emoji_pieces() {
    let p = EmojiText::plain("abc");
    assert!(p.custom_emoji_id.is_none());
    assert_eq!(p.text, "abc");
    let e = EmojiText::with_emoji("123", "x");
    assert_eq!(e.custom_emoji_id.as_deref(), Some("123"));
    assert_eq!(e.text, "x");
}

#[test]
fn text_with_emoji_entities() {
    let parts = vec![EmojiText::plain("در حال تفکر "), EmojiText::with_emoji("42", "")];
    let (text, entities) = build_text_with_emojis(&parts);
    assert_eq!(text, "در حال تفکر ⚡");
    assert_eq!(entities.len(), 1);
    assert_eq!(entities[0].offset, "در حال تفکر ".encode_utf16().count() as i64);
    assert_eq!(entities[0].length, 1);
    assert_eq!(entities[0].custom_emoji_id, "42");
}

#[test]
fn emoji_offsets_count_utf16_units() {
    let parts = vec![
        EmojiText::with_emoji("a", "\u{1F600}x"),
        EmojiText::with_emoji("b", "y"),
        EmojiText::plain("z"),
    ];
    let (text, entities) = build_text_with_emojis(&parts);
    assert_eq!(text, "⚡\u{1F600}x⚡yz");
    assert_eq!(entities.len(), 2);
    assert_eq!(entities[0].offset, 0);
    assert_eq!(entities[1].offset, 4);
    assert_eq!(entities[1].custom_emoji_id, "b");
    assert!(build_text_with_emojis(&[]).1.is_empty());
}

#[test]
fn right_to_left_detection() {
    assert!(detect_rtl("سلام دنیا hello"));
    assert!(!detect_rtl("hello سلام"));
    assert!(!detect_rtl(""));
    assert!(!detect_rtl("12345 !!"));
}

#[test]
fn html_escaping_matches_replacements() {
    let samples = ["a<b>&c", "&amp;", "plain", "<<>>", ""];
    for s in samples.iter() {
        let expected = s.replace('&', "&amp;").replace('<', "&lt;").replace('>', "&gt;");
        assert_eq!(escape_html(s), expected);
    }
    assert_eq!(rich_html("x<y"), "<p>x&lt;y</p>");
}

#[test]
fn rich_message_fallback_chain() {
    assert_eq!(next_rich_format(RichFormat::Markdown, true), None);
    assert_eq!(next_rich_format(RichFormat::Markdown, false), Some(RichFormat::Html));
    assert_eq!(next_rich_format(RichFormat::Html, false), Some(RichFormat::Plain));
    assert_eq!(next_rich_format(RichFormat::Plain, false), None);
}

#[test]
fn keyboard_rows_in_pairs() {
    assert_eq!(pair_rows(0), Vec::<(usize, usize)>::new());
    assert_eq!(pair_rows(3), vec![(0, 2), (2, 3)]);
    assert_eq!(pair_rows(4), vec![(0, 2), (2, 4)]);
    assert_eq!(pair_rows(1), vec![(0, 1)]);
}

#[test]
fn api_urls() {
    assert_eq!(api_url("TOKEN", "sendMessage"), "https://api.telegram.org/botTOKEN/sendMessage");
}

#[test]
fn entities_cover_their_placeholders() {
    let parts = vec![
        EmojiText::plain("\u{1F600}سلام "),
        EmojiText::with_emoji("1", "a\u{10348}b"),
        EmojiText::with_emoji("2", ""),
        EmojiText::plain("tail"),
        EmojiText::with_emoji("3", "x"),
    ];
    let (text, entities) = build_text_with_emojis(&parts);
    let units: Vec<u16> = text.encode_utf16().collect();
    assert_eq!(entities.len(), 3);
    for e in &entities {
        assert_eq!(e.length, 1);
        assert_eq!(units[e.offset as usize], '⚡' as u16);
    }
}
