//! What the Telegram client computes before it sends: texts with custom
//! emoji and their entity offsets, the direction of a rich message, its
//! HTML fallback, and the layout of keyboards.
use crate::text::{append, chars_of, concat3, owned, push_char};
use vstd::prelude::*;

verus! {

/// A piece of a message: an optional custom emoji followed by text.
pub struct EmojiText {
    pub custom_emoji_id: Option<String>,
    pub text: String,
}

impl EmojiText {
    /// Text without an emoji.
    pub fn plain(text: &str) -> (r: EmojiText)
        ensures
            r.custom_emoji_id is None,
            r.text@ == text@,
    {
        EmojiText { custom_emoji_id: None, text: owned(text) }
    }

    /// A custom emoji followed by text.
    pub fn with_emoji(custom_emoji_id: &str, text: &str) -> (r: EmojiText)
        ensures
            r.custom_emoji_id matches Some(id) && id@ == custom_emoji_id@,
            r.text@ == text@,
    {
        EmojiText { custom_emoji_id: Some(owned(custom_emoji_id)), text: owned(text) }
    }
}

/// A `custom_emoji` entity: where the placeholder stands, in UTF-16 code
/// units, and which emoji it shows.
pub struct EmojiEntity {
    pub offset: i64,
    pub length: i64,
    pub custom_emoji_id: String,
}

/// The number of UTF-16 code units of a text (`encode_utf16().count()`):
/// two for characters beyond U+FFFF, one for the others.
pub open spec fn utf16_len(s: Seq<char>) -> nat
    decreases s.len(),
{
    if s.len() == 0 {
        0
    } else {
        utf16_len(s.drop_last()) + if s.last() as u32 >= 0x10000 {
            2nat
        } else {
            1nat
        }
    }
}

/// The character that stands in the text for a custom emoji.
pub open spec fn emoji_placeholder() -> Seq<char> {
    "⚡"@
}

/// A count as stored in an entity, capped at `i64::MAX`.
pub open spec fn capped(n: nat) -> i64 {
    if n <= i64::MAX {
        n as i64
    } else {
        i64::MAX
    }
}

/// The text and entities for a list of pieces: each emoji piece adds the
/// placeholder at the current UTF-16 offset and an entity of length 1
/// there, then each piece adds its text.
pub open spec fn emoji_text_spec(parts: Seq<EmojiText>) -> (Seq<char>, Seq<(i64, i64, Seq<char>)>)
    decreases parts.len(),
{
    if parts.len() == 0 {
        (seq![], seq![])
    } else {
        let (t, es) = emoji_text_spec(parts.drop_last());
        let p = parts.last();
        match p.custom_emoji_id {
            Some(id) => (
                t + emoji_placeholder() + p.text@,
                es.push((capped(utf16_len(t)), 1i64, id@)),
            ),
            None => (t + p.text@, es),
        }
    }
}

/// The views of entities.
pub open spec fn entity_views(v: Seq<EmojiEntity>) -> Seq<(i64, i64, Seq<char>)> {
    v.map_values(|e: EmojiEntity| (e.offset, e.length, e.custom_emoji_id@))
}

proof fn lemma_utf16_append(a: Seq<char>, b: Seq<char>)
    ensures
        utf16_len(a + b) == utf16_len(a) + utf16_len(b),
    decreases b.len(),
{
    if b.len() == 0 {
        assert(a + b =~= a);
    } else {
        assert((a + b).drop_last() =~= a + b.drop_last());
        assert((a + b).last() == b.last());
        lemma_utf16_append(a, b.drop_last());
    }
}

/// Whether an entity stands at a placeholder of `text`: some position of
/// `text` holds the placeholder and begins `offset` UTF-16 units in.
pub open spec fn points_at_placeholder(text: Seq<char>, offset: i64) -> bool {
    exists|j: int|
        0 <= j < text.len() && text[j] == '⚡' && #[trigger] utf16_len(text.take(j)) == offset
}

/// Every custom-emoji entity covers exactly one placeholder of the text
/// (when the text is not longer than `i64::MAX` UTF-16 units).
pub proof fn law_entities_cover_placeholders(parts: Seq<EmojiText>)
    requires
        utf16_len(emoji_text_spec(parts).0) <= i64::MAX,
    ensures
        forall|k: int|
            0 <= k < emoji_text_spec(parts).1.len() ==> #[trigger] emoji_text_spec(parts).1[k].1
                == 1 && points_at_placeholder(
                emoji_text_spec(parts).0,
                emoji_text_spec(parts).1[k].0,
            ),
    decreases parts.len(),
{
    if parts.len() > 0 {
        let init = parts.drop_last();
        let (t0, es0) = emoji_text_spec(init);
        let p = parts.last();
        let (t, es) = emoji_text_spec(parts);
        reveal_strlit("⚡");
        let extra = match p.custom_emoji_id {
            Some(id) => emoji_placeholder() + p.text@,
            None => p.text@,
        };
        assert(t =~= t0 + extra);
        lemma_utf16_append(t0, extra);
        law_entities_cover_placeholders(init);
        assert forall|k: int| 0 <= k < es0.len() implies points_at_placeholder(t, es0[k].0) by {
            assert(es0[k].1 == 1);
            assert(points_at_placeholder(t0, es0[k].0));
            let j = choose|j: int|
                0 <= j < t0.len() && t0[j] == '⚡' && #[trigger] utf16_len(t0.take(j)) == es0[k].0;
            assert(t[j] == t0[j]);
            assert(t.take(j) =~= t0.take(j));
        }
        match p.custom_emoji_id {
            Some(id) => {
                let j = t0.len() as int;
                assert(t[j] == '⚡');
                assert(t.take(j) =~= t0);
                assert(points_at_placeholder(t, capped(utf16_len(t0))));
                assert(es == es0.push((capped(utf16_len(t0)), 1i64, id@)));
                assert forall|k: int| 0 <= k < es.len() implies #[trigger] es[k].1 == 1
                    && points_at_placeholder(t, es[k].0) by {
                    if k < es0.len() {
                        assert(es[k] == es0[k]);
                    }
                }
            },
            None => {
                assert(es == es0);
            },
        }
    }
}

/// Adds the UTF-16 length of `s` to `n`, saturating at `u64::MAX`.
fn add_utf16_len(n: u64, s: &str) -> (r: u64)
    ensures
        r == if n + utf16_len(s@) <= u64::MAX {
            (n + utf16_len(s@)) as u64
        } else {
            u64::MAX
        },
{
    let cs = chars_of(s);
    let mut acc = n;
    let mut i: usize = 0;
    while i < cs.len()
        invariant
            i <= cs@.len(),
            cs@ == s@,
            acc == if n + utf16_len(cs@.take(i as int)) <= u64::MAX {
                (n + utf16_len(cs@.take(i as int))) as u64
            } else {
                u64::MAX
            },
        decreases cs.len() - i,
    {
        assert(cs@.take(i + 1).drop_last() =~= cs@.take(i as int));
        let w: u64 = if (cs[i] as u32) >= 0x10000 {
            2
        } else {
            1
        };
        acc = acc.saturating_add(w);
        i = i + 1;
    }
    assert(cs@.take(cs@.len() as int) =~= cs@);
    acc
}

/// `build_text_with_emojis`: the text of the pieces and the `custom_emoji`
/// entities for their emoji.
pub fn build_text_with_emojis(parts: &[EmojiText]) -> (r: (String, Vec<EmojiEntity>))
    ensures
        r.0@ == emoji_text_spec(parts@).0,
        entity_views(r.1@) == emoji_text_spec(parts@).1,
{
    let mut full_text = String::new();
    let mut entities: Vec<EmojiEntity> = Vec::new();
    let mut units: u64 = 0;
    let mut i: usize = 0;
    assert(parts@.subrange(0, 0) =~= Seq::<EmojiText>::empty());
    assert(entity_views(entities@) =~= Seq::<(i64, i64, Seq<char>)>::empty());
    while i < parts.len()
        invariant
            i <= parts@.len(),
            full_text@ == emoji_text_spec(parts@.subrange(0, i as int)).0,
            entity_views(entities@) == emoji_text_spec(parts@.subrange(0, i as int)).1,
            units == if utf16_len(full_text@) <= u64::MAX {
                utf16_len(full_text@) as u64
            } else {
                u64::MAX
            },
        decreases parts.len() - i,
    {
        let part = &parts[i];
        assert(parts@.subrange(0, i + 1).drop_last() =~= parts@.subrange(0, i as int));
        assert(parts@.subrange(0, i + 1).last() == parts@[i as int]);
        match &part.custom_emoji_id {
            Some(emoji_id) => {
                let offset: i64 = if units <= 9223372036854775807u64 {
                    units as i64
                } else {
                    9223372036854775807i64
                };
                let ghost before = entity_views(entities@);
                entities.push(
                    EmojiEntity { offset, length: 1, custom_emoji_id: emoji_id.clone() },
                );
                assert(entity_views(entities@) =~= before.push(
                    (capped(utf16_len(full_text@)), 1i64, emoji_id@),
                ));
                proof {
                    reveal_strlit("⚡");
                    lemma_utf16_append(full_text@, "⚡"@);
                    assert("⚡"@.drop_last() =~= Seq::<char>::empty());
                }
                units = add_utf16_len(units, "⚡");
                append(&mut full_text, "⚡");
            },
            None => {},
        }
        proof {
            lemma_utf16_append(full_text@, part.text@);
        }
        units = add_utf16_len(units, part.text.as_str());
        append(&mut full_text, part.text.as_str());
        i = i + 1;
    }
    assert(parts@.subrange(0, parts@.len() as int) =~= parts@);
    (full_text, entities)
}

// ---------------------------------------------------------------------
// Rich messages
// ---------------------------------------------------------------------

/// Arabic and Persian letters: U+0600..=U+06FF and U+FB50..=U+FDFF.
pub open spec fn is_persian(c: char) -> bool {
    (0x0600 <= c as u32 && c as u32 <= 0x06FF) || (0xFB50 <= c as u32 && c as u32 <= 0xFDFF)
}

/// Counts of (Persian letters, ASCII letters) in a text.
pub open spec fn script_counts(s: Seq<char>) -> (nat, nat)
    decreases s.len(),
{
    if s.len() == 0 {
        (0, 0)
    } else {
        let (p, l) = script_counts(s.drop_last());
        let c = s.last();
        if is_persian(c) {
            (p + 1, l)
        } else if crate::text::is_ascii_alpha(c) {
            (p, l + 1)
        } else {
            (p, l)
        }
    }
}

/// `detect_rtl`: whether a text has more Persian letters than ASCII ones.
pub fn detect_rtl(text: &str) -> (r: bool)
    ensures
        r == (script_counts(text@).0 > script_counts(text@).1),
{
    let cs = chars_of(text);
    let mut persian: usize = 0;
    let mut latin: usize = 0;
    let mut i: usize = 0;
    while i < cs.len()
        invariant
            i <= cs@.len(),
            cs@ == text@,
            persian + latin <= i,
            (persian as nat, latin as nat) == script_counts(cs@.take(i as int)),
        decreases cs.len() - i,
    {
        assert(cs@.take(i + 1).drop_last() =~= cs@.take(i as int));
        let ch = cs[i];
        let n = ch as u32;
        if (0x0600 <= n && n <= 0x06FF) || (0xFB50 <= n && n <= 0xFDFF) {
            persian = persian + 1;
        } else if crate::text::is_ascii_alphabetic(ch) {
            latin = latin + 1;
        }
        i = i + 1;
    }
    assert(cs@.take(cs@.len() as int) =~= cs@);
    persian > latin
}

/// The HTML escape of one character.
pub open spec fn escape_char(c: char) -> Seq<char> {
    if c == '&' {
        "&amp;"@
    } else if c == '<' {
        "&lt;"@
    } else if c == '>' {
        "&gt;"@
    } else {
        seq![c]
    }
}

/// A text with `&`, `<` and `>` escaped.
pub open spec fn escape_html_spec(s: Seq<char>) -> Seq<char>
    decreases s.len(),
{
    if s.len() == 0 {
        seq![]
    } else {
        escape_html_spec(s.drop_last()) + escape_char(s.last())
    }
}

/// `&`, `<` and `>` replaced by their entities, as the three replacements
/// of the HTML fallback do.
pub fn escape_html(s: &str) -> (r: String)
    ensures
        r@ == escape_html_spec(s@),
{
    let cs = chars_of(s);
    let mut out = String::new();
    let mut i: usize = 0;
    while i < cs.len()
        invariant
            i <= cs@.len(),
            cs@ == s@,
            out@ == escape_html_spec(cs@.take(i as int)),
        decreases cs.len() - i,
    {
        assert(cs@.take(i + 1).drop_last() =~= cs@.take(i as int));
        let c = cs[i];
        if c == '&' {
            append(&mut out, "&amp;");
        } else if c == '<' {
            append(&mut out, "&lt;");
        } else if c == '>' {
            append(&mut out, "&gt;");
        } else {
            push_char(&mut out, c);
            assert(out@ =~= escape_html_spec(cs@.take(i as int)) + seq![c]);
        }
        i = i + 1;
    }
    assert(cs@.take(cs@.len() as int) =~= cs@);
    out
}

/// The escaped text holds no `<` or `>`: the HTML fallback shows the text
/// as written and never as markup.
pub proof fn law_escaped_text_has_no_tags(s: Seq<char>)
    ensures
        forall|i: int|
            0 <= i < escape_html_spec(s).len() ==> #[trigger] escape_html_spec(s)[i] != '<'
                && escape_html_spec(s)[i] != '>',
    decreases s.len(),
{
    if s.len() > 0 {
        law_escaped_text_has_no_tags(s.drop_last());
        reveal_strlit("&amp;");
        reveal_strlit("&lt;");
        reveal_strlit("&gt;");
        let a = escape_html_spec(s.drop_last());
        let b = escape_char(s.last());
        assert forall|j: int| 0 <= j < b.len() implies b[j] != '<' && b[j] != '>' by {}
        assert forall|i: int| 0 <= i < (a + b).len() implies #[trigger] (a + b)[i] != '<' && (a
            + b)[i] != '>' by {
            if i < a.len() {
                assert((a + b)[i] == a[i]);
            } else {
                assert((a + b)[i] == b[i - a.len()]);
            }
        }
    }
}

/// The HTML body of the second attempt at a rich message: the text,
/// escaped, in one paragraph.
pub fn rich_html(markdown: &str) -> (r: String)
    ensures
        r@ == "<p>"@ + escape_html_spec(markdown@) + "</p>"@,
{
    let escaped = escape_html(markdown);
    concat3("<p>", escaped.as_str(), "</p>")
}

/// The body a rich message is sent with: rich Markdown first, then the
/// escaped text as rich HTML, then a plain text message.
#[derive(Debug, Clone, Copy, PartialEq, Eq, Structural)]
pub enum RichFormat {
    Markdown,
    Html,
    Plain,
}

/// The format tried after one that Telegram answered: none when it was
/// accepted or when the plain message was sent (its answer is final),
/// otherwise the next in the chain.
pub open spec fn next_rich_format_spec(current: RichFormat, accepted: bool) -> Option<RichFormat> {
    if accepted {
        None
    } else {
        match current {
            RichFormat::Markdown => Some(RichFormat::Html),
            RichFormat::Html => Some(RichFormat::Plain),
            RichFormat::Plain => None,
        }
    }
}

/// The fallback chain of `send_rich_message` and `edit_rich_message`.
pub fn next_rich_format(current: RichFormat, accepted: bool) -> (r: Option<RichFormat>)
    ensures
        r == next_rich_format_spec(current, accepted),
{
    if accepted {
        return None;
    }
    match current {
        RichFormat::Markdown => Some(RichFormat::Html),
        RichFormat::Html => Some(RichFormat::Plain),
        RichFormat::Plain => None,
    }
}

/// The chain makes at most three attempts, in the order Markdown, HTML,
/// plain, and the plain attempt is always the last.
pub proof fn law_rich_fallback_ends(a1: bool, a2: bool)
    ensures
        next_rich_format_spec(RichFormat::Plain, a1) is None,
        !a1 ==> next_rich_format_spec(RichFormat::Markdown, a1) == Some(RichFormat::Html),
        !a2 ==> next_rich_format_spec(RichFormat::Html, a2) == Some(RichFormat::Plain),
{
}

// ---------------------------------------------------------------------
// Keyboards and URLs
// ---------------------------------------------------------------------

/// What an inline button does.
pub enum InlineAction<'a> {
    Url(&'a str),
    Callback(&'a str),
}

/// An inline button.
pub struct InlineButton<'a> {
    pub text: &'a str,
    pub color: &'a str,
    pub action: InlineAction<'a>,
}

/// The rows of a keyboard of `n` buttons laid out two per row, as index
/// ranges `[start, end)`: row `k` holds buttons `2k` and `2k + 1`, the last
/// row only one when `n` is odd.
pub fn pair_rows(n: usize) -> (r: Vec<(usize, usize)>)
    ensures
        r@.len() == (n as int + 1) / 2,
        forall|k: int|
            0 <= k < r@.len() ==> (#[trigger] r@[k]).0 == 2 * k && r@[k].1 == if 2 * k + 2 <= n {
                2 * k + 2
            } else {
                n as int
            },
{
    let mut rows: Vec<(usize, usize)> = Vec::new();
    let mut start: usize = 0;
    while start < n
        invariant
            start <= n,
            rows@.len() == (start as int + 1) / 2,
            start < n ==> start == 2 * rows@.len(),
            forall|k: int|
                0 <= k < rows@.len() ==> (#[trigger] rows@[k]).0 == 2 * k && rows@[k].1 == if 2 * k
                    + 2 <= n {
                    2 * k + 2
                } else {
                    n as int
                },
        decreases n - start,
    {
        let end = if n - start >= 2 {
            start + 2
        } else {
            n
        };
        rows.push((start, end));
        start = end;
    }
    rows
}

/// The address of a Bot API method.
pub fn api_url(token: &str, method: &str) -> (r: String)
    ensures
        r@ == "https://api.telegram.org/bot"@ + token@ + "/"@ + method@,
{
    let mut r = concat3("https://api.telegram.org/bot", token, "/");
    append(&mut r, method);
    r
}

} // verus!
