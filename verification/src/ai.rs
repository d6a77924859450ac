//! The conversation side of the bot: framing of streamed model replies,
//! accumulation of the streamed text, automatic forgetting of old history
//! when a model's context is full, the messages sent to chat-completion
//! APIs, and the check that a reformatted reply lost no content.
use crate::text::{
    append, chars_eq, chars_of, chars_start_with_at, concat, copy_range, if_then,
    is_ascii_digit, is_blank, is_digit, lowercase, owned, split_whitespace, starts_with,
    starts_with_spec, str_eq, string_from_range, trim_bounds, trim_spec, views, words,
};
use vstd::prelude::*;

pub mod deepseek;
pub mod gemini;
pub mod groq;

verus! {

/// The text of a streamed reply when the model produced nothing.
pub const EMPTY_REPLY: &'static str = "متاسفانه پاسخی دریافت نشد.";

/// Replies up to this many characters are not reformatted.
pub const RICH_MIN_CHARS: usize = 100;

/// At most this many attempts are made while forgetting history.
pub const MAX_FORGET_ROUNDS: usize = 5;

/// Edits of the placeholder message are at least this far apart: 700 ms.
pub const MIN_EDIT_INTERVAL_NS: u64 = 700_000_000;

/// The error when every attempt failed even after forgetting.
pub const FORGET_EXHAUSTED: &'static str = "حتی بعد از فراموشی چندباره، باز هم پاسخ نگرفتیم.";

/// The instructions given to the model that reformats long replies.
pub const RICH_SYSTEM_PROMPT: &'static str = "You are a text formatter. You will receive a message that was generated by an AI assistant and sent in Telegram. Your ONLY job is to clean up and organize its formatting for Telegram's Rich Message feature (Markdown).\n\nRules:\n- Do NOT change the meaning, facts, numbers, links, usernames, or any content. Only reformat.\n- Fix any mixed-up or jumbled Persian/English text direction issues.\n- Where it genuinely helps clarity, use headers, bullet lists, numbered lists, tables, or blockquotes.\n- If the text is already clean and well-organized, or too short/simple to benefit, return it UNCHANGED.\n- Never add commentary, explanations, or anything not in the original text.\n- Output ONLY the reformatted text in Markdown, nothing else.";

/// The outcome of a streamed request.
pub struct StreamResult {
    pub full_text: String,
    pub model_used: String,
}

/// One turn of a conversation as sent to Gemini.
pub struct HistoryItem {
    pub role: String,
    pub content: String,
}

// ---------------------------------------------------------------------
// Framing of server-sent events
// ---------------------------------------------------------------------

/// The index of the first `c` in `s`.
pub open spec fn index_of_char(s: Seq<char>, c: char) -> Option<int>
    decreases s.len(),
{
    if s.len() == 0 {
        None
    } else if s[0] == c {
        Some(0)
    } else {
        match index_of_char(s.drop_first(), c) {
            Some(i) => Some(i + 1),
            None => None,
        }
    }
}

pub proof fn lemma_index_of_char(s: Seq<char>, c: char)
    ensures
        index_of_char(s, c) matches Some(i) ==> 0 <= i < s.len() && s[i] == c && forall|j: int|
            0 <= j < i ==> s[j] != c,
        index_of_char(s, c) is None ==> forall|j: int| 0 <= j < s.len() ==> s[j] != c,
    decreases s.len(),
{
    if s.len() > 0 {
        lemma_index_of_char(s.drop_first(), c);
        if s[0] != c {
            assert forall|j: int| 1 <= j < s.len() implies s[j] == s.drop_first()[j - 1] by {}
        }
    }
}

/// The prefix of a data line.
pub open spec fn data_prefix() -> Seq<char> {
    "data: "@
}

/// The payload of one line of the stream, if it carries one: the trimmed
/// line must begin with `data: `, and the rest must not be `[DONE]`.
pub open spec fn line_payload(line: Seq<char>) -> Option<Seq<char>> {
    let t = trim_spec(line);
    if starts_with_spec(t, data_prefix()) && t.skip(data_prefix().len() as int) != "[DONE]"@ {
        Some(t.skip(data_prefix().len() as int))
    } else {
        None
    }
}

/// Consumes complete lines of `buf` until one carries a payload: the rest
/// of the buffer and that payload; an incomplete last line stays.
pub open spec fn sse_next(buf: Seq<char>) -> (Seq<char>, Option<Seq<char>>)
    decreases buf.len(),
{
    match index_of_char(buf, '\n') {
        None => (buf, None),
        Some(i) => {
            proof {
                lemma_index_of_char(buf, '\n');
            }
            let rest = buf.skip(i + 1);
            match line_payload(buf.take(i)) {
                Some(p) => (rest, Some(p)),
                None => sse_next(rest),
            }
        },
    }
}

/// Bytes of a streamed reply, already decoded, waiting to be split into
/// lines.
pub struct SseBuffer {
    buf: Vec<char>,
}

impl View for SseBuffer {
    type V = Seq<char>;

    closed spec fn view(&self) -> Seq<char> {
        self.buf@
    }
}

fn find_char(cs: &[char], c: char) -> (r: Option<usize>)
    ensures
        match r {
            Some(i) => index_of_char(cs@, c) == Some(i as int),
            None => index_of_char(cs@, c) is None,
        },
{
    let mut i: usize = 0;
    proof {
        lemma_index_of_char(cs@, c);
    }
    while i < cs.len()
        invariant
            i <= cs@.len(),
            forall|j: int| 0 <= j < i ==> cs@[j] != c,
        decreases cs.len() - i,
    {
        if cs[i] == c {
            proof {
                lemma_first_index(cs@, c, i as int);
            }
            return Some(i);
        }
        i = i + 1;
    }
    proof {
        lemma_no_index(cs@, c);
    }
    None
}

proof fn lemma_first_index(s: Seq<char>, c: char, i: int)
    requires
        0 <= i < s.len(),
        s[i] == c,
        forall|j: int| 0 <= j < i ==> s[j] != c,
    ensures
        index_of_char(s, c) == Some(i),
    decreases i,
{
    if i > 0 {
        lemma_first_index(s.drop_first(), c, i - 1);
    }
}

proof fn lemma_no_index(s: Seq<char>, c: char)
    requires
        forall|j: int| 0 <= j < s.len() ==> s[j] != c,
    ensures
        index_of_char(s, c) is None,
    decreases s.len(),
{
    if s.len() > 0 {
        lemma_no_index(s.drop_first(), c);
    }
}

/// The payload of the line `cs[0..end]`, computed.
fn payload_of_line(cs: &[char], end: usize) -> (r: Option<String>)
    requires
        end <= cs@.len(),
    ensures
        match r {
            Some(p) => line_payload(cs@.take(end as int)) == Some(p@),
            None => line_payload(cs@.take(end as int)) is None,
        },
{
    let line = copy_range(cs, 0, end);
    assert(line@ == cs@.take(end as int)) by {
        assert(cs@.subrange(0, end as int) =~= cs@.take(end as int));
    }
    let (a, b) = trim_bounds(line.as_slice());
    let t = copy_range(line.as_slice(), a, b);
    let prefix = chars_of("data: ");
    let done = chars_of("[DONE]");
    assert(t@.subrange(0, t@.len() as int) =~= t@);
    if chars_start_with_at(t.as_slice(), 0, prefix.as_slice()) {
        let rest = copy_range(t.as_slice(), prefix.len(), t.len());
        assert(rest@ =~= t@.skip(prefix@.len() as int));
        if chars_eq(rest.as_slice(), done.as_slice()) {
            None
        } else {
            Some(string_from_range(rest.as_slice(), 0, rest.len()))
        }
    } else {
        None
    }
}

impl SseBuffer {
    /// An empty buffer.
    pub fn new() -> (r: SseBuffer)
        ensures
            r@ == Seq::<char>::empty(),
    {
        SseBuffer { buf: Vec::new() }
    }

    /// Appends a decoded chunk of the stream.
    pub fn push_chunk(&mut self, chunk: &str)
        ensures
            final(self)@ == old(self)@ + chunk@,
    {
        let cs = chars_of(chunk);
        let mut i: usize = 0;
        while i < cs.len()
            invariant
                i <= cs@.len(),
                cs@ == chunk@,
                self.buf@ == old(self).buf@ + cs@.subrange(0, i as int),
            decreases cs.len() - i,
        {
            self.buf.push(cs[i]);
            assert(old(self).buf@ + cs@.subrange(0, i + 1) =~= (old(self).buf@ + cs@.subrange(
                0,
                i as int,
            )).push(cs[i as int]));
            i = i + 1;
        }
        assert(cs@.subrange(0, cs@.len() as int) =~= cs@);
    }

    /// The payload of the next complete line that carries one, consuming
    /// the lines up to it; `None` when no complete line carries one (the
    /// lines read are consumed, an incomplete last line stays).
    pub fn next_data(&mut self) -> (r: Option<String>)
        ensures
            (final(self)@, match r {
                Some(p) => Some(p@),
                None => None,
            }) == sse_next(old(self)@),
    {
        loop
            invariant
                sse_next(old(self)@) == sse_next(self.buf@),
            decreases self.buf@.len(),
        {
            match find_char(self.buf.as_slice(), '\n') {
                None => {
                    return None;
                },
                Some(i) => {
                    proof {
                        lemma_index_of_char(self.buf@, '\n');
                    }
                    assert(i < self.buf.len());
                    let payload = payload_of_line(self.buf.as_slice(), i);
                    let rest = copy_range(self.buf.as_slice(), i + 1, self.buf.len());
                    assert(rest@ =~= self.buf@.skip(i + 1));
                    self.buf = rest;
                    match payload {
                        Some(p) => {
                            return Some(p);
                        },
                        None => {},
                    }
                },
            }
        }
    }
}

/// `[p]` for a payload, nothing otherwise.
pub open spec fn opt_seq(p: Option<Seq<char>>) -> Seq<Seq<char>> {
    match p {
        Some(x) => seq![x],
        None => seq![],
    }
}

/// The payloads of all complete lines of `buf`, in order, and the
/// incomplete last line.
pub open spec fn sse_all(buf: Seq<char>) -> (Seq<Seq<char>>, Seq<char>)
    decreases buf.len(),
{
    match index_of_char(buf, '\n') {
        None => (seq![], buf),
        Some(i) => {
            proof {
                lemma_index_of_char(buf, '\n');
            }
            let rest = sse_all(buf.skip(i + 1));
            (opt_seq(line_payload(buf.take(i))) + rest.0, rest.1)
        },
    }
}

proof fn lemma_index_of_char_concat(a: Seq<char>, b: Seq<char>, c: char)
    requires
        index_of_char(a, c) is Some,
    ensures
        index_of_char(a + b, c) == index_of_char(a, c),
    decreases a.len(),
{
    if a[0] != c {
        assert((a + b).drop_first() =~= a.drop_first() + b);
        lemma_index_of_char_concat(a.drop_first(), b, c);
    }
}

/// How the stream is cut into chunks does not change what is read: the
/// lines of `a + b` are those of `a`, then those of what `a` left
/// incomplete followed by `b`.
pub proof fn law_chunking_does_not_matter(a: Seq<char>, b: Seq<char>)
    ensures
        sse_all(a + b) == (
            sse_all(a).0 + sse_all(sse_all(a).1 + b).0,
            sse_all(sse_all(a).1 + b).1,
        ),
    decreases a.len(),
{
    match index_of_char(a, '\n') {
        None => {
            assert(Seq::<Seq<char>>::empty() + sse_all(a + b).0 =~= sse_all(a + b).0);
        },
        Some(i) => {
            lemma_index_of_char(a, '\n');
            lemma_index_of_char_concat(a, b, '\n');
            assert((a + b).take(i) =~= a.take(i));
            assert((a + b).skip(i + 1) =~= a.skip(i + 1) + b);
            law_chunking_does_not_matter(a.skip(i + 1), b);
            let o = opt_seq(line_payload(a.take(i)));
            let ra = sse_all(a.skip(i + 1));
            let rb = sse_all(ra.1 + b);
            assert(o + (ra.0 + rb.0) =~= (o + ra.0) + rb.0);
        },
    }
}

/// Each read of a buffer gives the next payload of its complete lines, in
/// order, and consumes the lines up to it; when no complete line carries a
/// payload, the read gives none and only the incomplete last line stays.
pub proof fn law_reads_follow_lines(buf: Seq<char>)
    ensures
        sse_all(buf).0.len() == 0 ==> sse_next(buf) == (sse_all(buf).1, None::<Seq<char>>),
        sse_all(buf).0.len() > 0 ==> sse_next(buf).1 == Some(sse_all(buf).0[0]) && sse_all(
            sse_next(buf).0,
        ) == (sse_all(buf).0.drop_first(), sse_all(buf).1),
    decreases buf.len(),
{
    match index_of_char(buf, '\n') {
        None => {},
        Some(i) => {
            lemma_index_of_char(buf, '\n');
            let rest = buf.skip(i + 1);
            law_reads_follow_lines(rest);
            let o = opt_seq(line_payload(buf.take(i)));
            let r = sse_all(rest);
            match line_payload(buf.take(i)) {
                Some(p) => {
                    assert((o + r.0).drop_first() =~= r.0);
                    assert((o + r.0)[0] == p);
                },
                None => {
                    assert(o + r.0 =~= r.0);
                },
            }
        },
    }
}

// ---------------------------------------------------------------------
// The text of a streamed reply
// ---------------------------------------------------------------------

/// The text received so far and when the placeholder was last edited.
pub struct StreamProgress {
    text: String,
    last_edit: u64,
}

/// `Instant::elapsed` on monotonic readings: zero when `then` is later.
pub open spec fn elapsed_ns(now: u64, then: u64) -> nat {
    if now >= then {
        (now - then) as nat
    } else {
        0
    }
}

impl StreamProgress {
    pub closed spec fn text_view(&self) -> Seq<char> {
        self.text@
    }

    pub closed spec fn last_edit_view(&self) -> u64 {
        self.last_edit
    }

    /// A reply that starts at `now` with no text.
    pub fn new(now: u64) -> (r: StreamProgress)
        ensures
            r.text_view() == Seq::<char>::empty(),
            r.last_edit_view() == now,
    {
        StreamProgress { text: String::new(), last_edit: now }
    }

    /// The text so far.
    pub fn text(&self) -> (r: &str)
        ensures
            r@ == self.text_view(),
    {
        self.text.as_str()
    }

    /// Adds a piece of text received at `now`; returns whether the
    /// placeholder is to be edited now: at least 700 ms after the last edit
    /// and with some text. The time of an edit is recorded once it is done
    /// (see [`StreamProgress::mark_edited`]).
    pub fn add_piece(&mut self, piece: &str, now: u64) -> (edit: bool)
        ensures
            final(self).text_view() == old(self).text_view() + piece@,
            edit == (elapsed_ns(now, old(self).last_edit_view()) >= MIN_EDIT_INTERVAL_NS
                && final(self).text_view().len() > 0),
            final(self).last_edit_view() == old(self).last_edit_view(),
    {
        append(&mut self.text, piece);
        let elapsed = if now >= self.last_edit {
            now - self.last_edit
        } else {
            0
        };
        let non_empty = !self.text.as_str().is_empty();
        elapsed >= MIN_EDIT_INTERVAL_NS && non_empty
    }

    /// Records that the placeholder was edited, the edit having returned at
    /// `now`: the next edit waits 700 ms from then.
    pub fn mark_edited(&mut self, now: u64)
        ensures
            final(self).text_view() == old(self).text_view(),
            final(self).last_edit_view() == now,
    {
        self.last_edit = now;
    }

    /// The final text: what was received, or [`EMPTY_REPLY`] when nothing
    /// was.
    pub fn finish(self) -> (r: String)
        ensures
            r@ == if self.text_view().len() == 0 {
                EMPTY_REPLY@
            } else {
                self.text_view()
            },
    {
        if self.text.as_str().is_empty() {
            owned(EMPTY_REPLY)
        } else {
            self.text
        }
    }
}

/// The error text of a failed read of a stream: `prefix` and the error.
pub fn stream_error_text(prefix: &str, err: &str) -> (r: String)
    ensures
        r@ == prefix@ + err@,
{
    concat(prefix, err)
}

// ---------------------------------------------------------------------
// Chat-completion messages (Groq, DeepSeek)
// ---------------------------------------------------------------------

/// One message of a chat-completion request.
pub struct ChatMessage {
    pub role: &'static str,
    pub content: String,
}

/// The role a history entry is sent with: "assistant" for "model" and
/// "assistant", "user" for anything else.
pub open spec fn chat_role(role: Seq<char>) -> Seq<char> {
    if role == "model"@ || role == "assistant"@ {
        "assistant"@
    } else {
        "user"@
    }
}

/// The views of chat messages as (role, content).
pub open spec fn chat_views(v: Seq<ChatMessage>) -> Seq<(Seq<char>, Seq<char>)> {
    v.map_values(|m: ChatMessage| (m.role@, m.content@))
}

/// The messages of a request: the system prompt first when it is given
/// and not blank, then the history with its roles mapped.
pub open spec fn chat_messages_spec(
    system_prompt: Option<Seq<char>>,
    history: Seq<(String, String)>,
) -> Seq<(Seq<char>, Seq<char>)> {
    let sys = match system_prompt {
        Some(sp) => if trim_spec(sp).len() > 0 {
            seq![("system"@, sp)]
        } else {
            seq![]
        },
        None => seq![],
    };
    sys + history.map_values(|e: (String, String)| (chat_role(e.0@), e.1@))
}

/// The messages of a Groq or DeepSeek request.
pub fn chat_messages(system_prompt: Option<&str>, history: &[(String, String)]) -> (r: Vec<
    ChatMessage,
>)
    ensures
        chat_views(r@) == chat_messages_spec(
            match system_prompt {
                Some(s) => Some(s@),
                None => None,
            },
            history@,
        ),
{
    let mut out: Vec<ChatMessage> = Vec::new();
    match system_prompt {
        Some(sp) => {
            if !is_blank(sp) {
                out.push(ChatMessage { role: "system", content: owned(sp) });
            }
        },
        None => {},
    }
    let ghost sys = chat_views(out@);
    assert(sys == chat_messages_spec(
        match system_prompt {
            Some(s) => Some(s@),
            None => None,
        },
        Seq::<(String, String)>::empty(),
    )) by {
        assert(chat_views(out@) =~= chat_messages_spec(
            match system_prompt {
                Some(s) => Some(s@),
                None => None,
            },
            Seq::<(String, String)>::empty(),
        ));
    }
    let mut i: usize = 0;
    while i < history.len()
        invariant
            i <= history@.len(),
            chat_views(out@) == sys + history@.subrange(0, i as int).map_values(
                |e: (String, String)| (chat_role(e.0@), e.1@),
            ),
        decreases history.len() - i,
    {
        let (role, content) = &history[i];
        let r = role.as_str();
        let mapped: &'static str = if str_eq(r, "model") || str_eq(r, "assistant") {
            "assistant"
        } else {
            "user"
        };
        let ghost before = out@;
        out.push(ChatMessage { role: mapped, content: content.clone() });
        assert(chat_views(out@) =~= chat_views(before).push((mapped@, content@)));
        assert(history@.subrange(0, i + 1).map_values(
            |e: (String, String)| (chat_role(e.0@), e.1@),
        ) =~= history@.subrange(0, i as int).map_values(
            |e: (String, String)| (chat_role(e.0@), e.1@),
        ).push((chat_role(role@), content@)));
        i = i + 1;
    }
    assert(history@.subrange(0, history@.len() as int) =~= history@);
    out
}

/// The history in the roles the chat-completion models are given: the
/// stored "assistant" becomes "model", everything else "user".
pub open spec fn provider_role(role: Seq<char>) -> Seq<char> {
    if role == "assistant"@ {
        "model"@
    } else {
        "user"@
    }
}

/// The history as handed to Groq and DeepSeek.
pub fn provider_history(plain: &[(String, String)]) -> (r: Vec<(String, String)>)
    ensures
        r@.len() == plain@.len(),
        forall|i: int|
            0 <= i < plain@.len() ==> (#[trigger] r@[i]).0@ == provider_role(plain@[i].0@) && r@[i].1@
                == plain@[i].1@,
{
    let mut out: Vec<(String, String)> = Vec::new();
    let mut i: usize = 0;
    while i < plain.len()
        invariant
            i <= plain@.len(),
            out@.len() == i,
            forall|j: int|
                0 <= j < i ==> (#[trigger] out@[j]).0@ == provider_role(plain@[j].0@) && out@[j].1@
                    == plain@[j].1@,
        decreases plain.len() - i,
    {
        let (r, c) = &plain[i];
        let role = if str_eq(r.as_str(), "assistant") {
            owned("model")
        } else {
            owned("user")
        };
        out.push((role, c.clone()));
        i = i + 1;
    }
    out
}

// ---------------------------------------------------------------------
// Forgetting history when the context is full
// ---------------------------------------------------------------------

/// How many of the oldest entries one round forgets: half, at least one.
pub open spec fn forget_count(len: nat) -> nat {
    if len / 2 >= 1 {
        len / 2
    } else {
        1
    }
}

/// What a failed attempt leads to.
#[derive(Debug, Clone, Copy, PartialEq, Eq, Structural)]
pub enum ForgetStep {
    /// Stop and report the error.
    GiveUp,
    /// The oldest entries were forgotten; mark the stored history as
    /// forgotten up to this id and try again.
    Retry(i64),
}

/// Successive attempts at a reply, forgetting the oldest half of the
/// history after each failure that says the context is full.
pub struct AutoForget {
    history: Vec<(String, String, i64)>,
    rounds: usize,
}

impl AutoForget {
    pub closed spec fn history_view(&self) -> Seq<(String, String, i64)> {
        self.history@
    }

    pub closed spec fn rounds_view(&self) -> nat {
        self.rounds as nat
    }

    /// Starts with the whole history (oldest first) and no attempt made.
    pub fn new(history: Vec<(String, String, i64)>) -> (r: AutoForget)
        ensures
            r.history_view() == history@,
            r.rounds_view() == 0,
    {
        AutoForget { history, rounds: 0 }
    }

    /// The history for the next attempt as (role, content) pairs, or
    /// `None` when [`MAX_FORGET_ROUNDS`] attempts have been made.
    pub fn next_attempt(&mut self) -> (r: Option<Vec<(String, String)>>)
        ensures
            final(self).history_view() == old(self).history_view(),
            old(self).rounds_view() >= MAX_FORGET_ROUNDS ==> r is None && final(self).rounds_view()
                == old(self).rounds_view(),
            old(self).rounds_view() < MAX_FORGET_ROUNDS ==> final(self).rounds_view() == old(
                self,
            ).rounds_view() + 1 && r is Some,
            r matches Some(v) ==> v@.len() == old(self).history_view().len() && forall|i: int|
                0 <= i < v@.len() ==> (#[trigger] v@[i]).0 == old(self).history_view()[i].0 && v@[i].1
                    == old(self).history_view()[i].1,
    {
        if self.rounds >= MAX_FORGET_ROUNDS {
            return None;
        }
        self.rounds = self.rounds + 1;
        let mut out: Vec<(String, String)> = Vec::new();
        let mut i: usize = 0;
        while i < self.history.len()
            invariant
                i <= self.history@.len(),
                out@.len() == i,
                forall|j: int|
                    0 <= j < i ==> (#[trigger] out@[j]).0 == self.history@[j].0 && out@[j].1
                        == self.history@[j].1,
            decreases self.history.len() - i,
        {
            let e = &self.history[i];
            out.push((e.0.clone(), e.1.clone()));
            i = i + 1;
        }
        Some(out)
    }

    /// Handles a failed attempt with error `err`: when the error says the
    /// context is full (see `gemini::is_context_full_error`) and more than
    /// one entry is left, the oldest half (at least one) is forgotten and
    /// the id of the last forgotten entry is returned; otherwise the run
    /// gives up and the history stays.
    pub fn on_error(&mut self, err: &str) -> (r: ForgetStep)
        ensures
            final(self).rounds_view() == old(self).rounds_view(),
            ({
                let h = old(self).history_view();
                if !crate::ai::gemini::context_full_spec(lowercase(err@)) || h.len() <= 1 {
                    r == ForgetStep::GiveUp && final(self).history_view() == h
                } else {
                    let cut = forget_count(h.len());
                    &&& final(self).history_view() == h.skip(cut as int)
                    &&& r == ForgetStep::Retry(h[cut - 1].2)
                }
            }),
    {
        let full = crate::ai::gemini::is_context_full_error(err);
        self.on_failure(full)
    }

    /// Handles a failed attempt, given whether its error says the context
    /// is full (see [`AutoForget::on_error`]).
    pub fn on_failure(&mut self, context_full: bool) -> (r: ForgetStep)
        ensures
            final(self).rounds_view() == old(self).rounds_view(),
            ({
                let h = old(self).history_view();
                if !context_full || h.len() <= 1 {
                    r == ForgetStep::GiveUp && final(self).history_view() == h
                } else {
                    let cut = forget_count(h.len());
                    &&& final(self).history_view() == h.skip(cut as int)
                    &&& r == ForgetStep::Retry(h[cut - 1].2)
                }
            }),
    {
        if !context_full || self.history.len() <= 1 {
            return ForgetStep::GiveUp;
        }
        let half = self.history.len() / 2;
        let cut = if half >= 1 {
            half
        } else {
            1
        };
        let last_id = self.history[cut - 1].2;
        let kept = self.history.split_off(cut);
        self.history = kept;
        ForgetStep::Retry(last_id)
    }
}

/// Forgetting keeps the newest entries in order and at least one of them,
/// and drops at least one.
pub proof fn law_forgetting_keeps_newest(h: Seq<(String, String, i64)>)
    requires
        h.len() > 1,
    ensures
        ({
            let cut = forget_count(h.len());
            &&& 1 <= cut < h.len()
            &&& h.skip(cut as int).len() >= 1
            &&& forall|i: int|
                0 <= i < h.len() - cut ==> #[trigger] h.skip(cut as int)[i] == h[i + cut]
        }),
{
}

// ---------------------------------------------------------------------
// Checking a reformatted reply
// ---------------------------------------------------------------------

/// The digits and dots of a word.
pub open spec fn digits_and_dots(w: Seq<char>) -> Seq<char> {
    w.filter(|c: char| is_digit(c) || c == '.')
}

/// What a word contributes to the signature: its digits and dots when
/// there are at least two of them, and the word itself when it is a link
/// or a mention.
pub open spec fn word_signature(w: Seq<char>) -> Seq<Seq<char>> {
    if_then(digits_and_dots(w).len() >= 2, digits_and_dots(w)) + if_then(
        starts_with_spec(w, "http://"@) || starts_with_spec(w, "https://"@) || starts_with_spec(
            w,
            "@"@,
        ),
        w,
    )
}

/// The signatures of a list of words, in order.
pub open spec fn words_signature(ws: Seq<Seq<char>>) -> Seq<Seq<char>>
    decreases ws.len(),
{
    if ws.len() == 0 {
        seq![]
    } else {
        words_signature(ws.drop_last()) + word_signature(ws.last())
    }
}

/// The numbers, links and mentions of a text, which reformatting must keep.
pub open spec fn signature(text: Seq<char>) -> Seq<Seq<char>> {
    words_signature(words(text))
}

proof fn lemma_words_signature_has(ws: Seq<Seq<char>>, k: int, x: Seq<char>)
    requires
        0 <= k < ws.len(),
        word_signature(ws[k]).contains(x),
    ensures
        words_signature(ws).contains(x),
    decreases ws.len(),
{
    let pre = words_signature(ws.drop_last());
    let last = word_signature(ws.last());
    if k == ws.len() - 1 {
        let j = choose|j: int| 0 <= j < last.len() && last[j] == x;
        assert((pre + last)[pre.len() + j] == x);
    } else {
        assert(ws.drop_last()[k] == ws[k]);
        lemma_words_signature_has(ws.drop_last(), k, x);
        let j = choose|j: int| 0 <= j < pre.len() && pre[j] == x;
        assert((pre + last)[j] == x);
    }
}

/// Every word of a text puts its numbers, links and mentions into the
/// text's signature: a word that starts with "http://", "https://" or "@"
/// is an item itself, and a word with at least two digits and dots gives
/// the item made of them, wherever the word stands.
pub proof fn law_signature_has_every_item(text: Seq<char>, k: int)
    requires
        0 <= k < words(text).len(),
    ensures
        ({
            let w = words(text)[k];
            &&& (starts_with_spec(w, "http://"@) || starts_with_spec(w, "https://"@)
                || starts_with_spec(w, "@"@)) ==> signature(text).contains(w)
            &&& digits_and_dots(w).len() >= 2 ==> signature(text).contains(digits_and_dots(w))
        }),
{
    let w = words(text)[k];
    let ws = word_signature(w);
    let a = if_then(digits_and_dots(w).len() >= 2, digits_and_dots(w));
    let b = if_then(
        starts_with_spec(w, "http://"@) || starts_with_spec(w, "https://"@) || starts_with_spec(w, "@"@),
        w,
    );
    if a.len() > 0 {
        assert(ws[0] == a[0]);
        assert(ws.contains(a[0]));
        lemma_words_signature_has(words(text), k, a[0]);
    }
    if b.len() > 0 {
        assert(ws[a.len() as int] == b[0]);
        assert(ws.contains(b[0]));
        lemma_words_signature_has(words(text), k, b[0]);
    }
}

/// Whether every signature item of `original` occurs in that of `polished`.
pub open spec fn preserved_spec(original: Seq<char>, polished: Seq<char>) -> bool {
    forall|i: int|
        0 <= i < signature(original).len() ==> signature(polished).contains(
            #[trigger] signature(original)[i],
        )
}

fn digits_and_dots_of(w: &str) -> (r: String)
    ensures
        r@ == digits_and_dots(w@),
{
    let cs = chars_of(w);
    let mut out: Vec<char> = Vec::new();
    let mut i: usize = 0;
    while i < cs.len()
        invariant
            i <= cs@.len(),
            cs@ == w@,
            out@ == cs@.take(i as int).filter(|c: char| is_digit(c) || c == '.'),
        decreases cs.len() - i,
    {
        reveal_with_fuel(Seq::<_>::filter, 1);
        assert(cs@.take(i + 1).drop_last() =~= cs@.take(i as int));
        let c = cs[i];
        if is_ascii_digit(c) || c == '.' {
            out.push(c);
        }
        i = i + 1;
    }
    assert(cs@.take(cs@.len() as int) =~= cs@);
    string_from_range(out.as_slice(), 0, out.len())
}

fn push_word_signature(out: &mut Vec<String>, w: &str)
    ensures
        views(final(out)@) == views(old(out)@) + word_signature(w@),
{
    let cleaned = digits_and_dots_of(w);
    let ghost v0 = views(out@);
    // The digits and dots are ASCII, so their byte length is their number.
    let n = cleaned.as_str().unicode_len();
    if n >= 2 {
        out.push(cleaned);
    }
    let ghost v1 = views(out@);
    assert(v1 =~= v0 + if_then(digits_and_dots(w@).len() >= 2, digits_and_dots(w@)));
    if starts_with(w, "http://") || starts_with(w, "https://") || starts_with(w, "@") {
        out.push(owned(w));
    }
    assert(views(out@) =~= v1 + if_then(
        starts_with_spec(w@, "http://"@) || starts_with_spec(w@, "https://"@) || starts_with_spec(
            w@,
            "@"@,
        ),
        w@,
    ));
}

/// `extract_signature`: the numbers (digits and dots, at least two),
/// links and mentions of a text, word by word.
pub fn extract_signature(text: &str) -> (r: Vec<String>)
    ensures
        views(r@) == signature(text@),
{
    let ws = split_whitespace(text);
    let mut out: Vec<String> = Vec::new();
    let mut i: usize = 0;
    assert(views(out@) =~= words_signature(views(ws@).subrange(0, 0)));
    while i < ws.len()
        invariant
            i <= ws@.len(),
            views(ws@) == words(text@),
            views(out@) == words_signature(views(ws@).subrange(0, i as int)),
        decreases ws.len() - i,
    {
        push_word_signature(&mut out, ws[i].as_str());
        assert(views(ws@).subrange(0, i + 1).drop_last() =~= views(ws@).subrange(0, i as int));
        assert(views(ws@).subrange(0, i + 1).last() == ws@[i as int]@);
        i = i + 1;
    }
    assert(views(ws@).subrange(0, ws@.len() as int) =~= views(ws@));
    out
}

fn contains_string(v: &Vec<String>, s: &str) -> (r: bool)
    ensures
        r == views(v@).contains(s@),
{
    let target = chars_of(s);
    let mut i: usize = 0;
    while i < v.len()
        invariant
            i <= v@.len(),
            target@ == s@,
            forall|j: int| 0 <= j < i ==> v@[j]@ != s@,
        decreases v.len() - i,
    {
        let c = chars_of(v[i].as_str());
        if chars_eq(c.as_slice(), target.as_slice()) {
            assert(views(v@)[i as int] == s@);
            return true;
        }
        i = i + 1;
    }
    assert(!views(v@).contains(s@)) by {
        if views(v@).contains(s@) {
            let k = choose|k: int| 0 <= k < views(v@).len() && views(v@)[k] == s@;
            assert(v@[k]@ == s@);
        }
    }
    false
}

/// `content_preserved`: whether every number, link and mention of the
/// original reply is still in the reformatted one.
pub fn content_preserved(original: &str, polished: &str) -> (r: bool)
    ensures
        r == preserved_spec(original@, polished@),
{
    let orig = extract_signature(original);
    let new = extract_signature(polished);
    let mut i: usize = 0;
    while i < orig.len()
        invariant
            i <= orig@.len(),
            views(orig@) == signature(original@),
            views(new@) == signature(polished@),
            forall|j: int| 0 <= j < i ==> signature(polished@).contains(#[trigger] signature(original@)[j]),
        decreases orig.len() - i,
    {
        if !contains_string(&new, orig[i].as_str()) {
            assert(signature(original@)[i as int] == orig@[i as int]@);
            return false;
        }
        i = i + 1;
    }
    true
}

/// A reply always preserves its own content: reformatting that changes
/// nothing is accepted.
pub proof fn law_content_preserved_reflexive(text: Seq<char>)
    ensures
        preserved_spec(text, text),
{
    assert forall|i: int| 0 <= i < signature(text).len() implies signature(text).contains(
        #[trigger] signature(text)[i],
    ) by {}
}

/// A polished reply preserves the original exactly when every item of the
/// original's signature (each number, link and mention, wherever it
/// stands) occurs in the polished reply's signature; one lost item, at any
/// position, is enough for the reply to count as not preserved.
pub proof fn law_preserved_iff_no_item_lost(original: Seq<char>, polished: Seq<char>, k: int)
    ensures
        preserved_spec(original, polished) <==> (forall|x: Seq<char>|
            signature(original).contains(x) ==> signature(polished).contains(x)),
        0 <= k < signature(original).len() && !signature(polished).contains(signature(original)[k])
            ==> !preserved_spec(original, polished),
{
    let so = signature(original);
    let sp = signature(polished);
    if preserved_spec(original, polished) {
        assert forall|x: Seq<char>| so.contains(x) implies sp.contains(x) by {
            let j = choose|j: int| 0 <= j < so.len() && so[j] == x;
            assert(sp.contains(so[j]));
        }
    }
    if forall|x: Seq<char>| so.contains(x) ==> sp.contains(x) {
        assert forall|i: int| 0 <= i < so.len() implies sp.contains(#[trigger] so[i]) by {
            assert(so.contains(so[i]));
        }
    }
}

/// Whether a reply is long enough to be reformatted: more than
/// [`RICH_MIN_CHARS`] characters.
pub fn should_polish(text: &str) -> (r: bool)
    ensures
        r == (text@.len() > RICH_MIN_CHARS),
{
    text.unicode_len() > RICH_MIN_CHARS
}

} // verus!
