//! The Gemini provider: request input, event classification of the
//! stream, the fallback between models and the reading of one-shot
//! replies.
use crate::ai::HistoryItem;
use crate::text::{
    append, concat, concat3, contains, contains_spec, is_blank, lowercase, owned, str_eq,
    to_lowercase, trim_spec,
};
use vstd::prelude::*;

verus! {

/// The default Gemini model.
pub const MODEL: &'static str = "gemini-3.5-flash-lite";

/// The last model tried when the others are unavailable.
pub const LAST_RESORT_MODEL: &'static str = "gemini-3.5-flash";

// ---------------------------------------------------------------------
// Errors
// ---------------------------------------------------------------------

/// Whether a lower-cased error text says the context is full: it mentions
/// "context", "token", "too long", "maximum", "413" or "400".
pub open spec fn context_full_spec(l: Seq<char>) -> bool {
    contains_spec(l, "context"@) || contains_spec(l, "token"@) || contains_spec(l, "too long"@)
        || contains_spec(l, "maximum"@) || contains_spec(l, "413"@) || contains_spec(l, "400"@)
}

/// `is_context_full_error`: whether an error text, lower-cased, says the
/// model's context is full.
pub fn is_context_full_error(err: &str) -> (r: bool)
    ensures
        r == context_full_spec(lowercase(err@)),
{
    let lower = to_lowercase(err);
    context_full_in(lower.as_str())
}

/// Whether an already lower-cased error text says the context is full.
pub fn context_full_in(l: &str) -> (r: bool)
    ensures
        r == context_full_spec(l@),
{
    contains(l, "context") || contains(l, "token") || contains(l, "too long") || contains(
        l,
        "maximum",
    ) || contains(l, "413") || contains(l, "400")
}

/// Whether an error means the model is temporarily unavailable, so the
/// next model is tried: it mentions "503", "UNAVAILABLE", "high demand",
/// "unavailable" or "gateway_timeout" (case as written).
pub open spec fn retryable_spec(e: Seq<char>) -> bool {
    contains_spec(e, "503"@) || contains_spec(e, "UNAVAILABLE"@) || contains_spec(e, "high demand"@)
        || contains_spec(e, "unavailable"@) || contains_spec(e, "gateway_timeout"@)
}

/// Whether to try the next model after this error.
pub fn is_retryable_error(e: &str) -> (r: bool)
    ensures
        r == retryable_spec(e@),
{
    contains(e, "503") || contains(e, "UNAVAILABLE") || contains(e, "high demand") || contains(
        e,
        "unavailable",
    ) || contains(e, "gateway_timeout")
}

/// The models tried in turn for a request to `model`: `model`, then
/// [`MODEL`], then [`LAST_RESORT_MODEL`].
pub fn fallback_models(model: &str) -> (r: Vec<String>)
    ensures
        r@.len() == 3,
        r@[0]@ == model@,
        r@[1]@ == MODEL@,
        r@[2]@ == LAST_RESORT_MODEL@,
{
    let mut v: Vec<String> = Vec::new();
    v.push(owned(model));
    v.push(owned(MODEL));
    v.push(owned(LAST_RESORT_MODEL));
    v
}

/// What a failed attempt of the fallback chain leads to.
pub enum FallbackStep {
    /// The model is unavailable: try the next one.
    Next,
    /// Stop with this error.
    Fail(String),
}

/// The attempts of one request over [`fallback_models`]: each failure that
/// says the model is unavailable moves on to the next model; any other
/// failure ends the request with its error.
pub struct ModelFallback {
    models: Vec<String>,
    tried: usize,
    last_error: String,
}

impl ModelFallback {
    pub closed spec fn models_view(&self) -> Seq<Seq<char>> {
        crate::text::views(self.models@)
    }

    pub closed spec fn tried_view(&self) -> nat {
        self.tried as nat
    }

    pub closed spec fn last_error_view(&self) -> Seq<char> {
        self.last_error@
    }

    /// No attempt made yet for a request to `model`.
    pub fn new(model: &str) -> (r: ModelFallback)
        ensures
            r.models_view() == seq![model@, MODEL@, LAST_RESORT_MODEL@],
            r.tried_view() == 0,
            r.last_error_view() == Seq::<char>::empty(),
    {
        let models = fallback_models(model);
        let r = ModelFallback { models, tried: 0, last_error: String::new() };
        assert(r.models_view() =~= seq![model@, MODEL@, LAST_RESORT_MODEL@]);
        r
    }

    /// The model of the next attempt, or `None` when all three were tried.
    pub fn next_model(&mut self) -> (r: Option<String>)
        requires
            old(self).models_view().len() == 3,
            old(self).tried_view() <= 3,
        ensures
            final(self).models_view() == old(self).models_view(),
            final(self).last_error_view() == old(self).last_error_view(),
            old(self).tried_view() < 3 ==> final(self).tried_view() == old(self).tried_view() + 1
                && r is Some,
            r matches Some(m) ==> m@ == old(self).models_view()[old(self).tried_view() as int],
            old(self).tried_view() >= 3 ==> r is None && final(self).tried_view() == old(
                self,
            ).tried_view(),
    {
        if self.tried >= self.models.len() {
            return None;
        }
        let m = self.models[self.tried].clone();
        self.tried = self.tried + 1;
        Some(m)
    }

    /// Handles a failed attempt: an unavailable model (see
    /// [`retryable_spec`]) is recorded and the next one is due; any other
    /// error ends the request.
    pub fn on_error(&mut self, err: String) -> (r: FallbackStep)
        ensures
            final(self).models_view() == old(self).models_view(),
            final(self).tried_view() == old(self).tried_view(),
            retryable_spec(err@) ==> r is Next && final(self).last_error_view() == err@,
            !retryable_spec(err@) ==> (r matches FallbackStep::Fail(e) && e@ == err@)
                && final(self).last_error_view() == old(self).last_error_view(),
    {
        if is_retryable_error(err.as_str()) {
            self.last_error = err;
            FallbackStep::Next
        } else {
            FallbackStep::Fail(err)
        }
    }

    /// The error once every model was unavailable.
    pub fn exhausted_error(&self) -> (r: String)
        ensures
            r@ == "همه مدل‌های جایگزین در دسترس نیستند. آخرین خطا: "@ + self.last_error_view(),
    {
        all_models_failed_text(self.last_error.as_str())
    }
}

/// The error after every model was unavailable.
pub fn all_models_failed_text(last_error: &str) -> (r: String)
    ensures
        r@ == "همه مدل‌های جایگزین در دسترس نیستند. آخرین خطا: "@ + last_error@,
{
    concat("همه مدل‌های جایگزین در دسترس نیستند. آخرین خطا: ", last_error)
}

/// The error text for an unsuccessful HTTP status.
pub fn http_error_text(status: &str, body: &str) -> (r: String)
    ensures
        r@ == "Gemini خطا داد ("@ + status@ + "): "@ + body@,
{
    let mut r = concat3("Gemini خطا داد (", status, "): ");
    append(&mut r, body);
    r
}

/// The error text when Gemini cannot be reached.
pub fn connect_error_text(err: &str) -> (r: String)
    ensures
        r@ == "خطا در اتصال به Gemini: "@ + err@,
{
    concat("خطا در اتصال به Gemini: ", err)
}

/// The error text when a reply cannot be read as JSON.
pub fn parse_error_text(err: &str) -> (r: String)
    ensures
        r@ == "خطا در پارس پاسخ Gemini: "@ + err@,
{
    concat("خطا در پارس پاسخ Gemini: ", err)
}

// ---------------------------------------------------------------------
// Request input
// ---------------------------------------------------------------------

/// One step of the `input` of an interaction.
pub struct InteractionStep {
    pub step_type: &'static str,
    pub text: String,
}

/// The step type of a history entry: "model_output" for the assistant,
/// "user_input" otherwise.
pub open spec fn step_type_spec(role: Seq<char>) -> Seq<char> {
    if role == "assistant"@ {
        "model_output"@
    } else {
        "user_input"@
    }
}

/// The system instruction: the prompt when it is given and not blank.
pub open spec fn system_instruction_spec(p: Option<Seq<char>>) -> Option<Seq<char>> {
    match p {
        Some(sp) => if trim_spec(sp).len() > 0 {
            Some(sp)
        } else {
            None
        },
        None => None,
    }
}

/// `build_interactions_input`: one step per history entry, in order, and
/// the system instruction.
pub fn build_interactions_input(history: &[HistoryItem], system_prompt: Option<&str>) -> (r: (
    Vec<InteractionStep>,
    Option<String>,
))
    ensures
        r.0@.len() == history@.len(),
        forall|i: int|
            0 <= i < history@.len() ==> (#[trigger] r.0@[i]).step_type@ == step_type_spec(
                history@[i].role@,
            ) && r.0@[i].text@ == history@[i].content@,
        match r.1 {
            Some(s) => system_instruction_spec(
                match system_prompt {
                    Some(p) => Some(p@),
                    None => None,
                },
            ) == Some(s@),
            None => system_instruction_spec(
                match system_prompt {
                    Some(p) => Some(p@),
                    None => None,
                },
            ) is None,
        },
{
    let mut steps: Vec<InteractionStep> = Vec::new();
    let mut i: usize = 0;
    while i < history.len()
        invariant
            i <= history@.len(),
            steps@.len() == i,
            forall|j: int|
                0 <= j < i ==> (#[trigger] steps@[j]).step_type@ == step_type_spec(
                    history@[j].role@,
                ) && steps@[j].text@ == history@[j].content@,
        decreases history.len() - i,
    {
        let item = &history[i];
        let step_type: &'static str = if str_eq(item.role.as_str(), "assistant") {
            "model_output"
        } else {
            "user_input"
        };
        steps.push(InteractionStep { step_type, text: item.content.clone() });
        i = i + 1;
    }
    let sys = match system_prompt {
        Some(sp) => if is_blank(sp) {
            None
        } else {
            Some(owned(sp))
        },
        None => None,
    };
    (steps, sys)
}

// ---------------------------------------------------------------------
// Stream events
// ---------------------------------------------------------------------

/// What the stream handling reads of one event: its `event_type`,
/// `delta.type`, `delta.text`, `error.message` and `error.code`, each when
/// it is a text.
pub struct GeminiEvent {
    pub event_type: Option<String>,
    pub delta_type: Option<String>,
    pub delta_text: Option<String>,
    pub error_message: Option<String>,
    pub error_code: Option<String>,
}

/// What to do with an event.
pub enum EventAction {
    /// Append this text to the reply.
    Text(String),
    /// Stop with this error.
    Fail(String),
    /// Nothing.
    Skip,
}

/// The view of an optional text, with a default.
pub open spec fn text_or(s: Option<String>, default: Seq<char>) -> Seq<char> {
    match s {
        Some(t) => t@,
        None => default,
    }
}

/// The action for an event: a text delta adds its text; an error event
/// fails with "Gemini خطا داد (code): message" (an empty code and a stock
/// message when they are missing); anything else is skipped.
pub open spec fn event_action_spec(e: GeminiEvent) -> (int, Seq<char>) {
    let et = text_or(e.event_type, seq![]);
    if et == "step.delta"@ {
        if text_or(e.delta_type, seq![]) == "text"@ && e.delta_text is Some {
            (1, e.delta_text->0@)
        } else {
            (0, seq![])
        }
    } else if et == "error"@ {
        (
            2,
            "Gemini خطا داد ("@ + text_or(e.error_code, seq![]) + "): "@ + text_or(
                e.error_message,
                "خطای نامشخص از Gemini"@,
            ),
        )
    } else {
        (0, seq![])
    }
}

fn text_or_exec(s: &Option<String>, default: &str) -> (r: String)
    ensures
        r@ == text_or(*s, default@),
{
    match s {
        Some(t) => t.clone(),
        None => owned(default),
    }
}

/// Classifies a stream event (see [`event_action_spec`]: 0 `Skip`,
/// 1 `Text`, 2 `Fail`).
pub fn classify_event(e: &GeminiEvent) -> (r: EventAction)
    ensures
        ({
            let s = event_action_spec(*e);
            match r {
                EventAction::Skip => s.0 == 0,
                EventAction::Text(t) => s.0 == 1 && t@ == s.1,
                EventAction::Fail(m) => s.0 == 2 && m@ == s.1,
            }
        }),
{
    let et = text_or_exec(&e.event_type, "");
    proof {
        reveal_strlit("");
        assert(""@ =~= Seq::<char>::empty());
    }
    if str_eq(et.as_str(), "step.delta") {
        let dt = text_or_exec(&e.delta_type, "");
        if str_eq(dt.as_str(), "text") {
            match &e.delta_text {
                Some(t) => EventAction::Text(t.clone()),
                None => EventAction::Skip,
            }
        } else {
            EventAction::Skip
        }
    } else if str_eq(et.as_str(), "error") {
        let code = text_or_exec(&e.error_code, "");
        let msg = text_or_exec(&e.error_message, "خطای نامشخص از Gemini");
        let mut r = concat3("Gemini خطا داد (", code.as_str(), "): ");
        append(&mut r, msg.as_str());
        EventAction::Fail(r)
    } else {
        EventAction::Skip
    }
}

// ---------------------------------------------------------------------
// One-shot replies
// ---------------------------------------------------------------------

/// What is read of one step of a one-shot reply: its `type` when it is a
/// text, and the `text` of each content part (`None` for a part without
/// one; `content` is `None` when it is not a list).
pub struct ResponseStep {
    pub step_type: Option<String>,
    pub content: Option<Vec<Option<String>>>,
}

/// The texts of a list of content parts, concatenated.
pub open spec fn parts_text(parts: Seq<Option<String>>) -> Seq<char>
    decreases parts.len(),
{
    if parts.len() == 0 {
        seq![]
    } else {
        parts_text(parts.drop_last()) + text_or(parts.last(), seq![])
    }
}

/// The text a step contributes: its parts' texts when it is model output.
pub open spec fn step_text(s: ResponseStep) -> Seq<char> {
    if s.step_type matches Some(t) && t@ == "model_output"@ {
        match s.content {
            Some(parts) => parts_text(parts@),
            None => seq![],
        }
    } else {
        seq![]
    }
}

/// The text of all steps, in order.
pub open spec fn steps_text(steps: Seq<ResponseStep>) -> Seq<char>
    decreases steps.len(),
{
    if steps.len() == 0 {
        seq![]
    } else {
        steps_text(steps.drop_last()) + step_text(steps.last())
    }
}

fn append_step_text(out: &mut String, step: &ResponseStep)
    ensures
        final(out)@ == old(out)@ + step_text(*step),
{
    let is_output = match &step.step_type {
        Some(t) => str_eq(t.as_str(), "model_output"),
        None => false,
    };
    if !is_output {
        assert(old(out)@ + Seq::<char>::empty() =~= old(out)@);
        return;
    }
    match &step.content {
        Some(parts) => {
            let ghost start = out@;
            let mut i: usize = 0;
            assert(parts_text(parts@.subrange(0, 0)) =~= Seq::<char>::empty());
            assert(start + Seq::<char>::empty() =~= start);
            while i < parts.len()
                invariant
                    i <= parts@.len(),
                    out@ == start + parts_text(parts@.subrange(0, i as int)),
                decreases parts.len() - i,
            {
                match &parts[i] {
                    Some(t) => append(out, t.as_str()),
                    None => {},
                }
                assert(parts@.subrange(0, i + 1).drop_last() =~= parts@.subrange(0, i as int));
                assert(parts@.subrange(0, i + 1).last() == parts@[i as int]);
                assert(out@ =~= start + parts_text(parts@.subrange(0, i + 1)));
                i = i + 1;
            }
            assert(parts@.subrange(0, parts@.len() as int) =~= parts@);
        },
        None => {
            assert(old(out)@ + Seq::<char>::empty() =~= old(out)@);
        },
    }
}

/// `complete_once`'s reading of a reply: the text of its model-output
/// steps, or the error "پاسخ خالی از Gemini" when that text is empty.
pub fn collect_model_output(steps: &[ResponseStep]) -> (r: Result<String, String>)
    ensures
        match r {
            Ok(t) => t@ == steps_text(steps@) && t@.len() > 0,
            Err(e) => steps_text(steps@).len() == 0 && e@ == "پاسخ خالی از Gemini"@,
        },
{
    let mut out = String::new();
    let mut i: usize = 0;
    assert(steps_text(steps@.subrange(0, 0)) =~= Seq::<char>::empty());
    while i < steps.len()
        invariant
            i <= steps@.len(),
            out@ == steps_text(steps@.subrange(0, i as int)),
        decreases steps.len() - i,
    {
        append_step_text(&mut out, &steps[i]);
        assert(steps@.subrange(0, i + 1).drop_last() =~= steps@.subrange(0, i as int));
        assert(steps@.subrange(0, i + 1).last() == steps@[i as int]);
        i = i + 1;
    }
    assert(steps@.subrange(0, steps@.len() as int) =~= steps@);
    if out.as_str().is_empty() {
        Err(owned("پاسخ خالی از Gemini"))
    } else {
        Ok(out)
    }
}

} // verus!
