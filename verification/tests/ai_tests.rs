use safeguard::ai::gemini::{
    all_models_failed_text, build_interactions_input, classify_event, collect_model_output,
    fallback_models, is_retryable_error, EventAction, GeminiEvent, ResponseStep,
    LAST_RESORT_MODEL, MODEL,
};
use safeguard::ai::{
    chat_messages, content_preserved, extract_signature, gemini, groq, provider_history,
    should_polish, stream_error_text, AutoForget, ForgetStep, HistoryItem, SseBuffer,
    StreamProgress, EMPTY_REPLY, MAX_FORGET_ROUNDS, RICH_MIN_CHARS,
};

fn entry(role: &str, content: &str, id: i64) -> (String, String, i64) {
    (role.to_string(), content.to_string(), id)
}

#[test]
fn context_full_errors() {
    assert!(gemini::is_context_full_error("Request too LONG"));
    assert!(gemini::is_context_full_error("Maximum context length"));
    assert!(gemini::is_context_full_error("HTTP 413"));
    assert!(gemini::is_context_full_error("Groq (400 Bad Request): x"));
    assert!(!gemini::is_context_full_error("503 UNAVAILABLE"));
    assert!(groq::is_context_full_error("TOKEN limit"));
    assert!(!groq::is_context_full_error("timeout"));
}

#[test]
fn retryable_errors() {
    assert!(is_retryable_error("Gemini خطا داد (503): busy"));
    assert!(is_retryable_error("UNAVAILABLE"));
    assert!(is_retryable_error("model under high demand"));
    assert!(is_retryable_error("gateway_timeout"));
    assert!(!is_retryable_error("Unavailable"));
    assert!(!is_retryable_error("400 bad request"));
}

#[test]
fn gemini_fallbacks() {
    assert_eq!(fallback_models("gemini-x"), vec!["gemini-x", MODEL, LAST_RESORT_MODEL]);
    assert_eq!(
        all_models_failed_text("e"),
        "همه مدل‌های جایگزین در دسترس نیستند. آخرین خطا: e"
    );
}

#[test]
fn interactions_input() {
    let h = vec![
        HistoryItem { role: "user".to_string(), content: "q".to_string() },
        HistoryItem { role: "assistant".to_string(), content: "a".to_string() },
        HistoryItem { role: "model".to_string(), content: "m".to_string() },
    ];
    let (steps, sys) = build_interactions_input(&h, Some("  "));
    assert_eq!(steps.len(), 3);
    assert_eq!(steps[0].step_type, "user_input");
    assert_eq!(steps[1].step_type, "model_output");
    assert_eq!(steps[2].step_type, "user_input");
    assert_eq!(steps[1].text, "a");
    assert_eq!(sys, None);
    assert_eq!(build_interactions_input(&h, Some("be kind")).1, Some("be kind".to_string()));
    assert_eq!(build_interactions_input(&h, None).1, None);
}

fn event(et: Option<&str>, dt: Option<&str>, text: Option<&str>, msg: Option<&str>, code: Option<&str>) -> GeminiEvent {
    GeminiEvent {
        event_type: et.map(|s| s.to_string()),
        delta_type: dt.map(|s| s.to_string()),
        delta_text: text.map(|s| s.to_string()),
        error_message: msg.map(|s| s.to_string()),
        error_code: code.map(|s| s.to_string()),
    }
}

#[test]
fn stream_events() {
    match classify_event(&event(Some("step.delta"), Some("text"), Some("hi"), None, None)) {
        EventAction::Text(t) => assert_eq!(t, "hi"),
        _ => panic!("expected text"),
    }
    assert!(matches!(classify_event(&event(Some("step.delta"), Some("thought"), Some("x"), None, None)), EventAction::Skip));
    assert!(matches!(classify_event(&event(Some("step.delta"), Some("text"), None, None, None)), EventAction::Skip));
    match classify_event(&event(Some("error"), None, None, None, None)) {
        EventAction::Fail(m) => assert_eq!(m, "Gemini خطا داد (): خطای نامشخص از Gemini"),
        _ => panic!("expected failure"),
    }
    match classify_event(&event(Some("error"), None, None, Some("quota"), Some("429"))) {
        EventAction::Fail(m) => assert_eq!(m, "Gemini خطا داد (429): quota"),
        _ => panic!("expected failure"),
    }
    assert!(matches!(classify_event(&event(None, None, None, None, None)), EventAction::Skip));
}

#[test]
fn one_shot_output() {
    let steps = vec![
        ResponseStep { step_type: Some("thought".to_string()), content: Some(vec![Some("no".to_string())]) },
        ResponseStep {
            step_type: Some("model_output".to_string()),
            content: Some(vec![Some("a".to_string()), None, Some("b".to_string())]),
        },
        ResponseStep { step_type: Some("model_output".to_string()), content: None },
        ResponseStep { step_type: Some("model_output".to_string()), content: Some(vec![Some("c".to_string())]) },
    ];
    assert_eq!(collect_model_output(&steps), Ok("abc".to_string()));
    assert_eq!(collect_model_output(&steps[..1]), Err("پاسخ خالی از Gemini".to_string()));
    assert_eq!(collect_model_output(&[]), Err("پاسخ خالی از Gemini".to_string()));
}

#[test]
fn sse_framing() {
    let mut b = SseBuffer::new();
    b.push_chunk("data: {\"a\":1}\n\ndata: [DONE]\n: comment\n  data: x  \ndata: par");
    assert_eq!(b.next_data(), Some("{\"a\":1}".to_string()));
    assert_eq!(b.next_data(), Some("x".to_string()));
    assert_eq!(b.next_data(), None);
    b.push_chunk("tial\n");
    assert_eq!(b.next_data(), Some("partial".to_string()));
    assert_eq!(b.next_data(), None);
}

#[test]
fn stream_progress_edits_at_most_every_700ms() {
    let mut p = StreamProgress::new(1_000_000_000);
    assert!(!p.add_piece("a", 1_100_000_000));
    assert!(p.add_piece("b", 1_700_000_000));
    // The edit took 100 ms; the pause counts from its end.
    p.mark_edited(1_800_000_000);
    assert!(!p.add_piece("c", 2_400_000_000));
    assert!(p.add_piece("", 2_500_000_000));
    assert_eq!(p.text(), "abc");
    assert_eq!(p.finish(), "abc");
    let q = StreamProgress::new(0);
    assert_eq!(q.finish(), EMPTY_REPLY);
    let mut r = StreamProgress::new(0);
    assert!(!r.add_piece("", 5_000_000_000));
    assert_eq!(stream_error_text("خطا در stream: ", "eof"), "خطا در stream: eof");
}

#[test]
fn chat_completion_messages() {
    let h = vec![
        ("model".to_string(), "m".to_string()),
        ("assistant".to_string(), "a".to_string()),
        ("user".to_string(), "u".to_string()),
        ("other".to_string(), "o".to_string()),
    ];
    let m = chat_messages(Some("sys"), &h);
    let roles: Vec<&str> = m.iter().map(|x| x.role).collect();
    assert_eq!(roles, vec!["system", "assistant", "assistant", "user", "user"]);
    assert_eq!(m[0].content, "sys");
    assert_eq!(m[4].content, "o");
    assert_eq!(chat_messages(Some(" \n"), &h).len(), 4);
    assert_eq!(chat_messages(None, &[]).len(), 0);
}

#[test]
fn provider_roles() {
    let h = vec![("assistant".to_string(), "a".to_string()), ("user".to_string(), "u".to_string()), ("x".to_string(), "x".to_string())];
    let p = provider_history(&h);
    assert_eq!(p, vec![
        ("model".to_string(), "a".to_string()),
        ("user".to_string(), "u".to_string()),
        ("user".to_string(), "x".to_string()),
    ]);
}

#[test]
fn auto_forget_halves_history() {
    let h = vec![entry("user", "1", 11), entry("assistant", "2", 12), entry("user", "3", 13), entry("assistant", "4", 14), entry("user", "5", 15)];
    let mut f = AutoForget::new(h);
    let first = f.next_attempt().unwrap();
    assert_eq!(first.len(), 5);
    assert_eq!(f.on_error("context window exceeded"), ForgetStep::Retry(12));
    let second = f.next_attempt().unwrap();
    assert_eq!(second, vec![
        ("user".to_string(), "3".to_string()),
        ("assistant".to_string(), "4".to_string()),
        ("user".to_string(), "5".to_string()),
    ]);
    assert_eq!(f.on_error("413"), ForgetStep::Retry(13));
    let third = f.next_attempt().unwrap();
    assert_eq!(third.len(), 2);
    assert_eq!(f.on_error("too long"), ForgetStep::Retry(14));
    assert_eq!(f.next_attempt().unwrap().len(), 1);
    assert_eq!(f.on_error("too long"), ForgetStep::GiveUp);
}

#[test]
fn auto_forget_gives_up_on_other_errors_and_after_five_rounds() {
    let mut f = AutoForget::new(vec![entry("user", "1", 1), entry("user", "2", 2)]);
    f.next_attempt();
    assert_eq!(f.on_error("connection refused"), ForgetStep::GiveUp);
    let mut g = AutoForget::new((0..100).map(|i| entry("user", "x", i)).collect());
    for _ in 0..MAX_FORGET_ROUNDS {
        assert!(g.next_attempt().is_some());
        g.on_error("token limit");
    }
    assert!(g.next_attempt().is_none());
}

#[test]
fn signatures_and_preservation() {
    assert_eq!(
        extract_signature("Visit https://x.io at 10.5 or @me, v1 x12"),
        vec!["https://x.io", "10.5", "@me,", "12"]
    );
    assert!(content_preserved("call 1234 now", "## Call\n- **1234** now"));
    assert!(!content_preserved("see https://a.b", "see the link"));
    assert!(content_preserved("no numbers here", "completely different"));
    assert!(content_preserved("x 99 @a", "x 99 @a"));
}

#[test]
fn polishing_threshold() {
    assert_eq!(RICH_MIN_CHARS, 100);
    assert!(!should_polish(&"a".repeat(100)));
    assert!(should_polish(&"a".repeat(101)));
    assert!(!should_polish(&"ب".repeat(100)));
}

#[test]
fn model_fallback_tries_three_models_while_unavailable() {
    let mut f = safeguard::ai::gemini::ModelFallback::new("gemini-pro-x");
    assert_eq!(f.next_model(), Some("gemini-pro-x".to_string()));
    assert!(matches!(f.on_error("Gemini خطا داد (503): busy".to_string()), safeguard::ai::gemini::FallbackStep::Next));
    assert_eq!(f.next_model(), Some(MODEL.to_string()));
    assert!(matches!(f.on_error("UNAVAILABLE".to_string()), safeguard::ai::gemini::FallbackStep::Next));
    assert_eq!(f.next_model(), Some(LAST_RESORT_MODEL.to_string()));
    assert!(matches!(f.on_error("high demand".to_string()), safeguard::ai::gemini::FallbackStep::Next));
    assert_eq!(f.next_model(), None);
    assert_eq!(f.exhausted_error(), "همه مدل‌های جایگزین در دسترس نیستند. آخرین خطا: high demand");
}

#[test]
fn model_fallback_stops_on_other_errors() {
    let mut f = safeguard::ai::gemini::ModelFallback::new(MODEL);
    assert_eq!(f.next_model(), Some(MODEL.to_string()));
    match f.on_error("Gemini خطا داد (400): bad".to_string()) {
        safeguard::ai::gemini::FallbackStep::Fail(e) => assert_eq!(e, "Gemini خطا داد (400): bad"),
        _ => panic!("expected the error"),
    }
    assert_eq!(f.exhausted_error(), "همه مدل‌های جایگزین در دسترس نیستند. آخرین خطا: ");
}

#[test]
fn context_full_on_lowered_text_and_forgetting_by_flag() {
    assert!(safeguard::ai::gemini::context_full_in("too long"));
    assert!(!safeguard::ai::gemini::context_full_in("TOO LONG"));
    let mut f = AutoForget::new(vec![entry("user", "a", 1), entry("user", "b", 2)]);
    assert_eq!(f.on_failure(false), ForgetStep::GiveUp);
    assert_eq!(f.on_failure(true), ForgetStep::Retry(1));
    assert_eq!(f.on_failure(true), ForgetStep::GiveUp);
}

fn read_all(chunks: &[&str]) -> Vec<String> {
    let mut b = SseBuffer::new();
    let mut out = Vec::new();
    for c in chunks {
        b.push_chunk(c);
        while let Some(p) = b.next_data() {
            out.push(p);
        }
    }
    out
}

#[test]
fn payloads_do_not_depend_on_chunking() {
    let stream = "data: {\"t\":\"سلام\"}\n\n: keep-alive\ndata: [DONE]\n data: two \ndata: three\n";
    let whole = read_all(&[stream]);
    assert_eq!(whole, vec!["{\"t\":\"سلام\"}", "two", "three"]);
    let chars: Vec<char> = stream.chars().collect();
    for cut in 0..=chars.len() {
        let a: String = chars[..cut].iter().collect();
        let b: String = chars[cut..].iter().collect();
        assert_eq!(read_all(&[&a, &b]), whole, "cut at {}", cut);
    }
    let singles: Vec<String> = chars.iter().map(|c| c.to_string()).collect();
    let refs: Vec<&str> = singles.iter().map(|s| s.as_str()).collect();
    assert_eq!(read_all(&refs), whole);
}
