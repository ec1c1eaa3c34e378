use chat_relay::codec::{completion_body, json_escape};
use chat_relay::dispatch::{millis_of_nanos, timing_line, ui_tag, EventKind};
use chat_relay::logging::log_directives;
use chat_relay::parse::{
    classify_command, parse_legacy, validate_model, Command, CommandKind, LegacyOutcome,
    ValidationError,
};
use chat_relay::router::{
    chat_complete, chat_request, clear_session, completion_request_body, HandlerError,
    TransportOutcome,
};
use chat_relay::schema::command_schema;
use chat_relay::session::SessionStore;
use chat_relay::text::{i64_dec, u64_dec};
use chat_relay::window::{assemble_context, build_prompt_window, window_tail};

fn ok_body(text: &str) -> TransportOutcome {
    let mut choice = serde_json::Map::new();
    choice.insert(
        "text".to_string(),
        serde_json::Value::String(text.to_string()),
    );
    let mut root = serde_json::Map::new();
    root.insert(
        "choices".to_string(),
        serde_json::Value::Array(vec![serde_json::Value::Object(choice)]),
    );
    TransportOutcome::Body(serde_json::Value::Object(root).to_string().into_bytes())
}

#[test]
fn window_keeps_short_text() {
    assert_eq!(window_tail("hello"), "hello");
    assert_eq!(window_tail(""), "");
    let exactly = "a".repeat(2000);
    assert_eq!(window_tail(&exactly), exactly.as_str());
}

#[test]
fn window_cuts_to_trailing_bytes() {
    let s = format!("{}{}", "x".repeat(700), "y".repeat(2000));
    let w = window_tail(&s);
    assert_eq!(w.len(), 2000);
    assert_eq!(w, "y".repeat(2000).as_str());
    let barely = "b".repeat(2001);
    assert_eq!(window_tail(&barely), "b".repeat(2000).as_str());
}

#[test]
fn window_respects_char_boundary() {
    // The cut point lands on the second byte of the two-byte character, so
    // the slice starts one byte earlier, at its boundary.
    let s = format!("x\u{e9}{}", "b".repeat(1999));
    assert_eq!(s.len(), 2002);
    let w = window_tail(&s);
    assert_eq!(w.len(), 2001);
    assert_eq!(w, format!("\u{e9}{}", "b".repeat(1999)).as_str());
}

#[test]
fn assembled_context_format() {
    assert_eq!(
        assemble_context("earlier text", "Alice", "hi there"),
        "earlier text\n\nPrompt from Alice: hi there"
    );
}

#[test]
fn build_prompt_window_keeps_short_context() {
    assert_eq!(
        build_prompt_window("h", "Bob", "p"),
        "h\n\nPrompt from Bob: p"
    );
}

#[test]
fn build_prompt_window_cuts_long_context() {
    let transcript = "t".repeat(3000);
    let sent = build_prompt_window(&transcript, "Bob", "p");
    let full = format!("{}\n\nPrompt from Bob: p", transcript);
    assert_eq!(sent.len(), 2000);
    assert_eq!(sent.as_str(), &full[full.len() - 2000..]);
}

#[test]
fn parse_clear_exact_body_only() {
    assert!(matches!(
        parse_legacy("-clear"),
        LegacyOutcome::Invoke(Command::Clear)
    ));
    assert!(matches!(parse_legacy("-clear "), LegacyOutcome::NotACommand));
    assert!(matches!(parse_legacy(" -clear"), LegacyOutcome::NotACommand));
}

#[test]
fn parse_enabled_chat() {
    match parse_legacy("-chat davinci hello world") {
        LegacyOutcome::Invoke(Command::Chat { model, prompt }) => {
            assert_eq!(model, "davinci");
            assert_eq!(prompt, "hello world");
        }
        _ => panic!("expected a chat invocation"),
    }
}

#[test]
fn parse_keeps_prompt_verbatim() {
    match parse_legacy("-chat davinci  two  spaces ") {
        LegacyOutcome::Invoke(Command::Chat { model, prompt }) => {
            assert_eq!(model, "davinci");
            assert_eq!(prompt, " two  spaces ");
        }
        _ => panic!("expected a chat invocation"),
    }
}

#[test]
fn parse_ignores_other_bodies() {
    assert!(matches!(parse_legacy("hello"), LegacyOutcome::NotACommand));
    assert!(matches!(parse_legacy("-chat"), LegacyOutcome::NotACommand));
    assert!(matches!(parse_legacy("-chatty x"), LegacyOutcome::NotACommand));
    assert!(matches!(parse_legacy(""), LegacyOutcome::NotACommand));
}

#[test]
fn parse_rejects_unknown_model() {
    match parse_legacy("-chat gpt4 hi") {
        LegacyOutcome::Rejected(e) => {
            assert!(matches!(&e, ValidationError::UnknownModel(m) if m == "gpt4"));
            assert_eq!(
                e.message(),
                "Model should be one of: `davinci`, `curie`, `babbage`, and `ada`. Found `gpt4`."
            );
        }
        _ => panic!("expected a rejection"),
    }
}

#[test]
fn parse_rejects_empty_model_token() {
    match parse_legacy("-chat  hi") {
        LegacyOutcome::Rejected(e) => {
            assert!(matches!(&e, ValidationError::UnknownModel(m) if m.is_empty()));
        }
        _ => panic!("expected a rejection"),
    }
}

#[test]
fn parse_rejects_disabled_model() {
    match parse_legacy("-chat curie hi") {
        LegacyOutcome::Rejected(e) => {
            assert!(matches!(&e, ValidationError::DisabledModel(m) if m == "curie"));
            assert_eq!(e.message(), "Only `davinci` works. Found `curie`.");
        }
        _ => panic!("expected a rejection"),
    }
}

#[test]
fn parse_rejects_missing_prompt() {
    match parse_legacy("-chat davinci") {
        LegacyOutcome::Rejected(e) => {
            assert!(matches!(e, ValidationError::MissingPrompt));
            assert_eq!(e.message(), "A prompt is needed to give to the AI.");
        }
        _ => panic!("expected a rejection"),
    }
}

#[test]
fn parse_accepts_empty_prompt_after_separator() {
    match parse_legacy("-chat davinci ") {
        LegacyOutcome::Invoke(Command::Chat { model, prompt }) => {
            assert_eq!(model, "davinci");
            assert_eq!(prompt, "");
        }
        _ => panic!("expected a chat invocation"),
    }
}

#[test]
fn model_gate_three_ways() {
    assert!(validate_model("davinci").is_none());
    assert!(matches!(
        validate_model("ada"),
        Some(ValidationError::DisabledModel(m)) if m == "ada"
    ));
    assert!(matches!(
        validate_model("babbage"),
        Some(ValidationError::DisabledModel(_))
    ));
    assert!(matches!(
        validate_model("gpt"),
        Some(ValidationError::UnknownModel(m)) if m == "gpt"
    ));
}

#[test]
fn chat_request_rejects_before_any_backend_work() {
    let mut store = SessionStore::new();
    assert!(chat_request(&mut store, 1, "Alice", "curie", "hi").is_err());
    assert!(chat_request(&mut store, 1, "Alice", "gpt4", "hi").is_err());
    // no session was created by the rejections
    assert!(store.transcript(1).is_none());
    let sent = chat_request(&mut store, 1, "Alice", "davinci", "hi").unwrap();
    assert_eq!(sent, "\n\nPrompt from Alice: hi");
}

#[test]
fn clear_then_chat_leaves_one_exchange() {
    let mut store = SessionStore::new();
    // seed some prior history
    chat_request(&mut store, 1, "Alice", "davinci", "old").unwrap();
    chat_complete(&mut store, 1, "Alice", "davinci", "old", &ok_body("past")).unwrap();
    assert!(store.transcript(1).is_some());

    let confirmation = clear_session(&mut store, 1);
    assert_eq!(confirmation, "Chat history cleared.");
    assert!(store.transcript(1).is_none());

    chat_request(&mut store, 1, "Alice", "davinci", "hi").unwrap();
    let reply = chat_complete(&mut store, 1, "Alice", "davinci", "hi", &ok_body("there")).unwrap();
    assert_eq!(reply, "hithere");
    assert_eq!(store.transcript(1).unwrap(), "\n\nAlice: hi\ndavinci: there");
}

#[test]
fn backend_failure_leaves_transcript_unchanged() {
    let mut store = SessionStore::new();
    chat_request(&mut store, 9, "Bob", "davinci", "hi").unwrap();
    chat_complete(&mut store, 9, "Bob", "davinci", "hi", &ok_body("yo")).unwrap();
    let before = store.transcript(9).unwrap();

    let r = chat_complete(&mut store, 9, "Bob", "davinci", "more", &TransportOutcome::Failed);
    assert!(matches!(r, Err(HandlerError::Transport)));
    assert_eq!(store.transcript(9).unwrap(), before);

    let malformed = TransportOutcome::Body(b"not json at all".to_vec());
    let r = chat_complete(&mut store, 9, "Bob", "davinci", "more", &malformed);
    assert!(matches!(r, Err(HandlerError::Protocol)));
    assert_eq!(store.transcript(9).unwrap(), before);

    let empty_choices = TransportOutcome::Body(b"{\"choices\":[]}".to_vec());
    let r = chat_complete(&mut store, 9, "Bob", "davinci", "more", &empty_choices);
    assert!(matches!(r, Err(HandlerError::Protocol)));
    assert_eq!(store.transcript(9).unwrap(), before);

    let wrong_type = TransportOutcome::Body(b"{\"choices\":[{\"text\":5}]}".to_vec());
    let r = chat_complete(&mut store, 9, "Bob", "davinci", "more", &wrong_type);
    assert!(matches!(r, Err(HandlerError::Protocol)));
    assert_eq!(store.transcript(9).unwrap(), before);

    assert_eq!(HandlerError::Transport.user_message(), "An error occurred");
    assert_eq!(HandlerError::Protocol.user_message(), "An error occurred");
}

#[test]
fn second_chat_sees_first_exchange() {
    let mut store = SessionStore::new();
    let first = chat_request(&mut store, 2, "Alice", "davinci", "hi").unwrap();
    assert_eq!(first, "\n\nPrompt from Alice: hi");
    chat_complete(&mut store, 2, "Alice", "davinci", "hi", &ok_body("yo")).unwrap();

    let second = chat_request(&mut store, 2, "Alice", "davinci", "again").unwrap();
    assert_eq!(
        second,
        "\n\nAlice: hi\ndavinci: yo\n\nPrompt from Alice: again"
    );
    assert!(second.contains("\n\nAlice: hi\ndavinci: yo"));
}

#[test]
fn clear_touches_only_that_user() {
    let mut store = SessionStore::new();
    chat_request(&mut store, 1, "A", "davinci", "one").unwrap();
    chat_complete(&mut store, 1, "A", "davinci", "one", &ok_body("r1")).unwrap();
    chat_request(&mut store, 2, "B", "davinci", "two").unwrap();
    chat_complete(&mut store, 2, "B", "davinci", "two", &ok_body("r2")).unwrap();

    clear_session(&mut store, 1);
    assert!(store.transcript(1).is_none());
    assert_eq!(store.transcript(2).unwrap(), "\n\nB: two\ndavinci: r2");
}

#[test]
fn decoder_reads_nested_reply_text() {
    let mut store = SessionStore::new();
    chat_request(&mut store, 3, "C", "davinci", "q").unwrap();
    let body = TransportOutcome::Body(
        b"{\"id\":\"cmpl-1\",\"choices\":[{\"text\":\" A1\",\"index\":0},{\"text\":\"B\"}],\"usage\":{}}"
            .to_vec(),
    );
    let reply = chat_complete(&mut store, 3, "C", "davinci", "q", &body).unwrap();
    assert_eq!(reply, "q A1");
    assert_eq!(store.transcript(3).unwrap(), "\n\nC: q\ndavinci:  A1");
}

#[test]
fn completion_body_matches_reference_serialization() {
    let model = "text-davinci-003";
    let prompt = "say \"hi\"\\ok\nline\ttab\u{1}end \u{e9}\u{1F600}";
    let body = completion_body(model, prompt);

    let mut root = serde_json::Map::new();
    root.insert("model".to_string(), serde_json::Value::String(model.to_string()));
    root.insert("prompt".to_string(), serde_json::Value::String(prompt.to_string()));
    root.insert(
        "max_tokens".to_string(),
        serde_json::Value::Number(serde_json::Number::from(500u32)),
    );
    root.insert("suffix".to_string(), serde_json::Value::Null);
    root.insert(
        "n".to_string(),
        serde_json::Value::Number(serde_json::Number::from(1u32)),
    );
    let expected = serde_json::Value::Object(root).to_string();
    assert_eq!(body, expected);
}

#[test]
fn completion_request_body_exact() {
    assert_eq!(
        completion_request_body("hi"),
        "{\"max_tokens\":500,\"model\":\"text-davinci-003\",\"n\":1,\"prompt\":\"hi\",\"suffix\":null}"
    );
}

#[test]
fn json_escape_exact() {
    assert_eq!(json_escape("plain"), "plain");
    assert_eq!(
        json_escape("a\"b\\c\nd\re\tf\u{8}g\u{c}h\u{1}i\u{1f}j"),
        "a\\\"b\\\\c\\nd\\re\\tf\\bg\\fh\\u0001i\\u001fj"
    );
    assert_eq!(json_escape("caf\u{e9} \u{1F600}"), "caf\u{e9} \u{1F600}");
}

#[test]
fn timing_line_under_one_second_carries_millis() {
    assert_eq!(
        timing_line("discord_classic", "message", 42, 1_500_000),
        "TIMING ui=discord_classic message=42 duration=1500000ns human=1ms"
    );
    assert_eq!(
        timing_line("discord_appcomm", "interaction", 7, 0),
        "TIMING ui=discord_appcomm interaction=7 duration=0ns human=0ms"
    );
    assert_eq!(
        timing_line("discord_classic", "message", 1, -1),
        "TIMING ui=discord_classic message=1 duration=-1ns human=0ms"
    );
}

#[test]
fn timing_line_over_one_second_logs_nanos_only() {
    assert_eq!(
        timing_line("discord_classic", "message", 5, 2_000_000_001),
        "TIMING ui=discord_classic message=5 duration=2000000001ns"
    );
}

#[test]
fn millis_truncate_toward_zero() {
    assert_eq!(millis_of_nanos(999_999), 0);
    assert_eq!(millis_of_nanos(1_000_000), 1);
    assert_eq!(millis_of_nanos(-999_999), 0);
    assert_eq!(millis_of_nanos(-1_000_001), -1);
    assert_eq!(millis_of_nanos(i64::MIN), i64::MIN / 1_000_000);
}

#[test]
fn decimal_rendering_exact() {
    assert_eq!(u64_dec(0), "0");
    assert_eq!(u64_dec(105), "105");
    assert_eq!(u64_dec(u64::MAX), "18446744073709551615");
    assert_eq!(i64_dec(-105), "-105");
    assert_eq!(i64_dec(i64::MIN), "-9223372036854775808");
    assert_eq!(i64_dec(i64::MAX), "9223372036854775807");
}

#[test]
fn ui_tags_exact() {
    assert_eq!(ui_tag(&EventKind::TextMessage), "discord_classic");
    assert_eq!(ui_tag(&EventKind::Ping), "discord_ping");
    assert_eq!(ui_tag(&EventKind::ModalSubmit), "discord_modalsub");
    assert_eq!(ui_tag(&EventKind::Autocomplete), "discord_autocomp");
    assert_eq!(ui_tag(&EventKind::MessageComponent), "discord_msgcomp");
    assert_eq!(ui_tag(&EventKind::StructuredCommand), "discord_appcomm");
}

#[test]
fn classify_structured_command_names() {
    assert!(matches!(classify_command("chat"), CommandKind::Chat));
    assert!(matches!(classify_command("clear"), CommandKind::Clear));
    assert!(matches!(classify_command("bogus"), CommandKind::Other));
    assert!(matches!(classify_command(""), CommandKind::Other));
}

#[test]
fn validation_failure_reply_carries_explanation() {
    let e = HandlerError::Validation(ValidationError::DisabledModel("ada".to_string()));
    assert_eq!(e.user_message(), "Only `davinci` works. Found `ada`.");
}

#[test]
fn log_directives_compose() {
    assert_eq!(
        log_directives("info", None),
        "info,rustls=warn,h2=warn,tungstenite=warn,hyper=warn,reqwest=warn,serenity=warn"
    );
    assert_eq!(log_directives("info", Some("")), "info");
    assert_eq!(log_directives("debug", Some("h2=warn")), "debug,h2=warn");
}

#[test]
fn schema_registers_two_commands() {
    let cs = command_schema();
    assert_eq!(cs.len(), 2);
    assert_eq!(cs[0].name, "chat");
    assert_eq!(cs[0].description, "Chat with an AI model.");
    assert_eq!(cs[0].options.len(), 2);
    assert_eq!(cs[0].options[0].name, "model");
    assert!(cs[0].options[0].required);
    assert!(!cs[0].options[0].autocomplete);
    assert_eq!(cs[0].options[0].choices.len(), 1);
    assert_eq!(cs[0].options[0].choices[0].label, "Davinci");
    assert_eq!(cs[0].options[0].choices[0].value, "davinci");
    assert_eq!(cs[0].options[1].name, "prompt");
    assert!(cs[0].options[1].required);
    assert!(cs[0].options[1].choices.is_empty());
    assert_eq!(cs[1].name, "clear");
    assert_eq!(cs[1].description, "Clear chat history");
    assert!(cs[1].options.is_empty());
}
