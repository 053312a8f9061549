use lila::interaction::tools::{
    call_tool, dispatch_send_message, get_send_tool, send_message_result, ToolAction, ToolResult,
    SEND_TOOL_PARAMETERS,
};
use lila::interaction::{
    initial_conversation, maybe_reply, record_decision, record_tool_result, reply_request,
    should_reply, summarize, summary_text, ConversationMessage, ReplyError, ReplyMessage, ToolCall,
    REPLY_MAX_TOKENS, SUMMARY_MAX_TOKENS,
};
use lila::interaction::prompts::{get_preamble_prompt, SUMMARIZE};
use lila::json::JsonDocument;
use lila::settings::{MODEL, SUMMARIZATION_MODEL};

fn error_of(a: &ToolAction) -> String {
    match a {
        ToolAction::Respond(ToolResult::Error(e)) => e.clone(),
        _ => panic!("expected an error answer"),
    }
}

#[test]
fn send_tool_definition() {
    let t = get_send_tool();
    assert_eq!(t.name, "send");
    assert_eq!(t.description, "Send a message to a channel");
    assert!(t.strict);
    let schema: serde_json::Value = t.parameters.parse().unwrap();
    assert_eq!(schema["type"], "object");
    assert_eq!(schema["required"][0], "channel_id");
    assert_eq!(schema["required"][1], "message");
    assert_eq!(schema["additionalProperties"], false);
    assert_eq!(schema["properties"]["channel_id"]["type"], "string");
    assert_eq!(schema["properties"]["message"]["description"], "The content of the message.");
    assert_eq!(t.parameters, SEND_TOOL_PARAMETERS);
}

#[test]
fn call_tool_sends_to_named_channel() {
    match call_tool("send", r#"{"channel_id": "123456789", "message": "hello!"}"#) {
        ToolAction::Send { channel_id, message } => {
            assert_eq!(channel_id, 123456789);
            assert_eq!(message, "hello!");
        }
        ToolAction::Respond(_) => panic!("expected a send"),
    }
}

#[test]
fn call_tool_rejects_bad_json_with_serde_message() {
    let args = "{not json";
    let expected = args.parse::<serde_json::Value>().unwrap_err().to_string();
    assert_eq!(error_of(&call_tool("send", args)), expected);
    // arguments are read before the name is looked at
    assert_eq!(error_of(&call_tool("nope", args)), expected);
}

#[test]
fn call_tool_unknown_tool() {
    assert_eq!(error_of(&call_tool("search", "{}")), "unknown tool");
}

#[test]
fn send_call_errors() {
    assert_eq!(error_of(&call_tool("send", r#"{"message": "x"}"#)), "missing channel id or wrong type");
    assert_eq!(
        error_of(&call_tool("send", r#"{"channel_id": 12, "message": "x"}"#)),
        "missing channel id or wrong type"
    );
    assert_eq!(error_of(&call_tool("send", r#"{"channel_id": "12x", "message": "x"}"#)), "cannot parse channel id");
    assert_eq!(error_of(&call_tool("send", r#"{"channel_id": "-12", "message": "x"}"#)), "cannot parse channel id");
    assert_eq!(error_of(&call_tool("send", r#"{"channel_id": "12"}"#)), "missing message");
    assert_eq!(error_of(&call_tool("send", r#"{"channel_id": "12", "message": 5}"#)), "missing message");
    assert_eq!(error_of(&call_tool("send", r#"["channel_id"]"#)), "missing channel id or wrong type");
}

#[test]
fn dispatch_accepts_plus_sign_like_std_parse() {
    let doc = JsonDocument::parse(r#"{"channel_id": "+77", "message": "m"}"#).ok().unwrap();
    match dispatch_send_message(&doc) {
        ToolAction::Send { channel_id, message } => {
            assert_eq!(channel_id, 77);
            assert_eq!(message, "m");
        }
        ToolAction::Respond(_) => panic!("expected a send"),
    }
}

#[test]
fn tool_results_as_json() {
    assert_eq!(ToolResult::Success.to_json_text(), r#"{"success":true}"#);
    assert_eq!(
        ToolResult::Error("say \"hi\"\n".to_string()).to_json_text(),
        r#"{"error":"say \"hi\"\n"}"#
    );
    let v: serde_json::Value = ToolResult::Error("x".to_string()).to_json_text().parse().unwrap();
    assert_eq!(v["error"], "x");
}

#[test]
fn send_outcome_becomes_result() {
    assert!(matches!(send_message_result(Ok(())), ToolResult::Success));
    match send_message_result(Err("Missing Access".to_string())) {
        ToolResult::Error(e) => assert_eq!(e, "Missing Access"),
        ToolResult::Success => panic!("expected an error"),
    }
}

#[test]
fn conversation_opens_with_preamble() {
    let c = initial_conversation(1234567);
    assert_eq!(c.len(), 1);
    match &c[0] {
        ConversationMessage::Developer(t) => assert_eq!(*t, get_preamble_prompt(MODEL, "1234567")),
        _ => panic!("expected a developer message"),
    }
}

#[test]
fn reply_decision_rule() {
    assert!(!should_reply(true, true, true));
    assert!(should_reply(false, true, false));
    assert!(should_reply(false, false, true));
    assert!(!should_reply(false, false, false));
}

#[test]
fn reply_request_shows_prompt_and_offers_send_tool() {
    let mut c = initial_conversation(1);
    let r = reply_request(&mut c, "history".to_string());
    assert_eq!(c.len(), 2);
    assert!(matches!(&c[1], ConversationMessage::User(t) if t == "history"));
    assert_eq!(r.model, MODEL);
    assert_eq!(r.max_completion_tokens, REPLY_MAX_TOKENS);
    assert_eq!(r.max_completion_tokens, 2048);
    assert_eq!(r.messages.len(), 2);
    assert!(matches!(&r.messages[1], ConversationMessage::User(t) if t == "history"));
    assert_eq!(r.tools.len(), 1);
    assert_eq!(r.tools[0].name, "send");
}

#[test]
fn reply_without_choices_is_an_error() {
    let mut c = initial_conversation(1);
    assert_eq!(maybe_reply(&mut c, vec![]).err(), Some(ReplyError::NoChoices));
    assert_eq!(c.len(), 1);
}

#[test]
fn reply_with_tool_calls_records_them_and_plans_function_calls() {
    let mut c = initial_conversation(1);
    let choice = ReplyMessage {
        content: Some("thinking".to_string()),
        tool_calls: Some(vec![
            ToolCall::Function { id: "c1".into(), name: "send".into(), arguments: "{}".into() },
            ToolCall::Custom { id: "c2".into(), name: "grammar".into(), input: "x".into() },
            ToolCall::Function { id: "c3".into(), name: "other".into(), arguments: "[]".into() },
        ]),
    };
    let other = ReplyMessage { content: Some("ignored".to_string()), tool_calls: None };
    let plan = maybe_reply(&mut c, vec![choice, other]).ok().unwrap();
    assert_eq!(c.len(), 2);
    match &c[1] {
        ConversationMessage::AssistantToolCalls(calls) => assert_eq!(calls.len(), 3),
        _ => panic!("expected the tool calls"),
    }
    let ids: Vec<&str> = plan.calls.iter().map(|p| p.id.as_str()).collect();
    assert_eq!(ids, vec!["c1", "c3"]);
    assert_eq!(plan.calls[1].name, "other");
    assert_eq!(plan.calls[1].arguments, "[]");
    assert_eq!(plan.decision.as_deref(), Some("thinking"));

    record_tool_result(&mut c, "c1".to_string(), &ToolResult::Success);
    record_tool_result(&mut c, "c3".to_string(), &ToolResult::Error("unknown tool".to_string()));
    record_decision(&mut c, plan.decision);
    assert_eq!(c.len(), 5);
    assert!(matches!(&c[2], ConversationMessage::Tool { tool_call_id, content }
        if tool_call_id == "c1" && content == r#"{"success":true}"#));
    assert!(matches!(&c[3], ConversationMessage::Tool { tool_call_id, content }
        if tool_call_id == "c3" && content == r#"{"error":"unknown tool"}"#));
    assert!(matches!(&c[4], ConversationMessage::Assistant(t) if t == "thinking"));
}

#[test]
fn reply_without_tool_calls_only_records_text() {
    let mut c = initial_conversation(1);
    let plan = maybe_reply(&mut c, vec![ReplyMessage { content: None, tool_calls: None }]).ok().unwrap();
    assert_eq!(c.len(), 1);
    assert!(plan.calls.is_empty());
    record_decision(&mut c, plan.decision);
    assert_eq!(c.len(), 1);
}

#[test]
fn summary_request_and_reply() {
    let r = summarize("a long text");
    assert_eq!(r.model, SUMMARIZATION_MODEL);
    assert_eq!(r.max_completion_tokens, SUMMARY_MAX_TOKENS);
    assert_eq!(r.max_completion_tokens, 512);
    assert!(r.tools.is_empty());
    assert_eq!(r.messages.len(), 2);
    assert!(matches!(&r.messages[0], ConversationMessage::Developer(t) if t == SUMMARIZE));
    assert!(matches!(&r.messages[1], ConversationMessage::User(t) if t == "a long text"));
    let s = summary_text(vec![ReplyMessage { content: Some("short".into()), tool_calls: None }]);
    assert_eq!(s, "short");
}

#[test]
fn shown_channel_id_round_trips_through_send_call() {
    for id in [1u64, 555, 175928847299117063, u64::MAX] {
        let args = format!(r#"{{"channel_id": "{}", "message": "yo"}}"#, lila::text::u64_to_decimal(id));
        match call_tool("send", &args) {
            ToolAction::Send { channel_id, message } => {
                assert_eq!(channel_id, id);
                assert_eq!(message, "yo");
            }
            ToolAction::Respond(_) => panic!("expected a send"),
        }
    }
}

#[test]
fn error_answer_escapes_like_json_and_reads_back() {
    let msg = "a\"b\\c\u{1}\u{8}\t\n\u{c}\r\u{1f}\u{7f} é 😭 /";
    let text = ToolResult::Error(msg.to_string()).to_json_text();
    assert_eq!(
        text,
        "{\"error\":\"a\\\"b\\\\c\\u0001\\b\\t\\n\\f\\r\\u001f\u{7f} é 😭 /\"}"
    );
    let v: serde_json::Value = text.parse().unwrap();
    assert_eq!(v.as_object().unwrap().len(), 1);
    assert_eq!(v["error"], msg);
}
