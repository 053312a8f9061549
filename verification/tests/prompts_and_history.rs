use lila::interaction::prompts::{
    get_message_prompt, get_preamble_prompt, get_string_for_message, message_history_text,
    ChannelInfo, ChatMessage, PromptError, MESSAGE_HISTORY, MESSAGE_HISTORY_DM, PERSONALITY,
    PREAMBLE, REPO,
};
use lila::interaction::{get_last_messages, sort_messages, HistoryStep};
use lila::settings::{MESSAGE_CONTEXT_SIZE, MODEL};
use lila::time::MessageTime;

fn msg(name: &str, id: u64, millis: i64, content: &str) -> ChatMessage {
    ChatMessage {
        author_name: name.to_string(),
        author_id: id,
        timestamp: MessageTime::from_millis(millis).unwrap(),
        content: content.to_string(),
    }
}

#[test]
fn preamble_fills_every_placeholder() {
    let p = get_preamble_prompt(MODEL, "1234");
    let expected = PREAMBLE
        .replace("{model}", MODEL)
        .replace("{repo}", REPO)
        .replace("{id}", "1234")
        .replace("{personality}", PERSONALITY);
    assert_eq!(p, expected);
    assert!(p.contains("(google/gemini-3-flash-preview)"));
    assert!(p.contains("Your Discord ID is '1234'."));
    assert!(p.contains("https://github.com/dontwanttothink/lila"));
    assert!(p.contains("i don't wanna beannoying 😭"));
    assert!(!p.contains("{model}") && !p.contains("{id}") && !p.contains("{personality}"));
}

#[test]
fn message_line_format() {
    let m = msg("alice", 42, 1462015105000, "hi there");
    assert_eq!(get_string_for_message(&m), "alice (ID: 42) [2016-04-30 11:18:25]: hi there");
}

#[test]
fn history_lines_are_joined_by_newlines() {
    let ms = vec![msg("a", 1, 0, "x"), msg("b", 2, 1000, "y")];
    assert_eq!(
        message_history_text(&ms),
        "a (ID: 1) [1970-01-01 00:00:00]: x\nb (ID: 2) [1970-01-01 00:00:01]: y"
    );
    assert_eq!(message_history_text(&vec![]), "");
}

#[test]
fn guild_prompt() {
    let ms = vec![msg("a", 1, 0, "x")];
    let now = MessageTime::from_millis(1462015105000).unwrap();
    let channel = ChannelInfo::Guild {
        name: "general".to_string(),
        id: 555,
        guild_id: 777,
        guild_name: Some("my server".to_string()),
    };
    let p = get_message_prompt(&ms, &channel, &now).unwrap();
    let expected = MESSAGE_HISTORY
        .replace("{time}", "2016-04-30 11:18:25")
        .replace("{channel}", "general")
        .replace("{channel_id}", "555")
        .replace("{server}", "my server")
        .replace("{server_id}", "777")
        .replace("{messages}", "a (ID: 1) [1970-01-01 00:00:00]: x");
    assert_eq!(p, expected);
    assert!(p.starts_with("The current time and date is 2016-04-30 11:18:25. Here are the"));
    assert!(p.contains("“general” (ID: 555) of the server “my server” (ID: 777)"));
}

#[test]
fn guild_prompt_without_guild_name() {
    let now = MessageTime::from_millis(0).unwrap();
    let channel = ChannelInfo::Guild {
        name: "general".to_string(),
        id: 1,
        guild_id: 2,
        guild_name: None,
    };
    let p = get_message_prompt(&vec![], &channel, &now).unwrap();
    assert!(p.contains("of the server “[failed to get guild name]}” (ID: 2)"));
    assert!(p.contains("<messages></messages>"));
}

#[test]
fn dm_prompt() {
    let ms = vec![msg("bob", 9, 0, "hey lila")];
    let now = MessageTime::from_millis(0).unwrap();
    let channel = ChannelInfo::Private { recipient_name: "bob".to_string(), recipient_id: 9, id: 31 };
    let p = get_message_prompt(&ms, &channel, &now).unwrap();
    let expected = MESSAGE_HISTORY_DM
        .replace("{time}", "1970-01-01 00:00:00")
        .replace("{user}", "bob")
        .replace("{user_id}", "9")
        .replace("{channel_id}", "31")
        .replace("{messages}", "bob (ID: 9) [1970-01-01 00:00:00]: hey lila");
    assert_eq!(p, expected);
    assert!(p.contains("DMs with “bob” (user ID: 9). The channel ID is 31:"));
}

#[test]
fn other_channel_is_refused() {
    let now = MessageTime::from_millis(0).unwrap();
    assert_eq!(
        get_message_prompt(&vec![], &ChannelInfo::Other, &now).unwrap_err(),
        PromptError::UnexpectedChannelType
    );
}

#[test]
fn sort_orders_by_time_and_keeps_everything() {
    let ms = vec![msg("c", 3, 3000, "3"), msg("a", 1, 1000, "1"), msg("b", 2, 2000, "2"), msg("d", 4, 1000, "1b")];
    let sorted = sort_messages(ms);
    let times: Vec<i64> = sorted.iter().map(|m| m.timestamp.millis()).collect();
    assert_eq!(times, vec![1000, 1000, 2000, 3000]);
    let mut names: Vec<String> = sorted.iter().map(|m| m.author_name.clone()).collect();
    names.sort();
    assert_eq!(names, vec!["a", "b", "c", "d"]);
}

#[test]
fn exactly_twenty_cached_messages_are_all_kept() {
    let ms: Vec<ChatMessage> = (0..20).map(|i| msg("u", 1, (20 - i) * 1000, "x")).collect();
    match get_last_messages(ms) {
        HistoryStep::Complete(v) => {
            let times: Vec<i64> = v.iter().map(|m| m.timestamp.millis()).collect();
            assert_eq!(times, (1..21).map(|i| i * 1000).collect::<Vec<i64>>());
        }
        HistoryStep::FetchLatest(_) => panic!("expected the cached history"),
    }
}

#[test]
fn few_cached_messages_ask_for_a_fetch() {
    let ms: Vec<ChatMessage> = (0..19).map(|i| msg("u", 1, i * 1000, "x")).collect();
    match get_last_messages(ms) {
        HistoryStep::FetchLatest(limit) => assert_eq!(limit, MESSAGE_CONTEXT_SIZE),
        HistoryStep::Complete(_) => panic!("expected a fetch"),
    }
    match get_last_messages(vec![]) {
        HistoryStep::FetchLatest(limit) => assert_eq!(limit, 20),
        HistoryStep::Complete(_) => panic!("expected a fetch"),
    }
}

#[test]
fn enough_cached_messages_keep_the_latest_twenty_in_order() {
    let ms: Vec<ChatMessage> = (0..25).rev().map(|i| msg("u", i as u64, i * 1000, "x")).collect();
    match get_last_messages(ms) {
        HistoryStep::Complete(v) => {
            let times: Vec<i64> = v.iter().map(|m| m.timestamp.millis()).collect();
            assert_eq!(times, (5..25).map(|i| i * 1000).collect::<Vec<i64>>());
        }
        HistoryStep::FetchLatest(_) => panic!("expected the cached history"),
    }
}

#[test]
fn preamble_tells_models_and_ids_apart() {
    assert_ne!(get_preamble_prompt("model-a", "1"), get_preamble_prompt("model-b", "1"));
    assert_ne!(get_preamble_prompt("m", "12"), get_preamble_prompt("m", "1"));
    assert_eq!(get_preamble_prompt("m", "7"), get_preamble_prompt("m", "7"));
}

#[test]
fn sort_tells_apart_times_within_one_millisecond() {
    let mk = |name: &str, nanos: u32| ChatMessage {
        author_name: name.to_string(),
        author_id: 1,
        timestamp: MessageTime::from_parts(5000, nanos).unwrap(),
        content: String::new(),
    };
    let sorted = sort_messages(vec![mk("late", 900_000), mk("early", 1), mk("mid", 500_000)]);
    let names: Vec<&str> = sorted.iter().map(|m| m.author_name.as_str()).collect();
    assert_eq!(names, vec!["early", "mid", "late"]);
    assert!(MessageTime::from_parts(5000, 1_000_000).is_none());
    assert_eq!(MessageTime::from_parts(5000, 999_999).unwrap().sub_millis_nanos(), 999_999);
}
