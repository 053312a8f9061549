//! The conversation with the model: which history it is shown, what is sent, and
//! what is recorded of its replies.

pub mod prompts;
pub mod tools;

use vstd::multiset::Multiset;
use vstd::prelude::*;

use crate::settings::{MESSAGE_CONTEXT_SIZE, MODEL, SUMMARIZATION_MODEL};
use crate::text::{
    brace_free, decimal_text, lemma_decimal_text_brace_free, lemma_parse_decimal_roundtrip,
    parsed_u64, u64_to_decimal,
};
use prompts::{
    get_preamble_prompt, lemma_preamble_determines_arguments, preamble_text, ChatMessage, SUMMARIZE,
};
use tools::{
    get_send_tool, tool_result_json, ToolDefinition, ToolResult, SEND_TOOL_DESCRIPTION,
    SEND_TOOL_NAME, SEND_TOOL_PARAMETERS,
};

verus! {

broadcast use vstd::seq_lib::to_multiset_build, vstd::seq_lib::to_multiset_insert, vstd::seq_lib::to_multiset_len,
    vstd::multiset::lemma_multiset_empty_len;

/// When a message was sent, in nanoseconds since the Unix epoch.
pub open spec fn time_of(m: ChatMessage) -> int {
    m.timestamp.spec_instant()
}

/// Messages in the order in which they were sent (equal times in any order).
pub open spec fn sorted_by_time(s: Seq<ChatMessage>) -> bool {
    forall|i: int, j: int| 0 <= i <= j < s.len() ==> time_of(#[trigger] s[i]) <= time_of(#[trigger] s[j])
}

/// `p` holds the messages of `s`, each as often, ordered by time.
pub open spec fn is_time_ordering_of(p: Seq<ChatMessage>, s: Seq<ChatMessage>) -> bool {
    &&& sorted_by_time(p)
    &&& p.to_multiset() == s.to_multiset()
}

/// Law: a time-ordering of some messages holds every one of them, as often as they occur and
/// no other, and places no message before an earlier one.
pub proof fn lemma_time_ordering_keeps_all(p: Seq<ChatMessage>, s: Seq<ChatMessage>)
    requires
        is_time_ordering_of(p, s),
    ensures
        p.len() == s.len(),
        forall|m: ChatMessage| p.to_multiset().count(m) == s.to_multiset().count(m),
        forall|m: ChatMessage| p.contains(m) <==> s.contains(m),
        forall|i: int, j: int| 0 <= i < j < p.len() ==> time_of(p[i]) <= time_of(p[j]),
{
    p.to_multiset_ensures();
    s.to_multiset_ensures();
    assert forall|m: ChatMessage| p.contains(m) <==> s.contains(m) by {
        assert(p.contains(m) <==> p.to_multiset().count(m) > 0);
        assert(s.contains(m) <==> s.to_multiset().count(m) > 0);
    }
}

/// Orders messages by the time they were sent (`sort_unstable_by_key` on the timestamp).
pub fn sort_messages(messages: Vec<ChatMessage>) -> (r: Vec<ChatMessage>)
    ensures
        is_time_ordering_of(r@, messages@),
{
    let ghost given = messages@;
    let mut input = messages;
    let mut out: Vec<ChatMessage> = Vec::new();
    assert(out@.to_multiset().len() == 0);
    assert(out@.to_multiset() == Multiset::<ChatMessage>::empty());
    while input.len() > 0
        invariant
            sorted_by_time(out@),
            out@.to_multiset().add(input@.to_multiset()) == given.to_multiset(),
        decreases input.len(),
    {
        let ghost before = input@;
        let x = input.pop().unwrap();
        assert(before =~= input@.push(x));
        let mut j: usize = 0;
        while j < out.len() && x.timestamp.not_before(&out[j].timestamp)
            invariant
                j <= out.len(),
                forall|k: int| 0 <= k < j ==> time_of(#[trigger] out@[k]) <= time_of(x),
            decreases out.len() - j,
        {
            j = j + 1;
        }
        let ghost prev = out@;
        out.insert(j, x);
        assert(out@.to_multiset() == prev.to_multiset().insert(x));
        assert forall|a: int, b: int| 0 <= a <= b < out@.len() implies time_of(#[trigger] out@[a])
            <= time_of(#[trigger] out@[b]) by {
            if a < j && b > j {
                assert(out@[a] == prev[a]);
                assert(out@[b] == prev[b - 1]);
            } else if a < j && b == j {
                assert(out@[a] == prev[a]);
            } else if a == j && b > j {
                assert(out@[b] == prev[b - 1]);
                assert(time_of(prev[j as int]) > time_of(x));
            } else if a > j {
                assert(out@[a] == prev[a - 1]);
                assert(out@[b] == prev[b - 1]);
            } else if b < j {
                assert(out@[a] == prev[a]);
                assert(out@[b] == prev[b]);
            }
        }
        assert(out@.to_multiset().add(input@.to_multiset()) =~= given.to_multiset());
    }
    assert(input@.to_multiset().len() == 0);
    assert(input@.to_multiset() == Multiset::<ChatMessage>::empty());
    assert(out@.to_multiset() =~= given.to_multiset());
    out
}


/// What to do after looking at the cached messages of a channel.
pub enum HistoryStep {
    /// The cache holds enough: these are the messages to show, ordered by time.
    Complete(Vec<ChatMessage>),
    /// The cache holds too few: fetch at most this many of the channel's latest messages,
    /// then order them with `sort_messages`.
    FetchLatest(u8),
}

/// Chooses the history to show from the cached messages of a channel: the
/// `MESSAGE_CONTEXT_SIZE` latest of them, ordered by time, if the cache holds at
/// least that many; otherwise asks for the latest messages to be fetched.
pub fn get_last_messages(cached: Vec<ChatMessage>) -> (r: HistoryStep)
    ensures
        cached@.len() >= MESSAGE_CONTEXT_SIZE ==> (r matches HistoryStep::Complete(v) && exists|
            p: Seq<ChatMessage>,
        |
            is_time_ordering_of(p, cached@) && v@ == p.skip(p.len() - MESSAGE_CONTEXT_SIZE)),
        cached@.len() < MESSAGE_CONTEXT_SIZE ==> r == HistoryStep::FetchLatest(MESSAGE_CONTEXT_SIZE),
{
    let messages = sort_messages(cached);
    let ghost ordered = messages@;
    assert(ordered.to_multiset().len() == cached@.to_multiset().len());
    assert(ordered.len() == cached@.len());
    let n = messages.len();
    if n < MESSAGE_CONTEXT_SIZE as usize {
        return HistoryStep::FetchLatest(MESSAGE_CONTEXT_SIZE);
    }
    let start = n - MESSAGE_CONTEXT_SIZE as usize;
    let mut earlier = messages;
    let latest = earlier.split_off(start);
    assert(latest@ =~= ordered.skip(ordered.len() - MESSAGE_CONTEXT_SIZE));
    assert(is_time_ordering_of(ordered, cached@));
    HistoryStep::Complete(latest)
}

/// The most the model may write in a reply.
pub const REPLY_MAX_TOKENS: u32 = 2048;

/// The most the model may write in a summary.
pub const SUMMARY_MAX_TOKENS: u32 = 512;

/// A tool call that the model made.
#[derive(Debug)]
pub enum ToolCall {
    /// A call of a function tool, with JSON arguments.
    Function { id: String, name: String, arguments: String },
    /// A call of a custom tool, with free-form input.
    Custom { id: String, name: String, input: String },
}

/// The abstract value of a `ToolCall`.
pub enum ToolCallModel {
    Function { id: Seq<char>, name: Seq<char>, arguments: Seq<char> },
    Custom { id: Seq<char>, name: Seq<char>, input: Seq<char> },
}

impl View for ToolCall {
    type V = ToolCallModel;

    open spec fn view(&self) -> ToolCallModel {
        match self {
            ToolCall::Function { id, name, arguments } => ToolCallModel::Function {
                id: id@,
                name: name@,
                arguments: arguments@,
            },
            ToolCall::Custom { id, name, input } => ToolCallModel::Custom {
                id: id@,
                name: name@,
                input: input@,
            },
        }
    }
}

/// The abstract values of a list of tool calls.
pub open spec fn tool_calls_view(calls: Seq<ToolCall>) -> Seq<ToolCallModel> {
    calls.map_values(|c: ToolCall| c@)
}

impl ToolCall {
    /// A copy of this call.
    pub fn duplicate(&self) -> (r: ToolCall)
        ensures
            r@ == self@,
    {
        match self {
            ToolCall::Function { id, name, arguments } => ToolCall::Function {
                id: id.clone(),
                name: name.clone(),
                arguments: arguments.clone(),
            },
            ToolCall::Custom { id, name, input } => ToolCall::Custom {
                id: id.clone(),
                name: name.clone(),
                input: input.clone(),
            },
        }
    }
}

/// Law: the abstract value of a list of tool calls has one entry per call, the value of that
/// call, in order.
pub proof fn lemma_tool_calls_view_pointwise(calls: Seq<ToolCall>)
    ensures
        tool_calls_view(calls).len() == calls.len(),
        forall|i: int| 0 <= i < calls.len() ==> tool_calls_view(calls)[i] == calls[i]@,
{
}

/// A copy of a list of tool calls.
pub fn duplicate_tool_calls(calls: &Vec<ToolCall>) -> (r: Vec<ToolCall>)
    ensures
        tool_calls_view(r@) == tool_calls_view(calls@),
{
    let mut out: Vec<ToolCall> = Vec::new();
    let mut i: usize = 0;
    while i < calls.len()
        invariant
            i <= calls.len(),
            tool_calls_view(out@) == tool_calls_view(calls@.take(i as int)),
        decreases calls.len() - i,
    {
        let ghost prev = out@;
        let d = calls[i].duplicate();
        out.push(d);
        assert(tool_calls_view(out@) =~= tool_calls_view(prev).push(calls@[i as int]@));
        assert(tool_calls_view(calls@.take(i + 1)) =~= tool_calls_view(calls@.take(i as int)).push(
            calls@[i as int]@,
        ));
        i = i + 1;
    }
    assert(calls@.take(i as int) =~= calls@);
    out
}

/// One message of the conversation with the model.
#[derive(Debug)]
pub enum ConversationMessage {
    /// An instruction from the operator.
    Developer(String),
    /// What the model is shown as the user's turn.
    User(String),
    /// Text that the model wrote.
    Assistant(String),
    /// The model's turn in which it called tools.
    AssistantToolCalls(Vec<ToolCall>),
    /// The answer to one tool call, as JSON text.
    Tool { tool_call_id: String, content: String },
}

/// The abstract value of a `ConversationMessage`.
pub enum MessageModel {
    Developer(Seq<char>),
    User(Seq<char>),
    Assistant(Seq<char>),
    AssistantToolCalls(Seq<ToolCallModel>),
    Tool { tool_call_id: Seq<char>, content: Seq<char> },
}

impl View for ConversationMessage {
    type V = MessageModel;

    open spec fn view(&self) -> MessageModel {
        match self {
            ConversationMessage::Developer(t) => MessageModel::Developer(t@),
            ConversationMessage::User(t) => MessageModel::User(t@),
            ConversationMessage::Assistant(t) => MessageModel::Assistant(t@),
            ConversationMessage::AssistantToolCalls(calls) => MessageModel::AssistantToolCalls(
                tool_calls_view(calls@),
            ),
            ConversationMessage::Tool { tool_call_id, content } => MessageModel::Tool {
                tool_call_id: tool_call_id@,
                content: content@,
            },
        }
    }
}

/// The abstract value of a conversation.
pub open spec fn conversation_view(c: Seq<ConversationMessage>) -> Seq<MessageModel> {
    c.map_values(|m: ConversationMessage| m@)
}

impl ConversationMessage {
    /// A copy of this message.
    pub fn duplicate(&self) -> (r: ConversationMessage)
        ensures
            r@ == self@,
    {
        match self {
            ConversationMessage::Developer(t) => ConversationMessage::Developer(t.clone()),
            ConversationMessage::User(t) => ConversationMessage::User(t.clone()),
            ConversationMessage::Assistant(t) => ConversationMessage::Assistant(t.clone()),
            ConversationMessage::AssistantToolCalls(calls) => ConversationMessage::AssistantToolCalls(
                duplicate_tool_calls(calls),
            ),
            ConversationMessage::Tool { tool_call_id, content } => ConversationMessage::Tool {
                tool_call_id: tool_call_id.clone(),
                content: content.clone(),
            },
        }
    }
}

/// Law: the abstract value of a conversation has one entry per message, the value of that
/// message, in order.
pub proof fn lemma_conversation_view_pointwise(c: Seq<ConversationMessage>)
    ensures
        conversation_view(c).len() == c.len(),
        forall|i: int| 0 <= i < c.len() ==> conversation_view(c)[i] == c[i]@,
{
}

/// A copy of a conversation.
pub fn duplicate_conversation(conversation: &Vec<ConversationMessage>) -> (r: Vec<ConversationMessage>)
    ensures
        conversation_view(r@) == conversation_view(conversation@),
{
    let mut out: Vec<ConversationMessage> = Vec::new();
    let mut i: usize = 0;
    while i < conversation.len()
        invariant
            i <= conversation.len(),
            conversation_view(out@) == conversation_view(conversation@.take(i as int)),
        decreases conversation.len() - i,
    {
        let ghost prev = out@;
        let d = conversation[i].duplicate();
        out.push(d);
        assert(conversation_view(out@) =~= conversation_view(prev).push(conversation@[i as int]@));
        assert(conversation_view(conversation@.take(i + 1)) =~= conversation_view(
            conversation@.take(i as int),
        ).push(conversation@[i as int]@));
        i = i + 1;
    }
    assert(conversation@.take(i as int) =~= conversation@);
    out
}

/// A request for a chat completion.
pub struct ChatRequest {
    pub model: String,
    pub max_completion_tokens: u32,
    pub messages: Vec<ConversationMessage>,
    /// The tools offered; none are offered where this is empty.
    pub tools: Vec<ToolDefinition>,
}

/// One choice of a chat completion: the text the model wrote and the tools it called.
pub struct ReplyMessage {
    pub content: Option<String>,
    pub tool_calls: Option<Vec<ToolCall>>,
}

/// Whether `t` is the definition of the send tool.
pub open spec fn is_send_tool(t: ToolDefinition) -> bool {
    &&& t.name@ == SEND_TOOL_NAME@
    &&& t.description@ == SEND_TOOL_DESCRIPTION@
    &&& t.parameters@ == SEND_TOOL_PARAMETERS@
    &&& t.strict
}

/// The opening of a conversation with the bot whose Discord ID is `bot_id`.
pub open spec fn opening(bot_id: u64) -> Seq<MessageModel> {
    seq![MessageModel::Developer(preamble_text(MODEL@, decimal_text(bot_id as nat)))]
}

/// Law: the opening tells the bot its full Discord ID: it is the opening instruction for the
/// conversing model with an ID text that reads back as exactly `bot_id`.
pub proof fn lemma_opening_shows_bot_id(bot_id: u64)
    ensures
        exists|id_text: Seq<char>|
            opening(bot_id) == seq![MessageModel::Developer(preamble_text(MODEL@, id_text))]
                && #[trigger] parsed_u64(id_text) == Some(bot_id),
{
    lemma_parse_decimal_roundtrip(bot_id);
    let t = decimal_text(bot_id as nat);
    assert(opening(bot_id) == seq![MessageModel::Developer(preamble_text(MODEL@, t))]);
    assert(parsed_u64(t) == Some(bot_id));
}

/// Law: bots with different Discord IDs open different conversations.
pub proof fn lemma_opening_determines_bot(bot1: u64, bot2: u64)
    ensures
        opening(bot1) == opening(bot2) <==> bot1 == bot2,
{
    reveal_strlit("google/gemini-3-flash-preview");
    assert(brace_free(MODEL@));
    let t1 = decimal_text(bot1 as nat);
    let t2 = decimal_text(bot2 as nat);
    lemma_decimal_text_brace_free(bot1 as nat);
    lemma_decimal_text_brace_free(bot2 as nat);
    lemma_parse_decimal_roundtrip(bot1);
    lemma_parse_decimal_roundtrip(bot2);
    lemma_preamble_determines_arguments(MODEL@, MODEL@, t1, t2);
    if opening(bot1) == opening(bot2) {
        assert(opening(bot1)[0] == opening(bot2)[0]);
        assert(preamble_text(MODEL@, t1) == preamble_text(MODEL@, t2));
        assert(t1 == t2);
    }
}

/// Starts the conversation of the bot whose Discord ID is `bot_id`: the opening instruction.
pub fn initial_conversation(bot_id: u64) -> (r: Vec<ConversationMessage>)
    ensures
        conversation_view(r@) == opening(bot_id),
{
    let id = u64_to_decimal(bot_id);
    let preamble = get_preamble_prompt(MODEL, id.as_str());
    let mut conversation: Vec<ConversationMessage> = Vec::new();
    conversation.push(ConversationMessage::Developer(preamble));
    assert(conversation_view(conversation@) =~= opening(bot_id));
    conversation
}

/// Whether the bot considers answering a message: never one of a bot; one that mentions
/// it always; otherwise when the chance draw (`lucky`) says so.
pub fn should_reply(author_is_bot: bool, mentions_me: bool, lucky: bool) -> (r: bool)
    ensures
        r == (!author_is_bot && (mentions_me || lucky)),
{
    !author_is_bot && (mentions_me || lucky)
}

/// Shows the model the history prompt and builds the request that asks whether, and how,
/// to reply: the conversation so far, with the send tool offered.
pub fn reply_request(conversation: &mut Vec<ConversationMessage>, prompt: String) -> (r: ChatRequest)
    ensures
        conversation_view(final(conversation)@) == conversation_view(old(conversation)@).push(
            MessageModel::User(prompt@),
        ),
        r.model@ == MODEL@,
        r.max_completion_tokens == REPLY_MAX_TOKENS,
        conversation_view(r.messages@) == conversation_view(final(conversation)@),
        r.tools@.len() == 1,
        is_send_tool(r.tools@[0]),
{
    let ghost before = conversation@;
    conversation.push(ConversationMessage::User(prompt));
    assert(conversation_view(conversation@) =~= conversation_view(before).push(
        MessageModel::User(prompt@),
    ));
    let messages = duplicate_conversation(conversation);
    let mut tools: Vec<ToolDefinition> = Vec::new();
    tools.push(get_send_tool());
    ChatRequest {
        model: MODEL.to_owned(),
        max_completion_tokens: REPLY_MAX_TOKENS,
        messages,
        tools,
    }
}

/// Why a reply cannot be read.
#[derive(Debug, PartialEq, Eq, Structural)]
pub enum ReplyError {
    /// The completion held no choices.
    NoChoices,
}

/// A function call that the model asked for.
pub struct PendingCall {
    pub id: String,
    pub name: String,
    pub arguments: String,
}

/// What is left to do about a reply: run the function calls (recording each answer with
/// `record_tool_result`), then record the model's text with `record_decision`.
pub struct ReplyPlan {
    pub calls: Vec<PendingCall>,
    pub decision: Option<String>,
}

/// The function calls among `calls`, in order, as (id, name, arguments).
pub open spec fn function_calls(calls: Seq<ToolCallModel>) -> Seq<(Seq<char>, Seq<char>, Seq<char>)>
    decreases calls.len(),
{
    if calls.len() == 0 {
        Seq::empty()
    } else {
        let rest = function_calls(calls.drop_last());
        match calls.last() {
            ToolCallModel::Function { id, name, arguments } => rest.push((id, name, arguments)),
            ToolCallModel::Custom { .. } => rest,
        }
    }
}

/// Whether a tool call is a call of a function tool.
pub open spec fn is_function_call(c: ToolCallModel) -> bool {
    c is Function
}

/// The (id, name, arguments) of a function call.
pub open spec fn call_parts(c: ToolCallModel) -> (Seq<char>, Seq<char>, Seq<char>) {
    match c {
        ToolCallModel::Function { id, name, arguments } => (id, name, arguments),
        ToolCallModel::Custom { id, name, input } => (id, name, input),
    }
}

/// Law: the calls that a reply plans to run are exactly the function calls of the reply, each
/// once, in the order the model made them, with their ids, names and arguments; custom tool
/// calls are left out and nothing else is.
pub proof fn lemma_plan_holds_every_function_call(calls: Seq<ToolCallModel>)
    ensures
        function_calls(calls) == calls.filter(|c: ToolCallModel| is_function_call(c)).map_values(
            |c: ToolCallModel| call_parts(c),
        ),
    decreases calls.len(),
{
    reveal_with_fuel(Seq::filter, 1);
    let f = |c: ToolCallModel| is_function_call(c);
    let g = |c: ToolCallModel| call_parts(c);
    if calls.len() == 0 {
        assert(calls.filter(f) =~= Seq::<ToolCallModel>::empty());
        assert(calls.filter(f).map_values(g) =~= Seq::empty());
    } else {
        lemma_plan_holds_every_function_call(calls.drop_last());
        let sub = calls.drop_last().filter(f);
        if f(calls.last()) {
            assert(calls.filter(f) == sub.push(calls.last()));
            assert(sub.push(calls.last()).map_values(g) =~= sub.map_values(g).push(g(calls.last())));
        } else {
            assert(calls.filter(f) == sub);
        }
    }
}

/// The abstract values of pending calls.
pub open spec fn pending_view(calls: Seq<PendingCall>) -> Seq<(Seq<char>, Seq<char>, Seq<char>)> {
    calls.map_values(|c: PendingCall| (c.id@, c.name@, c.arguments@))
}

/// Law: the abstract value of planned calls has one entry per call: its id, name and
/// arguments, in order.
pub proof fn lemma_pending_view_pointwise(calls: Seq<PendingCall>)
    ensures
        pending_view(calls).len() == calls.len(),
        forall|i: int|
            0 <= i < calls.len() ==> pending_view(calls)[i] == (
                calls[i].id@,
                calls[i].name@,
                calls[i].arguments@,
            ),
{
}

/// Reads the model's reply from the choices of a completion: records the tool calls it
/// made, if any, and says which function calls to run and what text it wrote.
pub fn maybe_reply(conversation: &mut Vec<ConversationMessage>, choices: Vec<ReplyMessage>) -> (r:
    Result<ReplyPlan, ReplyError>)
    ensures
        choices@.len() == 0 ==> r == Err::<ReplyPlan, ReplyError>(ReplyError::NoChoices)
            && final(conversation)@ == old(conversation)@,
        choices@.len() > 0 ==> (r matches Ok(plan) && {
            let m = choices@[0];
            &&& match m.tool_calls {
                Some(calls) => {
                    &&& conversation_view(final(conversation)@) == conversation_view(
                        old(conversation)@,
                    ).push(MessageModel::AssistantToolCalls(tool_calls_view(calls@)))
                    &&& pending_view(plan.calls@) == function_calls(tool_calls_view(calls@))
                },
                None => {
                    &&& final(conversation)@ == old(conversation)@
                    &&& plan.calls@.len() == 0
                },
            }
            &&& plan.decision == m.content
        }),
{
    let mut choices = choices;
    if choices.len() == 0 {
        return Err(ReplyError::NoChoices);
    }
    let message = choices.swap_remove(0);
    let mut calls: Vec<PendingCall> = Vec::new();
    match &message.tool_calls {
        Some(tool_calls) => {
            let ghost before = conversation@;
            conversation.push(ConversationMessage::AssistantToolCalls(duplicate_tool_calls(tool_calls)));
            assert(conversation_view(conversation@) =~= conversation_view(before).push(
                MessageModel::AssistantToolCalls(tool_calls_view(tool_calls@)),
            ));
            let mut i: usize = 0;
            while i < tool_calls.len()
                invariant
                    i <= tool_calls.len(),
                    pending_view(calls@) == function_calls(tool_calls_view(tool_calls@.take(i as int))),
                decreases tool_calls.len() - i,
            {
                let ghost prev = calls@;
                assert(tool_calls_view(tool_calls@.take(i + 1)).drop_last() =~= tool_calls_view(
                    tool_calls@.take(i as int),
                ));
                match &tool_calls[i] {
                    ToolCall::Function { id, name, arguments } => {
                        calls.push(
                            PendingCall { id: id.clone(), name: name.clone(), arguments: arguments.clone() },
                        );
                        assert(pending_view(calls@) =~= pending_view(prev).push(
                            (id@, name@, arguments@),
                        ));
                    },
                    ToolCall::Custom { .. } => {},
                }
                i = i + 1;
            }
            assert(tool_calls@.take(i as int) =~= tool_calls@);
        },
        None => {},
    }
    Ok(ReplyPlan { calls, decision: message.content })
}

/// Records the answer to the tool call `tool_call_id`, as JSON text.
pub fn record_tool_result(conversation: &mut Vec<ConversationMessage>, tool_call_id: String, result: &ToolResult)
    ensures
        conversation_view(final(conversation)@) == conversation_view(old(conversation)@).push(
            MessageModel::Tool { tool_call_id: tool_call_id@, content: tool_result_json(result@) },
        ),
{
    let ghost before = conversation@;
    let content = result.to_json_text();
    conversation.push(ConversationMessage::Tool { tool_call_id, content });
    assert(conversation_view(conversation@) =~= conversation_view(before).push(
        MessageModel::Tool { tool_call_id: tool_call_id@, content: tool_result_json(result@) },
    ));
}

/// Records the text that the model wrote, if it wrote any.
pub fn record_decision(conversation: &mut Vec<ConversationMessage>, decision: Option<String>)
    ensures
        match decision {
            Some(d) => conversation_view(final(conversation)@) == conversation_view(
                old(conversation)@,
            ).push(MessageModel::Assistant(d@)),
            None => final(conversation)@ == old(conversation)@,
        },
{
    match decision {
        Some(d) => {
            let ghost before = conversation@;
            let ghost text = d@;
            conversation.push(ConversationMessage::Assistant(d));
            assert(conversation_view(conversation@) =~= conversation_view(before).push(
                MessageModel::Assistant(text),
            ));
        },
        None => {},
    }
}

/// The request that asks the summarization model to shorten `text`.
pub fn summarize(text: &str) -> (r: ChatRequest)
    ensures
        r.model@ == SUMMARIZATION_MODEL@,
        r.max_completion_tokens == SUMMARY_MAX_TOKENS,
        conversation_view(r.messages@) == seq![
            MessageModel::Developer(SUMMARIZE@),
            MessageModel::User(text@),
        ],
        r.tools@.len() == 0,
{
    let mut messages: Vec<ConversationMessage> = Vec::new();
    messages.push(ConversationMessage::Developer(SUMMARIZE.to_owned()));
    messages.push(ConversationMessage::User(text.to_owned()));
    assert(conversation_view(messages@) =~= seq![
        MessageModel::Developer(SUMMARIZE@),
        MessageModel::User(text@),
    ]);
    ChatRequest {
        model: SUMMARIZATION_MODEL.to_owned(),
        max_completion_tokens: SUMMARY_MAX_TOKENS,
        messages,
        tools: Vec::new(),
    }
}

/// The summary: the text of the first choice, which must exist and hold text.
pub fn summary_text(choices: Vec<ReplyMessage>) -> (r: String)
    requires
        choices@.len() > 0,
        choices@[0].content is Some,
    ensures
        r == choices@[0].content.unwrap(),
{
    let mut choices = choices;
    let first = choices.swap_remove(0);
    first.content.unwrap()
}

} // verus!
