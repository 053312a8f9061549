//! The tools that the model may call, and what comes of its calls.

use vstd::prelude::*;

use crate::json::{
    json_escaped, json_parse_error, json_parses, json_quoted, json_string_member, json_unescaped,
    lemma_json_escaped_decodes, quote_json, string_member, JsonDocument,
};
use crate::text::{decimal_text, lemma_parse_decimal_roundtrip, parse_u64, parsed_u64, str_eq};

verus! {

/// The name of the tool that sends a Discord message.
pub const SEND_TOOL_NAME: &'static str = "send";

/// What the model is told the send tool does.
pub const SEND_TOOL_DESCRIPTION: &'static str = "Send a message to a channel";

/// The JSON schema of the send tool's arguments.
pub const SEND_TOOL_PARAMETERS: &'static str = "{\"type\":\"object\",\"properties\":{\"channel_id\":{\"type\":\"string\",\"description\":\"The ID of the channel you want to send a message in.\"},\"message\":{\"type\":\"string\",\"description\":\"The content of the message.\"}},\"required\":[\"channel_id\",\"message\"],\"additionalProperties\":false}";

/// Reply to a call whose channel ID is absent or not a string.
pub const MISSING_CHANNEL_ID: &'static str = "missing channel id or wrong type";

/// Reply to a call whose channel ID is not a number.
pub const BAD_CHANNEL_ID: &'static str = "cannot parse channel id";

/// Reply to a call without a message.
pub const MISSING_MESSAGE: &'static str = "missing message";

/// Reply to a call of a tool that does not exist.
pub const UNKNOWN_TOOL: &'static str = "unknown tool";

/// A function tool offered to the model.
pub struct ToolDefinition {
    pub name: String,
    pub description: String,
    /// The JSON schema of the arguments, as JSON text.
    pub parameters: String,
    /// Whether the model must follow the schema exactly.
    pub strict: bool,
}

/// The definition of the send tool.
pub fn get_send_tool() -> (r: ToolDefinition)
    ensures
        r.name@ == SEND_TOOL_NAME@,
        r.description@ == SEND_TOOL_DESCRIPTION@,
        r.parameters@ == SEND_TOOL_PARAMETERS@,
        r.strict,
{
    ToolDefinition {
        name: SEND_TOOL_NAME.to_owned(),
        description: SEND_TOOL_DESCRIPTION.to_owned(),
        parameters: SEND_TOOL_PARAMETERS.to_owned(),
        strict: true,
    }
}

impl ToolDefinition {
    /// A copy of this definition.
    pub fn duplicate(&self) -> (r: ToolDefinition)
        ensures
            r == *self,
    {
        ToolDefinition {
            name: self.name.clone(),
            description: self.description.clone(),
            parameters: self.parameters.clone(),
            strict: self.strict,
        }
    }
}

/// What a tool call came to, as reported back to the model.
pub enum ToolResult {
    Success,
    Error(String),
}

/// The abstract value of a `ToolResult`.
pub enum ToolResultModel {
    Success,
    Error(Seq<char>),
}

impl View for ToolResult {
    type V = ToolResultModel;

    open spec fn view(&self) -> ToolResultModel {
        match self {
            ToolResult::Success => ToolResultModel::Success,
            ToolResult::Error(e) => ToolResultModel::Error(e@),
        }
    }
}

/// The JSON text of a tool result: `{"success":true}` or `{"error":"..."}`.
pub open spec fn tool_result_json(r: ToolResultModel) -> Seq<char> {
    match r {
        ToolResultModel::Success => "{\"success\":true}"@,
        ToolResultModel::Error(e) => "{\"error\":"@ + json_quoted(e) + "}"@,
    }
}

/// Law: an error answer is the JSON object with the single member `error`, whose string
/// literal reads back, under the JSON string grammar, as exactly the error message.
pub proof fn lemma_error_answer_reads_back(e: Seq<char>)
    ensures
        tool_result_json(ToolResultModel::Error(e)) == "{\"error\":\""@ + json_escaped(e) + "\"}"@,
        json_unescaped(json_escaped(e)) == Some(e),
{
    reveal_strlit("{\"error\":");
    reveal_strlit("}");
    reveal_strlit("{\"error\":\"");
    reveal_strlit("\"}");
    lemma_json_escaped_decodes(e);
    assert(tool_result_json(ToolResultModel::Error(e)) =~= "{\"error\":\""@ + json_escaped(e)
        + "\"}"@);
}

impl ToolResult {
    /// The JSON text that reports this result to the model.
    pub fn to_json_text(&self) -> (r: String)
        ensures
            r@ == tool_result_json(self@),
    {
        match self {
            ToolResult::Success => "{\"success\":true}".to_owned(),
            ToolResult::Error(e) => {
                let mut out = "{\"error\":".to_owned();
                let quoted = quote_json(e.as_str());
                out.append(quoted.as_str());
                out.append("}");
                out
            },
        }
    }
}

/// What to do about a tool call.
pub enum ToolAction {
    /// Answer the model at once.
    Respond(ToolResult),
    /// Send `message` to the Discord channel `channel_id`, then report the outcome with
    /// `send_message_result`. The ID is whatever number the call names, 0 included;
    /// Discord has no channel 0.
    Send { channel_id: u64, message: String },
}

/// The abstract value of a `ToolAction`.
pub enum ToolActionModel {
    Respond(ToolResultModel),
    Send { channel_id: u64, message: Seq<char> },
}

impl View for ToolAction {
    type V = ToolActionModel;

    open spec fn view(&self) -> ToolActionModel {
        match self {
            ToolAction::Respond(r) => ToolActionModel::Respond(r@),
            ToolAction::Send { channel_id, message } => ToolActionModel::Send {
                channel_id: *channel_id,
                message: message@,
            },
        }
    }
}

/// An immediate error answer.
pub open spec fn refusal(e: Seq<char>) -> ToolActionModel {
    ToolActionModel::Respond(ToolResultModel::Error(e))
}

/// What a call of the send tool with the JSON arguments `call` comes to.
pub open spec fn send_call_action(call: Seq<char>) -> ToolActionModel {
    match json_string_member(call, "channel_id"@) {
        None => refusal(MISSING_CHANNEL_ID@),
        Some(id_text) => match parsed_u64(id_text) {
            None => refusal(BAD_CHANNEL_ID@),
            Some(id) => match json_string_member(call, "message"@) {
                None => refusal(MISSING_MESSAGE@),
                Some(m) => ToolActionModel::Send { channel_id: id, message: m },
            },
        },
    }
}

/// What a call of the tool `name` with the argument text `args` comes to.
pub open spec fn tool_call_action(name: Seq<char>, args: Seq<char>) -> ToolActionModel {
    if !json_parses(args) {
        refusal(json_parse_error(args))
    } else if name == SEND_TOOL_NAME@ {
        send_call_action(args)
    } else {
        refusal(UNKNOWN_TOOL@)
    }
}

/// Law: a send call that names a channel by the decimal ID the prompts show for it, with a
/// message, sends that message to that very channel.
pub proof fn lemma_send_to_shown_channel(call: Seq<char>, channel_id: u64, message: Seq<char>)
    requires
        json_string_member(call, "channel_id"@) == Some(decimal_text(channel_id as nat)),
        json_string_member(call, "message"@) == Some(message),
    ensures
        send_call_action(call) == (ToolActionModel::Send { channel_id, message }),
{
    lemma_parse_decimal_roundtrip(channel_id);
}

/// Law: a call of the send tool whose JSON arguments name a channel by a decimal ID and give
/// a message sends exactly that message, whole, to exactly that channel; arguments that are
/// not JSON are answered with serde_json's error, and any other tool name with
/// `unknown tool`.
pub proof fn lemma_tool_call_outcomes(name: Seq<char>, args: Seq<char>)
    ensures
        !json_parses(args) ==> tool_call_action(name, args) == refusal(json_parse_error(args)),
        json_parses(args) && name != SEND_TOOL_NAME@ ==> tool_call_action(name, args) == refusal(
            UNKNOWN_TOOL@,
        ),
        json_parses(args) && name == SEND_TOOL_NAME@ ==> match (
            json_string_member(args, "channel_id"@),
            json_string_member(args, "message"@),
        ) {
            (Some(id_text), Some(message)) => match parsed_u64(id_text) {
                Some(id) => tool_call_action(name, args) == (ToolActionModel::Send {
                    channel_id: id,
                    message,
                }),
                None => tool_call_action(name, args) == refusal(BAD_CHANNEL_ID@),
            },
            (None, _) => tool_call_action(name, args) == refusal(MISSING_CHANNEL_ID@),
            (Some(id_text), None) => parsed_u64(id_text) is Some ==> tool_call_action(name, args)
                == refusal(MISSING_MESSAGE@),
        },
{
}

/// Decodes a call of the send tool: the channel must be given as a string of decimal
/// digits and the message as a string.
pub fn dispatch_send_message(call: &JsonDocument) -> (r: ToolAction)
    ensures
        r@ == send_call_action(call.source()),
{
    let channel_id = match string_member(call, "channel_id") {
        None => return ToolAction::Respond(ToolResult::Error(MISSING_CHANNEL_ID.to_owned())),
        Some(id_text) => match parse_u64(id_text.as_str()) {
            None => return ToolAction::Respond(ToolResult::Error(BAD_CHANNEL_ID.to_owned())),
            Some(id) => id,
        },
    };
    match string_member(call, "message") {
        None => ToolAction::Respond(ToolResult::Error(MISSING_MESSAGE.to_owned())),
        Some(message) => ToolAction::Send { channel_id, message },
    }
}

/// Decodes a tool call of the model: its arguments must be JSON, and the tool must exist.
pub fn call_tool(name: &str, args: &str) -> (r: ToolAction)
    ensures
        r@ == tool_call_action(name@, args@),
{
    let parsed = match JsonDocument::parse(args) {
        Ok(doc) => doc,
        Err(why) => return ToolAction::Respond(ToolResult::Error(why)),
    };
    if str_eq(name, SEND_TOOL_NAME) {
        dispatch_send_message(&parsed)
    } else {
        ToolAction::Respond(ToolResult::Error(UNKNOWN_TOOL.to_owned()))
    }
}

/// What a Discord send came to: success, or the error's message.
pub fn send_message_result(outcome: Result<(), String>) -> (r: ToolResult)
    ensures
        match outcome {
            Ok(_) => r@ == ToolResultModel::Success,
            Err(e) => r@ == ToolResultModel::Error(e@),
        },
{
    match outcome {
        Ok(_) => ToolResult::Success,
        Err(why) => ToolResult::Error(why),
    }
}

} // verus!
