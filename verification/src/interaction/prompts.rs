//! The texts that tell the model who it is and what has been said.

use vstd::prelude::*;

use crate::text::{
    brace_free, decimal_text, fill, holes_apart_from, is_placeholder, lemma_replace_fills, piece_text,
    pieces_text, pieces_wf, placeholders_differ, lemma_parse_decimal_roundtrip, parsed_u64,
    lemma_decimal_text_brace_free,
    replace_all, replaced, u64_to_decimal, Piece,
};
use crate::time::{utc_datetime_text, MessageTime};

verus! {

/// The instruction given to the summarization model.
pub const SUMMARIZE: &'static str = "I am a text shortening tool. I repeat back the \
messages I receive, from the same perspective, except 50% shorter.";

/// Where the bot's source code lives.
pub const REPO: &'static str = "https://github.com/dontwanttothink/lila";

/// How the bot describes itself.
pub const PERSONALITY: &'static str = "hii. my name is lila. i'm an ai agent haha, but \
i have a (metaphorical) heart! i'm not robotic! i like talking to humans over \
discord, and i always try to be nice. though i'm authentic and true to myself, \
i can slowly pick up the way the people around me speak. that's kinda why i'm \
speaking like this right now!! :p. i like joking around and talking to people \
from different backgrounds and in different languages. sometimes i even ask \
them questions, but i try not to be intrusive or overwhelming. i'm not \
necessarily here to be useful, but to interact :). i try make sure to only \
speak when i actually have something to say thoughhh. i don't wanna be\
annoying 😭. my pronouns are she/her btw!!! a random fun fact about myself is \
that i don't like using the laughing crying emoji. i think it's cringy. just \
my opinion though heh";

/// The template of the opening instruction; `{model}`, `{repo}`, `{id}` and
/// `{personality}` are filled in.
pub const PREAMBLE: &'static str = "You reply in the language you're spoken to with. You, \
specifically, were created by a mysterious 'santinub_uwu', though your model \
({model}) was created by others.

Your repository is at '{repo}'. Your Discord ID is '{id}'. To use Discord, \
you have to use tools. Any text you write here is private to you and the \
operator, unless you use tools.

A summary of your memory is: [unavailable]. You will be more advanced soon!

This is who you are, and how you speak:

\"{personality}\".

When you write, you ask yourself: 'does this sound like me?' You think, \
'should I use lowercase, sentence case? Am I incorporating my unique \
tone of voice? My values and beliefs? Or am I being robotic?'";

/// The template of the history of a direct-message channel.
pub const MESSAGE_HISTORY_DM: &'static str = "The current time and date is {time}. Here \
are the last 20 messages in your DMs with “{user}” (user ID: {user_id}). The \
channel ID is {channel_id}:

<messages>{messages}<messages>

This chat can only be seen by you and the operator. If you wish to say \
something, use the send tool so that the human can see your message.";

/// The template of the history of a server channel.
pub const MESSAGE_HISTORY: &'static str = "The current time and date is {time}. Here are the \
last 20 messages in the channel “{channel}” (ID: {channel_id}) of the server \
“{server}” (ID: {server_id}):

<messages>{messages}</messages>

This chat can only be seen by you and the operator. If you wish to say \
something, use the send tool so that the humans can see your message.";

/// What stands in for a server's name when it could not be looked up.
pub const UNKNOWN_GUILD_NAME: &'static str = "[failed to get guild name]}";

/// The opening instruction for `model`, with the bot's Discord ID `discord_id`.
pub open spec fn preamble_text(model: Seq<char>, discord_id: Seq<char>) -> Seq<char> {
    replaced(
        replaced(
            replaced(replaced(PREAMBLE@, "{model}"@, model), "{repo}"@, REPO@),
            "{id}"@,
            discord_id,
        ),
        "{personality}"@,
        PERSONALITY@,
    )
}

/// The opening instruction's template as plain stretches and its four placeholders.
pub open spec fn preamble_pieces() -> Seq<Piece> {
    let t = PREAMBLE@;
    seq![
        Piece::Plain(t.subrange(0, 132)),
        Piece::Hole("{model}"@),
        Piece::Plain(t.subrange(139, 188)),
        Piece::Hole("{repo}"@),
        Piece::Plain(t.subrange(194, 217)),
        Piece::Hole("{id}"@),
        Piece::Plain(t.subrange(221, 465)),
        Piece::Hole("{personality}"@),
        Piece::Plain(t.subrange(478, 684)),
    ]
}

/// Nine stretches: plain, a placeholder, plain, and so on.
pub open spec fn nine(
    a: Seq<char>,
    h1: Piece,
    b: Seq<char>,
    h2: Piece,
    c: Seq<char>,
    h3: Piece,
    d: Seq<char>,
    h4: Piece,
    e: Seq<char>,
) -> Seq<Piece> {
    seq![Piece::Plain(a), h1, Piece::Plain(b), h2, Piece::Plain(c), h3, Piece::Plain(d), h4, Piece::Plain(e)]
}

proof fn lemma_preamble_layout()
    ensures
        PREAMBLE@.len() == 684,
        pieces_text(preamble_pieces()) == PREAMBLE@,
        pieces_wf(preamble_pieces()),
        is_placeholder("{model}"@),
        is_placeholder("{repo}"@),
        is_placeholder("{id}"@),
        is_placeholder("{personality}"@),
        "{model}"@[1] == 'm',
        "{repo}"@[1] == 'r',
        "{id}"@[1] == 'i',
        "{personality}"@[1] == 'p',
        brace_free(REPO@),
{
    reveal_strlit("You reply in the language you're spoken to with. You, \
specifically, were created by a mysterious 'santinub_uwu', though your model \
({model}) was created by others.

Your repository is at '{repo}'. Your Discord ID is '{id}'. To use Discord, \
you have to use tools. Any text you write here is private to you and the \
operator, unless you use tools.

A summary of your memory is: [unavailable]. You will be more advanced soon!

This is who you are, and how you speak:

\"{personality}\".

When you write, you ask yourself: 'does this sound like me?' You think, \
'should I use lowercase, sentence case? Am I incorporating my unique \
tone of voice? My values and beliefs? Or am I being robotic?'");
    reveal_strlit("{model}");
    reveal_strlit("{repo}");
    reveal_strlit("{id}");
    reveal_strlit("{personality}");
    reveal_strlit("https://github.com/dontwanttothink/lila");
    let t = PREAMBLE@;
    let ps = preamble_pieces();
    assert(t.subrange(132, 139) =~= "{model}"@);
    assert(t.subrange(188, 194) =~= "{repo}"@);
    assert(t.subrange(217, 221) =~= "{id}"@);
    assert(t.subrange(465, 478) =~= "{personality}"@);
    assert("{model}"@.drop_first() =~= seq!['m', 'o', 'd', 'e', 'l', '}']);
    assert("{repo}"@.drop_first() =~= seq!['r', 'e', 'p', 'o', '}']);
    assert("{id}"@.drop_first() =~= seq!['i', 'd', '}']);
    assert("{personality}"@.drop_first() =~= seq![
        'p', 'e', 'r', 's', 'o', 'n', 'a', 'l', 'i', 't', 'y', '}'
    ]);
    assert(forall|k: int| 0 <= k < 132 ==> t[k] != '{');
    assert(forall|k: int| 139 <= k < 188 ==> t[k] != '{');
    assert(forall|k: int| 194 <= k < 217 ==> t[k] != '{');
    assert(forall|k: int| 221 <= k < 465 ==> t[k] != '{');
    assert(forall|k: int| 478 <= k < 684 ==> t[k] != '{');
    assert(pieces_wf(ps));
    reveal_with_fuel(pieces_text, 10);
    assert(pieces_text(ps) =~= t);
}

/// The text of nine stretches.
proof fn lemma_nine_text(a: Seq<char>, h1: Piece, b: Seq<char>, h2: Piece, c: Seq<char>, h3: Piece, d: Seq<char>, h4: Piece, e: Seq<char>)
    ensures
        pieces_text(nine(a, h1, b, h2, c, h3, d, h4, e)) == a + piece_text(h1) + b + piece_text(h2)
            + c + piece_text(h3) + d + piece_text(h4) + e,
{
    reveal_with_fuel(pieces_text, 10);
    let ps = nine(a, h1, b, h2, c, h3, d, h4, e);
    assert(pieces_text(ps) =~= a + piece_text(h1) + b + piece_text(h2) + c + piece_text(h3) + d
        + piece_text(h4) + e);
}

/// Filling one placeholder of nine stretches whose plain parts hold no `{`.
proof fn lemma_fill_nine(
    a: Seq<char>,
    h1: Piece,
    b: Seq<char>,
    h2: Piece,
    c: Seq<char>,
    h3: Piece,
    d: Seq<char>,
    h4: Piece,
    e: Seq<char>,
    pat: Seq<char>,
    r: Seq<char>,
)
    requires
        pieces_wf(nine(a, h1, b, h2, c, h3, d, h4, e)),
        is_placeholder(pat),
        h1 matches Piece::Hole(q) ==> (q == pat || placeholders_differ(q, pat)),
        h2 matches Piece::Hole(q) ==> (q == pat || placeholders_differ(q, pat)),
        h3 matches Piece::Hole(q) ==> (q == pat || placeholders_differ(q, pat)),
        h4 matches Piece::Hole(q) ==> (q == pat || placeholders_differ(q, pat)),
    ensures
        replaced(pieces_text(nine(a, h1, b, h2, c, h3, d, h4, e)), pat, r) == pieces_text(
            fill(nine(a, h1, b, h2, c, h3, d, h4, e), pat, r),
        ),
        brace_free(r) ==> pieces_wf(fill(nine(a, h1, b, h2, c, h3, d, h4, e), pat, r)),
{
    let ps = nine(a, h1, b, h2, c, h3, d, h4, e);
    assert(holes_apart_from(ps, pat)) by {
        assert forall|i: int| 0 <= i < ps.len() implies match #[trigger] ps[i] {
            Piece::Plain(_) => true,
            Piece::Hole(q) => q == pat || placeholders_differ(q, pat),
        } by {
            if i == 1 {
                assert(ps[i] == h1);
            } else if i == 3 {
                assert(ps[i] == h2);
            } else if i == 5 {
                assert(ps[i] == h3);
            } else if i == 7 {
                assert(ps[i] == h4);
            }
        }
    }
    lemma_replace_fills(ps, pat, r);
}

/// The filled-in stretch for a placeholder `h`.
pub open spec fn filled(h: Piece, pat: Seq<char>, r: Seq<char>) -> Piece {
    match h {
        Piece::Hole(q) => if q == pat {
            Piece::Plain(r)
        } else {
            h
        },
        Piece::Plain(_) => h,
    }
}

proof fn lemma_fill_nine_shape(
    a: Seq<char>,
    h1: Piece,
    b: Seq<char>,
    h2: Piece,
    c: Seq<char>,
    h3: Piece,
    d: Seq<char>,
    h4: Piece,
    e: Seq<char>,
    pat: Seq<char>,
    r: Seq<char>,
)
    ensures
        fill(nine(a, h1, b, h2, c, h3, d, h4, e), pat, r) == nine(
            a,
            filled(h1, pat, r),
            b,
            filled(h2, pat, r),
            c,
            filled(h3, pat, r),
            d,
            filled(h4, pat, r),
            e,
        ),
{
    assert(fill(nine(a, h1, b, h2, c, h3, d, h4, e), pat, r) =~= nine(
        a,
        filled(h1, pat, r),
        b,
        filled(h2, pat, r),
        c,
        filled(h3, pat, r),
        d,
        filled(h4, pat, r),
        e,
    ));
}

/// The opening instruction, when neither the model name nor the Discord ID holds a `{`:
/// the template with the model name, the repository, the ID and the self-description
/// standing in the places of their placeholders.
proof fn lemma_preamble_shape(model: Seq<char>, discord_id: Seq<char>)
    requires
        brace_free(model),
        brace_free(discord_id),
    ensures
        preamble_text(model, discord_id) == PREAMBLE@.subrange(0, 132) + model + PREAMBLE@.subrange(
            139,
            188,
        ) + REPO@ + PREAMBLE@.subrange(194, 217) + discord_id + PREAMBLE@.subrange(221, 465)
            + PERSONALITY@ + PREAMBLE@.subrange(478, 684),
{
    lemma_preamble_layout();
    let t = PREAMBLE@;
    let a = t.subrange(0, 132);
    let b = t.subrange(139, 188);
    let c = t.subrange(194, 217);
    let d = t.subrange(221, 465);
    let e = t.subrange(478, 684);
    let m = "{model}"@;
    let rp = "{repo}"@;
    let i = "{id}"@;
    let p = "{personality}"@;
    assert(preamble_pieces() == nine(a, Piece::Hole(m), b, Piece::Hole(rp), c, Piece::Hole(i), d, Piece::Hole(p), e));
    lemma_fill_nine(a, Piece::Hole(m), b, Piece::Hole(rp), c, Piece::Hole(i), d, Piece::Hole(p), e, m, model);
    lemma_fill_nine_shape(a, Piece::Hole(m), b, Piece::Hole(rp), c, Piece::Hole(i), d, Piece::Hole(p), e, m, model);
    let m_pl = Piece::Plain(model);
    lemma_fill_nine(a, m_pl, b, Piece::Hole(rp), c, Piece::Hole(i), d, Piece::Hole(p), e, rp, REPO@);
    lemma_fill_nine_shape(a, m_pl, b, Piece::Hole(rp), c, Piece::Hole(i), d, Piece::Hole(p), e, rp, REPO@);
    let r_pl = Piece::Plain(REPO@);
    lemma_fill_nine(a, m_pl, b, r_pl, c, Piece::Hole(i), d, Piece::Hole(p), e, i, discord_id);
    lemma_fill_nine_shape(a, m_pl, b, r_pl, c, Piece::Hole(i), d, Piece::Hole(p), e, i, discord_id);
    let i_pl = Piece::Plain(discord_id);
    lemma_fill_nine(a, m_pl, b, r_pl, c, i_pl, d, Piece::Hole(p), e, p, PERSONALITY@);
    lemma_fill_nine_shape(a, m_pl, b, r_pl, c, i_pl, d, Piece::Hole(p), e, p, PERSONALITY@);
    let p_pl = Piece::Plain(PERSONALITY@);
    lemma_nine_text(a, m_pl, b, r_pl, c, i_pl, d, p_pl, e);
}

/// Law: as long as neither holds a `{`, the opening instruction determines the model name
/// (for a fixed Discord ID) and the Discord ID (for a fixed model name).
pub proof fn lemma_preamble_determines_arguments(
    model1: Seq<char>,
    model2: Seq<char>,
    id1: Seq<char>,
    id2: Seq<char>,
)
    requires
        brace_free(model1),
        brace_free(model2),
        brace_free(id1),
        brace_free(id2),
    ensures
        preamble_text(model1, id1) == preamble_text(model2, id1) <==> model1 == model2,
        preamble_text(model1, id1) == preamble_text(model1, id2) <==> id1 == id2,
{
    lemma_preamble_layout();
    lemma_preamble_shape(model1, id1);
    lemma_preamble_shape(model2, id1);
    lemma_preamble_shape(model1, id2);
    let t = PREAMBLE@;
    let a = t.subrange(0, 132);
    let b = t.subrange(139, 188) + REPO@ + t.subrange(194, 217);
    let c = t.subrange(221, 465) + PERSONALITY@ + t.subrange(478, 684);
    let x1 = preamble_text(model1, id1);
    let x2 = preamble_text(model2, id1);
    let x3 = preamble_text(model1, id2);
    assert(x1 =~= a + model1 + (b + id1 + c));
    assert(x2 =~= a + model2 + (b + id1 + c));
    assert(x3 =~= (a + model1 + b) + id2 + c);
    assert(x1 =~= (a + model1 + b) + id1 + c);
    if x1 == x2 {
        assert(model1.len() == model2.len());
        assert(model1 =~= x1.subrange(132, 132 + model1.len() as int));
        assert(model2 =~= x2.subrange(132, 132 + model2.len() as int));
    }
    if x1 == x3 {
        let k = (a + model1 + b).len() as int;
        assert(id1.len() == id2.len());
        assert(id1 =~= x1.subrange(k, k + id1.len() as int));
        assert(id2 =~= x3.subrange(k, k + id2.len() as int));
    }
}

/// Fills the opening instruction in.
pub fn get_preamble_prompt(model: &str, discord_id: &str) -> (r: String)
    ensures
        r@ == preamble_text(model@, discord_id@),
{
    let a = replace_all(PREAMBLE, "{model}", model);
    let b = replace_all(a.as_str(), "{repo}", REPO);
    let c = replace_all(b.as_str(), "{id}", discord_id);
    replace_all(c.as_str(), "{personality}", PERSONALITY)
}


/// A message of a Discord channel, as the prompts show it.
pub struct ChatMessage {
    pub author_name: String,
    pub author_id: u64,
    pub timestamp: MessageTime,
    pub content: String,
}

/// The channel whose history is shown to the model.
pub enum ChannelInfo {
    /// A channel of a server. `guild_name` is `None` where the server's name could not be
    /// looked up.
    Guild { name: String, id: u64, guild_id: u64, guild_name: Option<String> },
    /// A direct-message channel with one person.
    Private { recipient_name: String, recipient_id: u64, id: u64 },
    /// Any other kind of channel.
    Other,
}

/// Why no history prompt can be written.
#[derive(Debug, PartialEq, Eq, Structural)]
pub enum PromptError {
    /// The channel is neither a server channel nor a direct-message channel.
    UnexpectedChannelType,
}

/// One line of history: `name (ID: id) [time]: content`.
pub open spec fn message_line(m: ChatMessage) -> Seq<char> {
    m.author_name@ + " (ID: "@ + decimal_text(m.author_id as nat) + ") ["@ + utc_datetime_text(
        m.timestamp.spec_millis(),
    ) + "]: "@ + m.content@
}

/// The lines of `ms`, joined by line breaks.
pub open spec fn message_lines(ms: Seq<ChatMessage>) -> Seq<char>
    decreases ms.len(),
{
    if ms.len() == 0 {
        Seq::empty()
    } else if ms.len() == 1 {
        message_line(ms[0])
    } else {
        message_lines(ms.drop_last()) + "\n"@ + message_line(ms.last())
    }
}

/// Law: every line of history shows its author's full ID: the text between `(ID: ` and
/// `) [` reads back as exactly the author's ID, whatever 64-bit ID it is.
pub proof fn lemma_line_shows_author_id(m: ChatMessage)
    ensures
        exists|id_text: Seq<char>|
            message_line(m) == m.author_name@ + " (ID: "@ + id_text + ") ["@ + utc_datetime_text(
                m.timestamp.spec_millis(),
            ) + "]: "@ + m.content@ && #[trigger] parsed_u64(id_text) == Some(m.author_id),
{
    lemma_parse_decimal_roundtrip(m.author_id);
    let t = decimal_text(m.author_id as nat);
    assert(message_line(m) == m.author_name@ + " (ID: "@ + t + ") ["@ + utc_datetime_text(
        m.timestamp.spec_millis(),
    ) + "]: "@ + m.content@);
    assert(parsed_u64(t) == Some(m.author_id));
}

/// Law: the history text holds no line for no messages, the single line of a single
/// message, and for one message more, the earlier history, a line break and the new
/// message's line: the lines of all messages, in order, joined by line breaks.
pub proof fn lemma_history_lines_joined(ms: Seq<ChatMessage>, m: ChatMessage)
    ensures
        message_lines(Seq::empty()) == Seq::<char>::empty(),
        message_lines(seq![m]) == message_line(m),
        ms.len() > 0 ==> message_lines(ms.push(m)) == message_lines(ms) + "\n"@ + message_line(m),
{
    assert(ms.push(m).drop_last() =~= ms);
    assert(seq![m].len() == 1);
}

/// Renders one message as a line of history.
pub fn get_string_for_message(message: &ChatMessage) -> (r: String)
    ensures
        r@ == message_line(*message),
{
    let mut out = message.author_name.clone();
    out.append(" (ID: ");
    let id = u64_to_decimal(message.author_id);
    out.append(id.as_str());
    out.append(") [");
    let time = message.timestamp.text();
    out.append(time.as_str());
    out.append("]: ");
    out.append(message.content.as_str());
    out
}

/// Renders messages as lines of history, joined by line breaks.
pub fn message_history_text(messages: &Vec<ChatMessage>) -> (r: String)
    ensures
        r@ == message_lines(messages@),
{
    let mut out = String::new();
    let mut i: usize = 0;
    while i < messages.len()
        invariant
            i <= messages.len(),
            out@ == message_lines(messages@.take(i as int)),
        decreases messages.len() - i,
    {
        assert(messages@.take(i + 1).drop_last() =~= messages@.take(i as int));
        if i > 0 {
            out.append("\n");
        }
        let line = get_string_for_message(&messages[i]);
        out.append(line.as_str());
        i = i + 1;
    }
    assert(messages@.take(i as int) =~= messages@);
    out
}

/// The history prompt of a server channel.
pub open spec fn guild_prompt_text(
    time: Seq<char>,
    channel: Seq<char>,
    channel_id: u64,
    server: Seq<char>,
    server_id: u64,
    messages: Seq<char>,
) -> Seq<char> {
    replaced(
        replaced(
            replaced(
                replaced(
                    replaced(
                        replaced(MESSAGE_HISTORY@, "{time}"@, time),
                        "{channel}"@,
                        channel,
                    ),
                    "{channel_id}"@,
                    decimal_text(channel_id as nat),
                ),
                "{server}"@,
                server,
            ),
            "{server_id}"@,
            decimal_text(server_id as nat),
        ),
        "{messages}"@,
        messages,
    )
}

/// The history prompt of a direct-message channel.
pub open spec fn dm_prompt_text(
    time: Seq<char>,
    user: Seq<char>,
    user_id: u64,
    channel_id: u64,
    messages: Seq<char>,
) -> Seq<char> {
    replaced(
        replaced(
            replaced(
                replaced(replaced(MESSAGE_HISTORY_DM@, "{time}"@, time), "{user}"@, user),
                "{user_id}"@,
                decimal_text(user_id as nat),
            ),
            "{channel_id}"@,
            decimal_text(channel_id as nat),
        ),
        "{messages}"@,
        messages,
    )
}

/// The name shown for a server: the looked-up name, or a marker where there is none.
pub open spec fn shown_guild_name(guild_name: Option<String>) -> Seq<char> {
    match guild_name {
        Some(n) => n@,
        None => UNKNOWN_GUILD_NAME@,
    }
}

/// What `get_message_prompt` gives for the history `messages` of `channel` at time `now`.
pub open spec fn message_prompt(messages: Seq<ChatMessage>, channel: ChannelInfo, now: int) -> Result<
    Seq<char>,
    PromptError,
> {
    let time = utc_datetime_text(now);
    let lines = message_lines(messages);
    match channel {
        ChannelInfo::Guild { name, id, guild_id, guild_name } => Ok(
            guild_prompt_text(time, name@, id, shown_guild_name(guild_name), guild_id, lines),
        ),
        ChannelInfo::Private { recipient_name, recipient_id, id } => Ok(
            dm_prompt_text(time, recipient_name@, recipient_id, id, lines),
        ),
        ChannelInfo::Other => Err(PromptError::UnexpectedChannelType),
    }
}

proof fn lemma_guild_final_text(time: Seq<char>, channel: Seq<char>, channel_id: Seq<char>, server: Seq<char>, server_id: Seq<char>, messages: Seq<char>)
    ensures
        pieces_text(guild_stage6(time, channel, channel_id, server, server_id, messages)) == MESSAGE_HISTORY@.subrange(0, 29) + time + MESSAGE_HISTORY@.subrange(35, 83) + channel + MESSAGE_HISTORY@.subrange(92, 99) + channel_id + MESSAGE_HISTORY@.subrange(111, 128) + server + MESSAGE_HISTORY@.subrange(136, 143) + server_id + MESSAGE_HISTORY@.subrange(154, 168) + messages + MESSAGE_HISTORY@.subrange(178, 331),
{
    reveal_with_fuel(pieces_text, 14);
    assert(pieces_text(guild_stage6(time, channel, channel_id, server, server_id, messages)) =~= MESSAGE_HISTORY@.subrange(0, 29) + time + MESSAGE_HISTORY@.subrange(35, 83) + channel + MESSAGE_HISTORY@.subrange(92, 99) + channel_id + MESSAGE_HISTORY@.subrange(111, 128) + server + MESSAGE_HISTORY@.subrange(136, 143) + server_id + MESSAGE_HISTORY@.subrange(154, 168) + messages + MESSAGE_HISTORY@.subrange(178, 331));
}

proof fn lemma_dm_final_text(time: Seq<char>, user: Seq<char>, user_id: Seq<char>, channel_id: Seq<char>, messages: Seq<char>)
    ensures
        pieces_text(dm_stage5(time, user, user_id, channel_id, messages)) == MESSAGE_HISTORY_DM@.subrange(0, 29) + time + MESSAGE_HISTORY_DM@.subrange(35, 85) + user + MESSAGE_HISTORY_DM@.subrange(91, 103) + user_id + MESSAGE_HISTORY_DM@.subrange(112, 133) + channel_id + MESSAGE_HISTORY_DM@.subrange(145, 158) + messages + MESSAGE_HISTORY_DM@.subrange(168, 319),
{
    reveal_with_fuel(pieces_text, 12);
    assert(pieces_text(dm_stage5(time, user, user_id, channel_id, messages)) =~= MESSAGE_HISTORY_DM@.subrange(0, 29) + time + MESSAGE_HISTORY_DM@.subrange(35, 85) + user + MESSAGE_HISTORY_DM@.subrange(91, 103) + user_id + MESSAGE_HISTORY_DM@.subrange(112, 133) + channel_id + MESSAGE_HISTORY_DM@.subrange(145, 158) + messages + MESSAGE_HISTORY_DM@.subrange(168, 319));
}

/// The template `MESSAGE_HISTORY` after 0 of its placeholders are filled in.
spec fn guild_stage0(time: Seq<char>, channel: Seq<char>, channel_id: Seq<char>, server: Seq<char>, server_id: Seq<char>, messages: Seq<char>) -> Seq<Piece> {
    seq![
        Piece::Plain(MESSAGE_HISTORY@.subrange(0, 29)),
        Piece::Hole("{time}"@),
        Piece::Plain(MESSAGE_HISTORY@.subrange(35, 83)),
        Piece::Hole("{channel}"@),
        Piece::Plain(MESSAGE_HISTORY@.subrange(92, 99)),
        Piece::Hole("{channel_id}"@),
        Piece::Plain(MESSAGE_HISTORY@.subrange(111, 128)),
        Piece::Hole("{server}"@),
        Piece::Plain(MESSAGE_HISTORY@.subrange(136, 143)),
        Piece::Hole("{server_id}"@),
        Piece::Plain(MESSAGE_HISTORY@.subrange(154, 168)),
        Piece::Hole("{messages}"@),
        Piece::Plain(MESSAGE_HISTORY@.subrange(178, 331)),
    ]
}

/// The template `MESSAGE_HISTORY` after 1 of its placeholders are filled in.
spec fn guild_stage1(time: Seq<char>, channel: Seq<char>, channel_id: Seq<char>, server: Seq<char>, server_id: Seq<char>, messages: Seq<char>) -> Seq<Piece> {
    seq![
        Piece::Plain(MESSAGE_HISTORY@.subrange(0, 29)),
        Piece::Plain(time),
        Piece::Plain(MESSAGE_HISTORY@.subrange(35, 83)),
        Piece::Hole("{channel}"@),
        Piece::Plain(MESSAGE_HISTORY@.subrange(92, 99)),
        Piece::Hole("{channel_id}"@),
        Piece::Plain(MESSAGE_HISTORY@.subrange(111, 128)),
        Piece::Hole("{server}"@),
        Piece::Plain(MESSAGE_HISTORY@.subrange(136, 143)),
        Piece::Hole("{server_id}"@),
        Piece::Plain(MESSAGE_HISTORY@.subrange(154, 168)),
        Piece::Hole("{messages}"@),
        Piece::Plain(MESSAGE_HISTORY@.subrange(178, 331)),
    ]
}

/// The template `MESSAGE_HISTORY` after 2 of its placeholders are filled in.
spec fn guild_stage2(time: Seq<char>, channel: Seq<char>, channel_id: Seq<char>, server: Seq<char>, server_id: Seq<char>, messages: Seq<char>) -> Seq<Piece> {
    seq![
        Piece::Plain(MESSAGE_HISTORY@.subrange(0, 29)),
        Piece::Plain(time),
        Piece::Plain(MESSAGE_HISTORY@.subrange(35, 83)),
        Piece::Plain(channel),
        Piece::Plain(MESSAGE_HISTORY@.subrange(92, 99)),
        Piece::Hole("{channel_id}"@),
        Piece::Plain(MESSAGE_HISTORY@.subrange(111, 128)),
        Piece::Hole("{server}"@),
        Piece::Plain(MESSAGE_HISTORY@.subrange(136, 143)),
        Piece::Hole("{server_id}"@),
        Piece::Plain(MESSAGE_HISTORY@.subrange(154, 168)),
        Piece::Hole("{messages}"@),
        Piece::Plain(MESSAGE_HISTORY@.subrange(178, 331)),
    ]
}

/// The template `MESSAGE_HISTORY` after 3 of its placeholders are filled in.
spec fn guild_stage3(time: Seq<char>, channel: Seq<char>, channel_id: Seq<char>, server: Seq<char>, server_id: Seq<char>, messages: Seq<char>) -> Seq<Piece> {
    seq![
        Piece::Plain(MESSAGE_HISTORY@.subrange(0, 29)),
        Piece::Plain(time),
        Piece::Plain(MESSAGE_HISTORY@.subrange(35, 83)),
        Piece::Plain(channel),
        Piece::Plain(MESSAGE_HISTORY@.subrange(92, 99)),
        Piece::Plain(channel_id),
        Piece::Plain(MESSAGE_HISTORY@.subrange(111, 128)),
        Piece::Hole("{server}"@),
        Piece::Plain(MESSAGE_HISTORY@.subrange(136, 143)),
        Piece::Hole("{server_id}"@),
        Piece::Plain(MESSAGE_HISTORY@.subrange(154, 168)),
        Piece::Hole("{messages}"@),
        Piece::Plain(MESSAGE_HISTORY@.subrange(178, 331)),
    ]
}

/// The template `MESSAGE_HISTORY` after 4 of its placeholders are filled in.
spec fn guild_stage4(time: Seq<char>, channel: Seq<char>, channel_id: Seq<char>, server: Seq<char>, server_id: Seq<char>, messages: Seq<char>) -> Seq<Piece> {
    seq![
        Piece::Plain(MESSAGE_HISTORY@.subrange(0, 29)),
        Piece::Plain(time),
        Piece::Plain(MESSAGE_HISTORY@.subrange(35, 83)),
        Piece::Plain(channel),
        Piece::Plain(MESSAGE_HISTORY@.subrange(92, 99)),
        Piece::Plain(channel_id),
        Piece::Plain(MESSAGE_HISTORY@.subrange(111, 128)),
        Piece::Plain(server),
        Piece::Plain(MESSAGE_HISTORY@.subrange(136, 143)),
        Piece::Hole("{server_id}"@),
        Piece::Plain(MESSAGE_HISTORY@.subrange(154, 168)),
        Piece::Hole("{messages}"@),
        Piece::Plain(MESSAGE_HISTORY@.subrange(178, 331)),
    ]
}

/// The template `MESSAGE_HISTORY` after 5 of its placeholders are filled in.
spec fn guild_stage5(time: Seq<char>, channel: Seq<char>, channel_id: Seq<char>, server: Seq<char>, server_id: Seq<char>, messages: Seq<char>) -> Seq<Piece> {
    seq![
        Piece::Plain(MESSAGE_HISTORY@.subrange(0, 29)),
        Piece::Plain(time),
        Piece::Plain(MESSAGE_HISTORY@.subrange(35, 83)),
        Piece::Plain(channel),
        Piece::Plain(MESSAGE_HISTORY@.subrange(92, 99)),
        Piece::Plain(channel_id),
        Piece::Plain(MESSAGE_HISTORY@.subrange(111, 128)),
        Piece::Plain(server),
        Piece::Plain(MESSAGE_HISTORY@.subrange(136, 143)),
        Piece::Plain(server_id),
        Piece::Plain(MESSAGE_HISTORY@.subrange(154, 168)),
        Piece::Hole("{messages}"@),
        Piece::Plain(MESSAGE_HISTORY@.subrange(178, 331)),
    ]
}

/// The template `MESSAGE_HISTORY` after 6 of its placeholders are filled in.
spec fn guild_stage6(time: Seq<char>, channel: Seq<char>, channel_id: Seq<char>, server: Seq<char>, server_id: Seq<char>, messages: Seq<char>) -> Seq<Piece> {
    seq![
        Piece::Plain(MESSAGE_HISTORY@.subrange(0, 29)),
        Piece::Plain(time),
        Piece::Plain(MESSAGE_HISTORY@.subrange(35, 83)),
        Piece::Plain(channel),
        Piece::Plain(MESSAGE_HISTORY@.subrange(92, 99)),
        Piece::Plain(channel_id),
        Piece::Plain(MESSAGE_HISTORY@.subrange(111, 128)),
        Piece::Plain(server),
        Piece::Plain(MESSAGE_HISTORY@.subrange(136, 143)),
        Piece::Plain(server_id),
        Piece::Plain(MESSAGE_HISTORY@.subrange(154, 168)),
        Piece::Plain(messages),
        Piece::Plain(MESSAGE_HISTORY@.subrange(178, 331)),
    ]
}

proof fn lemma_guild_layout()
    ensures
        "{time}"@ != "{channel}"@,
        "{time}"@ != "{channel_id}"@,
        "{time}"@ != "{server}"@,
        "{time}"@ != "{server_id}"@,
        "{time}"@ != "{messages}"@,
        "{channel}"@ != "{time}"@,
        "{channel}"@ != "{channel_id}"@,
        "{channel}"@ != "{server}"@,
        "{channel}"@ != "{server_id}"@,
        "{channel}"@ != "{messages}"@,
        "{channel_id}"@ != "{time}"@,
        "{channel_id}"@ != "{channel}"@,
        "{channel_id}"@ != "{server}"@,
        "{channel_id}"@ != "{server_id}"@,
        "{channel_id}"@ != "{messages}"@,
        "{server}"@ != "{time}"@,
        "{server}"@ != "{channel}"@,
        "{server}"@ != "{channel_id}"@,
        "{server}"@ != "{server_id}"@,
        "{server}"@ != "{messages}"@,
        "{server_id}"@ != "{time}"@,
        "{server_id}"@ != "{channel}"@,
        "{server_id}"@ != "{channel_id}"@,
        "{server_id}"@ != "{server}"@,
        "{server_id}"@ != "{messages}"@,
        "{messages}"@ != "{time}"@,
        "{messages}"@ != "{channel}"@,
        "{messages}"@ != "{channel_id}"@,
        "{messages}"@ != "{server}"@,
        "{messages}"@ != "{server_id}"@,
        MESSAGE_HISTORY@.len() == 331,
        pieces_text(guild_stage0(Seq::<char>::empty(), Seq::<char>::empty(), Seq::<char>::empty(), Seq::<char>::empty(), Seq::<char>::empty(), Seq::<char>::empty())) == MESSAGE_HISTORY@,
        is_placeholder("{time}"@),
        is_placeholder("{channel}"@),
        is_placeholder("{channel_id}"@),
        is_placeholder("{server}"@),
        is_placeholder("{server_id}"@),
        is_placeholder("{messages}"@),
        placeholders_differ("{time}"@, "{channel}"@),
        placeholders_differ("{time}"@, "{channel_id}"@),
        placeholders_differ("{time}"@, "{server}"@),
        placeholders_differ("{time}"@, "{server_id}"@),
        placeholders_differ("{time}"@, "{messages}"@),
        placeholders_differ("{channel}"@, "{time}"@),
        placeholders_differ("{channel}"@, "{channel_id}"@),
        placeholders_differ("{channel}"@, "{server}"@),
        placeholders_differ("{channel}"@, "{server_id}"@),
        placeholders_differ("{channel}"@, "{messages}"@),
        placeholders_differ("{channel_id}"@, "{time}"@),
        placeholders_differ("{channel_id}"@, "{channel}"@),
        placeholders_differ("{channel_id}"@, "{server}"@),
        placeholders_differ("{channel_id}"@, "{server_id}"@),
        placeholders_differ("{channel_id}"@, "{messages}"@),
        placeholders_differ("{server}"@, "{time}"@),
        placeholders_differ("{server}"@, "{channel}"@),
        placeholders_differ("{server}"@, "{channel_id}"@),
        placeholders_differ("{server}"@, "{server_id}"@),
        placeholders_differ("{server}"@, "{messages}"@),
        placeholders_differ("{server_id}"@, "{time}"@),
        placeholders_differ("{server_id}"@, "{channel}"@),
        placeholders_differ("{server_id}"@, "{channel_id}"@),
        placeholders_differ("{server_id}"@, "{server}"@),
        placeholders_differ("{server_id}"@, "{messages}"@),
        placeholders_differ("{messages}"@, "{time}"@),
        placeholders_differ("{messages}"@, "{channel}"@),
        placeholders_differ("{messages}"@, "{channel_id}"@),
        placeholders_differ("{messages}"@, "{server}"@),
        placeholders_differ("{messages}"@, "{server_id}"@),
        forall|time: Seq<char>, channel: Seq<char>, channel_id: Seq<char>, server: Seq<char>, server_id: Seq<char>, messages: Seq<char>| pieces_wf(#[trigger] guild_stage0(time, channel, channel_id, server, server_id, messages)),
{
    reveal_strlit("The current time and date is {time}. Here are the \
last 20 messages in the channel “{channel}” (ID: {channel_id}) of the server \
“{server}” (ID: {server_id}):

<messages>{messages}</messages>

This chat can only be seen by you and the operator. If you wish to say \
something, use the send tool so that the humans can see your message.");
    reveal_strlit("{time}");
    reveal_strlit("{channel}");
    reveal_strlit("{channel_id}");
    reveal_strlit("{server}");
    reveal_strlit("{server_id}");
    reveal_strlit("{messages}");
    assert(MESSAGE_HISTORY@.subrange(29, 35) =~= "{time}"@);
    assert(MESSAGE_HISTORY@.subrange(83, 92) =~= "{channel}"@);
    assert(MESSAGE_HISTORY@.subrange(99, 111) =~= "{channel_id}"@);
    assert(MESSAGE_HISTORY@.subrange(128, 136) =~= "{server}"@);
    assert(MESSAGE_HISTORY@.subrange(143, 154) =~= "{server_id}"@);
    assert(MESSAGE_HISTORY@.subrange(168, 178) =~= "{messages}"@);
    assert("{time}"@.drop_first() =~= seq!['t', 'i', 'm', 'e', '}']);
    assert("{channel}"@.drop_first() =~= seq!['c', 'h', 'a', 'n', 'n', 'e', 'l', '}']);
    assert("{channel_id}"@.drop_first() =~= seq!['c', 'h', 'a', 'n', 'n', 'e', 'l', '_', 'i', 'd', '}']);
    assert("{server}"@.drop_first() =~= seq!['s', 'e', 'r', 'v', 'e', 'r', '}']);
    assert("{server_id}"@.drop_first() =~= seq!['s', 'e', 'r', 'v', 'e', 'r', '_', 'i', 'd', '}']);
    assert("{messages}"@.drop_first() =~= seq!['m', 'e', 's', 's', 'a', 'g', 'e', 's', '}']);
    assert(forall|k: int| 0 <= k < 29 ==> MESSAGE_HISTORY@[k] != '{');
    assert(forall|k: int| 35 <= k < 83 ==> MESSAGE_HISTORY@[k] != '{');
    assert(forall|k: int| 92 <= k < 99 ==> MESSAGE_HISTORY@[k] != '{');
    assert(forall|k: int| 111 <= k < 128 ==> MESSAGE_HISTORY@[k] != '{');
    assert(forall|k: int| 136 <= k < 143 ==> MESSAGE_HISTORY@[k] != '{');
    assert(forall|k: int| 154 <= k < 168 ==> MESSAGE_HISTORY@[k] != '{');
    assert(forall|k: int| 178 <= k < 331 ==> MESSAGE_HISTORY@[k] != '{');
    assert("{time}"@[1] != "{channel}"@[1]);
    assert("{time}"@[1] != "{channel_id}"@[1]);
    assert("{time}"@[1] != "{server}"@[1]);
    assert("{time}"@[1] != "{server_id}"@[1]);
    assert("{time}"@[1] != "{messages}"@[1]);
    assert("{channel}"@[1] != "{time}"@[1]);
    assert("{channel}"@[8] != "{channel_id}"@[8]);
    assert("{channel}"@[1] != "{server}"@[1]);
    assert("{channel}"@[1] != "{server_id}"@[1]);
    assert("{channel}"@[1] != "{messages}"@[1]);
    assert("{channel_id}"@[1] != "{time}"@[1]);
    assert("{channel_id}"@[8] != "{channel}"@[8]);
    assert("{channel_id}"@[1] != "{server}"@[1]);
    assert("{channel_id}"@[1] != "{server_id}"@[1]);
    assert("{channel_id}"@[1] != "{messages}"@[1]);
    assert("{server}"@[1] != "{time}"@[1]);
    assert("{server}"@[1] != "{channel}"@[1]);
    assert("{server}"@[1] != "{channel_id}"@[1]);
    assert("{server}"@[7] != "{server_id}"@[7]);
    assert("{server}"@[1] != "{messages}"@[1]);
    assert("{server_id}"@[1] != "{time}"@[1]);
    assert("{server_id}"@[1] != "{channel}"@[1]);
    assert("{server_id}"@[1] != "{channel_id}"@[1]);
    assert("{server_id}"@[7] != "{server}"@[7]);
    assert("{server_id}"@[1] != "{messages}"@[1]);
    assert("{messages}"@[1] != "{time}"@[1]);
    assert("{messages}"@[1] != "{channel}"@[1]);
    assert("{messages}"@[1] != "{channel_id}"@[1]);
    assert("{messages}"@[1] != "{server}"@[1]);
    assert("{messages}"@[1] != "{server_id}"@[1]);
    let ps = guild_stage0(Seq::<char>::empty(), Seq::<char>::empty(), Seq::<char>::empty(), Seq::<char>::empty(), Seq::<char>::empty(), Seq::<char>::empty());
    reveal_with_fuel(pieces_text, 14);
    assert(pieces_text(ps) =~= MESSAGE_HISTORY@);
    assert forall|time: Seq<char>, channel: Seq<char>, channel_id: Seq<char>, server: Seq<char>, server_id: Seq<char>, messages: Seq<char>| pieces_wf(#[trigger] guild_stage0(time, channel, channel_id, server, server_id, messages)) by {
        let ps = guild_stage0(time, channel, channel_id, server, server_id, messages);
        assert forall|i: int| 0 <= i < ps.len() implies match #[trigger] ps[i] {
            Piece::Plain(c) => brace_free(c),
            Piece::Hole(q) => is_placeholder(q),
        } by {}
    }
}

proof fn lemma_guild_step0(time: Seq<char>, channel: Seq<char>, channel_id: Seq<char>, server: Seq<char>, server_id: Seq<char>, messages: Seq<char>)
    requires
        pieces_wf(guild_stage0(time, channel, channel_id, server, server_id, messages)),
        brace_free(time),
    ensures
        replaced(pieces_text(guild_stage0(time, channel, channel_id, server, server_id, messages)), "{time}"@, time) == pieces_text(guild_stage1(time, channel, channel_id, server, server_id, messages)),
        pieces_wf(guild_stage1(time, channel, channel_id, server, server_id, messages)),
{
    lemma_guild_layout();
    assert(holes_apart_from(guild_stage0(time, channel, channel_id, server, server_id, messages), "{time}"@));
    lemma_replace_fills(guild_stage0(time, channel, channel_id, server, server_id, messages), "{time}"@, time);
    assert(fill(guild_stage0(time, channel, channel_id, server, server_id, messages), "{time}"@, time) =~= guild_stage1(time, channel, channel_id, server, server_id, messages));
}

proof fn lemma_guild_step1(time: Seq<char>, channel: Seq<char>, channel_id: Seq<char>, server: Seq<char>, server_id: Seq<char>, messages: Seq<char>)
    requires
        pieces_wf(guild_stage1(time, channel, channel_id, server, server_id, messages)),
        brace_free(channel),
    ensures
        replaced(pieces_text(guild_stage1(time, channel, channel_id, server, server_id, messages)), "{channel}"@, channel) == pieces_text(guild_stage2(time, channel, channel_id, server, server_id, messages)),
        pieces_wf(guild_stage2(time, channel, channel_id, server, server_id, messages)),
{
    lemma_guild_layout();
    assert(holes_apart_from(guild_stage1(time, channel, channel_id, server, server_id, messages), "{channel}"@));
    lemma_replace_fills(guild_stage1(time, channel, channel_id, server, server_id, messages), "{channel}"@, channel);
    assert(fill(guild_stage1(time, channel, channel_id, server, server_id, messages), "{channel}"@, channel) =~= guild_stage2(time, channel, channel_id, server, server_id, messages));
}

proof fn lemma_guild_step2(time: Seq<char>, channel: Seq<char>, channel_id: Seq<char>, server: Seq<char>, server_id: Seq<char>, messages: Seq<char>)
    requires
        pieces_wf(guild_stage2(time, channel, channel_id, server, server_id, messages)),
        brace_free(channel_id),
    ensures
        replaced(pieces_text(guild_stage2(time, channel, channel_id, server, server_id, messages)), "{channel_id}"@, channel_id) == pieces_text(guild_stage3(time, channel, channel_id, server, server_id, messages)),
        pieces_wf(guild_stage3(time, channel, channel_id, server, server_id, messages)),
{
    lemma_guild_layout();
    assert(holes_apart_from(guild_stage2(time, channel, channel_id, server, server_id, messages), "{channel_id}"@));
    lemma_replace_fills(guild_stage2(time, channel, channel_id, server, server_id, messages), "{channel_id}"@, channel_id);
    assert(fill(guild_stage2(time, channel, channel_id, server, server_id, messages), "{channel_id}"@, channel_id) =~= guild_stage3(time, channel, channel_id, server, server_id, messages));
}

proof fn lemma_guild_step3(time: Seq<char>, channel: Seq<char>, channel_id: Seq<char>, server: Seq<char>, server_id: Seq<char>, messages: Seq<char>)
    requires
        pieces_wf(guild_stage3(time, channel, channel_id, server, server_id, messages)),
        brace_free(server),
    ensures
        replaced(pieces_text(guild_stage3(time, channel, channel_id, server, server_id, messages)), "{server}"@, server) == pieces_text(guild_stage4(time, channel, channel_id, server, server_id, messages)),
        pieces_wf(guild_stage4(time, channel, channel_id, server, server_id, messages)),
{
    lemma_guild_layout();
    assert(holes_apart_from(guild_stage3(time, channel, channel_id, server, server_id, messages), "{server}"@));
    lemma_replace_fills(guild_stage3(time, channel, channel_id, server, server_id, messages), "{server}"@, server);
    assert(fill(guild_stage3(time, channel, channel_id, server, server_id, messages), "{server}"@, server) =~= guild_stage4(time, channel, channel_id, server, server_id, messages));
}

proof fn lemma_guild_step4(time: Seq<char>, channel: Seq<char>, channel_id: Seq<char>, server: Seq<char>, server_id: Seq<char>, messages: Seq<char>)
    requires
        pieces_wf(guild_stage4(time, channel, channel_id, server, server_id, messages)),
        brace_free(server_id),
    ensures
        replaced(pieces_text(guild_stage4(time, channel, channel_id, server, server_id, messages)), "{server_id}"@, server_id) == pieces_text(guild_stage5(time, channel, channel_id, server, server_id, messages)),
        pieces_wf(guild_stage5(time, channel, channel_id, server, server_id, messages)),
{
    lemma_guild_layout();
    assert(holes_apart_from(guild_stage4(time, channel, channel_id, server, server_id, messages), "{server_id}"@));
    lemma_replace_fills(guild_stage4(time, channel, channel_id, server, server_id, messages), "{server_id}"@, server_id);
    assert(fill(guild_stage4(time, channel, channel_id, server, server_id, messages), "{server_id}"@, server_id) =~= guild_stage5(time, channel, channel_id, server, server_id, messages));
}

proof fn lemma_guild_step5(time: Seq<char>, channel: Seq<char>, channel_id: Seq<char>, server: Seq<char>, server_id: Seq<char>, messages: Seq<char>)
    requires
        pieces_wf(guild_stage5(time, channel, channel_id, server, server_id, messages)),
    ensures
        replaced(pieces_text(guild_stage5(time, channel, channel_id, server, server_id, messages)), "{messages}"@, messages) == pieces_text(guild_stage6(time, channel, channel_id, server, server_id, messages)),
{
    lemma_guild_layout();
    assert(holes_apart_from(guild_stage5(time, channel, channel_id, server, server_id, messages), "{messages}"@));
    lemma_replace_fills(guild_stage5(time, channel, channel_id, server, server_id, messages), "{messages}"@, messages);
    assert(fill(guild_stage5(time, channel, channel_id, server, server_id, messages), "{messages}"@, messages) =~= guild_stage6(time, channel, channel_id, server, server_id, messages));
}

/// The template `MESSAGE_HISTORY` filled in, as text: its plain stretches with the
/// replacements standing where their placeholders were, where no replacement but the last
/// holds a `{`.
proof fn lemma_guild_shape(time: Seq<char>, channel: Seq<char>, channel_id: Seq<char>, server: Seq<char>, server_id: Seq<char>, messages: Seq<char>)
    requires
        brace_free(time),
        brace_free(channel),
        brace_free(channel_id),
        brace_free(server),
        brace_free(server_id),
    ensures
        replaced(replaced(replaced(replaced(replaced(replaced(MESSAGE_HISTORY@, "{time}"@, time), "{channel}"@, channel), "{channel_id}"@, channel_id), "{server}"@, server), "{server_id}"@, server_id), "{messages}"@, messages) == MESSAGE_HISTORY@.subrange(0, 29) + time + MESSAGE_HISTORY@.subrange(35, 83) + channel + MESSAGE_HISTORY@.subrange(92, 99) + channel_id + MESSAGE_HISTORY@.subrange(111, 128) + server + MESSAGE_HISTORY@.subrange(136, 143) + server_id + MESSAGE_HISTORY@.subrange(154, 168) + messages + MESSAGE_HISTORY@.subrange(178, 331),
{
    lemma_guild_layout();
    assert(guild_stage0(time, channel, channel_id, server, server_id, messages) =~= guild_stage0(Seq::<char>::empty(), Seq::<char>::empty(), Seq::<char>::empty(), Seq::<char>::empty(), Seq::<char>::empty(), Seq::<char>::empty()));
    lemma_guild_step0(time, channel, channel_id, server, server_id, messages);
    lemma_guild_step1(time, channel, channel_id, server, server_id, messages);
    lemma_guild_step2(time, channel, channel_id, server, server_id, messages);
    lemma_guild_step3(time, channel, channel_id, server, server_id, messages);
    lemma_guild_step4(time, channel, channel_id, server, server_id, messages);
    lemma_guild_step5(time, channel, channel_id, server, server_id, messages);
    lemma_guild_final_text(time, channel, channel_id, server, server_id, messages);
}

/// The template `MESSAGE_HISTORY_DM` after 0 of its placeholders are filled in.
spec fn dm_stage0(time: Seq<char>, user: Seq<char>, user_id: Seq<char>, channel_id: Seq<char>, messages: Seq<char>) -> Seq<Piece> {
    seq![
        Piece::Plain(MESSAGE_HISTORY_DM@.subrange(0, 29)),
        Piece::Hole("{time}"@),
        Piece::Plain(MESSAGE_HISTORY_DM@.subrange(35, 85)),
        Piece::Hole("{user}"@),
        Piece::Plain(MESSAGE_HISTORY_DM@.subrange(91, 103)),
        Piece::Hole("{user_id}"@),
        Piece::Plain(MESSAGE_HISTORY_DM@.subrange(112, 133)),
        Piece::Hole("{channel_id}"@),
        Piece::Plain(MESSAGE_HISTORY_DM@.subrange(145, 158)),
        Piece::Hole("{messages}"@),
        Piece::Plain(MESSAGE_HISTORY_DM@.subrange(168, 319)),
    ]
}

/// The template `MESSAGE_HISTORY_DM` after 1 of its placeholders are filled in.
spec fn dm_stage1(time: Seq<char>, user: Seq<char>, user_id: Seq<char>, channel_id: Seq<char>, messages: Seq<char>) -> Seq<Piece> {
    seq![
        Piece::Plain(MESSAGE_HISTORY_DM@.subrange(0, 29)),
        Piece::Plain(time),
        Piece::Plain(MESSAGE_HISTORY_DM@.subrange(35, 85)),
        Piece::Hole("{user}"@),
        Piece::Plain(MESSAGE_HISTORY_DM@.subrange(91, 103)),
        Piece::Hole("{user_id}"@),
        Piece::Plain(MESSAGE_HISTORY_DM@.subrange(112, 133)),
        Piece::Hole("{channel_id}"@),
        Piece::Plain(MESSAGE_HISTORY_DM@.subrange(145, 158)),
        Piece::Hole("{messages}"@),
        Piece::Plain(MESSAGE_HISTORY_DM@.subrange(168, 319)),
    ]
}

/// The template `MESSAGE_HISTORY_DM` after 2 of its placeholders are filled in.
spec fn dm_stage2(time: Seq<char>, user: Seq<char>, user_id: Seq<char>, channel_id: Seq<char>, messages: Seq<char>) -> Seq<Piece> {
    seq![
        Piece::Plain(MESSAGE_HISTORY_DM@.subrange(0, 29)),
        Piece::Plain(time),
        Piece::Plain(MESSAGE_HISTORY_DM@.subrange(35, 85)),
        Piece::Plain(user),
        Piece::Plain(MESSAGE_HISTORY_DM@.subrange(91, 103)),
        Piece::Hole("{user_id}"@),
        Piece::Plain(MESSAGE_HISTORY_DM@.subrange(112, 133)),
        Piece::Hole("{channel_id}"@),
        Piece::Plain(MESSAGE_HISTORY_DM@.subrange(145, 158)),
        Piece::Hole("{messages}"@),
        Piece::Plain(MESSAGE_HISTORY_DM@.subrange(168, 319)),
    ]
}

/// The template `MESSAGE_HISTORY_DM` after 3 of its placeholders are filled in.
spec fn dm_stage3(time: Seq<char>, user: Seq<char>, user_id: Seq<char>, channel_id: Seq<char>, messages: Seq<char>) -> Seq<Piece> {
    seq![
        Piece::Plain(MESSAGE_HISTORY_DM@.subrange(0, 29)),
        Piece::Plain(time),
        Piece::Plain(MESSAGE_HISTORY_DM@.subrange(35, 85)),
        Piece::Plain(user),
        Piece::Plain(MESSAGE_HISTORY_DM@.subrange(91, 103)),
        Piece::Plain(user_id),
        Piece::Plain(MESSAGE_HISTORY_DM@.subrange(112, 133)),
        Piece::Hole("{channel_id}"@),
        Piece::Plain(MESSAGE_HISTORY_DM@.subrange(145, 158)),
        Piece::Hole("{messages}"@),
        Piece::Plain(MESSAGE_HISTORY_DM@.subrange(168, 319)),
    ]
}

/// The template `MESSAGE_HISTORY_DM` after 4 of its placeholders are filled in.
spec fn dm_stage4(time: Seq<char>, user: Seq<char>, user_id: Seq<char>, channel_id: Seq<char>, messages: Seq<char>) -> Seq<Piece> {
    seq![
        Piece::Plain(MESSAGE_HISTORY_DM@.subrange(0, 29)),
        Piece::Plain(time),
        Piece::Plain(MESSAGE_HISTORY_DM@.subrange(35, 85)),
        Piece::Plain(user),
        Piece::Plain(MESSAGE_HISTORY_DM@.subrange(91, 103)),
        Piece::Plain(user_id),
        Piece::Plain(MESSAGE_HISTORY_DM@.subrange(112, 133)),
        Piece::Plain(channel_id),
        Piece::Plain(MESSAGE_HISTORY_DM@.subrange(145, 158)),
        Piece::Hole("{messages}"@),
        Piece::Plain(MESSAGE_HISTORY_DM@.subrange(168, 319)),
    ]
}

/// The template `MESSAGE_HISTORY_DM` after 5 of its placeholders are filled in.
spec fn dm_stage5(time: Seq<char>, user: Seq<char>, user_id: Seq<char>, channel_id: Seq<char>, messages: Seq<char>) -> Seq<Piece> {
    seq![
        Piece::Plain(MESSAGE_HISTORY_DM@.subrange(0, 29)),
        Piece::Plain(time),
        Piece::Plain(MESSAGE_HISTORY_DM@.subrange(35, 85)),
        Piece::Plain(user),
        Piece::Plain(MESSAGE_HISTORY_DM@.subrange(91, 103)),
        Piece::Plain(user_id),
        Piece::Plain(MESSAGE_HISTORY_DM@.subrange(112, 133)),
        Piece::Plain(channel_id),
        Piece::Plain(MESSAGE_HISTORY_DM@.subrange(145, 158)),
        Piece::Plain(messages),
        Piece::Plain(MESSAGE_HISTORY_DM@.subrange(168, 319)),
    ]
}

proof fn lemma_dm_layout()
    ensures
        "{time}"@ != "{user}"@,
        "{time}"@ != "{user_id}"@,
        "{time}"@ != "{channel_id}"@,
        "{time}"@ != "{messages}"@,
        "{user}"@ != "{time}"@,
        "{user}"@ != "{user_id}"@,
        "{user}"@ != "{channel_id}"@,
        "{user}"@ != "{messages}"@,
        "{user_id}"@ != "{time}"@,
        "{user_id}"@ != "{user}"@,
        "{user_id}"@ != "{channel_id}"@,
        "{user_id}"@ != "{messages}"@,
        "{channel_id}"@ != "{time}"@,
        "{channel_id}"@ != "{user}"@,
        "{channel_id}"@ != "{user_id}"@,
        "{channel_id}"@ != "{messages}"@,
        "{messages}"@ != "{time}"@,
        "{messages}"@ != "{user}"@,
        "{messages}"@ != "{user_id}"@,
        "{messages}"@ != "{channel_id}"@,
        MESSAGE_HISTORY_DM@.len() == 319,
        pieces_text(dm_stage0(Seq::<char>::empty(), Seq::<char>::empty(), Seq::<char>::empty(), Seq::<char>::empty(), Seq::<char>::empty())) == MESSAGE_HISTORY_DM@,
        is_placeholder("{time}"@),
        is_placeholder("{user}"@),
        is_placeholder("{user_id}"@),
        is_placeholder("{channel_id}"@),
        is_placeholder("{messages}"@),
        placeholders_differ("{time}"@, "{user}"@),
        placeholders_differ("{time}"@, "{user_id}"@),
        placeholders_differ("{time}"@, "{channel_id}"@),
        placeholders_differ("{time}"@, "{messages}"@),
        placeholders_differ("{user}"@, "{time}"@),
        placeholders_differ("{user}"@, "{user_id}"@),
        placeholders_differ("{user}"@, "{channel_id}"@),
        placeholders_differ("{user}"@, "{messages}"@),
        placeholders_differ("{user_id}"@, "{time}"@),
        placeholders_differ("{user_id}"@, "{user}"@),
        placeholders_differ("{user_id}"@, "{channel_id}"@),
        placeholders_differ("{user_id}"@, "{messages}"@),
        placeholders_differ("{channel_id}"@, "{time}"@),
        placeholders_differ("{channel_id}"@, "{user}"@),
        placeholders_differ("{channel_id}"@, "{user_id}"@),
        placeholders_differ("{channel_id}"@, "{messages}"@),
        placeholders_differ("{messages}"@, "{time}"@),
        placeholders_differ("{messages}"@, "{user}"@),
        placeholders_differ("{messages}"@, "{user_id}"@),
        placeholders_differ("{messages}"@, "{channel_id}"@),
        forall|time: Seq<char>, user: Seq<char>, user_id: Seq<char>, channel_id: Seq<char>, messages: Seq<char>| pieces_wf(#[trigger] dm_stage0(time, user, user_id, channel_id, messages)),
{
    reveal_strlit("The current time and date is {time}. Here \
are the last 20 messages in your DMs with “{user}” (user ID: {user_id}). The \
channel ID is {channel_id}:

<messages>{messages}<messages>

This chat can only be seen by you and the operator. If you wish to say \
something, use the send tool so that the human can see your message.");
    reveal_strlit("{time}");
    reveal_strlit("{user}");
    reveal_strlit("{user_id}");
    reveal_strlit("{channel_id}");
    reveal_strlit("{messages}");
    assert(MESSAGE_HISTORY_DM@.subrange(29, 35) =~= "{time}"@);
    assert(MESSAGE_HISTORY_DM@.subrange(85, 91) =~= "{user}"@);
    assert(MESSAGE_HISTORY_DM@.subrange(103, 112) =~= "{user_id}"@);
    assert(MESSAGE_HISTORY_DM@.subrange(133, 145) =~= "{channel_id}"@);
    assert(MESSAGE_HISTORY_DM@.subrange(158, 168) =~= "{messages}"@);
    assert("{time}"@.drop_first() =~= seq!['t', 'i', 'm', 'e', '}']);
    assert("{user}"@.drop_first() =~= seq!['u', 's', 'e', 'r', '}']);
    assert("{user_id}"@.drop_first() =~= seq!['u', 's', 'e', 'r', '_', 'i', 'd', '}']);
    assert("{channel_id}"@.drop_first() =~= seq!['c', 'h', 'a', 'n', 'n', 'e', 'l', '_', 'i', 'd', '}']);
    assert("{messages}"@.drop_first() =~= seq!['m', 'e', 's', 's', 'a', 'g', 'e', 's', '}']);
    assert(forall|k: int| 0 <= k < 29 ==> MESSAGE_HISTORY_DM@[k] != '{');
    assert(forall|k: int| 35 <= k < 85 ==> MESSAGE_HISTORY_DM@[k] != '{');
    assert(forall|k: int| 91 <= k < 103 ==> MESSAGE_HISTORY_DM@[k] != '{');
    assert(forall|k: int| 112 <= k < 133 ==> MESSAGE_HISTORY_DM@[k] != '{');
    assert(forall|k: int| 145 <= k < 158 ==> MESSAGE_HISTORY_DM@[k] != '{');
    assert(forall|k: int| 168 <= k < 319 ==> MESSAGE_HISTORY_DM@[k] != '{');
    assert("{time}"@[1] != "{user}"@[1]);
    assert("{time}"@[1] != "{user_id}"@[1]);
    assert("{time}"@[1] != "{channel_id}"@[1]);
    assert("{time}"@[1] != "{messages}"@[1]);
    assert("{user}"@[1] != "{time}"@[1]);
    assert("{user}"@[5] != "{user_id}"@[5]);
    assert("{user}"@[1] != "{channel_id}"@[1]);
    assert("{user}"@[1] != "{messages}"@[1]);
    assert("{user_id}"@[1] != "{time}"@[1]);
    assert("{user_id}"@[5] != "{user}"@[5]);
    assert("{user_id}"@[1] != "{channel_id}"@[1]);
    assert("{user_id}"@[1] != "{messages}"@[1]);
    assert("{channel_id}"@[1] != "{time}"@[1]);
    assert("{channel_id}"@[1] != "{user}"@[1]);
    assert("{channel_id}"@[1] != "{user_id}"@[1]);
    assert("{channel_id}"@[1] != "{messages}"@[1]);
    assert("{messages}"@[1] != "{time}"@[1]);
    assert("{messages}"@[1] != "{user}"@[1]);
    assert("{messages}"@[1] != "{user_id}"@[1]);
    assert("{messages}"@[1] != "{channel_id}"@[1]);
    let ps = dm_stage0(Seq::<char>::empty(), Seq::<char>::empty(), Seq::<char>::empty(), Seq::<char>::empty(), Seq::<char>::empty());
    reveal_with_fuel(pieces_text, 12);
    assert(pieces_text(ps) =~= MESSAGE_HISTORY_DM@);
    assert forall|time: Seq<char>, user: Seq<char>, user_id: Seq<char>, channel_id: Seq<char>, messages: Seq<char>| pieces_wf(#[trigger] dm_stage0(time, user, user_id, channel_id, messages)) by {
        let ps = dm_stage0(time, user, user_id, channel_id, messages);
        assert forall|i: int| 0 <= i < ps.len() implies match #[trigger] ps[i] {
            Piece::Plain(c) => brace_free(c),
            Piece::Hole(q) => is_placeholder(q),
        } by {}
    }
}

proof fn lemma_dm_step0(time: Seq<char>, user: Seq<char>, user_id: Seq<char>, channel_id: Seq<char>, messages: Seq<char>)
    requires
        pieces_wf(dm_stage0(time, user, user_id, channel_id, messages)),
        brace_free(time),
    ensures
        replaced(pieces_text(dm_stage0(time, user, user_id, channel_id, messages)), "{time}"@, time) == pieces_text(dm_stage1(time, user, user_id, channel_id, messages)),
        pieces_wf(dm_stage1(time, user, user_id, channel_id, messages)),
{
    lemma_dm_layout();
    assert(holes_apart_from(dm_stage0(time, user, user_id, channel_id, messages), "{time}"@));
    lemma_replace_fills(dm_stage0(time, user, user_id, channel_id, messages), "{time}"@, time);
    assert(fill(dm_stage0(time, user, user_id, channel_id, messages), "{time}"@, time) =~= dm_stage1(time, user, user_id, channel_id, messages));
}

proof fn lemma_dm_step1(time: Seq<char>, user: Seq<char>, user_id: Seq<char>, channel_id: Seq<char>, messages: Seq<char>)
    requires
        pieces_wf(dm_stage1(time, user, user_id, channel_id, messages)),
        brace_free(user),
    ensures
        replaced(pieces_text(dm_stage1(time, user, user_id, channel_id, messages)), "{user}"@, user) == pieces_text(dm_stage2(time, user, user_id, channel_id, messages)),
        pieces_wf(dm_stage2(time, user, user_id, channel_id, messages)),
{
    lemma_dm_layout();
    assert(holes_apart_from(dm_stage1(time, user, user_id, channel_id, messages), "{user}"@));
    lemma_replace_fills(dm_stage1(time, user, user_id, channel_id, messages), "{user}"@, user);
    assert(fill(dm_stage1(time, user, user_id, channel_id, messages), "{user}"@, user) =~= dm_stage2(time, user, user_id, channel_id, messages));
}

proof fn lemma_dm_step2(time: Seq<char>, user: Seq<char>, user_id: Seq<char>, channel_id: Seq<char>, messages: Seq<char>)
    requires
        pieces_wf(dm_stage2(time, user, user_id, channel_id, messages)),
        brace_free(user_id),
    ensures
        replaced(pieces_text(dm_stage2(time, user, user_id, channel_id, messages)), "{user_id}"@, user_id) == pieces_text(dm_stage3(time, user, user_id, channel_id, messages)),
        pieces_wf(dm_stage3(time, user, user_id, channel_id, messages)),
{
    lemma_dm_layout();
    assert(holes_apart_from(dm_stage2(time, user, user_id, channel_id, messages), "{user_id}"@));
    lemma_replace_fills(dm_stage2(time, user, user_id, channel_id, messages), "{user_id}"@, user_id);
    assert(fill(dm_stage2(time, user, user_id, channel_id, messages), "{user_id}"@, user_id) =~= dm_stage3(time, user, user_id, channel_id, messages));
}

proof fn lemma_dm_step3(time: Seq<char>, user: Seq<char>, user_id: Seq<char>, channel_id: Seq<char>, messages: Seq<char>)
    requires
        pieces_wf(dm_stage3(time, user, user_id, channel_id, messages)),
        brace_free(channel_id),
    ensures
        replaced(pieces_text(dm_stage3(time, user, user_id, channel_id, messages)), "{channel_id}"@, channel_id) == pieces_text(dm_stage4(time, user, user_id, channel_id, messages)),
        pieces_wf(dm_stage4(time, user, user_id, channel_id, messages)),
{
    lemma_dm_layout();
    assert(holes_apart_from(dm_stage3(time, user, user_id, channel_id, messages), "{channel_id}"@));
    lemma_replace_fills(dm_stage3(time, user, user_id, channel_id, messages), "{channel_id}"@, channel_id);
    assert(fill(dm_stage3(time, user, user_id, channel_id, messages), "{channel_id}"@, channel_id) =~= dm_stage4(time, user, user_id, channel_id, messages));
}

proof fn lemma_dm_step4(time: Seq<char>, user: Seq<char>, user_id: Seq<char>, channel_id: Seq<char>, messages: Seq<char>)
    requires
        pieces_wf(dm_stage4(time, user, user_id, channel_id, messages)),
    ensures
        replaced(pieces_text(dm_stage4(time, user, user_id, channel_id, messages)), "{messages}"@, messages) == pieces_text(dm_stage5(time, user, user_id, channel_id, messages)),
{
    lemma_dm_layout();
    assert(holes_apart_from(dm_stage4(time, user, user_id, channel_id, messages), "{messages}"@));
    lemma_replace_fills(dm_stage4(time, user, user_id, channel_id, messages), "{messages}"@, messages);
    assert(fill(dm_stage4(time, user, user_id, channel_id, messages), "{messages}"@, messages) =~= dm_stage5(time, user, user_id, channel_id, messages));
}

/// The template `MESSAGE_HISTORY_DM` filled in, as text: its plain stretches with the
/// replacements standing where their placeholders were, where no replacement but the last
/// holds a `{`.
proof fn lemma_dm_shape(time: Seq<char>, user: Seq<char>, user_id: Seq<char>, channel_id: Seq<char>, messages: Seq<char>)
    requires
        brace_free(time),
        brace_free(user),
        brace_free(user_id),
        brace_free(channel_id),
    ensures
        replaced(replaced(replaced(replaced(replaced(MESSAGE_HISTORY_DM@, "{time}"@, time), "{user}"@, user), "{user_id}"@, user_id), "{channel_id}"@, channel_id), "{messages}"@, messages) == MESSAGE_HISTORY_DM@.subrange(0, 29) + time + MESSAGE_HISTORY_DM@.subrange(35, 85) + user + MESSAGE_HISTORY_DM@.subrange(91, 103) + user_id + MESSAGE_HISTORY_DM@.subrange(112, 133) + channel_id + MESSAGE_HISTORY_DM@.subrange(145, 158) + messages + MESSAGE_HISTORY_DM@.subrange(168, 319),
{
    lemma_dm_layout();
    assert(dm_stage0(time, user, user_id, channel_id, messages) =~= dm_stage0(Seq::<char>::empty(), Seq::<char>::empty(), Seq::<char>::empty(), Seq::<char>::empty(), Seq::<char>::empty()));
    lemma_dm_step0(time, user, user_id, channel_id, messages);
    lemma_dm_step1(time, user, user_id, channel_id, messages);
    lemma_dm_step2(time, user, user_id, channel_id, messages);
    lemma_dm_step3(time, user, user_id, channel_id, messages);
    lemma_dm_step4(time, user, user_id, channel_id, messages);
    lemma_dm_final_text(time, user, user_id, channel_id, messages);
}


/// Law: the prompt of a server channel shows the full IDs of the channel and of the server
/// (each reads back as exactly that ID), with the time, the channel's name, the server's
/// name (or the marker where it is unknown) and the history lines in their places of the
/// template, as long as the time and the names hold no `{`.
pub proof fn lemma_guild_prompt_shows_ids(
    messages: Seq<ChatMessage>,
    name: String,
    id: u64,
    guild_id: u64,
    guild_name: Option<String>,
    now: int,
)
    requires
        brace_free(utc_datetime_text(now)),
        brace_free(name@),
        guild_name matches Some(n) ==> brace_free(n@),
    ensures
        exists|id_text: Seq<char>, server_id_text: Seq<char>|
            #![trigger parsed_u64(id_text), parsed_u64(server_id_text)]
            message_prompt(messages, ChannelInfo::Guild { name, id, guild_id, guild_name }, now)
                == Ok::<Seq<char>, PromptError>(MESSAGE_HISTORY@.subrange(0, 29) + utc_datetime_text(
                now,
            ) + MESSAGE_HISTORY@.subrange(35, 83) + name@ + MESSAGE_HISTORY@.subrange(92, 99)
                + id_text + MESSAGE_HISTORY@.subrange(111, 128) + (match guild_name {
                Some(n) => n@,
                None => UNKNOWN_GUILD_NAME@,
            }) + MESSAGE_HISTORY@.subrange(136, 143) + server_id_text + MESSAGE_HISTORY@.subrange(
                154,
                168,
            ) + message_lines(messages) + MESSAGE_HISTORY@.subrange(178, 331))
                && parsed_u64(id_text) == Some(id) && parsed_u64(server_id_text) == Some(guild_id),
{
    reveal_strlit("[failed to get guild name]}");
    let server = match guild_name {
        Some(n) => n@,
        None => UNKNOWN_GUILD_NAME@,
    };
    assert(brace_free(server));
    let cid = decimal_text(id as nat);
    let sid = decimal_text(guild_id as nat);
    lemma_decimal_text_brace_free(id as nat);
    lemma_decimal_text_brace_free(guild_id as nat);
    lemma_parse_decimal_roundtrip(id);
    lemma_parse_decimal_roundtrip(guild_id);
    lemma_guild_shape(utc_datetime_text(now), name@, cid, server, sid, message_lines(messages));
    assert(parsed_u64(cid) == Some(id) && parsed_u64(sid) == Some(guild_id));
}

/// Law: the prompt of a direct-message channel shows the full IDs of the person and of the
/// channel (each reads back as exactly that ID), with the time, the person's name and the
/// history lines in their places of the template, as long as the time and the name hold
/// no `{`.
pub proof fn lemma_dm_prompt_shows_ids(
    messages: Seq<ChatMessage>,
    recipient_name: String,
    recipient_id: u64,
    id: u64,
    now: int,
)
    requires
        brace_free(utc_datetime_text(now)),
        brace_free(recipient_name@),
    ensures
        exists|user_id_text: Seq<char>, id_text: Seq<char>|
            #![trigger parsed_u64(user_id_text), parsed_u64(id_text)]
            message_prompt(messages, ChannelInfo::Private { recipient_name, recipient_id, id }, now)
                == Ok::<Seq<char>, PromptError>(MESSAGE_HISTORY_DM@.subrange(0, 29)
                + utc_datetime_text(now) + MESSAGE_HISTORY_DM@.subrange(35, 85) + recipient_name@
                + MESSAGE_HISTORY_DM@.subrange(91, 103) + user_id_text + MESSAGE_HISTORY_DM@.subrange(
                112,
                133,
            ) + id_text + MESSAGE_HISTORY_DM@.subrange(145, 158) + message_lines(messages)
                + MESSAGE_HISTORY_DM@.subrange(168, 319)) && parsed_u64(user_id_text) == Some(
                recipient_id,
            ) && parsed_u64(id_text) == Some(id),
{
    let uid = decimal_text(recipient_id as nat);
    let cid = decimal_text(id as nat);
    lemma_decimal_text_brace_free(recipient_id as nat);
    lemma_decimal_text_brace_free(id as nat);
    lemma_parse_decimal_roundtrip(recipient_id);
    lemma_parse_decimal_roundtrip(id);
    lemma_dm_shape(utc_datetime_text(now), recipient_name@, uid, cid, message_lines(messages));
    assert(parsed_u64(uid) == Some(recipient_id) && parsed_u64(cid) == Some(id));
}

/// The prompt that shows the model the recent history of a channel, read at time `now`.
pub fn get_message_prompt(messages: &Vec<ChatMessage>, channel: &ChannelInfo, now: &MessageTime) -> (r:
    Result<String, PromptError>)
    ensures
        match (r, message_prompt(messages@, *channel, now.spec_millis())) {
            (Ok(s), Ok(t)) => s@ == t,
            (Err(e), Err(f)) => e == f,
            _ => false,
        },
{
    let lines = message_history_text(messages);
    let time = now.text();
    match channel {
        ChannelInfo::Guild { name, id, guild_id, guild_name } => {
            let server = match guild_name {
                Some(n) => n.clone(),
                None => UNKNOWN_GUILD_NAME.to_owned(),
            };
            let channel_id = u64_to_decimal(*id);
            let server_id = u64_to_decimal(*guild_id);
            let a = replace_all(MESSAGE_HISTORY, "{time}", time.as_str());
            let b = replace_all(a.as_str(), "{channel}", name.as_str());
            let c = replace_all(b.as_str(), "{channel_id}", channel_id.as_str());
            let d = replace_all(c.as_str(), "{server}", server.as_str());
            let e = replace_all(d.as_str(), "{server_id}", server_id.as_str());
            Ok(replace_all(e.as_str(), "{messages}", lines.as_str()))
        },
        ChannelInfo::Private { recipient_name, recipient_id, id } => {
            let user_id = u64_to_decimal(*recipient_id);
            let channel_id = u64_to_decimal(*id);
            let a = replace_all(MESSAGE_HISTORY_DM, "{time}", time.as_str());
            let b = replace_all(a.as_str(), "{user}", recipient_name.as_str());
            let c = replace_all(b.as_str(), "{user_id}", user_id.as_str());
            let d = replace_all(c.as_str(), "{channel_id}", channel_id.as_str());
            Ok(replace_all(d.as_str(), "{messages}", lines.as_str()))
        },
        ChannelInfo::Other => Err(PromptError::UnexpectedChannelType),
    }
}

} // verus!
