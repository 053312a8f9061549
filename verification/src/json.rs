//! JSON documents, read and written through serde_json.

use vstd::prelude::*;

verus! {

#[verifier::external_type_specification]
#[verifier::external_body]
pub struct ExJsonValue(serde_json::Value);

/// Whether serde_json accepts `text` as one JSON value.
pub uninterp spec fn json_parses(text: Seq<char>) -> bool;

/// The message (`Display`) of the error that serde_json reports for `text`.
pub uninterp spec fn json_parse_error(text: Seq<char>) -> Seq<char>;

/// The member `key` of the JSON value written in `text`, where that value is an object and
/// the member is a string; `None` otherwise (serde_json's `value[key].as_str()`).
pub uninterp spec fn json_string_member(text: Seq<char>, key: Seq<char>) -> Option<Seq<char>>;

/// A lowercase hexadecimal digit.
pub open spec fn hex_digit(d: int) -> char {
    if d < 10 {
        (d + 48) as char
    } else {
        (d + 87) as char
    }
}

/// How serde_json writes one character inside a string literal: `"` and `\` behind a
/// backslash, the five control characters with short escapes as `\b \t \n \f \r`, the other
/// control characters below U+0020 as `\u00xx` with lowercase hex digits, and every other
/// character as itself.
pub open spec fn json_escaped_char(c: char) -> Seq<char> {
    if c == '"' {
        seq!['\\', '"']
    } else if c == '\\' {
        seq!['\\', '\\']
    } else if c == '\u{8}' {
        seq!['\\', 'b']
    } else if c == '\t' {
        seq!['\\', 't']
    } else if c == '\n' {
        seq!['\\', 'n']
    } else if c == '\u{c}' {
        seq!['\\', 'f']
    } else if c == '\r' {
        seq!['\\', 'r']
    } else if (c as int) < 32 {
        seq!['\\', 'u', '0', '0', hex_digit(c as int / 16), hex_digit(c as int % 16)]
    } else {
        seq![c]
    }
}

/// The escaped characters of `s`, in order.
pub open spec fn json_escaped(s: Seq<char>) -> Seq<char>
    decreases s.len(),
{
    if s.len() == 0 {
        Seq::empty()
    } else {
        json_escaped_char(s[0]) + json_escaped(s.drop_first())
    }
}

/// The JSON string literal that serde_json writes for `s`: the escaped characters between
/// double quotes.
pub open spec fn json_quoted(s: Seq<char>) -> Seq<char> {
    seq!['"'] + json_escaped(s) + seq!['"']
}

/// The value of a hexadecimal digit of either case, or -1 for any other character.
pub open spec fn hex_value(c: char) -> int {
    if '0' <= c && c <= '9' {
        c as int - 48
    } else if 'a' <= c && c <= 'f' {
        c as int - 87
    } else if 'A' <= c && c <= 'F' {
        c as int - 55
    } else {
        -1
    }
}

/// `c` in front of a decoded text, if there is one.
pub open spec fn prepend(c: char, rest: Option<Seq<char>>) -> Option<Seq<char>> {
    match rest {
        Some(r) => Some(seq![c] + r),
        None => None,
    }
}

/// The character that a two-character escape `\e` stands for in a JSON string.
pub open spec fn short_escape(e: char) -> Option<char> {
    if e == '"' {
        Some('"')
    } else if e == '\\' {
        Some('\\')
    } else if e == '/' {
        Some('/')
    } else if e == 'b' {
        Some('\u{8}')
    } else if e == 'f' {
        Some('\u{c}')
    } else if e == 'n' {
        Some('\n')
    } else if e == 'r' {
        Some('\r')
    } else if e == 't' {
        Some('\t')
    } else {
        None
    }
}

/// The characters that the body `t` of a JSON string literal (the text between its quotes)
/// stands for, under the string grammar of RFC 8259: a raw `"` or control character is an
/// error, `\` starts a short escape or a `\uXXXX` escape. Escapes of UTF-16 surrogates
/// (pairs included) are refused here.
pub open spec fn json_unescaped(t: Seq<char>) -> Option<Seq<char>>
    decreases t.len(),
{
    if t.len() == 0 {
        Some(Seq::empty())
    } else if t[0] == '"' || (t[0] as int) < 32 {
        None
    } else if t[0] != '\\' {
        prepend(t[0], json_unescaped(t.drop_first()))
    } else if t.len() < 2 {
        None
    } else {
        match short_escape(t[1]) {
            Some(c) => prepend(c, json_unescaped(t.skip(2))),
            None => if t[1] == 'u' && t.len() >= 6 && hex_value(t[2]) >= 0 && hex_value(t[3]) >= 0
                && hex_value(t[4]) >= 0 && hex_value(t[5]) >= 0 {
                let v = ((hex_value(t[2]) * 16 + hex_value(t[3])) * 16 + hex_value(t[4])) * 16
                    + hex_value(t[5]);
                if 0xD800 <= v && v <= 0xDFFF {
                    None
                } else {
                    prepend(v as char, json_unescaped(t.skip(6)))
                }
            } else {
                None
            },
        }
    }
}

proof fn lemma_hex_digit(d: int)
    requires
        0 <= d < 16,
    ensures
        hex_value(hex_digit(d)) == d,
{
}

proof fn lemma_unescape_step(c: char, t: Seq<char>)
    ensures
        json_unescaped(json_escaped_char(c) + t) == prepend(c, json_unescaped(t)),
{
    let e = json_escaped_char(c) + t;
    if c == '"' || c == '\\' || c == '\u{8}' || c == '\t' || c == '\n' || c == '\u{c}' || c
        == '\r' {
        assert(e.skip(2) =~= t);
    } else if (c as int) < 32 {
        let hi = c as int / 16;
        let lo = c as int % 16;
        lemma_hex_digit(0);
        lemma_hex_digit(hi);
        lemma_hex_digit(lo);
        assert(e[2] == '0' && e[3] == '0' && e[4] == hex_digit(hi) && e[5] == hex_digit(lo));
        assert(e.skip(6) =~= t);
        assert(hi * 16 + lo == c as int);
        assert((c as int) as char == c);
    } else {
        assert(e.drop_first() =~= t);
    }
}

/// Law: reading the body of a string literal that serde_json writes gives back the text.
pub proof fn lemma_json_escaped_decodes(s: Seq<char>)
    ensures
        json_unescaped(json_escaped(s)) == Some(s),
    decreases s.len(),
{
    if s.len() == 0 {
    } else {
        lemma_json_escaped_decodes(s.drop_first());
        lemma_unescape_step(s[0], json_escaped(s.drop_first()));
        assert(seq![s[0]] + s.drop_first() =~= s);
    }
}

/// A parsed JSON value, together with the text it was read from.
pub struct JsonDocument {
    value: serde_json::Value,
    source: Ghost<Seq<char>>,
}

impl JsonDocument {
    /// The text this document was read from.
    pub closed spec fn source(&self) -> Seq<char> {
        self.source@
    }

    /// Reads a JSON document from `text`; on failure gives serde_json's error message.
    pub fn parse(text: &str) -> (r: Result<JsonDocument, String>)
        ensures
            r is Ok <==> json_parses(text@),
            r matches Ok(d) ==> d.source() == text@,
            r matches Err(e) ==> e@ == json_parse_error(text@),
    {
        parse_json(text)
    }
}

/// Parses `text` with serde_json (`str::parse::<serde_json::Value>`); on failure gives
/// the error's `Display` text.
/// Claims: success exactly when serde_json accepts the text, the document remembers the
/// text, and the error text depends on the text alone.
#[verifier::external_body]
pub(crate) fn parse_json(text: &str) -> (r: Result<JsonDocument, String>)
    ensures
        r is Ok <==> json_parses(text@),
        r matches Ok(d) ==> d.source() == text@,
        r matches Err(e) ==> e@ == json_parse_error(text@),
{
    match text.parse::<serde_json::Value>() {
        Ok(value) => Ok(JsonDocument { value, source: Ghost(text@) }),
        Err(e) => Err(e.to_string()),
    }
}

/// Reads the string member `key` of a document (serde_json's `value[key].as_str()`).
/// Claims: the result is `json_string_member` of the document's text and `key`.
#[verifier::external_body]
pub(crate) fn string_member(doc: &JsonDocument, key: &str) -> (r: Option<String>)
    ensures
        match r {
            Some(s) => json_string_member(doc.source(), key@) == Some(s@),
            None => json_string_member(doc.source(), key@) is None,
        },
{
    doc.value[key].as_str().map(|s| s.to_string())
}

/// The JSON string literal for `s`, as serde_json writes it
/// (`serde_json::Value::String(..).to_string()`, which goes through serde_json's
/// `format_escaped_str` and its `ESCAPE` table).
/// Claims: the result is `json_quoted(s)`.
#[verifier::external_body]
pub(crate) fn quote_json(s: &str) -> (r: String)
    ensures
        r@ == json_quoted(s@),
{
    serde_json::Value::String(s.to_string()).to_string()
}

} // verus!
