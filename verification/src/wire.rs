use vstd::prelude::*;
use crate::errors::LlmError;
use crate::text::decimal_rep;
use crate::text::push_char;
use crate::text::push_decimal;

verus! {

/// The character for one hexadecimal digit below 16.
pub open spec fn hex_digit(d: nat) -> char {
    if d < 10 {
        crate::text::decimal_digit(d)
    } else if d == 10 {
        'a'
    } else if d == 11 {
        'b'
    } else if d == 12 {
        'c'
    } else if d == 13 {
        'd'
    } else if d == 14 {
        'e'
    } else {
        'f'
    }
}

/// How one character appears inside a JSON string literal: quote, backslash
/// and the common control characters get their two-character escapes, the
/// remaining control characters a `\u00..` escape, everything else stands as
/// itself.
pub open spec fn escaped_char(c: char) -> Seq<char> {
    if c == '"' {
        seq!['\\', '"']
    } else if c == '\\' {
        seq!['\\', '\\']
    } else if c == '\n' {
        seq!['\\', 'n']
    } else if c == '\r' {
        seq!['\\', 'r']
    } else if c == '\t' {
        seq!['\\', 't']
    } else if (c as u32) < 32 {
        seq!['\\', 'u', '0', '0', hex_digit((c as u32 / 16) as nat), hex_digit(
            (c as u32 % 16) as nat,
        )]
    } else {
        seq![c]
    }
}

/// The body of a JSON string literal holding `s`.
pub open spec fn json_escaped(s: Seq<char>) -> Seq<char>
    decreases s.len(),
{
    if s.len() == 0 {
        Seq::empty()
    } else {
        escaped_char(s[0]) + json_escaped(s.drop_first())
    }
}

proof fn lemma_json_escaped_snoc(s: Seq<char>, c: char)
    ensures
        json_escaped(s.push(c)) == json_escaped(s) + escaped_char(c),
    decreases s.len(),
{
    if s.len() == 0 {
        assert(s.push(c)[0] == c);
        assert(s.push(c).drop_first() =~= Seq::<char>::empty());
        assert(json_escaped(s.push(c)) == escaped_char(c) + json_escaped(
            Seq::<char>::empty(),
        ));
        assert(json_escaped(s.push(c)) =~= json_escaped(s) + escaped_char(c));
    } else {
        assert(s.push(c)[0] == s[0]);
        assert(s.push(c).drop_first() =~= s.drop_first().push(c));
        lemma_json_escaped_snoc(s.drop_first(), c);
        assert(json_escaped(s.push(c)) =~= json_escaped(s) + escaped_char(c));
    }
}

fn hex_digit_char(d: u32) -> (c: char)
    requires
        d < 16,
    ensures
        c == hex_digit(d as nat),
{
    match d {
        0 => '0',
        1 => '1',
        2 => '2',
        3 => '3',
        4 => '4',
        5 => '5',
        6 => '6',
        7 => '7',
        8 => '8',
        9 => '9',
        10 => 'a',
        11 => 'b',
        12 => 'c',
        13 => 'd',
        14 => 'e',
        _ => 'f',
    }
}

fn push_escaped_char(out: &mut String, c: char)
    ensures
        final(out)@ == old(out)@ + escaped_char(c),
{
    if c == '"' {
        push_char(out, '\\');
        push_char(out, '"');
    } else if c == '\\' {
        push_char(out, '\\');
        push_char(out, '\\');
    } else if c == '\n' {
        push_char(out, '\\');
        push_char(out, 'n');
    } else if c == '\r' {
        push_char(out, '\\');
        push_char(out, 'r');
    } else if c == '\t' {
        push_char(out, '\\');
        push_char(out, 't');
    } else if (c as u32) < 32 {
        let v = c as u32;
        push_char(out, '\\');
        push_char(out, 'u');
        push_char(out, '0');
        push_char(out, '0');
        push_char(out, hex_digit_char(v / 16));
        push_char(out, hex_digit_char(v % 16));
    } else {
        push_char(out, c);
    }
    proof {
        assert(final(out)@ =~= old(out)@ + escaped_char(c));
    }
}

/// Escapes `s` for use inside a JSON string literal.
pub fn json_escape(s: &str) -> (r: String)
    ensures
        r@ == json_escaped(s@),
{
    let mut out = String::new();
    let n = s.unicode_len();
    let mut i: usize = 0;
    while i < n
        invariant
            i <= n,
            n == s@.len(),
            out@ == json_escaped(s@.take(i as int)),
        decreases n - i,
    {
        let c = s.get_char(i);
        push_escaped_char(&mut out, c);
        proof {
            assert(s@.take(i as int + 1) =~= s@.take(i as int).push(s@[i as int]));
            lemma_json_escaped_snoc(s@.take(i as int), s@[i as int]);
        }
        i += 1;
    }
    proof {
        assert(s@.take(n as int) =~= s@);
    }
    out
}

/// A temperature given in tenths, rendered with one fractional digit:
/// 7 tenths appear as `0.7`.
pub open spec fn temperature_rep(tenths: nat) -> Seq<char> {
    decimal_rep(tenths / 10) + seq!['.'] + decimal_rep(tenths % 10)
}

/// The request body of one completion exchange: a JSON object with the
/// prompt, streaming off, the decoding temperature, and the output-token
/// budget.
pub open spec fn completion_body_spec(
    prompt: Seq<char>,
    temperature_tenths: nat,
    n_predict: nat,
) -> Seq<char> {
    "{\"prompt\":\""@ + json_escaped(prompt) + "\",\"stream\":false,\"temperature\":"@
        + temperature_rep(temperature_tenths) + ",\"n_predict\":"@ + decimal_rep(n_predict)
        + "}"@
}

/// Builds the request body of one completion exchange.
pub fn completion_request_body(prompt: &str, temperature_tenths: u32, n_predict: u32) -> (r:
    String)
    ensures
        r@ == completion_body_spec(prompt@, temperature_tenths as nat, n_predict as nat),
{
    let mut body = String::from_str("{\"prompt\":\"");
    let escaped = json_escape(prompt);
    body.append(escaped.as_str());
    body.append("\",\"stream\":false,\"temperature\":");
    push_decimal(&mut body, (temperature_tenths / 10) as u64);
    push_char(&mut body, '.');
    push_decimal(&mut body, (temperature_tenths % 10) as u64);
    body.append(",\"n_predict\":");
    push_decimal(&mut body, n_predict as u64);
    body.append("}");
    proof {
        assert(body@ =~= completion_body_spec(
            prompt@,
            temperature_tenths as nat,
            n_predict as nat,
        ));
    }
    body
}

/// Decoding temperature of a real completion request, in tenths: fixed at
/// seven tenths, with streaming always off.
pub const COMPLETION_TEMPERATURE_TENTHS: u32 = 7;

/// Builds the request body of a real completion exchange, with the fixed
/// decoding temperature.
pub fn completion_body(prompt: &str, n_predict: u32) -> (r: String)
    ensures
        r@ == completion_body_spec(
            prompt@,
            COMPLETION_TEMPERATURE_TENTHS as nat,
            n_predict as nat,
        ),
{
    completion_request_body(prompt, COMPLETION_TEMPERATURE_TENTHS, n_predict)
}

/// The body of the readiness probe: a minimal completion request, prompt
/// `ping`, temperature zero, one output token.
pub fn readiness_probe_body() -> (r: String)
    ensures
        r@ == completion_body_spec("ping"@, 0, 1),
{
    completion_request_body("ping", 0, 1)
}

/// The completion endpoint of the server at `host:port`.
pub open spec fn completion_url_spec(host: Seq<char>, port: nat) -> Seq<char> {
    "http://"@ + host + ":"@ + decimal_rep(port) + "/completions"@
}

/// Builds the completion endpoint URL.
pub fn completion_url(host: &str, port: u16) -> (r: String)
    ensures
        r@ == completion_url_spec(host@, port as nat),
{
    let mut url = String::from_str("http://");
    url.append(host);
    url.append(":");
    push_decimal(&mut url, port as u64);
    url.append("/completions");
    proof {
        assert(url@ =~= completion_url_spec(host@, port as nat));
    }
    url
}

/// The raw socket address of the server at `host:port`.
pub open spec fn server_addr_spec(host: Seq<char>, port: nat) -> Seq<char> {
    host + ":"@ + decimal_rep(port)
}

/// Builds the raw socket address used by the reachability probe.
pub fn server_addr(host: &str, port: u16) -> (r: String)
    ensures
        r@ == server_addr_spec(host@, port as nat),
{
    let mut addr = String::from_str(host);
    addr.append(":");
    push_decimal(&mut addr, port as u64);
    proof {
        assert(addr@ =~= server_addr_spec(host@, port as nat));
    }
    addr
}

/// What parsing one reply yields: the JSON rendering of its `error` field
/// and its `content` string field, each when present.
pub struct ParsedResponse {
    /// The JSON rendering of the reply's `error` field, if the field exists.
    pub error: Option<String>,
    /// The reply's `content` field, if the field exists and holds a string.
    pub content: Option<String>,
}

impl View for ParsedResponse {
    type V = (Option<Seq<char>>, Option<Seq<char>>);

    open spec fn view(&self) -> Self::V {
        (
            match self.error {
                Some(e) => Some(e@),
                None => None,
            },
            match self.content {
                Some(c) => Some(c@),
                None => None,
            },
        )
    }
}

/// The error and content fields of a reply text, or nothing when the text is
/// not a JSON document.
pub uninterp spec fn completion_fields_of(s: Seq<char>) -> Option<
    (Option<Seq<char>>, Option<Seq<char>>),
>;

/// Relies on `serde_json::from_str` and `serde_json::Value`'s accessors
/// `get`, `as_str` and `Display`: whether the reply parses as JSON, the JSON
/// rendering of its `error` field, and its `content` string field are
/// functions of the reply text alone.
#[verifier::external_body]
fn parse_completion_fields(raw: &str) -> (r: Result<ParsedResponse, String>)
    ensures
        match r {
            Ok(p) => completion_fields_of(raw@) == Some(p@),
            Err(_) => completion_fields_of(raw@) is None,
        },
{
    match serde_json::from_str::<serde_json::Value>(raw) {
        Ok(v) => Ok(ParsedResponse {
            error: v.get("error").map(|e| e.to_string()),
            content: v.get("content").and_then(|c| c.as_str()).map(|s| s.to_string()),
        }),
        Err(e) => Err(e.to_string()),
    }
}

/// Translates one parsed reply.  An explicit error field yields the model's
/// message, whatever else the reply holds; otherwise the content field is
/// the result, and an absent content field degrades to the empty string
/// rather than to a failure.
pub fn interpret_response(p: ParsedResponse) -> (r: Result<String, LlmError>)
    ensures
        match p@.0 {
            Some(m) => r matches Err(LlmError::Model(msg)) && msg@ == m,
            None => match p@.1 {
                Some(c) => r matches Ok(s) && s@ == c,
                None => r matches Ok(s) && s@ == Seq::<char>::empty(),
            },
        },
{
    match p.error {
        Some(m) => Err(LlmError::Model(m)),
        None => match p.content {
            Some(c) => Ok(c),
            None => Ok(String::new()),
        },
    }
}

/// Interprets the raw reply text of one completion exchange.  Text that is
/// no JSON document is a transport-level failure; an explicit error field
/// yields the model's message even when the transport succeeded; an absent
/// content field degrades to the empty string.
pub fn interpret_raw_response(raw: &str) -> (r: Result<String, LlmError>)
    ensures
        match completion_fields_of(raw@) {
            None => r matches Err(LlmError::Transport(_)),
            Some(f) => match f.0 {
                Some(m) => r matches Err(LlmError::Model(msg)) && msg@ == m,
                None => match f.1 {
                    Some(c) => r matches Ok(s) && s@ == c,
                    None => r matches Ok(s) && s@ == Seq::<char>::empty(),
                },
            },
        },
{
    match parse_completion_fields(raw) {
        Ok(p) => interpret_response(p),
        Err(m) => Err(LlmError::Transport(m)),
    }
}

} // verus!
