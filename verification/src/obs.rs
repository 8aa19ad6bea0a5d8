//! The OBS WebSocket client's logic: the authentication answer, the Identify
//! message, the decoding of each incoming message, what it asks for, and the
//! reconnect back-off.  The socket itself is handled by the program around
//! this library, which hands over the text of each message.
use vstd::prelude::*;
use vstd::utf8::encode_utf8;
use base64::Engine;
use sha2::Digest;
use crate::text::{decimal, owned, push_char, push_decimal, push_str, chars_of, str_eq};

verus! {

/// Fired when OBS saves the replay buffer.
#[derive(Debug, Clone)]
pub struct ReplayBufferSaved {
    pub path: String,
}

// ── Hashing and encoding ─────────────────────────────────────────────────────

/// The SHA-256 digest of `data`, as `sha2` computes it.
pub uninterp spec fn sha256_digest(data: Seq<u8>) -> Seq<u8>;

/// The character of a 6-bit value in the standard base64 alphabet
/// (RFC 4648: `A`–`Z`, `a`–`z`, `0`–`9`, `+`, `/`).
pub open spec fn base64_char(n: int) -> char {
    if n < 26 {
        ('A' as int + n) as char
    } else if n < 52 {
        ('a' as int + (n - 26)) as char
    } else if n < 62 {
        ('0' as int + (n - 52)) as char
    } else if n == 62 {
        '+'
    } else {
        '/'
    }
}

/// `data` in standard base64: each group of three bytes, read as a 24-bit
/// number, gives four characters of six bits each; a last group of one or
/// two bytes is filled with zero bits and padded with `=` to four.
pub open spec fn base64_standard(data: Seq<u8>) -> Seq<char>
    decreases data.len(),
{
    if data.len() == 0 {
        Seq::empty()
    } else if data.len() == 1 {
        let n = data[0] as int * 65536;
        seq![base64_char(n / 262144), base64_char((n / 4096) % 64), '=', '=']
    } else if data.len() == 2 {
        let n = data[0] as int * 65536 + data[1] as int * 256;
        seq![base64_char(n / 262144), base64_char((n / 4096) % 64), base64_char((n / 64) % 64), '=']
    } else {
        let n = data[0] as int * 65536 + data[1] as int * 256 + data[2] as int;
        seq![base64_char(n / 262144), base64_char((n / 4096) % 64), base64_char((n / 64) % 64), base64_char(n % 64)]
            + base64_standard(data.subrange(3, data.len() as int))
    }
}

/// `sha2::Sha256::digest` (one-shot `new`, `update`, `finalize`): the
/// contract names the digest of the bytes given (`sha256_digest`) and states
/// its length, 32 bytes, as the output type `U32` fixes it.  Feeding two
/// pieces to one hasher, as OBS's recipe describes, digests their
/// concatenation, which is what the callers hand over.
#[verifier::external_body]
fn sha256(data: &[u8]) -> (r: Vec<u8>)
    ensures
        r@ == sha256_digest(data@),
        r@.len() == 32,
{
    sha2::Sha256::digest(data).to_vec()
}

/// `base64::engine::general_purpose::STANDARD.encode`: the contract states
/// the padded standard encoding of the bytes given (`base64_standard`) and
/// its length, four characters for every started group of three bytes
/// (`encoded_len` with padding).  The call panics when that length does not
/// fit in `usize`, which `requires` rules out.
#[verifier::external_body]
fn base64_encode(data: &[u8]) -> (r: String)
    requires
        (data@.len() / 3) * 4 + 4 <= usize::MAX,
    ensures
        r@ == base64_standard(data@),
        r@.len() == 4 * ((data@.len() + 2) / 3),
{
    base64::engine::general_purpose::STANDARD.encode(data)
}

/// The UTF-8 bytes of `a` followed by those of `b`.
fn bytes_of_both(a: &str, b: &str) -> (r: Vec<u8>)
    ensures
        r@ == encode_utf8(a@) + encode_utf8(b@),
{
    let x = a.as_bytes();
    let y = b.as_bytes();
    let mut r: Vec<u8> = Vec::new();
    let mut i: usize = 0;
    while i < x.len()
        invariant
            i <= x@.len(),
            r@ == x@.take(i as int),
        decreases x@.len() - i,
    {
        r.push(x[i]);
        i += 1;
    }
    assert(x@.take(x@.len() as int) == x@);
    let mut j: usize = 0;
    while j < y.len()
        invariant
            j <= y@.len(),
            r@ == x@ + y@.take(j as int),
        decreases y@.len() - j,
    {
        r.push(y[j]);
        j += 1;
    }
    assert(y@.take(y@.len() as int) == y@);
    r
}

/// The OBS authentication answer:
/// `base64(sha256(base64(sha256(password + salt)) + challenge))`.
pub open spec fn auth_string_of(password: Seq<char>, salt: Seq<char>, challenge: Seq<char>) -> Seq<char> {
    let secret = base64_standard(sha256_digest(encode_utf8(password) + encode_utf8(salt)));
    base64_standard(sha256_digest(encode_utf8(secret) + encode_utf8(challenge)))
}

pub fn make_auth_string(password: &str, salt: &str, challenge: &str) -> (s: String)
    ensures
        s@ == auth_string_of(password@, salt@, challenge@),
{
    let first = bytes_of_both(password, salt);
    let h1 = sha256(first.as_slice());
    let secret = base64_encode(h1.as_slice());
    let second = bytes_of_both(secret.as_str(), challenge);
    let h2 = sha256(second.as_slice());
    base64_encode(h2.as_slice())
}

// ── JSON text ─────────────────────────────────────────────────────────────────

pub open spec fn hex_digit(d: nat) -> char {
    if d < 10 {
        ((48 + d) as int) as char
    } else {
        ((87 + d) as int) as char
    }
}

/// How a character stands inside a JSON string: `"` and `\` escaped, the
/// control characters as `\b \t \n \f \r` or `\u00XX`.
pub open spec fn json_char(c: char) -> Seq<char> {
    if c == '"' {
        seq!['\\', '"']
    } else if c == '\\' {
        seq!['\\', '\\']
    } else if c == '\u{8}' {
        seq!['\\', 'b']
    } else if c == '\t' {
        seq!['\\', 't']
    } else if c == '\n' {
        seq!['\\', 'n']
    } else if c == '\u{c}' {
        seq!['\\', 'f']
    } else if c == '\r' {
        seq!['\\', 'r']
    } else if (c as nat) < 32 {
        seq!['\\', 'u', '0', '0', hex_digit((c as nat) / 16), hex_digit((c as nat) % 16)]
    } else {
        seq![c]
    }
}

pub open spec fn json_escaped(s: Seq<char>) -> Seq<char>
    decreases s.len(),
{
    if s.len() == 0 {
        Seq::empty()
    } else {
        json_escaped(s.drop_last()) + json_char(s.last())
    }
}

/// `s` as a JSON string literal.
pub open spec fn json_string(s: Seq<char>) -> Seq<char> {
    seq!['"'] + json_escaped(s) + seq!['"']
}

fn push_json_char(out: &mut String, c: char)
    ensures
        final(out)@ == old(out)@ + json_char(c),
{
    if c == '"' {
        push_str(out, "\\\"");
    } else if c == '\\' {
        push_str(out, "\\\\");
    } else if c == '\u{8}' {
        push_str(out, "\\b");
    } else if c == '\t' {
        push_str(out, "\\t");
    } else if c == '\n' {
        push_str(out, "\\n");
    } else if c == '\u{c}' {
        push_str(out, "\\f");
    } else if c == '\r' {
        push_str(out, "\\r");
    } else if (c as u32) < 32 {
        let n = c as u32;
        push_str(out, "\\u00");
        push_char(out, if n / 16 < 10 { ((48 + n / 16) as u8) as char } else { ((87 + n / 16) as u8) as char });
        push_char(out, if n % 16 < 10 { ((48 + n % 16) as u8) as char } else { ((87 + n % 16) as u8) as char });
    } else {
        push_char(out, c);
    }
    proof {
        reveal_strlit("\\\"");
        reveal_strlit("\\\\");
        reveal_strlit("\\b");
        reveal_strlit("\\t");
        reveal_strlit("\\n");
        reveal_strlit("\\f");
        reveal_strlit("\\r");
        reveal_strlit("\\u00");
    }
}

fn push_json_string(out: &mut String, s: &str)
    ensures
        final(out)@ == old(out)@ + json_string(s@),
{
    let v = chars_of(s);
    push_char(out, '"');
    let ghost start = out@;
    let mut i: usize = 0;
    while i < v.len()
        invariant
            i <= v.len(),
            v@ == s@,
            out@ == start + json_escaped(v@.take(i as int)),
        decreases v.len() - i,
    {
        assert(v@.take((i + 1) as int).drop_last() == v@.take(i as int));
        push_json_char(out, v[i]);
        i += 1;
    }
    assert(v@.take(v.len() as int) == v@);
    push_char(out, '"');
}

/// The Identify message (op 1): RPC version 1, the authentication answer or
/// `null`, and a subscription to the Outputs events (bit 6), which carry
/// ReplayBufferSaved.  Keys in the order `serde_json` writes them.
pub open spec fn identify_text(auth: Option<Seq<char>>) -> Seq<char> {
    "{\"d\":{\"authentication\":"@
        + match auth {
            Some(a) => json_string(a),
            None => "null"@,
        }
        + ",\"eventSubscriptions\":64,\"rpcVersion\":1},\"op\":1}"@
}

pub fn identify_message(auth: &Option<String>) -> (s: String)
    ensures
        s@ == identify_text(match auth {
            Some(a) => Some(a@),
            None => None,
        }),
{
    let mut s = owned("{\"d\":{\"authentication\":");
    match auth {
        Some(a) => push_json_string(&mut s, a.as_str()),
        None => push_str(&mut s, "null"),
    }
    push_str(&mut s, ",\"eventSubscriptions\":64,\"rpcVersion\":1},\"op\":1}");
    s
}

// ── Incoming messages ─────────────────────────────────────────────────────────

/// What the client reads of one incoming JSON message.  A field that is
/// missing, or of another JSON type, takes the value in brackets.
#[derive(Debug, Clone)]
pub struct ObsFrame {
    /// `op` (99).
    pub op: u64,
    /// Whether `d.authentication` is an object.
    pub needs_auth: bool,
    /// `d.authentication.salt` ("").
    pub salt: String,
    /// `d.authentication.challenge` ("").
    pub challenge: String,
    /// `d.negotiatedRpcVersion` (0).
    pub negotiated_rpc_version: u64,
    /// `d.eventType` ("").
    pub event_type: String,
    /// `d.eventData.savedReplayPath` (none).
    pub saved_replay_path: Option<String>,
}

// ── Decoding incoming text ────────────────────────────────────────────────────

/// A JSON document as plain values.  A number keeps its value where it is a
/// whole number from 0 to `u64::MAX` (else `None`); an object keeps its
/// members, one per key.
#[derive(Debug)]
pub enum JsonTree {
    Null,
    Bool(bool),
    Num(Option<u64>),
    Str(String),
    Arr(Vec<JsonTree>),
    Obj(Vec<(String, JsonTree)>),
}

#[verifier::external_type_specification]
#[verifier::external_body]
pub struct ExJsonValue(serde_json::Value);

/// The tree `serde_json` reads from `text`, or `None` where `text` is not
/// one JSON document.
pub uninterp spec fn json_tree_of(text: Seq<char>) -> Option<JsonTree>;

/// `serde_json::from_str::<serde_json::Value>`: the contract names the tree
/// parsed from `text` (`json_tree_of`), `None` on a parse error; the value is
/// then moved into a `JsonTree` by `tree_of_value`.
#[verifier::external_body]
fn parse_json(text: &str) -> (r: Option<JsonTree>)
    ensures
        r == json_tree_of(text@),
{
    match serde_json::from_str::<serde_json::Value>(text) {
        Ok(v) => Some(tree_of_value(v)),
        Err(_) => None,
    }
}

/// Moves a parsed `serde_json::Value` into a `JsonTree`, variant for variant
/// (a number by `Number::as_u64`).  It is the recursive half of
/// `parse_json`'s conversion and is called only from there; it states
/// nothing of its own, `parse_json`'s contract covering the pair.
#[verifier::external_body]
fn tree_of_value(v: serde_json::Value) -> JsonTree {
    match v {
        serde_json::Value::Null => JsonTree::Null,
        serde_json::Value::Bool(b) => JsonTree::Bool(b),
        serde_json::Value::Number(n) => JsonTree::Num(n.as_u64()),
        serde_json::Value::String(t) => JsonTree::Str(t),
        serde_json::Value::Array(a) => JsonTree::Arr(a.into_iter().map(tree_of_value).collect()),
        serde_json::Value::Object(m) => JsonTree::Obj(m.into_iter().map(|(k, x)| (k, tree_of_value(x))).collect()),
    }
}

/// The member `key` of the first entry in `s` that has it.
pub open spec fn member_of(s: Seq<(String, JsonTree)>, key: Seq<char>) -> Option<JsonTree>
    decreases s.len(),
{
    if s.len() == 0 {
        None
    } else if s[0].0@ == key {
        Some(s[0].1)
    } else {
        member_of(s.drop_first(), key)
    }
}

/// `t[key]`: the member of an object, nothing for a missing member or a value
/// that is not an object.
pub open spec fn field_of(t: Option<JsonTree>, key: Seq<char>) -> Option<JsonTree> {
    match t {
        Some(JsonTree::Obj(entries)) => member_of(entries@, key),
        _ => None,
    }
}

pub open spec fn u64_or(t: Option<JsonTree>, default: u64) -> u64 {
    match t {
        Some(JsonTree::Num(Some(n))) => n,
        _ => default,
    }
}

pub open spec fn str_of(t: Option<JsonTree>) -> Option<Seq<char>> {
    match t {
        Some(JsonTree::Str(s)) => Some(s@),
        _ => None,
    }
}

pub open spec fn str_or_empty(t: Option<JsonTree>) -> Seq<char> {
    match str_of(t) {
        Some(s) => s,
        None => Seq::empty(),
    }
}

/// What the client reads of a message: `op` (99 when missing or not a whole
/// number), whether `d.authentication` is an object, its `salt` and
/// `challenge` ("" when missing or not text), `d.negotiatedRpcVersion` (0),
/// `d.eventType` ("") and `d.eventData.savedReplayPath` (none).
pub open spec fn is_frame_of(t: JsonTree, f: ObsFrame) -> bool {
    let d = field_of(Some(t), "d"@);
    let auth = field_of(d, "authentication"@);
    &&& f.op == u64_or(field_of(Some(t), "op"@), 99)
    &&& f.needs_auth == (auth matches Some(JsonTree::Obj(_)))
    &&& f.salt@ == str_or_empty(field_of(auth, "salt"@))
    &&& f.challenge@ == str_or_empty(field_of(auth, "challenge"@))
    &&& f.negotiated_rpc_version == u64_or(field_of(d, "negotiatedRpcVersion"@), 0)
    &&& f.event_type@ == str_or_empty(field_of(d, "eventType"@))
    &&& match f.saved_replay_path {
        Some(p) => str_of(field_of(field_of(d, "eventData"@), "savedReplayPath"@)) == Some(p@),
        None => str_of(field_of(field_of(d, "eventData"@), "savedReplayPath"@)) is None,
    }
}

/// `t[key]`, for a value that may be missing.
fn field<'a>(t: Option<&'a JsonTree>, key: &str) -> (r: Option<&'a JsonTree>)
    ensures
        match r {
            Some(x) => field_of(match t { Some(y) => Some(*y), None => None }, key@) == Some(*x),
            None => field_of(match t { Some(y) => Some(*y), None => None }, key@) is None,
        },
{
    let tt = match t {
        Some(tt) => tt,
        None => return None,
    };
    match tt {
        JsonTree::Obj(entries) => {
            assert(field_of(Some(*tt), key@) == member_of(entries@, key@));
            let mut i: usize = 0;
            assert(entries@.skip(0) =~= entries@);
            while i < entries.len()
                invariant
                    i <= entries.len(),
                    member_of(entries@, key@) == member_of(entries@.skip(i as int), key@),
                    field_of(match t { Some(y) => Some(*y), None => None }, key@) == member_of(entries@, key@),
                decreases entries.len() - i,
            {
                assert(entries@.skip(i as int).drop_first() =~= entries@.skip(i + 1));
                assert(entries@.skip(i as int)[0] == entries@[i as int]);
                if str_eq(entries[i].0.as_str(), key) {
                    assert(member_of(entries@.skip(i as int), key@) == Some(entries@[i as int].1));
                    return Some(&entries[i].1);
                }
                i += 1;
            }
            None
        },
        _ => None,
    }
}

fn u64_field(t: Option<&JsonTree>, default: u64) -> (n: u64)
    ensures
        n == u64_or(match t { Some(y) => Some(*y), None => None }, default),
{
    match t {
        Some(JsonTree::Num(Some(n))) => *n,
        _ => default,
    }
}

fn str_field(t: Option<&JsonTree>) -> (r: Option<String>)
    ensures
        match r {
            Some(s) => str_of(match t { Some(y) => Some(*y), None => None }) == Some(s@),
            None => str_of(match t { Some(y) => Some(*y), None => None }) is None,
        },
{
    match t {
        Some(JsonTree::Str(s)) => Some(s.clone()),
        _ => None,
    }
}

fn str_field_or_empty(t: Option<&JsonTree>) -> (s: String)
    ensures
        s@ == str_or_empty(match t { Some(y) => Some(*y), None => None }),
{
    match str_field(t) {
        Some(s) => s,
        None => String::new(),
    }
}

/// What the client reads of a parsed message.
pub fn frame_of(t: &JsonTree) -> (f: ObsFrame)
    ensures
        is_frame_of(*t, f),
{
    let d = field(Some(t), "d");
    let auth = field(d, "authentication");
    let event_data = field(d, "eventData");
    ObsFrame {
        op: u64_field(field(Some(t), "op"), 99),
        needs_auth: match auth {
            Some(JsonTree::Obj(_)) => true,
            _ => false,
        },
        salt: str_field_or_empty(field(auth, "salt")),
        challenge: str_field_or_empty(field(auth, "challenge")),
        negotiated_rpc_version: u64_field(field(d, "negotiatedRpcVersion"), 0),
        event_type: str_field_or_empty(field(d, "eventType")),
        saved_replay_path: str_field(field(event_data, "savedReplayPath")),
    }
}

/// Decodes the text of one incoming message; `None` when it is not JSON.
pub fn decode_frame(text: &str) -> (f: Option<ObsFrame>)
    ensures
        match json_tree_of(text@) {
            Some(t) => f matches Some(fr) && is_frame_of(t, fr),
            None => f is None,
        },
{
    match parse_json(text) {
        Some(t) => Some(frame_of(&t)),
        None => None,
    }
}

/// What to do about one incoming message.
#[derive(Debug, Clone)]
pub enum ObsAction {
    /// Hello: send this Identify text.  `missing_password` when OBS asks for
    /// authentication and no password is configured.
    Identify { message: String, missing_password: bool },
    /// Identified: the handshake is complete.
    Identified { rpc_version: u64 },
    /// A replay was saved: hand it to the daemon.
    Saved(ReplayBufferSaved),
    /// A ReplayBufferSaved event without its path.
    MissingPath,
    /// Anything else.
    Ignore,
}

/// The answer to a message, for the configured `password`.
pub open spec fn frame_action_ok(f: ObsFrame, password: Seq<char>, a: ObsAction) -> bool {
    if f.op == 0 {
        a matches ObsAction::Identify { message, missing_password }
            && message@ == identify_text(if f.needs_auth {
                Some(auth_string_of(password, f.salt@, f.challenge@))
            } else {
                None
            })
            && missing_password == (f.needs_auth && password.len() == 0)
    } else if f.op == 2 {
        a matches ObsAction::Identified { rpc_version } && rpc_version == f.negotiated_rpc_version
    } else if f.op == 5 && f.event_type@ == "ReplayBufferSaved"@ {
        match f.saved_replay_path {
            Some(p) => a matches ObsAction::Saved(r) && r.path == p,
            None => a is MissingPath,
        }
    } else {
        a is Ignore
    }
}

pub fn handle_frame(f: &ObsFrame, password: &str) -> (a: ObsAction)
    ensures
        frame_action_ok(*f, password@, a),
{
    if f.op == 0 {
        let auth = if f.needs_auth {
            Some(make_auth_string(password, f.salt.as_str(), f.challenge.as_str()))
        } else {
            None
        };
        let message = identify_message(&auth);
        let n: usize = password.as_bytes().len();
        let missing_password = f.needs_auth && n == 0;
        proof {
            if password@.len() > 0 {
                assert(encode_utf8(password@).len() > 0);
            } else {
                assert(password@ =~= Seq::<char>::empty());
            }
        }
        ObsAction::Identify { message, missing_password }
    } else if f.op == 2 {
        ObsAction::Identified { rpc_version: f.negotiated_rpc_version }
    } else if f.op == 5 && str_eq(f.event_type.as_str(), "ReplayBufferSaved") {
        match &f.saved_replay_path {
            Some(p) => ObsAction::Saved(ReplayBufferSaved { path: p.clone() }),
            None => ObsAction::MissingPath,
        }
    } else {
        ObsAction::Ignore
    }
}

// ── Connecting and reconnecting ───────────────────────────────────────────────

pub open spec fn ws_url_text(host: Seq<char>, port: u16) -> Seq<char> {
    "ws://"@ + host + seq![':'] + decimal(port as nat)
}

/// `ws://host:port`.
pub fn ws_url(host: &str, port: u16) -> (s: String)
    ensures
        s@ == ws_url_text(host@, port),
{
    let mut s = owned("ws://");
    push_str(&mut s, host);
    push_char(&mut s, ':');
    push_decimal(&mut s, port as u64);
    s
}

/// Seconds to wait before the next connection attempt: five per failed
/// attempt in a row, at most thirty.
pub open spec fn backoff_of(attempt: nat) -> nat {
    if 5 * attempt < 30 {
        5 * attempt
    } else {
        30
    }
}

pub fn reconnect_backoff(attempt: u32) -> (s: u32)
    requires
        5 * attempt <= u32::MAX,
    ensures
        s == backoff_of(attempt as nat),
{
    if 5 * attempt < 30 {
        5 * attempt
    } else {
        30
    }
}

/// The connection loop's state: how many attempts in a row have failed
/// (counting the one under way).
#[derive(Debug, Clone, Copy, PartialEq, Eq, Structural)]
pub struct Reconnect {
    pub attempt: u32,
}

impl Reconnect {
    pub fn new() -> (r: Self)
        ensures
            r.attempt == 0,
    {
        Reconnect { attempt: 0 }
    }

    /// Starts a connection attempt.
    pub fn begin(&mut self)
        requires
            old(self).attempt < u32::MAX,
        ensures
            final(self).attempt == old(self).attempt + 1,
    {
        self.attempt = self.attempt + 1;
    }

    /// Ends an attempt: a connection that OBS closed cleanly starts the count
    /// afresh.  Returns the seconds to wait before the next attempt.
    pub fn end(&mut self, clean: bool) -> (wait: u32)
        requires
            5 * old(self).attempt <= u32::MAX,
        ensures
            final(self).attempt == if clean { 0 } else { old(self).attempt },
            wait == backoff_of(final(self).attempt as nat),
    {
        if clean {
            self.attempt = 0;
        }
        reconnect_backoff(self.attempt)
    }
}

/// The wait before reconnecting is never more than thirty seconds and never
/// shrinks while the failures go on.
pub proof fn law_backoff_bounded_and_growing(a: nat, b: nat)
    ensures
        backoff_of(a) <= 30,
        a <= b ==> backoff_of(a) <= backoff_of(b),
{
}

} // verus!
