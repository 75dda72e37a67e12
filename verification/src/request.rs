//! The message envelope and its wire encoding.
//!
//! An outbound frame is a JSON object with exactly two fields, written without
//! whitespace: `command`, a string, and `request`, the body of the request in
//! its own JSON encoding.

use vstd::prelude::*;
use vstd::string::StringExecFns;

use crate::error::ClientError;

verus! {

/// Request
///
/// Pairs a command identifier with a request body. With `R = String` the body
/// is the JSON text of the request, ready to be framed by [`Request::encode`].
#[derive(Clone, Copy, Debug, Default, Eq, Hash, PartialEq)]
pub struct Request<R> {
    /// Request Command
    ///
    /// This command is used by the server to decide which command to execute
    /// the request on, and to parse the request correctly from the serialized
    /// data.
    pub command: &'static str,
    /// Request Body
    pub request: R,
}

/// Get Request
///
/// The body of a request that carries no data: a marker that stands where a
/// request would.
#[derive(Clone, Copy, Debug, Default, Eq, Hash, PartialEq)]
pub enum GetRequest {
    /// GET
    #[default]
    Get,
}

/// The lowercase hexadecimal digit of `n`, for `0 <= n < 16`.
pub open spec fn hex_digit(n: int) -> char {
    "0123456789abcdef"@[n]
}

/// How one character stands inside a JSON string literal: the quotation mark,
/// the backslash and the control characters below U+0020 are escaped, every
/// other character stands for itself.
pub open spec fn escape(c: char) -> Seq<char> {
    if c == '"' {
        seq!['\\', '"']
    } else if c == '\\' {
        seq!['\\', '\\']
    } else if c == '\u{8}' {
        seq!['\\', 'b']
    } else if c == '\t' {
        seq!['\\', 't']
    } else if c == '\n' {
        seq!['\\', 'n']
    } else if c == '\u{c}' {
        seq!['\\', 'f']
    } else if c == '\r' {
        seq!['\\', 'r']
    } else if (c as u32) < 0x20 {
        seq!['\\', 'u', '0', '0', hex_digit(c as int / 16), hex_digit(c as int % 16)]
    } else {
        seq![c]
    }
}

/// The characters of `s`, each escaped, in order.
pub open spec fn escaped(s: Seq<char>) -> Seq<char>
    decreases s.len(),
{
    if s.len() == 0 {
        Seq::empty()
    } else {
        escape(s[0]) + escaped(s.drop_first())
    }
}

/// The JSON string literal that denotes `s`.
pub open spec fn json_string(s: Seq<char>) -> Seq<char> {
    seq!['"'] + escaped(s) + seq!['"']
}

/// The frame that carries `body`, the JSON text of a request, under `command`.
pub open spec fn frame(command: Seq<char>, body: Seq<char>) -> Seq<char> {
    "{\"command\":"@ + json_string(command) + ",\"request\":"@ + body + "}"@
}

/// `serde_json::to_string` on a string slice. It writes the slice as a JSON
/// string literal into a growable buffer, which cannot fail: a quotation mark,
/// then each character as [`escape`] gives it, then a quotation mark.
#[verifier::external_body]
fn quote(s: &str) -> (literal: Result<String, serde_json::Error>)
    ensures
        literal is Ok,
        literal->Ok_0@ == json_string(s@),
{
    serde_json::to_string(s)
}

impl GetRequest {
    /// The JSON text of the marker: its name, as a string literal.
    pub open spec fn json(self) -> Seq<char> {
        json_string("Get"@)
    }

    /// Encodes the marker as JSON text, which always succeeds.
    pub fn encode(&self) -> (encoded: Result<String, serde_json::Error>)
        ensures
            encoded is Ok,
            encoded->Ok_0@ == self.json(),
    {
        quote("Get")
    }
}

impl<R> Request<R> {
    /// Builds the envelope of `request` under `command`.
    pub fn new(command: &'static str, request: R) -> (envelope: Self)
        ensures
            envelope.command == command,
            envelope.request == request,
    {
        Request { command, request }
    }
}

impl Request<String> {
    /// Writes the envelope as one frame: an object of exactly the two fields
    /// `command` and `request`, in this order and without whitespace.
    ///
    /// Every envelope has a frame. A refusal of the encoder to write the
    /// command would still be passed on as a serialization error rather than
    /// be taken for impossible.
    pub fn encode(&self) -> (encoded: Result<String, ClientError>)
        ensures
            encoded is Ok,
            encoded->Ok_0@ == frame(self.command@, self.request@),
    {
        match quote(self.command) {
            Ok(literal) => {
                let mut text = String::from_str("{\"command\":");
                text.append(literal.as_str());
                text.append(",\"request\":");
                text.append(self.request.as_str());
                text.append("}");
                Ok(text)
            },
            Err(err) => Err(ClientError::SerializationError(err)),
        }
    }
}

/// An escaped character never begins with a quotation mark, and what follows
/// it in a text can be told apart: if two texts agree and each begins with an
/// escaped character, the characters are the same and so are the rests.
proof fn lemma_escape_prefix_free(c1: char, x: Seq<char>, c2: char, y: Seq<char>)
    ensures
        escape(c1).len() >= 1,
        escape(c1)[0] != '"',
        escape(c1) + x == escape(c2) + y ==> c1 == c2 && x == y,
{
    reveal_strlit("0123456789abcdef");
    let e1 = escape(c1);
    let e2 = escape(c2);
    if e1 + x == e2 + y {
        let a = e1 + x;
        assert(a[0] == e1[0] && a[0] == e2[0]);
        if e1.len() >= 2 {
            assert(e2.len() >= 2);
            assert(a[1] == e1[1] && a[1] == e2[1]);
            if e1.len() == 6 {
                assert(e2.len() == 6);
                assert(a[4] == e1[4] && a[4] == e2[4]);
                assert(a[5] == e1[5] && a[5] == e2[5]);
            }
        }
        assert(x =~= a.skip(e1.len() as int));
        assert(y =~= a.skip(e2.len() as int));
    }
}

/// The end of an escaped text can be told: if two texts agree, and each is an
/// escaped text followed by a quotation mark and a rest, then the escaped
/// texts are the same and so are the rests.
proof fn lemma_escaped_prefix_free(s1: Seq<char>, r1: Seq<char>, s2: Seq<char>, r2: Seq<char>)
    requires
        escaped(s1) + seq!['"'] + r1 == escaped(s2) + seq!['"'] + r2,
    ensures
        s1 == s2,
        r1 == r2,
    decreases s1.len(),
{
    let a = escaped(s1) + seq!['"'] + r1;
    let b = escaped(s2) + seq!['"'] + r2;
    let t1 = escaped(s1.drop_first()) + seq!['"'] + r1;
    let t2 = escaped(s2.drop_first()) + seq!['"'] + r2;
    if s1.len() == 0 && s2.len() == 0 {
        assert(r1 =~= a.skip(1));
        assert(r2 =~= b.skip(1));
    } else if s1.len() == 0 {
        lemma_escape_prefix_free(s2[0], t2, s2[0], t2);
        assert(a[0] == '"');
        assert(b[0] == escape(s2[0])[0]);
    } else if s2.len() == 0 {
        lemma_escape_prefix_free(s1[0], t1, s1[0], t1);
        assert(b[0] == '"');
        assert(a[0] == escape(s1[0])[0]);
    } else {
        assert(a =~= escape(s1[0]) + t1);
        assert(b =~= escape(s2[0]) + t2);
        lemma_escape_prefix_free(s1[0], t1, s2[0], t2);
        lemma_escaped_prefix_free(s1.drop_first(), r1, s2.drop_first(), r2);
        assert(s1 =~= seq![s1[0]] + s1.drop_first());
        assert(s2 =~= seq![s2[0]] + s2.drop_first());
    }
}

/// A frame has one reading: envelopes with the same frame have the same
/// command and the same body.
pub proof fn lemma_frame_injective(
    command1: Seq<char>,
    body1: Seq<char>,
    command2: Seq<char>,
    body2: Seq<char>,
)
    requires
        frame(command1, body1) == frame(command2, body2),
    ensures
        command1 == command2,
        body1 == body2,
{
    let open = "{\"command\":"@ + seq!['"'];
    let middle = ",\"request\":"@;
    let close = "}"@;
    let r1 = middle + body1 + close;
    let r2 = middle + body2 + close;
    let t1 = escaped(command1) + seq!['"'] + r1;
    let t2 = escaped(command2) + seq!['"'] + r2;
    assert(frame(command1, body1) =~= open + t1);
    assert(frame(command2, body2) =~= open + t2);
    assert(t1 =~= (open + t1).skip(open.len() as int));
    assert(t2 =~= (open + t2).skip(open.len() as int));
    lemma_escaped_prefix_free(command1, r1, command2, r2);
    assert(body1 =~= r1.subrange(middle.len() as int, r1.len() - close.len()));
    assert(body2 =~= r2.subrange(middle.len() as int, r2.len() - close.len()));
}

/// The envelope that a text is the frame of: its command and its body, if the
/// text is a frame at all.
pub open spec fn envelope_of(text: Seq<char>) -> Option<(Seq<char>, Seq<char>)> {
    if exists|command: Seq<char>, body: Seq<char>| text == frame(command, body) {
        Some(choose|envelope: (Seq<char>, Seq<char>)| text == frame(envelope.0, envelope.1))
    } else {
        None
    }
}

/// Encoding an envelope and reading the frame back gives the command and the
/// body that went in.
pub proof fn lemma_frame_round_trip(command: Seq<char>, body: Seq<char>)
    ensures
        envelope_of(frame(command, body)) == Some((command, body)),
{
    let text = frame(command, body);
    let witness = (command, body);
    assert(text == frame(witness.0, witness.1));
    let found = choose|envelope: (Seq<char>, Seq<char>)| text == frame(envelope.0, envelope.1);
    lemma_frame_injective(command, body, found.0, found.1);
}

} // verus!
