//! The speller's reply, and where in it the corrected text stands.
//!
//! The reply is a JSON document; the corrected text is the string at
//! `message.result.notag_html`. Reading a key of anything but an object, or a
//! key that an object lacks, gives `null`, as JSON indexing does.

use vstd::prelude::*;

verus! {

#[verifier::external_type_specification]
#[verifier::external_body]
pub struct ExJsonError(serde_json::Error);

#[verifier::external_type_specification]
#[verifier::external_body]
pub struct ExJsonDocument(serde_json::Value);

/// A JSON value. Numbers are kept as text, as `serde_json` writes the number
/// it read (not necessarily as the document wrote it); the fields
/// of an object are kept in order, and a lookup takes the first field of a
/// name.
pub enum JsonValue {
    Null,
    Bool(bool),
    Number(String),
    Str(String),
    Array(Vec<JsonValue>),
    Object(Vec<(String, JsonValue)>),
}

/// The value of the first field named `key`, if any.
pub open spec fn field_of(fields: Seq<(String, JsonValue)>, key: Seq<char>) -> Option<JsonValue>
    decreases fields.len(),
{
    if fields.len() == 0 {
        None
    } else if fields[0].0@ == key {
        Some(fields[0].1)
    } else {
        field_of(fields.drop_first(), key)
    }
}

/// `v[key]`: the field's value for an object that has it, `null` otherwise.
pub open spec fn index_of(v: JsonValue, key: Seq<char>) -> JsonValue {
    match v {
        JsonValue::Object(fields) => match field_of(fields@, key) {
            Some(x) => x,
            None => JsonValue::Null,
        },
        _ => JsonValue::Null,
    }
}

/// The text of a string value.
pub open spec fn str_of(v: JsonValue) -> Option<Seq<char>> {
    match v {
        JsonValue::Str(s) => Some(s@),
        _ => None,
    }
}

/// The corrected text of a reply: `reply["message"]["result"]["notag_html"]`
/// where that is a string.
pub open spec fn notag_html_of(reply: JsonValue) -> Option<Seq<char>> {
    str_of(index_of(index_of(index_of(reply, "message"@), "result"@), "notag_html"@))
}

/// The value that `serde_json` reads from a text, or `None` where the text is
/// not one JSON document.
pub uninterp spec fn serde_json_value(text: Seq<char>) -> Option<JsonValue>;

/// The library's value for a value that `serde_json` read: each variant to
/// its like, numbers to their text, fields in the order the map keeps them.
#[verifier::external_body]
fn from_serde(value: &serde_json::Value) -> JsonValue {
    match value {
        serde_json::Value::Null => JsonValue::Null,
        serde_json::Value::Bool(b) => JsonValue::Bool(*b),
        serde_json::Value::Number(n) => JsonValue::Number(n.to_string()),
        serde_json::Value::String(s) => JsonValue::Str(s.clone()),
        serde_json::Value::Array(items) => JsonValue::Array(items.iter().map(from_serde).collect()),
        serde_json::Value::Object(fields) => JsonValue::Object(
            fields.iter().map(|(k, v)| (k.clone(), from_serde(v))).collect(),
        ),
    }
}

/// The hexadecimal digit of `d` (0 to 15), in lower case.
pub open spec fn hex_digit(d: int) -> char {
    if d < 10 {
        (d + 48) as char
    } else {
        (d + 87) as char
    }
}

/// How a JSON string literal writes `c`: a quote and a backslash behind a
/// backslash, a control character as `\u00XX`, any other character as it
/// is.
pub open spec fn json_escape_char(c: char) -> Seq<char> {
    if c == '"' {
        seq!['\\', '"']
    } else if c == '\\' {
        seq!['\\', '\\']
    } else if (c as int) < 32 {
        seq!['\\', 'u', '0', '0', hex_digit((c as int) / 16), hex_digit((c as int) % 16)]
    } else {
        seq![c]
    }
}

/// The inside of a JSON string literal that denotes `t`.
pub open spec fn json_escape(t: Seq<char>) -> Seq<char>
    decreases t.len(),
{
    if t.len() == 0 {
        Seq::<char>::empty()
    } else {
        json_escape_char(t[0]) + json_escape(t.drop_first())
    }
}

/// The speller's reply that carries `t` as its corrected text and nothing
/// else: `{"message":{"result":{"notag_html":"<t>"}}}`.
pub open spec fn reply_document(t: Seq<char>) -> Seq<char> {
    "{\"message\":{\"result\":{\"notag_html\":\""@ + json_escape(t) + "\"}}}"@
}

/// Each character is written with at least one character.
proof fn lemma_escape_char_nonempty(c: char)
    ensures
        json_escape_char(c).len() >= 1,
{
}

/// Two characters whose escapes begin two equal texts are equal: no escape
/// is a proper beginning of another.
proof fn lemma_escape_char_prefix(c: char, d: char, s: Seq<char>, rc: Seq<char>, rd: Seq<char>)
    requires
        s == json_escape_char(c) + rc,
        s == json_escape_char(d) + rd,
    ensures
        c == d,
        rc == rd,
{
    let ec = json_escape_char(c);
    let ed = json_escape_char(d);
    assert(s[0] == ec[0]);
    assert(s[0] == ed[0]);
    if s[0] != '\\' {
        assert(c == s[0]);
        assert(d == s[0]);
    } else {
        assert(s[1] == ec[1]);
        assert(s[1] == ed[1]);
        if s[1] == 'u' {
            assert(s[4] == ec[4] && s[4] == ed[4]);
            assert(s[5] == ec[5] && s[5] == ed[5]);
            let ci = c as int;
            let di = d as int;
            assert(0 <= ci < 32 && 0 <= di < 32);
            assert(ci / 16 == di / 16);
            assert(ci % 16 == di % 16);
            assert(ci == di);
        }
    }
    assert(ec =~= ed);
    assert(rc =~= s.skip(ec.len() as int));
    assert(rd =~= s.skip(ed.len() as int));
}

/// Different texts are written as different string literals.
pub proof fn lemma_json_escape_injective(a: Seq<char>, b: Seq<char>)
    requires
        json_escape(a) == json_escape(b),
    ensures
        a == b,
    decreases a.len(),
{
    if a.len() == 0 {
        if b.len() > 0 {
            lemma_escape_char_nonempty(b[0]);
            assert(json_escape(b).len() >= 1);
        }
        assert(a =~= b);
    } else {
        if b.len() == 0 {
            lemma_escape_char_nonempty(a[0]);
            assert(json_escape(a).len() >= 1);
            assert(json_escape(b).len() == 0);
        }
        lemma_escape_char_prefix(
            a[0],
            b[0],
            json_escape(a),
            json_escape(a.drop_first()),
            json_escape(b.drop_first()),
        );
        lemma_json_escape_injective(a.drop_first(), b.drop_first());
        assert(a =~= seq![a[0]] + a.drop_first());
        assert(b =~= seq![b[0]] + b.drop_first());
    }
}

/// A reply written as [`reply_document`] names the one text it was written
/// from.
pub proof fn lemma_reply_document_injective(a: Seq<char>, b: Seq<char>)
    requires
        reply_document(a) == reply_document(b),
    ensures
        a == b,
{
    let pre = "{\"message\":{\"result\":{\"notag_html\":\""@;
    let post = "\"}}}"@;
    reveal_strlit("{\"message\":{\"result\":{\"notag_html\":\"");
    reveal_strlit("\"}}}");
    let da = reply_document(a);
    let ea = json_escape(a);
    let eb = json_escape(b);
    assert(ea =~= da.subrange(pre.len() as int, da.len() - post.len()));
    assert(eb =~= da.subrange(pre.len() as int, da.len() - post.len()));
    lemma_json_escape_injective(a, b);
}

/// `d` is a reply written as [`reply_document`] of some text.
pub open spec fn is_reply_document(d: Seq<char>) -> bool {
    exists|t: Seq<char>| #[trigger] reply_document(t) == d
}

/// The text that the reply `d` was written from.
pub open spec fn reply_document_text(d: Seq<char>) -> Seq<char> {
    choose|t: Seq<char>| #[trigger] reply_document(t) == d
}

/// Reads `text` with `serde_json::from_str::<serde_json::Value>`. The result
/// depends on the text alone: it is named `serde_json_value(text)`, and an
/// error comes exactly where that name gives `None`. What the parser accepts
/// is not stated here, beyond what JSON fixes for one document: a reply
/// written as [`reply_document`] of `t` is read, and its string is read back
/// as exactly `t`.
#[verifier::external_body]
fn parse_json(text: &str) -> (r: Result<JsonValue, serde_json::Error>)
    ensures
        match r {
            Ok(v) => serde_json_value(text@) == Some(v),
            Err(_) => serde_json_value(text@) is None,
        },
        match r {
            Ok(v) => is_reply_document(text@) ==> notag_html_of(v) == Some(
                reply_document_text(text@),
            ),
            Err(_) => !is_reply_document(text@),
        },
{
    serde_json::from_str::<serde_json::Value>(text).map(|v| from_serde(&v))
}

/// Why a reply gave no corrected text.
pub enum ReplyError {
    /// The reply is not a JSON document.
    Malformed,
    /// The document holds no string at `message.result.notag_html`.
    MissingText,
}

/// The corrected text in the speller's reply `body`: an error where the body
/// is not JSON, and another where the document holds no string at
/// `message.result.notag_html`.
pub fn reply_text(body: &str) -> (r: Result<String, ReplyError>)
    ensures
        match r {
            Err(ReplyError::Malformed) => serde_json_value(body@) is None,
            Err(ReplyError::MissingText) => serde_json_value(body@) matches Some(v)
                && notag_html_of(v) is None,
            Ok(t) => serde_json_value(body@) matches Some(v) && notag_html_of(v) == Some(t@),
        },
        forall|t: Seq<char>|
            #[trigger] reply_document(t) == body@ ==> (r matches Ok(x) && x@ == t),
{
    proof {
        assert forall|t: Seq<char>| #[trigger] reply_document(t) == body@ implies reply_document_text(
            body@,
        ) == t by {
            lemma_reply_document_injective(reply_document_text(body@), t);
        }
    }
    match parse_json(body) {
        Ok(v) => match notag_html(&v) {
            Some(t) => Ok(t),
            None => Err(ReplyError::MissingText),
        },
        Err(_) => Err(ReplyError::Malformed),
    }
}

/// `v[key]`, where `None` stands for `null`.
fn field<'a>(v: &'a JsonValue, key: &String) -> (r: Option<&'a JsonValue>)
    ensures
        match r {
            Some(x) => *x == index_of(*v, key@) && !((*x) is Null),
            None => index_of(*v, key@) is Null,
        },
{
    match v {
        JsonValue::Object(fields) => {
            let n = fields.len();
            let mut i: usize = 0;
            assert(fields@.skip(0) =~= fields@);
            while i < n
                invariant
                    n == fields@.len(),
                    i <= n,
                    *v == JsonValue::Object(*fields),
                    field_of(fields@, key@) == field_of(fields@.skip(i as int), key@),
                decreases n - i,
            {
                proof {
                    assert(fields@.skip(i as int).drop_first() =~= fields@.skip(i + 1));
                    assert(fields@.skip(i as int)[0] == fields@[i as int]);
                }
                if fields[i].0 == *key {
                    let x = &fields[i].1;
                    assert(field_of(fields@.skip(i as int), key@) == Some(fields@[i as int].1));
                    return match x {
                        JsonValue::Null => None,
                        _ => Some(x),
                    };
                }
                i += 1;
            }
            None
        },
        _ => None,
    }
}

/// The corrected text in the speller's reply, if the reply holds one.
pub fn notag_html(reply: &JsonValue) -> (text: Option<String>)
    ensures
        match text {
            Some(t) => notag_html_of(*reply) == Some(t@),
            None => notag_html_of(*reply) is None,
        },
{
    let message = String::from_str("message");
    let result = String::from_str("result");
    let notag = String::from_str("notag_html");
    let inner = match field(reply, &message) {
        Some(m) => field(m, &result),
        None => None,
    };
    let leaf = match inner {
        Some(r) => field(r, &notag),
        None => None,
    };
    match leaf {
        Some(JsonValue::Str(s)) => Some(s.clone()),
        _ => None,
    }
}

/// The field named `key` stands at `i` in `fields`, and no field before it
/// has that name.
pub open spec fn first_named(fields: Seq<(String, JsonValue)>, key: Seq<char>, i: int) -> bool {
    &&& 0 <= i < fields.len()
    &&& fields[i].0@ == key
    &&& forall|k: int| 0 <= k < i ==> fields[k].0@ != key
}

/// Looking a name up gives the value of the first field with that name.
pub proof fn lemma_field_of_first(fields: Seq<(String, JsonValue)>, key: Seq<char>, i: int)
    requires
        first_named(fields, key, i),
    ensures
        field_of(fields, key) == Some(fields[i].1),
    decreases i,
{
    if i > 0 {
        assert(fields[0].0@ != key);
        let r = fields.drop_first();
        assert forall|k: int| 0 <= k < i - 1 implies r[k].0@ != key by {
            assert(r[k] == fields[k + 1]);
        }
        assert(r[i - 1] == fields[i]);
        lemma_field_of_first(r, key, i - 1);
    }
}

/// Whatever other fields a reply holds (`html`, `origin_html`, ...), and
/// wherever in their objects the fields stand, its corrected text is the
/// string at `message`, then `result`, then `notag_html`.
pub proof fn lemma_reply_any_fields(
    f1: Vec<(String, JsonValue)>,
    f2: Vec<(String, JsonValue)>,
    f3: Vec<(String, JsonValue)>,
    i: int,
    j: int,
    k: int,
    text: String,
)
    requires
        first_named(f1@, "message"@, i),
        f1@[i].1 == JsonValue::Object(f2),
        first_named(f2@, "result"@, j),
        f2@[j].1 == JsonValue::Object(f3),
        first_named(f3@, "notag_html"@, k),
        f3@[k].1 == JsonValue::Str(text),
    ensures
        notag_html_of(JsonValue::Object(f1)) == Some(text@),
{
    lemma_field_of_first(f1@, "message"@, i);
    lemma_field_of_first(f2@, "result"@, j);
    lemma_field_of_first(f3@, "notag_html"@, k);
}

/// An object whose only field is `key` with the value `value`.
pub open spec fn single_field(v: JsonValue, key: Seq<char>, value: JsonValue) -> bool {
    v matches JsonValue::Object(fields) && fields@.len() == 1 && fields@[0].0@ == key
        && fields@[0].1 == value
}

/// A reply written as `{"message": {"result": {"notag_html": text}}}` gives
/// back `text` as its corrected text.
pub proof fn lemma_reply_read_back(
    reply: JsonValue,
    message: JsonValue,
    result: JsonValue,
    text: String,
)
    requires
        single_field(reply, "message"@, message),
        single_field(message, "result"@, result),
        single_field(result, "notag_html"@, JsonValue::Str(text)),
    ensures
        notag_html_of(reply) == Some(text@),
{
}

} // verus!
