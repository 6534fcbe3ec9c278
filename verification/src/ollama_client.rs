use vstd::prelude::*;
use vstd::string::StringExecFns;
use crate::errors::AiError;

verus! {

/// One installed model, as the listing endpoint reports it. The timestamp
/// is kept as the server sent it and never parsed.
#[derive(Clone, Debug)]
pub struct OllamaModel {
    pub name: String,
    pub size: u64,
    pub modified_at: String,
}

/// How one HTTP exchange ended, as the transport saw it: the client-side
/// deadline passed, the request never got a response, or a response came
/// back with a status and a body.
pub enum HttpOutcome {
    TimedOut,
    SendFailed,
    Response { status: u16, body: String },
}

/// A status in the HTTP success range.
pub open spec fn is_success_status(status: u16) -> bool {
    200 <= status && status < 300
}

/// The lowercase hex digit for one value below 16.
pub open spec fn hex_char(n: u32) -> char {
    if n == 0 { '0' } else if n == 1 { '1' } else if n == 2 { '2' }
    else if n == 3 { '3' } else if n == 4 { '4' } else if n == 5 { '5' }
    else if n == 6 { '6' } else if n == 7 { '7' } else if n == 8 { '8' }
    else if n == 9 { '9' } else if n == 10 { 'a' } else if n == 11 { 'b' }
    else if n == 12 { 'c' } else if n == 13 { 'd' } else if n == 14 { 'e' }
    else { 'f' }
}

/// How one character is written inside a JSON string: quote and backslash
/// get a backslash, the named control characters their short escape, any
/// other control character the `\u00XX` form with lowercase hex, and every
/// remaining character stands as itself.
pub open spec fn json_escape_char(c: char) -> Seq<char> {
    if c == '"' { seq!['\\', '"'] }
    else if c == '\\' { seq!['\\', '\\'] }
    else if c == '\u{08}' { seq!['\\', 'b'] }
    else if c == '\t' { seq!['\\', 't'] }
    else if c == '\n' { seq!['\\', 'n'] }
    else if c == '\u{0c}' { seq!['\\', 'f'] }
    else if c == '\r' { seq!['\\', 'r'] }
    else if (c as u32) < 0x20 {
        seq!['\\', 'u', '0', '0', hex_char((c as u32) / 16), hex_char((c as u32) % 16)]
    } else {
        seq![c]
    }
}

/// The body of a JSON string: every character escaped in place.
pub open spec fn json_escaped(s: Seq<char>) -> Seq<char>
    decreases s.len(),
{
    if s.len() == 0 {
        Seq::empty()
    } else {
        json_escape_char(s[0]) + json_escaped(s.drop_first())
    }
}

/// A full JSON string: the escaped body between double quotes.
pub open spec fn json_quoted(s: Seq<char>) -> Seq<char> {
    seq!['"'] + json_escaped(s) + seq!['"']
}

/// Relies on serde_json::to_string for a string slice: it writes the slice
/// as a JSON string, quoted, escaping `"` and `\`, writing `\b`, `\t`,
/// `\n`, `\f`, `\r` for those control characters and `\u00XX` with
/// lowercase hex for the other ones. Writing a string slice cannot fail,
/// so the error arm is never taken.
#[verifier::external_body]
fn json_quote(s: &str) -> (r: String)
    ensures
        r@ == json_quoted(s@),
{
    match serde_json::to_string(s) {
        Ok(r) => r,
        Err(_) => String::new(),
    }
}

/// The request body naming one model, as the pull and delete endpoints
/// take it.
pub fn model_name_body(model: &str) -> (r: String)
    ensures
        r@ == "{\"name\":"@ + json_quoted(model@) + "}"@,
{
    let mut b = String::from_str("{\"name\":");
    let q = json_quote(model);
    b.append(q.as_str());
    b.append("}");
    b
}

/// The request body of a non-streaming generation call: the model, the
/// prompt, streaming off, and the two fixed sampling options — a low
/// temperature for conservative corrections and a cap on the output
/// length.
pub fn generate_request_body(model: &str, prompt: &str) -> (r: String)
    ensures
        r@ == "{\"model\":"@ + json_quoted(model@) + ",\"prompt\":"@ + json_quoted(prompt@)
            + ",\"stream\":false,\"options\":{\"temperature\":0.1,\"num_predict\":512}}"@,
{
    let mut b = String::from_str("{\"model\":");
    let qm = json_quote(model);
    b.append(qm.as_str());
    b.append(",\"prompt\":");
    let qp = json_quote(prompt);
    b.append(qp.as_str());
    b.append(",\"stream\":false,\"options\":{\"temperature\":0.1,\"num_predict\":512}}");
    b
}

/// What the generation endpoint's body holds: the text of its `response`
/// field, or nothing when the body is not JSON of that shape.
pub uninterp spec fn generate_reply_of(body: Seq<char>) -> Option<Seq<char>>;

/// Relies on serde_json (from_str, Value::get, Value::as_str): parses the
/// body as JSON and reads its string field `response`. The result depends
/// on the body text alone.
#[verifier::external_body]
fn parse_generate_body(body: &str) -> (r: Option<String>)
    ensures
        r matches Some(s) ==> generate_reply_of(body@) == Some(s@),
        r is None ==> generate_reply_of(body@) is None,
{
    let v: serde_json::Value = serde_json::from_str(body).ok()?;
    let s = v.get("response")?.as_str()?;
    Some(s.to_owned())
}

/// What a string looks like with its leading and trailing whitespace
/// removed.
pub uninterp spec fn trim_of(s: Seq<char>) -> Seq<char>;

/// Relies on str::trim: removes leading and trailing whitespace. The
/// result depends on the characters alone.
#[verifier::external_body]
fn trim_text(s: &str) -> (r: String)
    ensures
        r@ == trim_of(s@),
{
    s.trim().to_owned()
}

/// One row of the listing: a model's name, size and timestamp.
pub open spec fn model_row(m: OllamaModel) -> (Seq<char>, u64, Seq<char>) {
    (m.name@, m.size, m.modified_at@)
}

/// What the listing endpoint's body holds: the rows of its `models` array,
/// or nothing when the body is not JSON of that shape.
pub uninterp spec fn models_of(body: Seq<char>) -> Option<Seq<(Seq<char>, u64, Seq<char>)>>;

/// Relies on serde_json (from_str, Value::get, Value::as_array,
/// Value::as_str, Value::as_u64): parses the body as JSON shaped
/// `{"models":[{"name":..,"size":..,"modified_at":..},..]}`, each entry
/// mapped to one row. The result depends on the body text alone.
#[verifier::external_body]
fn parse_models_body(body: &str) -> (r: Option<Vec<OllamaModel>>)
    ensures
        r matches Some(v) ==> models_of(body@) == (Some(v@.map_values(|m: OllamaModel| model_row(m)))),
        r is None ==> models_of(body@) is None,
{
    let v: serde_json::Value = serde_json::from_str(body).ok()?;
    v.get("models")?.as_array()?.iter().map(|e| Some(OllamaModel {
        name: e.get("name")?.as_str()?.to_owned(),
        size: e.get("size")?.as_u64()?,
        modified_at: e.get("modified_at")?.as_str()?.to_owned(),
    })).collect()
}

/// Turn the outcome of a generation exchange into the call's result: a
/// passed deadline is a timeout, a failed send a transport error, a
/// non-success status a server error with that status, a body without the
/// expected shape a protocol error, and otherwise the reply's text with
/// leading and trailing whitespace removed.
pub fn interpret_generate_outcome(o: HttpOutcome) -> (r: Result<String, AiError>)
    ensures
        o is TimedOut ==> r == Err::<String, AiError>(AiError::Timeout),
        o is SendFailed ==> r == Err::<String, AiError>(AiError::Transport),
        o matches HttpOutcome::Response { status, body } ==> {
            if !is_success_status(status) {
                r == Err::<String, AiError>((AiError::Server { status }))
            } else {
                match generate_reply_of(body@) {
                    Some(t) => r matches Ok(s) && s@ == trim_of(t),
                    None => r == Err::<String, AiError>(AiError::Protocol),
                }
            }
        },
{
    match o {
        HttpOutcome::TimedOut => Err(AiError::Timeout),
        HttpOutcome::SendFailed => Err(AiError::Transport),
        HttpOutcome::Response { status, body } => {
            if !(200 <= status && status < 300) {
                Err(AiError::Server { status })
            } else {
                match parse_generate_body(body.as_str()) {
                    None => Err(AiError::Protocol),
                    Some(s) => Ok(trim_text(s.as_str())),
                }
            }
        },
    }
}

/// Turn the outcome of a listing exchange into the call's result: a
/// failure to exchange at all is a transport error, a body without the
/// expected shape a protocol error, and otherwise the rows as they came,
/// in the server's order.
pub fn interpret_list_outcome(o: HttpOutcome) -> (r: Result<Vec<OllamaModel>, AiError>)
    ensures
        o is TimedOut ==> r == Err::<Vec<OllamaModel>, AiError>(AiError::Transport),
        o is SendFailed ==> r == Err::<Vec<OllamaModel>, AiError>(AiError::Transport),
        o matches HttpOutcome::Response { status, body } ==> {
            match models_of(body@) {
                Some(rows) => r matches Ok(v) && v@.map_values(|m: OllamaModel| model_row(m)) == rows,
                None => r == Err::<Vec<OllamaModel>, AiError>(AiError::Protocol),
            }
        },
{
    match o {
        HttpOutcome::TimedOut => Err(AiError::Transport),
        HttpOutcome::SendFailed => Err(AiError::Transport),
        HttpOutcome::Response { status: _, body } => {
            match parse_models_body(body.as_str()) {
                None => Err(AiError::Protocol),
                Some(v) => Ok(v),
            }
        },
    }
}

/// Turn the outcome of an exchange whose body carries nothing — a delete,
/// or the opening of a pull stream — into the call's result: a failure to
/// exchange is a transport error, a non-success status a server error with
/// that status, and a success status is success.
pub fn interpret_status_outcome(o: HttpOutcome) -> (r: Result<(), AiError>)
    ensures
        o is TimedOut ==> r == Err::<(), AiError>(AiError::Transport),
        o is SendFailed ==> r == Err::<(), AiError>(AiError::Transport),
        o matches HttpOutcome::Response { status, body } ==> {
            if is_success_status(status) {
                r == Ok::<(), AiError>(())
            } else {
                r == Err::<(), AiError>((AiError::Server { status }))
            }
        },
{
    match o {
        HttpOutcome::TimedOut => Err(AiError::Transport),
        HttpOutcome::SendFailed => Err(AiError::Transport),
        HttpOutcome::Response { status, body: _ } => {
            if 200 <= status && status < 300 {
                Ok(())
            } else {
                Err(AiError::Server { status })
            }
        },
    }
}

} // verus!
