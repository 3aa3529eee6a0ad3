//! The wire protocol of the transcription backend: the body of a start
//! request and the reading of a stop reply.
use vstd::prelude::*;

verus! {

/// Language setting that asks the backend to detect the language itself.
pub open spec fn auto_language() -> Seq<char> {
    "auto"@
}

/// What a start request carries.
pub struct StartRequest {
    pub model_size: String,
    /// `None` selects automatic language detection.
    pub language: Option<String>,
    pub device: String,
    /// Index of the selected microphone; `None` uses the default one.
    pub device_index: Option<i32>,
}

/// Why a backend call brought no usable answer.
#[derive(PartialEq, Eq, Structural, Clone, Copy, Debug)]
pub enum BackendError {
    /// The request did not reach the backend, or its reply could not be read.
    Unreachable,
    /// The backend answered with a status outside 200..=299.
    Rejected(u16),
}

/// The transcript taken from a stop reply; `None` when the reply held none.
pub struct TranscriptionResult {
    pub text: Option<String>,
}

/// Whether an HTTP status code is a success (2xx).
pub fn is_success_status(code: u16) -> (r: bool)
    ensures
        r == (200 <= code && code <= 299),
{
    200 <= code && code <= 299
}

/// The start request for the given settings: the language "auto" becomes a
/// request for automatic detection.
pub open spec fn start_request_of(
    model: String,
    device: String,
    microphone: Option<i32>,
    language: String,
) -> StartRequest {
    StartRequest {
        model_size: model,
        language: if language@ == auto_language() { None } else { Some(language) },
        device: device,
        device_index: microphone,
    }
}

/// Builds a start request from the session's settings.
pub fn start_request(
    model: &String,
    device: &String,
    microphone: Option<i32>,
    language: &String,
) -> (r: StartRequest)
    ensures
        r == start_request_of(*model, *device, microphone, *language),
{
    let auto = String::from_str("auto");
    let lang = if *language == auto {
        None
    } else {
        Some(language.clone())
    };
    StartRequest {
        model_size: model.clone(),
        language: lang,
        device: device.clone(),
        device_index: microphone,
    }
}

/// The text of a JSON string literal holding `s`, as serde_json writes it.
pub uninterp spec fn json_quoted(s: Seq<char>) -> Seq<char>;

/// Relies on `serde_json::to_string` applied to a `str`, which writes the
/// JSON string literal for the text; serialising a `str` into memory does
/// not fail.
#[verifier::external_body]
fn quote_json(s: &str) -> (r: String)
    ensures
        r@ == json_quoted(s@),
{
    serde_json::to_string(s).unwrap_or_default()
}

/// The decimal digit character for `d`.
pub open spec fn digit_char(d: nat) -> char {
    if d == 0 { '0' }
    else if d == 1 { '1' }
    else if d == 2 { '2' }
    else if d == 3 { '3' }
    else if d == 4 { '4' }
    else if d == 5 { '5' }
    else if d == 6 { '6' }
    else if d == 7 { '7' }
    else if d == 8 { '8' }
    else { '9' }
}

/// Decimal digits of `n`, most significant first, without leading zeros.
pub open spec fn nat_digits(n: nat) -> Seq<char>
    decreases n,
{
    if n < 10 {
        seq![digit_char(n)]
    } else {
        nat_digits(n / 10).push(digit_char(n % 10))
    }
}

/// Decimal text of an integer, with a leading '-' when it is negative.
pub open spec fn decimal(n: int) -> Seq<char> {
    if n < 0 {
        seq!['-'] + nat_digits((-n) as nat)
    } else {
        nat_digits(n as nat)
    }
}

fn digit_text(d: u64) -> (r: &'static str)
    requires
        d < 10,
    ensures
        r@ == seq![digit_char(d as nat)],
{
    proof {
        reveal_strlit("0");
        reveal_strlit("1");
        reveal_strlit("2");
        reveal_strlit("3");
        reveal_strlit("4");
        reveal_strlit("5");
        reveal_strlit("6");
        reveal_strlit("7");
        reveal_strlit("8");
        reveal_strlit("9");
    }
    if d == 0 { "0" }
    else if d == 1 { "1" }
    else if d == 2 { "2" }
    else if d == 3 { "3" }
    else if d == 4 { "4" }
    else if d == 5 { "5" }
    else if d == 6 { "6" }
    else if d == 7 { "7" }
    else if d == 8 { "8" }
    else { "9" }
}

fn append_digits(out: &mut String, n: u64)
    ensures
        final(out)@ == old(out)@ + nat_digits(n as nat),
    decreases n,
{
    if n >= 10 {
        append_digits(out, n / 10);
    }
    out.append(digit_text(n % 10));
    assert(final(out)@ =~= old(out)@ + nat_digits(n as nat));
}

/// Appends the decimal text of `n` to `out`.
pub fn append_decimal(out: &mut String, n: i32)
    ensures
        final(out)@ == old(out)@ + decimal(n as int),
{
    if n < 0 {
        proof {
            reveal_strlit("-");
        }
        out.append("-");
        let m: u64 = (0i64 - n as i64) as u64;
        append_digits(out, m);
        assert(final(out)@ =~= old(out)@ + decimal(n as int));
    } else {
        append_digits(out, n as u64);
    }
}

/// A start request's JSON object around its already encoded members: the
/// language is `null` when absent, and `device_index` appears only when an
/// index is given.
pub open spec fn framed_start_body(
    model: Seq<char>,
    language: Option<Seq<char>>,
    device: Seq<char>,
    index: Option<i32>,
) -> Seq<char> {
    let language = match language {
        Some(l) => l,
        None => "null"@,
    };
    let index = match index {
        Some(i) => ",\"device_index\":"@ + decimal(i as int),
        None => Seq::empty(),
    };
    "{\"model_size\":"@ + model + ",\"language\":"@ + language + ",\"device\":"@ + device + index
        + "}"@
}

/// The JSON body of a start request.
pub open spec fn start_body_text(r: StartRequest) -> Seq<char> {
    framed_start_body(
        json_quoted(r.model_size@),
        match r.language {
            Some(l) => Some(json_quoted(l@)),
            None => None,
        },
        json_quoted(r.device@),
        r.device_index,
    )
}

/// Writes a start request's JSON object around members that are already
/// JSON string literals.
pub fn frame_start_body(model: &str, language: Option<&str>, device: &str, index: Option<i32>) -> (body: String)
    ensures
        body@ == framed_start_body(
            model@,
            match language {
                Some(l) => Some(l@),
                None => None,
            },
            device@,
            index,
        ),
{
    let mut body = String::from_str("{\"model_size\":");
    body.append(model);
    body.append(",\"language\":");
    match language {
        Some(l) => body.append(l),
        None => body.append("null"),
    }
    body.append(",\"device\":");
    body.append(device);
    match index {
        Some(i) => {
            body.append(",\"device_index\":");
            append_decimal(&mut body, i);
        },
        None => {},
    }
    body.append("}");
    body
}

/// Writes the JSON body of a start request.
pub fn start_body(r: &StartRequest) -> (body: String)
    ensures
        body@ == start_body_text(*r),
{
    let model = quote_json(r.model_size.as_str());
    let device = quote_json(r.device.as_str());
    match &r.language {
        Some(l) => {
            let language = quote_json(l.as_str());
            frame_start_body(model.as_str(), Some(language.as_str()), device.as_str(), r.device_index)
        },
        None => frame_start_body(model.as_str(), None, device.as_str(), r.device_index),
    }
}

/// The view of an optional string.
pub open spec fn opt_view(o: Option<String>) -> Option<Seq<char>> {
    match o {
        Some(s) => Some(s@),
        None => None,
    }
}

/// The string stored under `key` when `doc` is a JSON object that holds one
/// there, as serde_json reads it; `None` otherwise.
pub uninterp spec fn json_string_member(doc: Seq<char>, key: Seq<char>) -> Option<Seq<char>>;

/// Relies on `serde_json::from_str` into a `serde_json::Value`, then
/// `Value::get` and `Value::as_str`: the string member under `key`, if the
/// document is a JSON object holding one.
#[verifier::external_body]
fn string_member(doc: &str, key: &str) -> (r: Option<String>)
    ensures
        opt_view(r) == json_string_member(doc@, key@),
{
    match serde_json::from_str::<serde_json::Value>(doc) {
        Ok(v) => v.get(key).and_then(serde_json::Value::as_str).map(String::from),
        Err(_) => None,
    }
}

/// The transcript held by the body of a successful stop reply.
pub open spec fn reply_text(body: Seq<char>) -> Option<Seq<char>> {
    json_string_member(body, "text"@)
}

/// The error that a stop reply with this status gives, if any. A `None`
/// status is a transport failure.
pub open spec fn stop_error(status: Option<u16>) -> Option<BackendError> {
    match status {
        None => Some(BackendError::Unreachable),
        Some(c) => if 200 <= c && c <= 299 {
            None
        } else {
            Some(BackendError::Rejected(c))
        },
    }
}

/// Reads the reply to a stop request. `status` is `None` when the request
/// failed in transport; `body` is `None` when the reply's body could not be
/// read. A successful reply without a textual `text` member is no error: it
/// carries nothing to inject.
pub fn transcription_result(status: Option<u16>, body: Option<String>) -> (r: Result<
    TranscriptionResult,
    BackendError,
>)
    ensures
        match stop_error(status) {
            Some(e) => r == Err::<TranscriptionResult, BackendError>(e),
            None => r matches Ok(t) && opt_view(t.text) == match body {
                Some(b) => reply_text(b@),
                None => None,
            },
        },
{
    match status {
        None => Err(BackendError::Unreachable),
        Some(c) => {
            if !is_success_status(c) {
                Err(BackendError::Rejected(c))
            } else {
                match body {
                    Some(b) => Ok(TranscriptionResult { text: string_member(b.as_str(), "text") }),
                    None => Ok(TranscriptionResult { text: None }),
                }
            }
        },
    }
}

} // verus!
