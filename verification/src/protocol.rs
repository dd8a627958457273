//! The line protocol between the app and its privileged helper: one JSON
//! request per line, answered by one JSON response per line.
use vstd::prelude::*;
use crate::json::{JsonValue, JsonView, get, json_get};
use crate::text::{str_concat, owned};

verus! {

/// A request to the helper.
pub enum Request {
    /// Asks for the helper's version.
    Version,
    /// Asks whether the mihomo process the helper started is running.
    Status,
    /// Starts mihomo with the given binary, configuration text and working directory.
    Start { mihomo: String, config: String, workdir: String },
    /// Stops the mihomo process the helper started.
    Stop,
}

/// The helper's answer to one request.
pub struct Response {
    pub ok: bool,
    pub error: Option<String>,
    pub data: Option<JsonValue>,
}

/// The mathematical value of a `Response`.
pub struct ResponseView {
    pub ok: bool,
    pub error: Option<Seq<char>>,
    pub data: Option<JsonView>,
}

pub open spec fn opt_str_view(o: Option<String>) -> Option<Seq<char>> {
    match o {
        Some(s) => Some(s@),
        None => None,
    }
}

pub open spec fn opt_json_view(o: Option<JsonValue>) -> Option<JsonView> {
    match o {
        Some(j) => Some(j@),
        None => None,
    }
}

impl View for Response {
    type V = ResponseView;

    open spec fn view(&self) -> ResponseView {
        ResponseView { ok: self.ok, error: opt_str_view(self.error), data: opt_json_view(self.data) }
    }
}

impl Response {
    /// A success carrying `data`.
    pub fn ok(data: JsonValue) -> (r: Response)
        ensures
            r@ == (ResponseView { ok: true, error: None, data: Some(data@) }),
    {
        Response { ok: true, error: None, data: Some(data) }
    }

    /// A success without data.
    pub fn ok_empty() -> (r: Response)
        ensures
            r@ == (ResponseView { ok: true, error: None, data: None }),
    {
        Response { ok: true, error: None, data: None }
    }

    /// A failure with the message `msg`.
    pub fn err(msg: String) -> (r: Response)
        ensures
            r@ == (ResponseView { ok: false, error: Some(msg@), data: None }),
    {
        Response { ok: false, error: Some(msg), data: None }
    }
}

/// The version a `Version` reply carries: its `version` member when that
/// is a string, else the empty string.
pub open spec fn version_of(data: Option<JsonView>) -> Seq<char> {
    match data {
        Some(d) => match json_get(d, "version"@) {
            Some(JsonView::Str(s)) => s,
            _ => Seq::empty(),
        },
        None => Seq::empty(),
    }
}

/// Whether a `Status` reply says mihomo runs: its `running` member when
/// that is a boolean, else false.
pub open spec fn running_of(data: Option<JsonView>) -> bool {
    match data {
        Some(d) => match json_get(d, "running"@) {
            Some(JsonView::Bool(b)) => b,
            _ => false,
        },
        None => false,
    }
}

/// The version in the data of a `Version` reply.
pub fn reply_version(data: &Option<JsonValue>) -> (v: String)
    ensures
        v@ == version_of(opt_json_view(*data)),
{
    match data {
        Some(d) => match get(d, "version") {
            Some(JsonValue::Str(s)) => s.clone(),
            _ => String::new(),
        },
        None => String::new(),
    }
}

/// Whether the data of a `Status` reply says mihomo runs.
pub fn reply_running(data: &Option<JsonValue>) -> (b: bool)
    ensures
        b == running_of(opt_json_view(*data)),
{
    match data {
        Some(d) => match get(d, "running") {
            Some(JsonValue::Bool(b)) => *b,
            _ => false,
        },
        None => false,
    }
}

/// The `{:?}` rendering of a string (quoted, with escapes), as std writes it.
pub uninterp spec fn str_debug(s: Seq<char>) -> Seq<char>;

/// Renders `s` with std's `Debug` for `str` (`format!("{:?}", s)`). The
/// contract claims only that the text depends on the characters of `s`
/// alone; which characters std escapes, and how, is left unsaid.
#[verifier::external_body]
pub(crate) fn debug_str(s: &str) -> (r: String)
    ensures
        r@ == str_debug(s@),
{
    format!("{:?}", s)
}

/// The `{:?}` rendering of an optional string.
pub open spec fn opt_debug(o: Option<Seq<char>>) -> Seq<char> {
    match o {
        Some(s) => "Some("@ + str_debug(s) + ")"@,
        None => "None"@,
    }
}

/// The `{:?}` rendering of an optional string, as std writes it.
pub fn debug_option(o: &Option<String>) -> (r: String)
    ensures
        r@ == opt_debug(opt_str_view(*o)),
{
    match o {
        Some(s) => {
            let inner = debug_str(s.as_str());
            let head = str_concat("Some(", inner.as_str());
            str_concat(head.as_str(), ")")
        },
        None => owned("None"),
    }
}

/// A request line as sent: the serialized request followed by a newline.
pub fn frame(payload: Vec<u8>) -> (line: Vec<u8>)
    ensures
        line@ == payload@.push(10u8),
{
    let mut line = payload;
    line.push(10u8);
    line
}

} // verus!
