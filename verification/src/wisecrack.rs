//! The joke/quote tool's decision core: given the transport outcome of a
//! fetch — a status code and body, or a transport error — decide what data,
//! error message and response code the tool reports.  The transport itself
//! lives with the program around the library; every decision here is made on
//! plain values.

use vstd::prelude::*;

use crate::json::{get_string_field, get_u16_field, parse_json_document};
use crate::text::{decimal_string, spec_decimal};
use vstd::string::StringExecFns;

verus! {

/// The joke/quote tool's arguments after parsing: exactly one of quote or
/// joke, and an optional output format, text by default.
pub struct WiseCrackCli {
    pub quote: bool,
    pub joke: bool,
    pub output: Option<OutputFormat>,
}

/// How the result is printed.
#[derive(Clone, Debug)]
pub enum OutputFormat {
    Text,
    Json,
}

/// What a fetch came to: the text carried on success, the message carried
/// on failure, and the response code reported.  Exactly one of `data` and
/// `error_message` is set.
#[derive(Clone)]
pub struct Data {
    pub data: Option<String>,
    pub error_message: Option<String>,
    pub response_code: u16,
}

impl Data {
    pub fn new(data: Option<String>, error_message: Option<String>, response_code: u16) -> (r:
        Data)
        ensures
            r.data == data,
            r.error_message == error_message,
            r.response_code == response_code,
    {
        Data { data, error_message, response_code }
    }
}

/// The code reported when the failure carries no code of its own: a
/// transport error, or a body that cannot be read.
pub const FALLBACK_ERROR_CODE: u16 = 500;

/// Whether an HTTP status code counts as success.
pub open spec fn spec_is_success(status: u16) -> bool {
    200 <= status < 300
}

/// The message reported for a failing response: the code, then the body.
pub open spec fn spec_http_error_text(status: u16, body: Seq<char>) -> Seq<char> {
    "HTTP error "@ + spec_decimal(status as nat) + ": "@ + body
}

/// The outcome when the transport itself failed before any response came.
pub fn transport_error_data(message: String) -> (r: Data)
    ensures
        r.data is None,
        r.error_message == Some(message),
        r.response_code == FALLBACK_ERROR_CODE,
{
    Data { data: None, error_message: Some(message), response_code: FALLBACK_ERROR_CODE }
}

/// The message for a failing response.
fn http_error_text(status: u16, body: &str) -> (r: String)
    ensures
        r@ == spec_http_error_text(status, body@),
{
    let mut out = "HTTP error ".to_owned();
    let code = decimal_string(status);
    out.append(code.as_str());
    out.append(": ");
    out.append(body);
    proof {
        assert(out@ =~= spec_http_error_text(status, body@));
    }
    out
}

/// The outcome of a joke fetch that got a response.  A failing status
/// reports the code and body; a successful one is read as a joke document,
/// whose own status field is the code reported.  A body that is no such
/// document reports its parse problem under the fallback code.
pub fn joke_from_response(status: u16, body: String) -> (r: Data)
    ensures
        !spec_is_success(status) ==> r.data is None && r.response_code == status && (
        r.error_message matches Some(m) && m@ == spec_http_error_text(status, body@)),
        (r.data is Some) <==> (r.error_message is None),
        spec_is_success(status) && r.error_message is Some ==> r.response_code
            == FALLBACK_ERROR_CODE,
{
    if !(200 <= status && status < 300) {
        let message = http_error_text(status, body.as_str());
        return Data { data: None, error_message: Some(message), response_code: status };
    }
    let doc = match parse_json_document(body.as_str()) {
        Ok(d) => d,
        Err(e) => {
            return Data {
                data: None,
                error_message: Some(e),
                response_code: FALLBACK_ERROR_CODE,
            };
        },
    };
    let joke = match get_string_field(&doc, "joke") {
        Some(j) => j,
        None => {
            return Data {
                data: None,
                error_message: Some("Joke response is missing its joke".to_owned()),
                response_code: FALLBACK_ERROR_CODE,
            };
        },
    };
    let joke_status = match get_u16_field(&doc, "status") {
        Some(s) => s,
        None => {
            return Data {
                data: None,
                error_message: Some("Joke response is missing its status".to_owned()),
                response_code: FALLBACK_ERROR_CODE,
            };
        },
    };
    Data { data: Some(joke), error_message: None, response_code: joke_status }
}

/// The outcome of a quote fetch that got a response.  A failing status
/// reports the code and body; a successful one is read as a list of quote
/// documents whose first entry's text is the data, under the response's own
/// code.  A body that is no such list, or an empty one, reports the problem
/// under the fallback code.
pub fn quote_from_response(status: u16, body: String) -> (r: Data)
    ensures
        !spec_is_success(status) ==> r.data is None && r.response_code == status && (
        r.error_message matches Some(m) && m@ == spec_http_error_text(status, body@)),
        (r.data is Some) <==> (r.error_message is None),
        spec_is_success(status) && r.error_message is Some ==> r.response_code
            == FALLBACK_ERROR_CODE,
        spec_is_success(status) && r.data is Some ==> r.response_code == status,
{
    if !(200 <= status && status < 300) {
        let message = http_error_text(status, body.as_str());
        return Data { data: None, error_message: Some(message), response_code: status };
    }
    let doc = match parse_json_document(body.as_str()) {
        Ok(d) => d,
        Err(e) => {
            return Data {
                data: None,
                error_message: Some(e),
                response_code: FALLBACK_ERROR_CODE,
            };
        },
    };
    let quotes = match doc.as_array() {
        Some(a) => a,
        None => {
            return Data {
                data: None,
                error_message: Some("Quote response is not a list".to_owned()),
                response_code: FALLBACK_ERROR_CODE,
            };
        },
    };
    let mut quote_text: Option<String> = None;
    let mut i: usize = 0;
    while i < quotes.len()
        invariant
            i <= quotes@.len(),
            spec_is_success(status),
            quote_text is Some ==> i > 0,
        decreases quotes@.len() - i,
    {
        match get_string_field(&quotes[i], "q") {
            Some(q) => {
                if i == 0 {
                    quote_text = Some(q);
                }
            },
            None => {
                return Data {
                    data: None,
                    error_message: Some("Quote response entry is missing its text".to_owned()),
                    response_code: FALLBACK_ERROR_CODE,
                };
            },
        }
        i += 1;
    }
    match quote_text {
        Some(q) => Data { data: Some(q), error_message: None, response_code: status },
        None => Data {
            data: None,
            error_message: Some("Quote response holds no quotes".to_owned()),
            response_code: FALLBACK_ERROR_CODE,
        },
    }
}

/// The line the tool prints for an outcome: the error message when there is
/// one, else the data.  An outcome carrying neither is not printable.
pub fn printer_message(data: &Data) -> (r: String)
    requires
        data.error_message is Some || data.data is Some,
    ensures
        data.error_message matches Some(m) ==> r@ == m@,
        data.error_message is None ==> (data.data matches Some(d) ==> r@ == d@),
{
    match &data.error_message {
        Some(error_msg) => error_msg.clone(),
        None => match &data.data {
            Some(d) => d.clone(),
            None => {
                proof {
                    assert(false);
                }
                String::new()
            },
        },
    }
}

} // verus!
