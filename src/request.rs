use vstd::prelude::*;
use vstd::utf8::{valid_utf8, decode_utf8};

verus! {

/// One frame delivered by the transport.
pub enum Frame {
    Text(String),
    Binary(Vec<u8>),
    Close,
    Other,
}

/// A submit request, read from the `data` object of a message.
pub struct JobRequest {
    pub printer_name: String,
    pub contents: String,
    pub url: Option<String>,
    pub file_name: String,
}

/// What an inbound message asks for.
pub enum Request {
    ListPrinters,
    SubmitJob(JobRequest),
    Unsupported,
    Malformed,
}

/// What the session does with one inbound frame.
pub enum Incoming {
    Request(Request),
    Disconnect,
}

/// The fields of a message that routing reads, each present only where the
/// document holds a string there.
pub struct RawMessage {
    pub kind: Option<String>,
    pub printer_name: Option<String>,
    pub contents: Option<String>,
    pub url: Option<String>,
    pub file_name: Option<String>,
}

pub struct JobRequestModel {
    pub printer_name: Seq<char>,
    pub contents: Seq<char>,
    pub url: Option<Seq<char>>,
    pub file_name: Seq<char>,
}

pub enum RequestModel {
    ListPrinters,
    SubmitJob(JobRequestModel),
    Unsupported,
    Malformed,
}

pub enum IncomingModel {
    Request(RequestModel),
    Disconnect,
}

pub struct RawModel {
    pub kind: Option<Seq<char>>,
    pub printer_name: Option<Seq<char>>,
    pub contents: Option<Seq<char>>,
    pub url: Option<Seq<char>>,
    pub file_name: Option<Seq<char>>,
}

pub open spec fn opt_view(o: Option<String>) -> Option<Seq<char>> {
    match o {
        Some(s) => Some(s@),
        None => None,
    }
}

pub open spec fn or_empty(o: Option<Seq<char>>) -> Seq<char> {
    match o {
        Some(s) => s,
        None => Seq::empty(),
    }
}

impl View for JobRequest {
    type V = JobRequestModel;

    open spec fn view(&self) -> JobRequestModel {
        JobRequestModel {
            printer_name: self.printer_name@,
            contents: self.contents@,
            url: opt_view(self.url),
            file_name: self.file_name@,
        }
    }
}

impl View for Request {
    type V = RequestModel;

    open spec fn view(&self) -> RequestModel {
        match self {
            Request::ListPrinters => RequestModel::ListPrinters,
            Request::SubmitJob(j) => RequestModel::SubmitJob(j@),
            Request::Unsupported => RequestModel::Unsupported,
            Request::Malformed => RequestModel::Malformed,
        }
    }
}

impl View for Incoming {
    type V = IncomingModel;

    open spec fn view(&self) -> IncomingModel {
        match self {
            Incoming::Request(r) => IncomingModel::Request(r@),
            Incoming::Disconnect => IncomingModel::Disconnect,
        }
    }
}

impl View for RawMessage {
    type V = RawModel;

    open spec fn view(&self) -> RawModel {
        RawModel {
            kind: opt_view(self.kind),
            printer_name: opt_view(self.printer_name),
            contents: opt_view(self.contents),
            url: opt_view(self.url),
            file_name: opt_view(self.file_name),
        }
    }
}

/// The `type` that asks for the printer listing.
pub open spec fn list_kind() -> Seq<char> {
    "list printers"@
}

/// The `type` that asks for a print job.
pub open spec fn submit_kind() -> Seq<char> {
    "submit print job"@
}

/// Routing on the message's `type`; absent text fields of a job read as empty.
pub open spec fn route_spec(m: RawModel) -> RequestModel {
    if m.kind == Some(list_kind()) {
        RequestModel::ListPrinters
    } else if m.kind == Some(submit_kind()) {
        RequestModel::SubmitJob(
            JobRequestModel {
                printer_name: or_empty(m.printer_name),
                contents: or_empty(m.contents),
                url: m.url,
                file_name: or_empty(m.file_name),
            },
        )
    } else {
        RequestModel::Unsupported
    }
}

/// Whether a text is one well-formed JSON document, as serde_json reads it.
pub uninterp spec fn is_json_document(text: Seq<char>) -> bool;

/// What a text may route to: a malformed document routes nowhere, a
/// well-formed one as the fields found in it say.
pub open spec fn request_of_text(text: Seq<char>, r: RequestModel) -> bool {
    if is_json_document(text) {
        exists|m: RawModel| #[trigger] route_spec(m) == r
    } else {
        r == RequestModel::Malformed
    }
}

/// serde_json's document type, carried through opaque.
#[verifier::external_type_specification]
#[verifier::external_body]
pub struct ExValue(serde_json::Value);

/// Relies on serde_json::from_str into a `Value`: it succeeds exactly on a
/// well-formed JSON document, which depends on the text alone.
#[verifier::external_body]
fn parse_document(text: &str) -> (r: Option<serde_json::Value>)
    ensures
        r.is_some() == is_json_document(text@),
{
    serde_json::from_str::<serde_json::Value>(text).ok()
}

/// Relies on serde_json::Value::pointer: the value that a JSON pointer reaches.
pub assume_specification<'a>[ serde_json::Value::pointer ](
    v: &'a serde_json::Value,
    pointer: &str,
) -> Option<&'a serde_json::Value>;

/// Relies on serde_json::Value::as_str: the text of a string value.
pub assume_specification[ serde_json::Value::as_str ](v: &serde_json::Value) -> Option<&str>;

/// Relies on String::from_utf8: it accepts exactly the valid UTF-8 byte
/// strings and keeps their text.
#[verifier::external_body]
fn text_from_bytes(bytes: Vec<u8>) -> (r: Option<String>)
    ensures
        match r {
            Some(t) => valid_utf8(bytes@) && t@ == decode_utf8(bytes@),
            None => !valid_utf8(bytes@),
        },
{
    String::from_utf8(bytes).ok()
}

fn text_at(doc: &serde_json::Value, pointer: &str) -> Option<String> {
    match doc.pointer(pointer) {
        Some(v) => match v.as_str() {
            Some(s) => Some(s.to_owned()),
            None => None,
        },
        None => None,
    }
}

fn string_or_empty(o: &Option<String>) -> (r: String)
    ensures
        r@ == or_empty(opt_view(*o)),
{
    match o {
        Some(s) => s.clone(),
        None => String::new(),
    }
}

/// Reads the routing fields out of a message text: `type` at the top level,
/// the job's fields under `data`. `None` when the text is no JSON document.
pub fn read_message(text: &str) -> (r: Option<RawMessage>)
    ensures
        r.is_some() == is_json_document(text@),
{
    match parse_document(text) {
        Some(doc) => Some(
            RawMessage {
                kind: text_at(&doc, "/type"),
                printer_name: text_at(&doc, "/data/printer_name"),
                contents: text_at(&doc, "/data/contents"),
                url: text_at(&doc, "/data/url"),
                file_name: text_at(&doc, "/data/file_name"),
            },
        ),
        None => None,
    }
}

/// Dispatches on the message's `type`.
pub fn route(m: &RawMessage) -> (r: Request)
    ensures
        r@ == route_spec(m@),
{
    let list = String::from_str("list printers");
    let submit = String::from_str("submit print job");
    match &m.kind {
        Some(k) => {
            if *k == list {
                Request::ListPrinters
            } else if *k == submit {
                Request::SubmitJob(
                    JobRequest {
                        printer_name: string_or_empty(&m.printer_name),
                        contents: string_or_empty(&m.contents),
                        url: match &m.url {
                            Some(u) => Some(u.clone()),
                            None => None,
                        },
                        file_name: string_or_empty(&m.file_name),
                    },
                )
            } else {
                Request::Unsupported
            }
        },
        None => Request::Unsupported,
    }
}

/// Parses and routes one message text; a text that is no JSON document is
/// `Malformed`.
pub fn parse_request(text: &str) -> (r: Request)
    ensures
        request_of_text(text@, r@),
        !is_json_document(text@) <==> r@ == RequestModel::Malformed,
{
    match read_message(text) {
        Some(m) => {
            let r = route(&m);
            assert(route_spec(m@) == r@);
            r
        },
        None => Request::Malformed,
    }
}

/// Classifies one inbound frame: text and binary frames carry a message (a
/// binary frame that is no UTF-8 text is `Malformed`), a close frame and any
/// other control frame end the session.
pub fn handle_message(frame: Frame) -> (r: Incoming)
    ensures
        match frame {
            Frame::Text(t) => r@ matches IncomingModel::Request(q) && request_of_text(t@, q),
            Frame::Binary(b) => r@ matches IncomingModel::Request(q) && if valid_utf8(b@) {
                request_of_text(decode_utf8(b@), q)
            } else {
                q == RequestModel::Malformed
            },
            Frame::Close => r@ == IncomingModel::Disconnect,
            Frame::Other => r@ == IncomingModel::Disconnect,
        },
{
    match frame {
        Frame::Text(t) => Incoming::Request(parse_request(t.as_str())),
        Frame::Binary(b) => match text_from_bytes(b) {
            Some(t) => Incoming::Request(parse_request(t.as_str())),
            None => Incoming::Request(Request::Malformed),
        },
        Frame::Close => Incoming::Disconnect,
        Frame::Other => Incoming::Disconnect,
    }
}

} // verus!
