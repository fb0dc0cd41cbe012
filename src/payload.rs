use vstd::prelude::*;

verus! {

/// What a client learns of one printer: its display name and the system-level
/// identifier used to select it.
pub struct PrinterDescriptor {
    pub name: String,
    pub system_name: String,
}

/// The document carried by a `SUCCESS` or `FAILED` result.
pub enum Payload {
    PrinterList(Vec<PrinterDescriptor>),
    JobSubmitted,
    JobFailed,
    FetchFailed(String),
    InvalidPrinter(String),
    UnsupportedType,
    InvalidMessage,
}

/// The outcome of handling one inbound frame.
#[allow(non_camel_case_types)]
pub enum PrintResult {
    SUCCESS(Payload),
    FAILED(Payload),
    DISCONNECTED,
}

pub enum PayloadModel {
    PrinterList(Seq<(Seq<char>, Seq<char>)>),
    JobSubmitted,
    JobFailed,
    FetchFailed(Seq<char>),
    InvalidPrinter(Seq<char>),
    UnsupportedType,
    InvalidMessage,
}

pub enum ResultModel {
    Success(PayloadModel),
    Failure(PayloadModel),
    Disconnected,
}

pub open spec fn descriptor_model(d: PrinterDescriptor) -> (Seq<char>, Seq<char>) {
    (d.name@, d.system_name@)
}

impl View for Payload {
    type V = PayloadModel;

    open spec fn view(&self) -> PayloadModel {
        match self {
            Payload::PrinterList(ps) => PayloadModel::PrinterList(
                ps@.map_values(|d: PrinterDescriptor| descriptor_model(d)),
            ),
            Payload::JobSubmitted => PayloadModel::JobSubmitted,
            Payload::JobFailed => PayloadModel::JobFailed,
            Payload::FetchFailed(u) => PayloadModel::FetchFailed(u@),
            Payload::InvalidPrinter(n) => PayloadModel::InvalidPrinter(n@),
            Payload::UnsupportedType => PayloadModel::UnsupportedType,
            Payload::InvalidMessage => PayloadModel::InvalidMessage,
        }
    }
}

impl View for PrintResult {
    type V = ResultModel;

    open spec fn view(&self) -> ResultModel {
        match self {
            PrintResult::SUCCESS(p) => ResultModel::Success(p@),
            PrintResult::FAILED(p) => ResultModel::Failure(p@),
            PrintResult::DISCONNECTED => ResultModel::Disconnected,
        }
    }
}

/// The JSON string literal that serde_json writes for a text: quotes around it
/// and its special characters escaped.
pub uninterp spec fn json_quoted(s: Seq<char>) -> Seq<char>;

/// Relies on serde_json::to_string on a `str`: it writes the JSON string
/// literal of the text, which depends on the text alone (serialising a `str`
/// cannot fail).
#[verifier::external_body]
fn quote(s: &str) -> (r: String)
    ensures
        r@ == json_quoted(s@),
{
    match serde_json::to_string(s) {
        Ok(t) => t,
        Err(_) => String::new(),
    }
}

/// The JSON object for one printer of a listing.
pub open spec fn entry_text(d: (Seq<char>, Seq<char>)) -> Seq<char> {
    "{\"name\":"@ + json_quoted(d.0) + ",\"system_name\":"@ + json_quoted(d.1) + "}"@
}

/// The entries of a listing, separated by commas.
pub open spec fn entries_text(ps: Seq<(Seq<char>, Seq<char>)>) -> Seq<char>
    decreases ps.len(),
{
    if ps.len() == 0 {
        Seq::empty()
    } else if ps.len() == 1 {
        entry_text(ps[0])
    } else {
        entries_text(ps.drop_last()) + ","@ + entry_text(ps.last())
    }
}

/// An error document: a message, and the offending value where there is one.
pub open spec fn error_text(message: Seq<char>, value: Option<Seq<char>>) -> Seq<char> {
    match value {
        Some(v) => "{\"error\":{\"message\":"@ + message + ",\"value\":"@ + json_quoted(v) + "}}"@,
        None => "{\"error\":{\"message\":"@ + message + "}}"@,
    }
}

/// The JSON text sent to a client for a payload.
pub open spec fn payload_text(p: PayloadModel) -> Seq<char> {
    match p {
        PayloadModel::PrinterList(ps) => "["@ + entries_text(ps) + "]"@,
        PayloadModel::JobSubmitted =>
            "{\"message\":\"Print job submitted successfully\",\"status\":\"success\",\"type\":\"submit print job\"}"@,
        PayloadModel::JobFailed =>
            "{\"message\":\"Print job failed\",\"status\":\"failure\",\"type\":\"submit print job\"}"@,
        PayloadModel::FetchFailed(u) => error_text("\"Failed to fetch URL\""@, Some(u)),
        PayloadModel::InvalidPrinter(n) => error_text("\"Invalid printer name provided\""@, Some(n)),
        PayloadModel::UnsupportedType => error_text("\"Unsupported message type\""@, None),
        PayloadModel::InvalidMessage => error_text("\"Invalid message\""@, None),
    }
}

fn entry_json(d: &PrinterDescriptor) -> (r: String)
    ensures
        r@ == entry_text(descriptor_model(*d)),
{
    let mut s = String::from_str("{\"name\":");
    s.append(quote(d.name.as_str()).as_str());
    s.append(",\"system_name\":");
    s.append(quote(d.system_name.as_str()).as_str());
    s.append("}");
    s
}

fn error_json(message: &str, value: Option<&String>) -> (r: String)
    ensures
        r@ == error_text(message@, match value { Some(v) => Some(v@), None => None }),
{
    let mut s = String::from_str("{\"error\":{\"message\":");
    s.append(message);
    match value {
        Some(v) => {
            s.append(",\"value\":");
            s.append(quote(v.as_str()).as_str());
        },
        None => {},
    }
    s.append("}}");
    s
}

impl Payload {
    /// The JSON text of this payload.
    pub fn to_json(&self) -> (r: String)
        ensures
            r@ == payload_text(self@),
    {
        match self {
            Payload::PrinterList(ps) => {
                let ghost m = ps@.map_values(|d: PrinterDescriptor| descriptor_model(d));
                let mut s = String::from_str("[");
                let mut i: usize = 0;
                while i < ps.len()
                    invariant
                        i <= ps@.len(),
                        m == ps@.map_values(|d: PrinterDescriptor| descriptor_model(d)),
                        s@ == "["@ + entries_text(m.take(i as int)),
                    decreases ps@.len() - i,
                {
                    let e = entry_json(&ps[i]);
                    proof {
                        assert(m.take(i as int + 1).drop_last() =~= m.take(i as int));
                        assert(m.take(i as int + 1).last() == descriptor_model(ps@[i as int]));
                    }
                    if i > 0 {
                        s.append(",");
                    }
                    s.append(e.as_str());
                    proof {
                        reveal_strlit("[");
                        if i == 0 {
                            assert(m.take(0) =~= Seq::<(Seq<char>, Seq<char>)>::empty());
                            assert(entries_text(m.take(1)) == entry_text(m[0]));
                        }
                        assert(s@ =~= "["@ + entries_text(m.take(i as int + 1)));
                    }
                    i = i + 1;
                }
                s.append("]");
                proof {
                    assert(m.take(ps@.len() as int) =~= m);
                }
                s
            },
            Payload::JobSubmitted => String::from_str(
                "{\"message\":\"Print job submitted successfully\",\"status\":\"success\",\"type\":\"submit print job\"}",
            ),
            Payload::JobFailed => String::from_str(
                "{\"message\":\"Print job failed\",\"status\":\"failure\",\"type\":\"submit print job\"}",
            ),
            Payload::FetchFailed(u) => error_json("\"Failed to fetch URL\"", Some(u)),
            Payload::InvalidPrinter(n) => error_json("\"Invalid printer name provided\"", Some(n)),
            Payload::UnsupportedType => error_json("\"Unsupported message type\"", None),
            Payload::InvalidMessage => error_json("\"Invalid message\"", None),
        }
    }
}

} // verus!
