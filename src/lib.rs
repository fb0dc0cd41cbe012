//! Protocol engine of a small print bridge: clients send JSON requests over a
//! framed duplex socket, the engine routes them, drives print-job submission
//! and keeps each session alive with periodic liveness frames.
pub mod payload;
pub mod request;
pub mod resolver;
pub mod job;
pub mod session;

pub use payload::{PrintResult, Payload, PrinterDescriptor};
pub use request::{Frame, Incoming, JobRequest, RawMessage, Request, handle_message, parse_request, read_message, route};
pub use resolver::url_file_name;
pub use job::{Job, JobAction, JobEvent, JobPhase};
pub use session::{Session, SessionAction, SessionEvent, printer_list_result};
