use vstd::prelude::*;
use crate::payload::{Payload, PayloadModel, PrintResult, PrinterDescriptor, ResultModel, descriptor_model, entries_text, payload_text};
use crate::request::{Incoming, IncomingModel, JobRequest, JobRequestModel, Request, RequestModel};

verus! {

/// The state of one client connection: open until a close frame, a transport
/// failure, or the end of the stream.
pub struct Session {
    open: bool,
}

/// What happened on a connection.
pub enum SessionEvent {
    Received(Incoming),
    Tick,
    Answered(PrintResult),
    ReadFailed,
    StreamEnded,
    SendFailed,
}

/// What the connection's driver does next.
pub enum SessionAction {
    Send(String),
    ListPrinters,
    RunJob(JobRequest),
    End,
    Nothing,
}

pub enum SessionEventModel {
    Received(IncomingModel),
    Tick,
    Answered(ResultModel),
    ReadFailed,
    StreamEnded,
    SendFailed,
}

pub enum SessionActionModel {
    Send(Seq<char>),
    ListPrinters,
    RunJob(JobRequestModel),
    End,
    Nothing,
}

impl View for SessionEvent {
    type V = SessionEventModel;

    open spec fn view(&self) -> SessionEventModel {
        match self {
            SessionEvent::Received(i) => SessionEventModel::Received(i@),
            SessionEvent::Tick => SessionEventModel::Tick,
            SessionEvent::Answered(r) => SessionEventModel::Answered(r@),
            SessionEvent::ReadFailed => SessionEventModel::ReadFailed,
            SessionEvent::StreamEnded => SessionEventModel::StreamEnded,
            SessionEvent::SendFailed => SessionEventModel::SendFailed,
        }
    }
}

impl View for SessionAction {
    type V = SessionActionModel;

    open spec fn view(&self) -> SessionActionModel {
        match self {
            SessionAction::Send(t) => SessionActionModel::Send(t@),
            SessionAction::ListPrinters => SessionActionModel::ListPrinters,
            SessionAction::RunJob(j) => SessionActionModel::RunJob(j@),
            SessionAction::End => SessionActionModel::End,
            SessionAction::Nothing => SessionActionModel::Nothing,
        }
    }
}

impl View for Session {
    type V = bool;

    closed spec fn view(&self) -> bool {
        self.open
    }
}

/// The liveness frame.
pub open spec fn ping_text() -> Seq<char> {
    "ping"@
}

/// One step of a session: whether it stays open, and what it does.
pub open spec fn session_step_spec(open: bool, ev: SessionEventModel) -> (bool, SessionActionModel) {
    if !open {
        (false, SessionActionModel::Nothing)
    } else {
        match ev {
            SessionEventModel::Tick => (true, SessionActionModel::Send(ping_text())),
            SessionEventModel::Received(IncomingModel::Disconnect) => (false, SessionActionModel::End),
            SessionEventModel::Received(IncomingModel::Request(r)) => match r {
                RequestModel::ListPrinters => (true, SessionActionModel::ListPrinters),
                RequestModel::SubmitJob(j) => (true, SessionActionModel::RunJob(j)),
                RequestModel::Unsupported => (
                    true,
                    SessionActionModel::Send(payload_text(PayloadModel::UnsupportedType)),
                ),
                RequestModel::Malformed => (
                    true,
                    SessionActionModel::Send(payload_text(PayloadModel::InvalidMessage)),
                ),
            },
            SessionEventModel::Answered(ResultModel::Success(p)) => (true, SessionActionModel::Send(payload_text(p))),
            SessionEventModel::Answered(ResultModel::Failure(p)) => (true, SessionActionModel::Send(payload_text(p))),
            SessionEventModel::Answered(ResultModel::Disconnected) => (false, SessionActionModel::End),
            SessionEventModel::ReadFailed => (false, SessionActionModel::End),
            SessionEventModel::StreamEnded => (false, SessionActionModel::End),
            SessionEventModel::SendFailed => (false, SessionActionModel::End),
        }
    }
}

/// A run of events from a state: the final state, and the actions taken,
/// leaving out the steps that do nothing.
pub open spec fn run(open: bool, evs: Seq<SessionEventModel>) -> (bool, Seq<SessionActionModel>)
    decreases evs.len(),
{
    if evs.len() == 0 {
        (open, Seq::empty())
    } else {
        let (next, action) = session_step_spec(open, evs[0]);
        let rest = run(next, evs.drop_first());
        if action == SessionActionModel::Nothing {
            rest
        } else {
            (rest.0, seq![action] + rest.1)
        }
    }
}

/// The listing result for the printers that were enumerated, in their order.
pub fn printer_list_result(printers: Vec<PrinterDescriptor>) -> (r: PrintResult)
    ensures
        r@ == ResultModel::Success(
            PayloadModel::PrinterList(printers@.map_values(|d: PrinterDescriptor| descriptor_model(d))),
        ),
{
    PrintResult::SUCCESS(Payload::PrinterList(printers))
}

impl Session {
    /// A session on a connection that was just accepted.
    pub fn new() -> (r: Session)
        ensures
            r@,
    {
        Session { open: true }
    }

    pub fn is_open(&self) -> (r: bool)
        ensures
            r == self@,
    {
        self.open
    }

    /// Handles one event on the connection.
    pub fn step(&mut self, ev: SessionEvent) -> (r: SessionAction)
        ensures
            (final(self)@, r@) == session_step_spec(old(self)@, ev@),
    {
        if !self.open {
            return SessionAction::Nothing;
        }
        match ev {
            SessionEvent::Tick => SessionAction::Send(String::from_str("ping")),
            SessionEvent::Received(Incoming::Disconnect) => {
                self.open = false;
                SessionAction::End
            },
            SessionEvent::Received(Incoming::Request(r)) => match r {
                Request::ListPrinters => SessionAction::ListPrinters,
                Request::SubmitJob(j) => SessionAction::RunJob(j),
                Request::Unsupported => SessionAction::Send(Payload::UnsupportedType.to_json()),
                Request::Malformed => SessionAction::Send(Payload::InvalidMessage.to_json()),
            },
            SessionEvent::Answered(PrintResult::SUCCESS(p)) => SessionAction::Send(p.to_json()),
            SessionEvent::Answered(PrintResult::FAILED(p)) => SessionAction::Send(p.to_json()),
            SessionEvent::Answered(PrintResult::DISCONNECTED) => {
                self.open = false;
                SessionAction::End
            },
            SessionEvent::ReadFailed | SessionEvent::StreamEnded | SessionEvent::SendFailed => {
                self.open = false;
                SessionAction::End
            },
        }
    }
}

/// A closed session does nothing, whatever happens on it.
pub proof fn lemma_closed_is_silent(evs: Seq<SessionEventModel>)
    ensures
        run(false, evs) == (false, Seq::<SessionActionModel>::empty()),
    decreases evs.len(),
{
    if evs.len() > 0 {
        lemma_closed_is_silent(evs.drop_first());
    }
}

/// With no inbound traffic an open session sends one liveness frame per
/// tick, and stays open.
pub proof fn lemma_keepalive(n: nat)
    ensures
        run(true, Seq::new(n, |i: int| SessionEventModel::Tick)) == (
            true,
            Seq::new(n, |i: int| SessionActionModel::Send(ping_text())),
        ),
    decreases n,
{
    let evs = Seq::new(n, |i: int| SessionEventModel::Tick);
    if n > 0 {
        lemma_keepalive((n - 1) as nat);
        assert(evs.drop_first() =~= Seq::new((n - 1) as nat, |i: int| SessionEventModel::Tick));
        assert(seq![SessionActionModel::Send(ping_text())] + Seq::new(
            (n - 1) as nat,
            |i: int| SessionActionModel::Send(ping_text()),
        ) =~= Seq::new(n, |i: int| SessionActionModel::Send(ping_text())));
    } else {
        assert(Seq::new(n, |i: int| SessionActionModel::Send(ping_text())) =~= Seq::empty());
    }
}

/// A close frame ends the session at once, and nothing is sent afterwards.
pub proof fn lemma_close_ends_session(evs: Seq<SessionEventModel>)
    ensures
        run(true, seq![SessionEventModel::Received(IncomingModel::Disconnect)] + evs) == (
            false,
            seq![SessionActionModel::End],
        ),
{
    let all = seq![SessionEventModel::Received(IncomingModel::Disconnect)] + evs;
    assert(all.drop_first() =~= evs);
    lemma_closed_is_silent(evs);
    assert(seq![SessionActionModel::End] + Seq::<SessionActionModel>::empty() =~= seq![
        SessionActionModel::End,
    ]);
}

/// A message of an unsupported type is answered with a failure, and the
/// session goes on as if it had not come.
pub proof fn lemma_unsupported_keeps_session(evs: Seq<SessionEventModel>)
    ensures
        run(true, seq![SessionEventModel::Received(IncomingModel::Request(RequestModel::Unsupported))] + evs)
            == (run(true, evs).0, seq![SessionActionModel::Send(payload_text(PayloadModel::UnsupportedType))]
            + run(true, evs).1),
{
    let all = seq![SessionEventModel::Received(IncomingModel::Request(RequestModel::Unsupported))] + evs;
    assert(all.drop_first() =~= evs);
}

/// A listing request asks for the enumeration; its answer is sent as a JSON
/// array with one object per printer, in the enumeration's order, and the
/// session stays open.
pub proof fn lemma_listing_reply(ps: Seq<(Seq<char>, Seq<char>)>)
    ensures
        session_step_spec(true, SessionEventModel::Received(IncomingModel::Request(RequestModel::ListPrinters)))
            == (true, SessionActionModel::ListPrinters),
        session_step_spec(true, SessionEventModel::Answered(ResultModel::Success(PayloadModel::PrinterList(ps))))
            == (true, SessionActionModel::Send("["@ + entries_text(ps) + "]"@)),
{
}

/// Two identical listing requests over the same enumeration are answered
/// with identical frames.
pub proof fn lemma_listing_idempotent(ps: Seq<(Seq<char>, Seq<char>)>)
    ensures
        ({
            let once = seq![
                SessionEventModel::Received(IncomingModel::Request(RequestModel::ListPrinters)),
                SessionEventModel::Answered(ResultModel::Success(PayloadModel::PrinterList(ps))),
            ];
            let acts = seq![
                SessionActionModel::ListPrinters,
                SessionActionModel::Send(payload_text(PayloadModel::PrinterList(ps))),
            ];
            run(true, once + once) == (true, acts + acts)
        }),
{
    let once = seq![
        SessionEventModel::Received(IncomingModel::Request(RequestModel::ListPrinters)),
        SessionEventModel::Answered(ResultModel::Success(PayloadModel::PrinterList(ps))),
    ];
    let acts = seq![
        SessionActionModel::ListPrinters,
        SessionActionModel::Send(payload_text(PayloadModel::PrinterList(ps))),
    ];
    let all = once + once;
    assert(all.drop_first().drop_first().drop_first().drop_first() =~= Seq::<SessionEventModel>::empty());
    assert(all.drop_first().drop_first().drop_first() =~= seq![once[1]]);
    assert(all.drop_first().drop_first() =~= once);
    assert(all.drop_first() =~= seq![once[1]] + once);
    assert(run(true, seq![once[1]]) == (true, seq![acts[1]])) by {
        assert(seq![once[1]].drop_first() =~= Seq::<SessionEventModel>::empty());
        assert(run(true, Seq::<SessionEventModel>::empty()) == (true, Seq::<SessionActionModel>::empty()));
        assert(seq![acts[1]] + Seq::<SessionActionModel>::empty() =~= seq![acts[1]]);
    }
    assert(run(true, once) == (true, acts)) by {
        assert(once.drop_first() =~= seq![once[1]]);
        assert(seq![acts[0]] + seq![acts[1]] =~= acts);
    }
    assert(run(true, seq![once[1]] + once) == (true, seq![acts[1]] + acts)) by {
        assert((seq![once[1]] + once).drop_first() =~= once);
    }
    assert(seq![acts[0]] + (seq![acts[1]] + acts) =~= acts + acts);
}

} // verus!
