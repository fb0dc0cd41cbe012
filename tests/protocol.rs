use print_bridge::{
    handle_message, parse_request, printer_list_result, read_message, route, url_file_name, Frame,
    Incoming, Job, JobAction, JobEvent, JobPhase, JobRequest, Payload, PrintResult,
    PrinterDescriptor, Request, Session, SessionAction, SessionEvent,
};

fn printer(name: &str, system_name: &str) -> PrinterDescriptor {
    PrinterDescriptor { name: name.to_string(), system_name: system_name.to_string() }
}

fn sent_text(a: SessionAction) -> String {
    match a {
        SessionAction::Send(t) => t,
        _ => panic!("expected a frame to be sent"),
    }
}

fn reply_of(a: JobAction) -> PrintResult {
    match a {
        JobAction::Reply(r) => r,
        _ => panic!("expected a reply"),
    }
}

fn job_request(text: &str) -> JobRequest {
    match parse_request(text) {
        Request::SubmitJob(j) => j,
        _ => panic!("expected a submit request"),
    }
}

#[test]
fn list_request_is_routed() {
    let r = parse_request(r#"{"type":"list printers","data":{}}"#);
    assert!(matches!(r, Request::ListPrinters));
}

#[test]
fn list_scenario_answers_with_array() {
    let mut s = Session::new();
    let incoming = handle_message(Frame::Text(r#"{"type":"list printers","data":{}}"#.to_string()));
    assert!(matches!(s.step(SessionEvent::Received(incoming)), SessionAction::ListPrinters));
    let result = printer_list_result(Vec::new());
    assert!(matches!(result, PrintResult::SUCCESS(Payload::PrinterList(_))));
    assert_eq!(sent_text(s.step(SessionEvent::Answered(result))), "[]");
    assert!(s.is_open());
}

#[test]
fn listing_has_one_entry_per_printer() {
    let result = printer_list_result(vec![printer("Office", "office_1"), printer("Lab", "lab_2")]);
    let mut s = Session::new();
    let text = sent_text(s.step(SessionEvent::Answered(result)));
    assert_eq!(
        text,
        r#"[{"name":"Office","system_name":"office_1"},{"name":"Lab","system_name":"lab_2"}]"#
    );
    let v: serde_json::Value = serde_json::from_str(&text).unwrap();
    let items = v.as_array().unwrap();
    assert_eq!(items.len(), 2);
    for item in items {
        let obj = item.as_object().unwrap();
        assert_eq!(obj.len(), 2);
        assert!(obj.contains_key("name"));
        assert!(obj.contains_key("system_name"));
    }
}

#[test]
fn listing_twice_gives_identical_frames() {
    let mut s = Session::new();
    let mut frames = Vec::new();
    for _ in 0..2 {
        let incoming = handle_message(Frame::Text(r#"{"type":"list printers","data":{}}"#.to_string()));
        assert!(matches!(s.step(SessionEvent::Received(incoming)), SessionAction::ListPrinters));
        let result = printer_list_result(vec![printer("Office", "office_1")]);
        frames.push(sent_text(s.step(SessionEvent::Answered(result))));
    }
    assert_eq!(frames[0], frames[1]);
}

#[test]
fn unknown_printer_scenario_fails_with_name() {
    let req = job_request(r#"{"type":"submit print job","data":{"printer_name":"nonexistent","contents":"x"}}"#);
    assert_eq!(req.printer_name, "nonexistent");
    assert_eq!(req.contents, "x");
    assert!(req.url.is_none());
    let (mut job, first) = Job::start(req);
    match first {
        JobAction::FindPrinter(n) => assert_eq!(n, "nonexistent"),
        _ => panic!("expected a printer lookup"),
    }
    let r = reply_of(job.step(JobEvent::PrinterLookup(false)));
    assert_eq!(job.phase(), JobPhase::Finished);
    assert!(!job.expects(&JobEvent::Submitted(true)));
    let mut s = Session::new();
    let text = sent_text(s.step(SessionEvent::Answered(r)));
    assert!(text.contains(r#""value":"nonexistent""#));
    assert!(s.is_open());
}

#[test]
fn empty_printer_name_fails_at_once() {
    let req = job_request(r#"{"type":"submit print job","data":{"contents":"x"}}"#);
    let (job, first) = Job::start(req);
    assert_eq!(job.phase(), JobPhase::Finished);
    match reply_of(first) {
        PrintResult::FAILED(Payload::InvalidPrinter(n)) => assert_eq!(n, ""),
        _ => panic!("expected an invalid printer failure"),
    }
}

#[test]
fn fetch_failure_short_circuits() {
    let req = job_request(
        r#"{"type":"submit print job","data":{"printer_name":"office","contents":"x","url":"http://files.test/a/report.pdf"}}"#,
    );
    let (mut job, first) = Job::start(req);
    match first {
        JobAction::Fetch(u) => assert_eq!(u, "http://files.test/a/report.pdf"),
        _ => panic!("expected a fetch"),
    }
    assert!(!job.expects(&JobEvent::PrinterLookup(true)));
    let r = reply_of(job.step(JobEvent::Fetched(None)));
    assert_eq!(job.phase(), JobPhase::Finished);
    match &r {
        PrintResult::FAILED(Payload::FetchFailed(u)) => assert_eq!(u, "http://files.test/a/report.pdf"),
        _ => panic!("expected a fetch failure"),
    }
    let mut s = Session::new();
    let text = sent_text(s.step(SessionEvent::Answered(r)));
    assert_eq!(
        text,
        r#"{"error":{"message":"Failed to fetch URL","value":"http://files.test/a/report.pdf"}}"#
    );
}

#[test]
fn fetched_body_replaces_inline_contents() {
    let req = job_request(
        r#"{"type":"submit print job","data":{"printer_name":"office","contents":"inline","url":"http://files.test/a/report.pdf"}}"#,
    );
    let (mut job, _) = Job::start(req);
    match job.step(JobEvent::Fetched(Some("remote body".to_string()))) {
        JobAction::FindPrinter(n) => assert_eq!(n, "office"),
        _ => panic!("expected a printer lookup"),
    }
    match job.step(JobEvent::PrinterLookup(true)) {
        JobAction::Submit { printer_name, job_name, content } => {
            assert_eq!(printer_name, "office");
            assert_eq!(job_name, "report.pdf");
            assert_eq!(content, "remote body");
        }
        _ => panic!("expected a submission"),
    }
    assert_eq!(job.phase(), JobPhase::AwaitSubmit);
}

#[test]
fn inline_job_is_submitted_and_succeeds() {
    let req = job_request(
        r#"{"type":"submit print job","data":{"printer_name":"office","contents":"hello","file_name":"note.txt"}}"#,
    );
    let (mut job, _) = Job::start(req);
    match job.step(JobEvent::PrinterLookup(true)) {
        JobAction::Submit { printer_name, job_name, content } => {
            assert_eq!(printer_name, "office");
            assert_eq!(job_name, "note.txt");
            assert_eq!(content, "hello");
        }
        _ => panic!("expected a submission"),
    }
    let r = reply_of(job.step(JobEvent::Submitted(true)));
    assert!(matches!(r, PrintResult::SUCCESS(Payload::JobSubmitted)));
    let mut s = Session::new();
    let text = sent_text(s.step(SessionEvent::Answered(r)));
    assert!(text.contains(r#""status":"success""#));
}

#[test]
fn failed_job_reports_failure_status() {
    let req = job_request(r#"{"type":"submit print job","data":{"printer_name":"office","contents":"hello"}}"#);
    let (mut job, _) = Job::start(req);
    let _ = job.step(JobEvent::PrinterLookup(true));
    let r = reply_of(job.step(JobEvent::Submitted(false)));
    assert!(matches!(r, PrintResult::FAILED(Payload::JobFailed)));
    assert_eq!(
        Payload::JobFailed.to_json(),
        r#"{"message":"Print job failed","status":"failure","type":"submit print job"}"#
    );
}

#[test]
fn close_frame_ends_session_silently() {
    let mut s = Session::new();
    assert!(matches!(handle_message(Frame::Close), Incoming::Disconnect));
    assert!(matches!(s.step(SessionEvent::Received(handle_message(Frame::Close))), SessionAction::End));
    assert!(!s.is_open());
    assert!(matches!(s.step(SessionEvent::Tick), SessionAction::Nothing));
    let later = handle_message(Frame::Text(r#"{"type":"list printers","data":{}}"#.to_string()));
    assert!(matches!(s.step(SessionEvent::Received(later)), SessionAction::Nothing));
}

#[test]
fn unknown_operation_keeps_session_open() {
    let mut s = Session::new();
    let incoming = handle_message(Frame::Text(r#"{"type":"unknown_op"}"#.to_string()));
    let text = sent_text(s.step(SessionEvent::Received(incoming)));
    assert_eq!(text, r#"{"error":{"message":"Unsupported message type"}}"#);
    assert!(s.is_open());
    let next = handle_message(Frame::Text(r#"{"type":"list printers","data":{}}"#.to_string()));
    assert!(matches!(s.step(SessionEvent::Received(next)), SessionAction::ListPrinters));
}

#[test]
fn missing_type_is_unsupported() {
    assert!(matches!(parse_request(r#"{"data":{}}"#), Request::Unsupported));
    assert!(matches!(parse_request(r#"{"type":7}"#), Request::Unsupported));
}

#[test]
fn malformed_text_is_answered_not_fatal() {
    assert!(matches!(parse_request("{not json"), Request::Malformed));
    assert!(read_message("{not json").is_none());
    let mut s = Session::new();
    let incoming = handle_message(Frame::Text("{not json".to_string()));
    let text = sent_text(s.step(SessionEvent::Received(incoming)));
    assert_eq!(text, r#"{"error":{"message":"Invalid message"}}"#);
    assert!(s.is_open());
}

#[test]
fn binary_frames_are_decoded() {
    let ok = handle_message(Frame::Binary(br#"{"type":"list printers","data":{}}"#.to_vec()));
    assert!(matches!(ok, Incoming::Request(Request::ListPrinters)));
    let bad = handle_message(Frame::Binary(vec![0xff, 0xfe, 0x7b]));
    assert!(matches!(bad, Incoming::Request(Request::Malformed)));
}

#[test]
fn other_frames_disconnect() {
    assert!(matches!(handle_message(Frame::Other), Incoming::Disconnect));
}

#[test]
fn keepalive_sends_one_ping_per_tick() {
    let mut s = Session::new();
    for _ in 0..3 {
        assert_eq!(sent_text(s.step(SessionEvent::Tick)), "ping");
    }
    assert!(s.is_open());
}

#[test]
fn transport_failures_end_session() {
    for ev in [SessionEvent::ReadFailed, SessionEvent::StreamEnded, SessionEvent::SendFailed] {
        let mut s = Session::new();
        assert!(matches!(s.step(ev), SessionAction::End));
        assert!(!s.is_open());
    }
    let mut s = Session::new();
    assert!(matches!(s.step(SessionEvent::Answered(PrintResult::DISCONNECTED)), SessionAction::End));
}

#[test]
fn route_reads_fields() {
    let m = read_message(r#"{"type":"submit print job","data":{"printer_name":"p","url":"http://x/y"}}"#).unwrap();
    assert_eq!(m.kind.as_deref(), Some("submit print job"));
    assert_eq!(m.printer_name.as_deref(), Some("p"));
    assert!(m.contents.is_none());
    match route(&m) {
        Request::SubmitJob(j) => {
            assert_eq!(j.contents, "");
            assert_eq!(j.url.as_deref(), Some("http://x/y"));
        }
        _ => panic!("expected a submit request"),
    }
}

#[test]
fn url_file_names() {
    assert_eq!(url_file_name("http://files.test/docs/report.pdf"), "report.pdf");
    assert_eq!(url_file_name("http://files.test/docs/"), "document");
    assert_eq!(url_file_name("label.zpl"), "label.zpl");
    assert_eq!(url_file_name(""), "document");
}

#[test]
fn values_are_escaped() {
    let text = Payload::InvalidPrinter("a\"b".to_string()).to_json();
    assert_eq!(text, r#"{"error":{"message":"Invalid printer name provided","value":"a\"b"}}"#);
}

#[test]
fn payloads_round_trip_through_json() {
    let cases = vec![
        (Payload::PrinterList(vec![printer("Office \"A\"", "office\\1")]), None),
        (Payload::JobSubmitted, None),
        (Payload::JobFailed, None),
        (Payload::FetchFailed("http://x/é".to_string()), Some("http://x/é")),
        (Payload::InvalidPrinter("näme\n".to_string()), Some("näme\n")),
        (Payload::UnsupportedType, None),
        (Payload::InvalidMessage, None),
    ];
    for (p, value) in cases {
        let text = p.to_json();
        let v: serde_json::Value = serde_json::from_str(&text).unwrap();
        match p {
            Payload::PrinterList(ps) => {
                let items = v.as_array().unwrap();
                assert_eq!(items.len(), ps.len());
                assert_eq!(items[0]["name"].as_str(), Some(ps[0].name.as_str()));
                assert_eq!(items[0]["system_name"].as_str(), Some(ps[0].system_name.as_str()));
            }
            Payload::JobSubmitted => {
                assert_eq!(v["status"], "success");
                assert_eq!(v["message"], "Print job submitted successfully");
                assert_eq!(v.as_object().unwrap().len(), 3);
            }
            Payload::JobFailed => {
                assert_eq!(v["status"], "failure");
                assert_eq!(v.as_object().unwrap().len(), 3);
            }
            _ => {
                let err = v["error"].as_object().unwrap();
                assert!(err.contains_key("message"));
                match value {
                    Some(x) => {
                        assert_eq!(err.len(), 2);
                        assert_eq!(err["value"].as_str(), Some(x));
                    }
                    None => assert_eq!(err.len(), 1),
                }
            }
        }
    }
}
