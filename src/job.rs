use vstd::prelude::*;
use crate::payload::{Payload, PayloadModel, PrintResult, ResultModel};
use crate::request::{JobRequest, JobRequestModel, opt_view};
use crate::resolver::{url_file_name, url_file_name_spec};

verus! {

/// Where a print job stands between two pieces of outside work.
#[derive(PartialEq, Eq, Structural, Clone, Copy, Debug)]
pub enum JobPhase {
    AwaitContent,
    AwaitPrinter,
    AwaitSubmit,
    Finished,
}

/// One print job in progress. The printer is resolved by `printer_name`; the
/// payload is the inline contents, or the body fetched from `url`, and the
/// job is named after the request's file name or after the URL's path.
pub struct Job {
    printer_name: String,
    url: Option<String>,
    job_name: String,
    content: String,
    phase: JobPhase,
}

/// The outside work a job asks for next, or its final result.
pub enum JobAction {
    Fetch(String),
    FindPrinter(String),
    Submit { printer_name: String, job_name: String, content: String },
    Reply(PrintResult),
}

/// The outcome of the outside work a job asked for.
pub enum JobEvent {
    Fetched(Option<String>),
    PrinterLookup(bool),
    Submitted(bool),
}

pub struct JobModel {
    pub printer_name: Seq<char>,
    pub url: Option<Seq<char>>,
    pub job_name: Seq<char>,
    pub content: Seq<char>,
    pub phase: JobPhase,
}

pub enum JobActionModel {
    Fetch(Seq<char>),
    FindPrinter(Seq<char>),
    Submit { printer_name: Seq<char>, job_name: Seq<char>, content: Seq<char> },
    Reply(ResultModel),
}

pub enum JobEventModel {
    Fetched(Option<Seq<char>>),
    PrinterLookup(bool),
    Submitted(bool),
}

impl View for Job {
    type V = JobModel;

    closed spec fn view(&self) -> JobModel {
        JobModel {
            printer_name: self.printer_name@,
            url: opt_view(self.url),
            job_name: self.job_name@,
            content: self.content@,
            phase: self.phase,
        }
    }
}

impl View for JobAction {
    type V = JobActionModel;

    open spec fn view(&self) -> JobActionModel {
        match self {
            JobAction::Fetch(u) => JobActionModel::Fetch(u@),
            JobAction::FindPrinter(n) => JobActionModel::FindPrinter(n@),
            JobAction::Submit { printer_name, job_name, content } => JobActionModel::Submit {
                printer_name: printer_name@,
                job_name: job_name@,
                content: content@,
            },
            JobAction::Reply(r) => JobActionModel::Reply(r@),
        }
    }
}

impl View for JobEvent {
    type V = JobEventModel;

    open spec fn view(&self) -> JobEventModel {
        match self {
            JobEvent::Fetched(t) => JobEventModel::Fetched(opt_view(*t)),
            JobEvent::PrinterLookup(found) => JobEventModel::PrinterLookup(*found),
            JobEvent::Submitted(ok) => JobEventModel::Submitted(*ok),
        }
    }
}

/// The event that a job in a phase waits for.
pub open spec fn accepts(phase: JobPhase, ev: JobEventModel) -> bool {
    match ev {
        JobEventModel::Fetched(_) => phase == JobPhase::AwaitContent,
        JobEventModel::PrinterLookup(_) => phase == JobPhase::AwaitPrinter,
        JobEventModel::Submitted(_) => phase == JobPhase::AwaitSubmit,
    }
}

/// The reply to a printer name that names no printer.
pub open spec fn invalid_printer(name: Seq<char>) -> JobActionModel {
    JobActionModel::Reply(ResultModel::Failure(PayloadModel::InvalidPrinter(name)))
}

/// A new job: an empty printer name fails at once; a URL is fetched first;
/// otherwise the printer is looked up, with the inline contents as payload.
/// The job is named after the URL's path where there is a URL, else after the
/// request's file name.
pub open spec fn start_spec(req: JobRequestModel) -> (JobModel, JobActionModel) {
    let job_name = match req.url {
        Some(u) => url_file_name_spec(u),
        None => req.file_name,
    };
    if req.printer_name.len() == 0 {
        (
            JobModel { printer_name: req.printer_name, url: req.url, job_name, content: req.contents, phase: JobPhase::Finished },
            invalid_printer(req.printer_name),
        )
    } else {
        match req.url {
            Some(u) => (
                JobModel { printer_name: req.printer_name, url: req.url, job_name, content: req.contents, phase: JobPhase::AwaitContent },
                JobActionModel::Fetch(u),
            ),
            None => (
                JobModel { printer_name: req.printer_name, url: req.url, job_name, content: req.contents, phase: JobPhase::AwaitPrinter },
                JobActionModel::FindPrinter(req.printer_name),
            ),
        }
    }
}

/// One step of a job on the outcome it waited for.
pub open spec fn step_spec(job: JobModel, ev: JobEventModel) -> (JobModel, JobActionModel) {
    match ev {
        JobEventModel::Fetched(Some(body)) => (
            JobModel { content: body, phase: JobPhase::AwaitPrinter, ..job },
            JobActionModel::FindPrinter(job.printer_name),
        ),
        JobEventModel::Fetched(None) => (
            JobModel { phase: JobPhase::Finished, ..job },
            JobActionModel::Reply(ResultModel::Failure(PayloadModel::FetchFailed(
                match job.url { Some(u) => u, None => Seq::empty() },
            ))),
        ),
        JobEventModel::PrinterLookup(true) => (
            JobModel { phase: JobPhase::AwaitSubmit, ..job },
            JobActionModel::Submit { printer_name: job.printer_name, job_name: job.job_name, content: job.content },
        ),
        JobEventModel::PrinterLookup(false) => (
            JobModel { phase: JobPhase::Finished, ..job },
            invalid_printer(job.printer_name),
        ),
        JobEventModel::Submitted(true) => (
            JobModel { phase: JobPhase::Finished, ..job },
            JobActionModel::Reply(ResultModel::Success(PayloadModel::JobSubmitted)),
        ),
        JobEventModel::Submitted(false) => (
            JobModel { phase: JobPhase::Finished, ..job },
            JobActionModel::Reply(ResultModel::Failure(PayloadModel::JobFailed)),
        ),
    }
}

/// Well-formed: a job waiting for its content has a URL to fetch it from.
pub open spec fn job_wf(job: JobModel) -> bool {
    job.phase == JobPhase::AwaitContent ==> job.url.is_some()
}

impl Job {
    /// The job's invariant, kept by every step.
    pub closed spec fn spec_wf(&self) -> bool {
        job_wf(self@)
    }

    /// Starts a job for a submit request.
    pub fn start(req: JobRequest) -> (r: (Job, JobAction))
        ensures
            (r.0@, r.1@) == start_spec(req@),
            r.0.spec_wf(),
    {
        let JobRequest { printer_name, contents, url, file_name } = req;
        let job_name = match &url {
            Some(u) => url_file_name(u.as_str()),
            None => file_name,
        };
        if printer_name.as_str().is_empty() {
            let reply = PrintResult::FAILED(Payload::InvalidPrinter(printer_name.clone()));
            (Job { printer_name, url, job_name, content: contents, phase: JobPhase::Finished }, JobAction::Reply(reply))
        } else {
            match url {
                Some(u) => {
                    let action = JobAction::Fetch(u.clone());
                    (Job { printer_name, url: Some(u), job_name, content: contents, phase: JobPhase::AwaitContent }, action)
                },
                None => {
                    let action = JobAction::FindPrinter(printer_name.clone());
                    (Job { printer_name, url: None, job_name, content: contents, phase: JobPhase::AwaitPrinter }, action)
                },
            }
        }
    }

    /// The phase the job is in.
    pub fn phase(&self) -> (r: JobPhase)
        ensures
            r == self@.phase,
    {
        self.phase
    }

    /// Whether the job waits for this event.
    pub fn expects(&self, ev: &JobEvent) -> (r: bool)
        ensures
            r == accepts(self@.phase, ev@),
    {
        match ev {
            JobEvent::Fetched(_) => self.phase == JobPhase::AwaitContent,
            JobEvent::PrinterLookup(_) => self.phase == JobPhase::AwaitPrinter,
            JobEvent::Submitted(_) => self.phase == JobPhase::AwaitSubmit,
        }
    }

    /// Advances the job on the outcome of the work it asked for.
    pub fn step(&mut self, ev: JobEvent) -> (r: JobAction)
        requires
            old(self).spec_wf(),
            accepts(old(self)@.phase, ev@),
        ensures
            (final(self)@, r@) == step_spec(old(self)@, ev@),
            final(self).spec_wf(),
    {
        match ev {
            JobEvent::Fetched(Some(body)) => {
                self.content = body;
                self.phase = JobPhase::AwaitPrinter;
                JobAction::FindPrinter(self.printer_name.clone())
            },
            JobEvent::Fetched(None) => {
                self.phase = JobPhase::Finished;
                let u = match &self.url {
                    Some(u) => u.clone(),
                    None => String::new(),
                };
                JobAction::Reply(PrintResult::FAILED(Payload::FetchFailed(u)))
            },
            JobEvent::PrinterLookup(found) => {
                if found {
                    self.phase = JobPhase::AwaitSubmit;
                    JobAction::Submit {
                        printer_name: self.printer_name.clone(),
                        job_name: self.job_name.clone(),
                        content: self.content.clone(),
                    }
                } else {
                    self.phase = JobPhase::Finished;
                    JobAction::Reply(PrintResult::FAILED(Payload::InvalidPrinter(self.printer_name.clone())))
                }
            },
            JobEvent::Submitted(ok) => {
                self.phase = JobPhase::Finished;
                if ok {
                    JobAction::Reply(PrintResult::SUCCESS(Payload::JobSubmitted))
                } else {
                    JobAction::Reply(PrintResult::FAILED(Payload::JobFailed))
                }
            },
        }
    }
}

/// A job never submits when it starts, and submits only right after its
/// printer was found: to that printer, with the job's payload.
pub proof fn lemma_submit_only_after_printer_found(req: JobRequestModel, job: JobModel, ev: JobEventModel)
    requires
        accepts(job.phase, ev),
    ensures
        !(start_spec(req).1 is Submit),
        step_spec(job, ev).1 is Submit ==> job.phase == JobPhase::AwaitPrinter && ev
            == JobEventModel::PrinterLookup(true) && step_spec(job, ev).1 == (JobActionModel::Submit {
            printer_name: job.printer_name,
            job_name: job.job_name,
            content: job.content,
        }),
{
}

/// A printer name that resolves to no printer fails the job with that name,
/// and the finished job waits for nothing more, so nothing is submitted.
pub proof fn lemma_unknown_printer_fails(job: JobModel)
    requires
        job.phase == JobPhase::AwaitPrinter,
    ensures
        step_spec(job, JobEventModel::PrinterLookup(false)).1 == invalid_printer(job.printer_name),
        step_spec(job, JobEventModel::PrinterLookup(false)).0.phase == JobPhase::Finished,
        forall|ev: JobEventModel| !accepts(JobPhase::Finished, ev),
{
}

/// A job with a URL fetches it before anything else; a failed fetch fails the
/// job with that URL before the printer is resolved, and the finished job
/// waits for nothing more, so nothing is submitted.
pub proof fn lemma_fetch_failure_short_circuits(req: JobRequestModel)
    requires
        req.url.is_some(),
        req.printer_name.len() > 0,
    ensures
        start_spec(req).1 == JobActionModel::Fetch(req.url.unwrap()),
        step_spec(start_spec(req).0, JobEventModel::Fetched(None)).1 == JobActionModel::Reply(
            ResultModel::Failure(PayloadModel::FetchFailed(req.url.unwrap())),
        ),
        step_spec(start_spec(req).0, JobEventModel::Fetched(None)).0.phase == JobPhase::Finished,
        forall|ev: JobEventModel| !accepts(JobPhase::Finished, ev),
{
}

/// Once a URL's body is fetched it is the payload submitted, whatever inline
/// contents the request carried.
pub proof fn lemma_fetched_body_is_submitted(req: JobRequestModel, body: Seq<char>)
    requires
        req.url.is_some(),
        req.printer_name.len() > 0,
    ensures
        ({
            let fetched = step_spec(start_spec(req).0, JobEventModel::Fetched(Some(body)));
            &&& fetched.1 == JobActionModel::FindPrinter(req.printer_name)
            &&& step_spec(fetched.0, JobEventModel::PrinterLookup(true)).1 == (JobActionModel::Submit {
                printer_name: req.printer_name,
                job_name: url_file_name_spec(req.url.unwrap()),
                content: body,
            })
        }),
{
}

} // verus!
