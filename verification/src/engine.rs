//! What the supervisor asks of the container engine, and what the engine
//! answers, as plain values.
//!
//! The library never talks to the engine. The caller does: it creates,
//! starts, stops and inspects containers, and hands the answers in.
//!
//! The log of a container is cleaned of terminal escape sequences by the
//! `strip-ansi-escapes` crate and the time of its creation is read by
//! `chrono`. Verus reads neither: what is said of them here is believed.

use crate::clock::{instant_of, parse_rfc3339, rfc3339_instant, Timestamp};
use crate::text::texts;
use vstd::prelude::*;

verus! {

/// What the engine says of a container that it knows.
#[derive(Debug, Clone, PartialEq, Eq)]
pub struct InspectReport {
    /// Whether the container runs, where the engine says so.
    pub running: Option<bool>,
    /// When the container was created, in the notation of RFC 3339, where the
    /// engine says so.
    pub created: Option<String>,
}

/// An inspect report, with its text as characters.
pub struct InspectReportView {
    pub running: Option<bool>,
    pub created: Option<Seq<char>>,
}

impl View for InspectReport {
    type V = InspectReportView;

    open spec fn view(&self) -> InspectReportView {
        InspectReportView { running: self.running, created: self.created.deep_view() }
    }
}

impl DeepView for InspectReport {
    type V = InspectReportView;

    open spec fn deep_view(&self) -> InspectReportView {
        self@
    }
}

impl InspectReportView {
    /// Whether the report says that the container runs. A report that does
    /// not say counts as one that says no.
    pub open spec fn is_running(self) -> bool {
        self.running == Some(true)
    }

    /// The instant at which the container was created, where the report
    /// gives one that can be read.
    pub open spec fn created_at(self) -> Option<Timestamp> {
        match self.created {
            Some(text) => instant_of(rfc3339_instant(text)),
            None => None,
        }
    }
}

/// Whether a container has stopped, going by the answer to an inspect
/// request: it has where the engine could not find it, and where the report
/// does not say that it runs.
pub open spec fn has_stopped(report: Option<InspectReportView>) -> bool {
    match report {
        Some(r) => !r.is_running(),
        None => true,
    }
}

impl InspectReport {
    /// Whether the report says that the container runs.
    pub fn is_running(&self) -> (running: bool)
        ensures
            running == self@.is_running(),
    {
        match self.running {
            Some(running) => running,
            None => false,
        }
    }

    /// The instant at which the container was created.
    pub fn created_at(&self) -> (created: Option<Timestamp>)
        ensures
            created == self@.created_at(),
    {
        match &self.created {
            Some(text) => parse_rfc3339(text.as_str()),
            None => None,
        }
    }
}

/// How a request to stop a container ended.
#[derive(Debug, Clone, Copy, PartialEq, Eq, Structural)]
pub enum StopOutcome {
    /// The engine took the request, and the container is gone.
    Stopped,
    /// The engine refused the request.
    Refused,
}

/// How the creation and start of a container ended.
#[derive(Debug, Clone, PartialEq, Eq)]
pub enum StartReport {
    /// The engine did not create or start the container, or could not
    /// inspect it afterwards. The text says why.
    Failed(String),
    /// The container was created and started, and then inspected.
    Inspected { container_id: String, report: InspectReport },
}

/// A start report, with its texts as characters.
pub enum StartReportView {
    Failed(Seq<char>),
    Inspected { container_id: Seq<char>, report: InspectReportView },
}

impl View for StartReport {
    type V = StartReportView;

    open spec fn view(&self) -> StartReportView {
        match self {
            StartReport::Failed(why) => StartReportView::Failed(why@),
            StartReport::Inspected { container_id, report } => StartReportView::Inspected {
                container_id: container_id@,
                report: report@,
            },
        }
    }
}

impl DeepView for StartReport {
    type V = StartReportView;

    open spec fn deep_view(&self) -> StartReportView {
        self@
    }
}

/// What the engine is asked to create for a server.
#[derive(Debug, Clone, PartialEq, Eq)]
pub struct ContainerSpec {
    /// The name of the container.
    pub name: String,
    /// The image to run.
    pub image: String,
    /// The environment, one line of the form `NAME=value` for each variable.
    pub env: Vec<String>,
    /// The directories to mount, each as `host:container` or
    /// `host:container:ro`.
    pub binds: Vec<String>,
    /// The port that the container exposes, with its protocol: `37015/udp`.
    pub exposed_port: String,
    /// The port of the host that the exposed port is published on.
    pub host_port: String,
    /// Whether the standard streams of the container are attached.
    pub attach_stdin: bool,
    pub attach_stdout: bool,
    pub attach_stderr: bool,
    /// Whether the engine removes the container when it exits.
    pub auto_remove: bool,
    /// The most memory that the container may use, in bytes.
    pub memory: Option<i64>,
    /// The most memory and swap that the container may use, in bytes.
    pub memory_swap: Option<i64>,
    /// The length of a scheduling period, in microseconds.
    pub cpu_period: Option<i64>,
    /// The processor time that the container may use in each period, in
    /// microseconds.
    pub cpu_quota: Option<i64>,
    /// The processors that the container may run on.
    pub cpuset_cpus: Option<String>,
    /// The driver that keeps the container's log.
    pub log_driver: String,
}

/// A container specification, with its texts as characters.
pub struct ContainerSpecView {
    pub name: Seq<char>,
    pub image: Seq<char>,
    pub env: Seq<Seq<char>>,
    pub binds: Seq<Seq<char>>,
    pub exposed_port: Seq<char>,
    pub host_port: Seq<char>,
    pub attach_stdin: bool,
    pub attach_stdout: bool,
    pub attach_stderr: bool,
    pub auto_remove: bool,
    pub memory: Option<i64>,
    pub memory_swap: Option<i64>,
    pub cpu_period: Option<i64>,
    pub cpu_quota: Option<i64>,
    pub cpuset_cpus: Option<Seq<char>>,
    pub log_driver: Seq<char>,
}

impl View for ContainerSpec {
    type V = ContainerSpecView;

    open spec fn view(&self) -> ContainerSpecView {
        ContainerSpecView {
            name: self.name@,
            image: self.image@,
            env: texts(self.env@),
            binds: texts(self.binds@),
            exposed_port: self.exposed_port@,
            host_port: self.host_port@,
            attach_stdin: self.attach_stdin,
            attach_stdout: self.attach_stdout,
            attach_stderr: self.attach_stderr,
            auto_remove: self.auto_remove,
            memory: self.memory,
            memory_swap: self.memory_swap,
            cpu_period: self.cpu_period,
            cpu_quota: self.cpu_quota,
            cpuset_cpus: self.cpuset_cpus.deep_view(),
            log_driver: self.log_driver@,
        }
    }
}

/// A piece of a container's log without its terminal escape sequences, as
/// `strip-ansi-escapes` leaves it. There is none where the crate fails.
pub uninterp spec fn without_escapes(chunk: Seq<u8>) -> Option<Seq<u8>>;

/// `strip_ansi_escapes::strip`: the bytes without the escape sequences
/// among them.
#[verifier::external_body]
fn strip(chunk: &[u8]) -> (clean: Option<Vec<u8>>)
    ensures
        clean.deep_view() == without_escapes(chunk@),
{
    strip_ansi_escapes::strip(chunk).ok()
}

/// Cleans a piece of a container's log for the log file. Each piece is
/// cleaned by itself: a sequence that is cut in two by the end of a piece
/// is not recognised.
pub fn clean_log_chunk(chunk: &[u8]) -> (clean: Option<Vec<u8>>)
    ensures
        clean.deep_view() == without_escapes(chunk@),
{
    strip(chunk)
}

} // verus!
