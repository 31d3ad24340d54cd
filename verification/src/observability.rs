//! Logs and metrics.
//!
//! The pipeline hands what it has to say to an [`ObservabilitySink`] and
//! takes nothing back, so a sink cannot change what the pipeline does.

use vstd::prelude::*;
use vstd::string::StringExecFns;
use crate::error::DeliveryError;
use crate::producer::{DeliveryReport, DeliveryReportView};

verus! {

/// Severity of a log entry.
#[derive(Clone, Copy, Debug, PartialEq, Eq, Structural)]
pub enum Level {
    Debug,
    Info,
    Warn,
    Error,
}

/// A named value of a log entry or a metric.
#[derive(Debug, Clone, PartialEq, Eq)]
pub struct Label {
    pub name: String,
    pub value: String,
}

/// Mathematical content of a [`Label`].
pub struct LabelView {
    pub name: Seq<char>,
    pub value: Seq<char>,
}

impl View for Label {
    type V = LabelView;

    open spec fn view(&self) -> LabelView {
        LabelView { name: self.name@, value: self.value@ }
    }
}

/// The content of a list of labels.
pub open spec fn labels_view(labels: Seq<Label>) -> Seq<LabelView> {
    labels.map_values(|label: Label| label@)
}

/// A structured log entry.
#[derive(Debug, Clone, PartialEq, Eq)]
pub struct LogEntry {
    pub level: Level,
    pub fields: Vec<Label>,
}

/// A measurement.
#[derive(Debug, Clone, PartialEq, Eq)]
pub struct Metric {
    pub name: String,
    pub value: u64,
    pub labels: Vec<Label>,
}

/// Something that was handed to a sink.
pub enum Handed {
    /// A measurement.
    Metric { name: Seq<char>, value: u64, labels: Seq<LabelView> },
    /// A log entry.
    Log { level: Level, fields: Seq<LabelView> },
}

/// Where logs and metrics go.
///
/// What a sink does with what it is handed is its own business. The
/// contracts speak only of what was handed to it, and in which order.
pub trait ObservabilitySink {
    /// Everything that was handed to this sink so far, in order.
    ///
    /// A verified sink says here how that can be read off its state. The
    /// body below only stands in where a sink is written without proofs, and
    /// says nothing: no verified sink can keep it.
    open spec fn taken(&self) -> Seq<Handed> {
        arbitrary()
    }

    /// Takes one measurement.
    fn record_metric(&mut self, name: &str, value: u64, labels: &Vec<Label>)
        ensures
            final(self).taken() == old(self).taken().push(
                Handed::Metric { name: name@, value, labels: labels_view(labels@) },
            ),
    ;

    /// Takes one log entry.
    fn log(&mut self, level: Level, fields: &Vec<Label>)
        ensures
            final(self).taken() == old(self).taken().push(
                Handed::Log { level, fields: labels_view(fields@) },
            ),
    ;
}

/// A sink that drops everything. Nothing of what it is handed exists when
/// the program runs.
#[derive(Clone, Copy)]
pub struct NoopSink {
    handed: Ghost<Seq<Handed>>,
}

impl NoopSink {
    /// A sink that was handed nothing yet.
    pub fn new() -> (sink: Self)
        ensures
            sink.taken() == Seq::<Handed>::empty(),
    {
        NoopSink { handed: Ghost(Seq::empty()) }
    }
}

impl ObservabilitySink for NoopSink {
    closed spec fn taken(&self) -> Seq<Handed> {
        self.handed@
    }

    fn record_metric(&mut self, name: &str, value: u64, labels: &Vec<Label>) {
        self.handed = Ghost(
            self.handed@.push(
                Handed::Metric { name: name@, value, labels: labels_view(labels@) },
            ),
        );
    }

    fn log(&mut self, level: Level, fields: &Vec<Label>) {
        self.handed = Ghost(
            self.handed@.push(Handed::Log { level, fields: labels_view(fields@) }),
        );
    }
}

/// The word for how a publish ended.
pub open spec fn outcome_word(outcome: Result<u64, DeliveryError>) -> Seq<char> {
    match outcome {
        Ok(_) => "success"@,
        Err(DeliveryError::Unavailable) => "unavailable"@,
        Err(DeliveryError::Rejected) => "rejected"@,
    }
}

/// The severity at which the end of a publish is logged.
pub open spec fn outcome_level(outcome: Result<u64, DeliveryError>) -> Level {
    match outcome {
        Ok(_) => Level::Info,
        Err(DeliveryError::Unavailable) => Level::Warn,
        Err(DeliveryError::Rejected) => Level::Error,
    }
}

/// The fields of the log entry of a publish: tenant, event type, topic and
/// outcome, and nothing of the payload.
pub open spec fn report_fields(report: DeliveryReportView) -> Seq<LabelView> {
    seq![
        LabelView { name: "tenant_id"@, value: report.tenant_id },
        LabelView { name: "event_type"@, value: report.event_type },
        LabelView { name: "topic"@, value: report.topic },
        LabelView { name: "outcome"@, value: outcome_word(report.outcome) },
    ]
}

/// The labels of the latency metric of a publish: topic and outcome.
pub open spec fn latency_labels(report: DeliveryReportView) -> Seq<LabelView> {
    seq![
        LabelView { name: "topic"@, value: report.topic },
        LabelView { name: "outcome"@, value: outcome_word(report.outcome) },
    ]
}

/// The latency metric of a publish, as a sink is handed it: the time from
/// the first call to the last answer, in milliseconds, under the name
/// `delivery_latency_ms`.
pub open spec fn handed_metric(report: DeliveryReportView) -> Handed {
    Handed::Metric {
        name: "delivery_latency_ms"@,
        value: report.latency_ms,
        labels: latency_labels(report),
    }
}

/// The log entry of a publish, as a sink is handed it.
pub open spec fn handed_entry(report: DeliveryReportView) -> Handed {
    Handed::Log { level: outcome_level(report.outcome), fields: report_fields(report) }
}

fn label(name: &str, value: String) -> (made: Label)
    ensures
        made@ == (LabelView { name: name@, value: value@ }),
{
    Label { name: String::from_str(name), value }
}

impl DeliveryReport {
    fn outcome_label(&self) -> (made: Label)
        ensures
            made@ == (LabelView { name: "outcome"@, value: outcome_word(self.outcome) }),
    {
        let word = match self.outcome {
            Ok(_) => "success",
            Err(DeliveryError::Unavailable) => "unavailable",
            Err(DeliveryError::Rejected) => "rejected",
        };
        label("outcome", String::from_str(word))
    }

    /// The log entry of this publish.
    pub fn log_entry(&self) -> (entry: LogEntry)
        ensures
            entry.level == outcome_level(self.outcome),
            labels_view(entry.fields@) == report_fields(self@),
    {
        let level = match self.outcome {
            Ok(_) => Level::Info,
            Err(DeliveryError::Unavailable) => Level::Warn,
            Err(DeliveryError::Rejected) => Level::Error,
        };
        let mut fields: Vec<Label> = Vec::new();
        fields.push(label("tenant_id", self.tenant_id.clone()));
        fields.push(label("event_type", self.event_type.clone()));
        fields.push(label("topic", self.topic.clone()));
        fields.push(self.outcome_label());
        assert(labels_view(fields@) =~= report_fields(self@));
        LogEntry { level, fields }
    }

    /// The latency metric of this publish, in milliseconds.
    pub fn latency_metric(&self) -> (metric: Metric)
        ensures
            metric.name@ == "delivery_latency_ms"@,
            metric.value == self.latency_ms,
            labels_view(metric.labels@) == latency_labels(self@),
    {
        let mut labels: Vec<Label> = Vec::new();
        labels.push(label("topic", self.topic.clone()));
        labels.push(self.outcome_label());
        assert(labels_view(labels@) =~= latency_labels(self@));
        Metric { name: String::from_str("delivery_latency_ms"), value: self.latency_ms, labels }
    }

    /// Hands the latency metric and the log entry of this publish to
    /// `sink`, the metric first, and nothing else.
    pub fn emit<S: ObservabilitySink>(&self, sink: &mut S)
        ensures
            final(sink).taken() == old(sink).taken().push(handed_metric(self@)).push(
                handed_entry(self@),
            ),
    {
        let metric = self.latency_metric();
        sink.record_metric(metric.name.as_str(), metric.value, &metric.labels);
        let entry = self.log_entry();
        sink.log(entry.level, &entry.fields);
    }
}

} // verus!
