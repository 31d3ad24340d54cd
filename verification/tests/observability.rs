use event_delivery::error::DeliveryError;
use event_delivery::observability::{Label, Level, LogEntry, Metric, NoopSink, ObservabilitySink};
use event_delivery::producer::DeliveryReport;

struct Recorder {
    metrics: Vec<Metric>,
    logs: Vec<LogEntry>,
}

impl ObservabilitySink for Recorder {
    fn record_metric(&mut self, name: &str, value: u64, labels: &Vec<Label>) {
        self.metrics.push(Metric { name: name.to_string(), value, labels: labels.clone() });
    }

    fn log(&mut self, level: Level, fields: &Vec<Label>) {
        self.logs.push(LogEntry { level, fields: fields.clone() });
    }
}

fn label(name: &str, value: &str) -> Label {
    Label { name: name.to_string(), value: value.to_string() }
}

fn report(outcome: Result<u64, DeliveryError>) -> DeliveryReport {
    DeliveryReport {
        tenant_id: "t1".to_string(),
        event_type: "order.created".to_string(),
        topic: "events".to_string(),
        outcome,
        latency_ms: 37,
    }
}

#[test]
fn log_entry_of_a_success() {
    assert_eq!(
        report(Ok(5)).log_entry(),
        LogEntry {
            level: Level::Info,
            fields: vec![
                label("tenant_id", "t1"),
                label("event_type", "order.created"),
                label("topic", "events"),
                label("outcome", "success"),
            ],
        }
    );
}

#[test]
fn log_entry_of_a_failure() {
    let unavailable = report(Err(DeliveryError::Unavailable)).log_entry();
    assert_eq!(unavailable.level, Level::Warn);
    assert_eq!(unavailable.fields[3], label("outcome", "unavailable"));
    let rejected = report(Err(DeliveryError::Rejected)).log_entry();
    assert_eq!(rejected.level, Level::Error);
    assert_eq!(rejected.fields[3], label("outcome", "rejected"));
    assert_eq!(rejected.fields.len(), 4);
}

#[test]
fn latency_metric_of_a_publish() {
    assert_eq!(
        report(Err(DeliveryError::Rejected)).latency_metric(),
        Metric {
            name: "delivery_latency_ms".to_string(),
            value: 37,
            labels: vec![label("topic", "events"), label("outcome", "rejected")],
        }
    );
}

#[test]
fn emit_hands_metric_and_log_to_the_sink() {
    let mut sink = Recorder { metrics: vec![], logs: vec![] };
    let r = report(Ok(1));
    r.emit(&mut sink);
    assert_eq!(sink.metrics, vec![r.latency_metric()]);
    assert_eq!(sink.logs, vec![r.log_entry()]);
}

#[test]
fn noop_sink_takes_everything() {
    let mut sink = NoopSink::new();
    let r = report(Ok(1));
    r.emit(&mut sink);
    sink.record_metric("m", 1, &vec![]);
    sink.log(Level::Debug, &vec![]);
    assert_eq!(r, report(Ok(1)));
}
