use event_sink::envelope::Envelope;
use event_sink::ingest::plan_insert;
use event_sink::normalize::{ColumnValue, TableShape};
use event_sink::respond::{
    entry_response, live_response, ready_response, started_response,
};

#[test]
fn startup_and_readiness_are_unconditional() {
    let started = started_response();
    assert_eq!(started.status, 202);
    assert!(started.body.is_empty());
    let ready = ready_response();
    assert_eq!(ready.status, 202);
    assert!(ready.body.is_empty());
}

#[test]
fn live_reports_timestamp_when_store_answers() {
    let r = live_response(Ok(Some("2023-07-02T00:00:00".to_string())));
    assert_eq!(r.status, 202);
    assert_eq!(r.body, "2023-07-02T00:00:00");
}

#[test]
fn live_reports_unconvertible_time() {
    let r = live_response(Ok(None));
    assert_eq!(r.status, 500);
    assert_eq!(r.body, "Could not convert time.");
}

#[test]
fn live_reports_store_failure() {
    let r = live_response(Err("pool timed out waiting for an open connection".to_string()));
    assert_eq!(r.status, 500);
    assert_eq!(r.body, "pool timed out waiting for an open connection");
}

#[test]
fn entry_confirms_insert() {
    let r = entry_response(Ok(()), "events", "ingress");
    assert_eq!(r.status, 202);
    assert_eq!(r.body, "Inserted row in events.ingress.");
}

#[test]
fn entry_surfaces_insert_failure() {
    let r = entry_response(Err("duplicate key value".to_string()), "events", "ingress");
    assert_eq!(r.status, 500);
    assert_eq!(r.body, "duplicate key value");
}

#[test]
fn plan_pairs_statement_with_columns() {
    let env = Envelope {
        specversion: "1.0".to_string(),
        id: "id-1".to_string(),
        source: "src".to_string(),
        event_type: "ty".to_string(),
        datacontenttype: None,
        dataschema: None,
        subject: None,
        time: None,
        extensions: Vec::new(),
        data: None,
    };
    let plan = plan_insert(&env, TableShape::FullEnvelope, "events", "ingress");
    assert!(plan.statement.starts_with("INSERT INTO events.ingress "));
    assert_eq!(plan.columns.len(), 10);
    assert_eq!(plan.columns[1], ColumnValue::Text("id-1".to_string()));
    assert!(plan.warnings.is_empty());
}
