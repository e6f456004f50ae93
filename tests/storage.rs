use energyhub::batch::{backfill_dsmr, backfill_kamstrup, ingest_parsed, LineOutcome};
use energyhub::live::{handle_publish, route_topic, run_live, LiveAction, LiveEvent, Route};
use energyhub::records::{ElectricityReading, Field, HeatReading, IngestError, Reading};
use energyhub::store::{create_schema, insert_row, write_reading, INSERT_HEAT};
use rusqlite::Connection;

fn memory_store() -> Connection {
    let mut conn = Connection::open_in_memory().unwrap();
    create_schema(&mut conn).unwrap();
    conn
}

fn count(conn: &Connection, table: &str) -> i64 {
    conn.query_row(&format!("SELECT COUNT(*) FROM {}", table), [], |r| r.get(0)).unwrap()
}

fn heat(ts: i64, energy: u64) -> Reading {
    Reading::Heat(HeatReading { timestamp: ts, energy, volume: 2000, hourcounter: 100 })
}

#[test]
fn insert_row_columns() {
    let (sql, values) = insert_row(&heat(5, 10500));
    assert_eq!(sql, INSERT_HEAT);
    assert_eq!(values, vec![5, 10500, 2000, 100]);
    let e = Reading::Electricity(ElectricityReading {
        timestamp: 9,
        used_t1: 1,
        used_t2: 2,
        active_tariff: 1,
        current_usage: Some(3),
    });
    let (sql, values) = insert_row(&e);
    assert!(sql.contains("current_usage"));
    assert!(sql.ends_with("ON CONFLICT DO NOTHING"));
    assert_eq!(values, vec![9, 1, 2, 1, 3]);
}

#[test]
fn second_insert_of_a_timestamp_is_a_no_op() {
    let mut conn = memory_store();
    assert_eq!(write_reading(&mut conn, &heat(1454821908, 10500)), Ok(()));
    assert_eq!(write_reading(&mut conn, &heat(1454821908, 99999)), Ok(()));
    assert_eq!(count(&conn, "heat"), 1);
    let energy: i64 = conn
        .query_row("SELECT energy FROM heat WHERE timestamp = 1454821908", [], |r| r.get(0))
        .unwrap();
    assert_eq!(energy, 10500);
}

#[test]
fn storage_failure_is_reported() {
    let mut conn = Connection::open_in_memory().unwrap();
    assert_eq!(write_reading(&mut conn, &heat(1, 1)), Err(IngestError::Storage));
}

#[test]
fn batch_isolates_a_malformed_line() {
    let mut conn = memory_store();
    let lines = vec![
        "2021-01-01T00:00:00+01:00\t1\t1.234\t0.000".to_string(),
        "garbage".to_string(),
        "2021-01-01T01:00:00+01:00\t2\t1.300\t0.100".to_string(),
    ];
    let outcomes = backfill_dsmr(&mut conn, &lines).unwrap();
    assert_eq!(
        outcomes,
        vec![LineOutcome::Ingested, LineOutcome::Failed(IngestError::Arity), LineOutcome::Ingested]
    );
    assert_eq!(count(&conn, "electricity"), 2);
    let used: i64 = conn
        .query_row("SELECT used_t1 FROM electricity WHERE timestamp = 1609455600", [], |r| r.get(0))
        .unwrap();
    assert_eq!(used, 1234);
}

#[test]
fn batch_rejects_invalid_tariff_without_writing() {
    let mut conn = memory_store();
    let lines = vec!["2021-01-01T00:00:00+01:00\t3\t1.234\t0.000".to_string()];
    let outcomes = backfill_dsmr(&mut conn, &lines).unwrap();
    assert_eq!(outcomes, vec![LineOutcome::Failed(IngestError::InvalidTariff)]);
    assert_eq!(count(&conn, "electricity"), 0);
}

#[test]
fn heat_batch_with_duplicates() {
    let mut conn = memory_store();
    let lines: Vec<Vec<u8>> = vec![
        r#"{"energy":10.5,"volume":2.0,"hourcounter":100.7}"#.to_string(),
        r#"{"energy":11.5,"volume":2.0,"hourcounter":100.2}"#.to_string(),
        r#"{"energy":"#.to_string(),
        r#"{"energy":12,"volume":2.5,"hourcounter":101}"#.to_string(),
    ]
    .into_iter()
    .map(String::into_bytes)
    .collect();
    let outcomes = backfill_kamstrup(&mut conn, &lines).unwrap();
    assert_eq!(
        outcomes,
        vec![
            LineOutcome::Ingested,
            LineOutcome::Ingested,
            LineOutcome::Failed(IngestError::Json),
            LineOutcome::Ingested
        ]
    );
    assert_eq!(count(&conn, "heat"), 2);
    let hours: i64 = conn
        .query_row("SELECT hourcounter FROM heat WHERE timestamp = 1454821908", [], |r| r.get(0))
        .unwrap();
    assert_eq!(hours, 100);
}

#[test]
fn batch_without_tables_keeps_going() {
    let mut conn = Connection::open_in_memory().unwrap();
    let parsed = vec![Ok(heat(1, 1)), Err(IngestError::BadField(Field::Energy))];
    let outcomes = ingest_parsed(&mut conn, &parsed).unwrap();
    assert_eq!(
        outcomes,
        vec![
            LineOutcome::Failed(IngestError::Storage),
            LineOutcome::Failed(IngestError::BadField(Field::Energy))
        ]
    );
}

#[test]
fn schema_keeps_existing_rows() {
    let mut conn = memory_store();
    assert_eq!(write_reading(&mut conn, &heat(7, 1)), Ok(()));
    create_schema(&mut conn).unwrap();
    assert_eq!(count(&conn, "heat"), 1);
    assert_eq!(count(&conn, "electricity"), 0);
}

#[test]
fn live_publish_reports_parse_errors() {
    let mut conn = memory_store();
    assert_eq!(
        handle_publish(&mut conn, "kamstrup/values", br#"{"energy":1,"volume":2}"#),
        LiveAction::Rejected(IngestError::BadField(Field::HourCounter))
    );
    assert_eq!(
        handle_publish(&mut conn, "dsmr/measurements", b"garbage"),
        LiveAction::Rejected(IngestError::Json)
    );
    assert_eq!(count(&conn, "heat"), 0);
}

#[test]
fn topics_route_to_formats() {
    assert_eq!(route_topic("dsmr/measurements"), Route::Electricity);
    assert_eq!(route_topic("kamstrup/values"), Route::Heat);
    assert_eq!(route_topic("kamstrup/values/x"), Route::Unknown);
}

#[test]
fn live_publish_stores_heat() {
    let mut conn = memory_store();
    let payload = br#"{"timestamp":"2021-01-01T00:00:00+01:00","energy":1,"volume":2,"hourcounter":3}"#;
    assert_eq!(handle_publish(&mut conn, "kamstrup/values", payload), LiveAction::Stored);
    assert_eq!(count(&conn, "heat"), 1);
    assert_eq!(handle_publish(&mut conn, "other/topic", payload), LiveAction::UnknownTopic);
}

#[test]
fn live_session_until_stop() {
    let mut conn = memory_store();
    let dsmr = br#"{"timestamp":"2021-01-01T00:00:00+01:00","ActiveTariff":"Tariff1","ElectricityUsedT1":1.5,"ElectricityUsedT2":2,"CurrentElectricityUsage":0.25}"#;
    let events = vec![
        LiveEvent::ConnAck { session_present: false },
        LiveEvent::Publish { topic: "dsmr/measurements".to_string(), payload: dsmr.to_vec() },
        LiveEvent::Publish { topic: "dsmr/measurements".to_string(), payload: b"{".to_vec() },
        LiveEvent::Publish { topic: "nowhere".to_string(), payload: vec![] },
        LiveEvent::ConnAck { session_present: true },
        LiveEvent::Other,
        LiveEvent::Stop,
        LiveEvent::Publish { topic: "dsmr/measurements".to_string(), payload: dsmr.to_vec() },
    ];
    let actions = run_live(&mut conn, &events);
    assert_eq!(
        actions,
        vec![
            LiveAction::Subscribe,
            LiveAction::Stored,
            LiveAction::Rejected(IngestError::Json),
            LiveAction::UnknownTopic,
            LiveAction::Ignored,
            LiveAction::Ignored,
            LiveAction::Stop
        ]
    );
    assert_eq!(count(&conn, "electricity"), 1);
    let usage: i64 = conn
        .query_row("SELECT current_usage FROM electricity", [], |r| r.get(0))
        .unwrap();
    assert_eq!(usage, 250);
}
