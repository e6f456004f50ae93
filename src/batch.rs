use vstd::prelude::*;

use crate::parse::{dsmr_line_result, kamstrup_payload_result, parse_dsmr_line, parse_kamstrup};
use crate::records::{
    heat_reading_of, normalize_heat, ElectricityReading, IngestError, KamstrupValues, Reading,
};
use crate::store::{execute_plain, write_reading};

verus! {

/// What became of one line of a log file.
#[derive(Clone, Copy, Debug, PartialEq, Eq, Structural)]
pub enum LineOutcome {
    Ingested,
    Failed(IngestError),
}

/// A line that parsed is stored or fails in the store; one that did not
/// parse fails with its parse error and is never written.
pub open spec fn outcome_fits(parsed: Result<Reading, IngestError>, o: LineOutcome) -> bool {
    match parsed {
        Err(e) => o == LineOutcome::Failed(e),
        Ok(_) => o == LineOutcome::Ingested || o == LineOutcome::Failed(IngestError::Storage),
    }
}

pub open spec fn electricity_as_reading(r: Result<ElectricityReading, IngestError>) -> Result<
    Reading,
    IngestError,
> {
    match r {
        Ok(e) => Ok(Reading::Electricity(e)),
        Err(e) => Err(e),
    }
}

pub open spec fn heat_as_reading(r: Result<KamstrupValues, IngestError>) -> Result<
    Reading,
    IngestError,
> {
    match r {
        Ok(v) => Ok(Reading::Heat(heat_reading_of(v))),
        Err(e) => Err(e),
    }
}

/// Stores each parsed reading of a file inside one transaction. A line that
/// failed to parse, or that the store refuses, is reported and skipped; only
/// a failure to open or commit the transaction fails the whole batch.
pub fn ingest_parsed(conn: &mut rusqlite::Connection, parsed: &Vec<Result<Reading, IngestError>>) -> (res:
    Result<Vec<LineOutcome>, IngestError>)
    requires
        forall|i: int| 0 <= i < parsed@.len() ==> (#[trigger] parsed@[i] matches Ok(r) ==> r.wf()),
    ensures
        res matches Ok(o) ==> o@.len() == parsed@.len() && forall|i: int|
            0 <= i < parsed@.len() ==> outcome_fits(#[trigger] parsed@[i], o@[i]),
        res matches Err(e) ==> e == IngestError::Storage,
{
    match execute_plain(conn, "BEGIN") {
        Ok(()) => {},
        Err(_) => {
            return Err(IngestError::Storage);
        },
    }
    let mut out: Vec<LineOutcome> = Vec::new();
    let mut i: usize = 0;
    while i < parsed.len()
        invariant
            i <= parsed@.len(),
            out@.len() == i,
            forall|j: int| 0 <= j < parsed@.len() ==> (#[trigger] parsed@[j] matches Ok(r) ==> r.wf()),
            forall|j: int| 0 <= j < i ==> outcome_fits(#[trigger] parsed@[j], out@[j]),
        decreases parsed@.len() - i,
    {
        let o = match &parsed[i] {
            Err(e) => LineOutcome::Failed(*e),
            Ok(r) => match write_reading(conn, r) {
                Ok(()) => LineOutcome::Ingested,
                Err(e) => LineOutcome::Failed(e),
            },
        };
        out.push(o);
        i = i + 1;
    }
    match execute_plain(conn, "COMMIT") {
        Ok(()) => Ok(out),
        Err(_) => {
            let _ = execute_plain(conn, "ROLLBACK");
            Err(IngestError::Storage)
        },
    }
}

/// Ingests the lines of the legacy electricity log in one transaction.
pub fn backfill_dsmr(conn: &mut rusqlite::Connection, lines: &Vec<String>) -> (res: Result<
    Vec<LineOutcome>,
    IngestError,
>)
    ensures
        res matches Ok(o) ==> o@.len() == lines@.len() && forall|i: int|
            0 <= i < lines@.len() ==> outcome_fits(
                electricity_as_reading(dsmr_line_result(#[trigger] lines@[i]@)),
                o@[i],
            ),
        res matches Err(e) ==> e == IngestError::Storage,
{
    let mut parsed: Vec<Result<Reading, IngestError>> = Vec::new();
    let mut i: usize = 0;
    while i < lines.len()
        invariant
            i <= lines@.len(),
            parsed@.len() == i,
            forall|j: int|
                0 <= j < i ==> #[trigger] parsed@[j] == electricity_as_reading(
                    dsmr_line_result(lines@[j]@),
                ),
            forall|j: int| 0 <= j < i ==> (#[trigger] parsed@[j] matches Ok(r) ==> r.wf()),
        decreases lines@.len() - i,
    {
        let p = match parse_dsmr_line(lines[i].as_str()) {
            Ok(e) => Ok(Reading::Electricity(e)),
            Err(e) => Err(e),
        };
        parsed.push(p);
        i = i + 1;
    }
    let res = ingest_parsed(conn, &parsed);
    if let Ok(o) = &res {
        assert forall|i: int| 0 <= i < lines@.len() implies outcome_fits(
            electricity_as_reading(dsmr_line_result(#[trigger] lines@[i]@)),
            o@[i],
        ) by {
            assert(outcome_fits(parsed@[i], o@[i]));
        }
    }
    res
}

/// Ingests the lines of the heat log (one JSON record each, as bytes) in one
/// transaction.
pub fn backfill_kamstrup(conn: &mut rusqlite::Connection, lines: &Vec<Vec<u8>>) -> (res: Result<
    Vec<LineOutcome>,
    IngestError,
>)
    ensures
        res matches Ok(o) ==> o@.len() == lines@.len() && forall|i: int|
            0 <= i < lines@.len() ==> outcome_fits(
                heat_as_reading(kamstrup_payload_result(#[trigger] lines@[i]@)),
                o@[i],
            ),
        res matches Err(e) ==> e == IngestError::Storage,
{
    let mut parsed: Vec<Result<Reading, IngestError>> = Vec::new();
    let mut i: usize = 0;
    while i < lines.len()
        invariant
            i <= lines@.len(),
            parsed@.len() == i,
            forall|j: int|
                0 <= j < i ==> #[trigger] parsed@[j] == heat_as_reading(
                    kamstrup_payload_result(lines@[j]@),
                ),
            forall|j: int| 0 <= j < i ==> (#[trigger] parsed@[j] matches Ok(r) ==> r.wf()),
        decreases lines@.len() - i,
    {
        let p = match parse_kamstrup(lines[i].as_slice()) {
            Ok(v) => Ok(Reading::Heat(normalize_heat(&v))),
            Err(e) => Err(e),
        };
        parsed.push(p);
        i = i + 1;
    }
    let res = ingest_parsed(conn, &parsed);
    if let Ok(o) = &res {
        assert forall|i: int| 0 <= i < lines@.len() implies outcome_fits(
            heat_as_reading(kamstrup_payload_result(#[trigger] lines@[i]@)),
            o@[i],
        ) by {
            assert(outcome_fits(parsed@[i], o@[i]));
        }
    }
    res
}

} // verus!
