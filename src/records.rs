use vstd::prelude::*;

use crate::text::MAX_MILLI;

verus! {

/// The Unix time of meter hour zero, for heat records that carry no timestamp.
pub const HOUR_ZERO: i64 = 1454461908;

pub const SECONDS_PER_HOUR: i64 = 3600;

/// The largest hour count whose derived timestamp fits an `i64`.
pub const MAX_HOURS: u64 = 2562047787611198;

/// A field of a record, named in parse errors.
#[derive(Clone, Copy, Debug, PartialEq, Eq, Structural)]
pub enum Field {
    Timestamp,
    ActiveTariff,
    UsedT1,
    UsedT2,
    CurrentUsage,
    Energy,
    Volume,
    HourCounter,
}

/// Why a line or an event was not stored.
#[derive(Clone, Copy, Debug, PartialEq, Eq, Structural)]
pub enum IngestError {
    /// A legacy line without exactly four tab-separated fields.
    Arity,
    /// A field missing, of the wrong type, or unreadable.
    BadField(Field),
    /// A legacy line whose tariff is neither 1 nor 2.
    InvalidTariff,
    /// A payload that is not a JSON document.
    Json,
    /// The store refused a statement.
    Storage,
}

/// One electricity reading, in milli-units; `current_usage` is present only
/// for readings from the live feed.
#[derive(Clone, Copy, Debug, PartialEq, Eq, Structural)]
pub struct ElectricityReading {
    pub timestamp: i64,
    pub used_t1: u64,
    pub used_t2: u64,
    pub active_tariff: u8,
    pub current_usage: Option<u64>,
}

/// One heat reading: energy and volume in milli-units, whole meter hours.
#[derive(Clone, Copy, Debug, PartialEq, Eq, Structural)]
pub struct HeatReading {
    pub timestamp: i64,
    pub energy: u64,
    pub volume: u64,
    pub hourcounter: u64,
}

/// A reading ready for the store.
#[derive(Clone, Copy, Debug, PartialEq, Eq, Structural)]
pub enum Reading {
    Electricity(ElectricityReading),
    Heat(HeatReading),
}

/// A heat record as read from JSON; quantities in milli-units.
#[derive(Clone, Copy, Debug, PartialEq, Eq, Structural)]
pub struct KamstrupValues {
    pub timestamp: Option<i64>,
    pub energy: u64,
    pub volume: u64,
    pub hourcounter: u64,
}

/// An electricity record as read from the live feed's JSON; quantities in
/// milli-units.
#[derive(Debug)]
pub struct DSMRMeasurements {
    pub timestamp: i64,
    pub active_tariff: String,
    pub electricity_used_t1: u64,
    pub electricity_used_t2: u64,
    pub current_electricity_usage: u64,
}

/// The text that names each error.
pub open spec fn error_message(e: IngestError) -> Seq<char> {
    match e {
        IngestError::Arity => "wrong number of fields"@,
        IngestError::BadField(Field::Timestamp) => "malformed field: timestamp"@,
        IngestError::BadField(Field::ActiveTariff) => "malformed field: active tariff"@,
        IngestError::BadField(Field::UsedT1) => "malformed field: used t1"@,
        IngestError::BadField(Field::UsedT2) => "malformed field: used t2"@,
        IngestError::BadField(Field::CurrentUsage) => "malformed field: current usage"@,
        IngestError::BadField(Field::Energy) => "malformed field: energy"@,
        IngestError::BadField(Field::Volume) => "malformed field: volume"@,
        IngestError::BadField(Field::HourCounter) => "malformed field: hourcounter"@,
        IngestError::InvalidTariff => "invalid tariff"@,
        IngestError::Json => "malformed JSON"@,
        IngestError::Storage => "storage error"@,
    }
}

impl IngestError {
    /// What went wrong, as text for a diagnostic line.
    pub fn message(&self) -> (r: String)
        ensures
            r@ == error_message(*self),
    {
        match self {
            IngestError::Arity => "wrong number of fields".to_owned(),
            IngestError::BadField(Field::Timestamp) => "malformed field: timestamp".to_owned(),
            IngestError::BadField(Field::ActiveTariff) => "malformed field: active tariff".to_owned(),
            IngestError::BadField(Field::UsedT1) => "malformed field: used t1".to_owned(),
            IngestError::BadField(Field::UsedT2) => "malformed field: used t2".to_owned(),
            IngestError::BadField(Field::CurrentUsage) => "malformed field: current usage".to_owned(),
            IngestError::BadField(Field::Energy) => "malformed field: energy".to_owned(),
            IngestError::BadField(Field::Volume) => "malformed field: volume".to_owned(),
            IngestError::BadField(Field::HourCounter) => "malformed field: hourcounter".to_owned(),
            IngestError::InvalidTariff => "invalid tariff".to_owned(),
            IngestError::Json => "malformed JSON".to_owned(),
            IngestError::Storage => "storage error".to_owned(),
        }
    }
}

impl ElectricityReading {
    pub open spec fn wf(&self) -> bool {
        &&& self.used_t1 <= MAX_MILLI
        &&& self.used_t2 <= MAX_MILLI
        &&& (self.current_usage matches Some(u) ==> u <= MAX_MILLI)
    }
}

impl HeatReading {
    pub open spec fn wf(&self) -> bool {
        self.energy <= MAX_MILLI && self.volume <= MAX_MILLI && self.hourcounter <= MAX_HOURS
    }
}

impl Reading {
    pub open spec fn wf(&self) -> bool {
        match self {
            Reading::Electricity(e) => e.wf(),
            Reading::Heat(h) => h.wf(),
        }
    }
}

impl KamstrupValues {
    pub open spec fn wf(&self) -> bool {
        self.energy <= MAX_MILLI && self.volume <= MAX_MILLI && self.hourcounter / 1000 <= MAX_HOURS
    }
}

impl DSMRMeasurements {
    pub open spec fn wf(&self) -> bool {
        &&& self.electricity_used_t1 <= MAX_MILLI
        &&& self.electricity_used_t2 <= MAX_MILLI
        &&& self.current_electricity_usage <= MAX_MILLI
    }
}

/// The timestamp of a heat record that carries none.
pub open spec fn derived_timestamp(hours: nat) -> int {
    hours * 3600 + HOUR_ZERO
}

/// A heat record made ready for the store: an explicit timestamp wins, else
/// it is derived from the whole hours of the counter.
pub open spec fn heat_reading_of(v: KamstrupValues) -> HeatReading {
    HeatReading {
        timestamp: match v.timestamp {
            Some(t) => t,
            None => derived_timestamp((v.hourcounter / 1000) as nat) as i64,
        },
        energy: v.energy,
        volume: v.volume,
        hourcounter: v.hourcounter / 1000,
    }
}

/// The tariff code of the live feed: `Tariff1` is 1, `Tariff2` is 2, anything
/// else 0.
pub open spec fn tariff_code_of(s: Seq<char>) -> u8 {
    if s == "Tariff1"@ {
        1
    } else if s == "Tariff2"@ {
        2
    } else {
        0
    }
}

pub open spec fn electricity_reading_of(m: DSMRMeasurements) -> ElectricityReading {
    ElectricityReading {
        timestamp: m.timestamp,
        used_t1: m.electricity_used_t1,
        used_t2: m.electricity_used_t2,
        active_tariff: tariff_code_of(m.active_tariff@),
        current_usage: Some(m.current_electricity_usage),
    }
}

/// Turns a heat record into the reading that is stored.
pub fn normalize_heat(v: &KamstrupValues) -> (r: HeatReading)
    requires
        v.wf(),
    ensures
        r == heat_reading_of(*v),
        r.wf(),
        v.timestamp is None ==> r.timestamp == (v.hourcounter / 1000) * 3600 + 1454461908,
        v.timestamp matches Some(t) ==> r.timestamp == t,
{
    let hours = v.hourcounter / 1000;
    let timestamp = match v.timestamp {
        Some(t) => t,
        None => {
            assert(hours * 3600 + 1454461908 <= i64::MAX) by (nonlinear_arith)
                requires
                    hours <= MAX_HOURS,
            ;
            hours as i64 * SECONDS_PER_HOUR + HOUR_ZERO
        },
    };
    HeatReading { timestamp, energy: v.energy, volume: v.volume, hourcounter: hours }
}

/// Maps the live feed's tariff name to its code. Unlike the legacy log, whose
/// lines with a tariff other than 1 or 2 are rejected, the live feed stores an
/// unknown tariff name as 0; the two sources are kept as they behave.
pub fn tariff_code(s: &String) -> (r: u8)
    ensures
        r == tariff_code_of(s@),
{
    proof {
        reveal_strlit("Tariff1");
        reveal_strlit("Tariff2");
    }
    let t1 = "Tariff1".to_owned();
    let t2 = "Tariff2".to_owned();
    if *s == t1 {
        1
    } else if *s == t2 {
        2
    } else {
        0
    }
}

/// Turns a live electricity record into the reading that is stored.
pub fn normalize_dsmr(m: &DSMRMeasurements) -> (r: ElectricityReading)
    requires
        m.wf(),
    ensures
        r == electricity_reading_of(*m),
        r.wf(),
{
    ElectricityReading {
        timestamp: m.timestamp,
        used_t1: m.electricity_used_t1,
        used_t2: m.electricity_used_t2,
        active_tariff: tariff_code(&m.active_tariff),
        current_usage: Some(m.current_electricity_usage),
    }
}

} // verus!
