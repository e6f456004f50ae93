use vstd::prelude::*;

use crate::adapters::{
    is_json, json_member, json_member_of, json_parses, offset_datetime_seconds, parse_timestamp,
    JsonScalar,
};
use crate::records::{
    DSMRMeasurements, ElectricityReading, Field, IngestError, KamstrupValues, MAX_HOURS,
};
use crate::text::{
    chars_of, digits_value, fraction_part, integer_part_len, is_decimal_split, is_digit, milli_of,
    law_nul_padding_trimmed, parse_milli, parse_tariff, tariff_of, is_integer_text, integer_value, split_chars, split_on, thousandths, trim_nul,
    trim_nul_chars,
};

verus! {

/// A legacy electricity line, given the instant its first field names (if
/// any) and its other three fields.
pub open spec fn electricity_fields_result(
    timestamp: Option<i64>,
    tariff: Seq<char>,
    used_t1: Seq<char>,
    used_t2: Seq<char>,
) -> Result<ElectricityReading, IngestError> {
    match timestamp {
        None => Err(IngestError::BadField(Field::Timestamp)),
        Some(ts) => match tariff_of(tariff) {
            None => Err(IngestError::BadField(Field::ActiveTariff)),
            Some(t) => match milli_of(used_t1) {
                None => Err(IngestError::BadField(Field::UsedT1)),
                Some(u1) => match milli_of(used_t2) {
                    None => Err(IngestError::BadField(Field::UsedT2)),
                    Some(u2) => if t != 1 && t != 2 {
                        Err(IngestError::InvalidTariff)
                    } else {
                        Ok(
                            ElectricityReading {
                                timestamp: ts,
                                used_t1: u1,
                                used_t2: u2,
                                active_tariff: t,
                                current_usage: None,
                            },
                        )
                    },
                },
            },
        },
    }
}

/// The fields of a legacy line: tab-separated, NUL padding removed.
pub open spec fn legacy_fields(line: Seq<char>) -> Seq<Seq<char>> {
    split_on(trim_nul(line), '\t')
}

/// What a legacy tab-separated electricity line reads as.
pub open spec fn dsmr_line_result(line: Seq<char>) -> Result<ElectricityReading, IngestError> {
    let f = legacy_fields(line);
    if f.len() != 4 {
        Err(IngestError::Arity)
    } else {
        electricity_fields_result(offset_datetime_seconds(f[0]), f[1], f[2], f[3])
    }
}

/// Builds an electricity reading from the fields of a legacy line, the first
/// already read as an instant.
pub fn electricity_from_fields(
    timestamp: Option<i64>,
    tariff: &Vec<char>,
    used_t1: &Vec<char>,
    used_t2: &Vec<char>,
) -> (r: Result<ElectricityReading, IngestError>)
    ensures
        r == electricity_fields_result(timestamp, tariff@, used_t1@, used_t2@),
        r matches Ok(e) ==> e.wf(),
{
    let ts = match timestamp {
        None => {
            return Err(IngestError::BadField(Field::Timestamp));
        },
        Some(ts) => ts,
    };
    let t = match parse_tariff(tariff) {
        None => {
            return Err(IngestError::BadField(Field::ActiveTariff));
        },
        Some(t) => t,
    };
    let u1 = match parse_milli(used_t1) {
        None => {
            return Err(IngestError::BadField(Field::UsedT1));
        },
        Some(u) => u,
    };
    let u2 = match parse_milli(used_t2) {
        None => {
            return Err(IngestError::BadField(Field::UsedT2));
        },
        Some(u) => u,
    };
    if t != 1 && t != 2 {
        return Err(IngestError::InvalidTariff);
    }
    Ok(ElectricityReading { timestamp: ts, used_t1: u1, used_t2: u2, active_tariff: t, current_usage: None })
}

/// Reads one line of the legacy electricity log.
pub fn parse_dsmr_line(line: &str) -> (r: Result<ElectricityReading, IngestError>)
    ensures
        r == dsmr_line_result(line@),
        r matches Ok(e) ==> e.wf(),
{
    let chars = chars_of(line);
    let trimmed = trim_nul_chars(&chars);
    let fields = split_chars(&trimmed, '\t');
    if fields.len() != 4 {
        return Err(IngestError::Arity);
    }
    let ts = parse_timestamp(&fields[0]);
    electricity_from_fields(ts, &fields[1], &fields[2], &fields[3])
}

/// A JSON scalar that must be a number, as milli-units.
pub open spec fn milli_field(s: JsonScalar, f: Field) -> Result<u64, IngestError> {
    match s {
        JsonScalar::Number(t) => match milli_of(t@) {
            Some(v) => Ok(v),
            None => Err(IngestError::BadField(f)),
        },
        _ => Err(IngestError::BadField(f)),
    }
}

/// A JSON scalar that must be a date-time text, as Unix seconds.
pub open spec fn instant_field(s: JsonScalar) -> Result<i64, IngestError> {
    match s {
        JsonScalar::Text(t) => match offset_datetime_seconds(t@) {
            Some(v) => Ok(v),
            None => Err(IngestError::BadField(Field::Timestamp)),
        },
        _ => Err(IngestError::BadField(Field::Timestamp)),
    }
}

/// A heat record from the scalars of its JSON members (a missing member reads
/// as `Null`); a null or missing timestamp is absent.
pub open spec fn kamstrup_result(
    timestamp: JsonScalar,
    energy: JsonScalar,
    volume: JsonScalar,
    hourcounter: JsonScalar,
) -> Result<KamstrupValues, IngestError> {
    let ts: Result<Option<i64>, IngestError> = match timestamp {
        JsonScalar::Null => Ok(None),
        _ => match instant_field(timestamp) {
            Ok(t) => Ok(Some(t)),
            Err(e) => Err(e),
        },
    };
    match ts {
        Err(e) => Err(e),
        Ok(ts) => match milli_field(energy, Field::Energy) {
            Err(e) => Err(e),
            Ok(en) => match milli_field(volume, Field::Volume) {
                Err(e) => Err(e),
                Ok(vo) => match milli_field(hourcounter, Field::HourCounter) {
                    Err(e) => Err(e),
                    Ok(h) => if h / 1000 > MAX_HOURS {
                        Err(IngestError::BadField(Field::HourCounter))
                    } else {
                        Ok(KamstrupValues { timestamp: ts, energy: en, volume: vo, hourcounter: h })
                    },
                },
            },
        },
    }
}

/// An electricity record of the live feed from the scalars of its JSON
/// members (a missing member reads as `Null`).
pub open spec fn dsmr_result(
    timestamp: JsonScalar,
    tariff: JsonScalar,
    used_t1: JsonScalar,
    used_t2: JsonScalar,
    usage: JsonScalar,
) -> Result<(i64, Seq<char>, u64, u64, u64), IngestError> {
    match instant_field(timestamp) {
        Err(e) => Err(e),
        Ok(ts) => match tariff {
            JsonScalar::Text(t) => match milli_field(used_t1, Field::UsedT1) {
                Err(e) => Err(e),
                Ok(u1) => match milli_field(used_t2, Field::UsedT2) {
                    Err(e) => Err(e),
                    Ok(u2) => match milli_field(usage, Field::CurrentUsage) {
                        Err(e) => Err(e),
                        Ok(cu) => Ok((ts, t@, u1, u2, cu)),
                    },
                },
            },
            _ => Err(IngestError::BadField(Field::ActiveTariff)),
        },
    }
}

/// `r` is the record that `res` describes, or its error.
pub open spec fn dsmr_record_fits(
    r: Result<DSMRMeasurements, IngestError>,
    res: Result<(i64, Seq<char>, u64, u64, u64), IngestError>,
) -> bool {
    match res {
        Ok((ts, t, u1, u2, cu)) => r matches Ok(m) && m.timestamp == ts && m.active_tariff@ == t
            && m.electricity_used_t1 == u1 && m.electricity_used_t2 == u2
            && m.current_electricity_usage == cu,
        Err(e) => r == Err::<DSMRMeasurements, IngestError>(e),
    }
}

/// `r` is what the live electricity record with these member scalars reads as.
pub open spec fn dsmr_fits(
    r: Result<DSMRMeasurements, IngestError>,
    timestamp: JsonScalar,
    tariff: JsonScalar,
    used_t1: JsonScalar,
    used_t2: JsonScalar,
    usage: JsonScalar,
) -> bool {
    dsmr_record_fits(r, dsmr_result(timestamp, tariff, used_t1, used_t2, usage))
}

/// What a heat payload reads as: a JSON error, or the record of its members.
pub open spec fn kamstrup_payload_result(p: Seq<u8>) -> Result<KamstrupValues, IngestError> {
    if !json_parses(p) {
        Err(IngestError::Json)
    } else {
        kamstrup_result(
            json_member_of(p, "timestamp"@),
            json_member_of(p, "energy"@),
            json_member_of(p, "volume"@),
            json_member_of(p, "hourcounter"@),
        )
    }
}

/// What a live electricity payload reads as: a JSON error, or the record of
/// its members.
pub open spec fn dsmr_payload_result(p: Seq<u8>) -> Result<(i64, Seq<char>, u64, u64, u64), IngestError> {
    if !json_parses(p) {
        Err(IngestError::Json)
    } else {
        dsmr_result(
            json_member_of(p, "timestamp"@),
            json_member_of(p, "ActiveTariff"@),
            json_member_of(p, "ElectricityUsedT1"@),
            json_member_of(p, "ElectricityUsedT2"@),
            json_member_of(p, "CurrentElectricityUsage"@),
        )
    }
}

fn milli_from_scalar(s: &JsonScalar, f: Field) -> (r: Result<u64, IngestError>)
    ensures
        r == milli_field(*s, f),
{
    match s {
        JsonScalar::Number(t) => {
            let cs = chars_of(t.as_str());
            match parse_milli(&cs) {
                Some(v) => Ok(v),
                None => Err(IngestError::BadField(f)),
            }
        },
        _ => Err(IngestError::BadField(f)),
    }
}

fn instant_from_scalar(s: &JsonScalar) -> (r: Result<i64, IngestError>)
    ensures
        r == instant_field(*s),
{
    match s {
        JsonScalar::Text(t) => {
            let cs = chars_of(t.as_str());
            match parse_timestamp(&cs) {
                Some(v) => Ok(v),
                None => Err(IngestError::BadField(Field::Timestamp)),
            }
        },
        _ => Err(IngestError::BadField(Field::Timestamp)),
    }
}

/// Builds a heat record from the scalars of its JSON members.
pub fn kamstrup_from_scalars(
    timestamp: &JsonScalar,
    energy: &JsonScalar,
    volume: &JsonScalar,
    hourcounter: &JsonScalar,
) -> (r: Result<KamstrupValues, IngestError>)
    ensures
        r == kamstrup_result(*timestamp, *energy, *volume, *hourcounter),
        r matches Ok(v) ==> v.wf(),
{
    let ts = match timestamp {
        JsonScalar::Null => None,
        _ => match instant_from_scalar(timestamp) {
            Ok(t) => Some(t),
            Err(e) => {
                return Err(e);
            },
        },
    };
    let en = match milli_from_scalar(energy, Field::Energy) {
        Ok(v) => v,
        Err(e) => {
            return Err(e);
        },
    };
    let vo = match milli_from_scalar(volume, Field::Volume) {
        Ok(v) => v,
        Err(e) => {
            return Err(e);
        },
    };
    let h = match milli_from_scalar(hourcounter, Field::HourCounter) {
        Ok(v) => v,
        Err(e) => {
            return Err(e);
        },
    };
    if h / 1000 > MAX_HOURS {
        return Err(IngestError::BadField(Field::HourCounter));
    }
    Ok(KamstrupValues { timestamp: ts, energy: en, volume: vo, hourcounter: h })
}

/// Builds a live electricity record from the scalars of its JSON members.
pub fn dsmr_from_scalars(
    timestamp: &JsonScalar,
    tariff: &JsonScalar,
    used_t1: &JsonScalar,
    used_t2: &JsonScalar,
    usage: &JsonScalar,
) -> (r: Result<DSMRMeasurements, IngestError>)
    ensures
        dsmr_fits(r, *timestamp, *tariff, *used_t1, *used_t2, *usage),
        r matches Ok(m) ==> m.wf(),
{
    let ts = match instant_from_scalar(timestamp) {
        Ok(t) => t,
        Err(e) => {
            return Err(e);
        },
    };
    let t = match tariff {
        JsonScalar::Text(t) => t.clone(),
        _ => {
            return Err(IngestError::BadField(Field::ActiveTariff));
        },
    };
    let u1 = match milli_from_scalar(used_t1, Field::UsedT1) {
        Ok(v) => v,
        Err(e) => {
            return Err(e);
        },
    };
    let u2 = match milli_from_scalar(used_t2, Field::UsedT2) {
        Ok(v) => v,
        Err(e) => {
            return Err(e);
        },
    };
    let cu = match milli_from_scalar(usage, Field::CurrentUsage) {
        Ok(v) => v,
        Err(e) => {
            return Err(e);
        },
    };
    Ok(
        DSMRMeasurements {
            timestamp: ts,
            active_tariff: t,
            electricity_used_t1: u1,
            electricity_used_t2: u2,
            current_electricity_usage: cu,
        },
    )
}

/// Reads a heat record from one JSON document (a log line or a payload).
pub fn parse_kamstrup(payload: &[u8]) -> (r: Result<KamstrupValues, IngestError>)
    ensures
        r == kamstrup_payload_result(payload@),
        r matches Ok(v) ==> v.wf(),
{
    if !is_json(payload) {
        return Err(IngestError::Json);
    }
    let ts = json_member(payload, "timestamp");
    let en = json_member(payload, "energy");
    let vo = json_member(payload, "volume");
    let h = json_member(payload, "hourcounter");
    kamstrup_from_scalars(&ts, &en, &vo, &h)
}

/// Reads an electricity record of the live feed from one JSON payload.
pub fn parse_dsmr_json(payload: &[u8]) -> (r: Result<DSMRMeasurements, IngestError>)
    ensures
        dsmr_record_fits(r, dsmr_payload_result(payload@)),
        r matches Ok(m) ==> m.wf(),
{
    if !is_json(payload) {
        return Err(IngestError::Json);
    }
    let ts = json_member(payload, "timestamp");
    let t = json_member(payload, "ActiveTariff");
    let u1 = json_member(payload, "ElectricityUsedT1");
    let u2 = json_member(payload, "ElectricityUsedT2");
    let cu = json_member(payload, "CurrentElectricityUsage");
    dsmr_from_scalars(&ts, &t, &u1, &u2, &cu)
}

/// Reading a decimal text as milli-units keeps its integer part and its first
/// three decimal digits: dividing the stored integer by 1000 gives the integer
/// part back, and the remainder gives the thousandths (the text truncated
/// toward zero).
pub proof fn law_milli_round_trip(s: Seq<char>)
    requires
        milli_of(s) is Some,
    ensures
        ({
            let v = milli_of(s)->0;
            let k = integer_part_len(s);
            &&& v / 1000 == digits_value(s.take(k))
            &&& v % 1000 == thousandths(fraction_part(s, k))
        }),
{
    let k = integer_part_len(s);
    let f = fraction_part(s, k);
    assert(is_decimal_split(s, k));
    if f.len() > 0 {
        assert(is_digit(f[0]));
    }
    if f.len() > 1 {
        assert(is_digit(f[1]));
    }
    if f.len() > 2 {
        assert(is_digit(f[2]));
    }
    let a = digits_value(s.take(k));
    let b = thousandths(f);
    assert(b < 1000);
    assert((a * 1000 + b) / 1000 == a && (a * 1000 + b) % 1000 == b) by (nonlinear_arith)
        requires
            b < 1000,
    ;
}

/// A legacy line that is stored keeps what it says: the instant of its first
/// field, its tariff (1 or 2), and both counters to three decimal places
/// (integer part and thousandths, truncated toward zero).
pub proof fn law_dsmr_round_trip(line: Seq<char>)
    requires
        dsmr_line_result(line) is Ok,
    ensures
        ({
            let e = dsmr_line_result(line)->Ok_0;
            let f = legacy_fields(line);
            let k1 = integer_part_len(f[2]);
            let k2 = integer_part_len(f[3]);
            &&& f.len() == 4
            &&& Some(e.timestamp) == offset_datetime_seconds(f[0])
            &&& e.active_tariff as int == integer_value(f[1])
            &&& e.active_tariff == 1 || e.active_tariff == 2
            &&& e.used_t1 / 1000 == digits_value(f[2].take(k1))
            &&& e.used_t1 % 1000 == thousandths(fraction_part(f[2], k1))
            &&& e.used_t2 / 1000 == digits_value(f[3].take(k2))
            &&& e.used_t2 % 1000 == thousandths(fraction_part(f[3], k2))
            &&& e.current_usage is None
        }),
{
    let f = legacy_fields(line);
    law_milli_round_trip(f[2]);
    law_milli_round_trip(f[3]);
}

/// NUL padding at either end of a legacy line changes nothing of what it
/// reads as.
pub proof fn law_dsmr_nul_padding(line: Seq<char>)
    ensures
        dsmr_line_result(seq!['\0'] + line) == dsmr_line_result(line),
        dsmr_line_result(line.push('\0')) == dsmr_line_result(line),
{
    law_nul_padding_trimmed(line);
}

/// A legacy line whose fields all read but whose tariff is an integer other
/// than 1 or 2
/// fails with the tariff error, so nothing of it is stored.
pub proof fn law_invalid_tariff_rejected(line: Seq<char>)
    requires
        legacy_fields(line).len() == 4,
        offset_datetime_seconds(legacy_fields(line)[0]) is Some,
        is_integer_text(legacy_fields(line)[1]),
        integer_value(legacy_fields(line)[1]) != 1 && integer_value(legacy_fields(line)[1]) != 2,
        milli_of(legacy_fields(line)[2]) is Some,
        milli_of(legacy_fields(line)[3]) is Some,
    ensures
        dsmr_line_result(line) == Err::<ElectricityReading, IngestError>(IngestError::InvalidTariff),
{
}

} // verus!
