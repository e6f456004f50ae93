use energyhub::adapters::JsonScalar;
use energyhub::parse::{
    dsmr_from_scalars, electricity_from_fields, kamstrup_from_scalars, parse_dsmr_json,
    parse_dsmr_line, parse_kamstrup,
};
use energyhub::records::{
    normalize_dsmr, normalize_heat, tariff_code, ElectricityReading, Field, HeatReading,
    IngestError, KamstrupValues,
};
use energyhub::text::{parse_milli, parse_tariff, split_chars, trim_nul_chars};

fn chars(s: &str) -> Vec<char> {
    s.chars().collect()
}

#[test]
fn legacy_line_example() {
    let r = parse_dsmr_line("2021-01-01T00:00:00+01:00\t1\t1.234\t0.000");
    assert_eq!(
        r,
        Ok(ElectricityReading {
            timestamp: 1609455600,
            used_t1: 1234,
            used_t2: 0,
            active_tariff: 1,
            current_usage: None,
        })
    );
}

#[test]
fn legacy_line_nul_padding_is_trimmed() {
    let r = parse_dsmr_line("\0\02021-01-01T00:00:00+01:00\t2\t5\t0.5\0");
    assert_eq!(
        r,
        Ok(ElectricityReading {
            timestamp: 1609455600,
            used_t1: 5000,
            used_t2: 500,
            active_tariff: 2,
            current_usage: None,
        })
    );
}

#[test]
fn legacy_line_truncates_past_three_decimals() {
    let r = parse_dsmr_line("2021-01-01T00:00:00Z\t1\t1.2349\t0.0009").unwrap();
    assert_eq!(r.used_t1, 1234);
    assert_eq!(r.used_t2, 0);
    assert_eq!(r.timestamp, 1609459200);
    // back to physical units, to three decimals
    assert_eq!(r.used_t1 as f64 / 1000.0, 1.234);
}

#[test]
fn legacy_line_invalid_tariff() {
    assert_eq!(
        parse_dsmr_line("2021-01-01T00:00:00+01:00\t3\t1.234\t0.000"),
        Err(IngestError::InvalidTariff)
    );
    assert_eq!(
        parse_dsmr_line("2021-01-01T00:00:00+01:00\t0\t1.234\t0.000"),
        Err(IngestError::InvalidTariff)
    );
    assert_eq!(
        parse_dsmr_line("2021-01-01T00:00:00+01:00\tx\t1.234\t0.000"),
        Err(IngestError::BadField(Field::ActiveTariff))
    );
    assert_eq!(
        parse_dsmr_line("2021-01-01T00:00:00+01:00\t300\t1.234\t0.000"),
        Err(IngestError::InvalidTariff)
    );
    assert_eq!(
        parse_dsmr_line("2021-01-01T00:00:00+01:00\t-1\t1.234\t0.000"),
        Err(IngestError::InvalidTariff)
    );
}

#[test]
fn legacy_line_wrong_arity() {
    assert_eq!(parse_dsmr_line("2021-01-01T00:00:00+01:00\t1\t1.234"), Err(IngestError::Arity));
    assert_eq!(
        parse_dsmr_line("2021-01-01T00:00:00+01:00\t1\t1.234\t0\t9"),
        Err(IngestError::Arity)
    );
    assert_eq!(parse_dsmr_line(""), Err(IngestError::Arity));
}

#[test]
fn legacy_line_bad_fields() {
    assert_eq!(
        parse_dsmr_line("yesterday\t1\t1.234\t0.000"),
        Err(IngestError::BadField(Field::Timestamp))
    );
    assert_eq!(
        parse_dsmr_line("2021-01-01T00:00:00+01:00\t1\tabc\t0.000"),
        Err(IngestError::BadField(Field::UsedT1))
    );
    assert_eq!(
        parse_dsmr_line("2021-01-01T00:00:00+01:00\t1\t1.0\t1."),
        Err(IngestError::BadField(Field::UsedT2))
    );
}

#[test]
fn fields_after_the_timestamp() {
    assert_eq!(
        electricity_from_fields(Some(7), &chars("+2"), &chars("0.001"), &chars("10")),
        Ok(ElectricityReading {
            timestamp: 7,
            used_t1: 1,
            used_t2: 10000,
            active_tariff: 2,
            current_usage: None,
        })
    );
    assert_eq!(
        electricity_from_fields(None, &chars("1"), &chars("1"), &chars("1")),
        Err(IngestError::BadField(Field::Timestamp))
    );
}

#[test]
fn decimal_text_to_milli_units() {
    assert_eq!(parse_milli(&chars("1.234")), Some(1234));
    assert_eq!(parse_milli(&chars("0")), Some(0));
    assert_eq!(parse_milli(&chars("12")), Some(12000));
    assert_eq!(parse_milli(&chars("100.7")), Some(100700));
    assert_eq!(parse_milli(&chars("0.99999")), Some(999));
    assert_eq!(parse_milli(&chars("9223372036854775.807")), Some(9223372036854775807));
    assert_eq!(parse_milli(&chars("9223372036854775.808")), None);
    assert_eq!(parse_milli(&chars("99999999999999999999")), None);
    assert_eq!(parse_milli(&chars("")), None);
    assert_eq!(parse_milli(&chars(".5")), None);
    assert_eq!(parse_milli(&chars("-1.5")), None);
    assert_eq!(parse_milli(&chars("1.2.3")), None);
    assert_eq!(parse_milli(&chars("1e3")), None);
}

#[test]
fn tariff_texts() {
    assert_eq!(parse_tariff(&chars("1")), Some(1));
    assert_eq!(parse_tariff(&chars("+2")), Some(2));
    assert_eq!(parse_tariff(&chars("02")), Some(2));
    assert_eq!(parse_tariff(&chars("3")), Some(0));
    assert_eq!(parse_tariff(&chars("-1")), Some(0));
    assert_eq!(parse_tariff(&chars("300")), Some(0));
    assert_eq!(parse_tariff(&chars("99999999999999999999999")), Some(0));
    assert_eq!(parse_tariff(&chars("+")), None);
    assert_eq!(parse_tariff(&chars("")), None);
    assert_eq!(parse_tariff(&chars("1.0")), None);
}

#[test]
fn error_messages() {
    assert_eq!(IngestError::InvalidTariff.message(), "invalid tariff");
    assert_eq!(IngestError::Json.message(), "malformed JSON");
    assert_eq!(IngestError::BadField(Field::Energy).message(), "malformed field: energy");
    let e = parse_dsmr_line("2021-01-01T00:00:00+01:00\t3\t1.234\t0.000").unwrap_err();
    assert_eq!(e.message(), "invalid tariff");
}

#[test]
fn trimming_and_splitting() {
    assert_eq!(trim_nul_chars(&chars("\0a\0b\0\0")), chars("a\0b"));
    assert_eq!(trim_nul_chars(&chars("\0\0")), chars(""));
    assert_eq!(
        split_chars(&chars("a\t\tbc"), '\t'),
        vec![chars("a"), chars(""), chars("bc")]
    );
    assert_eq!(split_chars(&chars(""), '\t'), vec![chars("")]);
}

#[test]
fn heat_json_without_timestamp() {
    let v = parse_kamstrup(br#"{"energy":10.5,"volume":2.0,"hourcounter":100.7}"#).unwrap();
    assert_eq!(
        v,
        KamstrupValues { timestamp: None, energy: 10500, volume: 2000, hourcounter: 100700 }
    );
    assert_eq!(
        normalize_heat(&v),
        HeatReading { timestamp: 1454821908, energy: 10500, volume: 2000, hourcounter: 100 }
    );
}

#[test]
fn heat_json_derived_timestamp_formula() {
    let v = parse_kamstrup(br#"{"energy":0,"volume":0,"hourcounter":0.999,"temp1":1.5,"temp2":2}"#)
        .unwrap();
    assert_eq!(normalize_heat(&v).timestamp, 1454461908);
    let v = parse_kamstrup(br#"{"timestamp":null,"energy":1,"volume":1,"hourcounter":24}"#).unwrap();
    assert_eq!(normalize_heat(&v).timestamp, 24 * 3600 + 1454461908);
}

#[test]
fn heat_json_explicit_timestamp_wins() {
    let v = parse_kamstrup(
        br#"{"timestamp":"2021-01-01T00:00:00+01:00","energy":1.5,"volume":0.25,"hourcounter":100.7}"#,
    )
    .unwrap();
    assert_eq!(v.timestamp, Some(1609455600));
    let h = normalize_heat(&v);
    assert_eq!(h.timestamp, 1609455600);
    assert_eq!(h.hourcounter, 100);
}

#[test]
fn heat_json_errors() {
    assert_eq!(parse_kamstrup(b"{not json"), Err(IngestError::Json));
    assert_eq!(
        parse_kamstrup(br#"{"volume":2.0,"hourcounter":1}"#),
        Err(IngestError::BadField(Field::Energy))
    );
    assert_eq!(
        parse_kamstrup(br#"{"energy":"10","volume":2.0,"hourcounter":1}"#),
        Err(IngestError::BadField(Field::Energy))
    );
    assert_eq!(
        parse_kamstrup(br#"{"timestamp":"soon","energy":1,"volume":2.0,"hourcounter":1}"#),
        Err(IngestError::BadField(Field::Timestamp))
    );
    assert_eq!(
        parse_kamstrup(br#"{"energy":1,"volume":2.0,"hourcounter":-1}"#),
        Err(IngestError::BadField(Field::HourCounter))
    );
}

#[test]
fn heat_from_scalars() {
    let r = kamstrup_from_scalars(
        &JsonScalar::Null,
        &JsonScalar::Number("3.5".to_string()),
        &JsonScalar::Number("4".to_string()),
        &JsonScalar::Number("99999999999999999999".to_string()),
    );
    assert_eq!(r, Err(IngestError::BadField(Field::HourCounter)));
    let r = kamstrup_from_scalars(
        &JsonScalar::Null,
        &JsonScalar::Number("3.5".to_string()),
        &JsonScalar::Other,
        &JsonScalar::Number("1".to_string()),
    );
    assert_eq!(r, Err(IngestError::BadField(Field::Volume)));
}

#[test]
fn live_electricity_json() {
    let m = parse_dsmr_json(
        br#"{"timestamp":"2021-01-01T00:00:00+01:00","ActiveTariff":"Tariff2","ElectricityUsedT1":1.5,"ElectricityUsedT2":2.25,"CurrentElectricityUsage":0.3,"CurrentElectricityDraw":0.1}"#,
    )
    .unwrap();
    assert_eq!(
        normalize_dsmr(&m),
        ElectricityReading {
            timestamp: 1609455600,
            used_t1: 1500,
            used_t2: 2250,
            active_tariff: 2,
            current_usage: Some(300),
        }
    );
}

#[test]
fn live_electricity_unknown_tariff_is_zero() {
    let m = dsmr_from_scalars(
        &JsonScalar::Text("2021-01-01T00:00:00Z".to_string()),
        &JsonScalar::Text("Tariff3".to_string()),
        &JsonScalar::Number("1".to_string()),
        &JsonScalar::Number("2".to_string()),
        &JsonScalar::Number("3".to_string()),
    )
    .unwrap();
    assert_eq!(normalize_dsmr(&m).active_tariff, 0);
    assert_eq!(tariff_code(&"Tariff1".to_string()), 1);
    assert_eq!(tariff_code(&"Tariff2".to_string()), 2);
    assert_eq!(tariff_code(&"tariff1".to_string()), 0);
}

#[test]
fn live_electricity_json_errors() {
    assert_eq!(
        parse_dsmr_json(br#"{"ActiveTariff":"Tariff1","ElectricityUsedT1":1,"ElectricityUsedT2":1,"CurrentElectricityUsage":1}"#).map(|_| ()),
        Err(IngestError::BadField(Field::Timestamp))
    );
    assert_eq!(
        parse_dsmr_json(br#"{"timestamp":"2021-01-01T00:00:00Z","ActiveTariff":1,"ElectricityUsedT1":1,"ElectricityUsedT2":1,"CurrentElectricityUsage":1}"#).map(|_| ()),
        Err(IngestError::BadField(Field::ActiveTariff))
    );
    assert_eq!(parse_dsmr_json(b"[").map(|_| ()), Err(IngestError::Json));
}
