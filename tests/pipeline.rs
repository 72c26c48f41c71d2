use std::collections::VecDeque;

use guntamatic::reading::{DataType, Description, ReadingEntry, ReadingSnapshot, Scalar};
use guntamatic::sink_influxdb::{
    daq_data_to_points, entry_to_point, field_value, measurement_key, measurement_name, points_from_names,
    timestamp_from_nanos, FieldValue, SinkPoint,
};
use guntamatic::stream::{on_received, on_written, DrainAction, FetchError, Options, Poller, Sink, SinkError};
use guntamatic::{decide_exit, parse_duration, ExitDecision, ExitEvent, ParseIntError};

fn entry(id: &str, name: &str, typ: DataType, value: Scalar) -> ReadingEntry {
    ReadingEntry {
        description: Description { id: id.to_string(), name: name.to_string(), typ },
        value,
    }
}

fn int_value(i: i64) -> Scalar {
    Scalar { as_bool: None, as_i64: Some(i), as_f64_bits: Some((i as f64).to_bits()), as_str: None }
}

fn text_value(s: &str) -> Scalar {
    Scalar { as_bool: None, as_i64: None, as_f64_bits: None, as_str: Some(s.to_string()) }
}

fn same_field(a: &FieldValue, b: &FieldValue) -> bool {
    match (a, b) {
        (FieldValue::Boolean(x), FieldValue::Boolean(y)) => x == y,
        (FieldValue::Integer(x), FieldValue::Integer(y)) => x == y,
        (FieldValue::Float(x), FieldValue::Float(y)) => x == y,
        (FieldValue::String(x), FieldValue::String(y)) => x == y,
        _ => false,
    }
}

fn same_point(a: &SinkPoint, b: &SinkPoint) -> bool {
    a.measurement == b.measurement && a.timestamp == b.timestamp && same_field(&a.value, &b.value)
}

fn influx_options() -> Options {
    Options {
        interval_secs: 1,
        sink: Sink::InfluxDB(guntamatic::sink_influxdb::Options {
            url: "http://localhost:8086".to_string(),
            token: "SECRET-REDACTED".to_string(),
            bucket: "daq".to_string(),
            org: "home".to_string(),
        }),
    }
}

#[test]
fn parse_duration_reads_seconds() {
    assert_eq!(parse_duration("30"), Ok(30));
    assert_eq!(parse_duration("+5"), Ok(5));
    assert_eq!(parse_duration("0"), Ok(0));
    assert_eq!(parse_duration("18446744073709551615"), Ok(u64::MAX));
}

#[test]
fn parse_duration_errors() {
    assert_eq!(parse_duration(""), Err(ParseIntError::Empty));
    assert_eq!(parse_duration("+"), Err(ParseIntError::InvalidDigit));
    assert_eq!(parse_duration("-5"), Err(ParseIntError::InvalidDigit));
    assert_eq!(parse_duration("1x"), Err(ParseIntError::InvalidDigit));
    assert_eq!(parse_duration(" 3"), Err(ParseIntError::InvalidDigit));
    assert_eq!(parse_duration("18446744073709551616"), Err(ParseIntError::PosOverflow));
    assert_eq!(parse_duration("99999999999999999999x"), Err(ParseIntError::PosOverflow));
}

#[test]
fn measurement_name_sanitizes_whitespace() {
    assert_eq!(measurement_name("A 1", "Flow  Rate"), "a-1_flow-rate".to_string());
    assert_eq!(measurement_name("T\t2", "Boiler\n Temp"), "t-2_boiler-temp".to_string());
}

#[test]
fn measurement_key_lowercases() {
    assert_eq!(measurement_key("AB", "Cd"), "ab_cd".to_string());
    assert_eq!(measurement_key("", ""), "_".to_string());
}

#[test]
fn integer_mismatch_encodes_zero() {
    let v = text_value("not a number");
    assert!(matches!(field_value(DataType::Integer, &v), FieldValue::Integer(0)));
    let daq = ReadingSnapshot { values: vec![entry("X", "Y", DataType::Integer, v)] };
    let points = daq_data_to_points(daq, 7);
    assert_eq!(points.len(), 1);
    assert!(matches!(points[0].value, FieldValue::Integer(0)));
}

#[test]
fn field_defaults_per_type() {
    let m = Scalar::missing();
    assert!(matches!(field_value(DataType::Boolean, &m), FieldValue::Boolean(false)));
    assert!(matches!(field_value(DataType::Integer, &m), FieldValue::Integer(0)));
    match field_value(DataType::Float, &m) {
        FieldValue::Float(bits) => assert_eq!(f64::from_bits(bits), 0.0),
        _ => panic!("expected a float"),
    }
    match field_value(DataType::String, &m) {
        FieldValue::String(s) => assert_eq!(s, ""),
        _ => panic!("expected a string"),
    }
}

#[test]
fn field_values_read_as_declared() {
    let b = Scalar { as_bool: Some(true), as_i64: None, as_f64_bits: None, as_str: None };
    assert!(matches!(field_value(DataType::Boolean, &b), FieldValue::Boolean(true)));
    assert!(matches!(field_value(DataType::Integer, &int_value(-42)), FieldValue::Integer(-42)));
    match field_value(DataType::Float, &int_value(3)) {
        FieldValue::Float(bits) => assert_eq!(f64::from_bits(bits), 3.0),
        _ => panic!("expected a float"),
    }
    match field_value(DataType::String, &text_value("on")) {
        FieldValue::String(s) => assert_eq!(s, "on"),
        _ => panic!("expected a string"),
    }
}

#[test]
fn encoding_twice_gives_same_points() {
    let daq = ReadingSnapshot {
        values: vec![
            entry("A 1", "Flow  Rate", DataType::Integer, int_value(12)),
            entry("B", "Mode", DataType::String, text_value("auto")),
        ],
    };
    let first = daq_data_to_points(daq.clone(), 1_000);
    let second = daq_data_to_points(daq, 1_000);
    assert_eq!(first.len(), 2);
    assert_eq!(first.len(), second.len());
    for (a, b) in first.iter().zip(second.iter()) {
        assert!(same_point(a, b));
    }
    assert_eq!(first[0].measurement, "a-1_flow-rate");
    assert_eq!(first[1].measurement, "b_mode");
    assert_eq!(first[0].timestamp, 1_000);
}

#[test]
fn points_follow_given_names() {
    let daq = ReadingSnapshot { values: vec![entry("I", "N", DataType::Integer, int_value(5))] };
    let points = points_from_names(&daq, &vec!["given".to_string()], 9);
    assert_eq!(points.len(), 1);
    assert_eq!(points[0].measurement, "given");
    assert_eq!(points[0].timestamp, 9);
    let p = entry_to_point(&daq.values[0], "other".to_string(), 3);
    assert_eq!(p.measurement, "other");
    assert!(matches!(p.value, FieldValue::Integer(5)));
}

#[test]
fn empty_snapshot_encodes_to_no_points() {
    let points = daq_data_to_points(ReadingSnapshot { values: vec![] }, 1);
    assert!(points.is_empty());
}

#[test]
fn timestamp_saturates() {
    assert_eq!(timestamp_from_nanos(5), 5);
    assert_eq!(timestamp_from_nanos(i64::MAX as u128), i64::MAX);
    assert_eq!(timestamp_from_nanos(u128::MAX), i64::MAX);
}

#[test]
fn poller_forwards_successes_and_always_sleeps() {
    let poller = Poller::new(&influx_options());
    let ok = poller.after_fetch(Ok(ReadingSnapshot { values: vec![] }));
    assert!(ok.forward.is_some());
    assert_eq!(ok.sleep_secs, 1);
    let failed = poller.after_fetch(Err(FetchError { message: "unreachable".to_string() }));
    assert!(failed.forward.is_none());
    assert_eq!(failed.sleep_secs, 1);
}

#[test]
fn fetch_attempts_follow_interval() {
    let poller = Poller { interval_secs: 3 };
    let runtime: u64 = 10;
    let mut clock: u64 = 0;
    let mut attempts: u64 = 0;
    while clock < runtime {
        attempts += 1;
        let fetched = if attempts % 2 == 0 {
            Err(FetchError { message: "timeout".to_string() })
        } else {
            Ok(ReadingSnapshot { values: vec![] })
        };
        clock += poller.after_fetch(fetched).sleep_secs;
    }
    assert_eq!(attempts, 4);
}

#[test]
fn drain_stops_only_on_closed_queue() {
    assert!(matches!(on_received(None, 1), DrainAction::Stop));
    let daq = ReadingSnapshot { values: vec![entry("a", "b", DataType::Integer, int_value(1))] };
    match on_received(Some(daq), u128::MAX) {
        DrainAction::Write(points) => {
            assert_eq!(points.len(), 1);
            assert_eq!(points[0].timestamp, i64::MAX);
        }
        _ => panic!("expected a write"),
    }
}

#[test]
fn sink_failure_does_not_stop_drain() {
    assert!(matches!(on_written(Err(SinkError { message: "unauthorized".to_string() })), DrainAction::Receive));
    assert!(matches!(on_written(Ok(())), DrainAction::Receive));
    let next = ReadingSnapshot { values: vec![entry("a", "b", DataType::Boolean, Scalar::missing())] };
    assert!(matches!(on_received(Some(next), 2), DrainAction::Write(_)));
}

#[test]
fn interrupt_exits_cleanly() {
    assert_eq!(decide_exit(&ExitEvent::Interrupted), ExitDecision { abort_pipeline: true, status: 0 });
    assert_eq!(decide_exit(&ExitEvent::Completed), ExitDecision { abort_pipeline: false, status: 0 });
    assert_eq!(decide_exit(&ExitEvent::PipelineEnded), ExitDecision { abort_pipeline: false, status: -1 });
    assert_eq!(
        decide_exit(&ExitEvent::Failed("bad address".to_string())),
        ExitDecision { abort_pipeline: false, status: -1 }
    );
}

#[test]
fn end_to_end_three_batches() {
    let poller = Poller::new(&influx_options());
    let mut queue: VecDeque<ReadingSnapshot> = VecDeque::new();
    for k in 0..3i64 {
        let snapshot = ReadingSnapshot {
            values: vec![
                entry("A", "One", DataType::Integer, int_value(k)),
                entry("B", "Two", DataType::Integer, int_value(10 + k)),
            ],
        };
        let step = poller.after_fetch(Ok(snapshot));
        assert_eq!(step.sleep_secs, 1);
        queue.push_back(step.forward.unwrap());
    }
    let mut batches: Vec<Vec<SinkPoint>> = Vec::new();
    let mut now: u128 = 1_000;
    loop {
        match on_received(queue.pop_front(), now) {
            DrainAction::Write(points) => {
                batches.push(points);
                assert!(matches!(on_written(Ok(())), DrainAction::Receive));
            }
            DrainAction::Receive => {}
            DrainAction::Stop => break,
        }
        now += 1_000_000_000;
    }
    assert_eq!(batches.len(), 3);
    for (k, batch) in batches.iter().enumerate() {
        assert_eq!(batch.len(), 2);
        assert_eq!(batch[0].timestamp, batch[1].timestamp);
        assert!(matches!(batch[0].value, FieldValue::Integer(v) if v == k as i64));
        assert!(matches!(batch[1].value, FieldValue::Integer(v) if v == 10 + k as i64));
    }
    assert!(batches[0][0].timestamp < batches[1][0].timestamp);
    assert!(batches[1][0].timestamp < batches[2][0].timestamp);
}
