use std::time::Duration;

use http::HeaderMap;

use agentic_gateway::error::ConfigError;
use agentic_gateway::pool_signals::{
    kv_cache_threshold, should_compact, EnvValue, Environment, Fraction, PoolSignals, Thresholds,
    Utilization, KV_CACHE_HEADER, METRICS_AGE_HEADER, RUNNING_REQUESTS_HEADER,
    WAITING_QUEUE_HEADER,
};

fn fraction(value: f64) -> Utilization {
    Utilization { bits: value.to_bits() }
}

fn read(text: &str) -> Result<Fraction, String> {
    match text.parse::<f64>() {
        Ok(value) => Ok(Fraction { value: fraction(value), shown: value.to_string() }),
        Err(error) => Err(error.to_string()),
    }
}

fn headers(pairs: &[(&str, &str)]) -> HeaderMap {
    let mut headers = HeaderMap::new();
    for (name, value) in pairs {
        headers.insert(
            http::HeaderName::from_bytes(name.as_bytes()).unwrap(),
            value.parse().unwrap(),
        );
    }
    headers
}

fn signals(kv_cache: f64, queue: u64) -> PoolSignals {
    PoolSignals {
        kv_cache_utilization: Some(fraction(kv_cache)),
        waiting_queue: Some(queue),
        running_requests: Some(0),
        age: Some(Duration::from_millis(5)),
    }
}

fn kv(threshold: f64) -> Thresholds {
    Thresholds {
        kv_cache_utilization: Some(fraction(threshold)),
        ..Thresholds::default()
    }
}

#[test]
fn reads_the_signals_llm_d_sends() {
    let signals = PoolSignals::from_headers(
        &headers(&[
            (KV_CACHE_HEADER, "0.8125"),
            (WAITING_QUEUE_HEADER, "7"),
            (RUNNING_REQUESTS_HEADER, "3"),
            (METRICS_AGE_HEADER, "460"),
        ]),
        read,
    )
    .expect("headers were present");

    assert_eq!(signals.kv_cache_utilization, Some(fraction(0.8125)));
    assert_eq!(signals.waiting_queue, Some(7));
    assert_eq!(signals.running_requests, Some(3));
    assert_eq!(signals.age, Some(Duration::from_millis(460)));
}

#[test]
fn absent_headers_are_not_a_reading_of_zero() {
    assert_eq!(
        PoolSignals::from_headers(&headers(&[("content-type", "application/json")]), read),
        None
    );

    let idle =
        PoolSignals::from_headers(&headers(&[(KV_CACHE_HEADER, "0.0000")]), read).expect("header was present");
    assert_eq!(idle.kv_cache_utilization, Some(fraction(0.0)));
}

#[test]
fn no_thresholds_always_compacts() {
    let none = Thresholds::default();
    assert!(should_compact(&none, Some(&signals(0.0, 0))));
    assert!(should_compact(&none, None));
}

#[test]
fn a_threshold_gates_on_the_reading() {
    let thresholds = Thresholds {
        kv_cache_utilization: Some(fraction(0.8)),
        ..Thresholds::default()
    };
    assert!(!should_compact(&thresholds, Some(&signals(0.79, 0))));
    assert!(should_compact(&thresholds, Some(&signals(0.80, 0))), "at the threshold");
    assert!(should_compact(&thresholds, Some(&signals(0.81, 0))));
}

#[test]
fn any_single_threshold_is_enough() {
    let thresholds = Thresholds {
        kv_cache_utilization: Some(fraction(0.8)),
        waiting_queue: Some(10),
        ..Thresholds::default()
    };
    assert!(should_compact(&thresholds, Some(&signals(0.1, 10))), "queue alone");
    assert!(should_compact(&thresholds, Some(&signals(0.9, 0))), "cache alone");
    assert!(!should_compact(&thresholds, Some(&signals(0.1, 0))), "neither");
}

#[test]
fn absent_signals_compact_rather_than_read_as_idle() {
    let thresholds = kv(0.8);
    assert!(should_compact(&thresholds, None));

    let unreported = PoolSignals {
        waiting_queue: Some(0),
        ..PoolSignals::default()
    };
    assert!(
        !should_compact(&thresholds, Some(&unreported)),
        "a reported metric below its threshold still gates"
    );
}

#[test]
fn a_stale_snapshot_is_not_trusted() {
    let thresholds = Thresholds {
        kv_cache_utilization: Some(fraction(0.8)),
        max_age: Some(Duration::from_secs(1)),
        ..Thresholds::default()
    };

    let fresh = PoolSignals {
        age: Some(Duration::from_millis(10)),
        ..signals(0.1, 0)
    };
    assert!(!should_compact(&thresholds, Some(&fresh)), "fresh and idle: skip");

    let stale = PoolSignals {
        age: Some(Duration::from_secs(30)),
        ..signals(0.1, 0)
    };
    assert!(should_compact(&thresholds, Some(&stale)), "too old to act on");
}

#[test]
fn a_bad_or_missing_value_does_not_discard_the_others() {
    let signals = PoolSignals::from_headers(
        &headers(&[(KV_CACHE_HEADER, "not-a-number"), (WAITING_QUEUE_HEADER, "7")]),
        read,
    )
    .expect("headers were present");

    assert_eq!(signals.kv_cache_utilization, None);
    assert_eq!(signals.waiting_queue, Some(7));
    assert_eq!(signals.age, None);
}

#[test]
fn a_snapshot_as_old_as_allowed_is_trusted() {
    let thresholds = Thresholds { max_age: Some(Duration::from_millis(5)), ..kv(0.8) };
    assert!(!should_compact(&thresholds, Some(&signals(0.1, 0))));
    let older = PoolSignals { age: Some(Duration::from_nanos(5_000_001)), ..signals(0.1, 0) };
    assert!(should_compact(&thresholds, Some(&older)));
    let undated = PoolSignals { age: None, ..signals(0.1, 0) };
    assert!(!should_compact(&thresholds, Some(&undated)));
}

#[test]
fn an_age_limit_alone_triggers_nothing() {
    let thresholds = Thresholds { max_age: Some(Duration::from_secs(1)), ..Thresholds::default() };
    assert!(!should_compact(&thresholds, Some(&signals(1.0, 1000))));
}

#[test]
fn running_requests_have_a_threshold_of_their_own() {
    let thresholds = Thresholds { running_requests: Some(4), ..Thresholds::default() };
    let busy = |n: u64| PoolSignals { running_requests: Some(n), ..signals(1.0, 1000) };
    assert!(!should_compact(&thresholds, Some(&busy(3))));
    assert!(should_compact(&thresholds, Some(&busy(4))));
    assert!(should_compact(&thresholds, Some(&busy(u64::MAX))));
}

#[test]
fn header_values_are_trimmed_and_may_carry_a_plus_sign() {
    let signals = PoolSignals::from_headers(
        &headers(&[
            (KV_CACHE_HEADER, "\t0.5 "),
            (WAITING_QUEUE_HEADER, " +18446744073709551615"),
            (RUNNING_REQUESTS_HEADER, "18446744073709551616"),
            (METRICS_AGE_HEADER, "-1"),
        ]),
        read,
    )
    .expect("headers were present");
    assert_eq!(signals.kv_cache_utilization, Some(fraction(0.5)));
    assert_eq!(signals.waiting_queue, Some(u64::MAX));
    assert_eq!(signals.running_requests, None);
    assert_eq!(signals.age, None);
}

#[test]
fn fractions_compare_as_numbers() {
    assert!(fraction(0.0).at_least(fraction(-0.0)));
    assert!(fraction(-0.0).at_least(fraction(0.0)));
    assert!(fraction(-1.0).at_least(fraction(-2.0)));
    assert!(!fraction(-2.0).at_least(fraction(-1.0)));
    assert!(fraction(f64::INFINITY).at_least(fraction(f64::MAX)));
    assert!(!fraction(f64::NAN).at_least(fraction(0.0)));
    assert!(!fraction(0.0).at_least(fraction(f64::NAN)));
    assert!(!fraction(0.0).at_least(fraction(f64::MIN_POSITIVE)));
    assert!(fraction(0.0) == fraction(-0.0));
    assert!(fraction(f64::NAN) != fraction(f64::NAN));
}

#[test]
fn only_fractions_between_zero_and_one_are_accepted() {
    for (value, accepted) in [
        (0.0, true),
        (-0.0, true),
        (0.5, true),
        (1.0, true),
        (1.0000000000000002, false),
        (-0.1, false),
        (f64::NAN, false),
        (f64::INFINITY, false),
    ] {
        assert_eq!(fraction(value).within_one(), accepted, "{value}");
        let reading = Ok(Fraction { value: fraction(value), shown: value.to_string() });
        assert_eq!(kv_cache_threshold(reading).is_ok(), accepted, "{value}");
    }
}

fn environment(values: [&str; 4]) -> Environment {
    let value = |text: &str| match text {
        "<unset>" => EnvValue::Unset,
        "<unreadable>" => EnvValue::Unreadable("not text".to_owned()),
        text => EnvValue::Text(text.to_owned()),
    };
    Environment {
        kv_cache: value(values[0]),
        waiting_queue: value(values[1]),
        running_requests: value(values[2]),
        max_age: value(values[3]),
    }
}

fn refusal(values: [&str; 4]) -> String {
    match Thresholds::from_env(&environment(values), read) {
        Err(ConfigError::Config(message)) => message,
        Ok(thresholds) => panic!("accepted as {thresholds:?}"),
    }
}

#[test]
fn thresholds_are_read_from_the_environment() {
    let thresholds = Thresholds::from_env(&environment([" 0.8 ", "10", "+4\n", "1500"]), read).expect("valid");
    assert_eq!(thresholds.kv_cache_utilization, Some(fraction(0.8)));
    assert_eq!(thresholds.waiting_queue, Some(10));
    assert_eq!(thresholds.running_requests, Some(4));
    assert_eq!(thresholds.max_age, Some(Duration::from_millis(1500)));
}

#[test]
fn blank_variables_set_nothing() {
    let thresholds = Thresholds::from_env(&environment(["<unset>", "", " \t", "<unset>"]), read).expect("valid");
    assert_eq!(thresholds, Thresholds::default());
    assert!(should_compact(&thresholds, Some(&signals(0.0, 0))));
}

#[test]
fn malformed_variables_are_refused() {
    assert_eq!(
        refusal(["2", "x", "", ""]),
        "COMPACTION_KV_CACHE_THRESHOLD must be a fraction between 0 and 1, got 2"
    );
    assert_eq!(
        refusal(["many", "", "", ""]),
        format!(
            "COMPACTION_KV_CACHE_THRESHOLD is not a valid number: {}",
            "many".parse::<f64>().unwrap_err()
        )
    );
    assert_eq!(
        refusal(["0.5", "ten", "x", ""]),
        format!(
            "COMPACTION_WAITING_QUEUE_THRESHOLD is not a valid number: {}",
            "ten".parse::<u64>().unwrap_err()
        )
    );
    assert_eq!(
        refusal(["", "", "-3", "<unreadable>"]),
        format!(
            "COMPACTION_RUNNING_REQUESTS_THRESHOLD is not a valid number: {}",
            "-3".parse::<u64>().unwrap_err()
        )
    );
    assert_eq!(
        refusal(["", "", "", "<unreadable>"]),
        "failed to read COMPACTION_MAX_METRICS_AGE_MS: not text"
    );
    assert_eq!(
        refusal(["<unreadable>", "x", "", ""]),
        "failed to read COMPACTION_KV_CACHE_THRESHOLD: not text"
    );
}
