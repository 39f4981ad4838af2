//! The load that an llm-d backend reports with its replies.
//!
//! llm-d's `metrics-to-headers` plugin puts the serving endpoint's latest metrics onto the reply.
//! Thresholds on them say when a session is worth compacting.
//!
//! A fraction is held as the bits of its IEEE 754 representation: that is enough to compare it.

use std::time::Duration;

use vstd::prelude::*;
use vstd::string::*;

use crate::error::ConfigError;
use crate::headers::{is_plain_name, text_of_header, trimmed_header};
use crate::text::{decimal, join3, number_fault, parse_number, trim, trimmed};

verus! {

pub const KV_CACHE_HEADER: &'static str = "x-llm-d-kv-cache-utilization";

pub const WAITING_QUEUE_HEADER: &'static str = "x-llm-d-waiting-queue";

pub const RUNNING_REQUESTS_HEADER: &'static str = "x-llm-d-running-requests";

pub const METRICS_AGE_HEADER: &'static str = "x-llm-d-metrics-age-ms";

pub const KV_CACHE_ENV: &'static str = "COMPACTION_KV_CACHE_THRESHOLD";

pub const WAITING_QUEUE_ENV: &'static str = "COMPACTION_WAITING_QUEUE_THRESHOLD";

pub const RUNNING_REQUESTS_ENV: &'static str = "COMPACTION_RUNNING_REQUESTS_THRESHOLD";

pub const MAX_AGE_ENV: &'static str = "COMPACTION_MAX_METRICS_AGE_MS";

/// How many nanoseconds a span of time lasts.
pub uninterp spec fn nanos(span: Duration) -> nat;

/// `Duration::from_millis`: a span of so many milliseconds.
pub assume_specification[ std::time::Duration::from_millis ](millis: u64) -> (r: Duration)
    ensures
        nanos(r) == millis * 1_000_000,
;

/// `Duration::as_nanos`: the whole span in nanoseconds.
pub assume_specification[ std::time::Duration::as_nanos ](span: &Duration) -> (r: u128)
    ensures
        r == nanos(*span),
;

/// A number in the IEEE 754 double format, by its bits.
#[derive(Debug, Clone, Copy)]
pub struct Utilization {
    pub bits: u64,
}

/// The bits of a number without its sign.
pub open spec fn magnitude(bits: u64) -> int {
    if bits < 0x8000_0000_0000_0000 {
        bits as int
    } else {
        bits - 0x8000_0000_0000_0000
    }
}

impl Utilization {
    /// Beyond the infinities the format holds no numbers.
    pub open spec fn is_number(self) -> bool {
        magnitude(self.bits) <= 0x7FF0_0000_0000_0000
    }

    /// Where a number stands among all numbers of the format; both zeros stand at zero.
    pub open spec fn rank(self) -> int {
        if self.bits < 0x8000_0000_0000_0000 {
            magnitude(self.bits)
        } else {
            -magnitude(self.bits)
        }
    }

    /// Both are numbers, and this one is no smaller than the other.
    pub open spec fn reaches(self, other: Utilization) -> bool {
        self.is_number() && other.is_number() && self.rank() >= other.rank()
    }

    /// A number between zero and one, either included.
    pub open spec fn is_fraction(self) -> bool {
        self.is_number() && 0 <= self.rank() <= 0x3FF0_0000_0000_0000
    }

    fn position(self) -> (r: Option<i64>)
        ensures
            match r {
                Some(rank) => self.is_number() && rank == self.rank(),
                None => !self.is_number(),
            },
    {
        let negative: bool = self.bits >= 0x8000_0000_0000_0000;
        let size: u64 = if negative {
            self.bits - 0x8000_0000_0000_0000
        } else {
            self.bits
        };
        if size > 0x7FF0_0000_0000_0000 {
            return None;
        }
        let size: i64 = size as i64;
        Some(
            if negative {
                -size
            } else {
                size
            },
        )
    }

    /// Whether both are numbers and this one is no smaller than the other.
    pub fn at_least(self, other: Utilization) -> (r: bool)
        ensures
            r == self.reaches(other),
    {
        match (self.position(), other.position()) {
            (Some(mine), Some(theirs)) => mine >= theirs,
            _ => false,
        }
    }

    /// Whether it is a number between zero and one, either included.
    pub fn within_one(self) -> (r: bool)
        ensures
            r == self.is_fraction(),
    {
        match self.position() {
            Some(rank) => 0 <= rank && rank <= 0x3FF0_0000_0000_0000,
            None => false,
        }
    }
}

impl PartialEq for Utilization {
    fn eq(&self, other: &Utilization) -> (r: bool) {
        match (self.position(), other.position()) {
            (Some(mine), Some(theirs)) => mine == theirs,
            _ => false,
        }
    }
}

impl vstd::std_specs::cmp::PartialEqSpecImpl for Utilization {
    open spec fn obeys_eq_spec() -> bool {
        true
    }

    open spec fn eq_spec(&self, other: &Utilization) -> bool {
        self.is_number() && other.is_number() && self.rank() == other.rank()
    }
}

/// A fraction that was read from a text, and the way it is shown.
#[derive(Debug)]
pub struct Fraction {
    pub value: Utilization,
    pub shown: String,
}

/// The load that a reply reports, as far as it reports it.
#[derive(Debug, Clone, PartialEq)]
pub struct PoolSignals {
    /// A fraction between zero and one, though the metric is named a percentage.
    pub kv_cache_utilization: Option<Utilization>,
    pub waiting_queue: Option<u64>,
    pub running_requests: Option<u64>,
    /// How old the metrics are; unknown for an endpoint that was never asked for them.
    pub age: Option<Duration>,
}

/// Levels of load from which on a session is worth compacting.
///
/// Each stands on its own, and one that is not set is not consulted. With none set every turn is
/// compacted.
#[derive(Debug, Clone, PartialEq)]
pub struct Thresholds {
    pub kv_cache_utilization: Option<Utilization>,
    pub waiting_queue: Option<u64>,
    pub running_requests: Option<u64>,
    /// Metrics older than this are not trusted. It triggers nothing by itself.
    pub max_age: Option<Duration>,
}

impl Default for PoolSignals {
    fn default() -> (r: PoolSignals)
        ensures
            r.is_silent(),
    {
        PoolSignals {
            kv_cache_utilization: None,
            waiting_queue: None,
            running_requests: None,
            age: None,
        }
    }
}

impl Default for Thresholds {
    fn default() -> (r: Thresholds)
        ensures
            r.none_set(),
    {
        Thresholds {
            kv_cache_utilization: None,
            waiting_queue: None,
            running_requests: None,
            max_age: None,
        }
    }
}

/// `read` can have made this of a text.
pub open spec fn is_reading<F: Fn(&str) -> Result<Fraction, String>>(
    read: F,
    text: Seq<char>,
    outcome: Result<Fraction, String>,
) -> bool {
    exists|given: &str| given@ == text && #[trigger] call_ensures(read, (given,), outcome)
}

/// `read` can have found this fraction in a text: none where the text is no number.
pub open spec fn is_found<F: Fn(&str) -> Result<Fraction, String>>(
    read: F,
    text: Seq<char>,
    found: Option<Utilization>,
) -> bool {
    exists|outcome: Result<Fraction, String>| #[trigger]
        is_reading(read, text, outcome) && found == match outcome {
            Ok(fraction) => Some(fraction.value),
            Err(_) => None,
        }
}

/// `read` can have found this fraction in a header: none where there is no such header or its text
/// is no number.
pub open spec fn is_reported<F: Fn(&str) -> Result<Fraction, String>>(
    read: F,
    header: Option<Seq<char>>,
    found: Option<Utilization>,
) -> bool {
    match header {
        Some(text) => is_found(read, trimmed(text), found),
        None => found is None,
    }
}

/// The count that a header reports: none where there is no such header or its text is no number.
pub open spec fn reported_count(header: Option<Seq<char>>) -> Option<u64> {
    match header {
        Some(text) => decimal(trimmed(text)),
        None => None,
    }
}

/// A span of so many milliseconds, where there are any.
pub open spec fn is_millis(span: Option<Duration>, millis: Option<u64>) -> bool {
    match (span, millis) {
        (Some(span), Some(millis)) => nanos(span) == millis * 1_000_000,
        (None, None) => true,
        _ => false,
    }
}

impl PoolSignals {
    /// Nothing is reported.
    pub open spec fn is_silent(self) -> bool {
        self.kv_cache_utilization is None && self.waiting_queue is None && self.running_requests
            is None && self.age is None
    }

    /// The load that the headers of a reply report, with `read` for the fraction among them. A
    /// malformed value is dropped by itself, and leaves the others in place.
    pub open spec fn reported_by<F: Fn(&str) -> Result<Fraction, String>>(
        self,
        headers: http::HeaderMap<http::HeaderValue>,
        read: F,
    ) -> bool {
        &&& is_reported(
            read,
            text_of_header(headers, KV_CACHE_HEADER@),
            self.kv_cache_utilization,
        )
        &&& self.waiting_queue == reported_count(text_of_header(headers, WAITING_QUEUE_HEADER@))
        &&& self.running_requests == reported_count(
            text_of_header(headers, RUNNING_REQUESTS_HEADER@),
        )
        &&& is_millis(self.age, reported_count(text_of_header(headers, METRICS_AGE_HEADER@)))
    }

    /// The load that a reply's headers report.
    ///
    /// Nothing where they report none at all: an endpoint without the plugin, or a backend that is
    /// not llm-d. An idle backend reports zeros, which is something else.
    #[must_use]
    pub fn from_headers<F: Fn(&str) -> Result<Fraction, String>>(
        headers: &http::HeaderMap<http::HeaderValue>,
        read: F,
    ) -> (r: Option<PoolSignals>)
        requires
            forall|text: &str| call_requires(read, (text,)),
        ensures
            match r {
                Some(signals) => signals.reported_by(*headers, read) && !signals.is_silent(),
                None => exists|signals: PoolSignals| #[trigger]
                    signals.reported_by(*headers, read) && signals.is_silent(),
            },
    {
        proof {
            reveal_strlit("x-llm-d-kv-cache-utilization");
            reveal_strlit("x-llm-d-waiting-queue");
            reveal_strlit("x-llm-d-running-requests");
            reveal_strlit("x-llm-d-metrics-age-ms");
            assert(is_plain_name(KV_CACHE_HEADER@));
            assert(is_plain_name(WAITING_QUEUE_HEADER@));
            assert(is_plain_name(RUNNING_REQUESTS_HEADER@));
            assert(is_plain_name(METRICS_AGE_HEADER@));
        }
        let kv_cache_utilization: Option<Utilization> = match trimmed_header(
            headers,
            KV_CACHE_HEADER,
        ) {
            Some(text) => {
                let outcome: Result<Fraction, String> = read(text);
                assert(is_reading(read, text@, outcome));
                match outcome {
                    Ok(fraction) => Some(fraction.value),
                    Err(_) => None,
                }
            },
            None => None,
        };
        let signals: PoolSignals = PoolSignals {
            kv_cache_utilization,
            waiting_queue: parse_header(headers, WAITING_QUEUE_HEADER),
            running_requests: parse_header(headers, RUNNING_REQUESTS_HEADER),
            age: match parse_header(headers, METRICS_AGE_HEADER) {
                Some(millis) => Some(Duration::from_millis(millis)),
                None => None,
            },
        };
        assert(signals.reported_by(*headers, read));
        if signals.kv_cache_utilization.is_none() && signals.waiting_queue.is_none()
            && signals.running_requests.is_none() && signals.age.is_none() {
            None
        } else {
            Some(signals)
        }
    }
}

fn parse_header(headers: &http::HeaderMap<http::HeaderValue>, name: &str) -> (r: Option<u64>)
    requires
        is_plain_name(name@),
    ensures
        r == reported_count(text_of_header(*headers, name@)),
{
    match trimmed_header(headers, name) {
        Some(text) => match parse_number(text) {
            Ok(n) => Some(n),
            Err(_) => None,
        },
        None => None,
    }
}

/// The value of an environment variable.
#[derive(Debug)]
pub enum EnvValue {
    Unset,
    /// It is set to something that is not text; in words, why.
    Unreadable(String),
    Text(String),
}

/// The values of the environment variables that set the thresholds.
#[derive(Debug)]
pub struct Environment {
    /// The value of [`KV_CACHE_ENV`].
    pub kv_cache: EnvValue,
    /// The value of [`WAITING_QUEUE_ENV`].
    pub waiting_queue: EnvValue,
    /// The value of [`RUNNING_REQUESTS_ENV`].
    pub running_requests: EnvValue,
    /// The value of [`MAX_AGE_ENV`].
    pub max_age: EnvValue,
}

/// What is said of a variable that cannot be read.
pub open spec fn unreadable(name: Seq<char>, why: Seq<char>) -> Seq<char> {
    "failed to read "@ + name + ": "@ + why
}

/// What is said of a variable that is not set to a number.
pub open spec fn not_a_number(name: Seq<char>, why: Seq<char>) -> Seq<char> {
    name + " is not a valid number: "@ + why
}

/// What is said of a KV cache threshold that is not a fraction.
pub open spec fn not_a_fraction(shown: Seq<char>) -> Seq<char> {
    KV_CACHE_ENV@ + " must be a fraction between 0 and 1, got "@ + shown
}

/// The text that a variable is set to, without the whitespace around it: none where the variable
/// is not set or blank, and a refusal where it cannot be read.
pub open spec fn text_setting(name: Seq<char>, value: EnvValue) -> Result<
    Option<Seq<char>>,
    Seq<char>,
> {
    match value {
        EnvValue::Unset => Ok(None),
        EnvValue::Unreadable(why) => Err(unreadable(name, why@)),
        EnvValue::Text(text) => if trimmed(text@).len() == 0 {
            Ok(None)
        } else {
            Ok(Some(trimmed(text@)))
        },
    }
}

/// The count that a variable is set to, or a refusal.
pub open spec fn count_setting(name: Seq<char>, value: EnvValue) -> Result<
    Option<u64>,
    Seq<char>,
> {
    match text_setting(name, value) {
        Ok(Some(text)) => match decimal(text) {
            Some(n) => Ok(Some(n)),
            None => Err(not_a_number(name, number_fault(text))),
        },
        Ok(None) => Ok(None),
        Err(refusal) => Err(refusal),
    }
}

/// The KV cache threshold that a reading of the variable's text comes to, or a refusal.
pub open spec fn threshold_in(reading: Result<Fraction, String>) -> Result<
    Option<Utilization>,
    Seq<char>,
> {
    match reading {
        Ok(fraction) => if fraction.value.is_fraction() {
            Ok(Some(fraction.value))
        } else {
            Err(not_a_fraction(fraction.shown@))
        },
        Err(why) => Err(not_a_number(KV_CACHE_ENV@, why@)),
    }
}

/// `read` can have made this KV cache threshold of a text.
pub open spec fn is_threshold_in<F: Fn(&str) -> Result<Fraction, String>>(
    read: F,
    text: Seq<char>,
    setting: Result<Option<Utilization>, Seq<char>>,
) -> bool {
    exists|reading: Result<Fraction, String>| #[trigger]
        is_reading(read, text, reading) && setting == threshold_in(reading)
}

/// `read` can have made this KV cache threshold of the variable's value.
pub open spec fn is_fraction_setting<F: Fn(&str) -> Result<Fraction, String>>(
    read: F,
    value: EnvValue,
    setting: Result<Option<Utilization>, Seq<char>>,
) -> bool {
    match text_setting(KV_CACHE_ENV@, value) {
        Ok(Some(text)) => is_threshold_in(read, text, setting),
        Ok(None) => setting == Ok::<Option<Utilization>, Seq<char>>(None),
        Err(refusal) => setting == Err::<Option<Utilization>, Seq<char>>(refusal),
    }
}

pub open spec fn outcome_view(outcome: Result<Option<Utilization>, ConfigError>) -> Result<
    Option<Utilization>,
    Seq<char>,
> {
    match outcome {
        Ok(threshold) => Ok(threshold),
        Err(ConfigError::Config(refusal)) => Err(refusal@),
    }
}

/// The first refusal among the settings, in the order in which they are read.
pub open spec fn first_refusal(
    kv_cache: Result<Option<Utilization>, Seq<char>>,
    environment: Environment,
) -> Option<Seq<char>> {
    if kv_cache is Err {
        Some(kv_cache->Err_0)
    } else if count_setting(WAITING_QUEUE_ENV@, environment.waiting_queue) is Err {
        Some(count_setting(WAITING_QUEUE_ENV@, environment.waiting_queue)->Err_0)
    } else if count_setting(RUNNING_REQUESTS_ENV@, environment.running_requests) is Err {
        Some(count_setting(RUNNING_REQUESTS_ENV@, environment.running_requests)->Err_0)
    } else if count_setting(MAX_AGE_ENV@, environment.max_age) is Err {
        Some(count_setting(MAX_AGE_ENV@, environment.max_age)->Err_0)
    } else {
        None
    }
}

fn setting_text<'a>(name: &str, value: &'a EnvValue) -> (r: Result<Option<&'a str>, String>)
    ensures
        match r {
            Ok(Some(text)) => text_setting(name@, *value) == Ok::<Option<Seq<char>>, Seq<char>>(
                Some(text@),
            ),
            Ok(None) => text_setting(name@, *value) == Ok::<Option<Seq<char>>, Seq<char>>(None),
            Err(refusal) => text_setting(name@, *value) == Err::<Option<Seq<char>>, Seq<char>>(
                refusal@,
            ),
        },
{
    match value {
        EnvValue::Unset => Ok(None),
        EnvValue::Unreadable(why) => {
            let mut refusal: String = join3("failed to read ", name, ": ");
            refusal.append(why.as_str());
            Err(refusal)
        },
        EnvValue::Text(text) => {
            let text: &str = trim(text.as_str());
            if text.is_empty() {
                Ok(None)
            } else {
                Ok(Some(text))
            }
        },
    }
}

fn parse_env(name: &str, value: &EnvValue) -> (r: Result<Option<u64>, ConfigError>)
    ensures
        match r {
            Ok(n) => count_setting(name@, *value) == Ok::<Option<u64>, Seq<char>>(n),
            Err(ConfigError::Config(refusal)) => count_setting(name@, *value) == Err::<
                Option<u64>,
                Seq<char>,
            >(refusal@),
        },
{
    match setting_text(name, value) {
        Ok(Some(text)) => match parse_number(text) {
            Ok(n) => Ok(Some(n)),
            Err(why) => Err(
                ConfigError::Config(join3(name, " is not a valid number: ", why.as_str())),
            ),
        },
        Ok(None) => Ok(None),
        Err(refusal) => Err(ConfigError::Config(refusal)),
    }
}

/// The KV cache threshold that a reading of the variable's text comes to. Anything that is not a
/// fraction is refused: a threshold that is never met would look like compaction that never runs.
pub fn kv_cache_threshold(reading: Result<Fraction, String>) -> (r: Result<
    Option<Utilization>,
    ConfigError,
>)
    ensures
        match r {
            Ok(threshold) => threshold_in(reading) == Ok::<Option<Utilization>, Seq<char>>(
                threshold,
            ),
            Err(ConfigError::Config(refusal)) => threshold_in(reading) == Err::<
                Option<Utilization>,
                Seq<char>,
            >(refusal@),
        },
{
    match reading {
        Ok(fraction) => if fraction.value.within_one() {
            Ok(Some(fraction.value))
        } else {
            Err(
                ConfigError::Config(
                    join3(
                        KV_CACHE_ENV,
                        " must be a fraction between 0 and 1, got ",
                        fraction.shown.as_str(),
                    ),
                ),
            )
        },
        Err(why) => Err(
            ConfigError::Config(join3(KV_CACHE_ENV, " is not a valid number: ", why.as_str())),
        ),
    }
}

/// A metric meets its threshold only where both are there.
pub open spec fn count_reached(threshold: Option<u64>, reading: Option<u64>) -> bool {
    threshold is Some && reading is Some && reading->0 >= threshold->0
}

pub open spec fn fraction_reached(
    threshold: Option<Utilization>,
    reading: Option<Utilization>,
) -> bool {
    threshold is Some && reading is Some && reading->0.reaches(threshold->0)
}

impl Thresholds {
    pub open spec fn none_set(self) -> bool {
        self.kv_cache_utilization is None && self.waiting_queue is None && self.running_requests
            is None && self.max_age is None
    }

    /// The load meets a threshold: any one is enough.
    pub open spec fn reached_by(self, signals: PoolSignals) -> bool {
        ||| fraction_reached(self.kv_cache_utilization, signals.kv_cache_utilization)
        ||| count_reached(self.waiting_queue, signals.waiting_queue)
        ||| count_reached(self.running_requests, signals.running_requests)
    }

    /// The metrics are older than is trusted.
    pub open spec fn outdates(self, signals: PoolSignals) -> bool {
        self.max_age is Some && signals.age is Some && nanos(signals.age->0) > nanos(
            self.max_age->0,
        )
    }

    /// The thresholds that the environment sets, with `read` for the fraction among them. A value
    /// that is set but no number is refused, and so is a KV cache threshold that is no fraction.
    pub fn from_env<F: Fn(&str) -> Result<Fraction, String>>(environment: &Environment, read: F) -> (r:
        Result<Thresholds, ConfigError>)
        requires
            forall|text: &str| call_requires(read, (text,)),
        ensures
            exists|kv_cache: Result<Option<Utilization>, Seq<char>>| #[trigger]
                is_fraction_setting(read, environment.kv_cache, kv_cache) && match first_refusal(
                    kv_cache,
                    *environment,
                ) {
                    Some(refusal) => r matches Err(ConfigError::Config(text)) && text@ == refusal,
                    None => r matches Ok(thresholds) && kv_cache == Ok::<
                        Option<Utilization>,
                        Seq<char>,
                    >(thresholds.kv_cache_utilization) && count_setting(
                        WAITING_QUEUE_ENV@,
                        environment.waiting_queue,
                    ) == Ok::<Option<u64>, Seq<char>>(thresholds.waiting_queue) && count_setting(
                        RUNNING_REQUESTS_ENV@,
                        environment.running_requests,
                    ) == Ok::<Option<u64>, Seq<char>>(thresholds.running_requests) && is_millis(
                        thresholds.max_age,
                        count_setting(MAX_AGE_ENV@, environment.max_age)->Ok_0,
                    ),
                },
    {
        let kv_cache: Result<Option<Utilization>, ConfigError> = match setting_text(
            KV_CACHE_ENV,
            &environment.kv_cache,
        ) {
            Ok(Some(text)) => {
                let reading: Result<Fraction, String> = read(text);
                assert(is_reading(read, text@, reading));
                let outcome: Result<Option<Utilization>, ConfigError> = kv_cache_threshold(reading);
                assert(is_threshold_in(read, text@, outcome_view(outcome)));
                outcome
            },
            Ok(None) => Ok(None),
            Err(refusal) => Err(ConfigError::Config(refusal)),
        };
        assert(is_fraction_setting(read, environment.kv_cache, outcome_view(kv_cache)));
        let kv_cache_utilization: Option<Utilization> = match kv_cache {
            Ok(threshold) => threshold,
            Err(error) => {
                return Err(error);
            },
        };
        let waiting_queue: Option<u64> = match parse_env(
            WAITING_QUEUE_ENV,
            &environment.waiting_queue,
        ) {
            Ok(n) => n,
            Err(error) => {
                return Err(error);
            },
        };
        let running_requests: Option<u64> = match parse_env(
            RUNNING_REQUESTS_ENV,
            &environment.running_requests,
        ) {
            Ok(n) => n,
            Err(error) => {
                return Err(error);
            },
        };
        let max_age: Option<Duration> = match parse_env(MAX_AGE_ENV, &environment.max_age) {
            Ok(Some(millis)) => Some(Duration::from_millis(millis)),
            Ok(None) => None,
            Err(error) => {
                return Err(error);
            },
        };
        Ok(Thresholds { kv_cache_utilization, waiting_queue, running_requests, max_age })
    }

    fn is_empty(&self) -> (r: bool)
        ensures
            r == self.none_set(),
    {
        self.kv_cache_utilization.is_none() && self.waiting_queue.is_none()
            && self.running_requests.is_none() && self.max_age.is_none()
    }

    /// Whether the load meets any threshold that is set.
    fn met_by(&self, signals: &PoolSignals) -> (r: bool)
        ensures
            r == self.reached_by(*signals),
    {
        let cache: bool = match (self.kv_cache_utilization, signals.kv_cache_utilization) {
            (Some(threshold), Some(reading)) => reading.at_least(threshold),
            _ => false,
        };
        cache || over(self.waiting_queue, signals.waiting_queue) || over(
            self.running_requests,
            signals.running_requests,
        )
    }
}

fn over(threshold: Option<u64>, reading: Option<u64>) -> (r: bool)
    ensures
        r == count_reached(threshold, reading),
{
    match (threshold, reading) {
        (Some(threshold), Some(reading)) => reading >= threshold,
        _ => false,
    }
}

/// Whether a turn is to be compacted under these thresholds and this load.
pub open spec fn compacts(thresholds: Thresholds, signals: Option<PoolSignals>) -> bool {
    ||| thresholds.none_set()
    ||| signals is None
    ||| thresholds.outdates(signals->0)
    ||| thresholds.reached_by(signals->0)
}

/// Whether a turn is to be folded into its session's prefix.
///
/// Whatever is uncertain compacts: no thresholds, no metrics, or metrics too old. A needless
/// compaction costs one call in the background, a missing one costs tokens on every later turn.
#[must_use]
pub fn should_compact(thresholds: &Thresholds, signals: Option<&PoolSignals>) -> (r: bool)
    ensures
        r == match signals {
            Some(signals) => compacts(*thresholds, Some(*signals)),
            None => compacts(*thresholds, None),
        },
{
    if thresholds.is_empty() {
        return true;
    }
    let signals: &PoolSignals = match signals {
        Some(signals) => signals,
        None => {
            return true;
        },
    };
    if let Some(max_age) = &thresholds.max_age {
        if let Some(age) = &signals.age {
            if age.as_nanos() > max_age.as_nanos() {
                return true;
            }
        }
    }
    thresholds.met_by(signals)
}

/// Without thresholds every turn is compacted.
pub proof fn no_thresholds_compact(thresholds: Thresholds, signals: Option<PoolSignals>)
    requires
        thresholds.none_set(),
    ensures
        compacts(thresholds, signals),
{
}

/// Without metrics, or with metrics that are too old, every turn is compacted: silence is not
/// idleness.
pub proof fn uncertainty_compacts(thresholds: Thresholds, signals: Option<PoolSignals>)
    requires
        signals is None || thresholds.outdates(signals->0),
    ensures
        compacts(thresholds, signals),
{
}

/// One threshold that is met is enough, whatever the other metrics say.
pub proof fn any_threshold_is_enough(thresholds: Thresholds, signals: PoolSignals)
    ensures
        count_reached(thresholds.waiting_queue, signals.waiting_queue) ==> compacts(
            thresholds,
            Some(signals),
        ),
        count_reached(thresholds.running_requests, signals.running_requests) ==> compacts(
            thresholds,
            Some(signals),
        ),
        fraction_reached(thresholds.kv_cache_utilization, signals.kv_cache_utilization) ==> compacts(
            thresholds,
            Some(signals),
        ),
{
}

/// Recent metrics below every threshold that is set do not compact. The age limit by itself
/// triggers nothing.
pub proof fn calm_does_not_compact(thresholds: Thresholds, signals: PoolSignals)
    requires
        !thresholds.none_set(),
        !thresholds.outdates(signals),
        !thresholds.reached_by(signals),
    ensures
        !compacts(thresholds, Some(signals)),
{
}

/// More load never turns a compaction off.
pub proof fn more_load_compacts_more(thresholds: Thresholds, less: PoolSignals, more: PoolSignals)
    requires
        compacts(thresholds, Some(less)),
        less.age == more.age,
        less.waiting_queue is Some ==> more.waiting_queue is Some && more.waiting_queue->0
            >= less.waiting_queue->0,
        less.running_requests is Some ==> more.running_requests is Some && more.running_requests->0
            >= less.running_requests->0,
        less.kv_cache_utilization is Some && less.kv_cache_utilization->0.is_number()
            ==> more.kv_cache_utilization is Some && more.kv_cache_utilization->0.reaches(
            less.kv_cache_utilization->0,
        ),
    ensures
        compacts(thresholds, Some(more)),
{
}

/// A metric whose threshold is not set is not consulted.
pub proof fn unset_thresholds_are_not_consulted(
    thresholds: Thresholds,
    one: PoolSignals,
    other: PoolSignals,
)
    requires
        one.age == other.age,
        thresholds.kv_cache_utilization is Some ==> one.kv_cache_utilization
            == other.kv_cache_utilization,
        thresholds.waiting_queue is Some ==> one.waiting_queue == other.waiting_queue,
        thresholds.running_requests is Some ==> one.running_requests == other.running_requests,
    ensures
        compacts(thresholds, Some(one)) == compacts(thresholds, Some(other)),
{
}

/// A variable that is set to something other than a number refuses the thresholds as a whole:
/// nothing that was set is ignored in silence.
pub proof fn malformed_values_are_refused(
    kv_cache: Result<Option<Utilization>, Seq<char>>,
    environment: Environment,
)
    requires
        kv_cache is Err || is_malformed(WAITING_QUEUE_ENV@, environment.waiting_queue)
            || is_malformed(RUNNING_REQUESTS_ENV@, environment.running_requests) || is_malformed(
            MAX_AGE_ENV@,
            environment.max_age,
        ),
    ensures
        first_refusal(kv_cache, environment) is Some,
{
}

/// A variable that is set, and not to a number.
pub open spec fn is_malformed(name: Seq<char>, value: EnvValue) -> bool {
    match text_setting(name, value) {
        Ok(Some(text)) => decimal(text) is None,
        Ok(None) => false,
        Err(_) => true,
    }
}

/// A KV cache threshold that is accepted is a fraction.
pub proof fn accepted_threshold_is_a_fraction(reading: Result<Fraction, String>)
    requires
        threshold_in(reading) is Ok,
    ensures
        threshold_in(reading)->Ok_0 matches Some(threshold) && threshold.is_fraction(),
{
}

} // verus!
