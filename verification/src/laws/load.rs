//! When a backend's load has a session compacted, and what sets the thresholds.

use vstd::prelude::*;
use vstd::std_specs::cmp::PartialEqSpec;

use crate::chat_completions::{SESSION_HEADER, UPSTREAM_PATH};
use crate::compaction::{ADDRESS_ENV, TIMEOUT_SECONDS};
use crate::pool_signals::{
    compacts, count_setting, first_refusal, is_fraction_setting, is_millis, is_reading, nanos,
    reported_count, text_setting, threshold_in, EnvValue, Environment, Fraction, PoolSignals,
    Thresholds, Utilization, KV_CACHE_ENV, KV_CACHE_HEADER, MAX_AGE_ENV, METRICS_AGE_HEADER,
    RUNNING_REQUESTS_ENV, RUNNING_REQUESTS_HEADER, WAITING_QUEUE_ENV, WAITING_QUEUE_HEADER,
};
use crate::headers::text_of_header;
use crate::text::{decimal, number_fault, trimmed};

verus! {

/// The names under which everything is exchanged.
pub proof fn names_are_fixed()
    ensures
        KV_CACHE_HEADER@ == "x-llm-d-kv-cache-utilization"@,
        WAITING_QUEUE_HEADER@ == "x-llm-d-waiting-queue"@,
        RUNNING_REQUESTS_HEADER@ == "x-llm-d-running-requests"@,
        METRICS_AGE_HEADER@ == "x-llm-d-metrics-age-ms"@,
        KV_CACHE_ENV@ == "COMPACTION_KV_CACHE_THRESHOLD"@,
        WAITING_QUEUE_ENV@ == "COMPACTION_WAITING_QUEUE_THRESHOLD"@,
        RUNNING_REQUESTS_ENV@ == "COMPACTION_RUNNING_REQUESTS_THRESHOLD"@,
        MAX_AGE_ENV@ == "COMPACTION_MAX_METRICS_AGE_MS"@,
        ADDRESS_ENV@ == "COMPACTION_ADDRESS"@,
        SESSION_HEADER@ == "x-session-id"@,
        UPSTREAM_PATH@ == "/v1/chat/completions"@,
        TIMEOUT_SECONDS == 15,
{
}

/// With a threshold set and metrics there, a turn is compacted exactly where the metrics are older
/// than is trusted, or one of them is at or above its own threshold.
pub proof fn load_decides(thresholds: Thresholds, signals: PoolSignals)
    requires
        thresholds.kv_cache_utilization is Some || thresholds.waiting_queue is Some
            || thresholds.running_requests is Some || thresholds.max_age is Some,
    ensures
        compacts(thresholds, Some(signals)) <==> {
            ||| thresholds.max_age is Some && signals.age is Some && nanos(signals.age->0) > nanos(
                thresholds.max_age->0,
            )
            ||| thresholds.waiting_queue is Some && signals.waiting_queue is Some
                && signals.waiting_queue->0 >= thresholds.waiting_queue->0
            ||| thresholds.running_requests is Some && signals.running_requests is Some
                && signals.running_requests->0 >= thresholds.running_requests->0
            ||| thresholds.kv_cache_utilization is Some && signals.kv_cache_utilization is Some
                && signals.kv_cache_utilization->0.reaches(thresholds.kv_cache_utilization->0)
        },
{
}

/// Without metrics a turn is compacted, and so it is where no threshold of any kind is set.
pub proof fn uncertainty_decides(thresholds: Thresholds, signals: Option<PoolSignals>)
    ensures
        signals is None ==> compacts(thresholds, signals),
        thresholds.kv_cache_utilization is None && thresholds.waiting_queue is None
            && thresholds.running_requests is None && thresholds.max_age is None ==> compacts(
            thresholds,
            signals,
        ),
        thresholds.none_set() <==> thresholds.kv_cache_utilization is None
            && thresholds.waiting_queue is None && thresholds.running_requests is None
            && thresholds.max_age is None,
{
}

/// Numbers are ordered as IEEE 754 orders them by their bits: without a sign, larger bits are the
/// larger number; with a sign, the smaller; a number without a sign is above one with it, and the two
/// zeros are equal. What is beyond the infinities is compared with nothing.
pub proof fn bits_are_ordered_as_numbers(a: u64, b: u64)
    ensures
        ({
            let sign = 0x8000_0000_0000_0000u64;
            let infinity = 0x7FF0_0000_0000_0000u64;
            let x = Utilization { bits: a };
            let y = Utilization { bits: b };
            &&& a <= infinity && b <= infinity ==> (x.reaches(y) <==> a >= b)
            &&& sign <= a <= sign + infinity && sign <= b <= sign + infinity ==> (x.reaches(y) <==> a
                <= b)
            &&& a <= infinity && sign <= b <= sign + infinity ==> x.reaches(y)
            &&& sign <= a <= sign + infinity && b <= infinity ==> (x.reaches(y) <==> a == sign && b
                == 0)
            &&& infinity < a < sign || a > sign + infinity ==> !x.reaches(y) && !y.reaches(x)
                && !x.is_number()
            &&& a <= infinity || sign <= a <= sign + infinity ==> x.is_number()
        }),
{
}

/// Two numbers are equal where each is no smaller than the other.
pub proof fn equal_numbers_reach_each_other(a: Utilization, b: Utilization)
    ensures
        a.eq_spec(&b) <==> a.reaches(b) && b.reaches(a),
{
}

/// The fractions are the numbers from zero to one: the bits from zero to those of one, and the other
/// zero.
pub proof fn fractions_lie_between_zero_and_one(value: Utilization)
    ensures
        value.is_fraction() <==> value.bits <= 0x3FF0_0000_0000_0000 || value.bits
            == 0x8000_0000_0000_0000,
{
}

/// What the headers report: the counts they hold as numbers and the age in milliseconds, each under
/// its own header and each by itself.
pub proof fn metrics_are_read_from_their_headers<F: Fn(&str) -> Result<Fraction, String>>(
    signals: PoolSignals,
    headers: http::HeaderMap<http::HeaderValue>,
    read: F,
)
    requires
        signals.reported_by(headers, read),
    ensures
        text_of_header(headers, "x-llm-d-waiting-queue"@) is None ==> signals.waiting_queue is None,
        text_of_header(headers, "x-llm-d-waiting-queue"@) matches Some(text)
            ==> signals.waiting_queue == decimal(trimmed(text)),
        text_of_header(headers, "x-llm-d-running-requests"@) is None ==> signals.running_requests
            is None,
        text_of_header(headers, "x-llm-d-running-requests"@) matches Some(text)
            ==> signals.running_requests == decimal(trimmed(text)),
        text_of_header(headers, "x-llm-d-metrics-age-ms"@) is None ==> signals.age is None,
        text_of_header(headers, "x-llm-d-metrics-age-ms"@) matches Some(text) ==> (signals.age
            is Some <==> decimal(trimmed(text)) is Some) && (signals.age is Some ==> nanos(
            signals.age->0,
        ) == decimal(trimmed(text))->0 * 1_000_000),
        text_of_header(headers, "x-llm-d-kv-cache-utilization"@) is None
            ==> signals.kv_cache_utilization is None,
        text_of_header(headers, "x-llm-d-kv-cache-utilization"@) matches Some(text) ==> exists|
            outcome: Result<Fraction, String>,
        | #[trigger]
            is_reading(read, trimmed(text), outcome) && (outcome is Ok
                ==> signals.kv_cache_utilization == Some(outcome->Ok_0.value)) && (outcome is Err
                ==> signals.kv_cache_utilization is None),
        signals.is_silent() <==> signals.kv_cache_utilization is None && signals.waiting_queue
            is None && signals.running_requests is None && signals.age is None,
{
}

/// A count in a header is the number that its text is, without the whitespace around it; a span is
/// as many milliseconds as it is of.
pub proof fn counts_are_read_as_numbers(
    header: Option<Seq<char>>,
    span: core::time::Duration,
    millis: u64,
)
    ensures
        header is None ==> reported_count(header) is None,
        header is Some ==> reported_count(header) == decimal(trimmed(header->0)),
        is_millis(Some(span), Some(millis)) <==> nanos(span) == millis * 1_000_000,
        is_millis(None, None),
        !is_millis(Some(span), None) && !is_millis(None, Some(millis)),
{
}

/// A variable that is not set or blank sets nothing; one that is set gives its text without the
/// whitespace around it; one that cannot be read is refused, with its name and the reason.
pub proof fn variables_are_read(name: Seq<char>, value: EnvValue)
    ensures
        value is Unset ==> text_setting(name, value) == Ok::<Option<Seq<char>>, Seq<char>>(None),
        value is Text && trimmed(value->Text_0@).len() == 0 ==> text_setting(name, value) == Ok::<
            Option<Seq<char>>,
            Seq<char>,
        >(None),
        value is Text && trimmed(value->Text_0@).len() > 0 ==> text_setting(name, value) == Ok::<
            Option<Seq<char>>,
            Seq<char>,
        >(Some(trimmed(value->Text_0@))),
        value is Unreadable ==> text_setting(name, value) == Err::<Option<Seq<char>>, Seq<char>>(
            "failed to read "@ + name + ": "@ + value->Unreadable_0@,
        ),
{
}

/// A count is set by a variable whose text is a number, to that number; a text that is no number is
/// refused, with the variable's name and the reason.
pub proof fn counts_are_set_by_numbers(name: Seq<char>, value: EnvValue)
    ensures
        value is Unset || (value is Text && trimmed(value->Text_0@).len() == 0) ==> count_setting(
            name,
            value,
        ) == Ok::<Option<u64>, Seq<char>>(None),
        value is Text && trimmed(value->Text_0@).len() > 0 && decimal(trimmed(value->Text_0@))
            is Some ==> count_setting(name, value) == Ok::<Option<u64>, Seq<char>>(
            decimal(trimmed(value->Text_0@)),
        ),
        value is Text && trimmed(value->Text_0@).len() > 0 && decimal(trimmed(value->Text_0@))
            is None ==> count_setting(name, value) == Err::<Option<u64>, Seq<char>>(
            name + " is not a valid number: "@ + number_fault(trimmed(value->Text_0@)),
        ),
        value is Unreadable ==> count_setting(name, value) == Err::<Option<u64>, Seq<char>>(
            "failed to read "@ + name + ": "@ + value->Unreadable_0@,
        ),
{
}

/// A KV cache threshold is set by a number between zero and one, to that number; any other reading
/// is refused, with what was read.
pub proof fn the_cache_threshold_is_a_fraction(reading: Result<Fraction, String>)
    ensures
        reading is Ok && (reading->Ok_0.value.bits <= 0x3FF0_0000_0000_0000
            || reading->Ok_0.value.bits == 0x8000_0000_0000_0000) ==> threshold_in(reading) == Ok::<
            Option<Utilization>,
            Seq<char>,
        >(Some(reading->Ok_0.value)),
        reading is Ok && reading->Ok_0.value.bits > 0x3FF0_0000_0000_0000
            && reading->Ok_0.value.bits != 0x8000_0000_0000_0000 ==> threshold_in(reading) == Err::<
            Option<Utilization>,
            Seq<char>,
        >(
            "COMPACTION_KV_CACHE_THRESHOLD"@ + " must be a fraction between 0 and 1, got "@
                + reading->Ok_0.shown@,
        ),
        reading is Err ==> threshold_in(reading) == Err::<Option<Utilization>, Seq<char>>(
            "COMPACTION_KV_CACHE_THRESHOLD"@ + " is not a valid number: "@ + reading->Err_0@,
        ),
{
}

/// The KV cache threshold comes from a reading of the variable's text, and of no other.
pub proof fn the_cache_threshold_is_read_from_its_variable<
    F: Fn(&str) -> Result<Fraction, String>,
>(read: F, value: EnvValue, setting: Result<Option<Utilization>, Seq<char>>)
    requires
        is_fraction_setting(read, value, setting),
    ensures
        value is Unset || (value is Text && trimmed(value->Text_0@).len() == 0) ==> setting is Ok
            && setting->Ok_0 is None,
        value is Unreadable ==> setting is Err && setting->Err_0 == "failed to read "@
            + "COMPACTION_KV_CACHE_THRESHOLD"@ + ": "@ + value->Unreadable_0@,
        value is Text && trimmed(value->Text_0@).len() > 0 ==> exists|
            reading: Result<Fraction, String>,
        | #[trigger]
            is_reading(read, trimmed(value->Text_0@), reading) && setting == threshold_in(reading),
{
}

/// The first refusal is the one that is told: the cache's, then the queue's, then the requests', then
/// the age's. Where every setting is accepted there is none.
pub proof fn the_first_refusal_is_told(
    kv_cache: Result<Option<Utilization>, Seq<char>>,
    environment: Environment,
)
    ensures
        ({
            let queue = count_setting("COMPACTION_WAITING_QUEUE_THRESHOLD"@, environment.waiting_queue);
            let requests = count_setting(
                "COMPACTION_RUNNING_REQUESTS_THRESHOLD"@,
                environment.running_requests,
            );
            let age = count_setting("COMPACTION_MAX_METRICS_AGE_MS"@, environment.max_age);
            let told = first_refusal(kv_cache, environment);
            &&& kv_cache is Err ==> told == Some(kv_cache->Err_0)
            &&& kv_cache is Ok && queue is Err ==> told == Some(queue->Err_0)
            &&& kv_cache is Ok && queue is Ok && requests is Err ==> told == Some(requests->Err_0)
            &&& kv_cache is Ok && queue is Ok && requests is Ok && age is Err ==> told == Some(
                age->Err_0,
            )
            &&& kv_cache is Ok && queue is Ok && requests is Ok && age is Ok ==> told is None
        }),
{
}

} // verus!
