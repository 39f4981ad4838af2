//! What trimming, numbers and names come to.

use vstd::prelude::*;

use crate::error::{explanation, status_of, ExecutorError};
use crate::protocol::{api_name, canonical_name, folded, named_api, unknown_api, UpstreamApi};
use crate::split::{is_json_space, json_trimmed};
use crate::text::{all_digits, decimal, digits_value, is_space, lemma_trimmed_middle, trimmed};

verus! {

/// Whitespace is what Unicode calls so, and nothing else.
pub proof fn whitespace_is_what_unicode_calls_so(c: char)
    ensures
        is_space(c) <==> {
            let n = c as int;
            ||| n == 9 || n == 10 || n == 11 || n == 12 || n == 13
            ||| n == 32 || n == 133 || n == 160 || n == 5760
            ||| n == 8192 || n == 8193 || n == 8194 || n == 8195 || n == 8196 || n == 8197
            ||| n == 8198 || n == 8199 || n == 8200 || n == 8201 || n == 8202
            ||| n == 8232 || n == 8233 || n == 8239 || n == 8287 || n == 12288
        },
{
}

/// Trimming takes away the whitespace at both ends, all of it and nothing else.
pub proof fn only_surrounding_whitespace_is_trimmed(
    before: Seq<char>,
    middle: Seq<char>,
    after: Seq<char>,
)
    requires
        forall|i: int| 0 <= i < before.len() ==> is_space(#[trigger] before[i]),
        forall|i: int| 0 <= i < after.len() ==> is_space(#[trigger] after[i]),
        middle.len() > 0 ==> !is_space(middle[0]) && !is_space(middle[middle.len() - 1]),
    ensures
        trimmed(before + middle + after) == middle,
{
    let s = before + middle + after;
    let from = before.len() as int;
    let to = from + middle.len();
    assert forall|i: int| 0 <= i < from implies is_space(#[trigger] s[i]) by {
        assert(s[i] == before[i]);
    }
    assert forall|i: int| to <= i < s.len() implies is_space(#[trigger] s[i]) by {
        assert(s[i] == after[i - to]);
    }
    if middle.len() > 0 {
        assert(s[from] == middle[0]);
        assert(s[to - 1] == middle[middle.len() - 1]);
    }
    lemma_trimmed_middle(s, from, to);
    assert(s.subrange(from, to) =~= middle);
}

/// The same of the whitespace that JSON allows around a value: spaces, line feeds, tabs and carriage
/// returns.
pub proof fn only_surrounding_json_whitespace_is_trimmed(
    before: Seq<char>,
    middle: Seq<char>,
    after: Seq<char>,
)
    requires
        forall|i: int| 0 <= i < before.len() ==> is_json_space(#[trigger] before[i]),
        forall|i: int| 0 <= i < after.len() ==> is_json_space(#[trigger] after[i]),
        middle.len() > 0 ==> !is_json_space(middle[0]) && !is_json_space(
            middle[middle.len() - 1],
        ),
    ensures
        json_trimmed(before + middle + after) == middle,
        forall|c: char| #[trigger]
            is_json_space(c) <==> c as int == 32 || c as int == 10 || c as int == 9 || c as int
                == 13,
    decreases before.len() + after.len(),
{
    let s = before + middle + after;
    if before.len() > 0 {
        assert(is_json_space(before[0]));
        assert(s.first() == before[0]);
        let rest = before.drop_first();
        assert forall|i: int| 0 <= i < rest.len() implies is_json_space(#[trigger] rest[i]) by {
            assert(rest[i] == before[i + 1]);
        }
        only_surrounding_json_whitespace_is_trimmed(rest, middle, after);
        assert(s.drop_first() =~= rest + middle + after);
    } else if after.len() > 0 {
        let rest = after.drop_last();
        assert(is_json_space(after[after.len() - 1]));
        assert(s.last() == after[after.len() - 1]);
        assert forall|i: int| 0 <= i < rest.len() implies is_json_space(#[trigger] rest[i]) by {
            assert(rest[i] == after[i]);
        }
        only_surrounding_json_whitespace_is_trimmed(before, middle, rest);
        assert(s.drop_last() =~= before + middle + rest);
        if is_json_space(s.first()) {
            if middle.len() > 0 {
                assert(s.first() == middle[0]);
            } else {
                assert(s =~= after);
                let tail = after.drop_first();
                assert forall|i: int| 0 <= i < tail.len() implies is_json_space(
                    #[trigger] tail[i],
                ) by {
                    assert(tail[i] == after[i + 1]);
                }
                only_surrounding_json_whitespace_is_trimmed(before, middle, tail);
                assert(s.drop_first() =~= before + middle + tail);
            }
        }
    } else {
        assert(s =~= middle);
    }
}

/// A digit more makes a number ten times as large and adds the digit; a plus sign before the digits
/// changes nothing.
pub proof fn digits_count_by_tens(digits: Seq<char>, digit: char)
    requires
        '0' <= digit <= '9',
    ensures
        digits_value(digits.push(digit)) == 10 * digits_value(digits) + (digit as int - '0' as int),
        digits_value(Seq::empty()) == 0,
        digits.len() > 0 && digits[0] != '+' ==> decimal(seq!['+'] + digits) == decimal(digits),
{
    assert(digits.push(digit).drop_last() =~= digits);
    assert((seq!['+'] + digits).drop_first() =~= digits);
}

/// A text is a number exactly where it is digits alone, perhaps behind one plus sign, and fits.
pub proof fn numbers_are_digits_alone(digits: Seq<char>, n: u64)
    requires
        digits.len() == 0 || digits[0] != '+',
    ensures
        decimal(digits) == Some(n) <==> digits.len() > 0 && (forall|i: int|
            0 <= i < digits.len() ==> 48 <= (#[trigger] digits[i]) as int <= 57) && digits_value(
            digits,
        ) == n,
{
    if decimal(digits) == Some(n) {
        assert(digits_value(digits) as u64 == n);
    }
    if digits.len() > 0 && (forall|i: int|
        0 <= i < digits.len() ==> 48 <= (#[trigger] digits[i]) as int <= 57) {
        assert(all_digits(digits));
    }
}

/// Letters are compared without regard to case, hyphens as underscores, and every other character as
/// itself.
pub proof fn characters_are_folded_one_by_one(c: char)
    ensures
        65 <= c as int <= 90 ==> folded(c) as int == c as int + 32,
        c == '-' ==> folded(c) == '_',
        !(65 <= c as int <= 90) && c != '-' ==> folded(c) == c,
{
}

/// A name is compared character for character, without the whitespace around it.
pub proof fn names_are_compared_folded(value: Seq<char>, i: int)
    ensures
        canonical_name(value).len() == trimmed(value).len(),
        0 <= i < trimmed(value).len() ==> canonical_name(value)[i] == folded(trimmed(value)[i]),
{
}

/// Three names stand for a protocol, and no other does; a protocol goes by its own.
pub proof fn protocols_are_named(value: Seq<char>, api: UpstreamApi)
    ensures
        named_api(value) == Some(UpstreamApi::Responses) <==> canonical_name(value)
            == "responses"@,
        named_api(value) == Some(UpstreamApi::ChatCompletions) <==> canonical_name(value)
            == "chat_completions"@ || canonical_name(value) == "chat"@,
        api_name(UpstreamApi::Responses) == "responses"@,
        api_name(UpstreamApi::ChatCompletions) == "chat_completions"@,
        unknown_api(value) == "unknown upstream API '"@ + canonical_name(value)
            + "' (expected 'responses' or 'chat_completions')"@,
{
    reveal_strlit("responses");
    reveal_strlit("chat_completions");
    reveal_strlit("chat");
    assert("responses"@.len() == 9);
    assert("chat_completions"@.len() == 16);
    assert("chat"@.len() == 4);
}

/// A missing turn is not found, a failure of storage is the service's fault, and everything else is
/// the caller's; an explanation is handed on as it was written.
pub proof fn errors_tell_whose_fault_it_is(error: ExecutorError)
    ensures
        error is NotFound ==> status_of(error) == 404 && explanation(error) == Some(
            error->NotFound_0@,
        ),
        error is Storage ==> status_of(error) == 500 && explanation(error) is None,
        error is JsonError ==> status_of(error) == 400 && explanation(error) is None,
        error is InvalidRequest ==> status_of(error) == 400 && explanation(error) == Some(
            error->InvalidRequest_0@,
        ),
        error is ParseError ==> status_of(error) == 400 && explanation(error) == Some(
            error->ParseError_0@,
        ),
{
}

} // verus!
