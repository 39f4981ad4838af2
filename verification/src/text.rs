//! Text: comparison, trimming and number reading.

use vstd::prelude::*;
use vstd::string::*;
use vstd::utf8::*;

verus! {

/// Texts with the same bytes are the same text.
pub proof fn lemma_same_bytes(a: Seq<char>, b: Seq<char>)
    requires
        encode_utf8(a) == encode_utf8(b),
    ensures
        a == b,
{
    encode_utf8_decode_utf8(a);
    encode_utf8_decode_utf8(b);
}

/// Whether two texts are equal.
pub fn same_text(a: &str, b: &str) -> (r: bool)
    ensures
        r == (a@ == b@),
{
    let left: &[u8] = a.as_bytes();
    let right: &[u8] = b.as_bytes();
    if left.len() != right.len() {
        return false;
    }
    let mut i: usize = 0;
    while i < left.len()
        invariant
            i <= left.len(),
            left.len() == right.len(),
            left@ == encode_utf8(a@),
            right@ == encode_utf8(b@),
            forall|j: int| 0 <= j < i ==> left@[j] == right@[j],
        decreases left.len() - i,
    {
        if left[i] != right[i] {
            assert(left@[i as int] != right@[i as int]);
            return false;
        }
        i = i + 1;
    }
    proof {
        assert(left@ =~= right@);
        lemma_same_bytes(a@, b@);
    }
    true
}

/// The characters with the Unicode property White_Space.
pub open spec fn is_space(c: char) -> bool {
    let n = c as u32;
    ||| 0x09 <= n <= 0x0D
    ||| n == 0x20
    ||| n == 0x85
    ||| n == 0xA0
    ||| n == 0x1680
    ||| 0x2000 <= n <= 0x200A
    ||| n == 0x2028
    ||| n == 0x2029
    ||| n == 0x202F
    ||| n == 0x205F
    ||| n == 0x3000
}

/// `s` without the whitespace that it begins and ends with.
pub open spec fn trimmed(s: Seq<char>) -> Seq<char>
    decreases s.len(),
{
    if s.len() == 0 {
        s
    } else if is_space(s.first()) {
        trimmed(s.drop_first())
    } else if is_space(s.last()) {
        trimmed(s.drop_last())
    } else {
        s
    }
}

fn space(c: char) -> (r: bool)
    ensures
        r == is_space(c),
{
    let n: u32 = c as u32;
    (0x09 <= n && n <= 0x0D) || n == 0x20 || n == 0x85 || n == 0xA0 || n == 0x1680 || (0x2000 <= n
        && n <= 0x200A) || n == 0x2028 || n == 0x2029 || n == 0x202F || n == 0x205F || n == 0x3000
}

/// Where everything before `from` and from `to` on is whitespace, and the characters at the two
/// ends of the middle are not, the middle is what trimming leaves.
pub proof fn lemma_trimmed_middle(s: Seq<char>, from: int, to: int)
    requires
        0 <= from <= to <= s.len(),
        forall|i: int| 0 <= i < from ==> is_space(#[trigger] s[i]),
        forall|i: int| to <= i < s.len() ==> is_space(#[trigger] s[i]),
        from < to ==> !is_space(s[from]) && !is_space(s[to - 1]),
    ensures
        trimmed(s) == s.subrange(from, to),
    decreases s.len(),
{
    if s.len() == 0 {
        assert(s.subrange(from, to) =~= s);
    } else if from > 0 {
        let rest = s.drop_first();
        assert forall|i: int| 0 <= i < from - 1 implies is_space(#[trigger] rest[i]) by {
            assert(is_space(s[i + 1]));
        }
        assert forall|i: int| to - 1 <= i < rest.len() implies is_space(#[trigger] rest[i]) by {
            assert(is_space(s[i + 1]));
        }
        assert(is_space(s[0]));
        lemma_trimmed_middle(rest, from - 1, to - 1);
        assert(rest.subrange(from - 1, to - 1) =~= s.subrange(from, to));
    } else if to == 0 {
        assert(is_space(s[0]));
        let rest = s.drop_first();
        assert forall|i: int| 0 <= i < rest.len() implies is_space(#[trigger] rest[i]) by {
            assert(is_space(s[i + 1]));
        }
        lemma_trimmed_middle(rest, 0, 0);
        assert(rest.subrange(0, 0) =~= s.subrange(from, to));
    } else if to < s.len() {
        let rest = s.drop_last();
        assert(is_space(s[s.len() - 1]));
        lemma_trimmed_middle(rest, from, to);
        assert(rest.subrange(from, to) =~= s.subrange(from, to));
    } else {
        assert(s.subrange(from, to) =~= s);
    }
}

/// `text` without the whitespace that it begins and ends with.
pub fn trim(text: &str) -> (r: &str)
    ensures
        r@ == trimmed(text@),
{
    let mut from: usize = 0;
    let mut to: usize = 0;
    let len: usize = text.unicode_len();
    let mut n: usize = 0;
    for c in it: text.chars()
        invariant
            it.seq() == text@,
            n == it.index(),
            len == text@.len(),
            from <= to <= n,
            to == 0 ==> from == 0 && forall|i: int| 0 <= i < n ==> is_space(#[trigger] text@[i]),
            to > 0 ==> from < to && !is_space(text@[from as int]) && !is_space(text@[to - 1]),
            to > 0 ==> forall|i: int| 0 <= i < from ==> is_space(#[trigger] text@[i]),
            to > 0 ==> forall|i: int| to <= i < n ==> is_space(#[trigger] text@[i]),
    {
        assert(c == text@[n as int]);
        if !space(c) {
            if to == 0 {
                from = n;
            }
            to = n + 1;
        }
        n = n + 1;
    }
    proof {
        lemma_trimmed_middle(text@, from as int, to as int);
    }
    text.substring_char(from, to)
}

/// `String::push`: the character is appended.
pub assume_specification[ std::string::String::push ](s: &mut std::string::String, c: char)
    ensures
        final(s)@ == old(s)@.push(c),
;

/// The concatenation of three texts.
pub fn join3(a: &str, b: &str, c: &str) -> (r: String)
    ensures
        r@ == a@ + b@ + c@,
{
    let mut r: String = a.to_owned();
    r.append(b);
    r.append(c);
    r
}

/// The number that decimal digits stand for.
pub open spec fn digits_value(digits: Seq<char>) -> nat
    decreases digits.len(),
{
    if digits.len() == 0 {
        0
    } else {
        digits_value(digits.drop_last()) * 10 + (digits.last() as nat - '0' as nat) as nat
    }
}

/// Nothing but decimal digits.
pub open spec fn all_digits(text: Seq<char>) -> bool {
    forall|i: int| 0 <= i < text.len() ==> '0' <= #[trigger] text[i] <= '9'
}

/// A text without the plus sign that it begins with.
pub open spec fn unsigned(text: Seq<char>) -> Seq<char> {
    if text.len() > 0 && text[0] == '+' {
        text.drop_first()
    } else {
        text
    }
}

/// The number that a text is: decimal digits, at least one of them and perhaps a plus sign before
/// them, of a number that fits.
pub open spec fn decimal(text: Seq<char>) -> Option<u64> {
    let digits = unsigned(text);
    if digits.len() > 0 && all_digits(digits) && digits_value(digits) <= u64::MAX {
        Some(digits_value(digits) as u64)
    } else {
        None
    }
}

/// What `str::parse` says of a text that is not a number.
pub uninterp spec fn number_fault(text: Seq<char>) -> Seq<char>;

/// `str::parse` for `u64`: the number, or in words why the text is none. An optional plus sign and
/// only digits make a number, as far as it fits.
#[verifier::external_body]
pub(crate) fn parse_number(text: &str) -> (r: Result<u64, String>)
    ensures
        match r {
            Ok(n) => decimal(text@) == Some(n),
            Err(fault) => decimal(text@) is None && fault@ == number_fault(text@),
        },
{
    text.parse::<u64>().map_err(|error| error.to_string())
}

} // verus!
