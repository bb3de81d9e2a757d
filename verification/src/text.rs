//! Text: numbers in decimal, white space, prefixes.

use vstd::prelude::*;

verus! {

// ---------------------------------------------------------------------------
// Decimal numbers
// ---------------------------------------------------------------------------

/// The character of a decimal digit.
pub open spec fn digit_char(d: nat) -> char {
    (48 + d) as char
}

pub open spec fn is_digit(c: char) -> bool {
    '0' <= c <= '9'
}

/// `n` in decimal, without leading zeros.
pub open spec fn decimal(n: nat) -> Seq<char>
    decreases n,
{
    if n < 10 {
        seq![digit_char(n)]
    } else {
        decimal(n / 10).push(digit_char(n % 10))
    }
}

/// `n` in decimal, with a minus sign where it is negative.
pub open spec fn signed_decimal(n: int) -> Seq<char> {
    if n < 0 {
        seq!['-'] + decimal((-n) as nat)
    } else {
        decimal(n as nat)
    }
}

/// `n` in decimal, filled up with a zero to two characters.
pub open spec fn two_digits(n: int) -> Seq<char> {
    if 0 <= n < 10 {
        seq!['0', digit_char(n as nat)]
    } else {
        signed_decimal(n)
    }
}

/// The number that a row of digits stands for.
pub open spec fn digits_value(s: Seq<char>) -> nat
    decreases s.len(),
{
    if s.len() == 0 {
        0
    } else {
        digits_value(s.drop_last()) * 10 + (s.last() as nat - 48) as nat
    }
}

pub open spec fn all_digits(s: Seq<char>) -> bool {
    forall|i: int| 0 <= i < s.len() ==> is_digit(#[trigger] s[i])
}

/// What is left of a number's text behind its sign.
pub open spec fn unsigned_part(s: Seq<char>) -> Seq<char> {
    if s.len() > 0 && (s[0] == '-' || s[0] == '+') {
        s.drop_first()
    } else {
        s
    }
}

/// The number that `s` writes in decimal, with or without a sign.
pub open spec fn integer_value(s: Seq<char>) -> int {
    if s.len() > 0 && s[0] == '-' {
        -(digits_value(unsigned_part(s)) as int)
    } else {
        digits_value(unsigned_part(s)) as int
    }
}

/// `s` is a decimal integer: a sign or none, then at least one digit.
pub open spec fn is_integer(s: Seq<char>) -> bool {
    &&& unsigned_part(s).len() > 0
    &&& all_digits(unsigned_part(s))
}

/// The `i32` that `s` writes in decimal, if it writes one.
pub open spec fn parsed_i32(s: Seq<char>) -> Option<i32> {
    if is_integer(s) && i32::MIN <= integer_value(s) <= i32::MAX {
        Some(integer_value(s) as i32)
    } else {
        None
    }
}

fn digit_text(d: u64) -> (s: &'static str)
    requires
        d < 10,
    ensures
        s@ == seq![digit_char(d as nat)],
{
    proof {
        reveal_strlit("0");
        reveal_strlit("1");
        reveal_strlit("2");
        reveal_strlit("3");
        reveal_strlit("4");
        reveal_strlit("5");
        reveal_strlit("6");
        reveal_strlit("7");
        reveal_strlit("8");
        reveal_strlit("9");
    }
    if d == 0 {
        "0"
    } else if d == 1 {
        "1"
    } else if d == 2 {
        "2"
    } else if d == 3 {
        "3"
    } else if d == 4 {
        "4"
    } else if d == 5 {
        "5"
    } else if d == 6 {
        "6"
    } else if d == 7 {
        "7"
    } else if d == 8 {
        "8"
    } else {
        "9"
    }
}

/// Writes `n` in decimal.
pub fn decimal_text(n: u64) -> (s: String)
    ensures
        s@ == decimal(n as nat),
    decreases n,
{
    if n < 10 {
        digit_text(n).to_string()
    } else {
        let s = decimal_text(n / 10).concat(digit_text(n % 10));
        assert(s@ == decimal(n as nat / 10).push(digit_char(n as nat % 10)));
        s
    }
}

/// Writes `n` in decimal, with a minus sign where it is negative.
pub fn signed_decimal_text(n: i32) -> (s: String)
    ensures
        s@ == signed_decimal(n as int),
{
    if n < 0 {
        proof {
            reveal_strlit("-");
        }
        let magnitude: u64 = (-(n as i64)) as u64;
        let s = "-".to_string().concat(decimal_text(magnitude).as_str());
        assert("-"@ == seq!['-']);
        s
    } else {
        decimal_text(n as u64)
    }
}

/// Writes `n` in decimal, filled up with a zero to two characters.
pub fn two_digits_text(n: i32) -> (s: String)
    ensures
        s@ == two_digits(n as int),
{
    if 0 <= n && n < 10 {
        proof {
            reveal_strlit("0");
        }
        let s = "0".to_string().concat(digit_text(n as u64));
        assert(s@ == seq!['0', digit_char(n as nat)]);
        s
    } else {
        signed_decimal_text(n)
    }
}

/// Appending a digit multiplies the value by ten.
proof fn lemma_value_push(s: Seq<char>, c: char)
    ensures
        digits_value(s.push(c)) == digits_value(s) * 10 + (c as nat - 48) as nat,
{
    assert(s.push(c).drop_last() == s);
}

/// A longer row of digits is worth no less.
proof fn lemma_value_grows(s: Seq<char>, n: int)
    requires
        0 <= n <= s.len(),
    ensures
        digits_value(s.take(n)) <= digits_value(s),
    decreases s.len() - n,
{
    if n == s.len() {
        assert(s.take(n) == s);
    } else {
        lemma_value_grows(s, n + 1);
        assert(s.take(n + 1).drop_last() == s.take(n));
    }
}

/// The text of a number is a row of digits that stands for it.
pub proof fn law_decimal_is_digits(n: nat)
    ensures
        decimal(n).len() > 0,
        all_digits(decimal(n)),
        digits_value(decimal(n)) == n,
    decreases n,
{
    reveal_with_fuel(digits_value, 2);
    if n >= 10 {
        law_decimal_is_digits(n / 10);
        lemma_value_push(decimal(n / 10), digit_char(n % 10));
    } else {
        assert(decimal(n).drop_last() == Seq::<char>::empty());
    }
}

/// Reading a number back from its text gives the number: every `i32` survives being
/// written in decimal and parsed.
pub proof fn law_i32_text_reads_back(n: i32)
    ensures
        parsed_i32(signed_decimal(n as int)) == Some(n),
{
    let s = signed_decimal(n as int);
    if n < 0 {
        law_decimal_is_digits((-n) as nat);
        assert(unsigned_part(s) == decimal((-n) as nat));
    } else {
        law_decimal_is_digits(n as nat);
        assert(is_digit(s[0]));
        assert(unsigned_part(s) == s);
    }
}

// ---------------------------------------------------------------------------
// White space
// ---------------------------------------------------------------------------

/// The characters that Unicode calls `White_Space`.
pub open spec fn is_white_space(c: char) -> bool {
    ||| '\u{9}' <= c <= '\u{d}'
    ||| c == '\u{20}'
    ||| c == '\u{85}'
    ||| c == '\u{a0}'
    ||| c == '\u{1680}'
    ||| '\u{2000}' <= c <= '\u{200a}'
    ||| c == '\u{2028}'
    ||| c == '\u{2029}'
    ||| c == '\u{202f}'
    ||| c == '\u{205f}'
    ||| c == '\u{3000}'
}

pub open spec fn without_leading_white(s: Seq<char>) -> Seq<char>
    decreases s.len(),
{
    if s.len() > 0 && is_white_space(s[0]) {
        without_leading_white(s.drop_first())
    } else {
        s
    }
}

pub open spec fn without_trailing_white(s: Seq<char>) -> Seq<char>
    decreases s.len(),
{
    if s.len() > 0 && is_white_space(s.last()) {
        without_trailing_white(s.drop_last())
    } else {
        s
    }
}

/// `s` without the white space at its two ends.
pub open spec fn trimmed(s: Seq<char>) -> Seq<char> {
    without_trailing_white(without_leading_white(s))
}

pub fn white_space(c: char) -> (b: bool)
    ensures
        b == is_white_space(c),
{
    ('\u{9}' <= c && c <= '\u{d}') || c == '\u{20}' || c == '\u{85}' || c == '\u{a0}' || c
        == '\u{1680}' || ('\u{2000}' <= c && c <= '\u{200a}') || c == '\u{2028}' || c == '\u{2029}'
        || c == '\u{202f}' || c == '\u{205f}' || c == '\u{3000}'
}

/// The characters of `s`, one by one.
pub fn characters(s: &str) -> (v: Vec<char>)
    ensures
        v@ == s@,
{
    let mut v: Vec<char> = Vec::new();
    for c in it: s.chars()
        invariant
            v@ == it.seq().take(it.index() as int),
            it.seq() == s@,
    {
        v.push(c);
    }
    v
}

/// Takes the white space off both ends of `s`.
pub fn trim(s: &str) -> (t: String)
    ensures
        t@ == trimmed(s@),
{
    let v = characters(s);
    assert(v@.skip(0) == v@);
    let mut start: usize = 0;
    while start < v.len() && white_space(v[start])
        invariant
            start <= v.len(),
            v@ == s@,
            without_leading_white(v@) == without_leading_white(v@.skip(start as int)),
        decreases v.len() - start,
    {
        proof {
            assert(v@.skip(start as int).drop_first() == v@.skip(start + 1));
        }
        start = start + 1;
    }
    let mut end: usize = v.len();
    let ghost body = v@.skip(start as int);
    proof {
        assert(body.take(end - start) == body);
    }
    while start < end && white_space(v[end - 1])
        invariant
            start <= end <= v.len(),
            v@ == s@,
            body == v@.skip(start as int),
            without_trailing_white(body) == without_trailing_white(body.take(end - start)),
        decreases end,
    {
        proof {
            assert(body.take(end - start).drop_last() == body.take(end - start - 1));
        }
        end = end - 1;
    }
    proof {
        assert(body.take(end - start) == s@.subrange(start as int, end as int));
    }
    s.substring_char(start, end).to_string()
}

/// Text that neither starts nor ends in white space is left as it is.
pub proof fn law_trim_keeps_clean_text(s: Seq<char>)
    requires
        s.len() > 0 ==> !is_white_space(s[0]) && !is_white_space(s.last()),
    ensures
        trimmed(s) == s,
{
}

/// Parses a decimal `i32`, with or without a sign.
pub fn parse_i32(s: &str) -> (n: Option<i32>)
    ensures
        n == parsed_i32(s@),
{
    let v = characters(s);
    let negative = v.len() > 0 && v[0] == '-';
    let signed = v.len() > 0 && (v[0] == '-' || v[0] == '+');
    let start: usize = if signed { 1 } else { 0 };
    let ghost body = unsigned_part(s@);
    assert(body == v@.skip(start as int));
    if start == v.len() {
        return None;
    }
    let mut value: i64 = 0;
    let mut i: usize = start;
    while i < v.len()
        invariant
            start <= i <= v.len(),
            v@ == s@,
            body == unsigned_part(s@),
            body == v@.skip(start as int),
            all_digits(body.take(i - start)),
            value == digits_value(body.take(i - start)),
            value <= 2147483648,
        decreases v.len() - i,
    {
        let c = v[i];
        assert(c == body[i - start]);
        if !('0' <= c && c <= '9') {
            return None;
        }
        proof {
            assert(body.take(i - start + 1) == body.take(i - start).push(c));
            lemma_value_push(body.take(i - start), c);
            lemma_value_grows(body, i - start + 1);
        }
        value = value * 10 + (c as u32 as i64 - 48);
        if value > 2147483648 {
            return None;
        }
        i = i + 1;
    }
    assert(body.take(v.len() - start) == body);
    if negative {
        Some((-value) as i32)
    } else if value <= 2147483647 {
        Some(value as i32)
    } else {
        None
    }
}

// ---------------------------------------------------------------------------
// Prefixes
// ---------------------------------------------------------------------------

pub open spec fn has_prefix(s: Seq<char>, prefix: Seq<char>) -> bool {
    prefix.len() <= s.len() && s.take(prefix.len() as int) == prefix
}

/// `s` behind `prefix`, or all of it where it does not start that way.
pub open spec fn without_prefix(s: Seq<char>, prefix: Seq<char>) -> Seq<char> {
    if has_prefix(s, prefix) {
        s.skip(prefix.len() as int)
    } else {
        s
    }
}

pub fn starts_with(s: &str, prefix: &str) -> (b: bool)
    ensures
        b == has_prefix(s@, prefix@),
{
    let v = characters(s);
    let p = characters(prefix);
    if p.len() > v.len() {
        return false;
    }
    let mut i: usize = 0;
    while i < p.len()
        invariant
            i <= p.len() <= v.len(),
            v@ == s@,
            p@ == prefix@,
            forall|j: int| 0 <= j < i ==> v@[j] == p@[j],
        decreases p.len() - i,
    {
        if v[i] != p[i] {
            assert(s@.take(prefix@.len() as int)[i as int] == v@[i as int]);
            return false;
        }
        i = i + 1;
    }
    assert(s@.take(prefix@.len() as int) =~= prefix@);
    true
}

/// Takes `prefix` off the front of `s`, if it is there.
pub fn strip_prefix<'a>(s: &'a str, prefix: &str) -> (rest: &'a str)
    ensures
        rest@ == without_prefix(s@, prefix@),
{
    if starts_with(s, prefix) {
        s.substring_char(prefix.unicode_len(), s.unicode_len())
    } else {
        s
    }
}

// ---------------------------------------------------------------------------
// Text from other programs
// ---------------------------------------------------------------------------

/// The text that bytes are read as, whether or not they are valid UTF-8.
pub uninterp spec fn lossy_text(bytes: Seq<u8>) -> Seq<char>;

/// `String::from_utf8_lossy`: reads bytes as UTF-8. Bytes that are valid give their text;
/// what stands for the others is left open here.
#[verifier::external_body]
pub(crate) fn read_lossy(bytes: &[u8]) -> (s: String)
    ensures
        s@ == lossy_text(bytes@),
        vstd::utf8::valid_utf8(bytes@) ==> s@ == vstd::utf8::decode_utf8(bytes@),
{
    String::from_utf8_lossy(bytes).into_owned()
}

/// The text that a program printed, without the white space at its ends.
pub open spec fn printed_text(bytes: Seq<u8>) -> Seq<char> {
    trimmed(lossy_text(bytes))
}

/// What a program printed, without the white space at its ends.
pub fn read_printed(bytes: &[u8]) -> (s: String)
    ensures
        s@ == printed_text(bytes@),
        vstd::utf8::valid_utf8(bytes@) ==> s@ == trimmed(vstd::utf8::decode_utf8(bytes@)),
{
    trim(read_lossy(bytes).as_str())
}

// ---------------------------------------------------------------------------
// What always holds
// ---------------------------------------------------------------------------

/// A row of digits is read place by place: none stands for zero, and one more digit makes
/// the number ten times as large and adds its own value.
pub proof fn law_digits_are_read_by_place(s: Seq<char>, c: char)
    requires
        '0' <= c <= '9',
    ensures
        digits_value(Seq::empty()) == 0,
        digits_value(s.push(c)) == 10 * digits_value(s) + (c as int - 48),
{
    lemma_value_push(s, c);
}

/// The text of a number holds digits only, at least one, and no zero too many in front. By
/// its digits it stands for the number, so two numbers never have the same text.
pub proof fn law_decimal_stands_for_its_number(n: nat, m: nat)
    ensures
        decimal(n).len() > 0,
        forall|i: int| 0 <= i < decimal(n).len() ==> '0' <= #[trigger] decimal(n)[i] <= '9',
        decimal(n).len() > 1 ==> decimal(n)[0] != '0',
        digits_value(decimal(n)) == n,
        decimal(n) == decimal(m) ==> n == m,
    decreases n,
{
    law_decimal_is_digits(n);
    law_decimal_is_digits(m);
    assert forall|i: int| 0 <= i < decimal(n).len() implies '0' <= #[trigger] decimal(n)[i]
        <= '9' by {
        assert(is_digit(decimal(n)[i]));
    }
    if n >= 10 {
        law_decimal_stands_for_its_number(n / 10, m);
        if n / 10 < 10 {
            assert(decimal(n / 10) =~= seq![digit_char(n / 10)]);
        } else {
            law_decimal_is_digits(n / 10 / 10);
        }
        assert(decimal(n)[0] == decimal(n / 10)[0]);
    }
}

/// A negative number is its magnitude behind a minus sign.
pub proof fn law_minus_sign(n: nat)
    ensures
        signed_decimal(n as int) == decimal(n),
        n > 0 ==> signed_decimal(-n) == seq!['-'] + decimal(n),
{
}

/// Numbers below a hundred are shown with exactly two digits, which stand for the number;
/// all others as they are.
pub proof fn law_two_digits(n: int)
    ensures
        0 <= n < 100 ==> {
            &&& two_digits(n).len() == 2
            &&& '0' <= two_digits(n)[0] <= '9'
            &&& '0' <= two_digits(n)[1] <= '9'
            &&& 10 * (two_digits(n)[0] as int - 48) + (two_digits(n)[1] as int - 48) == n
        },
        n >= 100 ==> two_digits(n) == decimal(n as nat),
        n < 0 ==> two_digits(n) == seq!['-'] + decimal((-n) as nat),
{
    if 10 <= n < 100 {
        reveal_with_fuel(decimal, 2);
        assert(decimal(n as nat / 10) =~= seq![digit_char(n as nat / 10)]);
    }
}

/// A row of digits is read as the number it stands for if that is an `i32`, and as nothing
/// otherwise. A plus sign in front makes no difference, a minus sign the number negative.
pub proof fn law_integers_are_read(s: Seq<char>)
    requires
        s.len() > 0,
        forall|i: int| 0 <= i < s.len() ==> '0' <= #[trigger] s[i] <= '9',
    ensures
        digits_value(s) <= 2147483647 ==> parsed_i32(s) == Some(digits_value(s) as i32),
        digits_value(s) > 2147483647 ==> parsed_i32(s) is None,
        parsed_i32(seq!['+'] + s) == parsed_i32(s),
        digits_value(s) <= 2147483648 ==> parsed_i32(seq!['-'] + s) == Some(
            (-digits_value(s)) as i32,
        ),
        digits_value(s) > 2147483648 ==> parsed_i32(seq!['-'] + s) is None,
{
    assert('0' <= s[0]);
    assert(unsigned_part(s) == s);
    assert(unsigned_part(seq!['+'] + s) =~= s);
    assert(unsigned_part(seq!['-'] + s) =~= s);
}

/// Nothing but digits, with a sign in front or none, is read as a number: not an empty
/// text, not a sign alone, nor anything with another character in it.
pub proof fn law_nothing_else_is_a_number(s: Seq<char>, i: int)
    requires
        ({
            ||| s.len() == 0
            ||| s.len() == 1 && !('0' <= s[0] <= '9')
            ||| 1 <= i < s.len() && !('0' <= s[i] <= '9')
            ||| i == 0 && 0 < s.len() && !('0' <= s[0] <= '9') && s[0] != '+' && s[0] != '-'
        }),
    ensures
        parsed_i32(s) is None,
{
    let body = unsigned_part(s);
    if is_integer(s) {
        if s.len() == 1 && !('0' <= s[0] <= '9') {
            if body == s {
                assert(is_digit(body[0]));
            }
        } else if 1 <= i < s.len() {
            if body == s {
                assert(is_digit(body[i]));
            } else {
                assert(is_digit(body[i - 1]));
            }
        } else if s.len() > 0 {
            assert(is_digit(body[0]));
        }
    }
}

/// The white space of Unicode, by code points.
pub proof fn law_white_space(c: char)
    ensures
        is_white_space(c) <==> {
            let u = c as u32;
            ||| 0x9 <= u <= 0xd
            ||| 0x2000 <= u <= 0x200a
            ||| u == 0x20 || u == 0x85 || u == 0xa0 || u == 0x1680
            ||| u == 0x2028 || u == 0x2029 || u == 0x202f || u == 0x205f || u == 0x3000
        },
{
}

proof fn lemma_leading(s: Seq<char>) -> (a: int)
    ensures
        0 <= a <= s.len(),
        without_leading_white(s) == s.skip(a),
        forall|i: int| 0 <= i < a ==> is_white_space(#[trigger] s[i]),
        a < s.len() ==> !is_white_space(s[a]),
    decreases s.len(),
{
    if s.len() > 0 && is_white_space(s[0]) {
        let a = lemma_leading(s.drop_first());
        assert(s.drop_first().skip(a) =~= s.skip(a + 1));
        assert forall|i: int| 0 <= i < a + 1 implies is_white_space(#[trigger] s[i]) by {
            if i > 0 {
                assert(s.drop_first()[i - 1] == s[i]);
            }
        }
        a + 1
    } else {
        assert(s.skip(0) =~= s);
        0
    }
}

proof fn lemma_trailing(s: Seq<char>) -> (b: int)
    ensures
        0 <= b <= s.len(),
        without_trailing_white(s) == s.take(b),
        forall|i: int| b <= i < s.len() ==> is_white_space(#[trigger] s[i]),
        b > 0 ==> !is_white_space(s[b - 1]),
    decreases s.len(),
{
    if s.len() > 0 && is_white_space(s.last()) {
        let b = lemma_trailing(s.drop_last());
        assert(s.drop_last().take(b) =~= s.take(b));
        assert forall|i: int| b <= i < s.len() implies is_white_space(#[trigger] s[i]) by {
            if i < s.len() - 1 {
                assert(s.drop_last()[i] == s[i]);
            }
        }
        b
    } else {
        assert(s.take(s.len() as int) =~= s);
        s.len() as int
    }
}

/// Trimming takes white space off the two ends, all of it, and nothing else: what is left
/// stands in the text with white space only before and behind it, and neither starts nor
/// ends in white space.
pub proof fn law_trimming_takes_off_white_space_only(s: Seq<char>)
    ensures
        exists|a: int, b: int|
            {
                &&& 0 <= a <= b <= s.len()
                &&& trimmed(s) == #[trigger] s.subrange(a, b)
                &&& forall|i: int| 0 <= i < a ==> is_white_space(#[trigger] s[i])
                &&& forall|i: int| b <= i < s.len() ==> is_white_space(#[trigger] s[i])
            },
        trimmed(s).len() > 0 ==> !is_white_space(trimmed(s)[0]) && !is_white_space(
            trimmed(s).last(),
        ),
{
    let a = lemma_leading(s);
    let body = s.skip(a);
    let b = lemma_trailing(body);
    assert(trimmed(s) =~= s.subrange(a, a + b));
    assert forall|i: int| a + b <= i < s.len() implies is_white_space(#[trigger] s[i]) by {
        assert(body[i - a] == s[i]);
    }
    if b > 0 {
        assert(trimmed(s)[0] == s[a]);
        assert(trimmed(s).last() == body[b - 1]);
    }
}

/// White space around a text that has none at its ends does not matter.
pub proof fn law_surrounding_white_space_is_dropped(
    before: Seq<char>,
    s: Seq<char>,
    behind: Seq<char>,
)
    requires
        forall|i: int| 0 <= i < before.len() ==> is_white_space(#[trigger] before[i]),
        forall|i: int| 0 <= i < behind.len() ==> is_white_space(#[trigger] behind[i]),
        s.len() > 0,
        !is_white_space(s[0]),
        !is_white_space(s.last()),
    ensures
        trimmed(before + s + behind) == s,
{
    let all = before + s + behind;
    let a = lemma_leading(all);
    assert(all[before.len() as int] == s[0]);
    if a < before.len() {
        assert(all[a] == before[a]);
    }
    assert(a == before.len());
    let body = all.skip(a);
    let b = lemma_trailing(body);
    assert(body[s.len() - 1] == s.last());
    if b > s.len() {
        assert(body[b - 1] == behind[b - 1 - s.len()]);
    }
    assert(b == s.len());
    assert(body.take(b) =~= s);
}

/// A text starts with a prefix exactly if it is the prefix and something behind it; taking
/// the prefix off leaves that, and a text that does not start that way is left alone.
pub proof fn law_prefixes(prefix: Seq<char>, rest: Seq<char>, s: Seq<char>)
    ensures
        has_prefix(prefix + rest, prefix),
        without_prefix(prefix + rest, prefix) == rest,
        has_prefix(s, prefix) ==> s == prefix + without_prefix(s, prefix),
        !has_prefix(s, prefix) ==> without_prefix(s, prefix) == s,
        has_prefix(s, prefix) <==> exists|tail: Seq<char>| s == #[trigger] (prefix + tail),
{
    assert((prefix + rest).take(prefix.len() as int) =~= prefix);
    assert((prefix + rest).skip(prefix.len() as int) =~= rest);
    if has_prefix(s, prefix) {
        assert(s =~= prefix + s.skip(prefix.len() as int));
    }
    if exists|tail: Seq<char>| s == #[trigger] (prefix + tail) {
        let tail = choose|tail: Seq<char>| s == #[trigger] (prefix + tail);
        assert((prefix + tail).take(prefix.len() as int) =~= prefix);
    }
}

/// What a program printed is read with the white space at its ends taken off.
pub proof fn law_printed_text_is_trimmed(bytes: Seq<u8>)
    ensures
        printed_text(bytes) == trimmed(lossy_text(bytes)),
        printed_text(bytes).len() > 0 ==> !is_white_space(printed_text(bytes)[0])
            && !is_white_space(printed_text(bytes).last()),
{
    law_trimming_takes_off_white_space_only(lossy_text(bytes));
}

} // verus!
