//! Numbers as decimal text.
use vstd::prelude::*;
use vstd::string::StringExecFns;

verus! {

pub open spec fn is_digit(c: char) -> bool {
    '0' <= c && c <= '9'
}

/// The decimal digit of a number below ten.
pub open spec fn digit_char(d: nat) -> char {
    if d == 0 {
        '0'
    } else if d == 1 {
        '1'
    } else if d == 2 {
        '2'
    } else if d == 3 {
        '3'
    } else if d == 4 {
        '4'
    } else if d == 5 {
        '5'
    } else if d == 6 {
        '6'
    } else if d == 7 {
        '7'
    } else if d == 8 {
        '8'
    } else {
        '9'
    }
}

/// The value of a decimal digit.
pub open spec fn digit_value(c: char) -> nat {
    if c == '0' {
        0
    } else if c == '1' {
        1
    } else if c == '2' {
        2
    } else if c == '3' {
        3
    } else if c == '4' {
        4
    } else if c == '5' {
        5
    } else if c == '6' {
        6
    } else if c == '7' {
        7
    } else if c == '8' {
        8
    } else {
        9
    }
}

/// The decimal digits of a natural number, most significant first, without
/// a leading zero.
pub open spec fn nat_text(n: nat) -> Seq<char>
    decreases n,
{
    if n < 10 {
        seq![digit_char(n)]
    } else {
        nat_text(n / 10).push(digit_char(n % 10))
    }
}

/// The number that a run of decimal digits stands for.
pub open spec fn digits_value(s: Seq<char>) -> nat
    decreases s.len(),
{
    if s.len() == 0 {
        0
    } else {
        digits_value(s.drop_last()) * 10 + digit_value(s.last())
    }
}

pub open spec fn all_digits(s: Seq<char>) -> bool {
    forall|i: int| 0 <= i < s.len() ==> is_digit(#[trigger] s[i])
}

/// The natural number that `s` is the text of: `s` is made of digits and has
/// no leading zero, unless it is the single digit zero.
pub open spec fn parse_nat(s: Seq<char>) -> Option<nat> {
    if s.len() > 0 && all_digits(s) && (s.len() == 1 || s[0] != '0') {
        Some(digits_value(s))
    } else {
        None
    }
}

/// The number of digits that `s` starts with.
pub open spec fn digit_run(s: Seq<char>) -> nat
    decreases s.len(),
{
    if s.len() == 0 || !is_digit(s[0]) {
        0
    } else {
        1 + digit_run(s.skip(1))
    }
}

/// `s` without a leading minus sign.
pub open spec fn magnitude_part(s: Seq<char>) -> Seq<char> {
    if s.len() > 0 && s[0] == '-' {
        s.skip(1)
    } else {
        s
    }
}

/// The longest number text that the library writes.
pub const MAX_NUMBER_LEN: usize = 64;

/// A number in plain decimal notation: an optional minus sign, an integer
/// part without a needless leading zero and, optionally, a point followed by
/// at least one digit. No exponent, and at most `MAX_NUMBER_LEN` characters.
pub open spec fn is_plain_number(s: Seq<char>) -> bool {
    let body = magnitude_part(s);
    let k = digit_run(body) as int;
    &&& s.len() <= MAX_NUMBER_LEN
    &&& k >= 1
    &&& (k == 1 || body[0] != '0')
    &&& (k == body.len() || (body[k] == '.' && k + 1 < body.len() && digit_run(body.skip(k + 1))
        == body.len() - k - 1))
}


/// The text of a natural number is made of digits, starts with a zero only
/// if the number is zero, and stands for that number.
pub proof fn lemma_nat_text(n: nat)
    ensures
        nat_text(n).len() >= 1,
        all_digits(nat_text(n)),
        nat_text(n)[0] == '0' <==> n == 0,
        n < 10 <==> nat_text(n).len() == 1,
        digits_value(nat_text(n)) == n,
        parse_nat(nat_text(n)) == Some(n),
    decreases n,
{
    let t = nat_text(n);
    if n < 10 {
        assert(t.drop_last() =~= Seq::<char>::empty());
        assert(digits_value(t.drop_last()) == 0);
    } else {
        lemma_nat_text(n / 10);
        let head = nat_text(n / 10);
        assert(t.drop_last() =~= head);
        assert(t.last() == digit_char(n % 10));
        assert(t[0] == head[0]);
        assert forall|i: int| 0 <= i < t.len() implies is_digit(#[trigger] t[i]) by {
            if i < head.len() {
                assert(t[i] == head[i]);
            }
        }
    }
}

/// Ten to the power `k`.
pub open spec fn pow10(k: nat) -> nat
    decreases k,
{
    if k == 0 {
        1
    } else {
        10 * pow10((k - 1) as nat)
    }
}

/// A number below ten to the power `k` has at most `k` digits.
pub proof fn lemma_nat_text_len(n: nat, k: nat)
    requires
        k >= 1,
        n < pow10(k),
    ensures
        nat_text(n).len() <= k,
    decreases k,
{
    if n >= 10 {
        assert(pow10(1) == 10) by {
            reveal_with_fuel(pow10, 2);
        }
        assert(k > 1);
        lemma_nat_text_len(n / 10, (k - 1) as nat);
    }
}


/// The value of a prefix of a run of digits is at most the value of the run.
pub proof fn lemma_digits_prefix(s: Seq<char>, j: int)
    requires
        0 <= j <= s.len(),
    ensures
        digits_value(s.take(j)) <= digits_value(s),
    decreases s.len() - j,
{
    if j == s.len() {
        assert(s.take(j) =~= s);
    } else {
        lemma_digits_prefix(s, j + 1);
        assert(s.take(j + 1).drop_last() =~= s.take(j));
    }
}

/// The text of a digit.
fn digit_str(d: u64) -> (s: &'static str)
    requires
        d < 10,
    ensures
        s@ == seq![digit_char(d as nat)],
{
    proof {
        reveal_strlit("0");
        reveal_strlit("1");
        reveal_strlit("2");
        reveal_strlit("3");
        reveal_strlit("4");
        reveal_strlit("5");
        reveal_strlit("6");
        reveal_strlit("7");
        reveal_strlit("8");
        reveal_strlit("9");
    }
    let s = if d == 0 {
        "0"
    } else if d == 1 {
        "1"
    } else if d == 2 {
        "2"
    } else if d == 3 {
        "3"
    } else if d == 4 {
        "4"
    } else if d == 5 {
        "5"
    } else if d == 6 {
        "6"
    } else if d == 7 {
        "7"
    } else if d == 8 {
        "8"
    } else {
        "9"
    };
    assert(s@ =~= seq![digit_char(d as nat)]);
    s
}

/// The value of a character, if it is a digit.
fn digit_of(c: char) -> (d: Option<u64>)
    ensures
        is_digit(c) <==> d is Some,
        d matches Some(v) ==> v == digit_value(c) && v < 10,
{
    if c == '0' {
        Some(0)
    } else if c == '1' {
        Some(1)
    } else if c == '2' {
        Some(2)
    } else if c == '3' {
        Some(3)
    } else if c == '4' {
        Some(4)
    } else if c == '5' {
        Some(5)
    } else if c == '6' {
        Some(6)
    } else if c == '7' {
        Some(7)
    } else if c == '8' {
        Some(8)
    } else if c == '9' {
        Some(9)
    } else {
        None
    }
}

/// Writes a number in decimal.
pub fn u64_to_text(n: u64) -> (text: String)
    ensures
        text@ == nat_text(n as nat),
{
    let mut text = String::from_str(digit_str(n % 10));
    let mut rest: u64 = n / 10;
    while rest > 0
        invariant
            rest > 0 ==> nat_text(n as nat) == nat_text(rest as nat) + text@,
            rest == 0 ==> nat_text(n as nat) == text@,
        decreases rest,
    {
        let ghost before = text@;
        let d: u64 = rest % 10;
        text = String::from_str(digit_str(d)).concat(text.as_str());
        proof {
            if rest < 10 {
                assert(nat_text(rest as nat) + before =~= text@);
            } else {
                assert(nat_text(rest as nat) + before =~= nat_text((rest / 10) as nat) + text@);
            }
        }
        rest = rest / 10;
    }
    text
}

/// Reads a number written in decimal. `None` where the text is not the text
/// of a natural number, or the number does not fit.
pub fn u64_from_text(text: &str) -> (r: Option<u64>)
    ensures
        r == match parse_nat(text@) {
            Some(n) => if n <= u64::MAX {
                Some(n as u64)
            } else {
                None
            },
            None => None,
        },
{
    let len = text.unicode_len();
    if len == 0 {
        return None;
    }
    if len > 1 && text.get_char(0) == '0' {
        return None;
    }
    let mut acc: u64 = 0;
    let mut i: usize = 0;
    while i < len
        invariant
            i <= len,
            len == text@.len(),
            all_digits(text@.take(i as int)),
            acc == digits_value(text@.take(i as int)),
        decreases len - i,
    {
        let c = text.get_char(i);
        let ghost prefix = text@.take(i as int);
        let ghost next = text@.take(i + 1);
        proof {
            assert(next.drop_last() =~= prefix);
            assert(next.last() == c);
            lemma_digits_prefix(text@, i + 1);
        }
        match digit_of(c) {
            None => {
                assert(!is_digit(text@[i as int]));
                return None;
            },
            Some(d) => {
                if acc > (u64::MAX - d) / 10 {
                    return None;
                }
                acc = acc * 10 + d;
                assert forall|j: int| 0 <= j < next.len() implies is_digit(#[trigger] next[j]) by {
                    if j < i {
                        assert(next[j] == prefix[j]);
                    }
                }
            },
        }
        i = i + 1;
    }
    assert(text@.take(len as int) =~= text@);
    Some(acc)
}


/// The end of the run of digits that starts at `from`.
fn digits_end(text: &str, from: usize, len: usize) -> (end: usize)
    requires
        from <= len,
        len == text@.len(),
    ensures
        from <= end <= len,
        all_digits(text@.subrange(from as int, end as int)),
        end == len || !is_digit(text@[end as int]),
{
    let mut end: usize = from;
    let mut scanning = true;
    while scanning && end < len
        invariant
            from <= end <= len,
            len == text@.len(),
            all_digits(text@.subrange(from as int, end as int)),
            !scanning ==> end < len && !is_digit(text@[end as int]),
        decreases len - end + if scanning { 1int } else { 0int },
    {
        match digit_of(text.get_char(end)) {
            None => {
                scanning = false;
            },
            Some(_) => {
                let ghost run = text@.subrange(from as int, end as int);
                let ghost next = text@.subrange(from as int, end + 1);
                assert forall|j: int| 0 <= j < next.len() implies is_digit(#[trigger] next[j]) by {
                    if j < run.len() {
                        assert(next[j] == run[j]);
                    }
                }
                end = end + 1;
            },
        }
    }
    end
}

/// Whether a text is a plain number.
pub fn check_plain_number(text: &str) -> (ok: bool)
    ensures
        ok == is_plain_number(text@),
{
    let len = text.unicode_len();
    if len == 0 || len > MAX_NUMBER_LEN {
        return false;
    }
    let start: usize = if text.get_char(0) == '-' {
        1
    } else {
        0
    };
    let ghost body = magnitude_part(text@);
    assert(body =~= text@.skip(start as int));
    let end = digits_end(text, start, len);
    let ghost k: int = end - start;
    proof {
        assert(body.take(k) =~= text@.subrange(start as int, end as int));
        if end < len {
            assert(body[k] == text@[end as int]);
        }
        lemma_digit_run(body, k);
    }
    if end == start {
        return false;
    }
    assert(body[0] == text@[start as int]);
    if end - start > 1 && text.get_char(start) == '0' {
        return false;
    }
    if end == len {
        return true;
    }
    if text.get_char(end) != '.' || end + 1 >= len {
        return false;
    }
    let last = digits_end(text, end + 1, len);
    proof {
        let frac = body.skip(k + 1);
        let run: int = last - end - 1;
        assert(frac.take(run) =~= text@.subrange(end + 1, last as int));
        if last < len {
            assert(frac[run] == text@[last as int]);
        }
        lemma_digit_run(frac, run);
    }
    last == len
}

/// A decimal number with three places, kept as a count of thousandths.
/// The tuning parameters of a request are of this type: `1.0` is 1000
/// thousandths. A finer value, such as `0.0005`, has no `Decimal` and
/// cannot be sent; a caller that starts from a binary fraction has to round
/// it to thousandths first.
#[derive(Debug, Clone, Copy, PartialEq, Eq, Structural)]
pub struct Decimal {
    pub thousandths: i32,
}

/// The digits behind the point for a count of thousandths below 1000:
/// trailing zeros are left out, but one digit always stands.
pub open spec fn fraction_text(f: nat) -> Seq<char> {
    if f % 100 == 0 {
        seq![digit_char(f / 100)]
    } else if f % 10 == 0 {
        seq![digit_char(f / 100), digit_char(f / 10 % 10)]
    } else {
        seq![digit_char(f / 100), digit_char(f / 10 % 10), digit_char(f % 10)]
    }
}

/// The text of a count of thousandths: sign, whole part, point, fraction.
pub open spec fn decimal_text(t: int) -> Seq<char> {
    let m = if t < 0 {
        (-t) as nat
    } else {
        t as nat
    };
    let unsigned = nat_text(m / 1000) + seq!['.'] + fraction_text(m % 1000);
    if t < 0 {
        seq!['-'] + unsigned
    } else {
        unsigned
    }
}

/// The count of thousandths that up to three digits behind the point stand
/// for.
pub open spec fn fraction_value(f: Seq<char>) -> nat {
    if f.len() == 1 {
        digits_value(f) * 100
    } else if f.len() == 2 {
        digits_value(f) * 10
    } else {
        digits_value(f)
    }
}

/// The count of thousandths that a plain number with at most three places
/// stands for; `None` for every other text.
pub open spec fn parse_decimal(s: Seq<char>) -> Option<int> {
    let body = magnitude_part(s);
    let k = digit_run(body) as int;
    let whole = digits_value(body.take(k)) as int;
    let negative = s.len() > 0 && s[0] == '-';
    if !is_plain_number(s) {
        None
    } else if k == body.len() {
        Some(
            if negative {
                -(whole * 1000)
            } else {
                whole * 1000
            },
        )
    } else if body.len() - k - 1 > 3 {
        None
    } else {
        let m = whole * 1000 + fraction_value(body.skip(k + 1));
        Some(
            if negative {
                -m
            } else {
                m
            },
        )
    }
}

/// A run of `k` digits that ends the text or is followed by something else
/// is the run that the text starts with.
pub proof fn lemma_digit_run(s: Seq<char>, k: int)
    requires
        0 <= k <= s.len(),
        all_digits(s.take(k)),
        k == s.len() || !is_digit(s[k]),
    ensures
        digit_run(s) == k,
    decreases k,
{
    if k > 0 {
        assert(s[0] == s.take(k)[0]);
        let rest = s.skip(1);
        assert forall|i: int| 0 <= i < k - 1 implies is_digit(#[trigger] rest.take(k - 1)[i]) by {
            assert(rest.take(k - 1)[i] == s.take(k)[i + 1]);
        }
        if k < s.len() {
            assert(rest[k - 1] == s[k]);
        }
        lemma_digit_run(rest, k - 1);
    }
}


/// A text that starts with `j` digits has a digit run of at least `j`.
pub proof fn lemma_digit_run_at_least(s: Seq<char>, j: int)
    requires
        0 <= j <= s.len(),
        all_digits(s.take(j)),
    ensures
        j <= digit_run(s) <= s.len(),
    decreases s.len(),
{
    if s.len() > 0 && is_digit(s[0]) {
        let rest = s.skip(1);
        if j > 0 {
            assert forall|i: int| 0 <= i < j - 1 implies is_digit(#[trigger] rest.take(j - 1)[i]) by {
                assert(rest.take(j - 1)[i] == s.take(j)[i + 1]);
            }
            lemma_digit_run_at_least(rest, j - 1);
        } else {
            assert(rest.take(0) =~= Seq::<char>::empty());
            lemma_digit_run_at_least(rest, 0);
        }
    } else if j > 0 {
        assert(s[0] == s.take(j)[0]);
    }
}

/// The value of one, two and three digits.
pub proof fn lemma_digits_value_small(a: char, b: char, c: char)
    ensures
        digits_value(seq![a]) == digit_value(a),
        digits_value(seq![a, b]) == digit_value(a) * 10 + digit_value(b),
        digits_value(seq![a, b, c]) == digit_value(a) * 100 + digit_value(b) * 10 + digit_value(c),
{
    let s0 = Seq::<char>::empty();
    let s1 = seq![a];
    let s2 = seq![a, b];
    let s3 = seq![a, b, c];
    assert(digits_value(s0) == 0);
    assert(s1.drop_last() =~= s0);
    assert(s1.last() == a);
    assert(digits_value(s1) == digits_value(s0) * 10 + digit_value(a));
    assert(s2.drop_last() =~= s1);
    assert(s2.last() == b);
    assert(digits_value(s2) == digits_value(s1) * 10 + digit_value(b));
    assert(s3.drop_last() =~= s2);
    assert(s3.last() == c);
    assert(digits_value(s3) == digits_value(s2) * 10 + digit_value(c));
}

/// The digits behind the point stand for the thousandths that they were
/// written for.
pub proof fn lemma_fraction_text(f: nat)
    requires
        f < 1000,
    ensures
        1 <= fraction_text(f).len() <= 3,
        all_digits(fraction_text(f)),
        fraction_value(fraction_text(f)) == f,
{
    let a = digit_char(f / 100);
    let b = digit_char(f / 10 % 10);
    let c = digit_char(f % 10);
    lemma_digits_value_small(a, b, c);
    assert(digit_value(a) == f / 100);
    assert(digit_value(b) == f / 10 % 10);
    assert(digit_value(c) == f % 10);
    assert(is_digit(a) && is_digit(b) && is_digit(c));
}

/// The text of a decimal is a plain number, and reading it gives the
/// decimal back.
pub proof fn lemma_decimal_text(t: int)
    requires
        i32::MIN <= t <= i32::MAX,
    ensures
        is_plain_number(decimal_text(t)),
        parse_decimal(decimal_text(t)) == Some(t),
{
    let m = if t < 0 {
        (-t) as nat
    } else {
        t as nat
    };
    let whole = m / 1000;
    let f = m % 1000;
    let whole_text = nat_text(whole);
    let frac_text = fraction_text(f);
    let s = decimal_text(t);
    let body = magnitude_part(s);
    let k = whole_text.len() as int;
    lemma_nat_text(whole);
    lemma_fraction_text(f);
    assert(k <= 7) by {
        assert(pow10(7) == 10_000_000) by {
            reveal_with_fuel(pow10, 8);
        }
        lemma_nat_text_len(whole, 7);
    }
    assert(is_digit(whole_text[0]));
    assert(body =~= whole_text + seq!['.'] + frac_text) by {
        if t < 0 {
            assert(s[0] == '-');
        } else {
            assert(s[0] == whole_text[0]);
        }
    }
    assert(s.len() <= 12);
    assert(digit_run(body) == k) by {
        assert(body.take(k) =~= whole_text);
        assert(body[k] == '.');
        lemma_digit_run(body, k);
    }
    assert(body.take(k) =~= whole_text);
    assert(body.skip(k + 1) =~= frac_text);
    assert(digit_run(frac_text) == frac_text.len()) by {
        assert(frac_text.take(frac_text.len() as int) =~= frac_text);
        lemma_digit_run(frac_text, frac_text.len() as int);
    }
    assert(body[0] == whole_text[0]);
    assert(body[k] == '.');
    assert(is_plain_number(s));
    assert(m == whole * 1000 + f);
}

impl Decimal {
    /// Writes the decimal as a plain number.
    pub fn to_text(&self) -> (text: String)
        ensures
            text@ == decimal_text(self.thousandths as int),
            is_plain_number(text@),
    {
        proof {
            reveal_strlit("-");
            reveal_strlit("");
            reveal_strlit(".");
            lemma_decimal_text(self.thousandths as int);
        }
        let t: i64 = self.thousandths as i64;
        let m: u64 = if t < 0 {
            (-t) as u64
        } else {
            t as u64
        };
        let f: u64 = m % 1000;
        let mut text = String::from_str(
            if t < 0 {
                "-"
            } else {
                ""
            },
        );
        let whole = u64_to_text(m / 1000);
        text.append(whole.as_str());
        text.append(".");
        text.append(digit_str(f / 100));
        if f % 100 != 0 {
            text.append(digit_str(f / 10 % 10));
            if f % 10 != 0 {
                text.append(digit_str(f % 10));
            }
        }
        assert(text@ =~= decimal_text(self.thousandths as int));
        text
    }

    /// Reads a plain number with at most three places. `None` for every
    /// other text, and for a number that is out of range.
    pub fn from_text(text: &str) -> (r: Option<Decimal>)
        ensures
            r == match parse_decimal(text@) {
                Some(v) => if i32::MIN <= v <= i32::MAX {
                    Some(Decimal { thousandths: v as i32 })
                } else {
                    None
                },
                None => None,
            },
    {
        let len = text.unicode_len();
        if len == 0 || len > MAX_NUMBER_LEN {
            return None;
        }
        let negative = text.get_char(0) == '-';
        let start: usize = if negative {
            1
        } else {
            0
        };
        let ghost body = magnitude_part(text@);
        assert(body =~= text@.skip(start as int));
        let mut i: usize = start;
        let mut whole: u64 = 0;
        let mut scanning = true;
        while scanning && i < len
            invariant
                start <= i <= len,
                len == text@.len(),
                body == text@.skip(start as int),
                body == magnitude_part(text@),
                all_digits(body.take(i - start)),
                whole == digits_value(body.take(i - start)),
                whole <= 2_147_483,
                !scanning ==> i < len && !is_digit(text@[i as int]),
            decreases len - i + if scanning { 1int } else { 0int },
        {
            let c = text.get_char(i);
            match digit_of(c) {
                None => {
                    scanning = false;
                },
                Some(d) => {
                    let ghost prefix = body.take(i - start);
                    let ghost next = body.take(i - start + 1);
                    proof {
                        assert(next.drop_last() =~= prefix);
                        assert(next.last() == c);
                        assert forall|j: int| 0 <= j < next.len() implies is_digit(
                            #[trigger] next[j],
                        ) by {
                            if j < prefix.len() {
                                assert(next[j] == prefix[j]);
                            }
                        }
                    }
                    whole = whole * 10 + d;
                    if whole > 2_147_483 {
                        proof {
                            let k = digit_run(body) as int;
                            lemma_digit_run_at_least(body, i - start + 1);
                            lemma_digits_prefix(body.take(k), i - start + 1);
                            assert(body.take(k).take(i - start + 1) =~= next);
                        }
                        return None;
                    }
                    i = i + 1;
                },
            }
        }
        let ghost k: int = i - start;
        proof {
            if i < len {
                assert(body[k] == text@[i as int]);
            }
            lemma_digit_run(body, k);
        }
        if i == start {
            return None;
        }
        if i - start > 1 && text.get_char(start) == '0' {
            assert(body[0] == '0');
            return None;
        }
        assert(body[0] == text@[start as int]);
        let mut scaled: u64 = 0;
        if i < len {
            if text.get_char(i) != '.' {
                return None;
            }
            let places: usize = len - i - 1;
            if places == 0 || places > 3 {
                return None;
            }
            let ghost frac = body.skip(k + 1);
            let mut j: usize = i + 1;
            while j < len
                invariant
                    i + 1 <= j <= len,
                    len == text@.len(),
                    len - i - 1 <= 3,
                    start <= i,
                    k == i - start,
                    body == text@.skip(start as int),
                    body == magnitude_part(text@),
                    frac == body.skip(k + 1),
                    digit_run(body) == k,
                    all_digits(frac.take(j - i - 1)),
                    scaled == digits_value(frac.take(j - i - 1)),
                    scaled < pow10((j - i - 1) as nat),
                decreases len - j,
            {
                let c = text.get_char(j);
                let ghost prefix = frac.take(j - i - 1);
                let ghost next = frac.take(j - i);
                proof {
                    assert(frac[j - i - 1] == c);
                    assert(next.drop_last() =~= prefix);
                    assert(next.last() == c);
                    reveal_with_fuel(pow10, 4);
                }
                match digit_of(c) {
                    None => {
                        proof {
                            lemma_digit_run(frac, j - i - 1);
                        }
                        return None;
                    },
                    Some(d) => {
                        scaled = scaled * 10 + d;
                        assert forall|p: int| 0 <= p < next.len() implies is_digit(
                            #[trigger] next[p],
                        ) by {
                            if p < prefix.len() {
                                assert(next[p] == prefix[p]);
                            }
                        }
                    },
                }
                j = j + 1;
            }
            proof {
                assert(frac.take(frac.len() as int) =~= frac);
                lemma_digit_run(frac, frac.len() as int);
                reveal_with_fuel(pow10, 4);
            }
            if places == 1 {
                scaled = scaled * 100;
            } else if places == 2 {
                scaled = scaled * 10;
            }
            assert(scaled == fraction_value(frac));
        }
        assert(is_plain_number(text@));
        let m: u64 = whole * 1000 + scaled;
        if negative {
            if m > 2_147_483_648 {
                None
            } else {
                Some(Decimal { thousandths: (-(m as i64)) as i32 })
            }
        } else {
            if m > 2_147_483_647 {
                None
            } else {
                Some(Decimal { thousandths: m as i32 })
            }
        }
    }
}

/// The integer that `s` is the text of: the text of a natural number, or a
/// minus sign and the text of a natural number other than zero.
pub open spec fn parse_int(s: Seq<char>) -> Option<int> {
    if s.len() > 0 && s[0] == '-' {
        match parse_nat(s.skip(1)) {
            Some(n) => if n > 0 {
                Some(-(n as int))
            } else {
                None
            },
            None => None,
        }
    } else {
        match parse_nat(s) {
            Some(n) => Some(n as int),
            None => None,
        }
    }
}

/// Reads an integer written in decimal. `None` where the text is not the
/// text of an integer, or the integer does not fit.
pub fn i64_from_text(text: &str) -> (r: Option<i64>)
    ensures
        r == match parse_int(text@) {
            Some(v) => if i64::MIN <= v <= i64::MAX {
                Some(v as i64)
            } else {
                None
            },
            None => None,
        },
{
    let len = text.unicode_len();
    if len > 0 && text.get_char(0) == '-' {
        let rest = text.substring_char(1, len);
        assert(rest@ =~= text@.skip(1));
        match u64_from_text(rest) {
            Some(n) => {
                if n == 0 || n > 9_223_372_036_854_775_808 {
                    None
                } else if n == 9_223_372_036_854_775_808 {
                    Some(i64::MIN)
                } else {
                    Some(-(n as i64))
                }
            },
            None => None,
        }
    } else {
        match u64_from_text(text) {
            Some(n) => {
                if n > 9_223_372_036_854_775_807 {
                    None
                } else {
                    Some(n as i64)
                }
            },
            None => None,
        }
    }
}

/// The text of a number that fits in 64 bits is a plain number, and reading
/// it gives the number back.
pub proof fn lemma_u64_text(n: nat)
    requires
        n <= u64::MAX,
    ensures
        is_plain_number(nat_text(n)),
        parse_nat(nat_text(n)) == Some(n),
{
    let t = nat_text(n);
    lemma_nat_text(n);
    assert(t.len() <= 20) by {
        assert(pow10(20) == 100_000_000_000_000_000_000) by {
            reveal_with_fuel(pow10, 21);
        }
        lemma_nat_text_len(n, 20);
    }
    assert(is_digit(t[0]));
    assert(magnitude_part(t) == t);
    assert(t.take(t.len() as int) =~= t);
    lemma_digit_run(t, t.len() as int);
}

} // verus!
