//! Decimal text of 64-bit integers: the reading that `str::parse::<i64>`
//! performs and the writing that `i64`'s `Display` performs.
use vstd::prelude::*;

verus! {

pub open spec fn is_digit(c: char) -> bool {
    '0' <= c && c <= '9'
}

pub open spec fn digit_value(c: char) -> int {
    (c as int) - ('0' as int)
}

pub open spec fn digit_char(d: int) -> char
    recommends
        0 <= d < 10,
{
    (('0' as int) + d) as char
}

pub open spec fn all_digits(s: Seq<char>) -> bool {
    forall|i: int| 0 <= i < s.len() ==> is_digit(#[trigger] s[i])
}

/// The number that a sequence of decimal digits denotes.
pub open spec fn digits_value(s: Seq<char>) -> int
    decreases s.len(),
{
    if s.len() == 0 {
        0
    } else {
        10 * digits_value(s.drop_last()) + digit_value(s.last())
    }
}

pub open spec fn i64_min_magnitude() -> int {
    9223372036854775808
}

/// `s` without one leading sign character.
pub open spec fn unsigned_part(s: Seq<char>) -> Seq<char> {
    if s.len() > 0 && (s[0] == '-' || s[0] == '+') {
        s.skip(1)
    } else {
        s
    }
}

/// What `str::parse::<i64>` accepts and gives: an optional `+` or `-`, then
/// one or more decimal digits, denoting a value within the range of `i64`.
pub open spec fn parse_i64_spec(s: Seq<char>) -> Option<i64> {
    if s.len() == 0 {
        None
    } else {
        let negative = s[0] == '-';
        let digits = unsigned_part(s);
        if digits.len() == 0 || !all_digits(digits) {
            None
        } else {
            let v = digits_value(digits);
            if negative {
                if v <= i64_min_magnitude() {
                    Some((-v) as i64)
                } else {
                    None
                }
            } else if v < i64_min_magnitude() {
                Some(v as i64)
            } else {
                None
            }
        }
    }
}

/// The decimal digits of a natural number, most significant first, without
/// leading zeros.
pub open spec fn nat_digits(n: nat) -> Seq<char>
    decreases n,
{
    if n < 10 {
        seq![digit_char(n as int)]
    } else {
        nat_digits(n / 10) + seq![digit_char((n % 10) as int)]
    }
}

/// The decimal text of an integer as `i64`'s `Display` writes it.
pub open spec fn decimal_of(x: int) -> Seq<char> {
    if x < 0 {
        seq!['-'] + nat_digits((-x) as nat)
    } else {
        nat_digits(x as nat)
    }
}

proof fn lemma_digit_char(d: int)
    requires
        0 <= d < 10,
    ensures
        is_digit(digit_char(d)),
        digit_value(digit_char(d)) == d,
{
    assert(digit_char(d) as int == 48 + d);
}

pub proof fn lemma_nat_digits(n: nat)
    ensures
        nat_digits(n).len() > 0,
        all_digits(nat_digits(n)),
        digits_value(nat_digits(n)) == n,
        nat_digits(n)[0] != '-' && nat_digits(n)[0] != '+',
    decreases n,
{
    if n >= 10 {
        lemma_nat_digits(n / 10);
        lemma_digit_char((n % 10) as int);
        let d = nat_digits(n / 10) + seq![digit_char((n % 10) as int)];
        assert(d.drop_last() =~= nat_digits(n / 10));
        assert(d.last() == digit_char((n % 10) as int));
        assert(nat_digits(n) == d);
        assert(digits_value(d) == 10 * digits_value(d.drop_last()) + digit_value(d.last()));
        assert(d[0] == nat_digits(n / 10)[0]);
        assert forall|i: int| 0 <= i < d.len() implies is_digit(#[trigger] d[i]) by {
            if i < nat_digits(n / 10).len() {
                assert(d[i] == nat_digits(n / 10)[i]);
            }
        }
    } else {
        lemma_digit_char(n as int);
        let d = seq![digit_char(n as int)];
        assert(d.drop_last() =~= Seq::<char>::empty());
        assert(digits_value(Seq::<char>::empty()) == 0);
        assert(nat_digits(n) == d);
        assert(digits_value(d) == 10 * digits_value(d.drop_last()) + digit_value(d.last()));
    }
}

/// Reading back the decimal text of an `i64` gives the number: for every
/// `x: i64`, `parse::<i64>(x.to_string()) == Some(x)`.
pub proof fn lemma_parse_decimal(x: i64)
    ensures
        parse_i64_spec(decimal_of(x as int)) == Some(x),
{
    if x < 0 {
        let n = (-x) as nat;
        lemma_nat_digits(n);
        let s = decimal_of(x as int);
        assert(s.skip(1) =~= nat_digits(n));
    } else {
        lemma_nat_digits(x as nat);
    }
}

proof fn lemma_digits_value_push(s: Seq<char>, c: char)
    ensures
        digits_value(s.push(c)) == 10 * digits_value(s) + digit_value(c),
{
    assert(s.push(c).drop_last() =~= s);
}

proof fn lemma_digits_value_nonneg(s: Seq<char>)
    requires
        all_digits(s),
    ensures
        digits_value(s) >= 0,
    decreases s.len(),
{
    if s.len() > 0 {
        lemma_digits_value_nonneg(s.drop_last());
    }
}

/// The digits value only grows as digits are appended.
proof fn lemma_digits_value_prefix(s: Seq<char>, i: int)
    requires
        0 <= i <= s.len(),
        all_digits(s),
    ensures
        digits_value(s.take(i)) <= digits_value(s),
    decreases s.len() - i,
{
    if i < s.len() {
        lemma_digits_value_prefix(s, i + 1);
        assert(s.take(i + 1) =~= s.take(i).push(s[i]));
        lemma_digits_value_push(s.take(i), s[i]);
        lemma_digits_value_nonneg(s.take(i));
    } else {
        assert(s.take(i) =~= s);
    }
}

/// Reads a decimal `i64` from text, as `str::parse::<i64>` does.
pub fn parse_i64(s: &[char]) -> (res: Option<i64>)
    ensures
        res == parse_i64_spec(s@),
{
    if s.len() == 0 {
        return None;
    }
    let negative = s[0] == '-';
    let start: usize = if s[0] == '-' || s[0] == '+' {
        1
    } else {
        0
    };
    let ghost digits = unsigned_part(s@);
    assert(digits =~= s@.skip(start as int));
    if start >= s.len() {
        assert(digits.len() == 0);
        return None;
    }
    let mut acc: u64 = 0;
    let mut i: usize = start;
    while i < s.len()
        invariant
            start <= i <= s.len(),
            start < s.len(),
            digits =~= s@.skip(start as int),
            digits == unsigned_part(s@),
            s@.len() > 0,
            all_digits(s@.subrange(start as int, i as int)),
            acc == digits_value(s@.subrange(start as int, i as int)),
            acc <= i64_min_magnitude(),
        decreases s.len() - i,
    {
        let c = s[i];
        if c < '0' || c > '9' {
            assert(!all_digits(digits)) by {
                assert(digits[i - start] == c);
            }
            assert(parse_i64_spec(s@) is None);
            return None;
        }
        let d: u64 = (c as u32 - '0' as u32) as u64;
        proof {
            assert(s@.subrange(start as int, i + 1) =~= s@.subrange(start as int, i as int).push(c));
            lemma_digits_value_push(s@.subrange(start as int, i as int), c);
        }
        if acc > 922337203685477580 || (acc == 922337203685477580 && d > 8) {
            proof {
                let pre = s@.subrange(start as int, i + 1);
                assert(digit_value(c) == d);
                assert(digits_value(pre) == 10 * acc + d);
                assert(all_digits(pre));
                assert(digits_value(pre) > i64_min_magnitude());
                if all_digits(digits) {
                    assert(digits.take(i + 1 - start) =~= pre);
                    lemma_digits_value_prefix(digits, i + 1 - start);
                    assert(digits_value(digits) > i64_min_magnitude());
                }
                assert(parse_i64_spec(s@) is None);
            }
            return None;
        }
        acc = acc * 10 + d;
        i += 1;
    }
    proof {
        assert(s@.subrange(start as int, s.len() as int) =~= digits);
    }
    if negative {
        if acc == 9223372036854775808 {
            Some(i64::MIN)
        } else {
            Some(-(acc as i64))
        }
    } else if acc < 9223372036854775808 {
        Some(acc as i64)
    } else {
        None
    }
}

fn digit_of(d: u64) -> (c: char)
    requires
        d < 10,
    ensures
        c == digit_char(d as int),
{
    if d == 0 {
        '0'
    } else if d == 1 {
        '1'
    } else if d == 2 {
        '2'
    } else if d == 3 {
        '3'
    } else if d == 4 {
        '4'
    } else if d == 5 {
        '5'
    } else if d == 6 {
        '6'
    } else if d == 7 {
        '7'
    } else if d == 8 {
        '8'
    } else {
        '9'
    }
}

/// The decimal digits of `n`.
pub fn u64_digits(n: u64) -> (res: Vec<char>)
    ensures
        res@ == nat_digits(n as nat),
{
    let mut acc: Vec<char> = Vec::new();
    let mut m: u64 = n;
    while m >= 10
        invariant
            nat_digits(n as nat) == nat_digits(m as nat) + acc@,
        decreases m,
    {
        let c = digit_of(m % 10);
        let ghost prev = acc@;
        proof {
            assert(nat_digits(m as nat) == nat_digits((m / 10) as nat) + seq![c]);
            assert(nat_digits((m / 10) as nat) + seq![c] + prev =~= nat_digits((m / 10) as nat) + (
            seq![c] + prev));
        }
        acc.insert(0, c);
        assert(acc@ =~= seq![c] + prev);
        m = m / 10;
    }
    let c = digit_of(m);
    let ghost prev = acc@;
    acc.insert(0, c);
    assert(acc@ =~= seq![c] + prev);
    acc
}

/// The decimal text of `x`, as `i64`'s `Display` writes it.
pub fn i64_to_decimal(x: i64) -> (res: Vec<char>)
    ensures
        res@ == decimal_of(x as int),
{
    if x < 0 {
        let magnitude: u64 = if x == i64::MIN {
            9223372036854775808
        } else {
            (-x) as u64
        };
        let digits = u64_digits(magnitude);
        let mut res: Vec<char> = vec!['-'];
        crate::text::append_chars(&mut res, &digits);
        assert(res@ =~= seq!['-'] + nat_digits((-x) as nat));
        res
    } else {
        u64_digits(x as u64)
    }
}

} // verus!
