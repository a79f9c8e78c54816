//! Decimal text for fixed-point numbers in hundredths: formatting always
//! produces two decimal places, parsing accepts an optional sign, an
//! integer part, and up to two decimals.

use vstd::prelude::*;

use crate::text::char_count;

verus! {

pub open spec fn spec_is_digit(c: char) -> bool {
    48 <= c as int <= 57
}

/// The numeric value of a digit character.
pub open spec fn spec_digit_val(c: char) -> int {
    c as int - 48
}

/// The digit character for a value 0 to 9.
pub open spec fn spec_digit_char(d: int) -> char {
    if d == 0 {
        '0'
    } else if d == 1 {
        '1'
    } else if d == 2 {
        '2'
    } else if d == 3 {
        '3'
    } else if d == 4 {
        '4'
    } else if d == 5 {
        '5'
    } else if d == 6 {
        '6'
    } else if d == 7 {
        '7'
    } else if d == 8 {
        '8'
    } else {
        '9'
    }
}

pub open spec fn all_digits(s: Seq<char>) -> bool {
    forall|i: int| 0 <= i < s.len() ==> spec_is_digit(s[i])
}

/// The value of a digit string, most significant first.
pub open spec fn digits_val(s: Seq<char>) -> int
    decreases s.len(),
{
    if s.len() == 0 {
        0
    } else {
        digits_val(s.drop_last()) * 10 + spec_digit_val(s.last())
    }
}

pub open spec fn pow10(n: nat) -> int
    decreases n,
{
    if n == 0 {
        1
    } else {
        10 * pow10((n - 1) as nat)
    }
}

pub proof fn lemma_pow10_le(a: nat, b: nat)
    requires
        a <= b,
    ensures
        pow10(a) <= pow10(b),
        pow10(a) >= 1,
    decreases b,
{
    if b > 0 {
        if a == b {
            lemma_pow10_le((a - 1) as nat, (b - 1) as nat);
        } else {
            lemma_pow10_le(a, (b - 1) as nat);
        }
    }
}

/// A digit string's value is bounded by ten to its length.
pub proof fn lemma_digits_val_bound(s: Seq<char>)
    requires
        all_digits(s),
    ensures
        0 <= digits_val(s) < pow10(s.len()),
    decreases s.len(),
{
    if s.len() > 0 {
        assert(all_digits(s.drop_last())) by {
            assert(forall|i: int|
                0 <= i < s.drop_last().len() ==> #[trigger] s.drop_last()[i] == s[i]);
        }
        lemma_digits_val_bound(s.drop_last());
    }
}

/// The decimal text for a non-negative number of hundredths: the integer
/// digits, a dot, and exactly two decimals.
pub open spec fn spec_digits_seq(n: nat) -> Seq<char>
    decreases n,
{
    if n < 10 {
        seq![spec_digit_char(n as int)]
    } else {
        spec_digits_seq(n / 10).push(spec_digit_char(n as int % 10))
    }
}

pub open spec fn spec_unsigned_centi(n: nat) -> Seq<char> {
    spec_digits_seq(n / 100) + seq!['.'] + seq![
        spec_digit_char((n / 10) as int % 10),
        spec_digit_char(n as int % 10),
    ]
}

/// The decimal text for a number of hundredths, with a leading minus for
/// negative values.
pub open spec fn spec_format_centi(v: int) -> Seq<char> {
    if v < 0 {
        seq!['-'] + spec_unsigned_centi((-v) as nat)
    } else {
        spec_unsigned_centi(v as nat)
    }
}

/// A one-character string holding the digit for a value 0 to 9.
fn digit_str(d: u64) -> (r: &'static str)
    requires
        d <= 9,
    ensures
        r@ =~= seq![spec_digit_char(d as int)],
{
    proof {
        reveal_strlit("0");
        reveal_strlit("1");
        reveal_strlit("2");
        reveal_strlit("3");
        reveal_strlit("4");
        reveal_strlit("5");
        reveal_strlit("6");
        reveal_strlit("7");
        reveal_strlit("8");
        reveal_strlit("9");
    }
    match d {
        0 => "0",
        1 => "1",
        2 => "2",
        3 => "3",
        4 => "4",
        5 => "5",
        6 => "6",
        7 => "7",
        8 => "8",
        _ => "9",
    }
}

/// Append the decimal digits of `n` to a string.
fn push_digits(n: u64, out: &mut String)
    ensures
        final(out)@ == old(out)@ + spec_digits_seq(n as nat),
    decreases n,
{
    if n < 10 {
        out.append(digit_str(n));
        proof {
            assert(final(out)@ =~= old(out)@ + spec_digits_seq(n as nat));
        }
    } else {
        let ghost mid = spec_digits_seq((n as nat) / 10);
        push_digits(n / 10, out);
        out.append(digit_str(n % 10));
        proof {
            assert((old(out)@ + mid) + seq![spec_digit_char(n as int % 10)] =~= old(out)@ + (
            mid.push(spec_digit_char(n as int % 10))));
            assert(final(out)@ =~= old(out)@ + spec_digits_seq(n as nat));
        }
    }
}

/// Format a number of hundredths as decimal text with two decimals.
pub fn format_centi(v: i64) -> (r: String)
    requires
        v > i64::MIN,
    ensures
        r@ == spec_format_centi(v as int),
{
    let neg = v < 0;
    let n: u64 = if neg {
        (-v) as u64
    } else {
        v as u64
    };
    let mut out = String::new();
    if neg {
        proof {
            reveal_strlit("-");
        }
        out.append("-");
    }
    let ghost pre = out@;
    push_digits(n / 100, &mut out);
    proof {
        reveal_strlit(".");
    }
    out.append(".");
    out.append(digit_str(n / 10 % 10));
    out.append(digit_str(n % 10));
    proof {
        assert(out@ =~= pre + spec_unsigned_centi(n as nat));
        if neg {
            assert(pre =~= seq!['-']);
            assert(out@ =~= spec_format_centi(v as int));
        } else {
            assert(pre =~= Seq::<char>::empty());
            assert(out@ =~= spec_format_centi(v as int));
        }
    }
    out
}

/// The position of the first dot in a string, if any.
pub open spec fn first_dot(s: Seq<char>) -> Option<int>
    decreases s.len(),
{
    if s.len() == 0 {
        None
    } else if s[0] == '.' {
        Some(0int)
    } else {
        match first_dot(s.skip(1)) {
            Some(i) => Some(i + 1),
            None => None,
        }
    }
}

/// What parsing an unsigned decimal yields: the hundredths value when the
/// text is one to fifteen integer digits, optionally followed by a dot
/// and one or two decimals; nothing otherwise.
pub open spec fn spec_parse_unsigned_centi(s: Seq<char>) -> Option<int> {
    match first_dot(s) {
        None => if 1 <= s.len() <= 15 && all_digits(s) {
            Some(digits_val(s) * 100)
        } else {
            None
        },
        Some(i) => {
            let ip = s.take(i);
            let fp = s.skip(i + 1);
            if 1 <= ip.len() <= 15 && all_digits(ip) && 1 <= fp.len() <= 2 && all_digits(fp) {
                Some(
                    digits_val(ip) * 100 + if fp.len() == 1 {
                        digits_val(fp) * 10
                    } else {
                        digits_val(fp)
                    },
                )
            } else {
                None
            }
        },
    }
}

/// What parsing a decimal yields: an optional leading minus negates the
/// unsigned value.
pub open spec fn spec_parse_centi(s: Seq<char>) -> Option<int> {
    if s.len() > 0 && s[0] == '-' {
        match spec_parse_unsigned_centi(s.skip(1)) {
            Some(v) => Some(-v),
            None => None,
        }
    } else {
        spec_parse_unsigned_centi(s)
    }
}

/// Formatted digit strings hold digits only.
proof fn lemma_digits_seq_all_digits(n: nat)
    ensures
        all_digits(spec_digits_seq(n)),
        spec_digits_seq(n).len() >= 1,
    decreases n,
{
    if n >= 10 {
        lemma_digits_seq_all_digits(n / 10);
        assert(forall|i: int|
            0 <= i < spec_digits_seq(n / 10).len() ==> #[trigger] spec_digits_seq(n)[i]
                == spec_digits_seq(n / 10)[i]);
    }
}

/// A digit character reads back as its value.
proof fn lemma_digit_char_val(d: int)
    requires
        0 <= d <= 9,
    ensures
        spec_digit_val(spec_digit_char(d)) == d,
{
    assert('0' as int == 48);
    assert('1' as int == 49);
    assert('2' as int == 50);
    assert('3' as int == 51);
    assert('4' as int == 52);
    assert('5' as int == 53);
    assert('6' as int == 54);
    assert('7' as int == 55);
    assert('8' as int == 56);
    assert('9' as int == 57);
}

/// Reading a formatted digit string back yields the number.
proof fn lemma_digits_seq_val(n: nat)
    ensures
        digits_val(spec_digits_seq(n)) == n,
    decreases n,
{
    if n < 10 {
        lemma_digit_char_val(n as int);
        let s = spec_digits_seq(n);
        assert(s =~= seq![spec_digit_char(n as int)]);
        assert(s.last() == spec_digit_char(n as int));
        assert(s.drop_last() =~= Seq::<char>::empty());
        assert(digits_val(s.drop_last()) == 0);
        assert(digits_val(s) == 0 * 10 + spec_digit_val(s.last()));
    } else {
        lemma_digits_seq_val(n / 10);
        lemma_digit_char_val(n as int % 10);
        let s = spec_digits_seq(n);
        assert(s == spec_digits_seq(n / 10).push(spec_digit_char(n as int % 10)));
        assert(s.drop_last() =~= spec_digits_seq(n / 10));
        assert(s.last() == spec_digit_char(n as int % 10));
        assert(digits_val(s) == digits_val(s.drop_last()) * 10 + spec_digit_val(s.last()));
        assert((n / 10) * 10 + n % 10 == n);
    }
}

/// A number below ten to the `k` formats to at most `k` digits.
proof fn lemma_digits_seq_len(n: nat, k: nat)
    requires
        k >= 1,
        n < pow10(k),
    ensures
        spec_digits_seq(n).len() <= k,
    decreases n,
{
    if n >= 10 {
        assert(pow10(k) == 10 * pow10((k - 1) as nat));
        lemma_digits_seq_len(n / 10, (k - 1) as nat);
    }
}

/// The first dot of a digit prefix followed by a dot is right after the
/// prefix.
proof fn lemma_first_dot_concat(a: Seq<char>, rest: Seq<char>)
    requires
        all_digits(a),
        rest.len() > 0,
        rest[0] == '.',
    ensures
        first_dot(a + rest) == Some(a.len() as int),
    decreases a.len(),
{
    let s = a + rest;
    if a.len() == 0 {
        assert(s =~= rest);
    } else {
        assert(s[0] == a[0]);
        assert(s.skip(1) =~= a.skip(1) + rest);
        assert(all_digits(a.skip(1))) by {
            assert(forall|i: int|
                0 <= i < a.skip(1).len() ==> #[trigger] a.skip(1)[i] == a[i + 1]);
        }
        lemma_first_dot_concat(a.skip(1), rest);
    }
}

/// Law: the decimal round trip — formatting a number of hundredths and
/// parsing the text back yields exactly the number, across the range the
/// parser accepts.
pub proof fn lemma_format_parse_round_trip(v: int)
    requires
        -100_000_000_000_000_000 < v < 100_000_000_000_000_000,
    ensures
        spec_parse_centi(spec_format_centi(v)) == Some(v),
{
    let n = if v < 0 {
        (-v) as nat
    } else {
        v as nat
    };
    let a = spec_digits_seq(n / 100);
    let frac = seq![
        spec_digit_char((n / 10) as int % 10),
        spec_digit_char(n as int % 10),
    ];
    let us = spec_unsigned_centi(n);
    lemma_digits_seq_all_digits(n / 100);
    lemma_digits_seq_val(n / 100);
    assert(pow10(15) == 1_000_000_000_000_000) by {
        reveal_with_fuel(pow10, 17);
    }
    lemma_digits_seq_len(n / 100, 15);

    // The formatted text splits at the dot into the digits and the two
    // decimals.
    assert(us =~= a + (seq!['.'] + frac));
    lemma_first_dot_concat(a, seq!['.'] + frac);
    assert(first_dot(us) == Some(a.len() as int));
    assert(us.take(a.len() as int) =~= a);
    assert(us.skip(a.len() as int + 1) =~= frac);

    // The two decimals read back as the remainder below one hundred.
    lemma_digit_char_val((n / 10) as int % 10);
    lemma_digit_char_val(n as int % 10);
    assert(frac.last() == spec_digit_char(n as int % 10));
    assert(frac.drop_last() =~= seq![spec_digit_char((n / 10) as int % 10)]);
    assert(frac.drop_last().last() == spec_digit_char((n / 10) as int % 10));
    assert(frac.drop_last().drop_last() =~= Seq::<char>::empty());
    assert(digits_val(frac.drop_last().drop_last()) == 0);
    assert(digits_val(frac.drop_last()) == spec_digit_val(frac.drop_last().last()));
    assert(digits_val(frac) == digits_val(frac.drop_last()) * 10 + spec_digit_val(frac.last()));
    assert(digits_val(frac) == ((n / 10) as int % 10) * 10 + n as int % 10);
    assert(((n as int) / 10 % 10) * 10 + n as int % 10 == n as int % 100) by (nonlinear_arith)
        requires
            n as int >= 0,
    ;
    assert((n as int / 100) * 100 + n as int % 100 == n as int) by (nonlinear_arith)
        requires
            n as int >= 0,
    ;
    assert(spec_parse_unsigned_centi(us) == Some(n as int));

    if v < 0 {
        let s = spec_format_centi(v);
        assert(s =~= seq!['-'] + us);
        assert(s[0] == '-');
        assert(s.skip(1) =~= us);
    } else {
        let s = spec_format_centi(v);
        assert(s == us);
        assert(s.len() > 0 ==> s[0] != '-') by {
            assert(s[0] == a[0]);
        }
    }
}

/// Find the first dot of a string.
fn find_dot(s: &str) -> (r: Option<usize>)
    ensures
        match r {
            Some(i) => first_dot(s@) == Some(i as int) && i < s@.len() && s@[i as int] == '.',
            None => first_dot(s@) is None,
        },
    decreases s@.len(),
{
    let n = char_count(s);
    if n == 0 {
        return None;
    }
    proof {
        reveal_strlit(".");
    }
    if s.get_char(0) == '.' {
        return Some(0);
    }
    let rest = s.substring_char(1, n);
    match find_dot(rest) {
        Some(i) => Some(i + 1),
        None => None,
    }
}

/// Scan a pure digit string of one to fifteen digits; yields its value,
/// or nothing when empty, too long, or holding a non-digit.
fn scan_digits(d: &str) -> (r: Option<i64>)
    ensures
        match r {
            Some(v) => 1 <= d@.len() <= 15 && all_digits(d@) && v == digits_val(d@) && 0 <= v
                < 1_000_000_000_000_000,
            None => !(1 <= d@.len() <= 15 && all_digits(d@)),
        },
{
    let m = char_count(d);
    if m < 1 || m > 15 {
        return None;
    }
    let mut acc: i64 = 0;
    let mut i: usize = 0;
    proof {
        assert(d@.take(0) =~= Seq::<char>::empty());
        reveal_with_fuel(pow10, 17);
        assert(pow10(15) == 1_000_000_000_000_000);
        lemma_pow10_le(0, 15);
    }
    while i < m
        invariant
            i <= m,
            m == d@.len(),
            m <= 15,
            all_digits(d@.take(i as int)),
            acc == digits_val(d@.take(i as int)),
            0 <= acc < pow10(i as nat),
            pow10(i as nat) <= pow10(15),
            pow10(15) == 1_000_000_000_000_000,
        decreases m - i,
    {
        let c = d.get_char(i);
        let cu = c as u32;
        if cu < 48 || cu > 57 {
            return None;
        }
        let dv = (cu - 48) as i64;
        proof {
            assert(d@.take(i as int + 1).drop_last() =~= d@.take(i as int));
            assert(d@.take(i as int + 1).last() == d@[i as int]);
            assert(all_digits(d@.take(i as int + 1))) by {
                assert(forall|j: int|
                    0 <= j < i as int + 1 ==> #[trigger] d@.take(i as int + 1)[j] == d@.take(
                        i as int + 1,
                    )[j]);
            }
            lemma_digits_val_bound(d@.take(i as int + 1));
            lemma_pow10_le((i + 1) as nat, 15);
        }
        acc = acc * 10 + dv;
        i = i + 1;
    }
    proof {
        assert(d@.take(m as int) =~= d@);
    }
    Some(acc)
}

/// Parse an unsigned decimal into hundredths.
fn parse_unsigned_centi(u: &str) -> (r: Option<i64>)
    ensures
        match r {
            Some(v) => spec_parse_unsigned_centi(u@) == Some(v as int) && -100_000_000_000_000_000
                <= v <= 100_000_000_000_000_000,
            None => spec_parse_unsigned_centi(u@) is None,
        },
{
    let n = char_count(u);
    match find_dot(u) {
        None => {
            match scan_digits(u) {
                Some(v) => Some(v * 100),
                None => None,
            }
        },
        Some(i) => {
            let ip = u.substring_char(0, i);
            let fp = u.substring_char(i + 1, n);
            proof {
                assert(ip@ =~= u@.take(i as int));
                assert(fp@ =~= u@.skip(i as int + 1));
            }
            let int_part = match scan_digits(ip) {
                Some(v) => v,
                None => {
                    return None;
                },
            };
            let fm = char_count(fp);
            if fm < 1 || fm > 2 {
                return None;
            }
            let frac_part = match scan_digits(fp) {
                Some(v) => v,
                None => {
                    return None;
                },
            };
            proof {
                lemma_digits_val_bound(fp@);
                reveal_with_fuel(pow10, 3);
                assert(pow10(2) == 100);
            }
            let frac_centi = if fm == 1 {
                frac_part * 10
            } else {
                frac_part
            };
            Some(int_part * 100 + frac_centi)
        },
    }
}

/// Parse a decimal with an optional leading minus into hundredths; yields
/// nothing on any malformed text.
pub fn parse_centi(s: &str) -> (r: Option<i64>)
    ensures
        match r {
            Some(v) => spec_parse_centi(s@) == Some(v as int) && -100_000_000_000_000_000 <= v
                <= 100_000_000_000_000_000,
            None => spec_parse_centi(s@) is None,
        },
{
    let n = char_count(s);
    proof {
        reveal_strlit("-");
    }
    if n > 0 && s.get_char(0) == '-' {
        let rest = s.substring_char(1, n);
        proof {
            assert(rest@ =~= s@.skip(1));
        }
        match parse_unsigned_centi(rest) {
            Some(v) => Some(-v),
            None => None,
        }
    } else {
        parse_unsigned_centi(s)
    }
}

} // verus!
