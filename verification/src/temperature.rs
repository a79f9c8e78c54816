//! Temperature conversion as an example consumer of the projection
//! machinery: prisms between a stored Celsius value (in hundredths) and
//! the decimal text of either scale, rounding half away from zero.

use vstd::prelude::*;

use crate::geom::{clamp_dim, spec_clamp};
use crate::numfmt::{format_centi, parse_centi, spec_format_centi, spec_parse_centi};
use crate::widgets::adapt::Prism;

verus! {

/// The largest Celsius magnitude (in hundredths) the prisms convert.
pub const TEMP_LIMIT: i64 = 1_000_000_000_000_000;

/// Division rounding half away from zero.
pub open spec fn spec_round_div(n: int, d: int) -> int {
    if n >= 0 {
        (n + d / 2) / d
    } else {
        -(((-n) + d / 2) / d)
    }
}

/// Divide, rounding half away from zero.
pub fn round_div(n: i64, d: i64) -> (r: i64)
    requires
        0 < d <= 1000,
        -9_000_000_000_000_000_000 + 1000 < n < 9_000_000_000_000_000_000 - 1000,
    ensures
        r == spec_round_div(n as int, d as int),
        n >= 0 ==> 0 <= r <= n,
        n < 0 ==> n <= r <= 0,
{
    if n >= 0 {
        let q = (n + d / 2) / d;
        proof {
            assert(0 <= q <= n) by (nonlinear_arith)
                requires
                    q == (n as int + d as int / 2) / (d as int),
                    n >= 0,
                    0 < d,
            ;
        }
        q
    } else {
        let m = -n;
        let q = (m + d / 2) / d;
        proof {
            assert(0 <= q <= m) by (nonlinear_arith)
                requires
                    q == (m as int + d as int / 2) / (d as int),
                    m >= 0,
                    0 < d,
            ;
        }
        -q
    }
}

/// Celsius hundredths to Fahrenheit hundredths.
pub open spec fn spec_c_to_f(c: int) -> int {
    spec_round_div(c * 9, 5) + 3200
}

/// Fahrenheit hundredths to Celsius hundredths.
pub open spec fn spec_f_to_c(f: int) -> int {
    spec_round_div((f - 3200) * 5, 9)
}

/// Convert Celsius hundredths to Fahrenheit hundredths.
pub fn c_to_f(c: i64) -> (f: i64)
    requires
        -TEMP_LIMIT <= c <= TEMP_LIMIT,
    ensures
        f == spec_c_to_f(c as int),
{
    round_div(c * 9, 5) + 3200
}

/// Convert Fahrenheit hundredths to Celsius hundredths.
pub fn f_to_c(f: i64) -> (c: i64)
    requires
        -100_000_000_000_000_000 <= f <= 100_000_000_000_000_000,
    ensures
        c == spec_f_to_c(f as int),
{
    round_div((f - 3200) * 5, 9)
}

/// The Fahrenheit text a stored Celsius value shows.
pub open spec fn spec_shown_fahrenheit(c: int) -> Seq<char> {
    spec_format_centi(spec_c_to_f(spec_clamp(c, -TEMP_LIMIT as int, TEMP_LIMIT as int)))
}

/// The Celsius text a stored Celsius value shows.
pub open spec fn spec_shown_celsius(c: int) -> Seq<char> {
    spec_format_centi(spec_clamp(c, -TEMP_LIMIT as int, TEMP_LIMIT as int))
}

/// A prism from a stored Celsius value (hundredths) to the Fahrenheit
/// text shown in an editor: `up` formats the converted value, `down`
/// parses an edited text and converts it back, refusing non-numeric text.
#[derive(Clone, Copy, PartialEq, Eq, Structural, Debug)]
pub struct TempFahrenheitPrism;

impl Prism<i64, String> for TempFahrenheitPrism {
    open spec fn up_spec(&self, t: i64) -> String {
        choose|s: String| s@ == spec_shown_fahrenheit(t as int)
    }

    open spec fn down_spec(&self, u: String) -> Option<i64> {
        match spec_parse_centi(u@) {
            Some(f) => Some(spec_f_to_c(f) as i64),
            None => None,
        }
    }

    fn up(&self, t: &i64) -> (u: String) {
        let c = clamp_dim(*t, -TEMP_LIMIT, TEMP_LIMIT);
        let s = format_centi(c_to_f(c));
        proof {
            assert(s@ == spec_shown_fahrenheit(*t as int));
            assert(exists|x: String| x@ == spec_shown_fahrenheit(*t as int));
            assert(self.up_spec(*t)@ == spec_shown_fahrenheit(*t as int));
        }
        s
    }

    fn down(&self, u: String) -> (r: Option<i64>) {
        match parse_centi(u.as_str()) {
            Some(f) => Some(f_to_c(f)),
            None => None,
        }
    }

    proof fn law_up_congruent(&self, t1: i64, t2: i64) {
    }
}

/// A prism from a stored Celsius value (hundredths) to the Celsius text
/// shown in an editor.
#[derive(Clone, Copy, PartialEq, Eq, Structural, Debug)]
pub struct TempCelsiusPrism;

impl Prism<i64, String> for TempCelsiusPrism {
    open spec fn up_spec(&self, t: i64) -> String {
        choose|s: String| s@ == spec_shown_celsius(t as int)
    }

    open spec fn down_spec(&self, u: String) -> Option<i64> {
        match spec_parse_centi(u@) {
            Some(c) => Some(c as i64),
            None => None,
        }
    }

    fn up(&self, t: &i64) -> (u: String) {
        let c = clamp_dim(*t, -TEMP_LIMIT, TEMP_LIMIT);
        let s = format_centi(c);
        proof {
            assert(s@ == spec_shown_celsius(*t as int));
            assert(exists|x: String| x@ == spec_shown_celsius(*t as int));
            assert(self.up_spec(*t)@ == spec_shown_celsius(*t as int));
        }
        s
    }

    fn down(&self, u: String) -> (r: Option<i64>) {
        match parse_centi(u.as_str()) {
            Some(c) => Some(c),
            None => None,
        }
    }

    proof fn law_up_congruent(&self, t1: i64, t2: i64) {
    }
}

} // verus!
