//! Decimal rendering of counters and of the sync-progress percentage.

use vstd::prelude::*;

verus! {

/// The decimal digit character for `d` (0 through 9).
pub open spec fn spec_digit_char(d: int) -> char {
    if d == 0 {
        '0'
    } else if d == 1 {
        '1'
    } else if d == 2 {
        '2'
    } else if d == 3 {
        '3'
    } else if d == 4 {
        '4'
    } else if d == 5 {
        '5'
    } else if d == 6 {
        '6'
    } else if d == 7 {
        '7'
    } else if d == 8 {
        '8'
    } else {
        '9'
    }
}

/// Decimal rendering of a non-negative integer, most significant digit first,
/// with no leading zeros (`0` renders as `"0"`).
pub open spec fn spec_digits(n: int) -> Seq<char>
    recommends
        n >= 0,
    decreases n,
{
    if n < 10 {
        seq![spec_digit_char(n)]
    } else {
        spec_digits(n / 10) + seq![spec_digit_char(n % 10)]
    }
}

fn digit_str(d: u128) -> (s: &'static str)
    requires
        d < 10,
    ensures
        s@ == seq![spec_digit_char(d as int)],
{
    proof {
        reveal_strlit("0");
        reveal_strlit("1");
        reveal_strlit("2");
        reveal_strlit("3");
        reveal_strlit("4");
        reveal_strlit("5");
        reveal_strlit("6");
        reveal_strlit("7");
        reveal_strlit("8");
        reveal_strlit("9");
    }
    let s: &'static str = if d == 0 {
        "0"
    } else if d == 1 {
        "1"
    } else if d == 2 {
        "2"
    } else if d == 3 {
        "3"
    } else if d == 4 {
        "4"
    } else if d == 5 {
        "5"
    } else if d == 6 {
        "6"
    } else if d == 7 {
        "7"
    } else if d == 8 {
        "8"
    } else {
        "9"
    };
    proof {
        assert(s@ =~= seq![spec_digit_char(d as int)]);
    }
    s
}

/// Renders `n` in decimal.
pub fn u128_to_string(n: u128) -> (s: String)
    ensures
        s@ == spec_digits(n as int),
    decreases n,
{
    if n < 10 {
        let s = digit_str(n).to_owned();
        s
    } else {
        let mut s = u128_to_string(n / 10);
        let d = digit_str(n % 10);
        s.append(d);
        proof {
            assert(s@ =~= spec_digits(n as int));
        }
        s
    }
}

/// Renders `n` in decimal.
pub fn u64_to_string(n: u64) -> (s: String)
    ensures
        s@ == spec_digits(n as int),
{
    u128_to_string(n as u128)
}

/// The progress ratio `p / t`, as a percentage scaled by 100 and rounded
/// half-up: the integer nearest to `p * 10000 / t`.
pub open spec fn spec_percent_scaled(p: int, t: int) -> int
    recommends
        p >= 0,
        t > 0,
{
    (20000 * p + t) / (2 * t)
}

/// The percentage `p / t * 100` rendered with two decimal places. A target of
/// zero has no finite percentage: the division yields `NaN` for `0 / 0` and
/// `inf` otherwise, and the rendering says so instead of a number.
pub open spec fn spec_percent_chars(p: int, t: int) -> Seq<char>
    recommends
        p >= 0,
        t >= 0,
{
    if t == 0 {
        if p == 0 {
            "NaN"@
        } else {
            "inf"@
        }
    } else {
        let s = spec_percent_scaled(p, t);
        spec_digits(s / 100) + "."@ + seq![spec_digit_char((s / 10) % 10), spec_digit_char(s % 10)]
    }
}

/// Renders the percentage `processing / target * 100` with two decimal
/// places, as `spec_percent_chars` describes.
pub fn percent_string(processing: u64, target: u64) -> (r: String)
    ensures
        r@ == spec_percent_chars(processing as int, target as int),
{
    if target == 0 {
        if processing == 0 {
            "NaN".to_owned()
        } else {
            "inf".to_owned()
        }
    } else {
        let p = processing as u128;
        let t = target as u128;
        let scaled = (20000 * p + t) / (2 * t);
        proof {
            assert(scaled as int == spec_percent_scaled(processing as int, target as int));
        }
        let mut r = u128_to_string(scaled / 100);
        r.append(".");
        r.append(digit_str((scaled / 10) % 10));
        r.append(digit_str(scaled % 10));
        proof {
            assert(r@ =~= spec_percent_chars(processing as int, target as int));
        }
        r
    }
}

/// One status line, exactly as the poller emits it: the three counters, the
/// two-decimal percentage, and — only when rolling — the bracketed tick.
pub open spec fn spec_status_line(
    total: int,
    target: int,
    processing: int,
    rolling: bool,
    tick: int,
) -> Seq<char> {
    "total_entities: "@ + spec_digits(total) + " target_block: "@ + spec_digits(target)
        + " processing_block: "@ + spec_digits(processing) + " percent: "@ + spec_percent_chars(
        processing,
        target,
    ) + "%"@ + (if rolling {
        " ["@ + spec_digits(tick) + "]"@
    } else {
        Seq::<char>::empty()
    }) + " "@
}

/// Renders one status line for the given counters.
pub fn status_line(total: u64, target: u64, processing: u64, rolling: bool, tick: u64) -> (r:
    String)
    ensures
        r@ == spec_status_line(total as int, target as int, processing as int, rolling, tick as int),
{
    let mut r = "total_entities: ".to_owned();
    let total_s = u64_to_string(total);
    r.append(total_s.as_str());
    r.append(" target_block: ");
    let target_s = u64_to_string(target);
    r.append(target_s.as_str());
    r.append(" processing_block: ");
    let processing_s = u64_to_string(processing);
    r.append(processing_s.as_str());
    r.append(" percent: ");
    let percent_s = percent_string(processing, target);
    r.append(percent_s.as_str());
    r.append("%");
    if rolling {
        r.append(" [");
        let tick_s = u64_to_string(tick);
        r.append(tick_s.as_str());
        r.append("]");
    }
    r.append(" ");
    proof {
        assert(r@ =~= spec_status_line(
            total as int,
            target as int,
            processing as int,
            rolling,
            tick as int,
        ));
    }
    r
}

} // verus!
