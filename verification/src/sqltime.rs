//! SQLite time expressions: the current time, and the current time moved by
//! a delay given in milliseconds.

use vstd::prelude::*;
use vstd::string::*;
use crate::text::{concat3, digit_char, digit_str, nat_digits, u64_decimal};

verus! {

/// The fractional digits of `f` thousandths (0 < f < 1000), without
/// trailing zeros.
pub open spec fn thousandths_digits(f: int) -> Seq<char> {
    let d1 = f / 100;
    let d2 = (f / 10) % 10;
    let d3 = f % 10;
    if d3 != 0 {
        seq![digit_char(d1), digit_char(d2), digit_char(d3)]
    } else if d2 != 0 {
        seq![digit_char(d1), digit_char(d2)]
    } else {
        seq![digit_char(d1)]
    }
}

/// `ms` milliseconds written in seconds, as a decimal number with no
/// trailing zeros in its fraction and no fraction when it is whole
/// (1500 is "1.5", 60000 is "60", 1 is "0.001").
pub open spec fn seconds_text(ms: nat) -> Seq<char> {
    nat_digits(ms / 1000) + if ms % 1000 == 0 {
        Seq::<char>::empty()
    } else {
        seq!['.'] + thousandths_digits((ms % 1000) as int)
    }
}

/// Renders a non-negative millisecond count in seconds.
pub fn seconds_decimal(ms: u64) -> (r: String)
    ensures
        r@ == seconds_text(ms as nat),
{
    let mut s = u64_decimal(ms / 1000);
    let f = ms % 1000;
    if f != 0 {
        proof {
            reveal_strlit(".");
        }
        s.append(".");
        let d1 = f / 100;
        let d2 = (f / 10) % 10;
        let d3 = f % 10;
        s.append(digit_str(d1));
        if d3 != 0 {
            s.append(digit_str(d2));
            s.append(digit_str(d3));
        } else if d2 != 0 {
            s.append(digit_str(d2));
        }
        assert(s@ =~= seconds_text(ms as nat));
    } else {
        assert(s@ =~= seconds_text(ms as nat));
    }
    s
}

/// The current time as SQLite renders timestamps.
pub open spec fn now_expr() -> Seq<char> {
    "strftime('%Y-%m-%dT%H:%M:%f', 'now')"@
}

/// The current time moved forward by `ms` milliseconds.
pub open spec fn now_plus_expr(ms: nat) -> Seq<char> {
    "strftime('%Y-%m-%dT%H:%M:%f', 'now', '+"@ + seconds_text(ms) + " seconds')"@
}

/// The SQL expression for the current time.
pub fn now_sql() -> (r: String)
    ensures
        r@ == now_expr(),
{
    String::from_str("strftime('%Y-%m-%dT%H:%M:%f', 'now')")
}

/// The SQL expression for the current time plus `ms` milliseconds.
pub fn now_plus_sql(ms: u64) -> (r: String)
    ensures
        r@ == now_plus_expr(ms as nat),
{
    let secs = seconds_decimal(ms);
    concat3("strftime('%Y-%m-%dT%H:%M:%f', 'now', '+", secs.as_str(), " seconds')")
}

} // verus!
