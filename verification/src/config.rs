//! Centralized configuration constants and the resolution of numeric settings
//! from their raw (environment) text.

pub mod bulk_upsert;
pub mod collections;
pub mod db;
pub mod logging;
pub mod sync;

use vstd::prelude::*;

verus! {

/// The value of an ASCII decimal digit.
pub open spec fn digit_value(c: char) -> nat {
    ((c as int) - ('0' as int)) as nat
}

pub open spec fn is_digit(c: char) -> bool {
    '0' <= c && c <= '9'
}

pub open spec fn all_digits(s: Seq<char>) -> bool {
    forall|i: int| 0 <= i < s.len() ==> is_digit(#[trigger] s[i])
}

/// The number that a string of decimal digits denotes.
pub open spec fn digits_value(s: Seq<char>) -> nat
    decreases s.len(),
{
    if s.len() == 0 {
        0
    } else {
        digits_value(s.drop_last()) * 10 + digit_value(s.last())
    }
}

/// What `str::parse` yields for an unsigned integer type whose largest value is
/// `max`: an optional leading '+', then at least one decimal digit and nothing
/// else, denoting a value no larger than `max`.
pub open spec fn parse_unsigned(s: Seq<char>, max: nat) -> Option<nat> {
    let body = if s.len() > 0 && s[0] == '+' { s.drop_first() } else { s };
    if body.len() == 0 || !all_digits(body) || digits_value(body) > max {
        None
    } else {
        Some(digits_value(body))
    }
}

/// The clamping rule of the settings: below `min` gives `min`, above `max`
/// gives `max`, anything else is kept.
pub open spec fn clamp(v: int, min: int, max: int) -> int {
    if v < min {
        min
    } else if v > max {
        max
    } else {
        v
    }
}

/// What a setting resolves to: its parsed and clamped value, or `default` when
/// it is absent or does not parse.
pub open spec fn resolve_setting(raw: Option<Seq<char>>, max_of_type: nat, default: int, min: int, max: int) -> int {
    match raw {
        Some(s) => match parse_unsigned(s, max_of_type) {
            Some(v) => clamp(v as int, min, max),
            None => default,
        },
        None => default,
    }
}

/// Parses decimal text as `str::parse::<u64>` does.
pub fn parse_u64(s: &str) -> (r: Option<u64>)
    ensures
        r matches Some(v) ==> parse_unsigned(s@, u64::MAX as nat) == Some(v as nat),
        r is None ==> parse_unsigned(s@, u64::MAX as nat) is None,
{
    let ghost text = s@;
    let mut value: u64 = 0;
    let mut overflow = false;
    let mut nonempty = false;
    let mut digits_ok = true;
    let mut started_with_plus = false;
    let ghost mut body: Seq<char> = Seq::empty();
    let mut first = true;
    for c in it: s.chars()
        invariant
            it.seq() == text,
            first == (it.index() == 0),
            first ==> !started_with_plus,
            nonempty == (body.len() > 0),
            started_with_plus ==> text.len() > 0 && text[0] == '+',
            (it.index() > 0 && !(text[0] == '+')) ==> !started_with_plus,
            body == if started_with_plus {
                text.take(it.index() as int).drop_first()
            } else {
                text.take(it.index() as int)
            },
            it.index() > 0 && text[0] == '+' ==> started_with_plus,
            digits_ok == all_digits(body),
            digits_ok && !overflow ==> value as nat == digits_value(body),
            digits_ok && overflow ==> digits_value(body) > u64::MAX,
    {
        let ghost prev = body;
        if first && c == '+' {
            started_with_plus = true;
            proof {
                body = Seq::empty();
                assert(text.take(1).drop_first() =~= Seq::<char>::empty());
            }
        } else {
            proof {
                body = body.push(c);
                if started_with_plus {
                    assert(text.take(it.index() + 1).drop_first()
                        =~= text.take(it.index() as int).drop_first().push(c));
                } else {
                    assert(text.take(it.index() + 1) =~= text.take(it.index() as int).push(c));
                }
                assert(body.drop_last() =~= prev);
            }
            nonempty = true;
            if '0' <= c && c <= '9' {
                if digits_ok && !overflow {
                    let d: u64 = (c as u32 - '0' as u32) as u64;
                    match value.checked_mul(10) {
                        Some(t) => match t.checked_add(d) {
                            Some(n) => {
                                value = n;
                            },
                            None => {
                                overflow = true;
                            },
                        },
                        None => {
                            overflow = true;
                            assert(digits_value(prev) * 10 + digit_value(c) > u64::MAX) by (nonlinear_arith)
                                requires digits_value(prev) * 10 > u64::MAX;
                        },
                    }
                } else if digits_ok && overflow {
                    assert(digits_value(prev) * 10 + digit_value(c) > u64::MAX) by (nonlinear_arith)
                        requires digits_value(prev) > u64::MAX;
                }
            } else {
                digits_ok = false;
            }
            proof {
                if digits_ok {
                    assert forall|i: int| 0 <= i < body.len() implies is_digit(#[trigger] body[i]) by {
                        if i < prev.len() {
                            assert(body[i] == prev[i]);
                        }
                    }
                } else {
                    if !is_digit(c) {
                        assert(!is_digit(body[body.len() - 1]));
                    } else {
                        let k = choose|k: int| 0 <= k < prev.len() && !is_digit(#[trigger] prev[k]);
                        assert(body[k] == prev[k]);
                    }
                }
            }
        }
        first = false;
    }
    proof {
        assert(text.take(text.len() as int) =~= text);
    }
    if !nonempty || !digits_ok || overflow {
        None
    } else {
        Some(value)
    }
}

/// Parses decimal text as `str::parse::<usize>` does.
pub fn parse_usize(s: &str) -> (r: Option<usize>)
    ensures
        r matches Some(v) ==> parse_unsigned(s@, usize::MAX as nat) == Some(v as nat),
        r is None ==> parse_unsigned(s@, usize::MAX as nat) is None,
{
    match parse_u64(s) {
        Some(v) => {
            if v <= usize::MAX as u64 {
                Some(v as usize)
            } else {
                None
            }
        },
        None => None,
    }
}

/// Resolves a `u64` setting from its raw text: parsed and clamped to
/// `[min, max]`, or `default` when the text is absent or not a number.
pub fn env_or_default(raw: Option<&str>, default: u64, min: u64, max: u64) -> (r: u64)
    ensures
        r as int == resolve_setting(
            match raw { Some(s) => Some(s@), None => None },
            u64::MAX as nat, default as int, min as int, max as int),
{
    match raw {
        Some(s) => match parse_u64(s) {
            Some(v) => {
                if v < min {
                    min
                } else if v > max {
                    max
                } else {
                    v
                }
            },
            None => default,
        },
        None => default,
    }
}

/// Resolves a `usize` setting from its raw text: parsed and clamped to
/// `[min, max]`, or `default` when the text is absent or not a number.
pub fn env_or_default_usize(raw: Option<&str>, default: usize, min: usize, max: usize) -> (r: usize)
    ensures
        r as int == resolve_setting(
            match raw { Some(s) => Some(s@), None => None },
            usize::MAX as nat, default as int, min as int, max as int),
{
    match raw {
        Some(s) => match parse_usize(s) {
            Some(v) => {
                if v < min {
                    min
                } else if v > max {
                    max
                } else {
                    v
                }
            },
            None => default,
        },
        None => default,
    }
}

/// A resolved setting lies within its bounds whenever the bounds are ordered
/// and the default lies within them.
pub proof fn lemma_resolved_setting_within_bounds(raw: Option<Seq<char>>, max_of_type: nat, default: int, min: int, max: int)
    requires
        min <= default <= max,
    ensures
        min <= resolve_setting(raw, max_of_type, default, min, max) <= max,
{
}

} // verus!
