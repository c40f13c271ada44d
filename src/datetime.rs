//! Human-readable durations such as `1day12h` or `2s 1d 48h 9w`, read as a
//! number of seconds.
use vstd::prelude::*;
use vstd::string::*;
use crate::text::{
    is_digit, is_alpha, is_space, lower, digits_value, char_is_digit, char_is_alpha,
    char_is_space, char_lower, chars_equal, number_value, chars_between, string_of_chars,
    all_digits, lemma_digits_prefix,
};

verus! {

/// Why a duration could not be read.
#[derive(Debug, Clone, PartialEq, Eq)]
pub enum DurationError {
    /// A run of digits does not fit in 64 bits.
    InvalidNumber,
    /// The letters after a number name no known unit.
    UnsupportedUnit,
    /// A number times its unit does not fit in 64 bits.
    MultiplyOverflow,
    /// The running total does not fit in 64 bits.
    AddOverflow,
    /// A character that is neither a digit, a letter nor white space.
    UnexpectedChar(char),
}

/// The text that describes a duration error.
pub open spec fn duration_error_text(e: DurationError) -> Seq<char> {
    match e {
        DurationError::InvalidNumber => "Invalid number"@,
        DurationError::UnsupportedUnit => "Unsupported time unit"@,
        DurationError::MultiplyOverflow => "Overflow while multiplying"@,
        DurationError::AddOverflow => "Overflow while adding"@,
        DurationError::UnexpectedChar(c) => "Unexpected character `"@ + seq![c, '`'],
    }
}

impl DurationError {
    /// A description of the error for people.
    pub fn message(&self) -> (r: String)
        ensures
            r@ == duration_error_text(*self),
    {
        match self {
            DurationError::InvalidNumber => String::from_str("Invalid number"),
            DurationError::UnsupportedUnit => String::from_str("Unsupported time unit"),
            DurationError::MultiplyOverflow => String::from_str("Overflow while multiplying"),
            DurationError::AddOverflow => String::from_str("Overflow while adding"),
            DurationError::UnexpectedChar(c) => {
                let lead = "Unexpected character `";
                let mut v = chars_between(lead, 0, lead.unicode_len());
                v.push(*c);
                v.push('`');
                assert(v@ =~= lead@ + seq![*c, '`']);
                string_of_chars(&v)
            }
        }
    }
}

/// Seconds in one of the named units; the empty unit means seconds.
pub open spec fn unit_seconds(u: Seq<char>) -> Option<int> {
    if u == ""@ || u == "s"@ || u == "sec"@ || u == "secs"@ || u == "second"@ || u == "seconds"@ {
        Some(1)
    } else if u == "m"@ || u == "min"@ || u == "mins"@ || u == "minute"@ || u == "minutes"@ {
        Some(60)
    } else if u == "h"@ || u == "hr"@ || u == "hrs"@ || u == "hour"@ || u == "hours"@ {
        Some(3600)
    } else if u == "d"@ || u == "day"@ || u == "days"@ {
        Some(86400)
    } else if u == "w"@ || u == "wk"@ || u == "wks"@ || u == "week"@ || u == "weeks"@ {
        Some(604800)
    } else if u == "mo"@ || u == "mon"@ || u == "mons"@ || u == "month"@ || u == "months"@ {
        Some(2592000)
    } else if u == "q"@ || u == "quarter"@ || u == "quarters"@ {
        Some(7776000)
    } else if u == "y"@ || u == "yr"@ || u == "yrs"@ || u == "year"@ || u == "years"@ {
        Some(31536000)
    } else {
        None
    }
}

/// What the scanner holds between characters: the total so far, the digits
/// of the pending number and the (lower-cased) letters of the pending unit.
pub struct Scan {
    pub total: int,
    pub num: Seq<char>,
    pub unit: Seq<char>,
}

/// Adds the pending `num unit` token to `acc`; nothing pending adds nothing.
pub open spec fn add_token(num: Seq<char>, unit: Seq<char>, acc: int) -> Result<int, DurationError> {
    if num.len() == 0 {
        Ok(acc)
    } else if digits_value(num) > u64::MAX {
        Err(DurationError::InvalidNumber)
    } else {
        match unit_seconds(unit) {
            None => Err(DurationError::UnsupportedUnit),
            Some(f) => if digits_value(num) * f > u64::MAX {
                Err(DurationError::MultiplyOverflow)
            } else if acc + digits_value(num) * f > u64::MAX {
                Err(DurationError::AddOverflow)
            } else {
                Ok(acc + digits_value(num) * f)
            },
        }
    }
}

/// Closes the pending token, if a number is pending; otherwise the state
/// (pending letters included) is kept as it is.
pub open spec fn flush(st: Scan) -> Result<Scan, DurationError> {
    if st.num.len() == 0 {
        Ok(st)
    } else {
        match add_token(st.num, st.unit, st.total) {
            Ok(t) => Ok(Scan { total: t, num: Seq::empty(), unit: Seq::empty() }),
            Err(e) => Err(e),
        }
    }
}

/// One character of input: a digit after letters closes the token first,
/// letters extend the unit, white space closes the token.
pub open spec fn step(st: Scan, c: char) -> Result<Scan, DurationError> {
    if is_digit(c) {
        let prev = if st.unit.len() > 0 { flush(st) } else { Ok(st) };
        match prev {
            Ok(p) => Ok(Scan { total: p.total, num: p.num.push(c), unit: p.unit }),
            Err(e) => Err(e),
        }
    } else if is_alpha(c) {
        Ok(Scan { total: st.total, num: st.num, unit: st.unit.push(lower(c)) })
    } else if is_space(c) {
        flush(st)
    } else {
        Err(DurationError::UnexpectedChar(c))
    }
}

/// The scanner's state after reading all of `s`, or the first error.
pub open spec fn scan(s: Seq<char>) -> Result<Scan, DurationError>
    decreases s.len(),
{
    if s.len() == 0 {
        Ok(Scan { total: 0, num: Seq::empty(), unit: Seq::empty() })
    } else {
        match scan(s.drop_last()) {
            Ok(st) => step(st, s.last()),
            Err(e) => Err(e),
        }
    }
}

/// The number of seconds that `s` denotes, or the first error met reading it.
pub open spec fn seconds_of(s: Seq<char>) -> Result<int, DurationError> {
    match scan(s) {
        Ok(st) => match flush(st) {
            Ok(end) => Ok(end.total),
            Err(e) => Err(e),
        },
        Err(e) => Err(e),
    }
}

/// An error met on a prefix is the error of the whole input.
proof fn lemma_scan_error_sticks(s: Seq<char>, k: int)
    requires
        0 <= k <= s.len(),
        scan(s.take(k)) is Err,
    ensures
        scan(s) == scan(s.take(k)),
    decreases s.len(),
{
    if k < s.len() {
        assert(s.drop_last().take(k) =~= s.take(k));
        lemma_scan_error_sticks(s.drop_last(), k);
    } else {
        assert(s.take(k) =~= s);
    }
}

/// Seconds per unit, for the units that `unit_seconds` names.
fn unit_factor(unit: &Vec<char>) -> (r: Option<u64>)
    ensures
        r is Some <==> unit_seconds(unit@) is Some,
        r is Some ==> r->0 == unit_seconds(unit@)->0,
{
    if chars_equal(unit, "") || chars_equal(unit, "s") || chars_equal(unit, "sec")
        || chars_equal(unit, "secs") || chars_equal(unit, "second") || chars_equal(unit, "seconds") {
        Some(1)
    } else if chars_equal(unit, "m") || chars_equal(unit, "min") || chars_equal(unit, "mins")
        || chars_equal(unit, "minute") || chars_equal(unit, "minutes") {
        Some(60)
    } else if chars_equal(unit, "h") || chars_equal(unit, "hr") || chars_equal(unit, "hrs")
        || chars_equal(unit, "hour") || chars_equal(unit, "hours") {
        Some(3600)
    } else if chars_equal(unit, "d") || chars_equal(unit, "day") || chars_equal(unit, "days") {
        Some(86400)
    } else if chars_equal(unit, "w") || chars_equal(unit, "wk") || chars_equal(unit, "wks")
        || chars_equal(unit, "week") || chars_equal(unit, "weeks") {
        Some(604800)
    } else if chars_equal(unit, "mo") || chars_equal(unit, "mon") || chars_equal(unit, "mons")
        || chars_equal(unit, "month") || chars_equal(unit, "months") {
        Some(2592000)
    } else if chars_equal(unit, "q") || chars_equal(unit, "quarter") || chars_equal(unit, "quarters") {
        Some(7776000)
    } else if chars_equal(unit, "y") || chars_equal(unit, "yr") || chars_equal(unit, "yrs")
        || chars_equal(unit, "year") || chars_equal(unit, "years") {
        Some(31536000)
    } else {
        None
    }
}

/// Closes the pending token into `total`, clearing `num` and `unit`;
/// with no digits pending nothing changes.
fn flush_token(total: &mut u64, num: &mut Vec<char>, unit: &mut Vec<char>) -> (r: Result<(), DurationError>)
    requires
        forall|i: int| 0 <= i < old(num)@.len() ==> is_digit(#[trigger] old(num)@[i]),
    ensures
        ({
            let before = Scan { total: *old(total) as int, num: old(num)@, unit: old(unit)@ };
            match flush(before) {
                Ok(st) => r is Ok && *final(total) == st.total && final(num)@ == st.num
                    && final(unit)@ == st.unit,
                Err(e) => r == Err::<(), DurationError>(e),
            }
        }),
{
    if num.len() == 0 {
        return Ok(());
    }
    let value = match number_value(num) {
        None => { return Err(DurationError::InvalidNumber); }
        Some(v) => v,
    };
    let factor = match unit_factor(unit) {
        None => { return Err(DurationError::UnsupportedUnit); }
        Some(f) => f,
    };
    let part = match value.checked_mul(factor) {
        None => { return Err(DurationError::MultiplyOverflow); }
        Some(p) => p,
    };
    let sum = match total.checked_add(part) {
        None => { return Err(DurationError::AddOverflow); }
        Some(t) => t,
    };
    *total = sum;
    *num = Vec::new();
    *unit = Vec::new();
    assert(num@ =~= Seq::<char>::empty());
    assert(unit@ =~= Seq::<char>::empty());
    Ok(())
}

/// Reads a duration such as `1day12h`, `30min30sec` or `2s 1d 48h 9w` as a
/// number of seconds. Each token is a number followed by an optional unit
/// (seconds when none is given); tokens may be separated by white space or
/// follow one another directly; the units are read case-insensitively.
/// Letters are kept until a number closes them: letters after white space
/// with no number following are ignored (`3 weeks` is 3 seconds), and
/// letters before a number become that number's unit (`h 5` is 5 hours).
pub fn parse_seconds(input: &str) -> (r: Result<u64, DurationError>)
    ensures
        match seconds_of(input@) {
            Ok(n) => r is Ok && r->Ok_0 == n,
            Err(e) => r == Err::<u64, DurationError>(e),
        },
{
    let n = input.unicode_len();
    let mut total: u64 = 0;
    let mut num: Vec<char> = Vec::new();
    let mut unit: Vec<char> = Vec::new();
    let mut i: usize = 0;
    while i < n
        invariant
            n == input@.len(),
            i <= n,
            scan(input@.take(i as int)) == Ok::<Scan, DurationError>(
                Scan { total: total as int, num: num@, unit: unit@ },
            ),
            forall|j: int| 0 <= j < num@.len() ==> is_digit(#[trigger] num@[j]),
        decreases n - i,
    {
        let c = input.get_char(i);
        assert(input@.take(i + 1).drop_last() =~= input@.take(i as int));
        assert(input@.take(i + 1).last() == c);
        if char_is_digit(c) {
            if unit.len() > 0 {
                match flush_token(&mut total, &mut num, &mut unit) {
                    Ok(()) => {}
                    Err(e) => {
                        proof { lemma_scan_error_sticks(input@, i + 1); }
                        return Err(e);
                    }
                }
            }
            num.push(c);
        } else if char_is_alpha(c) {
            unit.push(char_lower(c));
        } else if char_is_space(c) {
            match flush_token(&mut total, &mut num, &mut unit) {
                Ok(()) => {}
                Err(e) => {
                    proof { lemma_scan_error_sticks(input@, i + 1); }
                    return Err(e);
                }
            }
        } else {
            proof { lemma_scan_error_sticks(input@, i + 1); }
            return Err(DurationError::UnexpectedChar(c));
        }
        i = i + 1;
    }
    assert(input@.take(n as int) =~= input@);
    match flush_token(&mut total, &mut num, &mut unit) {
        Ok(()) => Ok(total),
        Err(e) => Err(e),
    }
}

/// A unit written in lower-case ASCII letters.
pub open spec fn is_lower_word(u: Seq<char>) -> bool {
    forall|i: int| 0 <= i < u.len() ==> 'a' <= #[trigger] u[i] && u[i] <= 'z'
}

/// A token as written: one or more digits, then a known unit in lower case
/// (possibly empty, meaning seconds).
pub open spec fn is_token(t: (Seq<char>, Seq<char>)) -> bool {
    &&& t.0.len() > 0
    &&& all_digits(t.0)
    &&& is_lower_word(t.1)
    &&& unit_seconds(t.1) is Some
}

/// The seconds one token denotes: its number times its unit.
pub open spec fn token_seconds(t: (Seq<char>, Seq<char>)) -> int {
    digits_value(t.0) * unit_seconds(t.1)->0
}

/// Tokens written one after another, each followed by a space.
pub open spec fn tokens_text(ts: Seq<(Seq<char>, Seq<char>)>) -> Seq<char>
    decreases ts.len(),
{
    if ts.len() == 0 {
        Seq::empty()
    } else {
        tokens_text(ts.drop_last()) + ts.last().0 + ts.last().1 + seq![' ']
    }
}

/// The sum of the tokens' seconds.
pub open spec fn tokens_total(ts: Seq<(Seq<char>, Seq<char>)>) -> int
    decreases ts.len(),
{
    if ts.len() == 0 {
        0
    } else {
        tokens_total(ts.drop_last()) + token_seconds(ts.last())
    }
}

proof fn lemma_scan_digits(s: Seq<char>, d: Seq<char>, total: int, num: Seq<char>)
    requires
        scan(s) == Ok::<Scan, DurationError>(Scan { total, num, unit: Seq::empty() }),
        all_digits(d),
    ensures
        scan(s + d) == Ok::<Scan, DurationError>(Scan { total, num: num + d, unit: Seq::empty() }),
    decreases d.len(),
{
    if d.len() == 0 {
        assert(s + d =~= s);
        assert(num + d =~= num);
    } else {
        let d0 = d.drop_last();
        lemma_scan_digits(s, d0, total, num);
        assert((s + d).drop_last() =~= s + d0);
        assert((s + d).last() == d.last());
        assert(is_digit(d[d.len() - 1]));
        assert((num + d0).push(d.last()) =~= num + d);
    }
}

proof fn lemma_scan_letters(s: Seq<char>, u: Seq<char>, total: int, num: Seq<char>, unit: Seq<char>)
    requires
        scan(s) == Ok::<Scan, DurationError>(Scan { total, num, unit }),
        is_lower_word(u),
    ensures
        scan(s + u) == Ok::<Scan, DurationError>(Scan { total, num, unit: unit + u }),
    decreases u.len(),
{
    if u.len() == 0 {
        assert(s + u =~= s);
        assert(unit + u =~= unit);
    } else {
        let u0 = u.drop_last();
        lemma_scan_letters(s, u0, total, num, unit);
        assert((s + u).drop_last() =~= s + u0);
        assert((s + u).last() == u.last());
        let c = u[u.len() - 1];
        assert('a' <= c && c <= 'z');
        assert(lower(c) == c);
        assert((unit + u0).push(c) =~= unit + u);
    }
}

proof fn lemma_digits_nonneg(d: Seq<char>)
    requires
        all_digits(d),
    ensures
        digits_value(d) >= 0,
{
    lemma_digits_prefix(d, d.len() as int);
    assert(d.take(d.len() as int) =~= d);
}

proof fn lemma_scan_tokens(ts: Seq<(Seq<char>, Seq<char>)>)
    requires
        forall|i: int| 0 <= i < ts.len() ==> is_token(#[trigger] ts[i]),
        tokens_total(ts) <= u64::MAX,
    ensures
        tokens_total(ts) >= 0,
        scan(tokens_text(ts)) == Ok::<Scan, DurationError>(
            Scan { total: tokens_total(ts), num: Seq::empty(), unit: Seq::empty() },
        ),
    decreases ts.len(),
{
    if ts.len() > 0 {
        let p = ts.drop_last();
        let t = ts.last();
        assert(is_token(ts[ts.len() - 1]));
        let v = digits_value(t.0);
        let f = unit_seconds(t.1)->0;
        lemma_digits_nonneg(t.0);
        assert(f >= 1);
        assert(v * f >= v) by (nonlinear_arith)
            requires v >= 0, f >= 1;
        assert forall|i: int| 0 <= i < p.len() implies is_token(#[trigger] p[i]) by {
            assert(p[i] == ts[i]);
        }
        assert(tokens_total(p) <= u64::MAX);
        lemma_scan_tokens(p);
        let base = tokens_text(p);
        lemma_scan_digits(base, t.0, tokens_total(p), Seq::empty());
        assert(Seq::<char>::empty() + t.0 =~= t.0);
        lemma_scan_letters(base + t.0, t.1, tokens_total(p), t.0, Seq::empty());
        assert(Seq::<char>::empty() + t.1 =~= t.1);
        let before = base + t.0 + t.1;
        assert(tokens_text(ts) =~= before.push(' '));
        assert(before.push(' ').drop_last() =~= before);
        assert(!is_digit(' ') && !is_alpha(' ') && is_space(' '));
    }
}

/// A duration written as tokens, each a number and a known lower-case unit
/// followed by a space, denotes the sum over its tokens of number times unit
/// seconds, whenever that sum fits in 64 bits.
pub proof fn lemma_seconds_of_tokens(ts: Seq<(Seq<char>, Seq<char>)>)
    requires
        forall|i: int| 0 <= i < ts.len() ==> is_token(#[trigger] ts[i]),
        tokens_total(ts) <= u64::MAX,
    ensures
        seconds_of(tokens_text(ts)) == Ok::<int, DurationError>(tokens_total(ts)),
{
    lemma_scan_tokens(ts);
}

} // verus!
