//! The singleton lock: a PID file that names the daemon holding it. Reading
//! the file, probing the recorded process and writing the file are done by
//! the caller; the decisions between them are made here.
use vstd::prelude::*;
use vstd::string::*;
use crate::text::{
    is_digit, digits_value, trimmed, decimal, all_digits, lemma_decimal_digits, trim_str,
    all_digit_chars, chars_between, number_value, decimal_string,
};

verus! {

/// Why the lock could not be taken.
#[derive(Debug, Clone, Copy, PartialEq, Eq, Structural)]
pub enum LockError {
    /// A live process with this id holds the lock.
    AlreadyRunning(i32),
}

/// The integer that `s` spells: an optional sign, then one or more digits.
pub open spec fn int_of(s: Seq<char>) -> Option<int> {
    if s.len() > 0 && (s[0] == '+' || s[0] == '-') {
        let d = s.drop_first();
        if d.len() > 0 && all_digits(d) {
            Some(if s[0] == '-' { -digits_value(d) } else { digits_value(d) })
        } else {
            None
        }
    } else if s.len() > 0 && all_digits(s) {
        Some(digits_value(s))
    } else {
        None
    }
}

/// The process id recorded in a PID file's text: the trimmed text read as a
/// 32-bit signed integer; anything else records no process.
pub open spec fn pid_of(text: Seq<char>) -> Option<i32> {
    match int_of(trimmed(text)) {
        Some(v) => if i32::MIN <= v <= i32::MAX {
            Some(v as i32)
        } else {
            None
        },
        None => None,
    }
}

/// What taking the lock leaves in the PID file, given what it held before
/// (`None`: no file) and whether the process it records is alive.
pub open spec fn acquire_outcome(file: Option<Seq<char>>, owner_alive: bool, me: u32) -> Result<Seq<char>, LockError> {
    match file {
        Some(t) => match pid_of(t) {
            Some(p) => if owner_alive {
                Err(LockError::AlreadyRunning(p))
            } else {
                Ok(decimal(me as nat))
            },
            None => Ok(decimal(me as nat)),
        },
        None => Ok(decimal(me as nat)),
    }
}

/// What the caller does to take the lock.
#[derive(Debug, Clone)]
pub struct LockWrite {
    /// A stale file is there and is removed first.
    pub remove_stale: bool,
    /// The text written to the PID file: the caller's process id.
    pub contents: String,
}

/// The process id that a PID file's text records, if it reads as one.
pub fn parse_pid(text: &str) -> (r: Option<i32>)
    ensures
        r == pid_of(text@),
{
    let t = trim_str(text);
    let s = t.as_str();
    let n = s.unicode_len();
    if n == 0 {
        return None;
    }
    let c0 = s.get_char(0);
    let negative = c0 == '-';
    let start: usize = if c0 == '+' || c0 == '-' { 1 } else { 0 };
    if start == n {
        return None;
    }
    let digits = chars_between(s, start, n);
    assert(start == 1 ==> digits@ =~= s@.drop_first());
    assert(start == 0 ==> digits@ =~= s@);
    if !all_digit_chars(&digits) {
        return None;
    }
    match number_value(&digits) {
        None => None,
        Some(v) => if negative {
            if v <= 2147483648u64 {
                Some((0i64 - (v as i64)) as i32)
            } else {
                None
            }
        } else {
            if v <= 2147483647u64 {
                Some(v as i32)
            } else {
                None
            }
        },
    }
}

/// The daemon's process id as its PID file records it (`None`: no file, or
/// text that records no process).
pub fn get_daemon_pid(file: &Option<String>) -> (r: Option<i32>)
    ensures
        r == match *file {
            Some(t) => pid_of(t@),
            None => None,
        },
{
    match file {
        Some(t) => parse_pid(t.as_str()),
        None => None,
    }
}

/// Decides how to take the lock for process `me`. `file` is the PID file's
/// text (`None`: no file) and `owner_alive` what the liveness probe said of
/// the process it records. A live recorded process refuses the lock; a
/// file that records no process, or a process that is gone, is stale: it is
/// removed and overwritten.
pub fn acquire_lock(file: &Option<String>, owner_alive: bool, me: u32) -> (r: Result<LockWrite, LockError>)
    ensures
        match acquire_outcome(
            match *file {
                Some(t) => Some(t@),
                None => None,
            },
            owner_alive,
            me,
        ) {
            Ok(text) => r is Ok && r->Ok_0.contents@ == text && r->Ok_0.remove_stale == (*file is Some),
            Err(e) => r == Err::<LockWrite, LockError>(e),
        },
{
    let remove_stale = match file {
        Some(t) => {
            match parse_pid(t.as_str()) {
                Some(p) => if owner_alive {
                    return Err(LockError::AlreadyRunning(p));
                },
                None => {}
            }
            true
        }
        None => false,
    };
    Ok(LockWrite { remove_stale, contents: decimal_string(me as u64) })
}

/// The text that a lock holder writes reads back as its process id.
pub proof fn lemma_pid_round_trip(me: u32)
    requires
        me <= i32::MAX,
    ensures
        pid_of(decimal(me as nat)) == Some(me as i32),
{
    lemma_decimal_digits(me as nat);
    let d = decimal(me as nat);
    assert(is_digit(d[0]));
}

/// Taking the lock twice while its holder lives: the second attempt, by any
/// process, fails with `AlreadyRunning` naming the holder.
pub proof fn lemma_second_acquire_fails(file: Option<Seq<char>>, owner_alive: bool, me: u32, other: u32)
    requires
        me <= i32::MAX,
        acquire_outcome(file, owner_alive, me) is Ok,
    ensures
        acquire_outcome(Some(acquire_outcome(file, owner_alive, me)->Ok_0), true, other)
            == Err::<Seq<char>, LockError>(LockError::AlreadyRunning(me as i32)),
{
    lemma_pid_round_trip(me);
}

/// Taking the lock over a file whose recorded process no longer exists
/// always succeeds and leaves the new holder's id in the file.
pub proof fn lemma_stale_lock_overwritten(text: Seq<char>, me: u32)
    ensures
        acquire_outcome(Some(text), false, me) == Ok::<Seq<char>, LockError>(decimal(me as nat)),
{
}

} // verus!
