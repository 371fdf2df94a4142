//! Small helpers: the clock, and the texts that the manager and the workers
//! agree on.

use vstd::prelude::*;
use vstd::string::StringExecFns;

verus! {

/// The character of the digit `d`.
pub open spec fn digit(d: nat) -> char {
    if d == 0 {
        '0'
    } else if d == 1 {
        '1'
    } else if d == 2 {
        '2'
    } else if d == 3 {
        '3'
    } else if d == 4 {
        '4'
    } else if d == 5 {
        '5'
    } else if d == 6 {
        '6'
    } else if d == 7 {
        '7'
    } else if d == 8 {
        '8'
    } else {
        '9'
    }
}

/// The number `n` in decimal, without leading zeros.
pub open spec fn decimal(n: nat) -> Seq<char>
    decreases n,
{
    if n < 10 {
        seq![digit(n)]
    } else {
        decimal(n / 10).push(digit(n % 10))
    }
}

/// The text of one digit.
fn digit_str(d: u64) -> (s: &'static str)
    requires
        d < 10,
    ensures
        s@ == seq![digit(d as nat)],
{
    proof {
        reveal_strlit("0");
        reveal_strlit("1");
        reveal_strlit("2");
        reveal_strlit("3");
        reveal_strlit("4");
        reveal_strlit("5");
        reveal_strlit("6");
        reveal_strlit("7");
        reveal_strlit("8");
        reveal_strlit("9");
    }
    let s = if d == 0 {
        "0"
    } else if d == 1 {
        "1"
    } else if d == 2 {
        "2"
    } else if d == 3 {
        "3"
    } else if d == 4 {
        "4"
    } else if d == 5 {
        "5"
    } else if d == 6 {
        "6"
    } else if d == 7 {
        "7"
    } else if d == 8 {
        "8"
    } else {
        "9"
    };
    assert(s@ =~= seq![digit(d as nat)]);
    s
}

/// Writes `n` in decimal.
pub fn to_decimal(n: u64) -> (s: String)
    ensures
        s@ == decimal(n as nat),
{
    let mut s = String::from_str(digit_str(n % 10));
    let mut m = n / 10;
    assert(n >= 10 ==> decimal(n as nat) =~= decimal(m as nat) + s@);
    while m > 0
        invariant
            m > 0 ==> decimal(n as nat) == decimal(m as nat) + s@,
            m == 0 ==> s@ == decimal(n as nat),
        decreases m,
    {
        let head = String::from_str(digit_str(m % 10));
        let ghost tail = s@;
        s = head.concat(s.as_str());
        proof {
            let next = (m / 10) as nat;
            if m < 10 {
                assert(s@ =~= decimal(m as nat) + tail);
            } else {
                assert(decimal(m as nat) + tail =~= decimal(next) + s@);
            }
        }
        m = m / 10;
    }
    s
}

/// Joins two texts.
pub fn join(a: &str, b: &str) -> (s: String)
    ensures
        s@ == a@ + b@,
{
    String::from_str(a).concat(b)
}

/// The search path for native libraries with `libtorch` put before what
/// the path held.
pub fn library_path(libtorch: &str, current: &str) -> (s: String)
    ensures
        s@ == libtorch@ + ":"@ + current@,
{
    let head = join(libtorch, ":");
    join(head.as_str(), current)
}

/// A moment of the system clock.
#[verifier::external_type_specification]
#[verifier::external_body]
pub struct ExSystemTime(std::time::SystemTime);

/// The error of a clock that reads earlier than the moment it is compared with.
#[verifier::external_type_specification]
#[verifier::external_body]
pub struct ExSystemTimeError(std::time::SystemTimeError);

/// `SystemTime::now` of std: the present moment. Nothing is known of it.
pub assume_specification[ std::time::SystemTime::now ]() -> (now: std::time::SystemTime)
;

/// `SystemTime::duration_since` of std: the time from `earlier` to `t`, or
/// an error where `t` lies before `earlier`. Nothing is known of the result.
pub assume_specification[ std::time::SystemTime::duration_since ](
    t: &std::time::SystemTime,
    earlier: std::time::SystemTime,
) -> (r: Result<std::time::Duration, std::time::SystemTimeError>)
;

/// `Duration::as_secs` of std: the whole seconds of a duration. Nothing is
/// known of the result.
pub assume_specification[ std::time::Duration::as_secs ](d: &std::time::Duration) -> (secs: u64)
;

/// `UNIX_EPOCH` of std: the start of 1970. Nothing is known of it.
#[verifier::external_body]
fn unix_epoch() -> (epoch: std::time::SystemTime) {
    std::time::UNIX_EPOCH
}

/// The seconds since the start of 1970 by the system clock; 0 where the
/// clock reads earlier than that.
pub fn time() -> (secs: u64) {
    let reading = match std::time::SystemTime::now().duration_since(unix_epoch()) {
        Ok(d) => Some(d.as_secs()),
        Err(_) => None,
    };
    seconds_of(reading)
}

/// What a reading of the clock counts as: the seconds that have gone by
/// since the start of 1970, and 0 where the clock reads earlier than that
/// and so gave no seconds.
pub open spec fn counted_seconds(reading: Option<u64>) -> u64 {
    match reading {
        Some(secs) => secs,
        None => 0,
    }
}

/// The seconds that a reading of the clock counts as.
pub fn seconds_of(reading: Option<u64>) -> (secs: u64)
    ensures
        secs == counted_seconds(reading),
{
    match reading {
        Some(secs) => secs,
        None => 0,
    }
}

} // verus!
