use vstd::prelude::*;

verus! {

/// A wall-clock instant at second granularity, exactly what a
/// `screenshot_YYYYMMDD_HHMMSS.jpg` file name records.
pub struct Timestamp {
    pub year: u16,
    pub month: u8,
    pub day: u8,
    pub hour: u8,
    pub minute: u8,
    pub second: u8,
}

impl Timestamp {
    /// The component ranges that a four-digit date and a 24-hour clock
    /// can print.
    pub open spec fn wf(&self) -> bool {
        &&& self.year <= 9999
        &&& 1 <= self.month <= 12
        &&& 1 <= self.day <= 31
        &&& self.hour <= 23
        &&& self.minute <= 59
        &&& self.second <= 59
    }

    /// Builds a timestamp from raw clock components, rejecting exactly
    /// those that a timestamped file name could not carry.
    pub fn new(year: i64, month: u32, day: u32, hour: u32, minute: u32, second: u32) -> (r:
        Option<Timestamp>)
        ensures
            r is Some <==> 0 <= year <= 9999 && 1 <= month <= 12 && 1 <= day <= 31 && hour <= 23
                && minute <= 59 && second <= 59,
            r matches Some(t) ==> t.year == year && t.month == month && t.day == day && t.hour
                == hour && t.minute == minute && t.second == second && t.wf(),
    {
        if 0 <= year && year <= 9999 && 1 <= month && month <= 12 && 1 <= day && day <= 31
            && hour <= 23 && minute <= 59 && second <= 59 {
            Some(
                Timestamp {
                    year: year as u16,
                    month: month as u8,
                    day: day as u8,
                    hour: hour as u8,
                    minute: minute as u8,
                    second: second as u8,
                },
            )
        } else {
            None
        }
    }
}

/// The character printing the last decimal digit of `n`.
pub open spec fn digit_char(n: int) -> char {
    ((48 + (n % 10)) as u8) as char
}

/// The two characters printing `n` with a leading zero, `n` below 100.
pub open spec fn two_digit_chars(n: int) -> Seq<char> {
    seq![digit_char(n / 10), digit_char(n)]
}

/// The four characters printing `n` with leading zeros, `n` below 10000.
pub open spec fn four_digit_chars(n: int) -> Seq<char> {
    seq![digit_char(n / 1000), digit_char(n / 100), digit_char(n / 10), digit_char(n)]
}

/// The timestamped default file name: `screenshot_YYYYMMDD_HHMMSS.jpg`,
/// every component zero-padded, the granularity one second.
pub open spec fn default_name(t: Timestamp) -> Seq<char> {
    "screenshot_"@ + four_digit_chars(t.year as int) + two_digit_chars(t.month as int)
        + two_digit_chars(t.day as int) + "_"@ + two_digit_chars(t.hour as int)
        + two_digit_chars(t.minute as int) + two_digit_chars(t.second as int) + ".jpg"@
}

fn push_two_digits(v: &mut Vec<u8>, n: u16)
    requires
        n <= 99,
    ensures
        final(v)@ == old(v)@ + seq![(48 + (n as int) / 10 % 10) as u8, (48 + (n as int) % 10) as u8],
{
    v.push(48 + (n / 10 % 10) as u8);
    v.push(48 + (n % 10) as u8);
    proof {
        assert(final(v)@ =~= old(v)@ + seq![
            (48 + (n as int) / 10 % 10) as u8,
            (48 + (n as int) % 10) as u8,
        ]);
    }
}

/// Relies on String::from_utf8: bytes below 128 are UTF-8 and decode to
/// the characters with the same code points.
#[verifier::external_body]
fn ascii_to_string(v: Vec<u8>) -> (r: String)
    requires
        forall|i: int| 0 <= i < v@.len() ==> v@[i] < 128,
    ensures
        r@ == v@.map_values(|b: u8| b as char),
{
    match String::from_utf8(v) {
        Ok(s) => s,
        Err(_) => String::new(),
    }
}

/// Prints the timestamped default file name for a capture taken at `t`.
#[verifier::rlimit(100)]
pub fn default_filename(t: &Timestamp) -> (r: String)
    requires
        t.wf(),
    ensures
        r@ == default_name(*t),
        r@.len() == 30,
{
    let mut v: Vec<u8> = Vec::new();
    v.push(115);
    v.push(99);
    v.push(114);
    v.push(101);
    v.push(101);
    v.push(110);
    v.push(115);
    v.push(104);
    v.push(111);
    v.push(116);
    v.push(95);
    push_two_digits(&mut v, t.year / 100);
    push_two_digits(&mut v, t.year % 100);
    push_two_digits(&mut v, t.month as u16);
    push_two_digits(&mut v, t.day as u16);
    v.push(95);
    push_two_digits(&mut v, t.hour as u16);
    push_two_digits(&mut v, t.minute as u16);
    push_two_digits(&mut v, t.second as u16);
    v.push(46);
    v.push(106);
    v.push(112);
    v.push(103);
    proof {
        reveal_strlit("screenshot_");
        reveal_strlit("_");
        reveal_strlit(".jpg");
        assert(forall|i: int| 0 <= i < v@.len() ==> v@[i] < 128);
        assert(v@.map_values(|b: u8| b as char) =~= default_name(*t));
    }
    ascii_to_string(v)
}

/// Relies on chrono::Local::now with the Datelike and Timelike
/// accessors: the month ranges over 1 to 12, the day over 1 to 31, the
/// hour below 24, the minute and the second below 60.  The year and the
/// values themselves depend on the clock, so nothing more is promised.
#[verifier::external_body]
fn local_clock_parts() -> (r: (i64, u32, u32, u32, u32, u32))
    ensures
        1 <= r.1 <= 12,
        1 <= r.2 <= 31,
        r.3 <= 23,
        r.4 <= 59,
        r.5 <= 59,
{
    let now = chrono::Local::now();
    (
        chrono::Datelike::year(&now) as i64,
        chrono::Datelike::month(&now),
        chrono::Datelike::day(&now),
        chrono::Timelike::hour(&now),
        chrono::Timelike::minute(&now),
        chrono::Timelike::second(&now),
    )
}

/// Reads the local clock once.  `None` only for a year that four
/// digits cannot print.
pub fn now() -> (r: Option<Timestamp>)
    ensures
        r matches Some(t) ==> t.wf(),
{
    let (year, month, day, hour, minute, second) = local_clock_parts();
    Timestamp::new(year, month, day, hour, minute, second)
}

} // verus!
