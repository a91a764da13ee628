//! Wall-clock readings and their second-precision, URL-safe text form
//! `YYYY-MM-DDTHH-MM-SS`.
use vstd::prelude::*;
use crate::text::concat;

verus! {

/// The calendar fields of one reading of the UTC clock.
#[derive(Clone, Copy, Debug, PartialEq, Eq, Structural)]
pub struct ClockReading {
    pub year: i32,
    pub month: u32,
    pub day: u32,
    pub hour: u32,
    pub minute: u32,
    pub second: u32,
    /// Seconds since the Unix epoch.
    pub epoch_seconds: i64,
}

/// Whether the fields lie in the ranges of a calendar date and time of day.
pub open spec fn fields_in_range(r: ClockReading) -> bool {
    &&& 1 <= r.month <= 12
    &&& 1 <= r.day <= 31
    &&& r.hour <= 23
    &&& r.minute <= 59
    &&& r.second <= 59
}

/// Relies on std's `SystemTime::now` and `duration_since(UNIX_EPOCH)` for
/// the seconds since the epoch (an error before 1970), on chrono's
/// `DateTime::from_timestamp` (`None` outside its range) and on its
/// `Datelike` / `Timelike` accessors: month 1 to 12, day 1 to 31, hour 0 to
/// 23, minute and second 0 to 59.
#[verifier::external_body]
pub(crate) fn read_clock() -> (r: Option<ClockReading>)
    ensures
        r matches Some(c) ==> fields_in_range(c) && c.epoch_seconds >= 0,
{
    let since = std::time::SystemTime::now().duration_since(std::time::UNIX_EPOCH).ok()?;
    let secs = i64::try_from(since.as_secs()).ok()?;
    let now = chrono::DateTime::from_timestamp(secs, 0)?;
    Some(ClockReading {
        year: chrono::Datelike::year(&now),
        month: chrono::Datelike::month(&now),
        day: chrono::Datelike::day(&now),
        hour: chrono::Timelike::hour(&now),
        minute: chrono::Timelike::minute(&now),
        second: chrono::Timelike::second(&now),
        epoch_seconds: secs,
    })
}

/// A point in time to the second, with a four-digit year.
#[derive(Clone, Copy, Debug, PartialEq, Eq, Structural)]
pub struct Timestamp {
    pub year: u32,
    pub month: u32,
    pub day: u32,
    pub hour: u32,
    pub minute: u32,
    pub second: u32,
}

impl Timestamp {
    pub open spec fn wf(&self) -> bool {
        &&& self.year <= 9999
        &&& 1 <= self.month <= 12
        &&& 1 <= self.day <= 31
        &&& self.hour <= 23
        &&& self.minute <= 59
        &&& self.second <= 59
    }

    /// The timestamp of a clock reading, when its year has four digits.
    pub fn from_reading(r: ClockReading) -> (t: Option<Timestamp>)
        requires
            fields_in_range(r),
        ensures
            t is Some <==> 0 <= r.year <= 9999,
            t matches Some(t) ==> t.wf() && t.year == r.year && t.month == r.month && t.day
                == r.day && t.hour == r.hour && t.minute == r.minute && t.second == r.second,
    {
        if 0 <= r.year && r.year <= 9999 {
            Some(
                Timestamp {
                    year: r.year as u32,
                    month: r.month,
                    day: r.day,
                    hour: r.hour,
                    minute: r.minute,
                    second: r.second,
                },
            )
        } else {
            None
        }
    }

    /// The text form `YYYY-MM-DDTHH-MM-SS`.
    pub open spec fn text(&self) -> Seq<char> {
        digits(self.year as nat, 4) + "-"@ + digits(self.month as nat, 2) + "-"@ + digits(
            self.day as nat,
            2,
        ) + "T"@ + digits(self.hour as nat, 2) + "-"@ + digits(self.minute as nat, 2) + "-"@
            + digits(self.second as nat, 2)
    }

    /// Formats the timestamp as `YYYY-MM-DDTHH-MM-SS`.
    pub fn format(&self) -> (r: String)
        requires
            self.wf(),
        ensures
            r@ == self.text(),
            is_timestamp_text(r@),
    {
        let s = push_digits(String::new(), self.year, 4);
        let s = concat(s.as_str(), "-");
        let s = push_digits(s, self.month, 2);
        let s = concat(s.as_str(), "-");
        let s = push_digits(s, self.day, 2);
        let s = concat(s.as_str(), "T");
        let s = push_digits(s, self.hour, 2);
        let s = concat(s.as_str(), "-");
        let s = push_digits(s, self.minute, 2);
        let s = concat(s.as_str(), "-");
        let s = push_digits(s, self.second, 2);
        proof {
            reveal_strlit("-");
            reveal_strlit("T");
            lemma_text_shape(*self);
        }
        s
    }
}

/// The decimal digit character of `d`.
pub open spec fn digit_char(d: nat) -> char {
    if d == 0 { '0' }
    else if d == 1 { '1' }
    else if d == 2 { '2' }
    else if d == 3 { '3' }
    else if d == 4 { '4' }
    else if d == 5 { '5' }
    else if d == 6 { '6' }
    else if d == 7 { '7' }
    else if d == 8 { '8' }
    else { '9' }
}

pub open spec fn is_digit(c: char) -> bool {
    '0' <= c <= '9'
}

/// The last `width` decimal digits of `n`, most significant first.
pub open spec fn digits(n: nat, width: nat) -> Seq<char>
    decreases width,
{
    if width == 0 {
        Seq::empty()
    } else {
        digits(n / 10, (width - 1) as nat).push(digit_char(n % 10))
    }
}

/// Whether `s` has the shape `DDDD-DD-DDTDD-DD-DD`, every `D` a digit.
pub open spec fn is_timestamp_text(s: Seq<char>) -> bool {
    &&& s.len() == 19
    &&& forall|i: int|
        0 <= i < 19 ==> if i == 4 || i == 7 || i == 13 || i == 16 {
            #[trigger] s[i] == '-'
        } else if i == 10 {
            s[i] == 'T'
        } else {
            is_digit(s[i])
        }
}

proof fn lemma_digits(n: nat, width: nat)
    ensures
        digits(n, width).len() == width,
        forall|i: int| 0 <= i < width ==> is_digit(#[trigger] digits(n, width)[i]),
    decreases width,
{
    if width > 0 {
        lemma_digits(n / 10, (width - 1) as nat);
    }
}

pub(crate) proof fn lemma_text_shape(t: Timestamp)
    ensures
        is_timestamp_text(t.text()),
{
    reveal_strlit("-");
    reveal_strlit("T");
    lemma_digits(t.year as nat, 4);
    lemma_digits(t.month as nat, 2);
    lemma_digits(t.day as nat, 2);
    lemma_digits(t.hour as nat, 2);
    lemma_digits(t.minute as nat, 2);
    lemma_digits(t.second as nat, 2);
    let s = t.text();
    assert forall|i: int| 0 <= i < 19 implies if i == 4 || i == 7 || i == 13 || i == 16 {
        #[trigger] s[i] == '-'
    } else if i == 10 {
        s[i] == 'T'
    } else {
        is_digit(s[i])
    } by {
        if i < 4 {
            assert(s[i] == digits(t.year as nat, 4)[i]);
        } else if 4 < i < 7 {
            assert(s[i] == digits(t.month as nat, 2)[i - 5]);
        } else if 7 < i < 10 {
            assert(s[i] == digits(t.day as nat, 2)[i - 8]);
        } else if 10 < i < 13 {
            assert(s[i] == digits(t.hour as nat, 2)[i - 11]);
        } else if 13 < i < 16 {
            assert(s[i] == digits(t.minute as nat, 2)[i - 14]);
        } else if 16 < i {
            assert(s[i] == digits(t.second as nat, 2)[i - 17]);
        }
    }
}

/// The one-character text of the digit `d`.
fn digit_text(d: u32) -> (r: &'static str)
    requires
        d < 10,
    ensures
        r@ == seq![digit_char(d as nat)],
{
    proof {
        reveal_strlit("0");
        reveal_strlit("1");
        reveal_strlit("2");
        reveal_strlit("3");
        reveal_strlit("4");
        reveal_strlit("5");
        reveal_strlit("6");
        reveal_strlit("7");
        reveal_strlit("8");
        reveal_strlit("9");
    }
    match d {
        0 => "0",
        1 => "1",
        2 => "2",
        3 => "3",
        4 => "4",
        5 => "5",
        6 => "6",
        7 => "7",
        8 => "8",
        _ => "9",
    }
}

/// Appends the last `width` decimal digits of `n` to `s`.
fn push_digits(s: String, n: u32, width: u32) -> (r: String)
    requires
        width <= 4,
    ensures
        r@ == s@ + digits(n as nat, width as nat),
    decreases width,
{
    if width == 0 {
        assert(s@ + digits(n as nat, 0) =~= s@);
        s
    } else {
        let head = push_digits(s, n / 10, width - 1);
        let r = concat(head.as_str(), digit_text(n % 10));
        assert(r@ =~= s@ + digits(n as nat, width as nat));
        r
    }
}

} // verus!
