//! Reading the wall clock, and writing an instant as text.

use vstd::prelude::*;
use vstd::string::*;

verus! {

/// An instant, counted from the Unix epoch (1970-01-01T00:00:00 UTC).
#[derive(Debug, Clone, Copy, PartialEq, Eq, Structural)]
pub struct Timestamp {
    /// Whole seconds since the epoch.
    pub secs: u64,
    /// Nanoseconds past the last whole second.
    pub nanos: u32,
}

/// The character that writes the digit `d`, for `d` below ten.
pub open spec fn digit_char(d: nat) -> char {
    (('0' as u8) + d) as char
}

/// `n` written in decimal, without sign and without leading zeros.
pub open spec fn decimal_digits(n: nat) -> Seq<char>
    decreases n,
{
    if n < 10 {
        seq![digit_char(n)]
    } else {
        decimal_digits(n / 10).push(digit_char(n % 10))
    }
}

/// A number in decimal has at least one digit, and at least two from ten on.
pub proof fn lemma_decimal_length(n: nat)
    ensures
        decimal_digits(n).len() >= 1,
        n >= 10 ==> decimal_digits(n).len() >= 2,
    decreases n,
{
    if n >= 10 {
        lemma_decimal_length(n / 10);
    }
}

/// Different numbers are written differently.
pub proof fn lemma_decimal_injective(a: nat, b: nat)
    requires
        a != b,
    ensures
        decimal_digits(a) != decimal_digits(b),
    decreases a,
{
    lemma_decimal_length(a);
    lemma_decimal_length(b);
    if a < 10 && b < 10 {
        assert(decimal_digits(a)[0] == digit_char(a));
        assert(decimal_digits(b)[0] == digit_char(b));
    } else if a < 10 || b < 10 {
        assert(decimal_digits(a).len() != decimal_digits(b).len());
    } else {
        let front_a = decimal_digits(a / 10);
        let front_b = decimal_digits(b / 10);
        assert(decimal_digits(a).drop_last() =~= front_a);
        assert(decimal_digits(b).drop_last() =~= front_b);
        assert(decimal_digits(a).last() == digit_char(a % 10));
        assert(decimal_digits(b).last() == digit_char(b % 10));
        if a / 10 != b / 10 {
            lemma_decimal_injective(a / 10, b / 10);
        } else {
            assert(a % 10 != b % 10);
        }
    }
}

/// The RFC 3339 text of the UTC instant `nanos` nanoseconds past `secs` seconds
/// after the epoch, as `chrono` writes it; `None` where `chrono` cannot
/// represent the instant.
pub uninterp spec fn rfc3339_text(secs: int, nanos: int) -> Option<Seq<char>>;

/// The text that stands for an instant that `chrono` cannot write: the epoch.
pub open spec fn epoch_text() -> Seq<char> {
    "1970-01-01T00:00:00+00:00"@
}

/// The text of an instant once `chrono` has answered: what it wrote, or the
/// epoch where it wrote nothing.
pub open spec fn written_or_epoch(written: Option<Seq<char>>) -> Seq<char> {
    match written {
        Some(text) => if text.len() > 0 {
            text
        } else {
            epoch_text()
        },
        None => epoch_text(),
    }
}

/// The text of an instant is never empty.
pub proof fn lemma_text_not_empty(instant: Timestamp)
    ensures
        instant.text().len() > 0,
{
    reveal_strlit("1970-01-01T00:00:00+00:00");
}

/// Calls `std::time::SystemTime::now` and measures the result from
/// `std::time::UNIX_EPOCH`. The reading is `None` when the system clock is set
/// before the epoch. Of the instant itself nothing is claimed but that its
/// nanoseconds are a fraction of a second, as `Duration::subsec_nanos`
/// documents.
#[verifier::external_body]
fn read_system_clock() -> (reading: Option<Timestamp>)
    ensures
        reading matches Some(instant) ==> instant.is_normal(),
{
    match std::time::SystemTime::now().duration_since(std::time::UNIX_EPOCH) {
        Ok(elapsed) => Some(Timestamp { secs: elapsed.as_secs(), nanos: elapsed.subsec_nanos() }),
        Err(_) => None,
    }
}

/// Calls `u64::to_string`, which writes the number in decimal.
#[verifier::external_body]
pub(crate) fn decimal_string(n: u64) -> (text: String)
    ensures
        text@ == decimal_digits(n as nat),
{
    n.to_string()
}

/// Calls `chrono::DateTime::from_timestamp` and, on the instant it yields,
/// `chrono::DateTime::to_rfc3339`. The text depends on the two numbers alone.
#[verifier::external_body]
fn rfc3339_utc(secs: i64, nanos: u32) -> (text: Option<String>)
    ensures
        text.deep_view() == rfc3339_text(secs as int, nanos as int),
{
    match chrono::DateTime::from_timestamp(secs, nanos) {
        Some(instant) => Some(instant.to_rfc3339()),
        None => None,
    }
}

impl Timestamp {
    /// Whether the nanoseconds are a fraction of a second, as in every reading
    /// of a clock.
    pub open spec fn is_normal(self) -> bool {
        self.nanos < 1_000_000_000
    }

    /// The instant as RFC 3339 text, never empty. An instant that `chrono`
    /// cannot write has the text of the epoch.
    pub open spec fn text(self) -> Seq<char> {
        if self.secs <= i64::MAX {
            written_or_epoch(rfc3339_text(self.secs as int, self.nanos as int))
        } else {
            epoch_text()
        }
    }

    /// The current instant by the system clock, with its nanoseconds a
    /// fraction of a second. A clock set before the epoch reads as the epoch.
    pub fn now() -> (instant: Timestamp)
        ensures
            instant.is_normal(),
    {
        match read_system_clock() {
            Some(reading) => reading,
            None => Timestamp { secs: 0, nanos: 0 },
        }
    }

    /// Writes the instant as RFC 3339 text, never empty. An instant that
    /// `chrono` cannot write is written as the epoch.
    pub fn to_rfc3339(&self) -> (text: String)
        ensures
            text@ == self.text(),
            text@.len() > 0,
    {
        proof {
            lemma_text_not_empty(*self);
        }
        let written = if self.secs <= i64::MAX as u64 {
            rfc3339_utc(self.secs as i64, self.nanos)
        } else {
            None
        };
        match written {
            Some(text) => {
                if text.as_str().is_empty() {
                    String::from_str("1970-01-01T00:00:00+00:00")
                } else {
                    text
                }
            },
            None => String::from_str("1970-01-01T00:00:00+00:00"),
        }
    }
}

} // verus!
