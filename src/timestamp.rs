use vstd::prelude::*;

use crate::model::Error;

verus! {

/// An instant, as seconds since the Unix epoch and nanoseconds within that
/// second (above 999,999,999 only within a leap second).
#[derive(Debug, Clone, Copy, PartialEq, Eq)]
pub struct Timestamp {
    pub secs: i64,
    pub nanos: u32,
}

/// The instant that chrono reads from a date-and-time text, as seconds since
/// the Unix epoch and nanoseconds within the second; none where chrono
/// rejects the text.
pub uninterp spec fn instant_of(text: Seq<char>) -> Option<(i64, u32)>;

/// Relies on chrono's `FromStr` for `DateTime<Utc>`, which reads RFC 3339
/// (with a space allowed between date and time) and converts to UTC, and on
/// `DateTime::timestamp` and `DateTime::timestamp_subsec_nanos` to read the
/// instant back. An empty text is rejected.
#[verifier::external_body]
fn read_instant(text: &str) -> (r: Option<(i64, u32)>)
    ensures
        r == instant_of(text@),
        text@.len() == 0 ==> r is None,
{
    match text.parse::<chrono::DateTime<chrono::Utc>>() {
        Ok(t) => Some((t.timestamp(), t.timestamp_subsec_nanos())),
        Err(_) => None,
    }
}

impl Timestamp {
    /// The timestamp for an instant that was read from `text`; an error that
    /// holds `text` where none was read.
    pub fn from_instant(text: &str, instant: Option<(i64, u32)>) -> (r: Result<Timestamp, Error>)
        ensures
            instant matches Some((secs, nanos)) ==> r == Ok::<Timestamp, Error>(
                Timestamp { secs, nanos },
            ),
            instant is None ==> (r matches Err(Error::Timestamp(m)) && m@ == text@),
    {
        match instant {
            Some((secs, nanos)) => Ok(Timestamp { secs, nanos }),
            None => Err(Error::Timestamp(text.to_owned())),
        }
    }

    /// Reads a date and time in RFC 3339 form, such as
    /// `2020-09-13T12:26:40Z`, converting it to UTC.
    pub fn parse(text: &str) -> (r: Result<Timestamp, Error>)
        ensures
            instant_of(text@) matches Some((secs, nanos)) ==> r == Ok::<Timestamp, Error>(
                Timestamp { secs, nanos },
            ),
            instant_of(text@) is None ==> (r matches Err(Error::Timestamp(m)) && m@ == text@),
            text@.len() == 0 ==> r is Err,
    {
        let instant = read_instant(text);
        Timestamp::from_instant(text, instant)
    }
}

} // verus!
