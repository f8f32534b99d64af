//! UTC instants and their canonical RFC 3339 text, as chrono writes and
//! reads it.

use vstd::prelude::*;

verus! {

/// A UTC instant: whole seconds since 1970-01-01T00:00:00Z and the
/// nanoseconds within that second.
#[derive(Clone, Copy, Debug, PartialEq, Eq, Structural)]
pub struct Timestamp {
    pub secs: i64,
    pub nanos: u32,
}

/// The text that chrono's `%+` format gives for the UTC instant made of
/// `secs` and `nanos`; `None` where chrono has no such instant.
pub uninterp spec fn rfc3339_text(secs: i64, nanos: u32) -> Option<Seq<char>>;

/// The instant, as seconds and nanoseconds, that chrono reads from an
/// RFC 3339 text; `None` where chrono rejects the text.
pub uninterp spec fn rfc3339_instant(text: Seq<char>) -> Option<(i64, u32)>;

/// Calls `chrono::DateTime::from_timestamp` and formats the instant with
/// `chrono::DateTime::format("%+")`. Nothing is proved of the text: the
/// contract only gives it the name `rfc3339_text`.
#[verifier::external_body]
fn format_instant(secs: i64, nanos: u32) -> (text: Option<String>)
    ensures
        text is Some == rfc3339_text(secs, nanos) is Some,
        text matches Some(s) ==> rfc3339_text(secs, nanos) == Some(s@),
{
    chrono::DateTime::from_timestamp(secs, nanos).map(|at| format!("{}", at.format("%+")))
}

/// Calls `chrono::DateTime::parse_from_rfc3339`, moves the result to UTC and
/// takes its seconds and nanoseconds. Nothing is proved of the instant: the
/// contract only gives it the name `rfc3339_instant`.
#[verifier::external_body]
fn parse_instant(text: &str) -> (instant: Option<(i64, u32)>)
    ensures
        instant == rfc3339_instant(text@),
{
    chrono::DateTime::parse_from_rfc3339(text).ok().map(
        |at| {
            let utc = at.with_timezone(&chrono::Utc);
            (utc.timestamp(), utc.timestamp_subsec_nanos())
        },
    )
}

impl Timestamp {
    /// The instant that a canonical text stands for.
    pub open spec fn spec_parse(text: Seq<char>) -> Option<Timestamp> {
        match rfc3339_instant(text) {
            Some((secs, nanos)) => Some(Timestamp { secs, nanos }),
            None => None,
        }
    }

    /// The canonical text of this instant.
    pub open spec fn spec_text(self) -> Option<Seq<char>> {
        rfc3339_text(self.secs, self.nanos)
    }

    /// Whether this instant has a canonical text that reads back as this
    /// very instant.
    pub open spec fn round_trips(self) -> bool {
        self.spec_text() matches Some(text) && Timestamp::spec_parse(text) == Some(self)
    }

    /// The text under which this instant is stored: its canonical text,
    /// where that text reads back as this very instant.
    pub open spec fn spec_canonical(self) -> Option<Seq<char>> {
        if self.round_trips() {
            self.spec_text()
        } else {
            None
        }
    }

    /// The canonical text of this instant: date, time with as many
    /// fractional digits as the nanoseconds need, and the offset `+00:00`.
    /// `None` where the instant lies outside what the calendar can
    /// represent.
    pub fn to_rfc3339(&self) -> (text: Option<String>)
        ensures
            text is Some == self.spec_text() is Some,
            text matches Some(s) ==> self.spec_text() == Some(s@),
    {
        format_instant(self.secs, self.nanos)
    }

    /// The text under which this instant is stored: its canonical text,
    /// read back once to make sure that it gives this very instant. `None`
    /// where the instant has no canonical text or the text does not read
    /// back, as for a year that does not fit four digits.
    pub fn canonical_text(&self) -> (text: Option<String>)
        ensures
            text is Some == self.round_trips(),
            text matches Some(s) ==> self.spec_canonical() == Some(s@),
    {
        match self.to_rfc3339() {
            None => None,
            Some(text) => match Timestamp::parse(text.as_str()) {
                None => None,
                Some(back) => if back.secs == self.secs && back.nanos == self.nanos {
                    Some(text)
                } else {
                    None
                },
            },
        }
    }

    /// Reads a canonical text back into an instant, or `None` where the text
    /// is malformed.
    pub fn parse(text: &str) -> (instant: Option<Timestamp>)
        ensures
            instant == Timestamp::spec_parse(text@),
    {
        match parse_instant(text) {
            Some((secs, nanos)) => Some(Timestamp { secs, nanos }),
            None => None,
        }
    }
}

/// A text under which an instant is stored reads back as that instant.
pub proof fn lemma_canonical_reads_back(at: Timestamp)
    ensures
        at.spec_canonical() matches Some(text) ==> Timestamp::spec_parse(text) == Some(at),
{
}

} // verus!
