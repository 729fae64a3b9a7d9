//! Release timestamps, and the trusted boundary to the calendar
//! capability.
//!
//! The service writes an episode's release instant as text in the shape
//! `2009-12-12T09:00:00`. The library holds such an instant as its plain
//! calendar components; reading the components out of the text is the
//! `chrono` crate's work, behind one wrapper.

use vstd::prelude::*;

verus! {

/// A calendar instant, as the wire format writes it: year, month, day,
/// hour, minute, second.
#[derive(Clone, Copy, Debug, PartialEq, Eq, Structural)]
pub struct ReleaseTime {
    pub year: i32,
    pub month: u8,
    pub day: u8,
    pub hour: u8,
    pub minute: u8,
    pub second: u8,
}

/// What calendar parsing makes of a piece of text: `None` where it is not
/// a well-formed instant, otherwise its components. The result depends on
/// the text alone.
pub uninterp spec fn datetime_parts(s: Seq<char>) -> Option<(i32, u8, u8, u8, u8, u8)>;

/// Relies on `chrono::NaiveDateTime::parse_from_str` with the fixed
/// format `%Y-%m-%dT%H:%M:%S`, and on its component accessors: parsing
/// accepts exactly the well-formed instants and hands back their
/// components.
#[verifier::external_body]
fn parse_datetime(s: &str) -> (r: Option<(i32, u8, u8, u8, u8, u8)>)
    ensures
        r == datetime_parts(s@),
{
    match chrono::NaiveDateTime::parse_from_str(s, "%Y-%m-%dT%H:%M:%S") {
        Ok(d) => Some(
            (
                chrono::Datelike::year(&d),
                chrono::Datelike::month(&d) as u8,
                chrono::Datelike::day(&d) as u8,
                chrono::Timelike::hour(&d) as u8,
                chrono::Timelike::minute(&d) as u8,
                chrono::Timelike::second(&d) as u8,
            ),
        ),
        Err(_) => None,
    }
}

/// The release instant a piece of text denotes, if it is well formed.
pub open spec fn spec_release_time(s: Seq<char>) -> Option<ReleaseTime> {
    match datetime_parts(s) {
        Some(p) => Some(
            ReleaseTime {
                year: p.0,
                month: p.1,
                day: p.2,
                hour: p.3,
                minute: p.4,
                second: p.5,
            },
        ),
        None => None,
    }
}

impl ReleaseTime {
    /// Reads a release instant from its wire text.
    pub fn parse(s: &str) -> (r: Option<ReleaseTime>)
        ensures
            r == spec_release_time(s@),
    {
        match parse_datetime(s) {
            Some(p) => Some(
                ReleaseTime {
                    year: p.0,
                    month: p.1,
                    day: p.2,
                    hour: p.3,
                    minute: p.4,
                    second: p.5,
                },
            ),
            None => None,
        }
    }
}

} // verus!
