//! The `xsd:dateTime` leaf codec.
//!
//! A value is a zone-aware point in time: an instant in nanoseconds since
//! the Unix epoch together with a UTC offset in seconds, plus the RFC 3339
//! text those two render as. Parsing and formatting are supplied by the
//! `time` crate and are relied upon, not verified: both are functions of
//! their plain-value arguments alone, so each is given a name that the
//! contracts here speak of. The codec keeps the rendered text alongside
//! the instant so that re-encoding never fails.

use vstd::prelude::*;

verus! {

/// The instant and offset that RFC 3339 text denotes, if it parses.
pub uninterp spec fn rfc3339_instant(s: Seq<char>) -> Option<(i128, i32)>;

/// The RFC 3339 text of an instant at an offset, if it can be rendered.
pub uninterp spec fn rfc3339_text(nanos: i128, offset_seconds: i32) -> Option<Seq<char>>;

/// Relies on `time::OffsetDateTime::parse` with the RFC 3339 format:
/// the result depends on the text alone, and is returned as the plain
/// instant and offset.
#[verifier::external_body]
fn parse_rfc3339_raw(s: &str) -> (r: Option<(i128, i32)>)
    ensures
        r == rfc3339_instant(s@),
{
    match time::OffsetDateTime::parse(s, &time::format_description::well_known::Rfc3339) {
        Ok(d) => Some((d.unix_timestamp_nanos(), d.offset().whole_seconds())),
        Err(_) => None,
    }
}

/// Relies on `time::OffsetDateTime::format` with the RFC 3339 format:
/// the result depends on the instant and offset alone.
#[verifier::external_body]
fn format_rfc3339_raw(nanos: i128, offset_seconds: i32) -> (r: Option<String>)
    ensures
        match r {
            Some(t) => rfc3339_text(nanos, offset_seconds) == Some(t@),
            None => rfc3339_text(nanos, offset_seconds) is None,
        },
{
    let offset = match time::UtcOffset::from_whole_seconds(offset_seconds) {
        Ok(o) => o,
        Err(_) => return None,
    };
    let instant = match time::OffsetDateTime::from_unix_timestamp_nanos(nanos) {
        Ok(d) => d,
        Err(_) => return None,
    };
    let shifted = match instant.checked_to_offset(offset) {
        Some(d) => d,
        None => return None,
    };
    shifted.format(&time::format_description::well_known::Rfc3339).ok()
}

/// A zone-aware point in time, with its RFC 3339 rendering.
#[derive(Clone, Debug)]
pub struct XsdDateTime {
    /// Nanoseconds since the Unix epoch.
    pub nanos: i128,
    /// The UTC offset, in seconds.
    pub offset_seconds: i32,
    /// The RFC 3339 text of this instant at this offset.
    pub text: String,
}

/// The error produced when timestamp text cannot be parsed, or an
/// instant cannot be rendered.
#[derive(Clone, Copy, Debug, PartialEq, Eq, Structural)]
pub struct XsdDateTimeError;

impl XsdDateTime {
    /// The stored text is the rendering of the stored instant and offset.
    pub open spec fn wf(self) -> bool {
        rfc3339_text(self.nanos, self.offset_seconds) == Some(self.text@)
    }

    /// A value at `nanos` since the epoch, displayed at `offset_seconds`.
    /// Fails exactly when that point cannot be rendered as RFC 3339.
    pub fn new(nanos: i128, offset_seconds: i32) -> (r: Result<XsdDateTime, XsdDateTimeError>)
        ensures
            match r {
                Ok(d) => d.nanos == nanos && d.offset_seconds == offset_seconds && d.wf(),
                Err(_) => rfc3339_text(nanos, offset_seconds) is None,
            },
    {
        match format_rfc3339_raw(nanos, offset_seconds) {
            Some(text) => Ok(XsdDateTime { nanos, offset_seconds, text }),
            None => Err(XsdDateTimeError),
        }
    }

    /// Parses RFC 3339 text. Fails exactly when the text does not parse,
    /// or denotes a point that cannot be rendered back.
    pub fn parse(s: &str) -> (r: Result<XsdDateTime, XsdDateTimeError>)
        ensures
            match r {
                Ok(d) => rfc3339_instant(s@) == Some((d.nanos, d.offset_seconds)) && d.wf(),
                Err(_) => match rfc3339_instant(s@) {
                    Some(p) => rfc3339_text(p.0, p.1) is None,
                    None => true,
                },
            },
    {
        match parse_rfc3339_raw(s) {
            Some(p) => XsdDateTime::new(p.0, p.1),
            None => Err(XsdDateTimeError),
        }
    }

    /// The instant, in nanoseconds since the Unix epoch.
    pub fn unix_timestamp_nanos(&self) -> (r: i128)
        ensures
            r == self.nanos,
    {
        self.nanos
    }

    /// The UTC offset, in seconds.
    pub fn utc_offset_seconds(&self) -> (r: i32)
        ensures
            r == self.offset_seconds,
    {
        self.offset_seconds
    }

    /// The RFC 3339 text of this value.
    pub fn format(&self) -> (r: String)
        ensures
            r@ == self.text@,
    {
        self.text.clone()
    }
}

} // verus!
