//! Until when a session lasts, in words.

use std::fmt::Write;
use vstd::prelude::*;

use crate::app::data::LocalTime;
use crate::app::{AppModel, ArcTrackerSyncApp};
use crate::text::opt_view;

verus! {

/// A time in words: what `chrono` makes of it by a pattern, at an offset from
/// universal time.
pub uninterp spec fn time_text(seconds: i64, offset: i32, pattern: Seq<char>) -> Option<Seq<char>>;

/// `chrono::DateTime::format` puts a time into words by a pattern; the time is
/// made by `DateTime::from_timestamp` and shifted by `FixedOffset::east_opt`.
/// The words are named by `time_text`. There are none for an offset of a day
/// or more; there are some for every other offset and every time within some
/// quarter of a million years of the epoch.
#[verifier::external_body]
fn format_time(seconds: i64, offset: i32, pattern: &str) -> (r: Option<String>)
    requires
        pattern@ == "%b %-d, %H:%M"@ || pattern@ == "%Y-%m-%d %H:%M:%S"@,
    ensures
        opt_view(r) == time_text(seconds, offset, pattern@),
        r is Some ==> -86_400 < offset < 86_400,
        -86_400 < offset < 86_400 && -8_000_000_000_000 <= seconds <= 8_000_000_000_000
            ==> r is Some,
{
    let east = chrono::FixedOffset::east_opt(offset)?;
    let time = chrono::DateTime::from_timestamp(seconds, 0)?;
    let mut text = String::new();
    write!(text, "{}", time.with_timezone(&east).format(pattern)).ok()?;
    Some(text)
}

/// The time can be put into words: its offset is under a day, and it lies
/// within some quarter of a million years of the epoch.
pub open spec fn tellable(time: LocalTime) -> bool {
    -86_400 < time.offset < 86_400 && -8_000_000_000_000 <= time.seconds <= 8_000_000_000_000
}

/// The expiry lies more than two minutes ahead.
pub open spec fn lasts(exp: LocalTime, now: LocalTime) -> bool {
    exp.seconds > now.seconds + 120 || (exp.seconds == now.seconds + 120 && exp.nanos > now.nanos)
}

/// Whether an expiry is worth showing: it lies more than two minutes ahead. A
/// nearer one is that of a token about to be replaced.
pub fn is_lasting(exp: LocalTime, now: LocalTime) -> (r: bool)
    ensures
        r == lasts(exp, now),
{
    let limit: i128 = now.seconds as i128 + 120;
    exp.seconds as i128 > limit || (exp.seconds as i128 == limit && exp.nanos > now.nanos)
}

/// When a session expires, always with the date: a session lasts exactly one
/// day, so the bare time of day would read as the moment it began.
pub fn expiry_label(exp: LocalTime, now: LocalTime) -> (r: Option<String>)
    ensures
        opt_view(r) == (if lasts(exp, now) {
            time_text(exp.seconds, exp.offset, "%b %-d, %H:%M"@)
        } else {
            None
        }),
        lasts(exp, now) && tellable(exp) ==> r is Some,
{
    if is_lasting(exp, now) {
        format_time(exp.seconds, exp.offset, "%b %-d, %H:%M")
    } else {
        None
    }
}

/// When a token expires, to the second.
pub fn full_time(time: LocalTime) -> (r: Option<String>)
    ensures
        opt_view(r) == time_text(time.seconds, time.offset, "%Y-%m-%d %H:%M:%S"@),
        tellable(time) ==> r is Some,
{
    format_time(time.seconds, time.offset, "%Y-%m-%d %H:%M:%S")
}

/// The captured session says when it expires, and that can be put into words.
pub open spec fn tellable_expiry(m: AppModel) -> bool {
    m.capture.latest_token is Some && m.capture.latest_token->0.expires_at is Some && tellable(
        m.capture.latest_token->0.expires_at->0,
    )
}

impl ArcTrackerSyncApp {
    /// Until when the captured session lasts, if that is worth showing.
    pub fn session_expiry_label(&self, now: LocalTime) -> (r: Option<String>)
        ensures
            opt_view(r) == (match self@.capture.latest_token {
                Some(token) => match token.expires_at {
                    Some(exp) => if lasts(exp, now) {
                        time_text(exp.seconds, exp.offset, "%b %-d, %H:%M"@)
                    } else {
                        None
                    },
                    None => None,
                },
                None => None,
            }),
            tellable_expiry(self@) && lasts(self@.capture.latest_token->0.expires_at->0, now)
                ==> r is Some,
    {
        match &self.capture.latest_token {
            Some(token) => match token.expires_at {
                Some(exp) => expiry_label(exp, now),
                None => None,
            },
            None => None,
        }
    }
}

} // verus!
