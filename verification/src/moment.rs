//! A point in time as the caller's clock gave it, and the text by which a
//! snapshot is stamped with it.

use vstd::prelude::*;

verus! {

/// A second of local time: the seconds since the start of 1970 in universal
/// time, and the seconds by which the local time zone is ahead of it then.
#[derive(Clone, Copy, Debug, PartialEq, Eq, Structural)]
pub struct Moment {
    pub seconds: i64,
    pub offset: i32,
}

/// The text that `chrono` renders for the second that lies `seconds` after
/// the start of 1970, as read in a time zone `offset` seconds ahead of
/// universal time, under `pattern`; `None` where it renders nothing.
pub uninterp spec fn spec_rendered(seconds: i64, offset: i32, pattern: Seq<char>) -> Option<
    Seq<char>,
>;

/// Calls `chrono::FixedOffset::east_opt` on `offset`,
/// `chrono::DateTime::from_timestamp` on `seconds`, moves the second into
/// that zone with `DateTime::with_timezone`, and renders it with
/// `DateTime::format` and `DelayedFormat::write_to` under `pattern`.
///
/// Claimed, for the pattern of a stamp: the result depends on the arguments
/// alone, and none of the calls unwinds. The result is absent where the
/// offset is a day or more, or where the second lies outside the years that
/// `chrono` holds.
#[verifier::external_body]
fn render(seconds: i64, offset: i32, pattern: &str) -> (text: Option<String>)
    requires
        pattern@ == spec_stamp_pattern(),
    ensures
        match spec_rendered(seconds, offset, pattern@) {
            Some(rendered) => text matches Some(t) && t@ == rendered,
            None => text is None,
        },
{
    let zone = chrono::FixedOffset::east_opt(offset)?;
    let second = chrono::DateTime::from_timestamp(seconds, 0)?.with_timezone(&zone);
    let mut text = String::new();
    match second.format(pattern).write_to(&mut text) {
        Ok(_) => Some(text),
        Err(_) => None,
    }
}

/// The pattern of a stamp: year, month and day, an underscore, and hour,
/// minute and second, each in digits.
pub open spec fn spec_stamp_pattern() -> Seq<char> {
    "%Y%m%d_%H%M%S"@
}

impl Moment {
    /// The stamp of the moment: its local date and time of day, to the
    /// second.
    pub open spec fn spec_stamp(self) -> Option<Seq<char>> {
        spec_rendered(self.seconds, self.offset, spec_stamp_pattern())
    }

    pub fn stamp(self) -> (stamp: Option<String>)
        ensures
            match self.spec_stamp() {
                Some(rendered) => stamp matches Some(s) && s@ == rendered,
                None => stamp is None,
            },
    {
        render(self.seconds, self.offset, "%Y%m%d_%H%M%S")
    }
}

} // verus!
