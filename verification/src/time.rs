//! Points in time as the library sees them: milliseconds since the Unix epoch,
//! together with the calendar text that the prompts show for them.

use vstd::prelude::*;

verus! {

/// Whether serenity's `Timestamp::from_millis` accepts `millis`: chrono's calendar range,
/// from -262143-01-01 00:00:00.000 to 262142-12-31 23:59:59.999 UTC.
pub open spec fn utc_millis_valid(millis: int) -> bool {
    -8334601228800000 <= millis && millis <= 8210266876799999
}

/// The text that chrono's `format("%Y-%m-%d %H:%M:%S")` writes for the UTC instant
/// `millis` milliseconds after the Unix epoch, such as `2016-04-30 11:18:25`.
pub uninterp spec fn utc_datetime_text(millis: int) -> Seq<char>;

/// Calls serenity's `Timestamp::from_millis` and, where it succeeds, renders the instant
/// with chrono's `DateTime::format` using the pattern `%Y-%m-%d %H:%M:%S`.
/// Claims: the result is present exactly when `from_millis` accepts the value, and it is
/// then the formatted text; both depend on `millis` alone.
#[verifier::external_body]
fn format_utc_millis(millis: i64) -> (r: Option<String>)
    ensures
        r is Some <==> utc_millis_valid(millis as int),
        r matches Some(s) ==> s@ == utc_datetime_text(millis as int),
{
    match serenity::model::Timestamp::from_millis(millis) {
        Ok(t) => Some(t.format("%Y-%m-%d %H:%M:%S").to_string()),
        Err(_) => None,
    }
}

/// A valid instant, with its calendar text: whole milliseconds since the Unix epoch and
/// the nanoseconds past the last whole millisecond.
pub struct MessageTime {
    millis: i64,
    sub_millis_nanos: u32,
    text: String,
}

impl MessageTime {
    #[verifier::type_invariant]
    spec fn wf(self) -> bool {
        &&& utc_millis_valid(self.millis as int)
        &&& self.sub_millis_nanos < 1_000_000
        &&& self.text@ == utc_datetime_text(self.millis as int)
    }

    /// Milliseconds since the Unix epoch.
    pub closed spec fn spec_millis(&self) -> int {
        self.millis as int
    }

    /// Nanoseconds since the Unix epoch: the full precision by which instants are ordered.
    pub closed spec fn spec_instant(&self) -> int {
        self.millis as int * 1_000_000 + self.sub_millis_nanos as int
    }

    /// The instant `millis` milliseconds after the Unix epoch; `None` where the calendar
    /// cannot represent it.
    pub fn from_millis(millis: i64) -> (r: Option<MessageTime>)
        ensures
            r is Some <==> utc_millis_valid(millis as int),
            r matches Some(t) ==> t.spec_millis() == millis as int && t.spec_instant() == millis
                as int * 1_000_000,
    {
        MessageTime::from_parts(millis, 0)
    }

    /// The instant `sub_millis_nanos` nanoseconds after the instant `millis` milliseconds
    /// after the Unix epoch; `None` where the calendar cannot represent it or where
    /// `sub_millis_nanos` is not below one million.
    pub fn from_parts(millis: i64, sub_millis_nanos: u32) -> (r: Option<MessageTime>)
        ensures
            r is Some <==> (utc_millis_valid(millis as int) && sub_millis_nanos < 1_000_000),
            r matches Some(t) ==> t.spec_millis() == millis as int && t.spec_instant() == millis
                as int * 1_000_000 + sub_millis_nanos as int,
    {
        if sub_millis_nanos >= 1_000_000 {
            return None;
        }
        match format_utc_millis(millis) {
            Some(text) => Some(MessageTime { millis, sub_millis_nanos, text }),
            None => None,
        }
    }

    /// Whether this instant comes after `other`, or is the same.
    pub fn not_before(&self, other: &MessageTime) -> (r: bool)
        ensures
            r == (self.spec_instant() >= other.spec_instant()),
    {
        proof {
            use_type_invariant(self);
            use_type_invariant(other);
        }
        self.millis > other.millis || (self.millis == other.millis && self.sub_millis_nanos
            >= other.sub_millis_nanos)
    }

    /// Nanoseconds past the last whole millisecond.
    pub fn sub_millis_nanos(&self) -> (r: u32)
        ensures
            r as int == self.spec_instant() - self.spec_millis() * 1_000_000,
    {
        self.sub_millis_nanos
    }

    /// Milliseconds since the Unix epoch.
    pub fn millis(&self) -> (r: i64)
        ensures
            r as int == self.spec_millis(),
    {
        self.millis
    }

    /// The calendar text of this instant, `YYYY-MM-DD hh:mm:ss` in UTC.
    pub fn text(&self) -> (r: String)
        ensures
            r@ == utc_datetime_text(self.spec_millis()),
            utc_millis_valid(self.spec_millis()),
    {
        proof {
            use_type_invariant(self);
        }
        self.text.clone()
    }

    /// A copy of this instant.
    pub fn duplicate(&self) -> (r: MessageTime)
        ensures
            r.spec_millis() == self.spec_millis(),
            r.spec_instant() == self.spec_instant(),
    {
        proof {
            use_type_invariant(self);
        }
        MessageTime {
            millis: self.millis,
            sub_millis_nanos: self.sub_millis_nanos,
            text: self.text.clone(),
        }
    }
}

} // verus!
