use vstd::prelude::*;

verus! {

/// An instant in UTC: whole seconds since the Unix epoch and the nanoseconds
/// past that second. During a leap second `nanos` may reach up to
/// 1_999_999_999, as in the calendar representation the backend stores.
#[derive(Clone, Copy, Debug, PartialEq, Eq, Structural)]
pub struct Timestamp {
    pub secs: i64,
    pub nanos: u32,
}

impl Timestamp {
    /// `self` lies strictly before `other` (lexicographic on seconds, then nanoseconds).
    pub open spec fn precedes(self, other: Timestamp) -> bool {
        self.secs < other.secs || (self.secs == other.secs && self.nanos < other.nanos)
    }

    /// Strict "earlier than" on instants.
    pub fn is_before(&self, other: &Timestamp) -> (r: bool)
        ensures
            r == self.precedes(*other),
    {
        self.secs < other.secs || (self.secs == other.secs && self.nanos < other.nanos)
    }
}

/// The current wall-clock instant: `std::time::SystemTime::now()` converted by
/// chrono's `From<SystemTime> for DateTime<Utc>`, read back as seconds and
/// nanoseconds.
///
/// Trusted: chrono's conversion maps a clock before 1970 to negative seconds
/// and always leaves a sub-second part below one second (it takes it from a
/// `Duration`, or as one second minus one). Which instant comes back is not
/// stated: it depends on the clock. The conversion fails only for a clock
/// outside chrono's calendar range (beyond about 262,000 years from now).
#[verifier::external_body]
pub(crate) fn current_time() -> (t: Timestamp)
    ensures
        t.nanos < 1_000_000_000,
{
    let now = chrono::DateTime::<chrono::Utc>::from(std::time::SystemTime::now());
    Timestamp { secs: now.timestamp(), nanos: now.timestamp_subsec_nanos() }
}

} // verus!
