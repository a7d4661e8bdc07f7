use vstd::prelude::*;

verus! {

/// An instant on the UTC time line, as whole seconds since the Unix epoch
/// (negative before it).
#[derive(Clone, Copy, Debug, PartialEq, Eq, Structural)]
pub struct Timestamp {
    pub seconds: i64,
}

impl Timestamp {
    /// The instant `seconds` seconds after the Unix epoch.
    pub fn from_seconds(seconds: i64) -> (r: Timestamp)
        ensures
            r.seconds == seconds,
    {
        Timestamp { seconds }
    }

    /// Seconds between the Unix epoch and this instant.
    pub fn as_seconds(&self) -> (r: i64)
        ensures
            r == self.seconds,
    {
        self.seconds
    }
}

} // verus!
