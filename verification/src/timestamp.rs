use vstd::prelude::*;

verus! {

/// A date and time without time zone, as the database stores it: seconds and
/// nanoseconds counted from 1970-01-01T00:00:00 on the same wall clock.
#[derive(Debug, Clone, Copy, PartialEq, Eq)]
pub struct NaiveTimestamp {
    pub secs: i64,
    pub nanos: u32,
}

/// An instant in UTC: seconds and nanoseconds since the Unix epoch.
#[derive(Debug, Clone, Copy, PartialEq, Eq)]
pub struct UtcTimestamp {
    pub secs: i64,
    pub nanos: u32,
}

impl NaiveTimestamp {
    /// The wall-clock time read as a time in UTC: the same seconds and
    /// nanoseconds, now anchored to the UTC time zone.
    pub open spec fn spec_and_utc(self) -> UtcTimestamp {
        UtcTimestamp { secs: self.secs, nanos: self.nanos }
    }

    pub fn and_utc(self) -> (r: UtcTimestamp)
        ensures
            r.secs == self.secs,
            r.nanos == self.nanos,
            r == self.spec_and_utc(),
    {
        UtcTimestamp { secs: self.secs, nanos: self.nanos }
    }
}

/// An optional wall-clock time read as a time in UTC.
pub open spec fn opt_and_utc(o: Option<NaiveTimestamp>) -> Option<UtcTimestamp> {
    match o {
        Some(t) => Some(t.spec_and_utc()),
        None => None,
    }
}

/// Reading a wall-clock time in UTC keeps the instant: the same seconds and
/// the same nanoseconds, for every time.
pub proof fn lemma_and_utc_keeps_instant(t: NaiveTimestamp)
    ensures
        t.spec_and_utc().secs == t.secs,
        t.spec_and_utc().nanos == t.nanos,
{
}

/// Reading an optional wall-clock time in UTC keeps its presence and its
/// instant: a time gives a time with the same seconds and nanoseconds, no
/// time gives no time.
pub proof fn lemma_opt_and_utc_keeps_presence_and_instant(o: Option<NaiveTimestamp>)
    ensures
        o matches Some(t) ==> (opt_and_utc(o) matches Some(u) && u.secs == t.secs && u.nanos
            == t.nanos),
        o is None ==> opt_and_utc(o) is None,
{
}

/// Reads an optional wall-clock time as a time in UTC.
pub fn opt_to_utc(o: Option<NaiveTimestamp>) -> (r: Option<UtcTimestamp>)
    ensures
        match o {
            Some(t) => r matches Some(u) && u.secs == t.secs && u.nanos == t.nanos,
            None => r is None,
        },
        r == opt_and_utc(o),
{
    match o {
        Some(t) => Some(t.and_utc()),
        None => None,
    }
}

} // verus!
