use vstd::prelude::*;

verus! {

/// An error from converting to an [`NtTime`].
#[derive(Debug, Clone, Copy, PartialEq, Eq, Structural)]
pub enum NtTimeError {
    /// The moment lies before the epoch.
    Negative,
    /// The moment does not fit in the file-time range.
    Overflow,
}

/// A Windows file time: hundred-nanosecond intervals since the year 1601,
/// as the archive format stores timestamps.
#[derive(Debug, Clone, Copy, PartialEq, Eq, Structural)]
pub struct NtTime(pub u64);

impl NtTime {
    /// File-time ticks per second.
    pub const FILE_TIMES_PER_SEC: u64 = 10000000;

    /// Creates a new [`NtTime`] with the given raw file time.
    pub fn new(ft: u64) -> (r: NtTime)
        ensures
            r.0 == ft,
    {
        NtTime(ft)
    }

    /// The raw file time.
    pub fn raw(&self) -> (r: u64)
        ensures
            r == self.0,
    {
        self.0
    }

    /// The current system time as an [`NtTime`]. The clock decides the
    /// value; nothing is promised of it.
    pub fn now() -> NtTime
    {
        NtTime(now_filetime())
    }

    /// Converts hundred-nanosecond ticks since the Unix epoch to a file
    /// time, saturating at the representable maximum.
    pub fn from_unix_ticks(ticks: u64) -> (r: NtTime)
        ensures
            ticks + 116444736000000000 <= u64::MAX ==> r.0 == ticks + 116444736000000000,
            ticks + 116444736000000000 > u64::MAX ==> r.0 == u64::MAX,
    {
        if ticks <= u64::MAX - 116444736000000000 {
            NtTime(ticks + 116444736000000000)
        } else {
            NtTime(u64::MAX)
        }
    }
}

/// Relies on std::time::SystemTime::now and its distance from the Unix
/// epoch; the result depends on the clock, so nothing is promised of it.
#[verifier::external_body]
fn now_filetime() -> u64
{
    match std::time::SystemTime::now().duration_since(std::time::SystemTime::UNIX_EPOCH) {
        Ok(d) => {
            let ticks = d.as_nanos() / 100;
            let ticks64 = if ticks > u64::MAX as u128 {
                u64::MAX
            } else {
                ticks as u64
            };
            ticks64.saturating_add(134774u64 * 86400 * 10000000)
        },
        Err(_) => 0,
    }
}

} // verus!
