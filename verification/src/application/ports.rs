//! What the application layer asks of the outside world.
use vstd::prelude::*;

use crate::domain::printer::{PublishedPrinter, PublishedPrinterView};
use crate::domain::TimestampMs;

verus! {

/// A print queue to be set up in the operating system.
#[derive(Debug, PartialEq, Eq)]
pub struct SystemQueueSpec {
    pub queue_name: String,
    pub ipp_uri: String,
    pub printer: PublishedPrinter,
}

pub struct SystemQueueSpecView {
    pub queue_name: Seq<char>,
    pub ipp_uri: Seq<char>,
    pub printer: PublishedPrinterView,
}

impl View for SystemQueueSpec {
    type V = SystemQueueSpecView;

    open spec fn view(&self) -> SystemQueueSpecView {
        SystemQueueSpecView {
            queue_name: self.queue_name@,
            ipp_uri: self.ipp_uri@,
            printer: self.printer@,
        }
    }
}

impl Clone for SystemQueueSpec {
    fn clone(&self) -> (r: Self)
        ensures
            r@ == self@,
    {
        SystemQueueSpec {
            queue_name: self.queue_name.clone(),
            ipp_uri: self.ipp_uri.clone(),
            printer: self.printer.clone(),
        }
    }
}

/// What the spooler of the operating system says of a job.
#[derive(Debug, Clone, Copy, PartialEq, Eq, Structural)]
pub enum NativeJobStatus {
    Queued,
    Printing,
    Completed,
    Held,
    Cancelled,
    Failed,
    Unknown,
}

/// A source of timestamps.
pub trait Clock: Send + Sync {
    /// The current time.
    fn now_ms(&self) -> TimestampMs;
}

/// The clock of this machine.
#[derive(Debug, Default)]
pub struct SystemClock;

impl Clock for SystemClock {
    fn now_ms(&self) -> TimestampMs {
        unix_timestamp_ms()
    }
}

/// `SystemTime::now` and `duration_since`: the milliseconds since the Unix
/// epoch, or `None` where the clock stands before it. Nothing is claimed of a
/// reading of the clock.
#[verifier::external_body]
fn epoch_millis() -> Option<u128> {
    let now = std::time::SystemTime::now();
    now.duration_since(std::time::UNIX_EPOCH).ok().map(|elapsed| elapsed.as_millis())
}

/// The milliseconds of a reading of the clock; before the epoch there are
/// none.
pub fn millis_or_zero(reading: Option<u128>) -> (r: u128)
    ensures
        r == match reading {
            Some(millis) => millis,
            None => 0,
        },
{
    match reading {
        Some(millis) => millis,
        None => 0,
    }
}

/// `millis` reduced to 64 bits, read as a signed number.
pub open spec fn wrapped(millis: u128) -> int {
    let low = millis as int % 0x1_0000_0000_0000_0000;
    if low < 0x8000_0000_0000_0000 {
        low
    } else {
        low - 0x1_0000_0000_0000_0000
    }
}

/// `millis` as a timestamp; a number that does not fit wraps around.
pub fn wrapped_ms(millis: u128) -> (r: TimestampMs)
    ensures
        r == wrapped(millis),
        millis <= i64::MAX ==> r == millis,
{
    let low: u128 = millis % 0x1_0000_0000_0000_0000;
    if low < 0x8000_0000_0000_0000 {
        low as i64
    } else {
        (low as i128 - 0x1_0000_0000_0000_0000) as i64
    }
}

/// `millis`, but no more than the largest timestamp.
pub open spec fn clamped(millis: u128) -> int {
    if millis <= i64::MAX {
        millis as int
    } else {
        i64::MAX as int
    }
}

/// `millis` as a timestamp; a number that does not fit becomes the largest.
pub fn clamped_ms(millis: u128) -> (r: TimestampMs)
    ensures
        r == clamped(millis),
{
    if millis <= 0x7fff_ffff_ffff_ffff {
        millis as i64
    } else {
        i64::MAX
    }
}

/// The current time. Where the milliseconds since the epoch do not fit, they
/// wrap around.
pub fn unix_timestamp_ms() -> TimestampMs {
    wrapped_ms(millis_or_zero(epoch_millis()))
}

/// The current time, at most the largest timestamp.
pub fn unix_time_ms() -> (r: TimestampMs)
    ensures
        r >= 0,
{
    clamped_ms(millis_or_zero(epoch_millis()))
}

} // verus!
