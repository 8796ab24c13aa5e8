use std::fmt::Write;

use chrono::DateTime;
use chrono::Local;
use chrono::Utc;
use vstd::prelude::*;

use crate::context::Context;
use crate::context::LocalOrUTC;
use crate::display_config::DisplayConfig;

verus! {

/// Nanoseconds in a second.
pub const NANOS_PER_SEC: u32 = 1_000_000_000;

/// A point of wall-clock time: whole seconds since the Unix epoch (negative before it) and the
/// nanoseconds past that second.
#[derive(Clone, Copy, Debug, PartialEq, Eq, Structural)]
pub struct WallTime {
    pub secs: i64,
    pub nanos: u32,
}

impl WallTime {
    /// The nanoseconds stay below one second.
    pub open spec fn wf(self) -> bool {
        self.nanos < NANOS_PER_SEC
    }

    /// Nanoseconds since the Unix epoch.
    pub open spec fn total_nanos(self) -> int {
        self.secs * NANOS_PER_SEC + self.nanos
    }
}

/// Whether `n` nanoseconds since the epoch fall in a second that an `i64` can count.
pub open spec fn fits_wall_time(n: int) -> bool {
    i64::MIN <= n / (NANOS_PER_SEC as int) <= i64::MAX
}

/// The wall-clock time of a moment, from a reading `sys_now` of the wall clock and the time
/// `elapsed` (in nanoseconds) from that moment to the reading of the monotonic clock taken with
/// it; `elapsed` is negative for a moment still to come.
///
/// Returns `None` exactly when the result lies beyond the seconds that an `i64` counts.
pub fn to_system_time(sys_now: WallTime, elapsed: i128) -> (r: Option<WallTime>)
    requires
        sys_now.wf(),
    ensures
        r is Some <==> fits_wall_time(sys_now.total_nanos() - elapsed),
        r matches Some(w) ==> w.wf() && w.total_nanos() == sys_now.total_nanos() - elapsed,
{
    let ghost want = sys_now.total_nanos() - elapsed;
    let base: i128 = sys_now.secs as i128 * NANOS_PER_SEC as i128 + sys_now.nanos as i128;
    assert(base == sys_now.total_nanos()) by (nonlinear_arith)
        requires
            base == sys_now.secs as i128 * NANOS_PER_SEC as i128 + sys_now.nanos as i128,
    ;
    let total = match base.checked_sub(elapsed) {
        Some(t) => t,
        None => {
            assert(!fits_wall_time(want)) by (nonlinear_arith)
                requires
                    want < i128::MIN || want > i128::MAX,
            ;
            return None;
        },
    };
    let secs: i128;
    let nanos: u32;
    if total >= 0 {
        let m = total as u128;
        secs = (m / NANOS_PER_SEC as u128) as i128;
        nanos = (m % NANOS_PER_SEC as u128) as u32;
    } else {
        let m: u128 = ((-(total + 1)) as u128) + 1;
        let q = m / NANOS_PER_SEC as u128;
        let rem = m % NANOS_PER_SEC as u128;
        if rem == 0 {
            secs = -(q as i128);
            nanos = 0;
        } else {
            secs = -(q as i128) - 1;
            nanos = (NANOS_PER_SEC as u128 - rem) as u32;
        }
    }
    assert(secs == want / (NANOS_PER_SEC as int) && nanos == want % (NANOS_PER_SEC as int))
        by (nonlinear_arith)
        requires
            total == want,
            total >= 0 ==> secs == (total as int) / 1_000_000_000 && nanos == (total as int)
                % 1_000_000_000,
            total < 0 ==> ({
                let m = -total;
                let q = m / 1_000_000_000;
                let rem = m % 1_000_000_000;
                &&& rem == 0 ==> secs == -q && nanos == 0
                &&& rem != 0 ==> secs == -q - 1 && nanos == 1_000_000_000 - rem
            }),
    ;
    if secs < i64::MIN as i128 || secs > i64::MAX as i128 {
        return None;
    }
    let w = WallTime { secs: secs as i64, nanos };
    assert(w.total_nanos() == want) by (nonlinear_arith)
        requires
            w.secs == want / 1_000_000_000,
            w.nanos == want % 1_000_000_000,
    ;
    Some(w)
}

/// The signed nanoseconds of an offset from the Unix epoch given as its direction, whole
/// seconds and nanoseconds.
pub open spec fn epoch_offset(before_epoch: bool, secs: u64, nanos: u32) -> int {
    if before_epoch {
        -(secs * NANOS_PER_SEC + nanos)
    } else {
        secs * NANOS_PER_SEC + nanos
    }
}

/// The wall-clock time that lies `secs` seconds and `nanos` nanoseconds after the Unix epoch,
/// or before it when `before_epoch` is set; `None` exactly when an `i64` cannot count its
/// second.
pub fn wall_time_from_epoch(before_epoch: bool, secs: u64, nanos: u32) -> (r: Option<WallTime>)
    requires
        nanos < NANOS_PER_SEC,
    ensures
        r is Some <==> fits_wall_time(epoch_offset(before_epoch, secs, nanos)),
        r matches Some(w) ==> w.wf() && w.total_nanos() == epoch_offset(before_epoch, secs, nanos),
{
    assert(secs as i128 * NANOS_PER_SEC as i128 <= u64::MAX * NANOS_PER_SEC) by (nonlinear_arith)
        requires
            secs <= u64::MAX,
    ;
    let offset: i128 = secs as i128 * NANOS_PER_SEC as i128 + nanos as i128;
    assert(offset == secs * NANOS_PER_SEC + nanos && 0 <= offset <= u64::MAX * NANOS_PER_SEC
        + NANOS_PER_SEC) by (nonlinear_arith)
        requires
            offset == secs as i128 * NANOS_PER_SEC as i128 + nanos as i128,
            secs <= u64::MAX,
            nanos < NANOS_PER_SEC,
    ;
    let epoch = WallTime { secs: 0, nanos: 0 };
    if before_epoch {
        to_system_time(epoch, offset)
    } else {
        to_system_time(epoch, -offset)
    }
}

} // verus!

verus! {

/// The text chrono gives for a moment (seconds and nanoseconds since the Unix epoch) in UTC
/// under a strftime pattern; `None` where chrono cannot show it.
pub uninterp spec fn utc_text(secs: int, nanos: int, pattern: Seq<char>) -> Option<Seq<char>>;

/// Relies on chrono's `DateTime::<Utc>::from_timestamp` and `DateTime::format`: the UTC text
/// depends on the moment and the pattern alone. `None` where the moment lies outside chrono's
/// range or the pattern is malformed.
#[verifier::external_body]
fn format_utc(secs: i64, nanos: u32, pattern: &str) -> (r: Option<String>)
    ensures
        r matches Some(s) ==> utc_text(secs as int, nanos as int, pattern@) == Some(s@),
        r is None ==> utc_text(secs as int, nanos as int, pattern@) is None,
{
    let datetime = DateTime::<Utc>::from_timestamp(secs, nanos)?;
    let mut s = String::new();
    match write!(s, "{}", datetime.format(pattern)) {
        Ok(()) => Some(s),
        Err(_) => None,
    }
}

/// The text chrono gives for a moment (seconds and nanoseconds since the Unix epoch) shown at
/// a fixed offset of `offset` seconds east of UTC under a strftime pattern; `None` where chrono
/// cannot show it.
pub uninterp spec fn offset_text(secs: int, nanos: int, offset: int, pattern: Seq<char>) -> Option<
    Seq<char>,
>;

/// Relies on chrono's `DateTime::with_timezone(&Local)` and `DateTime::format`. Which offset
/// applies depends on the time zone of the machine; whatever it is, chrono's local offset is a
/// `FixedOffset` of less than a day either way, and the text is the one chrono gives for the
/// moment at that offset under the pattern.
#[verifier::external_body]
fn format_local(secs: i64, nanos: u32, pattern: &str) -> (r: Option<String>)
    ensures
        r is None || exists|off: int|
            -86_400 < off < 86_400 && (r matches Some(s) && #[trigger] offset_text(
                secs as int,
                nanos as int,
                off,
                pattern@,
            ) == Some(s@)),
        r is None ==> exists|off: int|
            -86_400 < off < 86_400 && #[trigger] offset_text(
                secs as int,
                nanos as int,
                off,
                pattern@,
            ) is None,
{
    let datetime = DateTime::<Utc>::from_timestamp(secs, nanos)?.with_timezone(&Local);
    let mut s = String::new();
    match write!(s, "{}", datetime.format(pattern)) {
        Ok(()) => Some(s),
        Err(_) => None,
    }
}

/// The text of a formatted timestamp, or nothing where it could not be formatted.
pub open spec fn text_or_empty_spec(formatted: Option<Seq<char>>) -> Seq<char> {
    match formatted {
        Some(s) => s,
        None => Seq::empty(),
    }
}

/// Takes the outcome of formatting a timestamp: its text, or the empty string where the
/// moment or the pattern could not be formatted.
pub fn text_or_empty(formatted: Option<String>) -> (r: String)
    ensures
        r@ == text_or_empty_spec(
            match formatted {
                Some(s) => Some(s@),
                None => None,
            },
        ),
{
    match formatted {
        Some(s) => s,
        None => String::new(),
    }
}

/// Displays a point in time; the context picks the time zone and the pattern.
pub struct DisplayInstant {
    pub time: WallTime,
    pub context: Context,
}

impl DisplayInstant {
    /// A displayer of `time` with the default context.
    pub fn new(time: WallTime) -> (r: DisplayInstant)
        ensures
            r.time == time,
            r.context == Context::spec_default(),
    {
        DisplayInstant { time, context: Context::default() }
    }

    /// Renders the time in the zone and with the pattern that the context selects. In UTC the
    /// text is chrono's for that moment and pattern; in local time it is chrono's for that
    /// moment and pattern at the machine's offset, which is less than a day. It is empty where
    /// chrono cannot format the moment with the pattern. No other setting of the context
    /// enters.
    pub fn to_string(&self) -> (r: String)
        ensures
            self.context.clock() == LocalOrUTC::Local ==> exists|off: int|
                -86_400 < off < 86_400 && r@ == text_or_empty_spec(
                    #[trigger] offset_text(
                        self.time.secs as int,
                        self.time.nanos as int,
                        off,
                        self.context.format_pattern(),
                    ),
                ),
            self.context.clock() == LocalOrUTC::Utc ==> r@ == text_or_empty_spec(
                utc_text(
                    self.time.secs as int,
                    self.time.nanos as int,
                    self.context.format_pattern(),
                ),
            ),
    {
        let pattern = self.context.time_format();
        let formatted = if self.context.is_local_time() {
            format_local(self.time.secs, self.time.nanos, pattern)
        } else {
            format_utc(self.time.secs, self.time.nanos, pattern)
        };
        text_or_empty(formatted)
    }
}

impl DisplayConfig for DisplayInstant {
    open spec fn context_of(&self) -> Context {
        self.context
    }

    open spec fn with_context(&self, context: Context) -> Self {
        DisplayInstant { context, ..*self }
    }

    fn context(&self) -> (r: Context) {
        self.context
    }

    fn set_context(&mut self, context: Context) {
        self.context = context;
    }
}

} // verus!
