use vstd::prelude::*;
use crate::text::{decimal, push_char, push_decimal, push_zero_padded, zero_padded};

verus! {

/// A camera counts as live while its last frame is younger than this many milliseconds.
pub const ACTIVE_THRESHOLD_MS: u64 = 10_000;

/// `now - then`, or zero when `then` lies in the future.
pub open spec fn elapsed_ms(then: u64, now: u64) -> int {
    if now >= then { now - then } else { 0 }
}

/// A camera is active when it has sent at least one frame (a stamp of zero
/// means never) and that frame is younger than `ACTIVE_THRESHOLD_MS`.
pub open spec fn spec_is_active(last_frame_ms: u64, now: u64) -> bool {
    last_frame_ms > 0 && elapsed_ms(last_frame_ms, now) < ACTIVE_THRESHOLD_MS
}

/// Whether a camera whose last frame arrived at `last_frame_ms` is live at `now`.
pub fn is_active(last_frame_ms: u64, now: u64) -> (r: bool)
    ensures
        r == spec_is_active(last_frame_ms, now),
{
    last_frame_ms > 0 && now.saturating_sub(last_frame_ms) < ACTIVE_THRESHOLD_MS
}


/// A point in time of the system clock.
#[verifier::external_type_specification]
#[verifier::external_body]
pub struct ExSystemTime(std::time::SystemTime);

/// `SystemTime::now`: the system clock's reading; nothing is claimed of it.
#[verifier::external_body]
fn system_time_now() -> (r: std::time::SystemTime) {
    std::time::SystemTime::now()
}

/// `SystemTime::duration_since(UNIX_EPOCH)`: the time since 1970-01-01, or
/// `None` when the reading lies before it. Nothing is claimed of the value.
#[verifier::external_body]
fn since_unix_epoch(t: &std::time::SystemTime) -> (r: Option<core::time::Duration>) {
    t.duration_since(std::time::UNIX_EPOCH).ok()
}

/// `Duration::as_secs`: the whole seconds of a duration. The duration is
/// opaque here, so nothing is claimed of the value.
#[verifier::external_body]
fn duration_secs(d: &core::time::Duration) -> (r: u64) {
    d.as_secs()
}

/// `Duration::subsec_nanos`: the nanoseconds of a duration's fraction of a
/// second, which are always fewer than one billion.
#[verifier::external_body]
fn duration_subsec_nanos(d: &core::time::Duration) -> (r: u32)
    ensures
        r < 1_000_000_000,
{
    d.subsec_nanos()
}

/// Whole milliseconds of `secs` seconds and `nanos` nanoseconds, in the low
/// 64 bits (what `as_millis() as u64` gives).
pub open spec fn spec_millis(secs: u64, nanos: u32) -> int {
    (secs * 1000 + nanos / 1_000_000) % 0x1_0000_0000_0000_0000
}

/// Whole milliseconds of a duration given as seconds and nanoseconds,
/// truncated, in the low 64 bits.
pub fn millis(secs: u64, nanos: u32) -> (r: u64)
    ensures
        r == spec_millis(secs, nanos),
{
    let total: u128 = (secs as u128) * 1000 + ((nanos / 1_000_000) as u128);
    let r: u64 = total as u64;
    assert(r == total % 0x1_0000_0000_0000_0000) by (bit_vector)
        requires
            r == total as u64,
    ;
    r
}

/// The clock's reading in milliseconds, given the time since the epoch as
/// whole seconds and nanoseconds, or `None` for a reading before the epoch,
/// which reads as zero.
pub fn epoch_millis(since_epoch: Option<(u64, u32)>) -> (r: u64)
    ensures
        r == match since_epoch {
            Some((secs, nanos)) => spec_millis(secs, nanos),
            None => 0,
        },
{
    match since_epoch {
        Some((secs, nanos)) => millis(secs, nanos),
        None => 0,
    }
}

/// Milliseconds since the Unix epoch by the system clock (the low 64 bits);
/// a clock set before 1970 reads as zero.
pub fn now_ms() -> (r: u64) {
    let now = system_time_now();
    let since_epoch = match since_unix_epoch(&now) {
        Some(d) => Some((duration_secs(&d), duration_subsec_nanos(&d))),
        None => None,
    };
    epoch_millis(since_epoch)
}

/// A local date and time of day, as the clock gives them.
pub struct Timestamp {
    pub year: u32,
    /// 1 to 12.
    pub month: u8,
    /// 1 to 31.
    pub day: u8,
    pub hour: u8,
    pub minute: u8,
    pub second: u8,
}

/// A year as `%Y` writes it: four digits, zero-padded, up to 9999; larger
/// years with a plus sign.
pub open spec fn year_text(y: u32) -> Seq<char> {
    if y < 10000 { zero_padded(y as nat, 4) } else { seq!['+'] + decimal(y as nat) }
}

/// Two digits, zero-padded (`%d`, `%m`, `%H`, `%M`, `%S`).
pub open spec fn two_digits(v: u8) -> Seq<char> {
    zero_padded(v as nat, 2)
}

/// The date part of a session name: `DD-MM-YYYY` (`%d-%m-%Y`).
pub open spec fn spec_date_part(t: Timestamp) -> Seq<char> {
    two_digits(t.day) + "-"@ + two_digits(t.month) + "-"@ + year_text(t.year)
}

/// The time part of a session name: `HH-MM-SS` (`%H-%M-%S`).
pub open spec fn spec_time_part(t: Timestamp) -> Seq<char> {
    two_digits(t.hour) + "-"@ + two_digits(t.minute) + "-"@ + two_digits(t.second)
}

/// The date part of a session name for `t`.
pub fn date_part(t: &Timestamp) -> (r: String)
    ensures
        r@ == spec_date_part(*t),
{
    let mut r = String::new();
    push_zero_padded(&mut r, t.day as u64, 2);
    r.append("-");
    push_zero_padded(&mut r, t.month as u64, 2);
    r.append("-");
    if t.year < 10000 {
        push_zero_padded(&mut r, t.year as u64, 4);
    } else {
        push_char(&mut r, '+');
        push_decimal(&mut r, t.year as u64);
    }
    assert(r@ =~= spec_date_part(*t));
    r
}

/// The time part of a session name for `t`.
pub fn time_part(t: &Timestamp) -> (r: String)
    ensures
        r@ == spec_time_part(*t),
{
    let mut r = String::new();
    push_zero_padded(&mut r, t.hour as u64, 2);
    r.append("-");
    push_zero_padded(&mut r, t.minute as u64, 2);
    r.append("-");
    push_zero_padded(&mut r, t.second as u64, 2);
    assert(r@ =~= spec_time_part(*t));
    r
}

/// The name of a session that starts at `t`: `DATE_TIME`.
pub open spec fn spec_session_name(t: Timestamp) -> Seq<char> {
    spec_date_part(t) + "_"@ + spec_time_part(t)
}

/// The name of a motion session that starts at `t`.
pub fn session_name(t: &Timestamp) -> (r: String)
    ensures
        r@ == spec_session_name(*t),
{
    let mut r = date_part(t);
    r.append("_");
    let time = time_part(t);
    r.append(time.as_str());
    r
}

} // verus!
