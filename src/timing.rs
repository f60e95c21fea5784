use vstd::prelude::*;

use crate::clock::{clock_parses, clock_seconds, parse_clock};
use crate::music::AMusicTimeInfo;

verus! {

/// The scrubber's range as the player reports it, each value rounded to whole seconds.
#[derive(Debug, Clone, Copy, PartialEq, Eq, Structural)]
pub struct SliderReading {
    pub minimum: i32,
    pub maximum: i32,
    pub value: i32,
}

/// The text of a label that may be absent.
pub open spec fn label_view(label: Option<&str>) -> Option<Seq<char>> {
    match label {
        Some(t) => Some(t@),
        None => None,
    }
}

/// Seconds a time label contributes: its clock value, or 0 when it is absent or malformed.
pub open spec fn label_seconds(label: Option<Seq<char>>) -> int {
    match label {
        Some(t) => if clock_parses(t) {
            clock_seconds(t)
        } else {
            0
        },
        None => 0,
    }
}

/// Current time, remaining time and total, from the two label values and the scrubber.
/// The total is the sum of the label values; the scrubber then fills in only what is still 0.
pub open spec fn time_values(current: int, remaining: int, slider: Option<SliderReading>) -> (
    int,
    int,
    int,
) {
    let total = current + remaining;
    match slider {
        None => (current, remaining, total),
        Some(s) => {
            let c = if current == 0 {
                s.value as int
            } else {
                current
            };
            let r = if remaining == 0 {
                s.maximum - c
            } else {
                remaining
            };
            let t = if total == 0 {
                c + r
            } else {
                total
            };
            (c, r, t)
        },
    }
}

pub open spec fn fits_i32(x: int) -> bool {
    i32::MIN <= x <= i32::MAX
}

/// The scrubber fills in exactly one of the two label values, and the sum of the labels, kept
/// as the total, then differs from the new current plus remaining time.
pub open spec fn fallback_splits_total(
    current: int,
    remaining: int,
    slider: Option<SliderReading>,
) -> bool {
    match slider {
        None => false,
        Some(s) => (current == 0 && remaining != 0 && s.value != 0) || (current != 0 && remaining
            == 0 && s.maximum != current),
    }
}

fn label_value(label: Option<&str>) -> (r: i64)
    ensures
        r == label_seconds(label_view(label)),
        0 <= r <= i32::MAX,
{
    match label {
        None => 0,
        Some(t) => match parse_clock(t) {
            Ok(v) => {
                proof {
                    crate::clock::lemma_clock_seconds_nonneg(t@);
                }
                v as i64
            },
            Err(_) => 0,
        },
    }
}

/// Playback times from the current-time label, the duration label and the scrubber.
/// A label that is absent or malformed counts as 0. The reported duration is the total.
/// `None` only where a value does not fit in an `i32`.
pub fn time_from_readings(
    current: Option<&str>,
    duration: Option<&str>,
    slider: Option<SliderReading>,
) -> (r: Option<AMusicTimeInfo>)
    ensures
        ({
            let (c, rem, t) = time_values(
                label_seconds(label_view(current)),
                label_seconds(label_view(duration)),
                slider,
            );
            &&& r is Some <==> fits_i32(c) && fits_i32(rem) && fits_i32(t)
            &&& r is Some ==> {
                &&& r->0.current_time == c
                &&& r->0.remaining_duration == rem
                &&& r->0.total == t
                &&& r->0.duration == t
            }
        }),
        r is Some && !fallback_splits_total(
            label_seconds(label_view(current)),
            label_seconds(label_view(duration)),
            slider,
        ) ==> r->0.total == r->0.current_time + r->0.remaining_duration,
        r is Some && label_seconds(label_view(current)) != 0 ==> r->0.current_time == label_seconds(
            label_view(current),
        ),
        r is Some && label_seconds(label_view(duration)) != 0 ==> r->0.remaining_duration
            == label_seconds(label_view(duration)),
{
    let c0 = label_value(current);
    let r0 = label_value(duration);
    let total0 = c0 + r0;
    let mut c = c0;
    let mut rem = r0;
    let mut t = total0;
    if let Some(s) = slider {
        if c == 0 {
            c = s.value as i64;
        }
        if rem == 0 {
            rem = s.maximum as i64 - c;
        }
        if t == 0 {
            t = c + rem;
        }
    }
    if c < i32::MIN as i64 || c > i32::MAX as i64 || rem < i32::MIN as i64 || rem > i32::MAX as i64
        || t < i32::MIN as i64 || t > i32::MAX as i64 {
        return None;
    }
    Some(
        AMusicTimeInfo {
            duration: t as i32,
            remaining_duration: rem as i32,
            current_time: c as i32,
            total: t as i32,
        },
    )
}

} // verus!
