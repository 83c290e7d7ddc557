//! The numbers and texts on the page of an experiment: how far it has
//! come, how long a run takes, and how long it will still take.

use crate::text::{int_text, push_i64};
use crate::time::Timestamp;
use vstd::prelude::*;

verus! {

/// A length of time as people read it: seconds below a minute, minutes
/// and seconds below an hour, hours and minutes below a day, days and
/// hours from then on.
pub open spec fn spec_format_duration(seconds: int) -> Seq<char> {
    if seconds < 60 {
        int_text(seconds) + "s"@
    } else if seconds < 3600 {
        int_text(seconds / 60) + "m "@ + int_text(seconds % 60) + "s"@
    } else if seconds < 86400 {
        int_text(seconds / 3600) + "h "@ + int_text((seconds % 3600) / 60) + "m"@
    } else {
        int_text(seconds / 86400) + "d "@ + int_text((seconds % 86400) / 3600) + "h"@
    }
}

/// A length of time as people read it.
pub fn format_duration(seconds: i64) -> (r: String)
    ensures
        r@ == spec_format_duration(seconds as int),
{
    let mut s = String::new();
    if seconds < 60 {
        push_i64(&mut s, seconds);
        s.append("s");
    } else if seconds < 3600 {
        push_i64(&mut s, seconds / 60);
        s.append("m ");
        push_i64(&mut s, seconds % 60);
        s.append("s");
    } else if seconds < 86400 {
        push_i64(&mut s, seconds / 3600);
        s.append("h ");
        push_i64(&mut s, (seconds % 3600) / 60);
        s.append("m");
    } else {
        push_i64(&mut s, seconds / 86400);
        s.append("d ");
        push_i64(&mut s, (seconds % 86400) / 3600);
        s.append("h");
    }
    assert(s@ =~= spec_format_duration(seconds as int));
    s
}

/// How far an experiment has come and how long it will still take.
#[derive(Debug, Clone, Copy, PartialEq, Eq, Structural)]
pub struct Estimate {
    /// The part of the runs that is done, in whole percent.
    pub percentage: u64,
    /// The whole seconds that one run has taken on average.
    pub average_task_seconds: Option<i64>,
    /// The whole seconds that the runs still to do will take.
    pub estimated_remaining_seconds: Option<i128>,
}

/// The part of `total` that `completed` is, in whole percent; nothing of
/// nothing is zero percent.
pub open spec fn spec_percentage(completed: int, total: int) -> int {
    if total == 0 {
        0
    } else {
        100 * completed / total
    }
}

/// The whole seconds that one run has taken on average: known once the
/// experiment has started and a run is done.
pub open spec fn spec_average(completed: int, started_at: Option<Timestamp>, now: Timestamp) -> Option<
    int,
> {
    match started_at {
        Some(started) => if completed > 0 {
            let elapsed = now.spec_seconds_since(started);
            Some(
                if elapsed >= 0 {
                    elapsed / completed
                } else {
                    -((-elapsed) / completed)
                },
            )
        } else {
            None
        },
        None => None,
    }
}

/// The whole seconds that the runs still to do will take: known once the
/// average is known and runs are left to do.
pub open spec fn spec_remaining(
    completed: int,
    total: int,
    started_at: Option<Timestamp>,
    now: Timestamp,
) -> Option<int> {
    match spec_average(completed, started_at, now) {
        Some(avg) => if total - completed > 0 {
            Some(avg * (total - completed))
        } else {
            None
        },
        None => None,
    }
}

/// How far an experiment with `completed` of `total` runs done has come
/// at `now`, and how long it will still take.
pub fn estimate(completed: usize, total: usize, started_at: Option<Timestamp>, now: Timestamp) -> (r:
    Estimate)
    requires
        completed <= total,
    ensures
        r.percentage == spec_percentage(completed as int, total as int),
        match spec_average(completed as int, started_at, now) {
            Some(avg) => r.average_task_seconds == Some(avg as i64),
            None => r.average_task_seconds is None,
        },
        match spec_remaining(completed as int, total as int, started_at, now) {
            Some(eta) => r.estimated_remaining_seconds == Some(eta as i128),
            None => r.estimated_remaining_seconds is None,
        },
{
    let percentage: u64 = if total == 0 {
        0
    } else {
        let c: u128 = completed as u128;
        let t: u128 = total as u128;
        assert((100 * c) / (t as int) <= 100) by (nonlinear_arith)
            requires
                0 <= c <= t,
                t > 0,
        ;
        ((100 * c) / t) as u64
    };
    let average: Option<i64> = match started_at {
        Some(started) => if completed > 0 {
            let elapsed: i64 = now.seconds_since(&started);
            let c: i128 = completed as i128;
            let e: i128 = elapsed as i128;
            let avg: i128 = if e >= 0 {
                e / c
            } else {
                -((-e) / c)
            };
            assert(-0x8000_0000_0000_0000 <= avg <= 0x7fff_ffff_ffff_ffff) by (nonlinear_arith)
                requires
                    c >= 1,
                    -0x8000_0000_0000_0000 <= e <= 0x7fff_ffff_ffff_ffff,
                    avg == if e >= 0 {
                        (e as int) / (c as int)
                    } else {
                        -((-e) / (c as int))
                    },
            ;
            Some(avg as i64)
        } else {
            None
        },
        None => None,
    };
    let remaining: Option<i128> = match average {
        Some(avg) => if total > completed {
            let left: i128 = (total - completed) as i128;
            let a: i128 = avg as i128;
            assert(-0x8000_0000_0000_0000 * 0xffff_ffff_ffff_ffff <= a * left
                <= 0x7fff_ffff_ffff_ffff * 0xffff_ffff_ffff_ffff) by (nonlinear_arith)
                requires
                    -0x8000_0000_0000_0000 <= a <= 0x7fff_ffff_ffff_ffff,
                    0 < left <= 0xffff_ffff_ffff_ffff,
            ;
            Some(a * left)
        } else {
            None
        },
        None => None,
    };
    Estimate {
        percentage,
        average_task_seconds: average,
        estimated_remaining_seconds: remaining,
    }
}

} // verus!
