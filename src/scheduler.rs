//! When the scheduler fires. Each poll computes the schedule's next instant
//! after the moment it was computed at, and fires for it once the clock has
//! reached it. Instants are UTC timestamps in whole seconds.

use vstd::prelude::*;

verus! {

/// Latest moment, in seconds since the epoch, from which a next instant is
/// computed (9999-12-31T23:59:59Z).
pub const MAX_SCHEDULE_SECONDS: i64 = 253_402_300_799;

/// Whether cron accepts `expr` as a schedule.
pub uninterp spec fn cron_accepts(expr: Seq<char>) -> bool;

/// The first instant, in whole seconds, of the schedule `expr` strictly
/// after `after`; `None` where cron refuses `expr` or has no such instant.
pub uninterp spec fn next_instant(expr: Seq<char>, after: int) -> Option<int>;

/// Relies on `cron::Schedule`'s `FromStr`: whether the expression parses.
#[verifier::external_body]
fn schedule_accepts(expr: &str) -> (r: bool)
    ensures
        r == cron_accepts(expr@),
{
    <cron::Schedule as std::str::FromStr>::from_str(expr).is_ok()
}

/// Relies on `cron::Schedule::after` on the schedule that `FromStr` reads
/// from `expr`: the first instant it yields, which is at least one second
/// after `after_secs`.
#[verifier::external_body]
fn next_fire_after(expr: &str, after_secs: i64) -> (r: Option<i64>)
    requires
        0 <= after_secs <= MAX_SCHEDULE_SECONDS,
    ensures
        match r {
            Some(t) => next_instant(expr@, after_secs as int) == Some(t as int),
            None => next_instant(expr@, after_secs as int) is None,
        },
        r is Some ==> r->0 > after_secs,
{
    let schedule = <cron::Schedule as std::str::FromStr>::from_str(expr).ok()?;
    let start = chrono::DateTime::<chrono::Utc>::from_timestamp(after_secs, 0)?;
    schedule.after(&start).next().map(|t| t.timestamp())
}

/// Instant `t` fires on a poll computed at `computed_at` that read the
/// clock at `now`.
pub open spec fn fires_within(t: int, computed_at: int, now: int) -> bool {
    computed_at < t <= now
}

/// Whether an instant is due: there is one, and the clock has reached it.
pub fn should_fire(next: Option<i64>, now: i64) -> (r: bool)
    ensures
        r == (next is Some && next->0 <= now),
{
    match next {
        Some(t) => t <= now,
        None => false,
    }
}

/// A cron schedule (seconds first) that cron accepts.
pub struct Scheduler {
    expression: String,
}

impl Scheduler {
    /// The cron expression of the schedule.
    pub closed spec fn expression_text(&self) -> Seq<char> {
        self.expression@
    }

    /// The schedule of a cron expression, or `None` when cron refuses it.
    pub fn from_expression(expr: &str) -> (r: Option<Scheduler>)
        ensures
            r is Some <==> cron_accepts(expr@),
            r is Some ==> r->0.expression_text() == expr@,
    {
        if schedule_accepts(expr) {
            Some(Scheduler { expression: expr.to_owned() })
        } else {
            None
        }
    }

    /// The instant to fire for on a poll that computed the next instant at
    /// `computed_at` and then read the clock at `now`: the schedule's first
    /// instant after `computed_at` when the clock has reached it, else
    /// `None`.
    pub fn due_instant(&self, computed_at: i64, now: i64) -> (r: Option<i64>)
        requires
            0 <= computed_at <= MAX_SCHEDULE_SECONDS,
        ensures
            r == (match next_instant(self.expression_text(), computed_at as int) {
                Some(t) => if t <= now {
                    Some(t as i64)
                } else {
                    None::<i64>
                },
                None => None::<i64>,
            }),
            r is Some ==> fires_within(r->0 as int, computed_at as int, now as int),
    {
        let next = next_fire_after(self.expression.as_str(), computed_at);
        if should_fire(next, now) {
            next
        } else {
            None
        }
    }
}

/// No instant fires twice: when a poll is computed no earlier than the clock
/// reading of an earlier poll that fired, whatever it fires for is strictly
/// later than what the earlier one fired for.
pub proof fn lemma_no_instant_fires_twice(t1: int, computed1: int, now1: int, t2: int, computed2: int, now2: int)
    requires
        fires_within(t1, computed1, now1),
        fires_within(t2, computed2, now2),
        now1 <= computed2,
    ensures
        t1 < t2,
{
}

} // verus!
