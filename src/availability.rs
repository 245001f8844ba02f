//! Finding bookable capacity on the requested day: the first day that falls
//! on it with a qualifying shift, the first such shift of that day, and the
//! bookable slots of that shift. Days are compared in UTC.

use vstd::prelude::*;
use crate::appointment_model::{
    copy_text, qualifying, qualifying_slots, shift_qualifies, shift_slots, Day, Shift, TimeSlot,
};
use crate::dates::{day_number_of_millis, day_of_millis, millis_in_range};
use crate::doctor_appointment::AppointmentPicking;
use crate::first_match::{first_match, lemma_first_match, lemma_first_match_is};

verus! {

/// The predicate "the shift has a bookable slot".
pub open spec fn qualifying_shift() -> spec_fn(Shift) -> bool {
    |sh: Shift| shift_qualifies(sh)
}

/// The day's timestamp falls, in UTC, on day number `target_day`.
pub open spec fn day_falls_on(d: Day, target_day: int) -> bool {
    &&& d.date is Some
    &&& millis_in_range(d.date->0 as int)
    &&& day_of_millis(d.date->0 as int) == target_day
}

/// The day falls on `target_day` and has a qualifying shift.
pub open spec fn day_offers(d: Day, target_day: int) -> bool {
    day_falls_on(d, target_day) && first_match(d.shifts@, qualifying_shift()) is Some
}

/// The predicate "the day offers a bookable slot on `target_day`".
pub open spec fn offering_day(target_day: int) -> spec_fn(Day) -> bool {
    |d: Day| day_offers(d, target_day)
}

/// `p` is the found outcome for shift `sh`: the doctor's name, the requested
/// date, the shift's day label and change descriptor, and the shift's
/// bookable slots in their original order.
pub open spec fn picks_shift(p: AppointmentPicking, sh: Shift, doctor_name: String, target_date: String) -> bool {
    &&& p.doctor_name == Some(doctor_name)
    &&& p.appointment_date == Some(target_date)
    &&& p.appointment_day == sh.days
    &&& p.available_slot is Some
    &&& p.available_slot->0@ == qualifying(shift_slots(sh))
    &&& p.doctor_change_info == sh.doctor_change_info
}

/// `p` is the found outcome for the first qualifying shift of `d`.
pub open spec fn picks_day(p: AppointmentPicking, d: Day, doctor_name: String, target_date: String) -> bool {
    match first_match(d.shifts@, qualifying_shift()) {
        Some(j) => picks_shift(p, d.shifts@[j], doctor_name, target_date),
        None => false,
    }
}

/// `r` is what a scan of `days` for `target_day` yields: nothing when no day
/// offers a slot on it, else the found outcome for the first day that does.
pub open spec fn scan_result(
    r: Option<AppointmentPicking>,
    days: Seq<Day>,
    doctor_name: String,
    target_date: String,
    target_day: int,
) -> bool {
    match first_match(days, offering_day(target_day)) {
        Some(i) => r is Some && picks_day(r->0, days[i], doctor_name, target_date),
        None => r is None,
    }
}

/// A scan yields the earliest day that offers a slot on the target day: the
/// day it reports offers one, and no earlier day does; it yields nothing
/// exactly when no day does.
pub proof fn lemma_scan_takes_earliest_day(
    r: Option<AppointmentPicking>,
    days: Seq<Day>,
    doctor_name: String,
    target_date: String,
    target_day: int,
)
    requires
        scan_result(r, days, doctor_name, target_date, target_day),
    ensures
        r is None <==> forall|k: int| 0 <= k < days.len() ==> !day_offers(#[trigger] days[k], target_day),
        r is Some ==> exists|i: int|
            0 <= i < days.len() && day_offers(days[i], target_day) && (forall|k: int|
                0 <= k < i ==> !day_offers(#[trigger] days[k], target_day)) && #[trigger] picks_day(
                r->0,
                days[i],
                doctor_name,
                target_date,
            ),
{
    lemma_first_match(days, offering_day(target_day));
    if r is None {
        assert forall|k: int| 0 <= k < days.len() implies !day_offers(#[trigger] days[k], target_day) by {
            assert(!offering_day(target_day)(days[k]));
        }
    } else {
        let i = first_match(days, offering_day(target_day))->0;
        assert(offering_day(target_day)(days[i]));
        assert forall|k: int| 0 <= k < i implies !day_offers(#[trigger] days[k], target_day) by {
            assert(!offering_day(target_day)(days[k]));
        }
    }
}

/// On a day that offers a slot, the outcome is that of the earliest shift
/// with a bookable slot, whatever the capacity of later shifts: that shift
/// qualifies, no earlier one does, and the outcome lists its bookable slots.
pub proof fn lemma_day_takes_earliest_shift(
    p: AppointmentPicking,
    d: Day,
    doctor_name: String,
    target_date: String,
)
    requires
        picks_day(p, d, doctor_name, target_date),
    ensures
        exists|j: int|
            0 <= j < d.shifts@.len() && shift_qualifies(d.shifts@[j]) && (forall|k: int|
                0 <= k < j ==> !shift_qualifies(#[trigger] d.shifts@[k])) && #[trigger] picks_shift(
                p,
                d.shifts@[j],
                doctor_name,
                target_date,
            ),
{
    lemma_first_match(d.shifts@, qualifying_shift());
    let j = first_match(d.shifts@, qualifying_shift())->0;
    assert(qualifying_shift()(d.shifts@[j]));
    assert forall|k: int| 0 <= k < j implies !shift_qualifies(#[trigger] d.shifts@[k]) by {
        assert(!qualifying_shift()(d.shifts@[k]));
    }
    assert(picks_shift(p, d.shifts@[j], doctor_name, target_date));
}

/// The found outcome for the first shift of `day` with a bookable slot,
/// provided the day falls on `target_day`.
pub fn find_available_shift(
    day: &Day,
    doctor_name: &String,
    target_date: &String,
    target_day: i32,
) -> (r: Option<AppointmentPicking>)
    ensures
        r is Some <==> day_offers(*day, target_day as int),
        r is Some ==> picks_day(r->0, *day, *doctor_name, *target_date),
{
    let falls_on = match day.date {
        Some(ms) => match day_number_of_millis(ms) {
            Some(n) => n == target_day,
            None => false,
        },
        None => false,
    };
    if !falls_on {
        return None;
    }
    let mut j: usize = 0;
    while j < day.shifts.len()
        invariant
            j <= day.shifts@.len(),
            day_falls_on(*day, target_day as int),
            forall|k: int| 0 <= k < j ==> !qualifying_shift()(#[trigger] day.shifts@[k]),
        decreases day.shifts@.len() - j,
    {
        let shift = &day.shifts[j];
        if let Some(slots) = &shift.time_slot_in_day {
            let available = qualifying_slots(slots);
            if available.len() > 0 {
                proof {
                    lemma_first_match_is(day.shifts@, qualifying_shift(), j as int);
                }
                let change = match &shift.doctor_change_info {
                    Some(info) => Some(info.duplicate()),
                    None => None,
                };
                return Some(AppointmentPicking {
                    doctor_name: Some(doctor_name.clone()),
                    appointment_day: copy_text(&shift.days),
                    appointment_date: Some(target_date.clone()),
                    available_slot: Some(available),
                    doctor_change_info: change,
                });
            }
        }
        j = j + 1;
    }
    proof {
        lemma_first_match_is(day.shifts@, qualifying_shift(), j as int);
    }
    None
}

/// The found outcome for the first day of `days` that falls on `target_day`
/// and has a shift with a bookable slot, or `None` when no day does.
pub fn scan(
    days: &Vec<Day>,
    doctor_name: &String,
    target_date: &String,
    target_day: i32,
) -> (r: Option<AppointmentPicking>)
    ensures
        scan_result(r, days@, *doctor_name, *target_date, target_day as int),
{
    let mut i: usize = 0;
    while i < days.len()
        invariant
            i <= days@.len(),
            forall|k: int| 0 <= k < i ==> !offering_day(target_day as int)(#[trigger] days@[k]),
        decreases days@.len() - i,
    {
        let found = find_available_shift(&days[i], doctor_name, target_date, target_day);
        if found.is_some() {
            proof {
                lemma_first_match_is(days@, offering_day(target_day as int), i as int);
            }
            return found;
        }
        i = i + 1;
    }
    proof {
        lemma_first_match_is(days@, offering_day(target_day as int), i as int);
    }
    None
}

} // verus!
