//! The appointment tree returned by the booking platform: days, their shifts
//! and the time slots of each shift.

use vstd::prelude::*;

verus! {

/// Response of the appointment-tree endpoint.
#[derive(Debug, Clone)]
pub struct AppointmentApiResponse {
    pub id: Option<String>,
    pub tree_type: String,
    pub sub_type: Option<String>,
    pub days: Vec<Day>,
    pub end: bool,
    pub detail: Detail,
    pub waiting_list: Option<bool>,
}

/// One calendar day of the tree; `date` is a UTC timestamp in milliseconds.
#[derive(Debug, Clone)]
pub struct Day {
    pub shifts: Vec<Shift>,
    pub date: Option<i64>,
    pub time_slots: Option<Vec<TimeSlot>>,
    pub timemiliseconds: Option<i64>,
}

/// A working shift of one day, with its own list of time slots.
#[derive(Debug, Clone)]
pub struct Shift {
    pub id: String,
    pub shift_name: Option<String>,
    pub shift_code: Option<String>,
    pub start_time: Option<String>,
    pub end_time: Option<String>,
    pub duration: Option<u32>,
    pub days: Option<String>,
    pub services: Option<Vec<Service>>,
    pub max_slot: Option<u32>,
    pub doctor_change: Option<bool>,
    pub doctor_change_info: Option<DoctorChangeInfo>,
    pub room_id: Option<String>,
    pub priority_room: Option<u32>,
    pub time_slot_in_day: Option<Vec<TimeSlot>>,
}

/// A service offered in a shift.
#[derive(Debug, Clone)]
pub struct Service {
    pub id: String,
    pub subject_id: Option<String>,
    pub room_id: Option<String>,
    pub price: Option<u32>,
    pub advanced: Option<u32>,
    pub service_type: Option<String>,
    pub room_type: Option<String>,
}

/// Describes a substitute doctor for a shift.
#[derive(Debug, Clone)]
pub struct DoctorChangeInfo {
    pub change_doctor_id: Option<String>,
    pub change_doctor_name: Option<String>,
    pub role: Option<String>,
    pub label_prefix: Option<String>,
    pub label: Option<String>,
    pub reason_change_doctor: Option<String>,
}

/// One bookable time window of a shift.
#[derive(Debug, Clone)]
pub struct TimeSlot {
    pub time_id: String,
    pub available_slot: Option<u32>,
    pub max_slot: Option<u32>,
    pub start_time: String,
    pub end_time: String,
    pub room_id: String,
    pub priority_room: u32,
}

/// Descriptive part of the appointment-tree response.
#[derive(Debug, Clone)]
pub struct Detail {
    pub id: String,
    pub name: Option<String>,
    pub detail_type: Option<String>,
    pub display_detail: Option<String>,
    pub description: Option<String>,
    pub service_type: Option<String>,
    pub service_group: Option<String>,
    pub price: Option<u32>,
    pub advanced: Option<u32>,
    pub rooms: Option<String>,
    pub next_combine: Option<bool>,
    pub days: Option<String>,
    pub display_schedule: Option<String>,
    pub booking_group_name: Option<String>,
    pub required_check_insurance: Option<bool>,
}

/// A slot can be booked when both counts are known and
/// `0 < available <= max`.
pub open spec fn slot_qualifies(s: TimeSlot) -> bool {
    &&& s.available_slot is Some
    &&& s.max_slot is Some
    &&& 0 < s.available_slot->0
    &&& s.available_slot->0 <= s.max_slot->0
}

/// The bookable slots of a list, in their original order.
pub open spec fn qualifying(slots: Seq<TimeSlot>) -> Seq<TimeSlot> {
    slots.filter(|s: TimeSlot| slot_qualifies(s))
}

/// The slots that a shift lists; a shift without a list has none.
pub open spec fn shift_slots(sh: Shift) -> Seq<TimeSlot> {
    match sh.time_slot_in_day {
        Some(v) => v@,
        None => Seq::empty(),
    }
}

/// A shift qualifies when at least one of its slots can be booked.
pub open spec fn shift_qualifies(sh: Shift) -> bool {
    qualifying(shift_slots(sh)).len() > 0
}

/// Copies an optional text, keeping its value.
pub fn copy_text(o: &Option<String>) -> (r: Option<String>)
    ensures
        r == *o,
{
    match o {
        Some(s) => Some(s.clone()),
        None => None,
    }
}

impl TimeSlot {
    /// A copy equal to `self`.
    pub fn duplicate(&self) -> (r: TimeSlot)
        ensures
            r == *self,
    {
        TimeSlot {
            time_id: self.time_id.clone(),
            available_slot: self.available_slot,
            max_slot: self.max_slot,
            start_time: self.start_time.clone(),
            end_time: self.end_time.clone(),
            room_id: self.room_id.clone(),
            priority_room: self.priority_room,
        }
    }

    /// Whether the slot can be booked: both counts present and
    /// `0 < available <= max`.
    pub fn is_bookable(&self) -> (r: bool)
        ensures
            r == slot_qualifies(*self),
    {
        match (self.available_slot, self.max_slot) {
            (Some(available), Some(max)) => 0 < available && available <= max,
            _ => false,
        }
    }
}

impl DoctorChangeInfo {
    /// A copy equal to `self`.
    pub fn duplicate(&self) -> (r: DoctorChangeInfo)
        ensures
            r == *self,
    {
        DoctorChangeInfo {
            change_doctor_id: copy_text(&self.change_doctor_id),
            change_doctor_name: copy_text(&self.change_doctor_name),
            role: copy_text(&self.role),
            label_prefix: copy_text(&self.label_prefix),
            label: copy_text(&self.label),
            reason_change_doctor: copy_text(&self.reason_change_doctor),
        }
    }
}

/// The bookable slots of `slots`, in their original order.
pub fn qualifying_slots(slots: &Vec<TimeSlot>) -> (r: Vec<TimeSlot>)
    ensures
        r@ == qualifying(slots@),
{
    let mut out: Vec<TimeSlot> = Vec::new();
    let mut i: usize = 0;
    while i < slots.len()
        invariant
            i <= slots@.len(),
            out@ == qualifying(slots@.take(i as int)),
        decreases slots@.len() - i,
    {
        let s = &slots[i];
        proof {
            reveal(Seq::filter);
            assert(slots@.take(i as int + 1).drop_last() == slots@.take(i as int));
        }
        if s.is_bookable() {
            out.push(s.duplicate());
        }
        i = i + 1;
    }
    assert(slots@.take(slots@.len() as int) == slots@);
    out
}

/// Every slot in the bookable list of `slots` is one of `slots` and can be
/// booked, and every bookable slot of `slots` is in it.
pub proof fn lemma_qualifying_membership(slots: Seq<TimeSlot>, s: TimeSlot)
    ensures
        qualifying(slots).contains(s) <==> (slots.contains(s) && slot_qualifies(s)),
    decreases slots.len(),
{
    reveal(Seq::filter);
    if slots.len() > 0 {
        lemma_qualifying_membership(slots.drop_last(), s);
        let rest = slots.drop_last();
        if slots.contains(s) && !rest.contains(s) {
            let k = choose|k: int| 0 <= k < slots.len() && slots[k] == s;
            if k < slots.len() - 1 {
                assert(rest[k] == s);
            }
        }
        if rest.contains(s) {
            let k = choose|k: int| 0 <= k < rest.len() && rest[k] == s;
            assert(slots[k] == s);
        }
        if slot_qualifies(slots.last()) {
            let f = qualifying(rest);
            if f.push(slots.last()).contains(s) && !f.contains(s) {
                let k = choose|k: int| 0 <= k < f.len() + 1 && f.push(slots.last())[k] == s;
                assert(s == slots.last());
                assert(slots[slots.len() - 1] == s);
            }
            if f.contains(s) {
                let k = choose|k: int| 0 <= k < f.len() && f[k] == s;
                assert(f.push(slots.last())[k] == s);
            }
            if s == slots.last() {
                assert(f.push(slots.last())[f.len() as int] == s);
            }
        } else {
            if s == slots.last() && slots.contains(s) {
                assert(!slot_qualifies(s));
            }
        }
    }
}

} // verus!
