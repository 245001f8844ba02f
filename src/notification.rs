//! The HTML text of the mail that reports an outcome: the doctor, the date
//! and day, and a table of the bookable slots with their capacities.

use vstd::prelude::*;
use vstd::string::StringExecFns;
use crate::appointment_model::TimeSlot;
use crate::doctor_appointment::AppointmentPicking;

verus! {

pub const PAGE_START: &'static str = "<!DOCTYPE html><html lang=\"en\"><head><meta charset=\"UTF-8\"><meta name=\"viewport\" content=\"width=device-width, initial-scale=1.0\"><style>body { font-family: Arial, sans-serif; background-color: #f4f4f4; margin: 0; padding: 20px; } .container { background-color: #ffffff; padding: 20px; border-radius: 8px; box-shadow: 0 0 10px rgba(0, 0, 0, 0.1); max-width: 600px; margin: 0 auto; } h2 { color: #4CAF50; text-align: center; } .doctor-info { margin-bottom: 20px; } .doctor-info p { font-size: 16px; color: #333; } table { width: 100%; border-collapse: collapse; margin-bottom: 20px; } table, th, td { border: 1px solid #ddd; } th, td { padding: 12px; text-align: center; } th { background-color: #4CAF50; color: white; } td { color: #333; } .footer { text-align: center; margin-top: 20px; color: #888; font-size: 12px; }</style></head><body><div class=\"container\"><h2>Appointment Notification</h2><div class=\"doctor-info\"><p><strong>Doctor Name:</strong> ";

pub const DATE_LABEL: &'static str = "</p><p><strong>Appointment Date:</strong> ";

pub const DAY_LABEL: &'static str = "</p><p><strong>Appointment Day:</strong> ";

pub const TABLE_START: &'static str = "</p></div><table><thead><tr><th>Start Time</th><th>End Time</th><th>Max Slots</th><th>Available Slots</th></tr></thead><tbody>";

pub const PAGE_END: &'static str = "</tbody></table><p>Please contact us if you need further assistance.</p><div class=\"footer\"><p>&copy; 2024 Medical Bot, All Rights Reserved</p></div></div></body></html>";

pub const ROW_START: &'static str = "<tr><td>";

pub const CELL_BREAK: &'static str = "</td><td>";

pub const ROW_END: &'static str = "</td></tr>";

pub const NO_SLOTS: &'static str = "<tr><td colspan='3'>No available slots</td></tr>";

pub const UNKNOWN_DOCTOR: &'static str = "Unknown";

/// The character of decimal digit `d`.
pub open spec fn digit_char(d: nat) -> char {
    if d == 0 { '0' }
    else if d == 1 { '1' }
    else if d == 2 { '2' }
    else if d == 3 { '3' }
    else if d == 4 { '4' }
    else if d == 5 { '5' }
    else if d == 6 { '6' }
    else if d == 7 { '7' }
    else if d == 8 { '8' }
    else { '9' }
}

/// The decimal digits of `n`, most significant first, without leading zeros.
pub open spec fn decimal(n: nat) -> Seq<char>
    decreases n,
{
    if n < 10 {
        seq![digit_char(n)]
    } else {
        decimal(n / 10).push(digit_char(n % 10))
    }
}

/// A count as the table shows it: an unknown count is shown as 0.
pub open spec fn count_text(c: Option<u32>) -> Seq<char> {
    match c {
        Some(n) => decimal(n as nat),
        None => decimal(0),
    }
}

/// The table row of one slot: start, end, maximum and available count.
pub open spec fn slot_row(s: TimeSlot) -> Seq<char> {
    ROW_START@ + s.start_time@ + CELL_BREAK@ + s.end_time@ + CELL_BREAK@ + count_text(s.max_slot)
        + CELL_BREAK@ + count_text(s.available_slot) + ROW_END@
}

/// The rows of `slots`, in order.
pub open spec fn slot_rows(slots: Seq<TimeSlot>) -> Seq<char>
    decreases slots.len(),
{
    if slots.len() == 0 {
        Seq::empty()
    } else {
        slot_rows(slots.drop_last()) + slot_row(slots.last())
    }
}

/// An optional text, or nothing.
pub open spec fn text_or_empty(o: Option<String>) -> Seq<char> {
    match o {
        Some(s) => s@,
        None => Seq::empty(),
    }
}

/// The mail text of outcome `p`. A missing doctor name reads `Unknown`; a
/// missing date or day is left empty; an outcome without a slot list shows a
/// single row saying that no slot is available.
pub open spec fn notification_html(p: AppointmentPicking) -> Seq<char> {
    let name = match p.doctor_name {
        Some(n) => n@,
        None => UNKNOWN_DOCTOR@,
    };
    let rows = match p.available_slot {
        Some(v) => slot_rows(v@),
        None => NO_SLOTS@,
    };
    PAGE_START@ + name + DATE_LABEL@ + text_or_empty(p.appointment_date) + DAY_LABEL@
        + text_or_empty(p.appointment_day) + TABLE_START@ + rows + PAGE_END@
}

/// The text of decimal digit `d`.
fn digit_text(d: u32) -> (r: &'static str)
    requires
        d < 10,
    ensures
        r@ == seq![digit_char(d as nat)],
{
    proof {
        reveal_strlit("0");
        reveal_strlit("1");
        reveal_strlit("2");
        reveal_strlit("3");
        reveal_strlit("4");
        reveal_strlit("5");
        reveal_strlit("6");
        reveal_strlit("7");
        reveal_strlit("8");
        reveal_strlit("9");
    }
    if d == 0 { "0" }
    else if d == 1 { "1" }
    else if d == 2 { "2" }
    else if d == 3 { "3" }
    else if d == 4 { "4" }
    else if d == 5 { "5" }
    else if d == 6 { "6" }
    else if d == 7 { "7" }
    else if d == 8 { "8" }
    else { "9" }
}

/// The decimal text of `n`.
pub fn decimal_text(n: u32) -> (r: String)
    ensures
        r@ == decimal(n as nat),
    decreases n,
{
    if n < 10 {
        String::from_str(digit_text(n))
    } else {
        let mut s = decimal_text(n / 10);
        s.append(digit_text(n % 10));
        s
    }
}

/// Appends the text of a count, an unknown count as 0.
fn append_count(out: &mut String, c: Option<u32>)
    ensures
        final(out)@ == old(out)@ + count_text(c),
{
    let n: u32 = match c {
        Some(n) => n,
        None => 0,
    };
    let digits = decimal_text(n);
    out.append(digits.as_str());
}

/// Appends the table rows of `slots`.
fn append_rows(out: &mut String, slots: &Vec<TimeSlot>)
    ensures
        final(out)@ == old(out)@ + slot_rows(slots@),
{
    let ghost start = out@;
    let mut i: usize = 0;
    while i < slots.len()
        invariant
            i <= slots@.len(),
            out@ == start + slot_rows(slots@.take(i as int)),
        decreases slots@.len() - i,
    {
        let s = &slots[i];
        proof {
            assert(slots@.take(i as int + 1).drop_last() == slots@.take(i as int));
            assert(slots@.take(i as int + 1).last() == slots@[i as int]);
        }
        out.append(ROW_START);
        out.append(s.start_time.as_str());
        out.append(CELL_BREAK);
        out.append(s.end_time.as_str());
        out.append(CELL_BREAK);
        append_count(out, s.max_slot);
        out.append(CELL_BREAK);
        append_count(out, s.available_slot);
        out.append(ROW_END);
        proof {
            assert(out@ == start + slot_rows(slots@.take(i as int)) + slot_row(slots@[i as int]));
        }
        i = i + 1;
    }
    assert(slots@.take(slots@.len() as int) == slots@);
}

/// Appends an optional text, nothing when it is absent.
fn append_text(out: &mut String, o: &Option<String>)
    ensures
        final(out)@ == old(out)@ + text_or_empty(*o),
{
    match o {
        Some(s) => out.append(s.as_str()),
        None => {
            assert(out@ + Seq::<char>::empty() == out@);
        },
    }
}

/// The mail text of `appointment`.
pub fn render_notification(appointment: &AppointmentPicking) -> (r: String)
    ensures
        r@ == notification_html(*appointment),
{
    let mut out = String::from_str(PAGE_START);
    match &appointment.doctor_name {
        Some(name) => out.append(name.as_str()),
        None => out.append(UNKNOWN_DOCTOR),
    }
    out.append(DATE_LABEL);
    append_text(&mut out, &appointment.appointment_date);
    out.append(DAY_LABEL);
    append_text(&mut out, &appointment.appointment_day);
    out.append(TABLE_START);
    match &appointment.available_slot {
        Some(slots) => append_rows(&mut out, slots),
        None => out.append(NO_SLOTS),
    }
    out.append(PAGE_END);
    out
}

} // verus!
