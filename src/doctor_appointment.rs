//! The identifiers resolved for a confirmed candidate, and the outcome of a
//! run.

use vstd::prelude::*;
use crate::appointment_model::{DoctorChangeInfo, TimeSlot};

verus! {

/// Platform identifiers needed to ask for a doctor's appointment tree.
#[derive(Debug, Clone)]
pub struct DoctorAppointment {
    pub subject_id: Option<String>,
    pub doctor_id: Option<String>,
    pub service_id: Option<String>,
    pub partner_id: Option<String>,
}

/// The outcome of one run: a found slot list, or the doctor's name and the
/// requested date alone.
#[derive(Debug, Clone)]
pub struct AppointmentPicking {
    pub doctor_name: Option<String>,
    pub appointment_day: Option<String>,
    pub appointment_date: Option<String>,
    pub available_slot: Option<Vec<TimeSlot>>,
    pub doctor_change_info: Option<DoctorChangeInfo>,
}

impl DoctorAppointment {
    /// Selector with no identifier resolved yet.
    pub fn unresolved() -> (r: DoctorAppointment)
        ensures
            r.subject_id is None,
            r.doctor_id is None,
            r.service_id is None,
            r.partner_id is None,
    {
        DoctorAppointment { subject_id: None, doctor_id: None, service_id: None, partner_id: None }
    }
}

} // verus!
