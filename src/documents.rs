//! The stored doctor target.

use vstd::prelude::*;

verus! {

/// The operator-configured doctor and date to watch. `target_date` is the
/// requested day, written `YYYY-MM-DD`.
#[derive(Debug, Clone)]
pub struct Doctor {
    pub doctor_ref_id: String,
    pub doctor_name: String,
    pub subject_ref_id: String,
    pub subject_name: String,
    pub service_name: String,
    pub hospital_id: String,
    pub city_id: String,
    pub target_date: String,
    pub active: bool,
}

} // verus!
