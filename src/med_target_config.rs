//! Endpoints and request headers of the booking platform.

use vstd::prelude::*;

verus! {

/// Where the platform's endpoints are, and the header values it expects.
#[derive(Debug, Clone)]
pub struct MedTarget {
    pub appointment_api: String,
    pub search_med_api: String,
    pub origin_header: String,
    pub appid_header: String,
}

/// Collects the values of a `MedTarget`.
#[derive(Debug, Clone)]
pub struct MedTargetBuilder {
    pub appointment_api: String,
    pub search_med_api: String,
    pub origin_header: String,
    pub appid_header: String,
}

impl MedTarget {
    /// A builder holding the given values.
    pub fn builder(
        appointment_api: String,
        search_med_api: String,
        origin_header: String,
        appid_header: String,
    ) -> (r: MedTargetBuilder)
        ensures
            r.appointment_api == appointment_api,
            r.search_med_api == search_med_api,
            r.origin_header == origin_header,
            r.appid_header == appid_header,
    {
        MedTargetBuilder::new(appointment_api, search_med_api, origin_header, appid_header)
    }
}

impl MedTargetBuilder {
    /// A builder holding the given values.
    pub fn new(
        appointment_api: String,
        search_med_api: String,
        origin_header: String,
        appid_header: String,
    ) -> (r: MedTargetBuilder)
        ensures
            r.appointment_api == appointment_api,
            r.search_med_api == search_med_api,
            r.origin_header == origin_header,
            r.appid_header == appid_header,
    {
        MedTargetBuilder { appointment_api, search_med_api, origin_header, appid_header }
    }

    /// The target with the builder's values.
    pub fn build(self) -> (r: MedTarget)
        ensures
            r.appointment_api == self.appointment_api,
            r.search_med_api == self.search_med_api,
            r.origin_header == self.origin_header,
            r.appid_header == self.appid_header,
    {
        MedTarget {
            appointment_api: self.appointment_api,
            search_med_api: self.search_med_api,
            origin_header: self.origin_header,
            appid_header: self.appid_header,
        }
    }
}

} // verus!
