//! The decisions of one analysis run, as a machine from state and event to
//! next state. The caller performs the work that each state asks for (load
//! the target, search, fetch the appointment tree, deliver the outcome) and
//! reports what came back as an event:
//!
//! - `FetchTarget`: load the active target; report `TargetLoaded` or
//!   `TargetLookupFailed`.
//! - `Searching(target)`: make the search `search_query(target)`; report
//!   `SearchReturned` or `SearchFailed`.
//! - `FetchingAppointments(target, query)`: fetch the tree for `query`;
//!   report `AppointmentsReturned` or `AppointmentsFailed`.
//! - `Notifying(outcome)`: deliver `outcome` once; report `Delivered` or
//!   `DeliveryFailed`.
//! - `Done(result)`: the run is over.
//!
//! Only a run that reached the appointment scan notifies, whether a slot was
//! found or not; every earlier failure ends the run without a notification.

use vstd::prelude::*;
use vstd::string::StringExecFns;
use crate::appointment_model::{AppointmentApiResponse, Day};
use crate::availability::{offering_day, picks_day, scan};
use crate::dates::{parse_ymd, ymd_day_number};
use crate::doctor_appointment::{AppointmentPicking, DoctorAppointment};
use crate::documents::Doctor;
use crate::first_match::first_match;
use crate::search_model::{ResultItem, SearchApiResponse};
use crate::validation::{identity_confirmed, selector_of, validate};

verus! {

/// Why a run ended without an outcome.
#[derive(Debug, Clone, Copy, PartialEq, Eq)]
pub enum RunError {
    /// No active target is stored.
    NoTargetConfigured,
    /// The target store could not be read.
    TargetLookupFailed,
    /// The search returned no group, or a first group without results.
    NoSearchCandidate,
    /// The first candidate is not the target.
    IdentityValidationFailed,
    /// The candidate was confirmed but lacks an identifier that the
    /// appointment request needs.
    MissingIdentifier,
    /// The search or the appointment request failed.
    UpstreamFetchFailed,
    /// The target's date is not a `YYYY-MM-DD` date.
    InvalidTargetDate,
    /// The outcome could not be delivered.
    NotificationDeliveryFailed,
    /// An event arrived that the current state does not wait for.
    UnexpectedEvent,
}

/// The identifiers of an appointment-tree request.
#[derive(Debug, Clone)]
pub struct AppointmentQuery {
    pub subject_id: String,
    pub doctor_id: String,
    pub service_id: String,
    pub partner_id: String,
}

/// Category searched for.
pub const SEARCH_CATEGORY: &'static str = "doctor";

/// Number of results asked of a search.
pub const SEARCH_LIMIT: u32 = 3;

/// Position of the first result asked of a search.
pub const SEARCH_OFFSET: u32 = 1;

/// The request of a doctor search.
#[derive(Debug, Clone)]
pub struct SearchQuery {
    pub search_key: String,
    pub category: String,
    pub city_id: String,
    pub limit: u32,
    pub offset: u32,
    pub subject_ids: String,
}

/// Where a run stands.
#[derive(Debug)]
pub enum RunState {
    FetchTarget,
    Searching(Doctor),
    FetchingAppointments(Doctor, AppointmentQuery),
    Notifying(AppointmentPicking),
    Done(Result<AppointmentPicking, RunError>),
}

/// What the work asked for by a state produced.
#[derive(Debug, Clone)]
pub enum RunEvent {
    TargetLoaded(Option<Doctor>),
    TargetLookupFailed,
    SearchReturned(Vec<SearchApiResponse>),
    SearchFailed,
    AppointmentsReturned(AppointmentApiResponse),
    AppointmentsFailed,
    Delivered,
    DeliveryFailed,
}

/// The run ends with error `e`.
pub open spec fn failed(e: RunError) -> RunState {
    RunState::Done(Err(e))
}

/// The first result of the first group, if there is one.
pub open spec fn first_candidate(groups: Seq<SearchApiResponse>) -> Option<ResultItem> {
    if groups.len() > 0 && groups[0].results@.len() > 0 {
        Some(groups[0].results@[0])
    } else {
        None
    }
}

/// The request for a selector whose four identifiers are all resolved.
pub open spec fn query_of(sel: DoctorAppointment) -> Option<AppointmentQuery> {
    if sel.subject_id is Some && sel.doctor_id is Some && sel.service_id is Some
        && sel.partner_id is Some {
        Some(
            AppointmentQuery {
                subject_id: sel.subject_id->0,
                doctor_id: sel.doctor_id->0,
                service_id: sel.service_id->0,
                partner_id: sel.partner_id->0,
            },
        )
    } else {
        None
    }
}

/// The state after a search for `target` returned `groups`.
pub open spec fn after_search(groups: Seq<SearchApiResponse>, target: Doctor) -> RunState {
    match first_candidate(groups) {
        None => failed(RunError::NoSearchCandidate),
        Some(c) => if !identity_confirmed(c, target) {
            failed(RunError::IdentityValidationFailed)
        } else {
            match query_of(selector_of(c, target)) {
                Some(q) => RunState::FetchingAppointments(target, q),
                None => failed(RunError::MissingIdentifier),
            }
        },
    }
}

/// The outcome reported when no slot was found: the doctor's name and the
/// requested date, nothing else.
pub open spec fn not_found_for(target: Doctor) -> AppointmentPicking {
    AppointmentPicking {
        doctor_name: Some(target.doctor_name),
        appointment_day: None,
        appointment_date: Some(target.target_date),
        available_slot: None,
        doctor_change_info: None,
    }
}

/// `p` is the outcome of scanning `days` for the target on day number
/// `target_day`: the found outcome of the first day that offers a slot, or
/// the not-found outcome.
pub open spec fn run_outcome(p: AppointmentPicking, days: Seq<Day>, target: Doctor, target_day: int) -> bool {
    match first_match(days, offering_day(target_day)) {
        Some(i) => picks_day(p, days[i], target.doctor_name, target.target_date),
        None => p == not_found_for(target),
    }
}

/// `next` is the state that follows `state` on `event`.
pub open spec fn advances_to(state: RunState, event: RunEvent, next: RunState) -> bool {
    match state {
        RunState::FetchTarget => match event {
            RunEvent::TargetLoaded(Some(t)) => next == RunState::Searching(t),
            RunEvent::TargetLoaded(None) => next == failed(RunError::NoTargetConfigured),
            RunEvent::TargetLookupFailed => next == failed(RunError::TargetLookupFailed),
            _ => next == failed(RunError::UnexpectedEvent),
        },
        RunState::Searching(t) => match event {
            RunEvent::SearchReturned(groups) => next == after_search(groups@, t),
            RunEvent::SearchFailed => next == failed(RunError::UpstreamFetchFailed),
            _ => next == failed(RunError::UnexpectedEvent),
        },
        RunState::FetchingAppointments(t, _q) => match event {
            RunEvent::AppointmentsReturned(resp) => match ymd_day_number(t.target_date@) {
                Some(day) => next is Notifying && run_outcome(next->Notifying_0, resp.days@, t, day),
                None => next == failed(RunError::InvalidTargetDate),
            },
            RunEvent::AppointmentsFailed => next == failed(RunError::UpstreamFetchFailed),
            _ => next == failed(RunError::UnexpectedEvent),
        },
        RunState::Notifying(p) => match event {
            RunEvent::Delivered => next == RunState::Done(Ok(p)),
            _ => next == failed(RunError::NotificationDeliveryFailed),
        },
        RunState::Done(_) => next == state,
    }
}

/// `states` is a run: it starts at `FetchTarget`, and each state follows the
/// one before it on the event of the same position in `events`.
pub open spec fn is_run(states: Seq<RunState>, events: Seq<RunEvent>) -> bool {
    &&& states.len() == events.len() + 1
    &&& states[0] is FetchTarget
    &&& forall|k: int| 0 <= k < events.len() ==> advances_to(#[trigger] states[k], events[k], states[k + 1])
}

/// Deliveries asked for along `states`: one for each `Notifying` state.
pub open spec fn notification_count(states: Seq<RunState>) -> nat
    decreases states.len(),
{
    if states.len() == 0 {
        0
    } else {
        notification_count(states.drop_last()) + if states.last() is Notifying {
            1nat
        } else {
            0nat
        }
    }
}

/// Deliveries that a run standing at `s` has asked for.
pub open spec fn deliveries_before(s: RunState) -> nat {
    match s {
        RunState::Notifying(_) => 1,
        RunState::Done(Ok(_)) => 1,
        RunState::Done(Err(RunError::NotificationDeliveryFailed)) => 1,
        _ => 0,
    }
}

proof fn lemma_step_deliveries(s: RunState, e: RunEvent, n: RunState)
    requires
        advances_to(s, e, n),
    ensures
        deliveries_before(n) == deliveries_before(s) + if n is Notifying {
            1nat
        } else {
            0nat
        },
{
}

proof fn lemma_count_matches_state(states: Seq<RunState>, events: Seq<RunEvent>)
    requires
        is_run(states, events),
    ensures
        notification_count(states) == deliveries_before(states.last()),
    decreases events.len(),
{
    if events.len() == 0 {
        assert(states.drop_last().len() == 0);
        assert(states.last() == states[0]);
        assert(notification_count(states.drop_last()) == 0);
        assert(notification_count(states) == 0);
    } else {
        let n = events.len() - 1;
        let prefix = states.drop_last();
        let prefix_events = events.drop_last();
        assert forall|k: int| 0 <= k < prefix_events.len() implies advances_to(
            #[trigger] prefix[k],
            prefix_events[k],
            prefix[k + 1],
        ) by {
            assert(advances_to(states[k], events[k], states[k + 1]));
        }
        assert(prefix[0] == states[0]);
        lemma_count_matches_state(prefix, prefix_events);
        assert(prefix.last() == states[n]);
        assert(states.last() == states[n + 1]);
        assert(advances_to(states[n], events[n], states[n + 1]));
        lemma_step_deliveries(states[n], events[n], states[n + 1]);
        assert(notification_count(prefix) == deliveries_before(states[n]));
        assert(notification_count(states) == notification_count(prefix) + if states.last() is Notifying {
            1nat
        } else {
            0nat
        });
    }
}

/// A run asks for at most one delivery of its outcome. A run that ends in
/// success, with a found or a not-found outcome, asked for exactly one; a
/// run that ends with any error but a failed delivery asked for none.
pub proof fn lemma_at_most_one_notification(states: Seq<RunState>, events: Seq<RunEvent>)
    requires
        is_run(states, events),
    ensures
        notification_count(states) <= 1,
        states.last() is Done && states.last()->Done_0 is Ok ==> notification_count(states) == 1,
        states.last() is Done && states.last()->Done_0 is Err && states.last()->Done_0->Err_0
            != RunError::NotificationDeliveryFailed ==> notification_count(states) == 0,
{
    lemma_count_matches_state(states, events);
}

/// The search that a run in state `Searching(target)` makes: by the
/// target's name, in its city, for its subject reference, among doctors.
pub fn search_query(target: &Doctor) -> (r: SearchQuery)
    ensures
        r.search_key == target.doctor_name,
        r.city_id == target.city_id,
        r.subject_ids == target.subject_ref_id,
        r.category@ == SEARCH_CATEGORY@,
        r.limit == SEARCH_LIMIT,
        r.offset == SEARCH_OFFSET,
{
    SearchQuery {
        search_key: target.doctor_name.clone(),
        category: String::from_str(SEARCH_CATEGORY),
        city_id: target.city_id.clone(),
        limit: SEARCH_LIMIT,
        offset: SEARCH_OFFSET,
        subject_ids: target.subject_ref_id.clone(),
    }
}

/// The not-found outcome for `target`.
pub fn not_found_outcome(target: &Doctor) -> (r: AppointmentPicking)
    ensures
        r == not_found_for(*target),
{
    AppointmentPicking {
        doctor_name: Some(target.doctor_name.clone()),
        appointment_day: None,
        appointment_date: Some(target.target_date.clone()),
        available_slot: None,
        doctor_change_info: None,
    }
}

/// The first result of the first group, if there is one.
pub fn pick_candidate(groups: &Vec<SearchApiResponse>) -> (r: Option<&ResultItem>)
    ensures
        match first_candidate(groups@) {
            Some(c) => r is Some && *r->0 == c,
            None => r is None,
        },
{
    if groups.len() > 0 && groups[0].results.len() > 0 {
        Some(&groups[0].results[0])
    } else {
        None
    }
}

/// The appointment request of a selector, when all four identifiers are
/// resolved.
pub fn appointment_query(sel: DoctorAppointment) -> (r: Option<AppointmentQuery>)
    ensures
        r == query_of(sel),
{
    match (sel.subject_id, sel.doctor_id, sel.service_id, sel.partner_id) {
        (Some(subject_id), Some(doctor_id), Some(service_id), Some(partner_id)) => Some(
            AppointmentQuery { subject_id, doctor_id, service_id, partner_id },
        ),
        _ => None,
    }
}

/// The state that follows `state` on `event`.
pub fn advance(state: RunState, event: RunEvent) -> (r: RunState)
    ensures
        advances_to(state, event, r),
{
    match state {
        RunState::FetchTarget => match event {
            RunEvent::TargetLoaded(Some(t)) => RunState::Searching(t),
            RunEvent::TargetLoaded(None) => RunState::Done(Err(RunError::NoTargetConfigured)),
            RunEvent::TargetLookupFailed => RunState::Done(Err(RunError::TargetLookupFailed)),
            _ => RunState::Done(Err(RunError::UnexpectedEvent)),
        },
        RunState::Searching(target) => match event {
            RunEvent::SearchReturned(groups) => match pick_candidate(&groups) {
                None => RunState::Done(Err(RunError::NoSearchCandidate)),
                Some(candidate) => match validate(candidate, &target) {
                    None => RunState::Done(Err(RunError::IdentityValidationFailed)),
                    Some(sel) => match appointment_query(sel) {
                        Some(q) => RunState::FetchingAppointments(target, q),
                        None => RunState::Done(Err(RunError::MissingIdentifier)),
                    },
                },
            },
            RunEvent::SearchFailed => RunState::Done(Err(RunError::UpstreamFetchFailed)),
            _ => RunState::Done(Err(RunError::UnexpectedEvent)),
        },
        RunState::FetchingAppointments(target, _query) => match event {
            RunEvent::AppointmentsReturned(resp) => match parse_ymd(target.target_date.as_str()) {
                Some(day) => match scan(&resp.days, &target.doctor_name, &target.target_date, day) {
                    Some(p) => RunState::Notifying(p),
                    None => RunState::Notifying(not_found_outcome(&target)),
                },
                None => RunState::Done(Err(RunError::InvalidTargetDate)),
            },
            RunEvent::AppointmentsFailed => RunState::Done(Err(RunError::UpstreamFetchFailed)),
            _ => RunState::Done(Err(RunError::UnexpectedEvent)),
        },
        RunState::Notifying(p) => match event {
            RunEvent::Delivered => RunState::Done(Ok(p)),
            _ => RunState::Done(Err(RunError::NotificationDeliveryFailed)),
        },
        RunState::Done(result) => RunState::Done(result),
    }
}

} // verus!
