use med_bot::analysis::{advance, not_found_outcome, pick_candidate, search_query, RunError, RunEvent, RunState};
use med_bot::appointment_model::{qualifying_slots, AppointmentApiResponse, Day, Detail, DoctorChangeInfo, Shift, TimeSlot};
use med_bot::availability::{find_available_shift, scan};
use med_bot::dates::{day_number_of_millis, MAX_COMPARED_MILLIS, MIN_COMPARED_MILLIS};
use med_bot::doctor_appointment::{AppointmentPicking, DoctorAppointment};
use med_bot::documents::Doctor;
use med_bot::med_target_config::{MedTarget, MedTargetBuilder};
use med_bot::notification::{decimal_text, render_notification, DATE_LABEL, DAY_LABEL, NO_SLOTS, PAGE_END, PAGE_START, TABLE_START};
use med_bot::scheduler::{should_fire, Scheduler};
use med_bot::search_model::{Partner, ResultItem, SearchApiResponse, Service, Subject};
use med_bot::validation::{lower_names, validate, validate_doctor, validate_lowered, LoweredNames};

const OCT_3_MIDNIGHT: i64 = 1_727_913_600_000;
const OCT_3_LAST_SECOND: i64 = 1_727_999_999_000;
const OCT_2_EVENING: i64 = 1_727_888_400_000;
const OCT_4_MIDNIGHT: i64 = 1_728_000_000_000;
const OCT_3_DAY_NUMBER: i32 = 739_162;

fn slot(id: &str, available: Option<u32>, max: Option<u32>) -> TimeSlot {
    TimeSlot {
        time_id: id.to_string(),
        available_slot: available,
        max_slot: max,
        start_time: format!("{id}-start"),
        end_time: format!("{id}-end"),
        room_id: "room".to_string(),
        priority_room: 1,
    }
}

fn shift(id: &str, label: Option<&str>, slots: Option<Vec<TimeSlot>>) -> Shift {
    Shift {
        id: id.to_string(),
        shift_name: None,
        shift_code: Some(id.to_string()),
        start_time: None,
        end_time: None,
        duration: None,
        days: label.map(|s| s.to_string()),
        services: None,
        max_slot: None,
        doctor_change: None,
        doctor_change_info: None,
        room_id: None,
        priority_room: None,
        time_slot_in_day: slots,
    }
}

fn day(date: Option<i64>, shifts: Vec<Shift>) -> Day {
    Day { shifts, date, time_slots: None, timemiliseconds: date }
}

fn response(days: Vec<Day>) -> AppointmentApiResponse {
    AppointmentApiResponse {
        id: None,
        tree_type: "DATE".to_string(),
        sub_type: None,
        days,
        end: true,
        detail: Detail {
            id: "detail".to_string(),
            name: None,
            detail_type: None,
            display_detail: None,
            description: None,
            service_type: None,
            service_group: None,
            price: None,
            advanced: None,
            rooms: None,
            next_combine: None,
            days: None,
            display_schedule: None,
            booking_group_name: None,
            required_check_insurance: None,
        },
        waiting_list: None,
    }
}

fn target() -> Doctor {
    Doctor {
        doctor_ref_id: "umc_453".to_string(),
        doctor_name: "Trần Ngọc Tài".to_string(),
        subject_ref_id: "umc_subject".to_string(),
        subject_name: "Nội".to_string(),
        service_name: "Khám Dịch Vụ".to_string(),
        hospital_id: "umc".to_string(),
        city_id: "hcm".to_string(),
        target_date: "2024-10-03".to_string(),
        active: true,
    }
}

fn subject(id: &str, name: Option<&str>) -> Subject {
    Subject { id: id.to_string(), subject_type: None, name: name.map(|s| s.to_string()) }
}

fn service(id: &str, name: Option<&str>, subject_names: Option<Vec<&str>>) -> Service {
    Service {
        id: id.to_string(),
        service_type: None,
        name: name.map(|s| s.to_string()),
        price: None,
        display_detail: None,
        subject_names: subject_names.map(|v| v.into_iter().map(|s| s.to_string()).collect()),
        ctas: None,
    }
}

fn partner(partner_id: Option<&str>, city_id: Option<&str>) -> Partner {
    Partner {
        is_cash_back: None,
        record_id: "p".to_string(),
        partner_id: partner_id.map(|s| s.to_string()),
        name: None,
        address: None,
        city_id: city_id.map(|s| s.to_string()),
        slug: None,
        new_hospital_types: None,
    }
}

fn candidate(
    title: Option<&str>,
    subjects: Option<Vec<Subject>>,
    services: Option<Vec<Service>>,
    partner: Option<Partner>,
) -> ResultItem {
    ResultItem {
        id: Some("doctor-1".to_string()),
        partner_id: None,
        title: title.map(|s| s.to_string()),
        role: None,
        gender: None,
        category: None,
        desc: None,
        tags: None,
        desc2: None,
        price: None,
        price_description: None,
        tree_id: None,
        trees: None,
        days: None,
        hospital_address: None,
        hospitals: None,
        subjects,
        services,
        data: None,
        original_price: None,
        cta: None,
        description: None,
        partner,
    }
}

fn matching_candidate() -> ResultItem {
    candidate(
        Some("Trần Ngọc Tài"),
        Some(vec![subject("s-eye", Some("Mắt")), subject("s-int", Some("Khoa NỘI tổng quát"))]),
        Some(vec![
            service("sv-other", Some("Khám Dịch Vụ"), Some(vec!["Mắt"])),
            service("sv-1", Some("KHÁM DỊCH VỤ"), Some(vec!["Tai", "nội tiết"])),
        ]),
        Some(partner(Some("umc"), Some("hcm"))),
    )
}

fn group(results: Vec<ResultItem>) -> SearchApiResponse {
    SearchApiResponse {
        category: "doctor".to_string(),
        search_key: "Trần Ngọc Tài".to_string(),
        hospitals: vec![],
        cities: vec![],
        total: None,
        results,
    }
}

fn slot_ids(p: &AppointmentPicking) -> Vec<String> {
    p.available_slot.as_ref().unwrap().iter().map(|s| s.time_id.clone()).collect()
}

/// Feeds events to a run from its start until it is done, counting the
/// deliveries it asks for.
fn drive(events: Vec<RunEvent>) -> (RunState, usize) {
    let mut state = RunState::FetchTarget;
    let mut deliveries = 0;
    for event in events {
        if let RunState::Done(_) = state {
            break;
        }
        state = advance(state, event);
        if let RunState::Notifying(_) = state {
            deliveries += 1;
        }
    }
    (state, deliveries)
}

fn full_run(days: Vec<Day>, delivered: bool) -> (RunState, usize) {
    drive(vec![
        RunEvent::TargetLoaded(Some(target())),
        RunEvent::SearchReturned(vec![group(vec![matching_candidate()])]),
        RunEvent::AppointmentsReturned(response(days)),
        if delivered { RunEvent::Delivered } else { RunEvent::DeliveryFailed },
    ])
}

#[test]
fn slot_inclusion_follows_capacity() {
    let slots = vec![
        slot("zero", Some(0), Some(5)),
        slot("two", Some(2), Some(5)),
        slot("over", Some(6), Some(5)),
        slot("full", Some(5), Some(5)),
        slot("unknown", None, Some(5)),
        slot("no-max", Some(1), None),
        slot("one", Some(1), Some(1)),
    ];
    let kept: Vec<String> = qualifying_slots(&slots).iter().map(|s| s.time_id.clone()).collect();
    assert_eq!(kept, vec!["two", "full", "one"]);
    assert!(qualifying_slots(&vec![]).is_empty());
}

#[test]
fn bookable_slot_keeps_its_fields() {
    let kept = qualifying_slots(&vec![slot("a", Some(3), Some(4))]);
    assert_eq!(kept.len(), 1);
    assert_eq!(kept[0].start_time, "a-start");
    assert_eq!(kept[0].end_time, "a-end");
    assert_eq!(kept[0].available_slot, Some(3));
    assert_eq!(kept[0].max_slot, Some(4));
}

#[test]
fn found_outcome_keeps_first_bookable_slot() {
    let days = vec![day(
        Some(OCT_3_MIDNIGHT),
        vec![shift("morning", Some("Thứ 5"), Some(vec![slot("s1", Some(2), Some(5)), slot("s2", Some(0), Some(5))]))],
    )];
    let picked = scan(&days, &"Trần Ngọc Tài".to_string(), &"2024-10-03".to_string(), OCT_3_DAY_NUMBER).unwrap();
    assert_eq!(slot_ids(&picked), vec!["s1"]);
    assert_eq!(picked.doctor_name.as_deref(), Some("Trần Ngọc Tài"));
    assert_eq!(picked.appointment_date.as_deref(), Some("2024-10-03"));
    assert_eq!(picked.appointment_day.as_deref(), Some("Thứ 5"));

    let (state, deliveries) = full_run(days, true);
    assert_eq!(deliveries, 1);
    match state {
        RunState::Done(Ok(p)) => {
            assert_eq!(slot_ids(&p), vec!["s1"]);
            assert_eq!(p.appointment_day.as_deref(), Some("Thứ 5"));
        },
        other => panic!("unexpected state {other:?}"),
    }
}

#[test]
fn missing_date_gives_not_found_outcome() {
    let days = vec![
        day(Some(OCT_2_EVENING), vec![shift("a", None, Some(vec![slot("x", Some(1), Some(2))]))]),
        day(Some(OCT_4_MIDNIGHT), vec![shift("b", None, Some(vec![slot("y", Some(1), Some(2))]))]),
    ];
    assert!(scan(&days, &"Trần Ngọc Tài".to_string(), &"2024-10-03".to_string(), OCT_3_DAY_NUMBER).is_none());
    let (state, deliveries) = full_run(days, true);
    assert_eq!(deliveries, 1);
    match state {
        RunState::Done(Ok(p)) => {
            assert_eq!(p.doctor_name.as_deref(), Some("Trần Ngọc Tài"));
            assert_eq!(p.appointment_date.as_deref(), Some("2024-10-03"));
            assert!(p.available_slot.is_none());
            assert!(p.appointment_day.is_none());
            assert!(p.doctor_change_info.is_none());
        },
        other => panic!("unexpected state {other:?}"),
    }
}

#[test]
fn not_found_outcome_holds_name_and_date() {
    let p = not_found_outcome(&target());
    assert_eq!(p.doctor_name.as_deref(), Some("Trần Ngọc Tài"));
    assert_eq!(p.appointment_date.as_deref(), Some("2024-10-03"));
    assert!(p.appointment_day.is_none() && p.available_slot.is_none() && p.doctor_change_info.is_none());
}

#[test]
fn scan_returns_first_qualifying_day() {
    let days = vec![
        day(Some(OCT_3_MIDNIGHT), vec![shift("empty", Some("first"), Some(vec![slot("none", Some(0), Some(3))]))]),
        day(Some(OCT_3_MIDNIGHT + 3_600_000), vec![shift("early", Some("second"), Some(vec![slot("e", Some(1), Some(3))]))]),
        day(Some(OCT_3_LAST_SECOND), vec![shift("late", Some("third"), Some(vec![slot("l", Some(3), Some(3))]))]),
    ];
    let picked = scan(&days, &"d".to_string(), &"2024-10-03".to_string(), OCT_3_DAY_NUMBER).unwrap();
    assert_eq!(picked.appointment_day.as_deref(), Some("second"));
    assert_eq!(slot_ids(&picked), vec!["e"]);
    assert!(scan(&vec![], &"d".to_string(), &"2024-10-03".to_string(), OCT_3_DAY_NUMBER).is_none());
}

#[test]
fn scan_returns_first_qualifying_shift_not_largest() {
    let d = day(
        Some(OCT_3_MIDNIGHT),
        vec![
            shift("no-list", Some("a"), None),
            shift("small", Some("b"), Some(vec![slot("s", Some(1), Some(10))])),
            shift("large", Some("c"), Some(vec![slot("l1", Some(9), Some(10)), slot("l2", Some(9), Some(10))])),
        ],
    );
    let picked = find_available_shift(&d, &"d".to_string(), &"2024-10-03".to_string(), OCT_3_DAY_NUMBER).unwrap();
    assert_eq!(picked.appointment_day.as_deref(), Some("b"));
    assert_eq!(slot_ids(&picked), vec!["s"]);
}

#[test]
fn shift_change_descriptor_is_carried() {
    let mut sh = shift("m", Some("x"), Some(vec![slot("s", Some(1), Some(1))]));
    sh.doctor_change_info = Some(DoctorChangeInfo {
        change_doctor_id: Some("d2".to_string()),
        change_doctor_name: Some("Other".to_string()),
        role: None,
        label_prefix: None,
        label: Some("label".to_string()),
        reason_change_doctor: None,
    });
    let d = day(Some(OCT_3_MIDNIGHT), vec![sh]);
    let picked = find_available_shift(&d, &"d".to_string(), &"2024-10-03".to_string(), OCT_3_DAY_NUMBER).unwrap();
    let info = picked.doctor_change_info.unwrap();
    assert_eq!(info.change_doctor_name.as_deref(), Some("Other"));
    assert_eq!(info.label.as_deref(), Some("label"));
}

#[test]
fn day_without_date_or_other_date_does_not_match() {
    let slots = Some(vec![slot("s", Some(1), Some(1))]);
    let undated = day(None, vec![shift("m", None, slots.clone())]);
    assert!(find_available_shift(&undated, &"d".to_string(), &"2024-10-03".to_string(), OCT_3_DAY_NUMBER).is_none());
    let next_day = day(Some(OCT_4_MIDNIGHT), vec![shift("m", None, slots.clone())]);
    assert!(find_available_shift(&next_day, &"d".to_string(), &"2024-10-03".to_string(), OCT_3_DAY_NUMBER).is_none());
    let far = day(Some(i64::MAX), vec![shift("m", None, slots)]);
    assert!(find_available_shift(&far, &"d".to_string(), &"2024-10-03".to_string(), OCT_3_DAY_NUMBER).is_none());
}

#[test]
fn utc_day_numbers() {
    assert_eq!(day_number_of_millis(0), Some(719_163));
    assert_eq!(day_number_of_millis(-1), Some(719_162));
    assert_eq!(day_number_of_millis(OCT_3_MIDNIGHT), Some(OCT_3_DAY_NUMBER));
    assert_eq!(day_number_of_millis(OCT_3_LAST_SECOND), Some(OCT_3_DAY_NUMBER));
    assert_eq!(day_number_of_millis(OCT_4_MIDNIGHT), Some(OCT_3_DAY_NUMBER + 1));
    assert_eq!(day_number_of_millis(i64::MIN), None);
}

#[test]
fn validate_confirms_matching_candidate() {
    let sel = validate(&matching_candidate(), &target()).unwrap();
    assert_eq!(sel.subject_id.as_deref(), Some("s-int"));
    assert_eq!(sel.service_id.as_deref(), Some("sv-1"));
    assert_eq!(sel.doctor_id.as_deref(), Some("doctor-1"));
    assert_eq!(sel.partner_id.as_deref(), Some("umc"));
}

#[test]
fn validate_needs_name_and_partner() {
    let mut c = matching_candidate();
    c.partner = Some(partner(Some("umc"), Some("hn")));
    assert!(validate(&c, &target()).is_none());
    c.partner = None;
    assert!(validate(&c, &target()).is_none());
    c.partner = Some(partner(Some("other"), Some("hcm")));
    assert!(validate(&c, &target()).is_none());
    let mut lower = matching_candidate();
    lower.title = Some("trần ngọc tài".to_string());
    assert!(validate(&lower, &target()).is_none());
}

#[test]
fn validate_fails_early_on_unmatched_lists() {
    let mut c = matching_candidate();
    c.subjects = Some(vec![subject("s-eye", Some("Mắt"))]);
    assert!(validate(&c, &target()).is_none());
    let mut sel = DoctorAppointment::unresolved();
    assert!(!validate_doctor(&c, &mut sel, &target()));
    assert!(sel.subject_id.is_none() && sel.doctor_id.is_none() && sel.partner_id.is_none());

    let mut c = matching_candidate();
    c.services = Some(vec![service("sv", Some("Khám Dịch Vụ"), None)]);
    let mut sel = DoctorAppointment::unresolved();
    assert!(!validate_doctor(&c, &mut sel, &target()));
    assert_eq!(sel.subject_id.as_deref(), Some("s-int"));
    assert!(sel.service_id.is_none() && sel.doctor_id.is_none());
}

#[test]
fn name_mismatch_gives_none() {
    let mut c = matching_candidate();
    c.title = Some("Nguyễn Văn A".to_string());
    assert!(validate(&c, &target()).is_none());
    let mut sel = DoctorAppointment::unresolved();
    assert!(!validate_doctor(&c, &mut sel, &target()));
    assert_eq!(sel.subject_id.as_deref(), Some("s-int"));
    assert_eq!(sel.service_id.as_deref(), Some("sv-1"));
    assert_eq!(sel.partner_id.as_deref(), Some("umc"));
    assert_eq!(sel.doctor_id.as_deref(), Some("doctor-1"));
}

#[test]
fn absent_lists_pass_through() {
    let c = candidate(Some("Trần Ngọc Tài"), None, None, Some(partner(Some("umc"), Some("hcm"))));
    let sel = validate(&c, &target()).unwrap();
    assert!(sel.subject_id.is_none() && sel.service_id.is_none());
    assert_eq!(sel.doctor_id.as_deref(), Some("doctor-1"));
    assert_eq!(sel.partner_id.as_deref(), Some("umc"));
}

#[test]
fn subject_match_ignores_case_of_both_sides() {
    let mut t = target();
    t.subject_name = "NỘI".to_string();
    assert!(validate(&matching_candidate(), &t).is_some());
}

#[test]
fn subject_must_occur_in_candidate_subject() {
    let mut t = target();
    t.subject_name = "NỘ".to_string();
    assert!(validate(&matching_candidate(), &t).is_some());
    t.subject_name = "khoa nội tổng".to_string();
    assert!(validate(&matching_candidate(), &t).is_none());
    t.subject_name = "nội khoa".to_string();
    assert!(validate(&matching_candidate(), &t).is_none());
    let mut t = target();
    t.service_name = "Khám".to_string();
    assert!(validate(&matching_candidate(), &t).is_none());
}

#[test]
fn pick_candidate_takes_first_of_first_group() {
    assert!(pick_candidate(&vec![]).is_none());
    assert!(pick_candidate(&vec![group(vec![]), group(vec![matching_candidate()])]).is_none());
    let mut second = matching_candidate();
    second.id = Some("doctor-2".to_string());
    let groups = vec![group(vec![matching_candidate(), second])];
    assert_eq!(pick_candidate(&groups).unwrap().id.as_deref(), Some("doctor-1"));
}

#[test]
fn run_without_target_does_not_notify() {
    let (state, deliveries) = drive(vec![RunEvent::TargetLoaded(None), RunEvent::Delivered]);
    assert_eq!(deliveries, 0);
    assert!(matches!(state, RunState::Done(Err(RunError::NoTargetConfigured))));
    let (state, deliveries) = drive(vec![RunEvent::TargetLookupFailed]);
    assert_eq!(deliveries, 0);
    assert!(matches!(state, RunState::Done(Err(RunError::TargetLookupFailed))));
}

#[test]
fn run_without_candidate_does_not_notify() {
    let (state, deliveries) = drive(vec![
        RunEvent::TargetLoaded(Some(target())),
        RunEvent::SearchReturned(vec![]),
    ]);
    assert_eq!(deliveries, 0);
    assert!(matches!(state, RunState::Done(Err(RunError::NoSearchCandidate))));
}

#[test]
fn run_with_wrong_candidate_does_not_notify() {
    let mut c = matching_candidate();
    c.title = Some("Nguyễn Văn A".to_string());
    let (state, deliveries) = drive(vec![
        RunEvent::TargetLoaded(Some(target())),
        RunEvent::SearchReturned(vec![group(vec![c])]),
    ]);
    assert_eq!(deliveries, 0);
    assert!(matches!(state, RunState::Done(Err(RunError::IdentityValidationFailed))));
}

#[test]
fn run_with_unresolved_identifier_stops() {
    let c = candidate(Some("Trần Ngọc Tài"), None, None, Some(partner(Some("umc"), Some("hcm"))));
    let (state, deliveries) = drive(vec![
        RunEvent::TargetLoaded(Some(target())),
        RunEvent::SearchReturned(vec![group(vec![c])]),
    ]);
    assert_eq!(deliveries, 0);
    assert!(matches!(state, RunState::Done(Err(RunError::MissingIdentifier))));
}

#[test]
fn run_with_upstream_failure_does_not_notify() {
    let (state, deliveries) = drive(vec![RunEvent::TargetLoaded(Some(target())), RunEvent::SearchFailed]);
    assert_eq!(deliveries, 0);
    assert!(matches!(state, RunState::Done(Err(RunError::UpstreamFetchFailed))));
    let (state, deliveries) = drive(vec![
        RunEvent::TargetLoaded(Some(target())),
        RunEvent::SearchReturned(vec![group(vec![matching_candidate()])]),
        RunEvent::AppointmentsFailed,
    ]);
    assert_eq!(deliveries, 0);
    assert!(matches!(state, RunState::Done(Err(RunError::UpstreamFetchFailed))));
}

#[test]
fn run_asks_for_query_of_confirmed_candidate() {
    let state = advance(RunState::FetchTarget, RunEvent::TargetLoaded(Some(target())));
    let state = advance(state, RunEvent::SearchReturned(vec![group(vec![matching_candidate()])]));
    match state {
        RunState::FetchingAppointments(t, q) => {
            assert_eq!(t.doctor_ref_id, "umc_453");
            assert_eq!(q.subject_id, "s-int");
            assert_eq!(q.doctor_id, "doctor-1");
            assert_eq!(q.service_id, "sv-1");
            assert_eq!(q.partner_id, "umc");
        },
        other => panic!("unexpected state {other:?}"),
    }
}

#[test]
fn run_with_bad_target_date_stops() {
    let mut t = target();
    t.target_date = "03/10/2024".to_string();
    let (state, deliveries) = drive(vec![
        RunEvent::TargetLoaded(Some(t)),
        RunEvent::SearchReturned(vec![group(vec![matching_candidate()])]),
        RunEvent::AppointmentsReturned(response(vec![])),
    ]);
    assert_eq!(deliveries, 0);
    assert!(matches!(state, RunState::Done(Err(RunError::InvalidTargetDate))));
}

#[test]
fn failed_delivery_is_reported() {
    let (state, deliveries) = full_run(vec![], false);
    assert_eq!(deliveries, 1);
    assert!(matches!(state, RunState::Done(Err(RunError::NotificationDeliveryFailed))));
}

#[test]
fn unexpected_event_ends_run() {
    let (state, deliveries) = drive(vec![RunEvent::Delivered]);
    assert_eq!(deliveries, 0);
    assert!(matches!(state, RunState::Done(Err(RunError::UnexpectedEvent))));
}

#[test]
fn finished_run_stays_finished() {
    let state = advance(RunState::Done(Err(RunError::NoSearchCandidate)), RunEvent::Delivered);
    assert!(matches!(state, RunState::Done(Err(RunError::NoSearchCandidate))));
}

#[test]
fn scheduler_fires_once_clock_reaches_instant() {
    assert!(should_fire(Some(10), 10));
    assert!(should_fire(Some(10), 11));
    assert!(!should_fire(Some(10), 9));
    assert!(!should_fire(None, 100));

    let every_eight_hours = Scheduler::from_expression("0 0 0/8 * * *").unwrap();
    let computed_at = 1_727_942_399; // 2024-10-03T07:59:59Z
    let eight = 1_727_942_400; // 2024-10-03T08:00:00Z
    assert_eq!(every_eight_hours.due_instant(computed_at, eight), Some(eight));
    assert_eq!(every_eight_hours.due_instant(computed_at, eight - 1), None);
    assert_eq!(every_eight_hours.due_instant(eight, eight + 3_600), None);
    assert!(Scheduler::from_expression("not a schedule").is_none());
}

#[test]
fn med_target_builder_keeps_values() {
    let t = MedTarget::builder("a".to_string(), "s".to_string(), "o".to_string(), "id".to_string()).build();
    assert_eq!(t.appointment_api, "a");
    assert_eq!(t.search_med_api, "s");
    assert_eq!(t.origin_header, "o");
    assert_eq!(t.appid_header, "id");
    let b = MedTargetBuilder::new("1".to_string(), "2".to_string(), "3".to_string(), "4".to_string());
    assert_eq!(b.build().appid_header, "4");
}

#[test]
fn lower_names_follow_candidate_lists() {
    let lowered = lower_names(&matching_candidate(), &target());
    assert_eq!(lowered.subject_name, "nội");
    assert_eq!(lowered.service_name, "khám dịch vụ");
    assert_eq!(lowered.subjects, vec![Some("mắt".to_string()), Some("khoa nội tổng quát".to_string())]);
    assert_eq!(lowered.services.len(), 2);
    assert_eq!(lowered.services[1].0.as_deref(), Some("khám dịch vụ"));
    assert_eq!(lowered.services[1].1, Some(vec!["tai".to_string(), "nội tiết".to_string()]));
    let bare = candidate(Some("x"), None, None, None);
    let lowered = lower_names(&bare, &target());
    assert!(lowered.subjects.is_empty() && lowered.services.is_empty());
}

#[test]
fn validate_lowered_decides_on_given_names() {
    let c = candidate(
        Some("Trần Ngọc Tài"),
        Some(vec![subject("a", Some("ignored")), subject("b", Some("ignored"))]),
        Some(vec![service("x", Some("ignored"), None), service("y", Some("ignored"), None)]),
        Some(partner(Some("umc"), Some("hcm"))),
    );
    let lowered = LoweredNames {
        subject_name: "nội".to_string(),
        service_name: "khám".to_string(),
        subjects: vec![Some("ngoại".to_string()), Some("nội khoa".to_string())],
        services: vec![
            (Some("khám".to_string()), Some(vec!["mắt".to_string()])),
            (Some("khám".to_string()), Some(vec!["tai".to_string(), "nội".to_string()])),
        ],
    };
    let mut sel = DoctorAppointment::unresolved();
    assert!(validate_lowered(&c, &mut sel, &target(), &lowered));
    assert_eq!(sel.subject_id.as_deref(), Some("b"));
    assert_eq!(sel.service_id.as_deref(), Some("y"));
    assert_eq!(sel.partner_id.as_deref(), Some("umc"));
    assert_eq!(sel.doctor_id.as_deref(), Some("doctor-1"));

    let mut upper = lowered.clone();
    upper.service_name = "KHÁM".to_string();
    let mut sel = DoctorAppointment::unresolved();
    assert!(!validate_lowered(&c, &mut sel, &target(), &upper));
    assert_eq!(sel.subject_id.as_deref(), Some("b"));
    assert!(sel.service_id.is_none() && sel.doctor_id.is_none());
}

#[test]
fn decimal_text_of_counts() {
    assert_eq!(decimal_text(0), "0");
    assert_eq!(decimal_text(7), "7");
    assert_eq!(decimal_text(10), "10");
    assert_eq!(decimal_text(1234), "1234");
    assert_eq!(decimal_text(u32::MAX), "4294967295");
}

#[test]
fn mail_text_of_found_outcome() {
    let days = vec![day(
        Some(OCT_3_MIDNIGHT),
        vec![shift("morning", Some("Thứ 5"), Some(vec![slot("s1", Some(2), Some(5)), slot("s2", Some(0), Some(5)), slot("s3", Some(12), None)]))],
    )];
    let mut picked = scan(&days, &"Trần Ngọc Tài".to_string(), &"2024-10-03".to_string(), OCT_3_DAY_NUMBER).unwrap();
    let expected = format!(
        "{PAGE_START}Trần Ngọc Tài{DATE_LABEL}2024-10-03{DAY_LABEL}Thứ 5{TABLE_START}<tr><td>s1-start</td><td>s1-end</td><td>5</td><td>2</td></tr>{PAGE_END}"
    );
    assert_eq!(render_notification(&picked), expected);
    picked.available_slot.as_mut().unwrap().push(slot("s9", Some(3), None));
    assert!(render_notification(&picked).contains("<tr><td>s9-start</td><td>s9-end</td><td>0</td><td>3</td></tr>"));
}

#[test]
fn mail_text_of_not_found_outcome() {
    let mut p = not_found_outcome(&target());
    let expected = format!("{PAGE_START}Trần Ngọc Tài{DATE_LABEL}2024-10-03{DAY_LABEL}{TABLE_START}{NO_SLOTS}{PAGE_END}");
    assert_eq!(render_notification(&p), expected);
    p.doctor_name = None;
    assert!(render_notification(&p).starts_with(&format!("{PAGE_START}Unknown{DATE_LABEL}")));
}

#[test]
fn compared_range_is_whole_days() {
    assert_eq!(day_number_of_millis(MAX_COMPARED_MILLIS), Some(90_719_163));
    assert_eq!(day_number_of_millis(MAX_COMPARED_MILLIS - 86_399_999), Some(90_719_163));
    assert_eq!(day_number_of_millis(MAX_COMPARED_MILLIS + 1), None);
    assert_eq!(day_number_of_millis(MIN_COMPARED_MILLIS), Some(-89_280_837));
    assert_eq!(day_number_of_millis(MIN_COMPARED_MILLIS - 1), None);
}

#[test]
fn search_query_of_target() {
    let q = search_query(&target());
    assert_eq!(q.search_key, "Trần Ngọc Tài");
    assert_eq!(q.city_id, "hcm");
    assert_eq!(q.subject_ids, "umc_subject");
    assert_eq!(q.category, "doctor");
    assert_eq!((q.limit, q.offset), (3, 1));
}

#[test]
fn scheduler_fires_for_next_instant_after_overrun() {
    let every_eight_hours = Scheduler::from_expression("0 0 0/8 * * *").unwrap();
    let sixteen = 1_727_971_200; // 2024-10-03T16:00:00Z
    let after_overrun = 1_727_942_400 + 5; // computed just after 08:00:05Z
    assert_eq!(every_eight_hours.due_instant(after_overrun, sixteen - 1), None);
    assert_eq!(every_eight_hours.due_instant(after_overrun, sixteen + 100), Some(sixteen));
    let every_second = Scheduler::from_expression("* * * * * *").unwrap();
    assert_eq!(every_second.due_instant(100, 101), Some(101));
}
