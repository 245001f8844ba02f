//! Deciding whether a search candidate is the stored target, and resolving
//! the platform identifiers of a confirmed candidate.
//!
//! The subject and service checks end validation at once when a candidate
//! lists subjects (or services) and none matches; a candidate without such a
//! list passes that check. The name and partner checks are evaluated after
//! them and combined at the end. Subject and service names are compared in
//! lower case on both sides: `lower_names` lowers every name compared, and
//! `validate_lowered` decides on those lowered names.

use vstd::prelude::*;
use crate::appointment_model::copy_text;
use crate::doctor_appointment::DoctorAppointment;
use crate::documents::Doctor;
use crate::first_match::{first_match, lemma_first_match, lemma_first_match_is};
use crate::search_model::{ResultItem, Service, Subject};
use crate::text::{lower_of, lowercase, occurs_in, text_contains};

verus! {

/// Lower-case forms of the names that identity matching compares. The
/// candidate's subject and service lists are followed position for position
/// (empty where the candidate has no list); a service's entry holds its name
/// and the names of the subjects it applies to.
#[derive(Debug, Clone)]
pub struct LoweredNames {
    pub subject_name: String,
    pub service_name: String,
    pub subjects: Vec<Option<String>>,
    pub services: Vec<(Option<String>, Option<Vec<String>>)>,
}

/// The characters of an optional text.
pub open spec fn text_view(o: Option<String>) -> Option<Seq<char>> {
    match o {
        Some(s) => Some(s@),
        None => None,
    }
}

/// The characters of each text of an optional list.
pub open spec fn texts_view(o: Option<Vec<String>>) -> Option<Seq<Seq<char>>> {
    match o {
        Some(v) => Some(v@.map_values(|s: String| s@)),
        None => None,
    }
}

/// A lowered service entry: its name and the names of its subjects.
pub type LoweredService = (Option<Seq<char>>, Option<Seq<Seq<char>>>);

/// The lowered names as sequences of characters.
pub struct LoweredView {
    pub subject_name: Seq<char>,
    pub service_name: Seq<char>,
    pub subjects: Seq<Option<Seq<char>>>,
    pub services: Seq<LoweredService>,
}

impl View for LoweredNames {
    type V = LoweredView;

    open spec fn view(&self) -> LoweredView {
        LoweredView {
            subject_name: self.subject_name@,
            service_name: self.service_name@,
            subjects: self.subjects@.map_values(|o: Option<String>| text_view(o)),
            services: self.services@.map_values(
                |p: (Option<String>, Option<Vec<String>>)| (text_view(p.0), texts_view(p.1)),
            ),
        }
    }
}

/// Lower case of an optional text.
pub open spec fn lower_opt(o: Option<String>) -> Option<Seq<char>> {
    match o {
        Some(s) => Some(lower_of(s@)),
        None => None,
    }
}

/// Lower case of each text of an optional list.
pub open spec fn lower_all(o: Option<Vec<String>>) -> Option<Seq<Seq<char>>> {
    match o {
        Some(v) => Some(v@.map_values(|s: String| lower_of(s@))),
        None => None,
    }
}

/// The lowered names of candidate `c` and target `t`.
pub open spec fn lowering_of(c: ResultItem, t: Doctor) -> LoweredView {
    LoweredView {
        subject_name: lower_of(t.subject_name@),
        service_name: lower_of(t.service_name@),
        subjects: match c.subjects {
            Some(v) => v@.map_values(|s: Subject| lower_opt(s.name)),
            None => Seq::empty(),
        },
        services: match c.services {
            Some(v) => v@.map_values(|s: Service| (lower_opt(s.name), lower_all(s.subject_names))),
            None => Seq::empty(),
        },
    }
}

/// `lv` follows the candidate's lists position for position.
pub open spec fn fits_candidate(lv: LoweredView, c: ResultItem) -> bool {
    &&& lv.subjects.len() == match c.subjects {
        Some(v) => v@.len(),
        None => 0,
    }
    &&& lv.services.len() == match c.services {
        Some(v) => v@.len(),
        None => 0,
    }
}

/// The predicate "a lowered subject name mentions the target's subject".
pub open spec fn subject_hit(lv: LoweredView) -> spec_fn(Option<Seq<char>>) -> bool {
    |n: Option<Seq<char>>| n is Some && occurs_in(lv.subject_name, n->0)
}

/// A lowered service entry has the target's service name and applies to the
/// target's subject.
pub open spec fn service_fits(p: LoweredService, lv: LoweredView) -> bool {
    &&& p.0 is Some
    &&& p.0->0 == lv.service_name
    &&& p.1 is Some
    &&& exists|k: int| 0 <= k < p.1->0.len() && occurs_in(lv.subject_name, #[trigger] p.1->0[k])
}

/// The predicate "a lowered service entry fits the target".
pub open spec fn service_hit(lv: LoweredView) -> spec_fn(LoweredService) -> bool {
    |p: LoweredService| service_fits(p, lv)
}

/// The subject check passes: no subject list, or a matching subject in it.
pub open spec fn subjects_pass(c: ResultItem, lv: LoweredView) -> bool {
    c.subjects is None || first_match(lv.subjects, subject_hit(lv)) is Some
}

/// The service check passes: no service list, or a matching service in it.
pub open spec fn services_pass(c: ResultItem, lv: LoweredView) -> bool {
    c.services is None || first_match(lv.services, service_hit(lv)) is Some
}

/// The candidate's display name is the target's name, exactly.
pub open spec fn name_matches(c: ResultItem, t: Doctor) -> bool {
    c.title is Some && c.title->0@ == t.doctor_name@
}

/// The candidate's partner is the target's hospital, in the target's city.
pub open spec fn partner_matches(c: ResultItem, t: Doctor) -> bool {
    &&& c.partner is Some
    &&& c.partner->0.partner_id is Some
    &&& c.partner->0.partner_id->0@ == t.hospital_id@
    &&& c.partner->0.city_id is Some
    &&& c.partner->0.city_id->0@ == t.city_id@
}

/// Every check passes, on the lowered names `lv`.
pub open spec fn confirmed_with(c: ResultItem, t: Doctor, lv: LoweredView) -> bool {
    subjects_pass(c, lv) && services_pass(c, lv) && name_matches(c, t) && partner_matches(c, t)
}

/// The candidate is the target.
pub open spec fn identity_confirmed(c: ResultItem, t: Doctor) -> bool {
    confirmed_with(c, t, lowering_of(c, t))
}

/// The subject id recorded by the subject check, starting from `prev`.
pub open spec fn resolved_subject(c: ResultItem, lv: LoweredView, prev: Option<String>) -> Option<String> {
    match c.subjects {
        Some(v) => match first_match(lv.subjects, subject_hit(lv)) {
            Some(i) => Some(v@[i].id),
            None => prev,
        },
        None => prev,
    }
}

/// The service id recorded by the service check, starting from `prev`.
pub open spec fn resolved_service(c: ResultItem, lv: LoweredView, prev: Option<String>) -> Option<String> {
    match c.services {
        Some(v) => match first_match(lv.services, service_hit(lv)) {
            Some(i) => Some(v@[i].id),
            None => prev,
        },
        None => prev,
    }
}

/// `sel` is `prev` after the checks of candidate `c` on lowered names `lv`:
/// each identifier is recorded as its check resolves it, and a failed
/// subject or service check leaves the later ones as they were.
pub open spec fn recorded(sel: DoctorAppointment, prev: DoctorAppointment, c: ResultItem, t: Doctor, lv: LoweredView) -> bool {
    &&& sel.subject_id == resolved_subject(c, lv, prev.subject_id)
    &&& sel.service_id == if subjects_pass(c, lv) {
        resolved_service(c, lv, prev.service_id)
    } else {
        prev.service_id
    }
    &&& sel.partner_id == if subjects_pass(c, lv) && services_pass(c, lv) && partner_matches(c, t) {
        c.partner->0.partner_id
    } else {
        prev.partner_id
    }
    &&& sel.doctor_id == if subjects_pass(c, lv) && services_pass(c, lv) {
        c.id
    } else {
        prev.doctor_id
    }
}

/// The identifiers resolved for a confirmed candidate.
pub open spec fn selector_of(c: ResultItem, t: Doctor) -> DoctorAppointment {
    let lv = lowering_of(c, t);
    DoctorAppointment {
        subject_id: resolved_subject(c, lv, None),
        doctor_id: c.id,
        service_id: resolved_service(c, lv, None),
        partner_id: c.partner->0.partner_id,
    }
}

/// Lower case of an optional text.
fn lower_text(o: &Option<String>) -> (r: Option<String>)
    ensures
        text_view(r) == lower_opt(*o),
{
    match o {
        Some(s) => Some(lowercase(s.as_str())),
        None => None,
    }
}

/// Lower case of each text of an optional list.
fn lower_texts(o: &Option<Vec<String>>) -> (r: Option<Vec<String>>)
    ensures
        texts_view(r) == lower_all(*o),
{
    match o {
        Some(v) => {
            let mut out: Vec<String> = Vec::new();
            let mut i: usize = 0;
            while i < v.len()
                invariant
                    i <= v@.len(),
                    out@.len() == i,
                    forall|k: int| 0 <= k < i ==> (#[trigger] out@[k])@ == lower_of(v@[k]@),
                decreases v@.len() - i,
            {
                out.push(lowercase(v[i].as_str()));
                i = i + 1;
            }
            assert(out@.map_values(|s: String| s@) =~= v@.map_values(|s: String| lower_of(s@)));
            Some(out)
        },
        None => None,
    }
}

/// The lowered names that validating `candidate` against `target` compares.
pub fn lower_names(candidate: &ResultItem, target: &Doctor) -> (r: LoweredNames)
    ensures
        r@ == lowering_of(*candidate, *target),
{
    let mut subjects: Vec<Option<String>> = Vec::new();
    if let Some(v) = &candidate.subjects {
        let mut i: usize = 0;
        while i < v.len()
            invariant
                i <= v@.len(),
                subjects@.len() == i,
                forall|k: int| 0 <= k < i ==> text_view(#[trigger] subjects@[k]) == lower_opt(v@[k].name),
            decreases v@.len() - i,
        {
            subjects.push(lower_text(&v[i].name));
            i = i + 1;
        }
        assert(subjects@.map_values(|o: Option<String>| text_view(o)) =~= v@.map_values(
            |s: Subject| lower_opt(s.name),
        ));
    } else {
        assert(subjects@.map_values(|o: Option<String>| text_view(o)) =~= Seq::<Option<Seq<char>>>::empty());
    }
    let mut services: Vec<(Option<String>, Option<Vec<String>>)> = Vec::new();
    if let Some(v) = &candidate.services {
        let mut i: usize = 0;
        while i < v.len()
            invariant
                i <= v@.len(),
                services@.len() == i,
                forall|k: int|
                    0 <= k < i ==> (text_view((#[trigger] services@[k]).0), texts_view(services@[k].1)) == (
                        lower_opt(v@[k].name),
                        lower_all(v@[k].subject_names),
                    ),
            decreases v@.len() - i,
        {
            services.push((lower_text(&v[i].name), lower_texts(&v[i].subject_names)));
            i = i + 1;
        }
        assert(services@.map_values(
            |p: (Option<String>, Option<Vec<String>>)| (text_view(p.0), texts_view(p.1)),
        ) =~= v@.map_values(|s: Service| (lower_opt(s.name), lower_all(s.subject_names))));
    } else {
        assert(services@.map_values(
            |p: (Option<String>, Option<Vec<String>>)| (text_view(p.0), texts_view(p.1)),
        ) =~= Seq::<LoweredService>::empty());
    }
    LoweredNames {
        subject_name: lowercase(target.subject_name.as_str()),
        service_name: lowercase(target.service_name.as_str()),
        subjects,
        services,
    }
}

/// Position of the first lowered subject name that mentions the lowered
/// target subject.
fn find_subject(lowered: &LoweredNames) -> (r: Option<usize>)
    ensures
        r is Some <==> first_match(lowered@.subjects, subject_hit(lowered@)) is Some,
        r is Some ==> first_match(lowered@.subjects, subject_hit(lowered@)) == Some(r->0 as int),
{
    let ghost lv = lowered@;
    let mut i: usize = 0;
    while i < lowered.subjects.len()
        invariant
            i <= lv.subjects.len(),
            lv == lowered@,
            forall|k: int| 0 <= k < i ==> !subject_hit(lv)(#[trigger] lv.subjects[k]),
        decreases lv.subjects.len() - i,
    {
        let found = match &lowered.subjects[i] {
            Some(name) => text_contains(name.as_str(), lowered.subject_name.as_str()),
            None => false,
        };
        if found {
            proof {
                lemma_first_match_is(lv.subjects, subject_hit(lv), i as int);
            }
            return Some(i);
        }
        i = i + 1;
    }
    proof {
        lemma_first_match_is(lv.subjects, subject_hit(lv), i as int);
    }
    None
}

/// Whether a lowered service entry fits the target.
fn service_entry_fits(entry: &(Option<String>, Option<Vec<String>>), lowered: &LoweredNames) -> (r: bool)
    ensures
        r == service_fits((text_view(entry.0), texts_view(entry.1)), lowered@),
{
    let name_ok = match &entry.0 {
        Some(name) => *name == lowered.service_name,
        None => false,
    };
    if !name_ok {
        return false;
    }
    match &entry.1 {
        Some(names) => {
            let ghost p = (text_view(entry.0), texts_view(entry.1));
            let mut k: usize = 0;
            while k < names.len()
                invariant
                    k <= names@.len(),
                    p == (text_view(entry.0), texts_view(entry.1)),
                    entry.1 == Some(*names),
                    p.0 is Some,
                    p.0->0 == lowered@.service_name,
                    forall|m: int| 0 <= m < k ==> !occurs_in(lowered@.subject_name, #[trigger] p.1->0[m]),
                decreases names@.len() - k,
            {
                if text_contains(names[k].as_str(), lowered.subject_name.as_str()) {
                    assert(p.1->0[k as int] == names@[k as int]@);
                    return true;
                }
                assert(p.1->0[k as int] == names@[k as int]@);
                k = k + 1;
            }
            false
        },
        None => false,
    }
}

/// Position of the first lowered service entry that fits the target.
fn find_service(lowered: &LoweredNames) -> (r: Option<usize>)
    ensures
        r is Some <==> first_match(lowered@.services, service_hit(lowered@)) is Some,
        r is Some ==> first_match(lowered@.services, service_hit(lowered@)) == Some(r->0 as int),
{
    let ghost lv = lowered@;
    let mut i: usize = 0;
    while i < lowered.services.len()
        invariant
            i <= lv.services.len(),
            lv == lowered@,
            forall|k: int| 0 <= k < i ==> !service_hit(lv)(#[trigger] lv.services[k]),
        decreases lv.services.len() - i,
    {
        if service_entry_fits(&lowered.services[i], lowered) {
            proof {
                lemma_first_match_is(lv.services, service_hit(lv), i as int);
            }
            return Some(i);
        }
        i = i + 1;
    }
    proof {
        lemma_first_match_is(lv.services, service_hit(lv), i as int);
    }
    None
}

/// Runs the identity checks of `candidate` against `target` on the lowered
/// names `lowered`, recording in `selector` each identifier as its check
/// resolves it, and returns whether every check passed.
pub fn validate_lowered(
    candidate: &ResultItem,
    selector: &mut DoctorAppointment,
    target: &Doctor,
    lowered: &LoweredNames,
) -> (r: bool)
    requires
        fits_candidate(lowered@, *candidate),
    ensures
        r == confirmed_with(*candidate, *target, lowered@),
        recorded(*final(selector), *old(selector), *candidate, *target, lowered@),
{
    let name_ok = match &candidate.title {
        Some(title) => *title == target.doctor_name,
        None => false,
    };
    if let Some(subjects) = &candidate.subjects {
        proof {
            lemma_first_match(lowered@.subjects, subject_hit(lowered@));
        }
        match find_subject(lowered) {
            Some(i) => {
                selector.subject_id = Some(subjects[i].id.clone());
            },
            None => {
                return false;
            },
        }
    }
    if let Some(services) = &candidate.services {
        proof {
            lemma_first_match(lowered@.services, service_hit(lowered@));
        }
        match find_service(lowered) {
            Some(i) => {
                selector.service_id = Some(services[i].id.clone());
            },
            None => {
                return false;
            },
        }
    }
    let partner_ok = match &candidate.partner {
        Some(partner) => {
            let hospital_ok = match &partner.partner_id {
                Some(id) => *id == target.hospital_id,
                None => false,
            };
            let city_ok = match &partner.city_id {
                Some(id) => *id == target.city_id,
                None => false,
            };
            if hospital_ok && city_ok {
                selector.partner_id = copy_text(&partner.partner_id);
            }
            hospital_ok && city_ok
        },
        None => false,
    };
    selector.doctor_id = copy_text(&candidate.id);
    name_ok && partner_ok
}

/// Runs the identity checks of `candidate` against `target`, recording in
/// `selector` each identifier as its check resolves it, and returns whether
/// the candidate is the target. A failed subject or service check returns
/// `false` at once, leaving the later identifiers as they were.
pub fn validate_doctor(candidate: &ResultItem, selector: &mut DoctorAppointment, target: &Doctor) -> (r: bool)
    ensures
        r == identity_confirmed(*candidate, *target),
        recorded(*final(selector), *old(selector), *candidate, *target, lowering_of(*candidate, *target)),
{
    let lowered = lower_names(candidate, target);
    validate_lowered(candidate, selector, target, &lowered)
}

/// The identifiers of `candidate` when it is `target`, or `None`. A present
/// subject or service list without a match gives `None` whatever the name
/// and partner; otherwise the result is `Some` exactly when the name and the
/// partner match.
pub fn validate(candidate: &ResultItem, target: &Doctor) -> (r: Option<DoctorAppointment>)
    ensures
        r == (if identity_confirmed(*candidate, *target) {
            Some(selector_of(*candidate, *target))
        } else {
            None::<DoctorAppointment>
        }),
        !subjects_pass(*candidate, lowering_of(*candidate, *target)) || !services_pass(
            *candidate,
            lowering_of(*candidate, *target),
        ) ==> r is None,
        subjects_pass(*candidate, lowering_of(*candidate, *target)) && services_pass(
            *candidate,
            lowering_of(*candidate, *target),
        ) ==> (r is Some <==> name_matches(*candidate, *target) && partner_matches(*candidate, *target)),
{
    let mut selector = DoctorAppointment::unresolved();
    if validate_doctor(candidate, &mut selector, target) {
        Some(selector)
    } else {
        None
    }
}

} // verus!
