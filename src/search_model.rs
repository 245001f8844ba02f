//! Results of the platform's doctor search.

use vstd::prelude::*;

verus! {

/// One group of search results.
#[derive(Debug, Clone)]
pub struct SearchApiResponse {
    pub category: String,
    pub search_key: String,
    pub hospitals: Vec<Hospital>,
    pub cities: Vec<City>,
    pub total: Option<u32>,
    pub results: Vec<ResultItem>,
}

#[derive(Debug, Clone)]
pub struct Hospital {
    pub id: String,
    pub hospital_type: Option<String>,
    pub name: Option<String>,
    pub address: Option<String>,
    pub ctas: Option<Vec<Cta>>,
}

#[derive(Debug, Clone)]
pub struct City {
    pub id: Option<String>,
    pub city_type: Option<String>,
    pub name: Option<String>,
}

/// One search candidate: a doctor with the subjects and services it offers
/// and the partner (hospital) it works for.
#[derive(Debug, Clone)]
pub struct ResultItem {
    pub id: Option<String>,
    pub partner_id: Option<String>,
    pub title: Option<String>,
    pub role: Option<String>,
    pub gender: Option<String>,
    pub category: Option<String>,
    pub desc: Option<String>,
    pub tags: Option<Vec<Tag>>,
    pub desc2: Option<String>,
    pub price: Option<String>,
    pub price_description: Option<String>,
    pub tree_id: Option<String>,
    pub trees: Option<Vec<Tree>>,
    pub days: Option<String>,
    pub hospital_address: Option<String>,
    pub hospitals: Option<Vec<Hospital>>,
    pub subjects: Option<Vec<Subject>>,
    pub services: Option<Vec<Service>>,
    pub data: Option<String>,
    pub original_price: Option<String>,
    pub cta: Option<Cta>,
    pub description: Option<Description>,
    pub partner: Option<Partner>,
}

#[derive(Debug, Clone)]
pub struct Tag {
    pub id: Option<String>,
    pub tag_type: Option<String>,
    pub name: Option<String>,
}

#[derive(Debug, Clone)]
pub struct Tree {
    pub tree_id: Option<String>,
    pub detail_shift_id: Option<String>,
    pub doctor_id: Option<String>,
    pub days: Option<String>,
}

/// A medical subject (speciality) of a candidate.
#[derive(Debug, Clone)]
pub struct Subject {
    pub id: String,
    pub subject_type: Option<String>,
    pub name: Option<String>,
}

/// A service of a candidate, with the names of the subjects it applies to.
#[derive(Debug, Clone)]
pub struct Service {
    pub id: String,
    pub service_type: Option<String>,
    pub name: Option<String>,
    pub price: Option<u32>,
    pub display_detail: Option<String>,
    pub subject_names: Option<Vec<String>>,
    pub ctas: Option<Vec<Cta>>,
}

#[derive(Debug, Clone)]
pub struct Cta {
    pub name: Option<String>,
    pub partner_id: Option<String>,
    pub tree_id: Option<String>,
    pub subject_id: Option<String>,
    pub service_id: Option<String>,
    pub doctor_id: Option<String>,
    pub room_id: Option<String>,
}

#[derive(Debug, Clone)]
pub struct Description {
    pub rating: Option<u32>,
}

/// The hospital a candidate works for, with its city.
#[derive(Debug, Clone)]
pub struct Partner {
    pub is_cash_back: Option<bool>,
    pub record_id: String,
    pub partner_id: Option<String>,
    pub name: Option<String>,
    pub address: Option<String>,
    pub city_id: Option<String>,
    pub slug: Option<String>,
    pub new_hospital_types: Option<Vec<u32>>,
}

} // verus!
