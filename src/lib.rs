//! Appointment watcher for a medical booking platform: identity matching of a
//! stored doctor target against search results, scanning of day/shift/slot
//! trees for bookable capacity, the per-run decision machine and the polling
//! decision of the scheduler.

pub mod appointment_model;
pub mod dates;
pub mod first_match;
pub mod text;
pub mod doctor_appointment;
pub mod documents;
pub mod med_target_config;
pub mod search_model;
pub mod availability;
pub mod validation;
pub mod analysis;
pub mod scheduler;
pub mod notification;
