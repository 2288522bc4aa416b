//! The resource families of the API beyond the calendars.

pub mod account_domains;
pub mod account_notifications;
pub mod account_reports;
