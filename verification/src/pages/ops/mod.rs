//! The staff console: schedules, orders, staffing, credentials and business
//! rules, and the layout around them.

pub mod credentials;
pub mod layout;
pub mod orders;
pub mod rules;
pub mod schedules;
pub mod staffing;
