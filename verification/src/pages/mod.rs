//! The decisions of the kiosk and console pages: what each page derives from
//! its data and its query, what each control leads to, and how each form is
//! checked (the pages' markup and effects are outside the library).

pub mod kiosk;
pub mod login;
pub mod ops;
