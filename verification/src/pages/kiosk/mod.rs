//! The public kiosk: home, search, article and archive.

pub mod archive;
pub mod article;
pub mod home;
pub mod search;
