//! RailOps front-end logic: the API client's request signing, paths and
//! bodies; the session; the shared UI decisions; and what each kiosk and
//! console page derives from its data and its controls. Fixed-point scores
//! and the shared domain types live in `shared` and `decimal`; text handling
//! used throughout lives in `text` and `uri`.

pub mod api;
pub mod auth;
pub mod components;
pub mod decimal;
pub mod pages;
pub mod shared;
pub mod text;
pub mod uri;
