//! Application settings delivered as one JSON blob in an environment
//! variable, and the two things derived from them: the description of the
//! database connection and the list of mail recipients.
//!
//! The library never reads the environment itself. The caller looks the
//! variable [`SECRET_VARIABLE`] up and hands the outcome to
//! [`Settings::get_settings`].
//!
//! Parsing JSON, the connection description and the recipients are the work
//! of `serde_json`, `tiberius` (by way of `ssql`) and `sendgrid`. What the
//! proofs take on trust about them is gathered in the modules [`json`],
//! [`sql`] and [`mail`].

pub mod error;
pub mod json;
pub mod mail;
pub mod naming;
pub mod recipients;
pub mod schema;
pub mod settings;
pub mod sql;

pub use crate::error::SettingsError;
pub use crate::settings::Settings;
pub use crate::settings::SECRET_VARIABLE;
