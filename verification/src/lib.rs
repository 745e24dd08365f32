//! Verified core of linkblocks, a federated bookmark manager: identifiers,
//! URL handling, form validation, authorization rules, pagination and the
//! decisions taken around database and federation requests.

pub mod ids;
pub mod text;
pub mod date_time;
pub mod urls;
pub mod federation;
pub mod response_error;
pub mod app_error;
pub mod db;
pub mod validation;
pub mod form_errors;
pub mod forms;
pub mod authentication;
pub mod api;
pub mod metadata;
pub mod oidc;
pub mod extract;
