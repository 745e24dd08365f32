//! ActivityPub federation: identifiers, verification of incoming activities
//! and the conversions between federated objects and local records.
pub mod verification;
pub mod activity;
pub mod config;
pub mod webfinger;
pub mod person;
pub mod signing;
pub mod accept;
pub mod bookmark;
pub mod create_bookmark;
pub mod follow;
pub mod undo_follow;
