//! Records stored in the database and the decisions taken on query results.
pub mod ap_users;
pub mod bookmarks;
pub mod follows;
pub mod layout;
pub mod metadata;
pub mod oidc;
pub mod links;
pub mod lists;
pub mod notes;
pub mod search;
pub mod users;
pub mod users_api;
pub mod run_migrations;
pub mod migration_hooks;
pub mod migrations;
