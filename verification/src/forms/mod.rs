//! Forms that users submit, with their validation rules.
pub mod ap_users;
pub mod bookmarks;
pub mod import;
pub mod links;
pub mod lists;
pub mod notes;
pub mod users;
