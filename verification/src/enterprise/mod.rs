//! The detail pane of an enterprise application.

pub mod access;
pub mod app_roles;
pub mod credentials;
pub mod overview;
pub mod owners;
pub mod panel;
pub mod panels;
pub mod permissions;
pub mod sso_tab;
