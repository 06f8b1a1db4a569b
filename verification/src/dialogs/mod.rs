//! The modal dialogs.

pub mod add_owner;
pub mod cache_diagnostics;
pub mod cert_payload;
pub mod confirm;
pub mod create_app;
pub mod gallery;
pub mod migrate_legacy_scope;
pub mod new_app_chooser;
pub mod scope_remediation;
pub mod secret_reveal;
pub mod sso_wizard;
pub mod upload_certificate;
