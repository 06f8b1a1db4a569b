//! The tenant-wide audit tables: permissions, consents and credentials. Each
//! filters its rows by a facet and by a search in lower case.

pub mod app_permission_grants;
pub mod app_permissions;
pub mod consent_grants;
pub mod credentials;
