//! The inventory lists.

pub mod application_list;
pub mod enterprise_application_list;
pub mod filters;
