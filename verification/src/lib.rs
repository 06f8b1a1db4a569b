//! View logic of the azapptoolkit desktop client: what every screen shows, which
//! rows it selects, in which order, and what each click is allowed to do.

pub mod application_detail_pane;
pub mod audit;
pub mod audit_facets;
pub mod audit_view;
pub mod bulk_actions;
pub mod config_screen;
pub mod dashboards;
pub mod dialogs;
pub mod disaster_recovery;
pub mod enterprise;
pub mod home_dashboard;
pub mod key_vault;
pub mod lists;
pub mod order;
pub mod rows;
pub mod session;
pub mod sorting;
pub mod tabs;
pub mod text;
pub mod time;
pub mod window;
