//! Verified core of the DBFlux desktop client: release channels, the update
//! decision, cell-value formatting, and the pure decisions behind the
//! document tabs, the data-grid menus, the value panel and the settings form.

pub mod text;
pub mod release_channel;
pub mod update_check;
pub mod value_format;
pub mod menu;
pub mod tab_bar;
pub mod context_menu;
pub mod value_panel;
pub mod record;
pub mod numbers;
pub mod general_settings;
pub mod migration;
pub mod icon_resource;
