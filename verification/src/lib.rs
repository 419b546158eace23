pub mod text;
pub mod find;
pub mod icons;
pub mod config;
pub mod filter;
pub mod icon_catalog;
pub mod monitor;
pub mod overview;
pub mod edit;
pub mod tray;
pub mod platform;
