pub mod app_view;
pub mod config_view;
pub mod exec_config_utils;
pub mod gui;
pub mod gui_utils;
pub mod log_utils;
pub mod package_export;
pub mod sc_utils;
pub mod service;
pub mod service_utils;
pub mod service_config;
pub mod text;
