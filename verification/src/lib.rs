//! Clipboard history daemon logic: shortcut model, configuration parsing,
//! compositor binding diagnosis and daemon status reporting.

pub mod text;
pub mod shortcut_backend;
pub mod shortcut_config;
pub mod environment;
pub mod paste_backend;
pub mod platform_focus_backend;
pub mod platform_shortcut_backend;
pub mod sway_shortcut_backend;
pub mod hyprland_shortcut_backend;
pub mod status;
pub mod cli;
pub mod shortcut_listener;
pub mod reload_coordinator;
pub mod clipboard_state;
pub mod portal_eis_paste_backend;
pub mod focus_backend;
pub mod sway_focus_backend;
pub mod hyprland_focus_backend;
pub mod kde_focus_backend;
pub mod wayland_shortcut_backend;
pub mod sway_ipc;
pub mod app_paths;
pub mod wlroots_paste_backend;
pub mod config;
pub mod app;
pub mod ui_launcher;
pub mod activation_service;
pub mod x11_shortcut_backend;
pub mod x11_paste_backend;
pub mod x11_focus_backend;
pub mod ipc_mapper;
pub mod resolvers;
pub mod request_handler;
