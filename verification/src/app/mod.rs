//! Application state and the operations the key handlers perform on it.

pub mod panel;
pub mod lsp_state;
pub mod dashboard_hotkeys;
pub mod state;
pub mod lsp_ops;
pub mod debugger_ops;
pub mod layout_ops;
pub mod file_ops;
pub mod keys;
pub mod key_filter;
pub mod input_traits;
pub mod dashboard_nav;
pub mod keymap;
pub mod input_debugger;
pub mod input_editor;
pub mod input_lsp;
pub mod input_k8s;
pub mod k8s;
pub mod k8s_ops;
pub mod commands;
pub mod input;
pub mod addon_ops;
pub mod docker_keys;
pub mod health_dashboard;
pub mod health_ops;
pub mod input_health;
pub mod extension_ops;
pub mod docker_hosts;
pub mod input_git;
pub mod input_ssh;
pub mod input_terminal;
pub mod input_mouse;
pub mod popup_keys;
pub mod docker_logs_keys;
