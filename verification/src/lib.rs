//! Backend command library for a small desktop compatibility checker.
//!
//! Each command is an independent, stateless function: a greeter, a system
//! information probe, a WebView runtime availability probe, simple self tests,
//! and a report saver. The string construction and parsing that the commands
//! perform is specified and verified here; the host shell performs the file,
//! clock and process work at the edges and hands plain values in and out.

pub mod greet;
pub mod report;
pub mod scan;
pub mod selftest;
pub mod system_info;
pub mod webview;

pub use greet::greet;
pub use report::fresh_timestamp;
pub use report::report_destination;
pub use report::report_filename;
pub use report::report_save_error_message;
pub use report::report_saved_message;
pub use report::resolve_report_path;
pub use report::Timestamp;
pub use selftest::test_basic_function;
pub use selftest::test_window_operations;
pub use system_info::build_system_info;
pub use system_info::get_system_info;
pub use system_info::SystemInfo;
pub use webview::check_webview2_runtime;
pub use webview::get_webview2_version;
pub use webview::get_webview_info;
pub use webview::read_webview2_version_from_registry;
pub use webview::webview2_registry_key_paths;
pub use webview::webview_info_from_registry;
pub use webview::WebViewInfo;
