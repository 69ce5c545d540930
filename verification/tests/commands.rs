use compat_backend::greet;
use compat_backend::test_basic_function;
use compat_backend::test_window_operations;
use compat_backend::selftest::file_read_error_message;
use compat_backend::selftest::file_system_test_content;
use compat_backend::selftest::file_system_test_message;
use compat_backend::selftest::file_write_error_message;

#[test]
fn greet_formats_name() {
    assert_eq!(greet("Alice"), "Hello, Alice! You've been greeted from Rust!");
}

#[test]
fn greet_empty_name() {
    assert_eq!(greet(""), "Hello, ! You've been greeted from Rust!");
}

#[test]
fn greet_format_special_characters() {
    assert_eq!(
        greet("{name} %s {}"),
        "Hello, {name} %s {}! You've been greeted from Rust!"
    );
}

#[test]
fn greet_unicode_name() {
    assert_eq!(greet("Müller"), "Hello, Müller! You've been greeted from Rust!");
}

#[test]
fn basic_function_reports_success() {
    assert_eq!(
        test_basic_function(),
        Ok(String::from("Basic Tauri function working correctly"))
    );
}

#[test]
fn window_operations_report_success() {
    assert_eq!(
        test_window_operations(),
        Ok(String::from("Window operations available"))
    );
}

#[test]
fn file_system_test_fixed_content() {
    assert_eq!(file_system_test_content(), "Tauri file system test");
}

#[test]
fn file_system_message_embeds_content_exactly() {
    assert_eq!(
        file_system_test_message("Tauri file system test"),
        "File system access working. Read: Tauri file system test"
    );
}

#[test]
fn file_system_error_messages() {
    assert_eq!(
        file_write_error_message("permission denied"),
        "Failed to write test file: permission denied"
    );
    assert_eq!(
        file_read_error_message("not found"),
        "Failed to read test file: not found"
    );
}
