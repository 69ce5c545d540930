//! Self-test commands and the pure parts of the file-system test.
//!
//! The basic-function and window-operations tests are fixed success markers.
//! The file-system test writes a fixed string to a temporary file, reads it
//! back and reports what it read; the file work happens in the host shell,
//! which calls [`file_system_test_content`] for the string to write and
//! [`file_system_test_message`] to build the confirmation from what it read.

use vstd::prelude::*;
use vstd::string::*;

verus! {

/// Liveness check: always succeeds with a fixed message.
pub fn test_basic_function() -> (r: Result<String, String>)
    ensures
        r is Ok,
        r->Ok_0@ == "Basic Tauri function working correctly"@,
{
    Ok(String::from_str("Basic Tauri function working correctly"))
}

/// Window-operations check: a placeholder that always succeeds with a fixed
/// message and exercises no window API.
pub fn test_window_operations() -> (r: Result<String, String>)
    ensures
        r is Ok,
        r->Ok_0@ == "Window operations available"@,
{
    Ok(String::from_str("Window operations available"))
}

/// The fixed string that the file-system test writes to its temporary file.
pub fn file_system_test_content() -> (r: String)
    ensures
        r@ == "Tauri file system test"@,
{
    String::from_str("Tauri file system test")
}

/// The confirmation that the file-system test returns, embedding exactly the
/// content that was read back.
pub fn file_system_test_message(content: &str) -> (r: String)
    ensures
        r@ == "File system access working. Read: "@ + content@,
{
    let mut s = String::from_str("File system access working. Read: ");
    s.append(content);
    s
}

/// The error returned when the file-system test cannot write its file; `err`
/// is the host's description of the failure.
pub fn file_write_error_message(err: &str) -> (r: String)
    ensures
        r@ == "Failed to write test file: "@ + err@,
{
    let mut s = String::from_str("Failed to write test file: ");
    s.append(err);
    s
}

/// The error returned when the file-system test cannot read its file back;
/// `err` is the host's description of the failure.
pub fn file_read_error_message(err: &str) -> (r: String)
    ensures
        r@ == "Failed to read test file: "@ + err@,
{
    let mut s = String::from_str("Failed to read test file: ");
    s.append(err);
    s
}

} // verus!
