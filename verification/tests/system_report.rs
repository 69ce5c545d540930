use compat_backend::build_system_info;
use compat_backend::get_system_info;

#[test]
fn report_joins_name_and_kernel_with_space() {
    let info = build_system_info(
        Some(String::from("Linux")),
        Some(String::from("6.1.0")),
        Some(String::from("Debian 12")),
        "x86_64",
        Some(String::from("workstation")),
        8_589_934_592,
        4_294_967_296,
    );
    assert_eq!(info.os, "Linux 6.1.0");
    assert_eq!(info.os_version, "Debian 12");
    assert_eq!(info.arch, "x86_64");
    assert_eq!(info.hostname, "workstation");
    assert_eq!(info.total_memory_bytes, 8_589_934_592);
    assert_eq!(info.available_memory_bytes, 4_294_967_296);
}

#[test]
fn missing_fields_become_empty_text() {
    let info = build_system_info(None, None, None, "aarch64", None, 1, 1);
    assert_eq!(info.os, " ");
    assert_eq!(info.os_version, "");
    assert_eq!(info.hostname, "");
    assert_eq!(info.arch, "aarch64");
}

#[test]
fn memory_order_is_kept() {
    let info = build_system_info(None, None, None, "x86_64", None, 100, 60);
    assert!(info.available_memory_bytes <= info.total_memory_bytes);
}

#[test]
fn live_probe_reports_architecture_and_memory() {
    let info = get_system_info("x86_64").unwrap();
    assert_eq!(info.arch, "x86_64");
    assert!(info.total_memory_bytes > 0);
}
