//! The system information probe.
//!
//! The host operating system is queried through the `sysinfo` crate for its
//! name, kernel version, OS version, hostname and memory figures; those calls
//! are trusted and promise nothing about the machine-dependent values. The
//! assembly of the report is verified: missing fields become empty text, the
//! OS name and kernel version are joined with a space, and the raw byte
//! counts are carried through unchanged. The host shell divides the byte
//! counts by 2^30 when it presents them as fractional gigabytes.

use vstd::prelude::*;
use vstd::string::*;

verus! {

/// `sysinfo::System` carried opaquely: the live handle that the probe
/// queries. Verified code learns nothing of its inside.
#[verifier::external_type_specification]
#[verifier::external_body]
pub struct ExSystem(sysinfo::System);

/// Relies on `sysinfo::System::new_all`: builds a system handle with all
/// information loaded. Which values it holds depends on the machine, so
/// nothing is promised.
pub assume_specification[ sysinfo::System::new_all ]() -> sysinfo::System;

/// Relies on `sysinfo::System::refresh_all`: refreshes the handle's cached
/// information in place. The values are machine state, so nothing is
/// promised.
pub assume_specification[ sysinfo::System::refresh_all ](s: &mut sysinfo::System);

/// Relies on `sysinfo::System::name`: the OS name, if the OS reports one.
pub assume_specification[ sysinfo::System::name ]() -> Option<String>;

/// Relies on `sysinfo::System::kernel_version`: the kernel version, if the
/// OS reports one.
pub assume_specification[ sysinfo::System::kernel_version ]() -> Option<String>;

/// Relies on `sysinfo::System::os_version`: the OS version, if the OS
/// reports one.
pub assume_specification[ sysinfo::System::os_version ]() -> Option<String>;

/// Relies on `sysinfo::System::host_name`: the hostname, if the OS reports
/// one.
pub assume_specification[ sysinfo::System::host_name ]() -> Option<String>;

/// Relies on `sysinfo::System::total_memory`: the RAM size in bytes.
pub assume_specification[ sysinfo::System::total_memory ](s: &sysinfo::System) -> u64;

/// Relies on `sysinfo::System::available_memory`: the available RAM in
/// bytes.
pub assume_specification[ sysinfo::System::available_memory ](s: &sysinfo::System) -> u64;

/// What the front-end learns of the host system. Memory is carried as raw
/// byte counts; the presentation as gigabytes divides by 2^30 at the edge.
pub struct SystemInfo {
    pub os: String,
    pub os_version: String,
    pub arch: String,
    pub hostname: String,
    pub total_memory_bytes: u64,
    pub available_memory_bytes: u64,
}

/// The text of an optional OS-reported field: empty when the field is
/// missing, so that one missing field never fails the whole report.
pub open spec fn or_empty(o: Option<String>) -> Seq<char> {
    match o {
        Some(s) => s@,
        None => Seq::empty(),
    }
}

/// The owned text of an optional field, empty when missing.
fn field_or_empty(o: Option<String>) -> (r: String)
    ensures
        r@ == or_empty(o),
{
    match o {
        Some(s) => s,
        None => String::new(),
    }
}

/// Assembles the system report from the probed values: the OS name and
/// kernel version joined with one space, missing fields as empty text, the
/// architecture and the byte counts carried through unchanged. Memory order
/// is kept: when the probe reports available ≤ total, the report does too,
/// and both counts are nonnegative by type.
pub fn build_system_info(
    name: Option<String>,
    kernel_version: Option<String>,
    os_version: Option<String>,
    arch: &str,
    hostname: Option<String>,
    total_memory_bytes: u64,
    available_memory_bytes: u64,
) -> (r: SystemInfo)
    ensures
        r.os@ == or_empty(name) + " "@ + or_empty(kernel_version),
        r.os_version@ == or_empty(os_version),
        r.arch@ == arch@,
        r.hostname@ == or_empty(hostname),
        r.total_memory_bytes == total_memory_bytes,
        r.available_memory_bytes == available_memory_bytes,
        available_memory_bytes <= total_memory_bytes ==> r.available_memory_bytes
            <= r.total_memory_bytes,
{
    let mut os = field_or_empty(name);
    os.append(" ");
    let kernel = field_or_empty(kernel_version);
    os.append(kernel.as_str());
    SystemInfo {
        os,
        os_version: field_or_empty(os_version),
        arch: String::from_str(arch),
        hostname: field_or_empty(hostname),
        total_memory_bytes,
        available_memory_bytes,
    }
}

/// Queries the host through `sysinfo` and assembles the report. The query
/// itself never fails, so the result is always a report; its architecture
/// field is exactly `arch`, which the host shell reads from its build
/// target, and its OS field is some name and some kernel version joined
/// with one space. The values are whatever the machine reported, assembled
/// as `build_system_info` promises.
pub fn get_system_info(arch: &str) -> (r: Result<SystemInfo, String>)
    ensures
        r is Ok,
        r->Ok_0.arch@ == arch@,
        exists|n: Seq<char>, k: Seq<char>| r->Ok_0.os@ == #[trigger] (n + " "@ + k),
{
    let mut sys = sysinfo::System::new_all();
    sys.refresh_all();
    let total = sys.total_memory();
    let available = sys.available_memory();
    Ok(
        build_system_info(
            sysinfo::System::name(),
            sysinfo::System::kernel_version(),
            sysinfo::System::os_version(),
            arch,
            sysinfo::System::host_name(),
            total,
            available,
        ),
    )
}

} // verus!
