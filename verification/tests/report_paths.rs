use compat_backend::fresh_timestamp;
use compat_backend::report_destination;
use compat_backend::report_filename;
use compat_backend::report_save_error_message;
use compat_backend::report_saved_message;
use compat_backend::resolve_report_path;
use compat_backend::Timestamp;
use compat_backend::report::format_timestamp;
use compat_backend::report::timestamp_from_parts;

fn sample_timestamp() -> Timestamp {
    Timestamp { year: 2024, month: 1, day: 5, hour: 9, minute: 7, second: 3 }
}

#[test]
fn timestamp_is_zero_padded() {
    assert_eq!(format_timestamp(&sample_timestamp()), "20240105_090703");
}

#[test]
fn timestamp_wide_components() {
    let ts = Timestamp { year: 999, month: 12, day: 31, hour: 23, minute: 59, second: 58 };
    assert_eq!(format_timestamp(&ts), "09991231_235958");
}

#[test]
fn filename_embeds_timestamp() {
    assert_eq!(
        report_filename(&sample_timestamp()),
        "tauri_compatibility_report_20240105_090703.json"
    );
}

#[test]
fn filenames_differ_across_seconds() {
    let a = sample_timestamp();
    let mut b = sample_timestamp();
    b.second = 4;
    assert_ne!(report_filename(&a), report_filename(&b));
}

#[test]
fn destination_prefers_home_desktop() {
    let home = Some(String::from("/home/user"));
    assert_eq!(
        report_destination(&home, "/work", &sample_timestamp()),
        "/home/user/Desktop/tauri_compatibility_report_20240105_090703.json"
    );
}

#[test]
fn destination_falls_back_to_working_directory() {
    assert_eq!(
        report_destination(&None, "/work", &sample_timestamp()),
        "/work/tauri_compatibility_report_20240105_090703.json"
    );
}

#[test]
fn clock_components_in_range() {
    let ts = fresh_timestamp().unwrap();
    assert!(ts.year >= 2020);
    assert!((1..=12).contains(&ts.month));
    assert!((1..=31).contains(&ts.day));
    assert!(ts.hour <= 23);
    assert!(ts.minute <= 59);
    assert!(ts.second <= 59);
}

#[test]
fn out_of_range_clock_parts_rejected() {
    assert_eq!(timestamp_from_parts(10000, 1, 1, 0, 0, 0), None);
    assert_eq!(timestamp_from_parts(-1, 1, 1, 0, 0, 0), None);
    assert_eq!(timestamp_from_parts(2024, 0, 1, 0, 0, 0), None);
    assert_eq!(timestamp_from_parts(2024, 13, 1, 0, 0, 0), None);
    assert_eq!(timestamp_from_parts(2024, 1, 32, 0, 0, 0), None);
    assert_eq!(timestamp_from_parts(2024, 1, 1, 24, 0, 0), None);
    assert_eq!(timestamp_from_parts(2024, 1, 1, 0, 60, 0), None);
    assert_eq!(timestamp_from_parts(2024, 1, 1, 0, 0, 60), None);
}

#[test]
fn in_range_clock_parts_accepted() {
    let ts = timestamp_from_parts(2024, 1, 5, 9, 7, 3).unwrap();
    assert_eq!(ts, sample_timestamp());
}

#[test]
fn resolved_path_is_timestamped_report() {
    let path = resolve_report_path("/work").unwrap();
    let name = path.rsplit('/').next().unwrap();
    assert!(name.starts_with("tauri_compatibility_report_"));
    assert!(name.ends_with(".json"));
    assert_eq!(name.len(), "tauri_compatibility_report_".len() + 15 + ".json".len());
    assert!(path.ends_with(&format!("/{}", name)));
}

#[test]
fn save_messages_embed_their_argument() {
    assert_eq!(
        report_saved_message("/home/user/Desktop/r.json"),
        "Report saved to: /home/user/Desktop/r.json"
    );
    assert_eq!(
        report_save_error_message("disk full"),
        "Failed to save report: disk full"
    );
}

#[test]
fn empty_working_directory_leaves_bare_filename() {
    assert_eq!(
        report_destination(&None, "", &sample_timestamp()),
        "tauri_compatibility_report_20240105_090703.json"
    );
}
