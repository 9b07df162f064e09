use d_logger::cleanup::{
    decide_entry, delete_failure_message, is_expired, listing_failure_message, CleanAction,
    DirEntryInfo, EntryKind, StatFailure,
};
use d_logger::logger::{compose_record, CleanPlan, SetupError};
use d_logger::{LocalStamp, Logger, Platform};

const DAY: u64 = 86400;
const NOW: u64 = 1_704_103_200; // 2024-01-01 10:00:00 UTC

fn stamp() -> LocalStamp {
    LocalStamp { unix_secs: NOW as i64, nanos: 0, utc_offset_secs: 0 }
}

fn logger(days_keep: Option<u64>, platform: Platform) -> Logger {
    let (l, _) = Logger::new(
        "/var/log/app/".to_string(),
        "Log%d%m%y.log".to_string(),
        "%Y-%m-%d %H:%M:%S".to_string(),
        days_keep,
        platform,
        &stamp(),
    )
    .unwrap();
    l
}

fn file(name: &str, modified: u64) -> DirEntryInfo {
    DirEntryInfo { name: Some(name.to_string()), kind: EntryKind::File(Ok(modified)) }
}

fn entries(plan: CleanPlan) -> Vec<CleanAction> {
    match plan {
        CleanPlan::Entries(v) => v,
        other => panic!("expected one decision per entry, got {:?}", other),
    }
}

fn assert_deleted(a: &CleanAction, path: &str, name: &str) {
    match a {
        CleanAction::Delete { path: p, name: n } => {
            assert_eq!(p, path);
            assert_eq!(n, name);
        }
        other => panic!("expected a deletion, got {:?}", other),
    }
}

fn assert_reported(a: &CleanAction, message: &str) {
    match a {
        CleanAction::Report(m) => assert_eq!(m, message),
        other => panic!("expected a report, got {:?}", other),
    }
}

#[test]
fn platform_from_os_name() {
    assert_eq!(Platform::from_os_name("linux"), Platform::Unix);
    assert_eq!(Platform::from_os_name("windows"), Platform::Windows);
    assert_eq!(Platform::from_os_name("macos"), Platform::Unsupported);
    assert_eq!(Platform::from_os_name("linu"), Platform::Unsupported);
    assert_eq!(Platform::from_os_name(""), Platform::Unsupported);
}

#[test]
fn platform_conventions() {
    assert_eq!(Platform::Unix.line_terminator(), Some("\n"));
    assert_eq!(Platform::Windows.line_terminator(), Some("\r\n"));
    assert_eq!(Platform::Unsupported.line_terminator(), None);
    assert_eq!(Platform::Unix.path_separator(), Some("/"));
    assert_eq!(Platform::Windows.path_separator(), Some("\\"));
    assert_eq!(Platform::Unsupported.path_separator(), None);
}

#[test]
fn write_log_record_has_no_separator() {
    let l = logger(None, Platform::Unix);
    let a = l.write_log("hello", &stamp()).unwrap();
    assert_eq!(a.text, "2024-01-01 10:00:00hello\n");
    assert_eq!(a.file, "/var/log/app/Log010124.log");
}

#[test]
fn write_log_uses_local_offset() {
    let l = logger(None, Platform::Windows);
    let now = LocalStamp { unix_secs: NOW as i64, nanos: 0, utc_offset_secs: 15 * 3600 };
    let a = l.write_log("x", &now).unwrap();
    assert_eq!(a.text, "2024-01-02 01:00:00x\r\n");
    assert_eq!(a.file, "/var/log/app/Log020124.log");
}

#[test]
fn accessors_and_windows_write() {
    let (l, _) = Logger::new(
        "/tmp/".to_string(),
        "a.log".to_string(),
        "%H".to_string(),
        None,
        Platform::Windows,
        &stamp(),
    )
    .unwrap();
    assert!(l.write_log("x", &stamp()).is_some());
    assert_eq!(l.platform(), Platform::Windows);
    assert_eq!(l.directory(), "/tmp/");
    assert_eq!(l.days_keep(), None);
}

#[test]
fn write_log_bad_line_template() {
    let (l, _) = Logger::new(
        "/tmp/".to_string(),
        "a.log".to_string(),
        "%Q".to_string(),
        None,
        Platform::Unix,
        &stamp(),
    )
    .unwrap();
    assert!(l.write_log("x", &stamp()).is_none());
}

#[test]
fn compose_record_exact() {
    assert_eq!(compose_record("2024-01-01 10:00:00", "hello", "\n"), "2024-01-01 10:00:00hello\n");
    assert_eq!(compose_record("", "", "\r\n"), "\r\n");
}

#[test]
fn new_appends_one_terminator() {
    let (l, a) = Logger::new(
        "logs/".to_string(),
        "Log%Y%m%d.log".to_string(),
        "%H:%M ".to_string(),
        Some(7),
        Platform::Unix,
        &stamp(),
    )
    .unwrap();
    assert_eq!(a.file, "logs/Log20240101.log");
    assert_eq!(a.text, "\n");
    assert_eq!(l.days_keep(), Some(7));
    assert_eq!(l.log_file(&stamp()).unwrap(), "logs/Log20240101.log");
}

#[test]
fn new_twice_appends_twice_to_same_file() {
    let mk = || {
        Logger::new(
            "logs/".to_string(),
            "Log%Y%m%d.log".to_string(),
            "%H ".to_string(),
            None,
            Platform::Windows,
            &stamp(),
        )
        .unwrap()
        .1
    };
    let (a, b) = (mk(), mk());
    assert_eq!(a.file, b.file);
    let mut content = String::new();
    content.push_str(&a.text);
    content.push_str(&b.text);
    assert_eq!(content, "\r\n\r\n");
}

#[test]
fn new_unsupported_platform() {
    let r = Logger::new(
        "logs/".to_string(),
        "a.log".to_string(),
        "%H".to_string(),
        None,
        Platform::Unsupported,
        &stamp(),
    );
    assert!(matches!(r, Err(SetupError::UnsupportedPlatform)));
}

#[test]
fn new_invalid_file_name_template() {
    let r = Logger::new(
        "logs/".to_string(),
        "Log%Q.log".to_string(),
        "%H".to_string(),
        None,
        Platform::Unix,
        &stamp(),
    );
    assert!(matches!(r, Err(SetupError::InvalidFileNameTemplate)));
}

#[test]
fn expiry_formula() {
    assert!(is_expired(NOW - 2 * DAY, NOW, 1));
    assert!(!is_expired(NOW - DAY, NOW, 1));
    assert!(is_expired(NOW - DAY - 1, NOW, 1));
    assert!(!is_expired(NOW, NOW, 0));
    assert!(is_expired(NOW - 1, NOW, 0));
    assert!(!is_expired(0, 100, 1));
    assert!(!is_expired(0, u64::MAX, u64::MAX));
    assert!(is_expired(0, u64::MAX, 1));
}

#[test]
fn clean_empty_directory() {
    let l = logger(Some(1), Platform::Unix);
    let plan = l.log_clean(None, NOW, &Ok(vec![]));
    assert!(entries(plan).is_empty());
}

#[test]
fn clean_deletes_old_file_without_filter() {
    let l = logger(Some(1), Platform::Unix);
    let plan = l.log_clean(None, NOW, &Ok(vec![file("app.log", NOW - 2 * DAY)]));
    let acts = entries(plan);
    assert_eq!(acts.len(), 1);
    assert_deleted(&acts[0], "/var/log/app//app.log", "app.log");
}

#[test]
fn clean_keeps_old_file_not_matching_filter() {
    let l = logger(Some(1), Platform::Unix);
    let plan = l.log_clean(Some(r"other_\d+\.log"), NOW, &Ok(vec![file("app.log", NOW - 2 * DAY)]));
    let acts = entries(plan);
    assert_eq!(acts.len(), 1);
    assert!(matches!(acts[0], CleanAction::Keep));
}

#[test]
fn clean_deletes_old_file_matching_filter() {
    let l = logger(Some(1), Platform::Windows);
    let listing = vec![
        file("other_12.log", NOW - 2 * DAY),
        file("other_13.log", NOW - 10),
        file("app.log", NOW - 2 * DAY),
    ];
    let acts = entries(l.log_clean(Some(r"other_\d+\.log"), NOW, &Ok(listing)));
    assert_eq!(acts.len(), 3);
    assert_deleted(&acts[0], "/var/log/app/\\other_12.log", "other_12.log");
    assert!(matches!(acts[1], CleanAction::Keep));
    assert!(matches!(acts[2], CleanAction::Keep));
}

#[test]
fn clean_empty_filter_selects_all() {
    let l = logger(Some(1), Platform::Unix);
    let acts = entries(l.log_clean(Some(""), NOW, &Ok(vec![file("app.log", NOW - 2 * DAY)])));
    assert_deleted(&acts[0], "/var/log/app//app.log", "app.log");
}

#[test]
fn clean_keeps_new_file() {
    let l = logger(Some(1), Platform::Unix);
    let acts = entries(l.log_clean(None, NOW, &Ok(vec![file("app.log", NOW - DAY)])));
    assert!(matches!(acts[0], CleanAction::Keep));
}

#[test]
fn clean_never_deletes_directories() {
    let l = logger(Some(1), Platform::Unix);
    let listing = vec![DirEntryInfo { name: Some("app.log".to_string()), kind: EntryKind::Directory }];
    let acts = entries(l.log_clean(None, NOW, &Ok(listing)));
    assert!(matches!(acts[0], CleanAction::Keep));
}

#[test]
fn clean_without_retention_is_idle() {
    let l = logger(None, Platform::Unix);
    let plan = l.log_clean(Some("app"), NOW, &Ok(vec![file("app.log", 0)]));
    assert!(matches!(plan, CleanPlan::Idle));
}

#[test]
fn clean_listing_failure_reported_even_without_retention() {
    let l = logger(None, Platform::Unix);
    let plan = l.log_clean(None, NOW, &Err("permission denied".to_string()));
    match plan {
        CleanPlan::Abort(m) => {
            assert_eq!(m, "Error = Log cleaner, could not read directory: permission denied")
        }
        other => panic!("expected an abort, got {:?}", other),
    }
    assert_eq!(listing_failure_message("x"), "Error = Log cleaner, could not read directory: x");
}

#[test]
fn clean_entry_without_text_name() {
    let (l, _) = Logger::new(
        "d/".to_string(),
        "a.log".to_string(),
        "%H".to_string(),
        Some(1),
        Platform::Windows,
        &stamp(),
    )
    .unwrap();
    assert!(matches!(l.log_clean(None, NOW, &Err("gone".to_string())), CleanPlan::Abort(_)));
    let d = DirEntryInfo { name: None, kind: EntryKind::Directory };
    let a = decide_entry("d/", "/", None, NOW, 1, &d);
    assert_reported(&a, "Error = Log cleaner, could not convert file name");
}

#[test]
fn clean_invalid_filter_reported() {
    let l = logger(Some(1), Platform::Unix);
    let plan = l.log_clean(Some("(unclosed"), NOW, &Ok(vec![file("app.log", 0)]));
    match plan {
        CleanPlan::Abort(m) => assert_eq!(m, "Error = Log cleaner, invalid filter pattern (unclosed"),
        other => panic!("expected an abort, got {:?}", other),
    }
}

#[test]
fn clean_reports_unreadable_entries() {
    let l = logger(Some(1), Platform::Unix);
    let listing = vec![
        DirEntryInfo { name: None, kind: EntryKind::File(Ok(0)) },
        DirEntryInfo {
            name: Some("a.log".to_string()),
            kind: EntryKind::File(Err(StatFailure::Metadata("denied".to_string()))),
        },
        DirEntryInfo {
            name: Some("b.log".to_string()),
            kind: EntryKind::File(Err(StatFailure::ModifiedTime("unsupported".to_string()))),
        },
        DirEntryInfo {
            name: Some("c.log".to_string()),
            kind: EntryKind::File(Err(StatFailure::BeforeEpoch("too early".to_string()))),
        },
        file("d.log", 0),
    ];
    let acts = entries(l.log_clean(None, NOW, &Ok(listing)));
    assert_eq!(acts.len(), 5);
    assert_reported(&acts[0], "Error = Log cleaner, could not convert file name");
    assert_reported(&acts[1], "Error = Log cleaner, could not read metadata from file a.log | denied");
    assert_reported(
        &acts[2],
        "Error = Log cleaner, could not read modified time from file b.log | unsupported",
    );
    assert_reported(&acts[3], "Error = Log cleaner, could not get modified time for file c.log | too early");
    assert_deleted(&acts[4], "/var/log/app//d.log", "d.log");
}

#[test]
fn delete_failure_message_exact() {
    assert_eq!(
        delete_failure_message("app.log", "busy"),
        "Error = Log cleaner, could not delete file app.log | busy"
    );
}
