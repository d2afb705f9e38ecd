use voicetypr_core::logs::{
    is_log_file_name, log_date_of, log_file_passes_filters, log_is_expired, sort_newest_first, LogFile,
    LogFilters,
};

fn file(date: &str) -> LogFile {
    LogFile {
        name: format!("voicetypr-{date}.log"),
        path: format!("/logs/voicetypr-{date}.log"),
        size: 10,
        date: date.to_string(),
    }
}

#[test]
fn daily_log_names_and_dates() {
    assert!(is_log_file_name("voicetypr-2024-05-17.log"));
    assert!(!is_log_file_name("other-2024-05-17.log"));
    assert!(!is_log_file_name("voicetypr-2024-05-17.txt"));
    assert_eq!(log_date_of("voicetypr-2024-05-17.log"), "2024-05-17");
    assert_eq!(log_date_of("notes.log"), "");
}

#[test]
fn filters_by_date_range_and_size() {
    let f = Some(LogFilters {
        from_date: Some("2024-05-01".into()),
        to_date: Some("2024-05-31".into()),
        max_size_mb: Some(1),
    });
    assert!(log_file_passes_filters("2024-05-17", 1024, &f));
    assert!(!log_file_passes_filters("2024-04-30", 1024, &f));
    assert!(!log_file_passes_filters("2024-06-01", 1024, &f));
    assert!(!log_file_passes_filters("2024-05-17", 1_048_577, &f));
    assert!(log_file_passes_filters("2024-05-17", 1_048_576, &f));
    // A date that does not parse is not filtered by date.
    assert!(log_file_passes_filters("garbage", 1024, &f));
    assert!(log_file_passes_filters("2020-01-01", u64::MAX, &None));
}

#[test]
fn cleanup_deletes_only_dated_logs_before_the_cutoff() {
    assert!(log_is_expired("voicetypr-2024-01-01.log", (2024, 1, 2)));
    assert!(!log_is_expired("voicetypr-2024-01-02.log", (2024, 1, 2)));
    assert!(!log_is_expired("voicetypr-junk.log", (2024, 1, 2)));
    assert!(!log_is_expired("app-2020-01-01.log", (2024, 1, 2)));
}

#[test]
fn listing_is_newest_first() {
    let files = vec![file("2024-05-01"), file("2024-06-10"), file("2023-12-31"), file("2024-05-20")];
    let sorted = sort_newest_first(files);
    let dates: Vec<&str> = sorted.iter().map(|f| f.date.as_str()).collect();
    assert_eq!(dates, vec!["2024-06-10", "2024-05-20", "2024-05-01", "2023-12-31"]);
}
