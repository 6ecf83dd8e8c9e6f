use torbox_companion::account::{
    billing_cycle, billing_cycle_usage, billing_cycle_usage_checked, cycle_start, format_date,
    month_start, date_instant, format_date_browser, local_date_string, LocalDateFields, plan_name, plan_threshold_bytes, plan_threshold_label,
    usage_level, UsageLevel,
};
use torbox_companion::bytes::format_bytes;
use torbox_companion::model::{Torrent, UsenetDownload, WebDownload};
use torbox_companion::text::{decimal_string, join_texts};

const TIB: i64 = 1_099_511_627_776;

fn torrent(created_at: &str, size: i64) -> Torrent {
    Torrent {
        id: 1,
        name: "t".to_string(),
        active: true,
        download_finished: true,
        download_present: true,
        download_state: "uploading".to_string(),
        created_at: created_at.to_string(),
        updated_at: created_at.to_string(),
        cached_at: None,
        expires_at: None,
        ratio_millionths: 0,
        progress_millionths: 0,
        availability_millionths: 0,
        seeds: 0,
        peers: 0,
        download_speed: 0,
        upload_speed: 0,
        size,
        total_uploaded: 0,
        total_downloaded: 0,
        eta: 0,
        long_term_seeding: false,
        seed_torrent: false,
        magnet: None,
        allow_zipped: false,
        torrent_file: false,
        cached: false,
        private: false,
    }
}

fn web(created_at: &str, size: i64) -> WebDownload {
    WebDownload {
        id: 2,
        name: "w".to_string(),
        active: true,
        download_finished: true,
        download_present: true,
        download_state: "cached".to_string(),
        created_at: created_at.to_string(),
        expires_at: None,
        progress_millionths: 0,
        availability_millionths: 0,
        download_speed: 0,
        upload_speed: 0,
        size,
        eta: 0,
    }
}

fn usenet(created_at: &str, size: i64) -> UsenetDownload {
    UsenetDownload {
        id: 3,
        name: "u".to_string(),
        active: true,
        download_finished: true,
        download_present: true,
        download_state: "cached".to_string(),
        created_at: created_at.to_string(),
        expires_at: None,
        progress_millionths: 0,
        download_speed: 0,
        size,
        eta: 0,
        cached: true,
    }
}

#[test]
fn plan_thresholds_and_labels() {
    assert_eq!(plan_threshold_bytes(Some(0)), 5 * TIB);
    assert_eq!(plan_threshold_bytes(Some(1)), 10 * TIB);
    assert_eq!(plan_threshold_bytes(Some(2)), 30 * TIB);
    assert_eq!(plan_threshold_bytes(Some(3)), 20 * TIB);
    assert_eq!(plan_threshold_bytes(Some(9)), 10 * TIB);
    assert_eq!(plan_threshold_bytes(None), 10 * TIB);
    assert_eq!(plan_threshold_label(Some(2)), "30 TB");
    assert_eq!(plan_threshold_label(None), "10 TB");
}

#[test]
fn plan_names() {
    assert_eq!(plan_name(0), "Free");
    assert_eq!(plan_name(1), "Essential");
    assert_eq!(plan_name(2), "Pro");
    assert_eq!(plan_name(3), "Standard");
    assert_eq!(plan_name(7), "Plan 7");
    assert_eq!(plan_name(-12), "Plan -12");
}

#[test]
fn usage_levels() {
    assert_eq!(usage_level(9 * TIB, 10 * TIB), UsageLevel::NearLimit);
    assert_eq!(usage_level(20 * TIB, 10 * TIB), UsageLevel::NearLimit);
    assert_eq!(usage_level(7 * TIB, 10 * TIB), UsageLevel::Moderate);
    assert_eq!(usage_level(7 * TIB - 1, 10 * TIB), UsageLevel::Safe);
    assert_eq!(usage_level(5 * TIB, 0), UsageLevel::Safe);
    assert_eq!(UsageLevel::NearLimit.bar_color(), "var(--color-error, #ef4444)");
    assert_eq!(UsageLevel::Moderate.bar_color(), "#f59e0b");
    assert_eq!(UsageLevel::Safe.status(), "✓ Safe");
}

#[test]
fn billing_cycle_starts_thirty_days_before_expiry() {
    assert_eq!(billing_cycle("2024-03-31T00:00:00Z"), Some((1_709_251_200, "March 01, 2024".to_string())));
    assert_eq!(billing_cycle("2024-03-31T02:00:00+02:00"), Some((1_709_251_200, "March 01, 2024".to_string())));
    assert_eq!(billing_cycle("2024-01-15T23:30:00-05:00"), Some((1_702_787_400, "December 16, 2023".to_string())));
    assert_eq!(billing_cycle(""), None);
    assert_eq!(billing_cycle("31 March 2024"), None);
    assert_eq!(
        cycle_start("2024-03-31T00:00:00Z", 1999, 7),
        Some((1_709_251_200, "March 01, 2024".to_string()))
    );
}

#[test]
fn months_start_at_midnight_on_the_first() {
    assert_eq!(month_start(2024, 3), Some((1_709_251_200, "March 01, 2024".to_string())));
    assert_eq!(month_start(2024, 11), Some((1_730_419_200, "November 01, 2024".to_string())));
    assert_eq!(month_start(1969, 12), Some((-2_678_400, "December 01, 1969".to_string())));
    assert_eq!(month_start(2024, 13), None);
    assert_eq!(month_start(2024, 0), None);
    assert_eq!(month_start(10_000, 1), None);
    assert_eq!(month_start(999, 1), None);
    assert_eq!(month_start(-5, 1), None);
}

#[test]
fn without_an_expiry_the_cycle_starts_this_month() {
    assert_eq!(cycle_start("not a date", 2024, 11), Some((1_730_419_200, "November 01, 2024".to_string())));
    assert_eq!(cycle_start("", 2024, 3), Some((1_709_251_200, "March 01, 2024".to_string())));
    assert_eq!(cycle_start("", 2024, 13), None);
}

#[test]
fn dates_keep_the_offset_of_their_text() {
    assert_eq!(format_date("2024-03-01T00:30:00+05:30"), "March 01, 2024 at 12:30 AM");
    assert_eq!(format_date("2024-03-01T00:30:00-05:00"), "March 01, 2024 at 12:30 AM");
    assert_eq!(format_date("2023-12-31T23:59:60Z"), "December 31, 2023 at 11:59 PM");
    assert_eq!(format_date("2024-07-04T12:00:00.999Z"), "July 04, 2024 at 12:00 PM");
}

#[test]
fn billing_cycle_usage_counts_recent_positive_sizes() {
    let start = 1_709_251_200;
    let torrents = vec![
        torrent("2024-03-05T00:00:00Z", 100),
        torrent("2024-02-05T00:00:00Z", 1000),
        torrent("2024-03-01T00:00:00Z", 7),
        torrent("2024-03-06T00:00:00Z", -50),
        torrent("garbage", 10_000),
    ];
    let webs = vec![web("2024-03-10T00:00:00Z", 20)];
    let usenets = vec![usenet("2024-03-10T00:00:00Z", 3), usenet("2023-03-10T00:00:00Z", 300)];
    assert_eq!(billing_cycle_usage(&torrents, &webs, &usenets, start), 130);
    assert_eq!(billing_cycle_usage(&vec![], &vec![], &vec![], start), 0);
    assert_eq!(billing_cycle_usage_checked(&torrents, &webs, &usenets, start), Some(130));
}

#[test]
fn uncounted_sizes_do_not_limit_the_usage() {
    let start = 1_709_251_200;
    let torrents = vec![torrent("2020-01-01T00:00:00Z", i64::MAX), torrent("2024-03-05T00:00:00Z", 100)];
    let webs = vec![web("2019-01-01T00:00:00Z", i64::MAX)];
    assert_eq!(billing_cycle_usage(&torrents, &webs, &vec![], start), 100);
    assert_eq!(billing_cycle_usage_checked(&torrents, &webs, &vec![], start), Some(100));
}

#[test]
fn usage_that_does_not_fit_is_refused() {
    let start = 1_709_251_200;
    let torrents = vec![torrent("2024-03-05T00:00:00Z", i64::MAX), torrent("2024-03-06T00:00:00Z", 1)];
    assert_eq!(billing_cycle_usage_checked(&torrents, &vec![], &vec![], start), None);
    let webs = vec![web("2024-03-05T00:00:00Z", i64::MAX - 5)];
    let usenets = vec![usenet("2024-03-05T00:00:00Z", 6)];
    assert_eq!(billing_cycle_usage_checked(&vec![], &webs, &usenets, start), None);
    let usenets = vec![usenet("2024-03-05T00:00:00Z", 5)];
    assert_eq!(billing_cycle_usage_checked(&vec![], &webs, &usenets, start), Some(i64::MAX));
}

#[test]
fn dates_for_display() {
    assert_eq!(format_date(""), "N/A");
    assert_eq!(format_date("soon"), "soon");
    assert_eq!(format_date("2024-03-05T14:07:00Z"), "March 05, 2024 at 02:07 PM");
    assert_eq!(format_date("2024-03-05T00:30:00+01:00"), "March 05, 2024 at 12:30 AM");
}

#[test]
fn bytes_below_a_kilobyte_are_whole() {
    assert_eq!(format_bytes(0), "0 bytes");
    assert_eq!(format_bytes(1023), "1023 bytes");
    assert_eq!(format_bytes(-5), "-5 bytes");
}

#[test]
fn bytes_in_each_unit() {
    assert_eq!(format_bytes(1024), "1.00 KB");
    assert_eq!(format_bytes(1536), "1.50 KB");
    assert_eq!(format_bytes(1_048_576), "1.00 MB");
    assert_eq!(format_bytes(5 * 1_073_741_824), "5.00 GB");
    assert_eq!(format_bytes(TIB + TIB / 4), "1.25 TB");
}

fn reference(bytes: i64) -> String {
    if bytes >= 1_099_511_627_776 {
        format!("{:.2} TB", bytes as f64 / 1_099_511_627_776.0)
    } else if bytes >= 1_073_741_824 {
        format!("{:.2} GB", bytes as f64 / 1_073_741_824.0)
    } else if bytes >= 1_048_576 {
        format!("{:.2} MB", bytes as f64 / 1_048_576.0)
    } else if bytes >= 1024 {
        format!("{:.2} KB", bytes as f64 / 1024.0)
    } else {
        format!("{} bytes", bytes)
    }
}

#[test]
fn bytes_agree_with_float_formatting() {
    let mut samples: Vec<i64> = vec![
        1152, 1029, 1035, 1_049_600, 1_610_612_736, 9_007_199_254_740_993, i64::MAX, i64::MAX - 1,
        (1i64 << 62) + 1, 1_125_899_906_842_624, 1_099_511_627_775, 1_099_511_627_776, 123_456_789_012_345,
    ];
    let mut x: i64 = 1;
    for _ in 0..5000 {
        x = x.wrapping_mul(6_364_136_223_846_793_005).wrapping_add(1_442_695_040_888_963_407);
        samples.push((x >> (x as u64 % 40)).abs());
        samples.push(1024 + (x.rem_euclid(200_000)));
    }
    for k in [10, 20, 30, 40] {
        for m in 1..400i64 {
            samples.push(m * (1i64 << k) / 8);
            samples.push(m * (1i64 << k) / 200);
        }
    }
    for b in samples {
        assert_eq!(format_bytes(b), reference(b), "bytes = {}", b);
    }
}

#[test]
fn decimals_and_joins() {
    assert_eq!(decimal_string(i64::MIN), i64::MIN.to_string());
    assert_eq!(decimal_string(0), "0");
    assert_eq!(decimal_string(90_210), "90210");
    assert_eq!(join_texts(&vec!["a".to_string(), "b".to_string(), "c".to_string()], "; "), "a; b; c");
    assert_eq!(join_texts(&vec![], ". "), "");
}

#[test]
fn browser_dates_use_local_fields() {
    let f = LocalDateFields { year: 2024, month0: 2, day: 5, hours: 0, minutes: 7 };
    assert_eq!(local_date_string(f), "March 5, 2024 at 12:07 AM");
    let f = LocalDateFields { year: 2024, month0: 11, day: 31, hours: 13, minutes: 45 };
    assert_eq!(local_date_string(f), "December 31, 2024 at 1:45 PM");
    let f = LocalDateFields { year: 2024, month0: 0, day: 1, hours: 12, minutes: 0 };
    assert_eq!(local_date_string(f), "January 1, 2024 at 12:00 PM");
    assert_eq!(format_date_browser("", Some(f)), "N/A");
    assert_eq!(format_date_browser("soon", Some(f)), "soon");
    assert_eq!(format_date_browser("2024-01-01T12:00:00Z", Some(f)), "January 1, 2024 at 12:00 PM");
    assert_eq!(format_date_browser("2024-03-05T14:07:00Z", None), "March 05, 2024 at 02:07 PM");
}

#[test]
fn instants_of_dates() {
    assert_eq!(date_instant("2024-03-01T05:30:00+05:30"), Some((1_709_251_200, 19_800)));
    assert_eq!(date_instant("2024-03-01T00:00:00Z"), Some((1_709_251_200, 0)));
    assert_eq!(date_instant("March"), None);
}
