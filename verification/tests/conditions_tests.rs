use torbox_companion::conditions::{eval_torrent, eval_torrent_at, eval_usenet_at, eval_webdl_at, whole_part_of};
use torbox_companion::clock::{now_secs, unix_seconds};
use torbox_companion::model::{
    ActionConfig, ActionType, AutomationEngine, AutomationRule, Condition, ConditionType, DownloadCategory, Operator,
    Torrent, UsenetDownload, WebDownload,
};

const JAN_1_2024: i64 = 1_704_067_200;

fn torrent() -> Torrent {
    Torrent {
        id: 1,
        name: "ubuntu.iso".to_string(),
        active: true,
        download_finished: true,
        download_present: true,
        download_state: "uploading".to_string(),
        created_at: "2024-01-01T00:00:00Z".to_string(),
        updated_at: "2024-01-01T00:00:00Z".to_string(),
        cached_at: None,
        expires_at: None,
        ratio_millionths: 1_500_000,
        progress_millionths: 1_000_000,
        availability_millionths: 2_000_000,
        seeds: 10,
        peers: 4,
        download_speed: 0,
        upload_speed: 2048,
        size: 2 * 1_073_741_824,
        total_uploaded: 3 * 1_073_741_824,
        total_downloaded: 2 * 1_073_741_824,
        eta: 7200,
        long_term_seeding: false,
        seed_torrent: true,
        magnet: Some("magnet:?xt=urn:btih:abc".to_string()),
        allow_zipped: true,
        torrent_file: false,
        cached: true,
        private: false,
    }
}

fn web() -> WebDownload {
    WebDownload {
        id: 2,
        name: "file.zip".to_string(),
        active: true,
        download_finished: false,
        download_present: false,
        download_state: "downloading".to_string(),
        created_at: "2024-01-01T00:00:00Z".to_string(),
        expires_at: None,
        progress_millionths: 500_000,
        availability_millionths: 1_000_000,
        download_speed: 5000,
        upload_speed: 0,
        size: 1_073_741_824,
        eta: 3600,
    }
}

fn usenet() -> UsenetDownload {
    UsenetDownload {
        id: 3,
        name: "show.nzb".to_string(),
        active: false,
        download_finished: true,
        download_present: true,
        download_state: "cached".to_string(),
        created_at: "2024-01-01T00:00:00Z".to_string(),
        expires_at: None,
        progress_millionths: 1_000_000,
        download_speed: 0,
        size: 512 * 1_048_576,
        eta: 0,
        cached: true,
    }
}

fn cond(condition_type: ConditionType, operator: Operator, value_millionths: i64) -> Condition {
    Condition { condition_type, operator, value_millionths }
}

fn rule(conditions: Vec<Condition>) -> AutomationRule {
    AutomationRule {
        name: "cleanup".to_string(),
        category: DownloadCategory::Torrent,
        conditions,
        action_config: ActionConfig { action_type: ActionType::Delete },
    }
}

#[test]
fn seeds_compared_with_each_operator() {
    let t = torrent();
    let now = JAN_1_2024;
    assert!(eval_torrent_at(&cond(ConditionType::Seeds, Operator::GreaterThan, 5_000_000), &t, now));
    assert!(!eval_torrent_at(&cond(ConditionType::Seeds, Operator::GreaterThan, 10_000_000), &t, now));
    assert!(eval_torrent_at(&cond(ConditionType::Seeds, Operator::GreaterThanOrEqual, 10_000_000), &t, now));
    assert!(eval_torrent_at(&cond(ConditionType::Seeds, Operator::LessThanOrEqual, 10_000_000), &t, now));
    assert!(!eval_torrent_at(&cond(ConditionType::Seeds, Operator::LessThan, 10_000_000), &t, now));
    assert!(eval_torrent_at(&cond(ConditionType::Seeds, Operator::Equal, 10_000_000), &t, now));
    assert!(eval_torrent_at(&cond(ConditionType::Seeds, Operator::Equal, 10_000_999), &t, now));
    assert!(!eval_torrent_at(&cond(ConditionType::Seeds, Operator::Equal, 10_001_000), &t, now));
}

#[test]
fn seeding_ratio_needs_an_active_torrent() {
    let mut t = torrent();
    let c = cond(ConditionType::SeedingRatio, Operator::GreaterThan, 1_000_000);
    assert!(eval_torrent_at(&c, &t, JAN_1_2024));
    t.active = false;
    assert!(!eval_torrent_at(&c, &t, JAN_1_2024));
    let below = cond(ConditionType::SeedingRatio, Operator::LessThan, 2_000_000);
    assert!(!eval_torrent_at(&below, &t, JAN_1_2024));
}

#[test]
fn sizes_are_measured_in_gibibytes() {
    let t = torrent();
    assert!(eval_torrent_at(&cond(ConditionType::FileSize, Operator::Equal, 2_000_000), &t, 0));
    assert!(eval_torrent_at(&cond(ConditionType::TotalUploaded, Operator::GreaterThan, 2_999_000), &t, 0));
    assert!(!eval_torrent_at(&cond(ConditionType::TotalUploaded, Operator::GreaterThan, 3_000_000), &t, 0));
    assert!(eval_torrent_at(&cond(ConditionType::TotalDownloaded, Operator::LessThanOrEqual, 2_000_000), &t, 0));
}

#[test]
fn age_is_hours_since_creation() {
    let t = torrent();
    let now = JAN_1_2024 + 2 * 3600;
    assert!(eval_torrent_at(&cond(ConditionType::Age, Operator::Equal, 2_000_000), &t, now));
    assert!(eval_torrent_at(&cond(ConditionType::Age, Operator::GreaterThan, 1_999_000), &t, now));
    assert!(!eval_torrent_at(&cond(ConditionType::Age, Operator::GreaterThan, 2_000_000), &t, now));
}

#[test]
fn unparsable_creation_time_counts_as_zero_age() {
    let mut t = torrent();
    t.created_at = "yesterday".to_string();
    assert!(eval_torrent_at(&cond(ConditionType::Age, Operator::Equal, 0), &t, JAN_1_2024 + 99_999));
}

#[test]
fn seeding_time_prefers_the_cache_time() {
    let mut t = torrent();
    t.cached_at = Some("2024-01-01T06:00:00Z".to_string());
    let now = JAN_1_2024 + 10 * 3600;
    assert!(eval_torrent_at(&cond(ConditionType::SeedingTime, Operator::Equal, 4_000_000), &t, now));
    t.cached_at = Some("not a time".to_string());
    assert!(eval_torrent_at(&cond(ConditionType::SeedingTime, Operator::Equal, 10_000_000), &t, now));
    t.download_finished = false;
    assert!(!eval_torrent_at(&cond(ConditionType::SeedingTime, Operator::GreaterThanOrEqual, 0), &t, now));
}

#[test]
fn stalled_state_is_read_in_lower_case() {
    let mut t = torrent();
    t.download_state = "STALLED (no seeds)".to_string();
    let now = JAN_1_2024 + 3 * 3600;
    assert!(eval_torrent_at(&cond(ConditionType::StalledTime, Operator::GreaterThan, 2_000_000), &t, now));
}

#[test]
fn downloading_without_progress_counts_as_stalled() {
    let mut t = torrent();
    t.download_state = "downloading".to_string();
    t.upload_speed = 0;
    t.download_speed = 100;
    t.seeds = 0;
    t.peers = 0;
    t.updated_at = "2024-01-01T00:00:00Z".to_string();
    let now = JAN_1_2024 + 10 * 3600;
    let c = cond(ConditionType::StalledTime, Operator::GreaterThan, 5_000_000);
    assert!(eval_torrent_at(&c, &t, now));
    t.seeds = 3;
    assert!(!eval_torrent_at(&c, &t, now));
    t.active = false;
    assert!(eval_torrent_at(&c, &t, now));
    t.download_speed = 4096;
    assert!(!eval_torrent_at(&c, &t, now));
}

#[test]
fn checking_counts_as_stalled_after_six_hours() {
    let mut t = torrent();
    t.download_state = "checking".to_string();
    let c = cond(ConditionType::StalledTime, Operator::GreaterThanOrEqual, 0);
    assert!(!eval_torrent_at(&c, &t, JAN_1_2024 + 21_600));
    assert!(eval_torrent_at(&c, &t, JAN_1_2024 + 21_601));
    t.download_state = "paused".to_string();
    assert!(!eval_torrent_at(&c, &t, JAN_1_2024 + 99_999));
}

#[test]
fn inactive_states() {
    let mut t = torrent();
    let c = cond(ConditionType::Inactive, Operator::Equal, 1_000_000);
    assert!(!eval_torrent_at(&c, &t, JAN_1_2024));
    t.download_state = "Failed: tracker error".to_string();
    assert!(eval_torrent_at(&c, &t, JAN_1_2024));
    t.download_state = "metaDL".to_string();
    t.active = false;
    assert!(eval_torrent_at(&c, &t, JAN_1_2024));
    t.download_state = "cached".to_string();
    assert!(!eval_torrent_at(&c, &t, JAN_1_2024));
    t.expires_at = Some("2023-12-31T00:00:00Z".to_string());
    assert!(eval_torrent_at(&c, &t, JAN_1_2024));
}

#[test]
fn download_state_codes() {
    let mut t = torrent();
    t.download_state = "uploading (no peers)".to_string();
    assert!(eval_torrent_at(&cond(ConditionType::DownloadState, Operator::Equal, 1_000_000), &t, 0));
    assert!(eval_torrent_at(&cond(ConditionType::DownloadState, Operator::Equal, 1_700_000), &t, 0));
    assert!(!eval_torrent_at(&cond(ConditionType::DownloadState, Operator::Equal, 2_000_000), &t, 0));
    t.download_state = "downloading".to_string();
    assert!(eval_torrent_at(&cond(ConditionType::DownloadState, Operator::Equal, -500_000), &t, 0));
    assert!(!eval_torrent_at(&cond(ConditionType::DownloadState, Operator::Equal, 4_000_000), &t, 0));
    t.download_state = "Downloading".to_string();
    assert!(!eval_torrent_at(&cond(ConditionType::DownloadState, Operator::Equal, 0), &t, 0));
}

#[test]
fn whole_part_cuts_toward_zero() {
    assert_eq!(whole_part_of(1_700_000), 1);
    assert_eq!(whole_part_of(-1_700_000), -1);
    assert_eq!(whole_part_of(-500_000), 0);
    assert_eq!(whole_part_of(i64::MIN), -9_223_372_036_854);
}

#[test]
fn flags_match_one_and_zero() {
    let t = torrent();
    assert!(eval_torrent_at(&cond(ConditionType::HasMagnet, Operator::Equal, 1_000_000), &t, 0));
    assert!(!eval_torrent_at(&cond(ConditionType::HasMagnet, Operator::Equal, 0), &t, 0));
    assert!(eval_torrent_at(&cond(ConditionType::TorrentFile, Operator::Equal, 0), &t, 0));
    assert!(eval_torrent_at(&cond(ConditionType::Private, Operator::GreaterThan, 0), &t, 0));
    assert!(!eval_torrent_at(&cond(ConditionType::Private, Operator::LessThan, 1_000_000), &t, 0));
}

#[test]
fn expiry_in_the_past_leaves_zero_hours() {
    let mut t = torrent();
    t.expires_at = Some("2024-01-01T05:00:00Z".to_string());
    let c = cond(ConditionType::ExpiresAt, Operator::Equal, 0);
    assert!(eval_torrent_at(&c, &t, JAN_1_2024 + 99 * 3600));
    assert!(eval_torrent_at(&cond(ConditionType::ExpiresAt, Operator::Equal, 5_000_000), &t, JAN_1_2024));
}

#[test]
fn eta_is_in_hours() {
    let t = torrent();
    assert!(eval_torrent_at(&cond(ConditionType::ETA, Operator::Equal, 2_000_000), &t, 0));
}

#[test]
fn web_downloads_never_meet_torrent_conditions() {
    let w = web();
    for k in [ConditionType::Seeds, ConditionType::SeedingRatio, ConditionType::Cached, ConditionType::Private] {
        assert!(!eval_webdl_at(&cond(k, Operator::GreaterThanOrEqual, i64::MIN), &w, JAN_1_2024));
    }
    assert!(eval_webdl_at(&cond(ConditionType::Progress, Operator::Equal, 500_000), &w, 0));
    assert!(eval_webdl_at(&cond(ConditionType::TotalDownloaded, Operator::Equal, 0), &w, 0));
    assert!(eval_webdl_at(&cond(ConditionType::DownloadState, Operator::Equal, 0), &w, 0));
    assert!(!eval_webdl_at(&cond(ConditionType::DownloadState, Operator::Equal, 1_000_000), &w, 0));
}

#[test]
fn usenet_downloads_have_no_upload_speed_or_availability() {
    let u = usenet();
    assert!(!eval_usenet_at(&cond(ConditionType::UploadSpeed, Operator::GreaterThanOrEqual, i64::MIN), &u, 0));
    assert!(eval_usenet_at(&cond(ConditionType::Availability, Operator::Equal, 0), &u, 0));
    assert!(eval_usenet_at(&cond(ConditionType::Cached, Operator::Equal, 1_000_000), &u, 0));
    assert!(eval_usenet_at(&cond(ConditionType::FileSize, Operator::Equal, 500_000), &u, 0));
    assert!(eval_usenet_at(&cond(ConditionType::DownloadState, Operator::Equal, 3_000_000), &u, 0));
}

#[test]
fn inactive_web_and_usenet() {
    let mut w = web();
    let c = cond(ConditionType::Inactive, Operator::Equal, 1_000_000);
    assert!(!eval_webdl_at(&c, &w, 0));
    w.download_state = "ERROR".to_string();
    assert!(eval_webdl_at(&c, &w, 0));
    let mut u = usenet();
    u.download_state = "queued".to_string();
    u.download_finished = false;
    assert!(eval_usenet_at(&c, &u, 0));
}

#[test]
fn the_clock_reads_the_present() {
    assert!(now_secs() > 1_600_000_000);
    let t = torrent();
    assert!(eval_torrent(&cond(ConditionType::Age, Operator::GreaterThan, 24_000_000), &t));
}

#[test]
fn empty_rule_matches_everything() {
    let e = AutomationEngine::new();
    let r = rule(vec![]);
    assert!(e.eval_torrent_conditions(&r, &torrent()));
    assert!(e.eval_webdl_conditions(&r, &web()));
    assert!(e.eval_usenet_conditions(&r, &usenet()));
}

#[test]
fn every_condition_must_hold() {
    let e = AutomationEngine::default();
    let both = rule(vec![
        cond(ConditionType::Seeds, Operator::GreaterThan, 5_000_000),
        cond(ConditionType::Peers, Operator::GreaterThan, 5_000_000),
    ]);
    assert!(!e.eval_torrent_conditions(&both, &torrent()));
    let one = rule(vec![cond(ConditionType::Seeds, Operator::GreaterThan, 5_000_000)]);
    assert!(e.eval_torrent_conditions(&one, &torrent()));
}

#[test]
fn matching_keeps_order_and_names() {
    let e = AutomationEngine::new();
    let mut a = torrent();
    a.id = 10;
    a.name = "a".to_string();
    let mut b = torrent();
    b.id = 11;
    b.name = "b".to_string();
    b.seeds = 0;
    let mut c = torrent();
    c.id = 12;
    c.name = "c".to_string();
    let r = rule(vec![cond(ConditionType::Seeds, Operator::GreaterThan, 0)]);
    let got = e.matching_torrents(&r, &vec![a, b, c]);
    assert_eq!(got, vec![(10, "a".to_string()), (12, "c".to_string())]);
    let webs = e.matching_web_downloads(&r, &vec![web()]);
    assert!(webs.is_empty());
    let r2 = rule(vec![cond(ConditionType::DownloadFinished, Operator::Equal, 1_000_000)]);
    assert_eq!(e.matching_usenet_downloads(&r2, &vec![usenet()]), vec![(3, "show.nzb".to_string())]);
}

#[test]
fn splitting_conditions_splits_the_verdict() {
    let e = AutomationEngine::new();
    let c1 = cond(ConditionType::Progress, Operator::LessThan, 1_000_000);
    let c2 = cond(ConditionType::DownloadSpeed, Operator::GreaterThan, 1000_000_000);
    let c3 = cond(ConditionType::FileSize, Operator::Equal, 1_000_000);
    let w = web();
    for (a, b) in [(vec![c1], vec![c2]), (vec![c1], vec![c3]), (vec![c2, c3], vec![c1])] {
        let mut whole = a.clone();
        whole.extend(b.clone());
        let left = e.eval_webdl_conditions(&rule(a), &w);
        let right = e.eval_webdl_conditions(&rule(b), &w);
        assert_eq!(e.eval_webdl_conditions(&rule(whole), &w), left && right);
    }
}

#[test]
fn one_clock_reading_for_every_condition() {
    let e = AutomationEngine::new();
    let t = torrent();
    let now = JAN_1_2024 + 5 * 3600;
    let young = cond(ConditionType::Age, Operator::LessThan, 6_000_000);
    let old = cond(ConditionType::Age, Operator::GreaterThan, 4_000_000);
    let seeded = cond(ConditionType::Seeds, Operator::GreaterThan, 20_000_000);
    assert!(e.eval_torrent_conditions_at(&rule(vec![young, old]), &t, now));
    assert!(!e.eval_torrent_conditions_at(&rule(vec![young, old]), &t, now + 2 * 3600));
    assert!(!e.eval_torrent_conditions_at(&rule(vec![young, seeded]), &t, now));
    assert!(e.eval_torrent_conditions_at(&rule(vec![]), &t, now));
    let w = web();
    for (a, b) in [(vec![young], vec![old]), (vec![old], vec![seeded]), (vec![young, old], vec![])] {
        let mut whole = a.clone();
        whole.extend(b.clone());
        assert_eq!(
            e.eval_webdl_conditions_at(&rule(whole), &w, now),
            e.eval_webdl_conditions_at(&rule(a), &w, now) && e.eval_webdl_conditions_at(&rule(b), &w, now)
        );
    }
    let u = usenet();
    assert!(e.eval_usenet_conditions_at(&rule(vec![young, old]), &u, now));
}

#[test]
fn clock_readings_become_unix_seconds() {
    assert_eq!(unix_seconds(Ok(1_700_000_000)), 1_700_000_000);
    assert_eq!(unix_seconds(Err(60)), -60);
    assert_eq!(unix_seconds(Ok(u64::MAX)), -1);
    assert_eq!(unix_seconds(Err(u64::MAX)), i64::MIN);
    assert_eq!(unix_seconds(Err(i64::MAX as u64)), -i64::MAX);
}
