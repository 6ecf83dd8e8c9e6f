//! What each condition measures on a torrent, a web download and a usenet
//! download, and whether a rule's conditions all hold of a transfer.
use vstd::prelude::*;
use crate::clock::{now_secs, parse_rfc3339_seconds, rfc3339_seconds};
use crate::model::{Condition, ConditionType, Torrent, UsenetDownload, WebDownload};
use crate::quantity::{compares, flag_matches, holds, judge, zero, Measure, Quantity};
use crate::text::{chars_contain, chars_equal, chars_of, chars_start_with, has_infix, has_prefix, lowercase, to_lower};

verus! {

/// The instants named by a transfer's RFC 3339 fields, where they parse.
#[derive(Clone, Copy, Debug)]
pub struct Timestamps {
    pub created: Option<i64>,
    pub updated: Option<i64>,
    pub cached: Option<i64>,
    pub expires: Option<i64>,
}

/// The Unix time of an optional RFC 3339 field.
pub open spec fn optional_seconds(s: Option<String>) -> Option<i64> {
    match s {
        Some(s) => rfc3339_seconds(s@),
        None => None,
    }
}

/// The instants of a torrent's time fields.
pub open spec fn torrent_timestamps(t: Torrent) -> Timestamps {
    Timestamps {
        created: rfc3339_seconds(t.created_at@),
        updated: rfc3339_seconds(t.updated_at@),
        cached: optional_seconds(t.cached_at),
        expires: optional_seconds(t.expires_at),
    }
}

/// The instants of a web download's time fields.
pub open spec fn web_timestamps(w: WebDownload) -> Timestamps {
    Timestamps {
        created: rfc3339_seconds(w.created_at@),
        updated: None,
        cached: None,
        expires: optional_seconds(w.expires_at),
    }
}

/// The instants of a usenet download's time fields.
pub open spec fn usenet_timestamps(u: UsenetDownload) -> Timestamps {
    Timestamps {
        created: rfc3339_seconds(u.created_at@),
        updated: None,
        cached: None,
        expires: optional_seconds(u.expires_at),
    }
}

/// Hours from the instant `ts` to `now`.
pub open spec fn hours_since(now: i64, ts: Option<i64>) -> Option<Quantity> {
    match ts {
        Some(t) => Some(Quantity { num: (now - t) as i128, den: 3600 }),
        None => None,
    }
}

/// Hours from `now` to the instant `ts`, and zero once it has passed.
pub open spec fn hours_left(now: i64, ts: Option<i64>) -> Option<Quantity> {
    match ts {
        Some(t) => Some(Quantity { num: if t > now { (t - now) as i128 } else { 0 }, den: 3600 }),
        None => None,
    }
}

/// A byte count in gibibytes.
pub open spec fn gibibytes(bytes: i64) -> Quantity {
    Quantity { num: bytes as i128, den: 1_073_741_824 }
}

/// A whole number.
pub open spec fn whole(n: i64) -> Quantity {
    Quantity { num: n as i128, den: 1 }
}

/// A number held in millionths.
pub open spec fn fraction(millionths: i64) -> Quantity {
    Quantity { num: millionths as i128, den: 1_000_000 }
}

/// A number of seconds, in hours.
pub open spec fn in_hours(secs: i64) -> Quantity {
    Quantity { num: secs as i128, den: 3600 }
}

/// One for yes, zero for no.
pub open spec fn indicator(b: bool) -> Quantity {
    Quantity { num: if b { 1 } else { 0 }, den: 1 }
}

/// `value / 1_000_000` with its fraction cut off (toward zero), the state
/// code that a `DownloadState` condition names.
pub open spec fn whole_part(value: int) -> int {
    if value >= 0 {
        value / 1_000_000
    } else {
        -((-value) / 1_000_000)
    }
}

/// The conditions that only a torrent can meet.
pub open spec fn torrent_only(k: ConditionType) -> bool {
    ||| k is SeedingTime
    ||| k is SeedingRatio
    ||| k is StalledTime
    ||| k is Seeds
    ||| k is Peers
    ||| k is TotalUploaded
    ||| k is LongTermSeeding
    ||| k is SeedTorrent
    ||| k is HasMagnet
    ||| k is AllowZipped
    ||| k is TorrentFile
    ||| k is Private
}

/// Whether a torrent's state is the one that state code `code` names.
pub open spec fn torrent_state_is(code: int, state: Seq<char>) -> bool {
    if code == 0 {
        state == "downloading"@
    } else if code == 1 {
        state == "uploading"@ || state == "uploading (no peers)"@
    } else if code == 2 {
        state == "stopped seeding"@ || state == "stopped"@
    } else if code == 3 {
        state == "cached"@
    } else {
        false
    }
}

/// Whether a web or usenet download's state is the one that `code` names.
pub open spec fn transfer_state_is(code: int, state: Seq<char>) -> bool {
    if code == 0 {
        state == "downloading"@
    } else if code == 2 {
        state == "stopped"@
    } else if code == 3 {
        state == "cached"@
    } else {
        false
    }
}

/// How long a torrent has been stalled, or that it is not stalled; `lower` is
/// its state in lower case.
pub open spec fn torrent_stall(t: Torrent, now: i64, ts: Timestamps, lower: Seq<char>) -> Measure {
    if has_infix(lower, "stalled"@) {
        Measure::Amount(hours_since(now, ts.created))
    } else {
        let downloading = lower == "downloading"@ || lower == "active"@ || has_infix(lower, "downloading"@);
        let checking = lower == "checking"@;
        if !downloading && !checking {
            Measure::Decided(false)
        } else {
            let stalled = if checking {
                match ts.updated {
                    Some(u) => now - u > 21600,
                    None => false,
                }
            } else {
                t.download_speed < 1024 && t.upload_speed == 0 && ((t.seeds == 0 && t.peers == 0)
                    || !t.active)
            };
            if !stalled {
                Measure::Decided(false)
            } else {
                Measure::Amount(hours_since(now, ts.updated))
            }
        }
    }
}

/// Whether a torrent counts as inactive; `lower` is its state in lower case.
pub open spec fn torrent_inactive(t: Torrent, now: i64, ts: Timestamps, lower: Seq<char>) -> bool {
    ||| lower == "reported missing"@
    ||| lower == "missingfiles"@
    ||| lower == "failed"@
    ||| lower == "error"@
    ||| has_prefix(lower, "failed"@)
    ||| match ts.expires {
        Some(e) => e < now,
        None => false,
    }
    ||| lower == "expired"@
    ||| (!t.active && !has_infix(lower, "cached"@) && !has_infix(lower, "completed"@) && !has_infix(
        lower,
        "uploading"@,
    ) && !has_infix(lower, "seeding"@) && !has_infix(lower, "stalled"@))
    ||| lower == "stopped seeding"@
    ||| lower == "stopped"@
}

/// Whether a web or usenet download counts as inactive; `lower` is its
/// state in lower case.
pub open spec fn transfer_inactive(active: bool, finished: bool, lower: Seq<char>) -> bool {
    ||| lower == "failed"@
    ||| has_prefix(lower, "failed"@)
    ||| lower == "error"@
    ||| lower == "expired"@
    ||| (!active && !finished && !has_infix(lower, "cached"@) && !has_infix(lower, "downloading"@))
}

/// How condition `c` is measured on torrent `t` at Unix time `now`, given the
/// instants of its time fields and its state in lower case.
pub open spec fn torrent_measure(c: Condition, t: Torrent, now: i64, ts: Timestamps, lower: Seq<char>) -> Measure {
    match c.condition_type {
        ConditionType::SeedingTime => if !t.active || !t.download_finished {
            Measure::Decided(false)
        } else {
            Measure::Amount(
                hours_since(
                    now,
                    match ts.cached {
                        Some(x) => Some(x),
                        None => ts.updated,
                    },
                ),
            )
        },
        ConditionType::SeedingRatio => if !t.active {
            Measure::Decided(false)
        } else {
            Measure::Amount(Some(fraction(t.ratio_millionths)))
        },
        ConditionType::StalledTime => torrent_stall(t, now, ts, lower),
        ConditionType::Seeds => Measure::Amount(Some(whole(t.seeds))),
        ConditionType::Peers => Measure::Amount(Some(whole(t.peers))),
        ConditionType::TotalUploaded => Measure::Amount(Some(gibibytes(t.total_uploaded))),
        ConditionType::LongTermSeeding => Measure::Flag(t.long_term_seeding),
        ConditionType::SeedTorrent => Measure::Flag(t.seed_torrent),
        ConditionType::HasMagnet => Measure::Flag(t.magnet is Some),
        ConditionType::AllowZipped => Measure::Flag(t.allow_zipped),
        ConditionType::TorrentFile => Measure::Flag(t.torrent_file),
        ConditionType::Age => Measure::Amount(hours_since(now, ts.created)),
        ConditionType::DownloadSpeed => Measure::Amount(Some(whole(t.download_speed))),
        ConditionType::UploadSpeed => Measure::Amount(Some(whole(t.upload_speed))),
        ConditionType::FileSize => Measure::Amount(Some(gibibytes(t.size))),
        ConditionType::Progress => Measure::Amount(Some(fraction(t.progress_millionths))),
        ConditionType::TotalDownloaded => Measure::Amount(Some(gibibytes(t.total_downloaded))),
        ConditionType::DownloadState => Measure::Decided(
            torrent_state_is(whole_part(c.value_millionths as int), t.download_state@),
        ),
        ConditionType::Inactive => Measure::Amount(Some(indicator(torrent_inactive(t, now, ts, lower)))),
        ConditionType::DownloadFinished => Measure::Flag(t.download_finished),
        ConditionType::Cached => Measure::Flag(t.cached),
        ConditionType::Private => Measure::Flag(t.private),
        ConditionType::ETA => Measure::Amount(Some(in_hours(t.eta))),
        ConditionType::Availability => Measure::Amount(Some(fraction(t.availability_millionths))),
        ConditionType::ExpiresAt => Measure::Amount(hours_left(now, ts.expires)),
        ConditionType::DownloadPresent => Measure::Flag(t.download_present),
    }
}

/// How condition `c` is measured on web download `w` at Unix time `now`.
pub open spec fn web_measure(c: Condition, w: WebDownload, now: i64, ts: Timestamps, lower: Seq<char>) -> Measure {
    if torrent_only(c.condition_type) || c.condition_type is Cached {
        Measure::Decided(false)
    } else {
        match c.condition_type {
            ConditionType::Age => Measure::Amount(hours_since(now, ts.created)),
            ConditionType::DownloadSpeed => Measure::Amount(Some(whole(w.download_speed))),
            ConditionType::UploadSpeed => Measure::Amount(Some(whole(w.upload_speed))),
            ConditionType::FileSize => Measure::Amount(Some(gibibytes(w.size))),
            ConditionType::Progress => Measure::Amount(Some(fraction(w.progress_millionths))),
            ConditionType::TotalDownloaded => Measure::Amount(None),
            ConditionType::DownloadState => Measure::Decided(
                transfer_state_is(whole_part(c.value_millionths as int), w.download_state@),
            ),
            ConditionType::Inactive => Measure::Amount(
                Some(indicator(transfer_inactive(w.active, w.download_finished, lower))),
            ),
            ConditionType::DownloadFinished => Measure::Flag(w.download_finished),
            ConditionType::ETA => Measure::Amount(Some(in_hours(w.eta))),
            ConditionType::Availability => Measure::Amount(Some(fraction(w.availability_millionths))),
            ConditionType::ExpiresAt => Measure::Amount(hours_left(now, ts.expires)),
            _ => Measure::Flag(w.download_present),
        }
    }
}

/// How condition `c` is measured on usenet download `u` at Unix time `now`.
pub open spec fn usenet_measure(c: Condition, u: UsenetDownload, now: i64, ts: Timestamps, lower: Seq<char>) -> Measure {
    if torrent_only(c.condition_type) || c.condition_type is UploadSpeed {
        Measure::Decided(false)
    } else {
        match c.condition_type {
            ConditionType::Age => Measure::Amount(hours_since(now, ts.created)),
            ConditionType::DownloadSpeed => Measure::Amount(Some(whole(u.download_speed))),
            ConditionType::FileSize => Measure::Amount(Some(gibibytes(u.size))),
            ConditionType::Progress => Measure::Amount(Some(fraction(u.progress_millionths))),
            ConditionType::TotalDownloaded => Measure::Amount(None),
            ConditionType::DownloadState => Measure::Decided(
                transfer_state_is(whole_part(c.value_millionths as int), u.download_state@),
            ),
            ConditionType::Inactive => Measure::Amount(
                Some(indicator(transfer_inactive(u.active, u.download_finished, lower))),
            ),
            ConditionType::DownloadFinished => Measure::Flag(u.download_finished),
            ConditionType::Cached => Measure::Flag(u.cached),
            ConditionType::ETA => Measure::Amount(Some(in_hours(u.eta))),
            ConditionType::Availability => Measure::Amount(None),
            ConditionType::ExpiresAt => Measure::Amount(hours_left(now, ts.expires)),
            _ => Measure::Flag(u.download_present),
        }
    }
}

/// Whether condition `c` holds of torrent `t` at Unix time `now`.
pub open spec fn torrent_condition_holds(c: Condition, t: Torrent, now: i64) -> bool {
    holds(
        torrent_measure(c, t, now, torrent_timestamps(t), lowercase(t.download_state@)),
        c.operator,
        c.value_millionths as int,
    )
}

/// Whether condition `c` holds of web download `w` at Unix time `now`.
pub open spec fn web_condition_holds(c: Condition, w: WebDownload, now: i64) -> bool {
    holds(
        web_measure(c, w, now, web_timestamps(w), lowercase(w.download_state@)),
        c.operator,
        c.value_millionths as int,
    )
}

/// Whether condition `c` holds of usenet download `u` at Unix time `now`.
pub open spec fn usenet_condition_holds(c: Condition, u: UsenetDownload, now: i64) -> bool {
    holds(
        usenet_measure(c, u, now, usenet_timestamps(u), lowercase(u.download_state@)),
        c.operator,
        c.value_millionths as int,
    )
}

/// Every condition of `cs` holds of torrent `t`, the `i`-th at time `nows[i]`.
pub open spec fn torrent_conditions_hold(cs: Seq<Condition>, t: Torrent, nows: Seq<i64>) -> bool {
    forall|i: int| 0 <= i < cs.len() ==> #[trigger] torrent_condition_holds(cs[i], t, nows[i])
}

/// Every condition of `cs` holds of web download `w`, the `i`-th at time `nows[i]`.
pub open spec fn web_conditions_hold(cs: Seq<Condition>, w: WebDownload, nows: Seq<i64>) -> bool {
    forall|i: int| 0 <= i < cs.len() ==> #[trigger] web_condition_holds(cs[i], w, nows[i])
}

/// Every condition of `cs` holds of usenet download `u`, the `i`-th at time `nows[i]`.
pub open spec fn usenet_conditions_hold(cs: Seq<Condition>, u: UsenetDownload, nows: Seq<i64>) -> bool {
    forall|i: int| 0 <= i < cs.len() ==> #[trigger] usenet_condition_holds(cs[i], u, nows[i])
}

/// No web download meets a condition that only torrents can meet, nor a
/// `Cached` condition, whatever its fields and whenever it is checked.
pub proof fn web_never_meets_torrent_conditions(c: Condition, w: WebDownload, now: i64)
    requires
        torrent_only(c.condition_type) || c.condition_type is Cached,
    ensures
        !web_condition_holds(c, w, now),
{
}

/// No usenet download meets a condition that only torrents can meet, nor an
/// `UploadSpeed` condition, whatever its fields and whenever it is checked.
pub proof fn usenet_never_meets_torrent_conditions(c: Condition, u: UsenetDownload, now: i64)
    requires
        torrent_only(c.condition_type) || c.condition_type is UploadSpeed,
    ensures
        !usenet_condition_holds(c, u, now),
{
}

/// A `DownloadState` condition whose value names no known state (its whole
/// part is not 0, 1, 2 or 3) matches no transfer.
pub proof fn unknown_state_code_matches_nothing(
    c: Condition,
    t: Torrent,
    w: WebDownload,
    u: UsenetDownload,
    now: i64,
)
    requires
        c.condition_type is DownloadState,
        whole_part(c.value_millionths as int) < 0 || whole_part(c.value_millionths as int) > 3,
    ensures
        !torrent_condition_holds(c, t, now),
        !web_condition_holds(c, w, now),
        !usenet_condition_holds(c, u, now),
{
}

/// The hours left before an expiry are never negative: an expiry in the past
/// counts as zero hours left.
pub proof fn hours_left_never_negative(now: i64, ts: Option<i64>)
    ensures
        hours_left(now, ts) matches Some(q) ==> q.num >= 0,
        ts matches Some(t) && t <= now ==> hours_left(now, ts) == Some(Quantity { num: 0, den: 3600 }),
{
}

/// Condition `c`'s comparison applied to the number `num / den`.
pub open spec fn compared(c: Condition, num: int, den: int) -> bool {
    compares(Quantity { num: num as i128, den: den as i128 }, c.operator, c.value_millionths as int)
}

/// The hours from the instant `from`, where it is known, to `now`, compared
/// by condition `c`; an unknown instant counts as zero hours.
pub open spec fn compared_hours_since(c: Condition, now: i64, from: Option<i64>) -> bool {
    match from {
        Some(s) => compared(c, now - s, 3600),
        None => compared(c, 0, 1),
    }
}

/// The hours from `now` to the instant `until`, where it is known, compared
/// by condition `c`; an instant already passed counts as zero hours, as does
/// an unknown one.
pub open spec fn compared_hours_until(c: Condition, now: i64, until: Option<i64>) -> bool {
    match until {
        Some(e) => compared(c, if e > now { e - now } else { 0 }, 3600),
        None => compared(c, 0, 1),
    }
}

/// The numeric conditions on a torrent compare the field they name: seeds,
/// peers and speeds as they are, sizes and transfer totals in gibibytes, the
/// ratio (of an active torrent only), progress and availability from
/// millionths, and the time to completion in hours.
pub proof fn torrent_numeric_conditions(c: Condition, t: Torrent, now: i64)
    ensures
        c.condition_type is Seeds ==> (torrent_condition_holds(c, t, now) <==> compared(c, t.seeds as int, 1)),
        c.condition_type is Peers ==> (torrent_condition_holds(c, t, now) <==> compared(c, t.peers as int, 1)),
        c.condition_type is DownloadSpeed ==> (torrent_condition_holds(c, t, now) <==> compared(
            c,
            t.download_speed as int,
            1,
        )),
        c.condition_type is UploadSpeed ==> (torrent_condition_holds(c, t, now) <==> compared(
            c,
            t.upload_speed as int,
            1,
        )),
        c.condition_type is FileSize ==> (torrent_condition_holds(c, t, now) <==> compared(
            c,
            t.size as int,
            1_073_741_824,
        )),
        c.condition_type is TotalUploaded ==> (torrent_condition_holds(c, t, now) <==> compared(
            c,
            t.total_uploaded as int,
            1_073_741_824,
        )),
        c.condition_type is TotalDownloaded ==> (torrent_condition_holds(c, t, now) <==> compared(
            c,
            t.total_downloaded as int,
            1_073_741_824,
        )),
        c.condition_type is Progress ==> (torrent_condition_holds(c, t, now) <==> compared(
            c,
            t.progress_millionths as int,
            1_000_000,
        )),
        c.condition_type is Availability ==> (torrent_condition_holds(c, t, now) <==> compared(
            c,
            t.availability_millionths as int,
            1_000_000,
        )),
        c.condition_type is SeedingRatio ==> (torrent_condition_holds(c, t, now) <==> t.active
            && compared(c, t.ratio_millionths as int, 1_000_000)),
        c.condition_type is ETA ==> (torrent_condition_holds(c, t, now) <==> compared(c, t.eta as int, 3600)),
{
}

/// The yes/no conditions on a torrent match the property they name against
/// the value.
pub proof fn torrent_flag_conditions(c: Condition, t: Torrent, now: i64)
    ensures
        c.condition_type is LongTermSeeding ==> (torrent_condition_holds(c, t, now) <==> flag_matches(
            t.long_term_seeding,
            c.value_millionths as int,
        )),
        c.condition_type is SeedTorrent ==> (torrent_condition_holds(c, t, now) <==> flag_matches(
            t.seed_torrent,
            c.value_millionths as int,
        )),
        c.condition_type is HasMagnet ==> (torrent_condition_holds(c, t, now) <==> flag_matches(
            t.magnet is Some,
            c.value_millionths as int,
        )),
        c.condition_type is AllowZipped ==> (torrent_condition_holds(c, t, now) <==> flag_matches(
            t.allow_zipped,
            c.value_millionths as int,
        )),
        c.condition_type is TorrentFile ==> (torrent_condition_holds(c, t, now) <==> flag_matches(
            t.torrent_file,
            c.value_millionths as int,
        )),
        c.condition_type is DownloadFinished ==> (torrent_condition_holds(c, t, now) <==> flag_matches(
            t.download_finished,
            c.value_millionths as int,
        )),
        c.condition_type is Cached ==> (torrent_condition_holds(c, t, now) <==> flag_matches(
            t.cached,
            c.value_millionths as int,
        )),
        c.condition_type is Private ==> (torrent_condition_holds(c, t, now) <==> flag_matches(
            t.private,
            c.value_millionths as int,
        )),
        c.condition_type is DownloadPresent ==> (torrent_condition_holds(c, t, now) <==> flag_matches(
            t.download_present,
            c.value_millionths as int,
        )),
{
}

/// The time conditions on a torrent checked at `now`: `Age` counts the hours
/// since it was created, `ExpiresAt` the hours left before it expires, and
/// `SeedingTime`, of an active finished torrent only, the hours since it was
/// cached or, without a cache time, since it was last updated.
pub proof fn torrent_time_conditions(c: Condition, t: Torrent, now: i64)
    ensures
        c.condition_type is Age ==> (torrent_condition_holds(c, t, now) <==> compared_hours_since(
            c,
            now,
            rfc3339_seconds(t.created_at@),
        )),
        c.condition_type is ExpiresAt ==> (torrent_condition_holds(c, t, now) <==> compared_hours_until(
            c,
            now,
            optional_seconds(t.expires_at),
        )),
        c.condition_type is SeedingTime ==> (torrent_condition_holds(c, t, now) <==> t.active
            && t.download_finished && compared_hours_since(
            c,
            now,
            match optional_seconds(t.cached_at) {
                Some(x) => Some(x),
                None => rfc3339_seconds(t.updated_at@),
            },
        )),
{
}

/// A `DownloadState` condition names a torrent's state by the whole part of
/// its value, cut toward zero: 0 downloading, 1 uploading (with or without peers), 2 stopped
/// (seeding or not), 3 cached.
pub proof fn torrent_state_codes(c: Condition, t: Torrent, now: i64)
    requires
        c.condition_type is DownloadState,
    ensures
        -1_000_000 < c.value_millionths < 1_000_000 ==> (torrent_condition_holds(c, t, now) <==> t.download_state@
            == "downloading"@),
        1_000_000 <= c.value_millionths < 2_000_000 ==> (torrent_condition_holds(c, t, now) <==> (
        t.download_state@ == "uploading"@ || t.download_state@ == "uploading (no peers)"@)),
        2_000_000 <= c.value_millionths < 3_000_000 ==> (torrent_condition_holds(c, t, now) <==> (
        t.download_state@ == "stopped seeding"@ || t.download_state@ == "stopped"@)),
        3_000_000 <= c.value_millionths < 4_000_000 ==> (torrent_condition_holds(c, t, now) <==> t.download_state@
            == "cached"@),
{
}

/// A torrent counts as inactive (1) once its expiry has passed, or when its
/// state reads "error", "failed" or "expired" in any case; an active torrent
/// that is downloading and has not expired counts as not inactive (0).
pub proof fn torrent_inactive_cases(c: Condition, t: Torrent, now: i64)
    requires
        c.condition_type is Inactive,
    ensures
        (optional_seconds(t.expires_at) matches Some(e) && e < now) ==> (torrent_condition_holds(c, t, now)
            <==> compared(c, 1, 1)),
        (lowercase(t.download_state@) == "error"@ || lowercase(t.download_state@) == "failed"@
            || lowercase(t.download_state@) == "expired"@) ==> (torrent_condition_holds(c, t, now)
            <==> compared(c, 1, 1)),
        (t.active && lowercase(t.download_state@) == "downloading"@ && !(optional_seconds(t.expires_at) matches Some(e)
            && e < now)) ==> (torrent_condition_holds(c, t, now) <==> compared(c, 0, 1)),
{
    let lower = lowercase(t.download_state@);
    if lower == "downloading"@ {
        reveal_strlit("downloading");
        reveal_strlit("failed");
        reveal_strlit("reported missing");
        reveal_strlit("missingfiles");
        reveal_strlit("error");
        reveal_strlit("expired");
        reveal_strlit("stopped seeding");
        reveal_strlit("stopped");
        assert(!has_prefix(lower, "failed"@)) by {
            assert(lower[0] != "failed"@[0]);
        }
        assert(lower != "reported missing"@ && lower != "missingfiles"@ && lower != "failed"@ && lower != "error"@);
        assert(lower != "expired"@ && lower != "stopped seeding"@ && lower != "stopped"@);
        assert(!torrent_inactive(t, now, torrent_timestamps(t), lower) || !t.active || (optional_seconds(t.expires_at) matches Some(e) && e < now));
    }
}

/// A torrent whose state reads "stalled" in any case has been stalled since
/// it was created; one that is downloading is stalled, since its last update,
/// only while it takes under 1 KiB/s, sends nothing and has no seeds and
/// peers (or is not active); one in any other state is never stalled.
pub proof fn torrent_stall_cases(c: Condition, t: Torrent, now: i64)
    requires
        c.condition_type is StalledTime,
    ensures
        has_infix(lowercase(t.download_state@), "stalled"@) ==> (torrent_condition_holds(c, t, now)
            <==> compared_hours_since(c, now, rfc3339_seconds(t.created_at@))),
        lowercase(t.download_state@) == "downloading"@ ==> (torrent_condition_holds(c, t, now) <==> (
        t.download_speed < 1024 && t.upload_speed == 0 && ((t.seeds == 0 && t.peers == 0) || !t.active)
            && compared_hours_since(c, now, rfc3339_seconds(t.updated_at@)))),
        (!has_infix(lowercase(t.download_state@), "stalled"@) && !has_infix(
            lowercase(t.download_state@),
            "downloading"@,
        ) && lowercase(t.download_state@) != "downloading"@ && lowercase(t.download_state@) != "active"@
            && lowercase(t.download_state@) != "checking"@) ==> !torrent_condition_holds(c, t, now),
        lowercase(t.download_state@) == "checking"@ ==> (torrent_condition_holds(c, t, now) <==> (
        rfc3339_seconds(t.updated_at@) matches Some(u) && now - u > 21600 && compared(c, now - u, 3600))),
{
    let lower = lowercase(t.download_state@);
    if lower == "checking"@ {
        reveal_strlit("checking");
        reveal_strlit("stalled");
        reveal_strlit("downloading");
        reveal_strlit("active");
        assert forall|i: int| 0 <= i && i + 7 <= lower.len() implies #[trigger] lower.subrange(i, i + 7)
            != "stalled"@ by {
            assert(lower.subrange(i, i + 7)[0] == lower[i]);
            assert(lower[i] != 's');
        }
        assert(!has_infix(lower, "downloading"@));
        assert(lower != "downloading"@ && lower != "active"@);
    }
    if lower == "downloading"@ {
        reveal_strlit("downloading");
        reveal_strlit("stalled");
        reveal_strlit("checking");
        assert forall|i: int| 0 <= i && i + 7 <= lower.len() implies #[trigger] lower.subrange(i, i + 7)
            != "stalled"@ by {
            assert(lower.subrange(i, i + 7)[0] == lower[i]);
            assert(lower[i] != 's');
        }
    }
}

/// The conditions that a web download can meet compare the field they name,
/// as on a torrent: speeds as they are, its size in gibibytes, progress and
/// availability from millionths, the time to completion in hours, the hours
/// since it was created and the hours left before it expires; its transfer
/// total is unknown and counts as zero.
pub proof fn web_conditions_read_their_field(c: Condition, w: WebDownload, now: i64)
    ensures
        c.condition_type is DownloadSpeed ==> (web_condition_holds(c, w, now) <==> compared(c, w.download_speed as int, 1)),
        c.condition_type is UploadSpeed ==> (web_condition_holds(c, w, now) <==> compared(c, w.upload_speed as int, 1)),
        c.condition_type is FileSize ==> (web_condition_holds(c, w, now) <==> compared(c, w.size as int, 1_073_741_824)),
        c.condition_type is Progress ==> (web_condition_holds(c, w, now) <==> compared(c, w.progress_millionths as int, 1_000_000)),
        c.condition_type is Availability ==> (web_condition_holds(c, w, now) <==> compared(c, w.availability_millionths as int, 1_000_000)),
        c.condition_type is TotalDownloaded ==> (web_condition_holds(c, w, now) <==> compared(c, 0, 1)),
        c.condition_type is ETA ==> (web_condition_holds(c, w, now) <==> compared(c, w.eta as int, 3600)),
        c.condition_type is DownloadFinished ==> (web_condition_holds(c, w, now) <==> flag_matches(w.download_finished, c.value_millionths as int)),
        c.condition_type is DownloadPresent ==> (web_condition_holds(c, w, now) <==> flag_matches(w.download_present, c.value_millionths as int)),
        c.condition_type is Age ==> (web_condition_holds(c, w, now) <==> compared_hours_since(c, now, rfc3339_seconds(w.created_at@))),
        c.condition_type is ExpiresAt ==> (web_condition_holds(c, w, now) <==> compared_hours_until(c, now, optional_seconds(w.expires_at))),
{
}

/// The conditions that a usenet download can meet compare the field they
/// name, as on a torrent: its download speed as it is, its size in
/// gibibytes, progress from millionths, the time to completion in hours, the
/// hours since it was created and the hours left before it expires; its
/// availability and transfer total are unknown and count as zero.
pub proof fn usenet_conditions_read_their_field(c: Condition, u: UsenetDownload, now: i64)
    ensures
        c.condition_type is DownloadSpeed ==> (usenet_condition_holds(c, u, now) <==> compared(c, u.download_speed as int, 1)),
        c.condition_type is FileSize ==> (usenet_condition_holds(c, u, now) <==> compared(c, u.size as int, 1_073_741_824)),
        c.condition_type is Progress ==> (usenet_condition_holds(c, u, now) <==> compared(c, u.progress_millionths as int, 1_000_000)),
        c.condition_type is Availability ==> (usenet_condition_holds(c, u, now) <==> compared(c, 0, 1)),
        c.condition_type is TotalDownloaded ==> (usenet_condition_holds(c, u, now) <==> compared(c, 0, 1)),
        c.condition_type is ETA ==> (usenet_condition_holds(c, u, now) <==> compared(c, u.eta as int, 3600)),
        c.condition_type is DownloadFinished ==> (usenet_condition_holds(c, u, now) <==> flag_matches(u.download_finished, c.value_millionths as int)),
        c.condition_type is DownloadPresent ==> (usenet_condition_holds(c, u, now) <==> flag_matches(u.download_present, c.value_millionths as int)),
        c.condition_type is Cached ==> (usenet_condition_holds(c, u, now) <==> flag_matches(u.cached, c.value_millionths as int)),
        c.condition_type is Age ==> (usenet_condition_holds(c, u, now) <==> compared_hours_since(c, now, rfc3339_seconds(u.created_at@))),
        c.condition_type is ExpiresAt ==> (usenet_condition_holds(c, u, now) <==> compared_hours_until(c, now, optional_seconds(u.expires_at))),
{
}

/// A `DownloadState` condition names a web or usenet download's state by the
/// whole part of its value, cut toward zero: 0 downloading, 2 stopped, 3
/// cached; 1 names none.
pub proof fn transfer_state_codes(c: Condition, w: WebDownload, u: UsenetDownload, now: i64)
    requires
        c.condition_type is DownloadState,
    ensures
        -1_000_000 < c.value_millionths < 1_000_000 ==> (web_condition_holds(c, w, now) <==> w.download_state@ == "downloading"@)
            && (usenet_condition_holds(c, u, now) <==> u.download_state@ == "downloading"@),
        1_000_000 <= c.value_millionths < 2_000_000 ==> !web_condition_holds(c, w, now) && !usenet_condition_holds(c, u, now),
        2_000_000 <= c.value_millionths < 3_000_000 ==> (web_condition_holds(c, w, now) <==> w.download_state@ == "stopped"@)
            && (usenet_condition_holds(c, u, now) <==> u.download_state@ == "stopped"@),
        3_000_000 <= c.value_millionths < 4_000_000 ==> (web_condition_holds(c, w, now) <==> w.download_state@ == "cached"@)
            && (usenet_condition_holds(c, u, now) <==> u.download_state@ == "cached"@),
{
}

/// No transfer has a negative number of hours left before it expires: an
/// `ExpiresAt` condition "at least v" with v at most zero holds of every
/// transfer, and one "less than v" with v above zero holds of every transfer
/// whose expiry has passed.
pub proof fn no_transfer_has_negative_hours_left(
    c: Condition,
    t: Torrent,
    w: WebDownload,
    u: UsenetDownload,
    now: i64,
)
    requires
        c.condition_type is ExpiresAt,
    ensures
        c.operator is GreaterThanOrEqual && c.value_millionths <= 0 ==> torrent_condition_holds(c, t, now)
            && web_condition_holds(c, w, now) && usenet_condition_holds(c, u, now),
        c.operator is LessThan && c.value_millionths > 0 && (optional_seconds(t.expires_at) matches Some(e)
            && e <= now) ==> torrent_condition_holds(c, t, now),
        c.operator is LessThan && c.value_millionths > 0 && (optional_seconds(w.expires_at) matches Some(e)
            && e <= now) ==> web_condition_holds(c, w, now),
        c.operator is LessThan && c.value_millionths > 0 && (optional_seconds(u.expires_at) matches Some(e)
            && e <= now) ==> usenet_condition_holds(c, u, now),
{
    let v = c.value_millionths as int;
    let qt = left_or_zero(now, optional_seconds(t.expires_at));
    let qw = left_or_zero(now, optional_seconds(w.expires_at));
    let qu = left_or_zero(now, optional_seconds(u.expires_at));
    assert(torrent_condition_holds(c, t, now) == compares(qt, c.operator, v));
    assert(!torrent_only(c.condition_type));
    assert(web_condition_holds(c, w, now) == compares(qw, c.operator, v));
    assert(usenet_condition_holds(c, u, now) == compares(qu, c.operator, v));
    nonnegative_hours_compare(qt, c, v);
    nonnegative_hours_compare(qw, c, v);
    nonnegative_hours_compare(qu, c, v);
}

spec fn left_or_zero(now: i64, until: Option<i64>) -> Quantity {
    match hours_left(now, until) {
        Some(q) => q,
        None => zero(),
    }
}

proof fn nonnegative_hours_compare(q: Quantity, c: Condition, v: int)
    requires
        q.num >= 0,
        q.den > 0,
        v == c.value_millionths,
    ensures
        c.operator is GreaterThanOrEqual && v <= 0 ==> compares(q, c.operator, v),
        c.operator is LessThan && v > 0 && q.num == 0 ==> compares(q, c.operator, v),
{
    let d = q.den as int;
    assert(v <= 0 ==> v * d <= 0) by (nonlinear_arith)
        requires
            d > 0,
    ;
    assert(v > 0 ==> v * d > 0) by (nonlinear_arith)
        requires
            d > 0,
    ;
}

/// A web or usenet download counts as inactive (1) when its state reads
/// "error", "failed" or "expired" in any case; one that is active or
/// finished counts as not inactive (0) unless its state reads one of those
/// or begins with "failed".
pub proof fn transfer_inactive_cases(c: Condition, w: WebDownload, u: UsenetDownload, now: i64)
    requires
        c.condition_type is Inactive,
    ensures
        (lowercase(w.download_state@) == "error"@ || lowercase(w.download_state@) == "failed"@
            || lowercase(w.download_state@) == "expired"@) ==> (web_condition_holds(c, w, now) <==> compared(c, 1, 1)),
        (lowercase(u.download_state@) == "error"@ || lowercase(u.download_state@) == "failed"@
            || lowercase(u.download_state@) == "expired"@) ==> (usenet_condition_holds(c, u, now) <==> compared(c, 1, 1)),
        ((w.active || w.download_finished) && lowercase(w.download_state@) != "error"@ && lowercase(
            w.download_state@,
        ) != "failed"@ && lowercase(w.download_state@) != "expired"@ && !has_prefix(
            lowercase(w.download_state@),
            "failed"@,
        )) ==> (web_condition_holds(c, w, now) <==> compared(c, 0, 1)),
        ((u.active || u.download_finished) && lowercase(u.download_state@) != "error"@ && lowercase(
            u.download_state@,
        ) != "failed"@ && lowercase(u.download_state@) != "expired"@ && !has_prefix(
            lowercase(u.download_state@),
            "failed"@,
        )) ==> (usenet_condition_holds(c, u, now) <==> compared(c, 0, 1)),
{
}

// ---------------------------------------------------------------------------
// Executable counterparts.

fn hours_since_of(now: i64, ts: Option<i64>) -> (q: Option<Quantity>)
    ensures
        q == hours_since(now, ts),
        q matches Some(x) ==> x.valid(),
{
    match ts {
        Some(t) => Some(Quantity { num: (now as i128) - (t as i128), den: 3600 }),
        None => None,
    }
}

fn hours_left_of(now: i64, ts: Option<i64>) -> (q: Option<Quantity>)
    ensures
        q == hours_left(now, ts),
        q matches Some(x) ==> x.valid(),
{
    match ts {
        Some(t) => Some(
            Quantity { num: if t > now { (t as i128) - (now as i128) } else { 0 }, den: 3600 },
        ),
        None => None,
    }
}

fn gibibytes_of(bytes: i64) -> (q: Quantity)
    ensures
        q == gibibytes(bytes),
        q.valid(),
{
    Quantity { num: bytes as i128, den: 1_073_741_824 }
}

fn whole_of(n: i64) -> (q: Quantity)
    ensures
        q == whole(n),
        q.valid(),
{
    Quantity { num: n as i128, den: 1 }
}

fn fraction_of(m: i64) -> (q: Quantity)
    ensures
        q == fraction(m),
        q.valid(),
{
    Quantity { num: m as i128, den: 1_000_000 }
}

fn in_hours_of(secs: i64) -> (q: Quantity)
    ensures
        q == in_hours(secs),
        q.valid(),
{
    Quantity { num: secs as i128, den: 3600 }
}

fn indicator_of(b: bool) -> (q: Quantity)
    ensures
        q == indicator(b),
        q.valid(),
{
    Quantity { num: if b { 1 } else { 0 }, den: 1 }
}

/// `value / 1_000_000` cut toward zero, as `value as i32` cuts a float.
pub fn whole_part_of(value: i64) -> (w: i64)
    ensures
        w == whole_part(value as int),
{
    if value >= 0 {
        value / 1_000_000
    } else if value == i64::MIN {
        -9_223_372_036_854
    } else {
        -((-value) / 1_000_000)
    }
}

fn optional_seconds_of(s: &Option<String>) -> (r: Option<i64>)
    ensures
        r == optional_seconds(*s),
{
    match s {
        Some(s) => parse_rfc3339_seconds(s.as_str()),
        None => None,
    }
}

/// Reads the time fields of a torrent.
pub fn torrent_timestamps_of(t: &Torrent) -> (ts: Timestamps)
    ensures
        ts == torrent_timestamps(*t),
{
    Timestamps {
        created: parse_rfc3339_seconds(t.created_at.as_str()),
        updated: parse_rfc3339_seconds(t.updated_at.as_str()),
        cached: optional_seconds_of(&t.cached_at),
        expires: optional_seconds_of(&t.expires_at),
    }
}

/// Reads the time fields of a web download.
pub fn web_timestamps_of(w: &WebDownload) -> (ts: Timestamps)
    ensures
        ts == web_timestamps(*w),
{
    Timestamps {
        created: parse_rfc3339_seconds(w.created_at.as_str()),
        updated: None,
        cached: None,
        expires: optional_seconds_of(&w.expires_at),
    }
}

/// Reads the time fields of a usenet download.
pub fn usenet_timestamps_of(u: &UsenetDownload) -> (ts: Timestamps)
    ensures
        ts == usenet_timestamps(*u),
{
    Timestamps {
        created: parse_rfc3339_seconds(u.created_at.as_str()),
        updated: None,
        cached: None,
        expires: optional_seconds_of(&u.expires_at),
    }
}

fn torrent_state_is_of(code: i64, state: &str) -> (r: bool)
    ensures
        r == torrent_state_is(code as int, state@),
{
    let s = chars_of(state);
    if code == 0 {
        chars_equal(&s, "downloading")
    } else if code == 1 {
        chars_equal(&s, "uploading") || chars_equal(&s, "uploading (no peers)")
    } else if code == 2 {
        chars_equal(&s, "stopped seeding") || chars_equal(&s, "stopped")
    } else if code == 3 {
        chars_equal(&s, "cached")
    } else {
        false
    }
}

fn transfer_state_is_of(code: i64, state: &str) -> (r: bool)
    ensures
        r == transfer_state_is(code as int, state@),
{
    let s = chars_of(state);
    if code == 0 {
        chars_equal(&s, "downloading")
    } else if code == 2 {
        chars_equal(&s, "stopped")
    } else if code == 3 {
        chars_equal(&s, "cached")
    } else {
        false
    }
}

fn torrent_stall_of(t: &Torrent, now: i64, ts: &Timestamps, lower: &Vec<char>) -> (m: Measure)
    ensures
        m == torrent_stall(*t, now, *ts, lower@),
        m.valid(),
{
    if chars_contain(lower, "stalled") {
        Measure::Amount(hours_since_of(now, ts.created))
    } else {
        let downloading = chars_equal(lower, "downloading") || chars_equal(lower, "active")
            || chars_contain(lower, "downloading");
        let checking = chars_equal(lower, "checking");
        if !downloading && !checking {
            Measure::Decided(false)
        } else {
            let stalled = if checking {
                match ts.updated {
                    Some(u) => (now as i128) - (u as i128) > 21600,
                    None => false,
                }
            } else {
                t.download_speed < 1024 && t.upload_speed == 0 && ((t.seeds == 0 && t.peers == 0)
                    || !t.active)
            };
            if !stalled {
                Measure::Decided(false)
            } else {
                Measure::Amount(hours_since_of(now, ts.updated))
            }
        }
    }
}

fn torrent_inactive_of(t: &Torrent, now: i64, ts: &Timestamps, lower: &Vec<char>) -> (r: bool)
    ensures
        r == torrent_inactive(*t, now, *ts, lower@),
{
    let expired_at = match ts.expires {
        Some(e) => e < now,
        None => false,
    };
    chars_equal(lower, "reported missing") || chars_equal(lower, "missingfiles") || chars_equal(
        lower,
        "failed",
    ) || chars_equal(lower, "error") || chars_start_with(lower, "failed") || expired_at
        || chars_equal(lower, "expired") || (!t.active && !chars_contain(lower, "cached")
        && !chars_contain(lower, "completed") && !chars_contain(lower, "uploading")
        && !chars_contain(lower, "seeding") && !chars_contain(lower, "stalled")) || chars_equal(
        lower,
        "stopped seeding",
    ) || chars_equal(lower, "stopped")
}

fn transfer_inactive_of(active: bool, finished: bool, lower: &Vec<char>) -> (r: bool)
    ensures
        r == transfer_inactive(active, finished, lower@),
{
    chars_equal(lower, "failed") || chars_start_with(lower, "failed") || chars_equal(lower, "error")
        || chars_equal(lower, "expired") || (!active && !finished && !chars_contain(lower, "cached")
        && !chars_contain(lower, "downloading"))
}

/// How condition `c` is measured on torrent `t` at Unix time `now`, given the
/// instants `ts` read from its time fields and its state in lower case.
pub fn torrent_measure_of(c: &Condition, t: &Torrent, now: i64, ts: &Timestamps, lower: &str) -> (m: Measure)
    ensures
        m == torrent_measure(*c, *t, now, *ts, lower@),
        m.valid(),
{
    let lv = chars_of(lower);
    match c.condition_type {
        ConditionType::SeedingTime => if !t.active || !t.download_finished {
            Measure::Decided(false)
        } else {
            let from = match ts.cached {
                Some(x) => Some(x),
                None => ts.updated,
            };
            Measure::Amount(hours_since_of(now, from))
        },
        ConditionType::SeedingRatio => if !t.active {
            Measure::Decided(false)
        } else {
            Measure::Amount(Some(fraction_of(t.ratio_millionths)))
        },
        ConditionType::StalledTime => torrent_stall_of(t, now, ts, &lv),
        ConditionType::Seeds => Measure::Amount(Some(whole_of(t.seeds))),
        ConditionType::Peers => Measure::Amount(Some(whole_of(t.peers))),
        ConditionType::TotalUploaded => Measure::Amount(Some(gibibytes_of(t.total_uploaded))),
        ConditionType::LongTermSeeding => Measure::Flag(t.long_term_seeding),
        ConditionType::SeedTorrent => Measure::Flag(t.seed_torrent),
        ConditionType::HasMagnet => Measure::Flag(t.magnet.is_some()),
        ConditionType::AllowZipped => Measure::Flag(t.allow_zipped),
        ConditionType::TorrentFile => Measure::Flag(t.torrent_file),
        ConditionType::Age => Measure::Amount(hours_since_of(now, ts.created)),
        ConditionType::DownloadSpeed => Measure::Amount(Some(whole_of(t.download_speed))),
        ConditionType::UploadSpeed => Measure::Amount(Some(whole_of(t.upload_speed))),
        ConditionType::FileSize => Measure::Amount(Some(gibibytes_of(t.size))),
        ConditionType::Progress => Measure::Amount(Some(fraction_of(t.progress_millionths))),
        ConditionType::TotalDownloaded => Measure::Amount(Some(gibibytes_of(t.total_downloaded))),
        ConditionType::DownloadState => Measure::Decided(
            torrent_state_is_of(whole_part_of(c.value_millionths), t.download_state.as_str()),
        ),
        ConditionType::Inactive => Measure::Amount(
            Some(indicator_of(torrent_inactive_of(t, now, ts, &lv))),
        ),
        ConditionType::DownloadFinished => Measure::Flag(t.download_finished),
        ConditionType::Cached => Measure::Flag(t.cached),
        ConditionType::Private => Measure::Flag(t.private),
        ConditionType::ETA => Measure::Amount(Some(in_hours_of(t.eta))),
        ConditionType::Availability => Measure::Amount(Some(fraction_of(t.availability_millionths))),
        ConditionType::ExpiresAt => Measure::Amount(hours_left_of(now, ts.expires)),
        ConditionType::DownloadPresent => Measure::Flag(t.download_present),
    }
}

/// How condition `c` is measured on web download `w` at Unix time `now`.
pub fn web_measure_of(c: &Condition, w: &WebDownload, now: i64, ts: &Timestamps, lower: &str) -> (m: Measure)
    ensures
        m == web_measure(*c, *w, now, *ts, lower@),
        m.valid(),
{
    let lv = chars_of(lower);
    match c.condition_type {
        ConditionType::SeedingTime | ConditionType::SeedingRatio | ConditionType::StalledTime
        | ConditionType::Seeds | ConditionType::Peers | ConditionType::TotalUploaded
        | ConditionType::LongTermSeeding | ConditionType::SeedTorrent | ConditionType::HasMagnet
        | ConditionType::AllowZipped | ConditionType::TorrentFile | ConditionType::Cached
        | ConditionType::Private => Measure::Decided(false),
        ConditionType::Age => Measure::Amount(hours_since_of(now, ts.created)),
        ConditionType::DownloadSpeed => Measure::Amount(Some(whole_of(w.download_speed))),
        ConditionType::UploadSpeed => Measure::Amount(Some(whole_of(w.upload_speed))),
        ConditionType::FileSize => Measure::Amount(Some(gibibytes_of(w.size))),
        ConditionType::Progress => Measure::Amount(Some(fraction_of(w.progress_millionths))),
        ConditionType::TotalDownloaded => Measure::Amount(None),
        ConditionType::DownloadState => Measure::Decided(
            transfer_state_is_of(whole_part_of(c.value_millionths), w.download_state.as_str()),
        ),
        ConditionType::Inactive => Measure::Amount(
            Some(indicator_of(transfer_inactive_of(w.active, w.download_finished, &lv))),
        ),
        ConditionType::DownloadFinished => Measure::Flag(w.download_finished),
        ConditionType::ETA => Measure::Amount(Some(in_hours_of(w.eta))),
        ConditionType::Availability => Measure::Amount(Some(fraction_of(w.availability_millionths))),
        ConditionType::ExpiresAt => Measure::Amount(hours_left_of(now, ts.expires)),
        ConditionType::DownloadPresent => Measure::Flag(w.download_present),
    }
}

/// How condition `c` is measured on usenet download `u` at Unix time `now`.
pub fn usenet_measure_of(c: &Condition, u: &UsenetDownload, now: i64, ts: &Timestamps, lower: &str) -> (m: Measure)
    ensures
        m == usenet_measure(*c, *u, now, *ts, lower@),
        m.valid(),
{
    let lv = chars_of(lower);
    match c.condition_type {
        ConditionType::SeedingTime | ConditionType::SeedingRatio | ConditionType::StalledTime
        | ConditionType::Seeds | ConditionType::Peers | ConditionType::TotalUploaded
        | ConditionType::LongTermSeeding | ConditionType::SeedTorrent | ConditionType::HasMagnet
        | ConditionType::AllowZipped | ConditionType::TorrentFile | ConditionType::Private
        | ConditionType::UploadSpeed => Measure::Decided(false),
        ConditionType::Age => Measure::Amount(hours_since_of(now, ts.created)),
        ConditionType::DownloadSpeed => Measure::Amount(Some(whole_of(u.download_speed))),
        ConditionType::FileSize => Measure::Amount(Some(gibibytes_of(u.size))),
        ConditionType::Progress => Measure::Amount(Some(fraction_of(u.progress_millionths))),
        ConditionType::TotalDownloaded => Measure::Amount(None),
        ConditionType::DownloadState => Measure::Decided(
            transfer_state_is_of(whole_part_of(c.value_millionths), u.download_state.as_str()),
        ),
        ConditionType::Inactive => Measure::Amount(
            Some(indicator_of(transfer_inactive_of(u.active, u.download_finished, &lv))),
        ),
        ConditionType::DownloadFinished => Measure::Flag(u.download_finished),
        ConditionType::Cached => Measure::Flag(u.cached),
        ConditionType::ETA => Measure::Amount(Some(in_hours_of(u.eta))),
        ConditionType::Availability => Measure::Amount(None),
        ConditionType::ExpiresAt => Measure::Amount(hours_left_of(now, ts.expires)),
        ConditionType::DownloadPresent => Measure::Flag(u.download_present),
    }
}

/// Whether condition `c` holds of torrent `t` at Unix time `now`.
pub fn eval_torrent_at(c: &Condition, t: &Torrent, now: i64) -> (r: bool)
    ensures
        r == torrent_condition_holds(*c, *t, now),
{
    let ts = torrent_timestamps_of(t);
    let lower = to_lower(t.download_state.as_str());
    let m = torrent_measure_of(c, t, now, &ts, lower.as_str());
    judge(m, c.operator, c.value_millionths)
}

/// Whether condition `c` holds of web download `w` at Unix time `now`.
pub fn eval_webdl_at(c: &Condition, w: &WebDownload, now: i64) -> (r: bool)
    ensures
        r == web_condition_holds(*c, *w, now),
{
    let ts = web_timestamps_of(w);
    let lower = to_lower(w.download_state.as_str());
    let m = web_measure_of(c, w, now, &ts, lower.as_str());
    judge(m, c.operator, c.value_millionths)
}

/// Whether condition `c` holds of usenet download `u` at Unix time `now`.
pub fn eval_usenet_at(c: &Condition, u: &UsenetDownload, now: i64) -> (r: bool)
    ensures
        r == usenet_condition_holds(*c, *u, now),
{
    let ts = usenet_timestamps_of(u);
    let lower = to_lower(u.download_state.as_str());
    let m = usenet_measure_of(c, u, now, &ts, lower.as_str());
    judge(m, c.operator, c.value_millionths)
}

/// Whether condition `c` holds of torrent `t` now, by the system clock.
pub fn eval_torrent(c: &Condition, t: &Torrent) -> (r: bool)
    ensures
        exists|now: i64| r == torrent_condition_holds(*c, *t, now),
{
    let now = now_secs();
    eval_torrent_at(c, t, now)
}

/// Whether condition `c` holds of web download `w` now, by the system clock.
pub fn eval_webdl(c: &Condition, w: &WebDownload) -> (r: bool)
    ensures
        exists|now: i64| r == web_condition_holds(*c, *w, now),
{
    let now = now_secs();
    eval_webdl_at(c, w, now)
}

/// Whether condition `c` holds of usenet download `u` now, by the system clock.
pub fn eval_usenet(c: &Condition, u: &UsenetDownload) -> (r: bool)
    ensures
        exists|now: i64| r == usenet_condition_holds(*c, *u, now),
{
    let now = now_secs();
    eval_usenet_at(c, u, now)
}

} // verus!
