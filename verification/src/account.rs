//! What the account page shows: plan names and thresholds, the billing
//! cycle's usage against the threshold, and dates.
use vstd::prelude::*;
use vstd::string::*;
use crate::clock::{
    date_text_at, format_date_at, parse_rfc3339, parse_rfc3339_seconds, rfc3339_instant, rfc3339_seconds,
};
use crate::model::{Torrent, UsenetDownload, WebDownload};
use crate::text::{
    all_digits, decimal_string, decimal_text, digit_str, digit_text, digit_text_is_the_digit, digits_value,
    natural_text, natural_text_spells_the_number,
};

verus! {

/// One tebibyte, in bytes.
pub const TEBIBYTE: i64 = 1_099_511_627_776;

/// Seconds in the thirty days before a premium expiry that make up a billing cycle.
pub const BILLING_CYCLE_SECS: i64 = 2_592_000;

/// A tebibyte is 1024 to the fourth power bytes, and a billing cycle is
/// thirty days of 24 hours.
pub proof fn units_of_account()
    ensures
        TEBIBYTE == 1024 * 1024 * 1024 * 1024,
        BILLING_CYCLE_SECS == 30 * 24 * 60 * 60,
{
}

/// A billing cycle read from a premium expiry starts thirty days before it.
pub proof fn cycle_starts_thirty_days_before_expiry(p: (i64, i32), r: Option<(i64, String)>)
    requires
        cycle_from(p, r),
    ensures
        r matches Some(c) && c.0 == p.0 - 30 * 24 * 60 * 60,
{
}

/// The least monthly usage, in bytes, that the plan numbered `plan` is held
/// to; with no user loaded, that of the default plan.
pub open spec fn plan_threshold(plan: Option<i64>) -> int {
    match plan {
        Some(0) => 5 * TEBIBYTE,
        Some(1) => 10 * TEBIBYTE,
        Some(2) => 30 * TEBIBYTE,
        Some(3) => 20 * TEBIBYTE,
        _ => 10 * TEBIBYTE,
    }
}

/// The threshold of `plan`, written out.
pub open spec fn plan_threshold_text(plan: Option<i64>) -> Seq<char> {
    match plan {
        Some(0) => "5 TB"@,
        Some(1) => "10 TB"@,
        Some(2) => "30 TB"@,
        Some(3) => "20 TB"@,
        _ => "10 TB"@,
    }
}

/// The label of a plan's threshold is its size in tebibytes followed by
/// " TB".
pub proof fn threshold_label_matches_bytes(plan: Option<i64>)
    ensures
        exists|k: nat|
            plan_threshold(plan) == k * TEBIBYTE && #[trigger] plan_threshold_text(plan) == natural_text(k) + " TB"@,
{
    reveal_strlit("5 TB");
    reveal_strlit("10 TB");
    reveal_strlit("30 TB");
    reveal_strlit("20 TB");
    reveal_strlit(" TB");
    reveal_strlit("0");
    reveal_strlit("1");
    reveal_strlit("2");
    reveal_strlit("3");
    reveal_strlit("5");
    reveal_with_fuel(natural_text, 2);
    let k: nat = match plan {
        Some(0) => 5,
        Some(1) => 10,
        Some(2) => 30,
        Some(3) => 20,
        _ => 10,
    };
    assert(natural_text(10) =~= "1"@ + "0"@);
    assert(natural_text(20) =~= "2"@ + "0"@);
    assert(natural_text(30) =~= "3"@ + "0"@);
    assert(plan_threshold_text(plan) =~= natural_text(k) + " TB"@);
}

/// The name of the plan numbered `plan`.
pub open spec fn plan_name_text(plan: i64) -> Seq<char> {
    if plan == 0 {
        "Free"@
    } else if plan == 1 {
        "Essential"@
    } else if plan == 2 {
        "Pro"@
    } else if plan == 3 {
        "Standard"@
    } else {
        "Plan "@ + decimal_text(plan as int)
    }
}

/// The threshold in bytes of the plan numbered `plan` (`None`: no user loaded).
pub fn plan_threshold_bytes(plan: Option<i64>) -> (b: i64)
    ensures
        b == plan_threshold(plan),
{
    match plan {
        Some(0) => 5_497_558_138_880,
        Some(1) => 10_995_116_277_760,
        Some(2) => 32_985_348_833_280,
        Some(3) => 21_990_232_555_520,
        _ => 10_995_116_277_760,
    }
}

/// The threshold of the plan numbered `plan`, written out.
pub fn plan_threshold_label(plan: Option<i64>) -> (s: &'static str)
    ensures
        s@ == plan_threshold_text(plan),
{
    match plan {
        Some(0) => "5 TB",
        Some(1) => "10 TB",
        Some(2) => "30 TB",
        Some(3) => "20 TB",
        _ => "10 TB",
    }
}

/// The name of the plan numbered `plan`.
pub fn plan_name(plan: i64) -> (s: String)
    ensures
        s@ == plan_name_text(plan),
{
    if plan == 0 {
        String::from_str("Free")
    } else if plan == 1 {
        String::from_str("Essential")
    } else if plan == 2 {
        String::from_str("Pro")
    } else if plan == 3 {
        String::from_str("Standard")
    } else {
        let mut s = String::from_str("Plan ");
        s.append(decimal_string(plan).as_str());
        s
    }
}

/// How close the cycle's usage is to the plan's threshold.
#[derive(Clone, Copy, Debug, PartialEq, Eq)]
pub enum UsageLevel {
    /// Under 70 % of the threshold.
    Safe,
    /// From 70 % up to 90 %.
    Moderate,
    /// 90 % or more.
    NearLimit,
}

/// `used` is at least `percent` % of `threshold`, as real numbers; a zero
/// threshold counts as nothing used.
pub open spec fn at_least_percent(used: int, threshold: int, percent: int) -> bool {
    if threshold > 0 {
        100 * used >= percent * threshold
    } else if threshold < 0 {
        100 * used <= percent * threshold
    } else {
        0 >= percent
    }
}

/// The level of `used` bytes against `threshold` bytes.
pub open spec fn usage_level_of(used: int, threshold: int) -> UsageLevel {
    if at_least_percent(used, threshold, 90) {
        UsageLevel::NearLimit
    } else if at_least_percent(used, threshold, 70) {
        UsageLevel::Moderate
    } else {
        UsageLevel::Safe
    }
}

/// The rank of a usage level: 0, 1 or 2 from safe to near the limit.
pub open spec fn level_rank(l: UsageLevel) -> int {
    match l {
        UsageLevel::Safe => 0,
        UsageLevel::Moderate => 1,
        UsageLevel::NearLimit => 2,
    }
}

/// Using more never lowers the usage level, for a positive threshold.
pub proof fn usage_level_monotone(used: int, more: int, threshold: int)
    requires
        used <= more,
        threshold > 0,
    ensures
        level_rank(usage_level_of(used, threshold)) <= level_rank(usage_level_of(more, threshold)),
{
}

/// The levels change at 70 % and 90 % of a positive threshold: with the
/// threshold in hundredths `k`, nothing used and 69 hundredths are safe, 70
/// and 89 hundredths moderate, 90 hundredths and more near the limit.
pub proof fn usage_level_boundaries(k: int)
    requires
        k > 0,
    ensures
        usage_level_of(0, 100 * k) == UsageLevel::Safe,
        usage_level_of(69 * k, 100 * k) == UsageLevel::Safe,
        usage_level_of(70 * k, 100 * k) == UsageLevel::Moderate,
        usage_level_of(89 * k, 100 * k) == UsageLevel::Moderate,
        usage_level_of(90 * k, 100 * k) == UsageLevel::NearLimit,
        usage_level_of(100 * k, 100 * k) == UsageLevel::NearLimit,
{
}

fn at_least_percent_of(used: i64, threshold: i64, percent: i64) -> (r: bool)
    requires
        0 <= percent <= 100,
    ensures
        r == at_least_percent(used as int, threshold as int, percent as int),
{
    let u: i128 = used as i128;
    let t: i128 = threshold as i128;
    let p: i128 = percent as i128;
    proof {
        assert(-100 * 0x8000_0000_0000_0000 <= p * t <= 100 * 0x8000_0000_0000_0000) by (nonlinear_arith)
            requires
                0 <= p <= 100,
                -0x8000_0000_0000_0000 <= t <= 0x8000_0000_0000_0000,
        ;
    }
    if threshold > 0 {
        100 * u >= p * t
    } else if threshold < 0 {
        100 * u <= p * t
    } else {
        0 >= percent
    }
}

/// The level of `used` bytes against `threshold` bytes.
pub fn usage_level(used: i64, threshold: i64) -> (l: UsageLevel)
    ensures
        l == usage_level_of(used as int, threshold as int),
{
    if at_least_percent_of(used, threshold, 90) {
        UsageLevel::NearLimit
    } else if at_least_percent_of(used, threshold, 70) {
        UsageLevel::Moderate
    } else {
        UsageLevel::Safe
    }
}

impl UsageLevel {
    /// The colour of the usage bar at this level.
    pub fn bar_color(&self) -> (s: &'static str)
        ensures
            s@ == match *self {
                UsageLevel::NearLimit => "var(--color-error, #ef4444)"@,
                UsageLevel::Moderate => "#f59e0b"@,
                UsageLevel::Safe => "var(--accent-primary)"@,
            },
    {
        match self {
            UsageLevel::NearLimit => "var(--color-error, #ef4444)",
            UsageLevel::Moderate => "#f59e0b",
            UsageLevel::Safe => "var(--accent-primary)",
        }
    }

    /// The words beside the usage bar at this level.
    pub fn status(&self) -> (s: &'static str)
        ensures
            s@ == match *self {
                UsageLevel::NearLimit => "⚠ Near limit"@,
                UsageLevel::Moderate => "↑ Moderate"@,
                UsageLevel::Safe => "✓ Safe"@,
            },
    {
        match self {
            UsageLevel::NearLimit => "⚠ Near limit",
            UsageLevel::Moderate => "↑ Moderate",
            UsageLevel::Safe => "✓ Safe",
        }
    }
}

/// The start of the billing cycle that ends at the instant `p` (its Unix
/// time and offset), as a Unix time and as its date in that offset.
pub open spec fn cycle_from(p: (i64, i32), r: Option<(i64, String)>) -> bool {
    let start = p.0 - BILLING_CYCLE_SECS;
    r matches Some(c) && c.0 == start && c.1@ == date_text_at(start as i64, p.1, "%B %d, %Y"@)
}

/// The start of the billing cycle that ends at `premium_expires_at`: thirty
/// days earlier, as a Unix time and as its date (`"%B %d, %Y"`) in the offset
/// written in the text; `None` where the text is not RFC 3339.
pub fn billing_cycle(premium_expires_at: &str) -> (r: Option<(i64, String)>)
    ensures
        match rfc3339_instant(premium_expires_at@) {
            Some(p) => cycle_from(p, r),
            None => r is None,
        },
{
    match parse_rfc3339(premium_expires_at) {
        Some(p) => {
            let start = p.0 - BILLING_CYCLE_SECS;
            match format_date_at(start, p.1, "%B %d, %Y") {
                Some(label) => Some((start, label)),
                None => None,
            }
        },
        None => None,
    }
}

/// A month number written with two digits, as `{:02}` writes it.
pub open spec fn two_digit_text(n: nat) -> Seq<char> {
    if n < 10 {
        "0"@ + digit_text(n as int)
    } else {
        natural_text(n)
    }
}

/// A number under 100 is written with exactly two digits that spell it.
pub proof fn two_digit_text_spells_the_number(n: nat)
    requires
        n < 100,
    ensures
        two_digit_text(n).len() == 2,
        all_digits(two_digit_text(n)),
        digits_value(two_digit_text(n)) == n,
{
    reveal_strlit("0");
    let t = two_digit_text(n);
    if n < 10 {
        digit_text_is_the_digit(n as int);
        natural_text_spells_the_number(n);
        assert(natural_text(n) == digit_text(n as int));
        assert(t.drop_last() =~= "0"@);
        assert(digits_value("0"@.drop_last()) == 0);
        assert(digits_value("0"@) == 0);
        assert(t.last() == natural_text(n)[0]);
        assert(digits_value(natural_text(n)) == 10 * digits_value(natural_text(n).drop_last()) + (natural_text(n).last() as int - '0' as int));
        assert(natural_text(n).drop_last() =~= Seq::<char>::empty());
        assert forall|i: int| 0 <= i < t.len() implies '0' <= #[trigger] t[i] <= '9' by {
            if i == 1 {
                assert(t[1] == natural_text(n)[0]);
            }
        }
    } else {
        natural_text_spells_the_number(n / 10);
        natural_text_spells_the_number(n);
        digit_text_is_the_digit((n / 10) as int);
        digit_text_is_the_digit((n % 10) as int);
        assert(natural_text(n / 10) == digit_text((n / 10) as int));
        assert(natural_text(n) == natural_text(n / 10) + digit_text((n % 10) as int));
    }
}

/// The RFC 3339 text of midnight UTC on the first day of `month` in `year`.
pub open spec fn month_start_text(year: i32, month: u32) -> Seq<char> {
    decimal_text(year as int) + "-"@ + two_digit_text(month as nat) + "-01T00:00:00Z"@
}

/// `r` is the start of `month` in `year` as a Unix time and its date, read
/// back from its RFC 3339 text, or `None` where that text does not parse.
pub open spec fn month_start_result(year: i32, month: u32, r: Option<(i64, String)>) -> bool {
    match rfc3339_instant(month_start_text(year, month)) {
        Some(p) => r matches Some(c) && c.0 == p.0 && c.1@ == date_text_at(p.0, p.1, "%B %d, %Y"@),
        None => r is None,
    }
}

/// Midnight UTC on the first day of `month` in `year`, as a Unix time and as
/// its date (`"%B %d, %Y"`): its RFC 3339 text, read back. `None` where that
/// text does not parse (a year outside 0 to 9999, or no such month).
pub fn month_start(year: i32, month: u32) -> (r: Option<(i64, String)>)
    ensures
        month_start_result(year, month, r),
{
    let mut text = decimal_string(year as i64);
    text.append("-");
    if month < 10 {
        text.append("0");
        text.append(digit_str(month as u64));
    } else {
        text.append(decimal_string(month as i64).as_str());
    }
    text.append("-01T00:00:00Z");
    assert(text@ =~= month_start_text(year, month));
    match parse_rfc3339(text.as_str()) {
        Some(p) => match format_date_at(p.0, p.1, "%B %d, %Y") {
            Some(label) => Some((p.0, label)),
            None => None,
        },
        None => None,
    }
}

/// The start of the current billing cycle: thirty days before the premium
/// expiry where that is an RFC 3339 text, and otherwise the first day of the
/// month `this_month` of the year `this_year` (the current local date, which
/// the caller reads from its clock).
pub fn cycle_start(premium_expires_at: &str, this_year: i32, this_month: u32) -> (r: Option<(i64, String)>)
    ensures
        match rfc3339_instant(premium_expires_at@) {
            Some(p) => cycle_from(p, r),
            None => month_start_result(this_year, this_month, r),
        },
{
    match billing_cycle(premium_expires_at) {
        Some(c) => Some(c),
        None => month_start(this_year, this_month),
    }
}

/// The bytes that a transfer created at `created` with `size` bytes adds to
/// the usage of a cycle that began at `start`.
pub open spec fn counted_bytes(created: Option<i64>, size: i64, start: i64) -> int {
    match created {
        Some(c) => if c >= start && size > 0 {
            size as int
        } else {
            0
        },
        None => 0,
    }
}

/// The usage of a cycle that began at `start`, over transfers given by when
/// they were created and their size.
pub open spec fn cycle_usage(entries: Seq<(Option<i64>, i64)>, start: i64) -> int
    decreases entries.len(),
{
    if entries.len() == 0 {
        0
    } else {
        cycle_usage(entries.drop_last(), start) + counted_bytes(
            entries.last().0,
            entries.last().1,
            start,
        )
    }
}

/// The sum of the positive numbers among `sizes`.
pub open spec fn positive_total(sizes: Seq<i64>) -> int
    decreases sizes.len(),
{
    if sizes.len() == 0 {
        0
    } else {
        positive_total(sizes.drop_last()) + if sizes.last() > 0 {
            sizes.last() as int
        } else {
            0
        }
    }
}

/// When each torrent was created, and its size.
pub open spec fn torrent_entries(items: Seq<Torrent>) -> Seq<(Option<i64>, i64)> {
    items.map_values(|t: Torrent| (rfc3339_seconds(t.created_at@), t.size))
}

/// When each web download was created, and its size.
pub open spec fn web_entries(items: Seq<WebDownload>) -> Seq<(Option<i64>, i64)> {
    items.map_values(|w: WebDownload| (rfc3339_seconds(w.created_at@), w.size))
}

/// When each usenet download was created, and its size.
pub open spec fn usenet_entries(items: Seq<UsenetDownload>) -> Seq<(Option<i64>, i64)> {
    items.map_values(|u: UsenetDownload| (rfc3339_seconds(u.created_at@), u.size))
}

/// The sizes of torrents.
pub open spec fn torrent_sizes(items: Seq<Torrent>) -> Seq<i64> {
    items.map_values(|t: Torrent| t.size)
}

/// The sizes of web downloads.
pub open spec fn web_sizes(items: Seq<WebDownload>) -> Seq<i64> {
    items.map_values(|w: WebDownload| w.size)
}

/// The sizes of usenet downloads.
pub open spec fn usenet_sizes(items: Seq<UsenetDownload>) -> Seq<i64> {
    items.map_values(|u: UsenetDownload| u.size)
}

proof fn usage_within_positive_total(entries: Seq<(Option<i64>, i64)>, sizes: Seq<i64>, start: i64)
    requires
        entries.len() == sizes.len(),
        forall|i: int| 0 <= i < entries.len() ==> #[trigger] entries[i].1 == sizes[i],
    ensures
        0 <= cycle_usage(entries, start) <= positive_total(sizes),
    decreases entries.len(),
{
    if entries.len() > 0 {
        usage_within_positive_total(entries.drop_last(), sizes.drop_last(), start);
        assert(entries.last().1 == sizes.last());
    }
}

fn add_usage(entries: &Vec<(Option<i64>, i64)>, start: i64, total: i64, bound: Ghost<int>) -> (r: i64)
    requires
        0 <= total,
        total + cycle_usage(entries@, start) <= bound@,
        bound@ <= i64::MAX,
        cycle_usage(entries@, start) >= 0,
    ensures
        r == total + cycle_usage(entries@, start),
{
    let mut acc = total;
    let n = entries.len();
    let mut i: usize = 0;
    while i < n
        invariant
            n == entries@.len(),
            i <= n,
            acc == total + cycle_usage(entries@.take(i as int), start),
            total + cycle_usage(entries@, start) <= bound@,
            bound@ <= i64::MAX,
            0 <= total,
        decreases n - i,
    {
        proof {
            assert(entries@.take(i + 1).drop_last() =~= entries@.take(i as int));
            usage_prefix_grows(entries@, start, i as int);
        }
        let (created, size) = entries[i];
        let add = match created {
            Some(c) => c >= start && size > 0,
            None => false,
        };
        if add {
            acc = acc + size;
        }
        i = i + 1;
    }
    assert(entries@.take(n as int) =~= entries@);
    acc
}

proof fn usage_prefix_grows(entries: Seq<(Option<i64>, i64)>, start: i64, i: int)
    requires
        0 <= i < entries.len(),
    ensures
        cycle_usage(entries.take(i + 1), start) <= cycle_usage(entries, start),
    decreases entries.len(),
{
    if i + 1 < entries.len() {
        usage_prefix_grows(entries.drop_last(), start, i);
        assert(entries.drop_last().take(i + 1) =~= entries.take(i + 1));
    } else {
        assert(entries.take(i + 1) =~= entries);
    }
}

fn torrent_entries_of(items: &Vec<Torrent>) -> (r: Vec<(Option<i64>, i64)>)
    ensures
        r@ == torrent_entries(items@),
{
    let mut r: Vec<(Option<i64>, i64)> = Vec::new();
    let n = items.len();
    let mut i: usize = 0;
    while i < n
        invariant
            n == items@.len(),
            i <= n,
            r@ == torrent_entries(items@.take(i as int)),
        decreases n - i,
    {
        r.push((parse_rfc3339_seconds(items[i].created_at.as_str()), items[i].size));
        assert(torrent_entries(items@.take(i + 1)) =~= torrent_entries(items@.take(i as int)).push(
            (rfc3339_seconds(items@[i as int].created_at@), items@[i as int].size),
        ));
        i = i + 1;
    }
    assert(items@.take(n as int) =~= items@);
    r
}

fn web_entries_of(items: &Vec<WebDownload>) -> (r: Vec<(Option<i64>, i64)>)
    ensures
        r@ == web_entries(items@),
{
    let mut r: Vec<(Option<i64>, i64)> = Vec::new();
    let n = items.len();
    let mut i: usize = 0;
    while i < n
        invariant
            n == items@.len(),
            i <= n,
            r@ == web_entries(items@.take(i as int)),
        decreases n - i,
    {
        r.push((parse_rfc3339_seconds(items[i].created_at.as_str()), items[i].size));
        assert(web_entries(items@.take(i + 1)) =~= web_entries(items@.take(i as int)).push(
            (rfc3339_seconds(items@[i as int].created_at@), items@[i as int].size),
        ));
        i = i + 1;
    }
    assert(items@.take(n as int) =~= items@);
    r
}

fn usenet_entries_of(items: &Vec<UsenetDownload>) -> (r: Vec<(Option<i64>, i64)>)
    ensures
        r@ == usenet_entries(items@),
{
    let mut r: Vec<(Option<i64>, i64)> = Vec::new();
    let n = items.len();
    let mut i: usize = 0;
    while i < n
        invariant
            n == items@.len(),
            i <= n,
            r@ == usenet_entries(items@.take(i as int)),
        decreases n - i,
    {
        r.push((parse_rfc3339_seconds(items[i].created_at.as_str()), items[i].size));
        assert(usenet_entries(items@.take(i + 1)) =~= usenet_entries(items@.take(i as int)).push(
            (rfc3339_seconds(items@[i as int].created_at@), items@[i as int].size),
        ));
        i = i + 1;
    }
    assert(items@.take(n as int) =~= items@);
    r
}

/// The usage of a cycle that began at `start`, over torrents, web downloads
/// and usenet downloads.
pub open spec fn billing_usage(
    torrents: Seq<Torrent>,
    web_downloads: Seq<WebDownload>,
    usenet_downloads: Seq<UsenetDownload>,
    start: i64,
) -> int {
    cycle_usage(torrent_entries(torrents), start) + cycle_usage(web_entries(web_downloads), start)
        + cycle_usage(usenet_entries(usenet_downloads), start)
}

/// The bytes of the transfers created since `cycle_start` (a Unix time):
/// the sizes, where positive, of the torrents, web downloads and usenet
/// downloads whose creation time parses and is not before it. The sum must
/// fit in an `i64`.
pub fn billing_cycle_usage(
    torrents: &Vec<Torrent>,
    web_downloads: &Vec<WebDownload>,
    usenet_downloads: &Vec<UsenetDownload>,
    cycle_start: i64,
) -> (used: i64)
    requires
        billing_usage(torrents@, web_downloads@, usenet_downloads@, cycle_start) <= i64::MAX,
    ensures
        used == billing_usage(torrents@, web_downloads@, usenet_downloads@, cycle_start),
        0 <= used <= positive_total(torrent_sizes(torrents@)) + positive_total(
            web_sizes(web_downloads@),
        ) + positive_total(usenet_sizes(usenet_downloads@)),
{
    let t = torrent_entries_of(torrents);
    let w = web_entries_of(web_downloads);
    let u = usenet_entries_of(usenet_downloads);
    let ghost bound = billing_usage(torrents@, web_downloads@, usenet_downloads@, cycle_start);
    proof {
        usage_within_positive_total(t@, torrent_sizes(torrents@), cycle_start);
        usage_within_positive_total(w@, web_sizes(web_downloads@), cycle_start);
        usage_within_positive_total(u@, usenet_sizes(usenet_downloads@), cycle_start);
    }
    let a = add_usage(&t, cycle_start, 0, Ghost(bound));
    let b = add_usage(&w, cycle_start, a, Ghost(bound));
    add_usage(&u, cycle_start, b, Ghost(bound))
}

fn capped_usage(entries: &Vec<(Option<i64>, i64)>, start: i64, base: i128) -> (r: i128)
    requires
        0 <= base <= i64::MAX,
    ensures
        r > i64::MAX ==> base + cycle_usage(entries@, start) > i64::MAX,
        r <= i64::MAX ==> r == base + cycle_usage(entries@, start),
{
    let mut acc = base;
    let n = entries.len();
    let mut i: usize = 0;
    while i < n
        invariant
            n == entries@.len(),
            i <= n,
            0 <= base <= i64::MAX,
            acc == base + cycle_usage(entries@.take(i as int), start),
            acc <= i64::MAX,
        decreases n - i,
    {
        proof {
            assert(entries@.take(i + 1).drop_last() =~= entries@.take(i as int));
            usage_prefix_grows(entries@, start, i as int);
        }
        let (created, size) = entries[i];
        let add = match created {
            Some(c) => c >= start && size > 0,
            None => false,
        };
        if add {
            acc = acc + (size as i128);
            if acc > 9_223_372_036_854_775_807i128 {
                return acc;
            }
        }
        i = i + 1;
    }
    assert(entries@.take(n as int) =~= entries@);
    acc
}

/// The usage of the cycle that began at `cycle_start`, as
/// `billing_cycle_usage` gives it, or `None` where it does not fit in an
/// `i64`.
pub fn billing_cycle_usage_checked(
    torrents: &Vec<Torrent>,
    web_downloads: &Vec<WebDownload>,
    usenet_downloads: &Vec<UsenetDownload>,
    cycle_start: i64,
) -> (r: Option<i64>)
    ensures
        match r {
            Some(used) => used == billing_usage(torrents@, web_downloads@, usenet_downloads@, cycle_start),
            None => billing_usage(torrents@, web_downloads@, usenet_downloads@, cycle_start) > i64::MAX,
        },
{
    let t = torrent_entries_of(torrents);
    let w = web_entries_of(web_downloads);
    let u = usenet_entries_of(usenet_downloads);
    proof {
        usage_within_positive_total(t@, torrent_sizes(torrents@), cycle_start);
        usage_within_positive_total(w@, web_sizes(web_downloads@), cycle_start);
        usage_within_positive_total(u@, usenet_sizes(usenet_downloads@), cycle_start);
    }
    let a = capped_usage(&t, cycle_start, 0);
    if a > 9_223_372_036_854_775_807i128 {
        return None;
    }
    let b = capped_usage(&w, cycle_start, a);
    if b > 9_223_372_036_854_775_807i128 {
        return None;
    }
    let c = capped_usage(&u, cycle_start, b);
    if c > 9_223_372_036_854_775_807i128 {
        return None;
    }
    Some(billing_cycle_usage(torrents, web_downloads, usenet_downloads, cycle_start))
}

/// The bytes that a transfer created at the RFC 3339 text `created_at`, with
/// `size` bytes, adds to the usage of a cycle that began at `start`: its size
/// where that is positive and the text names a time no earlier than `start`,
/// and nothing otherwise.
pub open spec fn added_bytes(created_at: Seq<char>, size: i64, start: i64) -> int {
    match rfc3339_seconds(created_at) {
        Some(c) => if start <= c && 0 < size {
            size as int
        } else {
            0
        },
        None => 0,
    }
}

proof fn usage_of_concatenation(a: Seq<(Option<i64>, i64)>, b: Seq<(Option<i64>, i64)>, start: i64)
    ensures
        cycle_usage(a + b, start) == cycle_usage(a, start) + cycle_usage(b, start),
    decreases b.len(),
{
    if b.len() == 0 {
        assert(a + b =~= a);
    } else {
        assert((a + b).drop_last() =~= a + b.drop_last());
        usage_of_concatenation(a, b.drop_last(), start);
    }
}

/// Nothing counts toward the usage of a cycle when there are no transfers.
pub proof fn no_transfers_no_usage(start: i64)
    ensures
        billing_usage(Seq::empty(), Seq::empty(), Seq::empty(), start) == 0,
{
    assert(torrent_entries(Seq::empty()) =~= Seq::empty());
    assert(web_entries(Seq::empty()) =~= Seq::empty());
    assert(usenet_entries(Seq::empty()) =~= Seq::empty());
}

/// One more torrent, web download or usenet download adds to the usage of a
/// cycle exactly the bytes that its own creation time and size call for,
/// whatever else it carries (such as when it was last updated).
pub proof fn one_more_transfer_adds_its_bytes(
    torrents: Seq<Torrent>,
    web_downloads: Seq<WebDownload>,
    usenet_downloads: Seq<UsenetDownload>,
    t: Torrent,
    w: WebDownload,
    u: UsenetDownload,
    start: i64,
)
    ensures
        billing_usage(torrents.push(t), web_downloads, usenet_downloads, start) == billing_usage(
            torrents,
            web_downloads,
            usenet_downloads,
            start,
        ) + added_bytes(t.created_at@, t.size, start),
        billing_usage(torrents, web_downloads.push(w), usenet_downloads, start) == billing_usage(
            torrents,
            web_downloads,
            usenet_downloads,
            start,
        ) + added_bytes(w.created_at@, w.size, start),
        billing_usage(torrents, web_downloads, usenet_downloads.push(u), start) == billing_usage(
            torrents,
            web_downloads,
            usenet_downloads,
            start,
        ) + added_bytes(u.created_at@, u.size, start),
{
    assert(torrent_entries(torrents.push(t)).drop_last() =~= torrent_entries(torrents));
    assert(web_entries(web_downloads.push(w)).drop_last() =~= web_entries(web_downloads));
    assert(usenet_entries(usenet_downloads.push(u)).drop_last() =~= usenet_entries(usenet_downloads));
}

/// The usage of a cycle over two batches of transfers taken together is the
/// sum of their usages.
pub proof fn usage_adds_over_batches(
    t1: Seq<Torrent>,
    w1: Seq<WebDownload>,
    u1: Seq<UsenetDownload>,
    t2: Seq<Torrent>,
    w2: Seq<WebDownload>,
    u2: Seq<UsenetDownload>,
    start: i64,
)
    ensures
        billing_usage(t1 + t2, w1 + w2, u1 + u2, start) == billing_usage(t1, w1, u1, start) + billing_usage(
            t2,
            w2,
            u2,
            start,
        ),
{
    assert(torrent_entries(t1 + t2) =~= torrent_entries(t1) + torrent_entries(t2));
    assert(web_entries(w1 + w2) =~= web_entries(w1) + web_entries(w2));
    assert(usenet_entries(u1 + u2) =~= usenet_entries(u1) + usenet_entries(u2));
    usage_of_concatenation(torrent_entries(t1), torrent_entries(t2), start);
    usage_of_concatenation(web_entries(w1), web_entries(w2), start);
    usage_of_concatenation(usenet_entries(u1), usenet_entries(u2), start);
}

/// The instant that the RFC 3339 text `date` names: its Unix time and its
/// offset from UTC, where it parses.
pub fn date_instant(date: &str) -> (r: Option<(i64, i32)>)
    ensures
        r == rfc3339_instant(date@),
{
    parse_rfc3339(date)
}

/// The fields of a local date and time as a browser's clock gives them:
/// `month0` counts from 0 for January, `hours` from 0 to 23.
#[derive(Clone, Copy, Debug)]
pub struct LocalDateFields {
    pub year: u32,
    pub month0: u32,
    pub day: u32,
    pub hours: u32,
    pub minutes: u32,
}

/// The English name of the month numbered `m0` from 0.
pub open spec fn month_name_text(m0: int) -> Seq<char> {
    if m0 == 0 {
        "January"@
    } else if m0 == 1 {
        "February"@
    } else if m0 == 2 {
        "March"@
    } else if m0 == 3 {
        "April"@
    } else if m0 == 4 {
        "May"@
    } else if m0 == 5 {
        "June"@
    } else if m0 == 6 {
        "July"@
    } else if m0 == 7 {
        "August"@
    } else if m0 == 8 {
        "September"@
    } else if m0 == 9 {
        "October"@
    } else if m0 == 10 {
        "November"@
    } else {
        "December"@
    }
}

/// The hour on a twelve-hour clock: 12 for midnight, afternoon hours less 12.
pub open spec fn twelve_hour(h: int) -> int {
    if h == 0 {
        12
    } else if h > 12 {
        h - 12
    } else {
        h
    }
}

/// The twelve-hour clock shows each hour of the day as an hour from 1 to 12
/// that agrees with it modulo 12.
pub proof fn twelve_hour_clock(h: int)
    requires
        0 <= h < 24,
    ensures
        1 <= twelve_hour(h) <= 12,
        twelve_hour(h) % 12 == h % 12,
{
}

/// How a browser build writes a local date and time: month name, day,
/// year, then the twelve-hour time with two-digit minutes and AM or PM.
pub open spec fn local_date_text(f: LocalDateFields) -> Seq<char> {
    month_name_text(f.month0 as int) + " "@ + natural_text(f.day as nat) + ", "@ + natural_text(f.year as nat)
        + " at "@ + natural_text(twelve_hour(f.hours as int) as nat) + ":"@ + two_digit_text(f.minutes as nat)
        + " "@ + if f.hours < 12 {
        "AM"@
    } else {
        "PM"@
    }
}

fn month_name(m0: u32) -> (s: &'static str)
    requires
        m0 < 12,
    ensures
        s@ == month_name_text(m0 as int),
{
    if m0 == 0 {
        "January"
    } else if m0 == 1 {
        "February"
    } else if m0 == 2 {
        "March"
    } else if m0 == 3 {
        "April"
    } else if m0 == 4 {
        "May"
    } else if m0 == 5 {
        "June"
    } else if m0 == 6 {
        "July"
    } else if m0 == 7 {
        "August"
    } else if m0 == 8 {
        "September"
    } else if m0 == 9 {
        "October"
    } else if m0 == 10 {
        "November"
    } else {
        "December"
    }
}

/// Writes a local date and time as a browser build shows it.
pub fn local_date_string(f: LocalDateFields) -> (s: String)
    requires
        f.month0 < 12,
    ensures
        s@ == local_date_text(f),
{
    let mut s = String::from_str(month_name(f.month0));
    s.append(" ");
    s.append(decimal_string(f.day as i64).as_str());
    s.append(", ");
    s.append(decimal_string(f.year as i64).as_str());
    s.append(" at ");
    let h: u32 = if f.hours == 0 {
        12
    } else if f.hours > 12 {
        f.hours - 12
    } else {
        f.hours
    };
    s.append(decimal_string(h as i64).as_str());
    s.append(":");
    if f.minutes < 10 {
        s.append("0");
        s.append(digit_str(f.minutes as u64));
    } else {
        s.append(decimal_string(f.minutes as i64).as_str());
    }
    s.append(" ");
    s.append(if f.hours < 12 { "AM" } else { "PM" });
    s
}

/// A date for display in a browser build: `N/A` for an empty text, any text
/// that is not RFC 3339 as it is, and for an RFC 3339 text the local date and
/// time `local` that the browser's clock gives for its instant; where no
/// browser window is at hand (`None`), as `format_date` writes it.
pub fn format_date_browser(date: &str, local: Option<LocalDateFields>) -> (s: String)
    requires
        local matches Some(f) ==> f.month0 < 12,
    ensures
        s@ == if date@.len() == 0 {
            "N/A"@
        } else {
            match rfc3339_instant(date@) {
                Some(p) => match local {
                    Some(f) => local_date_text(f),
                    None => date_text_at(p.0, p.1, "%B %d, %Y at %I:%M %p"@),
                },
                None => date@,
            }
        },
{
    if date.unicode_len() == 0 {
        return String::from_str("N/A");
    }
    match parse_rfc3339(date) {
        Some(p) => match local {
            Some(f) => local_date_string(f),
            None => format_date(date),
        },
        None => String::from_str(date),
    }
}

/// A date for display: `N/A` for an empty text, the date and time
/// (`"%B %d, %Y at %I:%M %p"`, in the offset written in the text) of an RFC
/// 3339 text, and any other text as it is.
pub fn format_date(date: &str) -> (s: String)
    ensures
        s@ == if date@.len() == 0 {
            "N/A"@
        } else {
            match rfc3339_instant(date@) {
                Some(p) => date_text_at(p.0, p.1, "%B %d, %Y at %I:%M %p"@),
                None => date@,
            }
        },
{
    if date.unicode_len() == 0 {
        return String::from_str("N/A");
    }
    match parse_rfc3339(date) {
        Some(p) => match format_date_at(p.0, p.1, "%B %d, %Y at %I:%M %p") {
            Some(t) => t,
            None => String::from_str(date),
        },
        None => String::from_str(date),
    }
}

} // verus!
