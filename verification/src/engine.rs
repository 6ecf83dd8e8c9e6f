//! Matching a rule's conditions against transfers.
use vstd::prelude::*;
use crate::conditions::{
    eval_torrent,
    eval_torrent_at,
    eval_usenet,
    eval_usenet_at,
    eval_webdl,
    eval_webdl_at,
    torrent_conditions_hold,
    torrent_condition_holds,
    usenet_conditions_hold,
    usenet_condition_holds,
    web_conditions_hold,
    web_condition_holds,
};
use crate::model::{AutomationEngine, AutomationRule, Condition, Torrent, UsenetDownload, WebDownload};

verus! {

/// `verdict` is what checking the conditions `cs` of torrent `t` one after the
/// other can give, for some reading of the clock at each check.
pub open spec fn torrent_verdict(cs: Seq<Condition>, t: Torrent, verdict: bool) -> bool {
    exists|nows: Seq<i64>| nows.len() == cs.len() && verdict == #[trigger] torrent_conditions_hold(cs, t, nows)
}

/// `verdict` is what checking the conditions `cs` of web download `w` can give.
pub open spec fn web_verdict(cs: Seq<Condition>, w: WebDownload, verdict: bool) -> bool {
    exists|nows: Seq<i64>| nows.len() == cs.len() && verdict == #[trigger] web_conditions_hold(cs, w, nows)
}

/// `verdict` is what checking the conditions `cs` of usenet download `u` can give.
pub open spec fn usenet_verdict(cs: Seq<Condition>, u: UsenetDownload, verdict: bool) -> bool {
    exists|nows: Seq<i64>| nows.len() == cs.len() && verdict == #[trigger] usenet_conditions_hold(cs, u, nows)
}

/// `f` applied to the items of `items` whose flag in `keep` is set, in order.
pub open spec fn kept<A, B>(items: Seq<A>, keep: Seq<bool>, f: spec_fn(A) -> B) -> Seq<B>
    decreases items.len(),
{
    if items.len() == 0 {
        Seq::empty()
    } else {
        let prev = kept(items.drop_last(), keep.drop_last(), f);
        if keep.last() {
            prev.push(f(items.last()))
        } else {
            prev
        }
    }
}

/// The id and name of a torrent.
pub open spec fn torrent_pair() -> spec_fn(Torrent) -> (i32, String) {
    |t: Torrent| (t.id, t.name)
}

/// The id and name of a web download.
pub open spec fn web_pair() -> spec_fn(WebDownload) -> (i32, String) {
    |w: WebDownload| (w.id, w.name)
}

/// The id and name of a usenet download.
pub open spec fn usenet_pair() -> spec_fn(UsenetDownload) -> (i32, String) {
    |u: UsenetDownload| (u.id, u.name)
}

/// The zero-filled clock readings that stand for checks never made.
pub open spec fn unread(n: int) -> Seq<i64> {
    Seq::new(n as nat, |k: int| 0i64)
}

/// A rule without conditions matches every transfer.
pub proof fn empty_rule_matches_everything(t: Torrent, w: WebDownload, u: UsenetDownload, r: bool)
    ensures
        torrent_verdict(Seq::empty(), t, r) ==> r,
        web_verdict(Seq::empty(), w, r) ==> r,
        usenet_verdict(Seq::empty(), u, r) ==> r,
{
}

/// Adding a condition to a rule can only narrow what it matches: a torrent
/// that meets the longer list of conditions meets the shorter one.
pub proof fn extra_condition_narrows(cs: Seq<Condition>, c: Condition, t: Torrent, nows: Seq<i64>, now: i64)
    requires
        nows.len() == cs.len(),
        torrent_conditions_hold(cs.push(c), t, nows.push(now)),
    ensures
        torrent_conditions_hold(cs, t, nows),
        torrent_condition_holds(c, t, now),
{
    assert forall|i: int| 0 <= i < cs.len() implies #[trigger] torrent_condition_holds(cs[i], t, nows[i]) by {
        assert(cs.push(c)[i] == cs[i]);
        assert(nows.push(now)[i] == nows[i]);
        assert(torrent_condition_holds(cs.push(c)[i], t, nows.push(now)[i]));
    }
    assert(cs.push(c)[cs.len() as int] == c);
    assert(torrent_condition_holds(cs.push(c)[cs.len() as int], t, nows.push(now)[cs.len() as int]));
}

/// The same clock reading `now`, `n` times.
pub open spec fn same_reading(now: i64, n: nat) -> Seq<i64> {
    Seq::new(n, |k: int| now)
}

/// A property of each pair of a list and its readings holds of the joined
/// lists exactly when it holds of both parts.
proof fn split_pointwise<A>(p: spec_fn(A, i64) -> bool, cs1: Seq<A>, cs2: Seq<A>, n1: Seq<i64>, n2: Seq<i64>)
    requires
        n1.len() == cs1.len(),
        n2.len() == cs2.len(),
    ensures
        (forall|i: int| 0 <= i < (cs1 + cs2).len() ==> #[trigger] p((cs1 + cs2)[i], (n1 + n2)[i])) == ((forall|i: int|
            0 <= i < cs1.len() ==> #[trigger] p(cs1[i], n1[i])) && (forall|i: int|
            0 <= i < cs2.len() ==> #[trigger] p(cs2[i], n2[i]))),
{
    let cs = cs1 + cs2;
    let ns = n1 + n2;
    if forall|i: int| 0 <= i < cs.len() ==> #[trigger] p(cs[i], ns[i]) {
        assert forall|i: int| 0 <= i < cs1.len() implies #[trigger] p(cs1[i], n1[i]) by {
            assert(cs[i] == cs1[i] && ns[i] == n1[i]);
            assert(p(cs[i], ns[i]));
        }
        assert forall|i: int| 0 <= i < cs2.len() implies #[trigger] p(cs2[i], n2[i]) by {
            assert(cs[cs1.len() + i] == cs2[i] && ns[cs1.len() + i] == n2[i]);
            assert(p(cs[cs1.len() + i], ns[cs1.len() + i]));
        }
    }
    if (forall|i: int| 0 <= i < cs1.len() ==> #[trigger] p(cs1[i], n1[i])) && (forall|i: int|
        0 <= i < cs2.len() ==> #[trigger] p(cs2[i], n2[i])) {
        assert forall|i: int| 0 <= i < cs.len() implies #[trigger] p(cs[i], ns[i]) by {
            if i < cs1.len() {
                assert(cs[i] == cs1[i] && ns[i] == n1[i]);
                assert(p(cs1[i], n1[i]));
            } else {
                let j = i - cs1.len();
                assert(cs[i] == cs2[j] && ns[i] == n2[j]);
                assert(p(cs2[j], n2[j]));
            }
        }
    }
}

/// Splitting a rule's conditions splits its verdict on a Torrent: `cs1 + cs2`
/// hold at the readings `n1 + n2` exactly when `cs1` hold at `n1` and `cs2`
/// at `n2`; with one reading `now` for every check, the verdict on the whole
/// list is the verdict on the two parts taken together.
pub proof fn torrent_conditions_split(cs1: Seq<Condition>, cs2: Seq<Condition>, x: Torrent, n1: Seq<i64>, n2: Seq<i64>, now: i64)
    requires
        n1.len() == cs1.len(),
        n2.len() == cs2.len(),
    ensures
        torrent_conditions_hold(cs1 + cs2, x, n1 + n2) == (torrent_conditions_hold(cs1, x, n1) && torrent_conditions_hold(cs2, x, n2)),
        torrent_conditions_hold(cs1 + cs2, x, same_reading(now, cs1.len() + cs2.len())) == (
        torrent_conditions_hold(cs1, x, same_reading(now, cs1.len())) && torrent_conditions_hold(
            cs2,
            x,
            same_reading(now, cs2.len()),
        )),
{
    let p = |c: Condition, n: i64| torrent_condition_holds(c, x, n);
    let a = same_reading(now, cs1.len());
    let b = same_reading(now, cs2.len());
    assert(same_reading(now, cs1.len() + cs2.len()) =~= a + b);
    assert forall|cs: Seq<Condition>, ns: Seq<i64>|
        #[trigger] torrent_conditions_hold(cs, x, ns) == (forall|i: int| 0 <= i < cs.len() ==> #[trigger] p(cs[i], ns[i])) by {
        if torrent_conditions_hold(cs, x, ns) {
            assert forall|i: int| 0 <= i < cs.len() implies #[trigger] p(cs[i], ns[i]) by {
                assert(torrent_condition_holds(cs[i], x, ns[i]));
            }
        }
        if forall|i: int| 0 <= i < cs.len() ==> #[trigger] p(cs[i], ns[i]) {
            assert forall|i: int| 0 <= i < cs.len() implies #[trigger] torrent_condition_holds(cs[i], x, ns[i]) by {
                assert(p(cs[i], ns[i]));
            }
        }
    }
    split_pointwise(p, cs1, cs2, n1, n2);
    split_pointwise(p, cs1, cs2, a, b);
}


/// Splitting a rule's conditions splits its verdict on a WebDownload: `cs1 + cs2`
/// hold at the readings `n1 + n2` exactly when `cs1` hold at `n1` and `cs2`
/// at `n2`; with one reading `now` for every check, the verdict on the whole
/// list is the verdict on the two parts taken together.
pub proof fn web_conditions_split(cs1: Seq<Condition>, cs2: Seq<Condition>, x: WebDownload, n1: Seq<i64>, n2: Seq<i64>, now: i64)
    requires
        n1.len() == cs1.len(),
        n2.len() == cs2.len(),
    ensures
        web_conditions_hold(cs1 + cs2, x, n1 + n2) == (web_conditions_hold(cs1, x, n1) && web_conditions_hold(cs2, x, n2)),
        web_conditions_hold(cs1 + cs2, x, same_reading(now, cs1.len() + cs2.len())) == (
        web_conditions_hold(cs1, x, same_reading(now, cs1.len())) && web_conditions_hold(
            cs2,
            x,
            same_reading(now, cs2.len()),
        )),
{
    let p = |c: Condition, n: i64| web_condition_holds(c, x, n);
    let a = same_reading(now, cs1.len());
    let b = same_reading(now, cs2.len());
    assert(same_reading(now, cs1.len() + cs2.len()) =~= a + b);
    assert forall|cs: Seq<Condition>, ns: Seq<i64>|
        #[trigger] web_conditions_hold(cs, x, ns) == (forall|i: int| 0 <= i < cs.len() ==> #[trigger] p(cs[i], ns[i])) by {
        if web_conditions_hold(cs, x, ns) {
            assert forall|i: int| 0 <= i < cs.len() implies #[trigger] p(cs[i], ns[i]) by {
                assert(web_condition_holds(cs[i], x, ns[i]));
            }
        }
        if forall|i: int| 0 <= i < cs.len() ==> #[trigger] p(cs[i], ns[i]) {
            assert forall|i: int| 0 <= i < cs.len() implies #[trigger] web_condition_holds(cs[i], x, ns[i]) by {
                assert(p(cs[i], ns[i]));
            }
        }
    }
    split_pointwise(p, cs1, cs2, n1, n2);
    split_pointwise(p, cs1, cs2, a, b);
}


/// Splitting a rule's conditions splits its verdict on a UsenetDownload: `cs1 + cs2`
/// hold at the readings `n1 + n2` exactly when `cs1` hold at `n1` and `cs2`
/// at `n2`; with one reading `now` for every check, the verdict on the whole
/// list is the verdict on the two parts taken together.
pub proof fn usenet_conditions_split(cs1: Seq<Condition>, cs2: Seq<Condition>, x: UsenetDownload, n1: Seq<i64>, n2: Seq<i64>, now: i64)
    requires
        n1.len() == cs1.len(),
        n2.len() == cs2.len(),
    ensures
        usenet_conditions_hold(cs1 + cs2, x, n1 + n2) == (usenet_conditions_hold(cs1, x, n1) && usenet_conditions_hold(cs2, x, n2)),
        usenet_conditions_hold(cs1 + cs2, x, same_reading(now, cs1.len() + cs2.len())) == (
        usenet_conditions_hold(cs1, x, same_reading(now, cs1.len())) && usenet_conditions_hold(
            cs2,
            x,
            same_reading(now, cs2.len()),
        )),
{
    let p = |c: Condition, n: i64| usenet_condition_holds(c, x, n);
    let a = same_reading(now, cs1.len());
    let b = same_reading(now, cs2.len());
    assert(same_reading(now, cs1.len() + cs2.len()) =~= a + b);
    assert forall|cs: Seq<Condition>, ns: Seq<i64>|
        #[trigger] usenet_conditions_hold(cs, x, ns) == (forall|i: int| 0 <= i < cs.len() ==> #[trigger] p(cs[i], ns[i])) by {
        if usenet_conditions_hold(cs, x, ns) {
            assert forall|i: int| 0 <= i < cs.len() implies #[trigger] p(cs[i], ns[i]) by {
                assert(usenet_condition_holds(cs[i], x, ns[i]));
            }
        }
        if forall|i: int| 0 <= i < cs.len() ==> #[trigger] p(cs[i], ns[i]) {
            assert forall|i: int| 0 <= i < cs.len() implies #[trigger] usenet_condition_holds(cs[i], x, ns[i]) by {
                assert(p(cs[i], ns[i]));
            }
        }
    }
    split_pointwise(p, cs1, cs2, n1, n2);
    split_pointwise(p, cs1, cs2, a, b);
}


/// A selection holds no more entries than the list it was made from.
pub proof fn selection_no_longer<A, B>(items: Seq<A>, keep: Seq<bool>, f: spec_fn(A) -> B)
    ensures
        kept(items, keep, f).len() <= items.len(),
    decreases items.len(),
{
    if items.len() > 0 {
        selection_no_longer(items.drop_last(), keep.drop_last(), f);
    }
}

/// Keeping every item gives all of them, in their order; keeping none gives
/// nothing.
pub proof fn keeping_all_or_none<A, B>(items: Seq<A>, f: spec_fn(A) -> B)
    ensures
        kept(items, Seq::new(items.len(), |i: int| true), f) == items.map_values(f),
        kept(items, Seq::new(items.len(), |i: int| false), f) == Seq::<B>::empty(),
    decreases items.len(),
{
    if items.len() > 0 {
        let all = Seq::new(items.len(), |i: int| true);
        let none = Seq::new(items.len(), |i: int| false);
        keeping_all_or_none(items.drop_last(), f);
        assert(all.drop_last() =~= Seq::new(items.drop_last().len(), |i: int| true));
        assert(none.drop_last() =~= Seq::new(items.drop_last().len(), |i: int| false));
        assert(items.map_values(f) =~= items.drop_last().map_values(f).push(f(items.last())));
    }
}

/// Every entry of a selection is `f` of a kept item, and the kept items
/// appear in their order: entry `j` comes from an item after that of entry
/// `j - 1`.
pub proof fn selection_comes_from_kept_items<A, B>(items: Seq<A>, keep: Seq<bool>, f: spec_fn(A) -> B)
    requires
        keep.len() == items.len(),
    ensures
        exists|from: Seq<int>|
            {
                &&& from.len() == kept(items, keep, f).len()
                &&& forall|j: int|
                    0 <= j < from.len() ==> 0 <= #[trigger] from[j] < items.len() && keep[from[j]]
                        && kept(items, keep, f)[j] == f(items[from[j]])
                &&& forall|j: int, k: int| 0 <= j < k < from.len() ==> from[j] < from[k]
            },
    decreases items.len(),
{
    if items.len() > 0 {
        selection_comes_from_kept_items(items.drop_last(), keep.drop_last(), f);
        let prev = kept(items.drop_last(), keep.drop_last(), f);
        let pf = choose|from: Seq<int>|
            {
                &&& from.len() == prev.len()
                &&& forall|j: int|
                    0 <= j < from.len() ==> 0 <= #[trigger] from[j] < items.drop_last().len()
                        && keep.drop_last()[from[j]] && prev[j] == f(items.drop_last()[from[j]])
                &&& forall|j: int, k: int| 0 <= j < k < from.len() ==> from[j] < from[k]
            };
        let last = items.len() - 1;
        if keep.last() {
            let from = pf.push(last);
            assert forall|j: int| 0 <= j < from.len() implies 0 <= #[trigger] from[j] < items.len()
                && keep[from[j]] && kept(items, keep, f)[j] == f(items[from[j]]) by {
                if j < pf.len() {
                    assert(keep.drop_last()[pf[j]] == keep[pf[j]]);
                    assert(items.drop_last()[pf[j]] == items[pf[j]]);
                }
            }
            assert(forall|j: int, k: int| 0 <= j < k < from.len() ==> from[j] < from[k]);
        } else {
            assert forall|j: int| 0 <= j < pf.len() implies 0 <= #[trigger] pf[j] < items.len()
                && keep[pf[j]] && kept(items, keep, f)[j] == f(items[pf[j]]) by {
                assert(keep.drop_last()[pf[j]] == keep[pf[j]]);
                assert(items.drop_last()[pf[j]] == items[pf[j]]);
            }
        }
    } else {
        assert(Seq::<int>::empty().len() == kept(items, keep, f).len());
    }
}

impl AutomationEngine {
    /// Whether every condition of `rule` holds of `item` with the clock
    /// reading `now` for each check.
    pub fn eval_torrent_conditions_at(&self, rule: &AutomationRule, item: &Torrent, now: i64) -> (r: bool)
        ensures
            r == torrent_conditions_hold(rule.conditions@, *item, same_reading(now, rule.conditions@.len())),
    {
        let n = rule.conditions.len();
        let ghost cs = rule.conditions@;
        let ghost nows = same_reading(now, cs.len());
        let mut i: usize = 0;
        while i < n
            invariant
                n == cs.len(),
                cs == rule.conditions@,
                nows == same_reading(now, cs.len()),
                i <= n,
                forall|j: int| 0 <= j < i ==> #[trigger] torrent_condition_holds(cs[j], *item, nows[j]),
            decreases n - i,
        {
            let ok = eval_torrent_at(&rule.conditions[i], item, now);
            assert(nows[i as int] == now);
            if !ok {
                assert(!torrent_conditions_hold(cs, *item, nows));
                return false;
            }
            i = i + 1;
        }
        assert(torrent_conditions_hold(cs, *item, nows));
        true
    }

    /// Whether every condition of `rule` holds of `item` with the clock
    /// reading `now` for each check.
    pub fn eval_webdl_conditions_at(&self, rule: &AutomationRule, item: &WebDownload, now: i64) -> (r: bool)
        ensures
            r == web_conditions_hold(rule.conditions@, *item, same_reading(now, rule.conditions@.len())),
    {
        let n = rule.conditions.len();
        let ghost cs = rule.conditions@;
        let ghost nows = same_reading(now, cs.len());
        let mut i: usize = 0;
        while i < n
            invariant
                n == cs.len(),
                cs == rule.conditions@,
                nows == same_reading(now, cs.len()),
                i <= n,
                forall|j: int| 0 <= j < i ==> #[trigger] web_condition_holds(cs[j], *item, nows[j]),
            decreases n - i,
        {
            let ok = eval_webdl_at(&rule.conditions[i], item, now);
            assert(nows[i as int] == now);
            if !ok {
                assert(!web_conditions_hold(cs, *item, nows));
                return false;
            }
            i = i + 1;
        }
        assert(web_conditions_hold(cs, *item, nows));
        true
    }

    /// Whether every condition of `rule` holds of `item` with the clock
    /// reading `now` for each check.
    pub fn eval_usenet_conditions_at(&self, rule: &AutomationRule, item: &UsenetDownload, now: i64) -> (r: bool)
        ensures
            r == usenet_conditions_hold(rule.conditions@, *item, same_reading(now, rule.conditions@.len())),
    {
        let n = rule.conditions.len();
        let ghost cs = rule.conditions@;
        let ghost nows = same_reading(now, cs.len());
        let mut i: usize = 0;
        while i < n
            invariant
                n == cs.len(),
                cs == rule.conditions@,
                nows == same_reading(now, cs.len()),
                i <= n,
                forall|j: int| 0 <= j < i ==> #[trigger] usenet_condition_holds(cs[j], *item, nows[j]),
            decreases n - i,
        {
            let ok = eval_usenet_at(&rule.conditions[i], item, now);
            assert(nows[i as int] == now);
            if !ok {
                assert(!usenet_conditions_hold(cs, *item, nows));
                return false;
            }
            i = i + 1;
        }
        assert(usenet_conditions_hold(cs, *item, nows));
        true
    }

    /// Whether every condition of `rule` holds of the torrent `item`; each
    /// condition is checked at the time the clock reads when it is reached,
    /// and checking stops at the first that fails.
    pub fn eval_torrent_conditions(&self, rule: &AutomationRule, item: &Torrent) -> (r: bool)
        ensures
            torrent_verdict(rule.conditions@, *item, r),
    {
        let n = rule.conditions.len();
        let ghost cs = rule.conditions@;
        let ghost mut nows: Seq<i64> = Seq::empty();
        let mut i: usize = 0;
        while i < n
            invariant
                n == cs.len(),
                cs == rule.conditions@,
                i <= n,
                nows.len() == i,
                forall|j: int| 0 <= j < i ==> #[trigger] torrent_condition_holds(cs[j], *item, nows[j]),
            decreases n - i,
        {
            let ok = eval_torrent(&rule.conditions[i], item);
            let ghost now = choose|now: i64| ok == torrent_condition_holds(cs[i as int], *item, now);
            if !ok {
                proof {
                    let full = nows.push(now) + unread(n - i - 1);
                    assert(full[i as int] == now);
                    assert(!torrent_conditions_hold(cs, *item, full));
                }
                return false;
            }
            proof {
                nows = nows.push(now);
            }
            i = i + 1;
        }
        assert(torrent_conditions_hold(cs, *item, nows));
        true
    }

    /// Whether every condition of `rule` holds of the web download `item`.
    pub fn eval_webdl_conditions(&self, rule: &AutomationRule, item: &WebDownload) -> (r: bool)
        ensures
            web_verdict(rule.conditions@, *item, r),
    {
        let n = rule.conditions.len();
        let ghost cs = rule.conditions@;
        let ghost mut nows: Seq<i64> = Seq::empty();
        let mut i: usize = 0;
        while i < n
            invariant
                n == cs.len(),
                cs == rule.conditions@,
                i <= n,
                nows.len() == i,
                forall|j: int| 0 <= j < i ==> #[trigger] web_condition_holds(cs[j], *item, nows[j]),
            decreases n - i,
        {
            let ok = eval_webdl(&rule.conditions[i], item);
            let ghost now = choose|now: i64| ok == web_condition_holds(cs[i as int], *item, now);
            if !ok {
                proof {
                    let full = nows.push(now) + unread(n - i - 1);
                    assert(full[i as int] == now);
                    assert(!web_conditions_hold(cs, *item, full));
                }
                return false;
            }
            proof {
                nows = nows.push(now);
            }
            i = i + 1;
        }
        assert(web_conditions_hold(cs, *item, nows));
        true
    }

    /// Whether every condition of `rule` holds of the usenet download `item`.
    pub fn eval_usenet_conditions(&self, rule: &AutomationRule, item: &UsenetDownload) -> (r: bool)
        ensures
            usenet_verdict(rule.conditions@, *item, r),
    {
        let n = rule.conditions.len();
        let ghost cs = rule.conditions@;
        let ghost mut nows: Seq<i64> = Seq::empty();
        let mut i: usize = 0;
        while i < n
            invariant
                n == cs.len(),
                cs == rule.conditions@,
                i <= n,
                nows.len() == i,
                forall|j: int| 0 <= j < i ==> #[trigger] usenet_condition_holds(cs[j], *item, nows[j]),
            decreases n - i,
        {
            let ok = eval_usenet(&rule.conditions[i], item);
            let ghost now = choose|now: i64| ok == usenet_condition_holds(cs[i as int], *item, now);
            if !ok {
                proof {
                    let full = nows.push(now) + unread(n - i - 1);
                    assert(full[i as int] == now);
                    assert(!usenet_conditions_hold(cs, *item, full));
                }
                return false;
            }
            proof {
                nows = nows.push(now);
            }
            i = i + 1;
        }
        assert(usenet_conditions_hold(cs, *item, nows));
        true
    }

    /// The ids and names of the torrents in `items` that `rule` matches, in
    /// their order.
    pub fn matching_torrents(&self, rule: &AutomationRule, items: &Vec<Torrent>) -> (r: Vec<(i32, String)>)
        ensures
            exists|verdicts: Seq<bool>|
                {
                    &&& verdicts.len() == items@.len()
                    &&& forall|i: int|
                        0 <= i < items@.len() ==> #[trigger] torrent_verdict(
                            rule.conditions@,
                            items@[i],
                            verdicts[i],
                        )
                    &&& r@ == kept(items@, verdicts, torrent_pair())
                },
    {
        let n = items.len();
        let mut out: Vec<(i32, String)> = Vec::new();
        let ghost mut verdicts: Seq<bool> = Seq::empty();
        let mut i: usize = 0;
        while i < n
            invariant
                n == items@.len(),
                i <= n,
                verdicts.len() == i,
                forall|j: int| 0 <= j < i ==> #[trigger] torrent_verdict(rule.conditions@, items@[j], verdicts[j]),
                out@ == kept(items@.take(i as int), verdicts, torrent_pair()),
            decreases n - i,
        {
            let ok = self.eval_torrent_conditions(rule, &items[i]);
            if ok {
                out.push((items[i].id, items[i].name.clone()));
            }
            proof {
                let prev = verdicts;
                verdicts = verdicts.push(ok);
                assert(items@.take(i + 1).drop_last() =~= items@.take(i as int));
                assert(verdicts.drop_last() =~= prev);
                assert(torrent_verdict(rule.conditions@, items@[i as int], verdicts[i as int]));
            }
            i = i + 1;
        }
        assert(items@.take(n as int) =~= items@);
        out
    }

    /// The ids and names of the web downloads in `items` that `rule` matches,
    /// in their order.
    pub fn matching_web_downloads(&self, rule: &AutomationRule, items: &Vec<WebDownload>) -> (r: Vec<(i32, String)>)
        ensures
            exists|verdicts: Seq<bool>|
                {
                    &&& verdicts.len() == items@.len()
                    &&& forall|i: int|
                        0 <= i < items@.len() ==> #[trigger] web_verdict(
                            rule.conditions@,
                            items@[i],
                            verdicts[i],
                        )
                    &&& r@ == kept(items@, verdicts, web_pair())
                },
    {
        let n = items.len();
        let mut out: Vec<(i32, String)> = Vec::new();
        let ghost mut verdicts: Seq<bool> = Seq::empty();
        let mut i: usize = 0;
        while i < n
            invariant
                n == items@.len(),
                i <= n,
                verdicts.len() == i,
                forall|j: int| 0 <= j < i ==> #[trigger] web_verdict(rule.conditions@, items@[j], verdicts[j]),
                out@ == kept(items@.take(i as int), verdicts, web_pair()),
            decreases n - i,
        {
            let ok = self.eval_webdl_conditions(rule, &items[i]);
            if ok {
                out.push((items[i].id, items[i].name.clone()));
            }
            proof {
                let prev = verdicts;
                verdicts = verdicts.push(ok);
                assert(items@.take(i + 1).drop_last() =~= items@.take(i as int));
                assert(verdicts.drop_last() =~= prev);
                assert(web_verdict(rule.conditions@, items@[i as int], verdicts[i as int]));
            }
            i = i + 1;
        }
        assert(items@.take(n as int) =~= items@);
        out
    }

    /// The ids and names of the usenet downloads in `items` that `rule`
    /// matches, in their order.
    pub fn matching_usenet_downloads(&self, rule: &AutomationRule, items: &Vec<UsenetDownload>) -> (r: Vec<(i32, String)>)
        ensures
            exists|verdicts: Seq<bool>|
                {
                    &&& verdicts.len() == items@.len()
                    &&& forall|i: int|
                        0 <= i < items@.len() ==> #[trigger] usenet_verdict(
                            rule.conditions@,
                            items@[i],
                            verdicts[i],
                        )
                    &&& r@ == kept(items@, verdicts, usenet_pair())
                },
    {
        let n = items.len();
        let mut out: Vec<(i32, String)> = Vec::new();
        let ghost mut verdicts: Seq<bool> = Seq::empty();
        let mut i: usize = 0;
        while i < n
            invariant
                n == items@.len(),
                i <= n,
                verdicts.len() == i,
                forall|j: int| 0 <= j < i ==> #[trigger] usenet_verdict(rule.conditions@, items@[j], verdicts[j]),
                out@ == kept(items@.take(i as int), verdicts, usenet_pair()),
            decreases n - i,
        {
            let ok = self.eval_usenet_conditions(rule, &items[i]);
            if ok {
                out.push((items[i].id, items[i].name.clone()));
            }
            proof {
                let prev = verdicts;
                verdicts = verdicts.push(ok);
                assert(items@.take(i + 1).drop_last() =~= items@.take(i as int));
                assert(verdicts.drop_last() =~= prev);
                assert(usenet_verdict(rule.conditions@, items@[i as int], verdicts[i as int]));
            }
            i = i + 1;
        }
        assert(items@.take(n as int) =~= items@);
        out
    }
}

} // verus!
