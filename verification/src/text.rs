//! Character-level text helpers: equality, substring and prefix tests,
//! lower-casing, decimal rendering of integers and joining with a separator.
use vstd::prelude::*;
use vstd::string::*;

verus! {

broadcast use vstd::string::group_string_axioms;

/// `pat` occurs in `s` as a contiguous run of characters.
pub open spec fn has_infix(s: Seq<char>, pat: Seq<char>) -> bool {
    exists|i: int| 0 <= i && i + pat.len() <= s.len() && #[trigger] s.subrange(i, i + pat.len()) == pat
}

/// A text contains whatever stands anywhere within it.
pub proof fn contains_what_stands_within(before: Seq<char>, pat: Seq<char>, after: Seq<char>)
    ensures
        has_infix(before + pat + after, pat),
{
    let s = before + pat + after;
    assert(s.subrange(before.len() as int, (before.len() + pat.len()) as int) =~= pat);
}

/// `s` begins with `pat`.
pub open spec fn has_prefix(s: Seq<char>, pat: Seq<char>) -> bool {
    pat.is_prefix_of(s)
}

/// The characters of `s`, in order.
pub fn chars_of(s: &str) -> (v: Vec<char>)
    ensures
        v@ == s@,
{
    let mut v: Vec<char> = Vec::new();
    for c in iter: s.chars()
        invariant
            iter.seq() == s@,
            v@ == iter.seq().take(iter.index() as int),
    {
        v.push(c);
        assert(v@ =~= iter.seq().take(iter.index() + 1));
    }
    assert(v@ =~= s@);
    v
}

/// Whether `hay[start..start + pat.len()]` equals `pat`.
fn matches_at(hay: &Vec<char>, pat: &Vec<char>, start: usize) -> (r: bool)
    requires
        start + pat@.len() <= hay@.len(),
    ensures
        r == (hay@.subrange(start as int, start + pat@.len()) == pat@),
{
    let n = pat.len();
    let mut k: usize = 0;
    while k < n
        invariant
            n == pat@.len(),
            k <= n,
            start + n <= hay.len(),
            forall|j: int| 0 <= j < k ==> hay@[start + j] == pat@[j],
        decreases n - k,
    {
        if hay[start + k] != pat[k] {
            assert(hay@.subrange(start as int, start + n)[k as int] != pat@[k as int]);
            return false;
        }
        k = k + 1;
    }
    assert(hay@.subrange(start as int, start + n) =~= pat@);
    true
}

/// Whether `pat` occurs in the character sequence `hay`.
pub fn chars_contain(hay: &Vec<char>, pat: &str) -> (r: bool)
    ensures
        r == has_infix(hay@, pat@),
{
    let p = chars_of(pat);
    if p.len() > hay.len() {
        return false;
    }
    let last = hay.len() - p.len();
    let mut i: usize = 0;
    loop
        invariant
            p@ == pat@,
            last + p@.len() == hay@.len(),
            i <= last,
            forall|j: int| 0 <= j < i ==> #[trigger] hay@.subrange(j, j + p@.len()) != p@,
        ensures
            forall|j: int| 0 <= j <= last ==> #[trigger] hay@.subrange(j, j + p@.len()) != p@,
        decreases last - i,
    {
        if matches_at(hay, &p, i) {
            return true;
        }
        if i == last {
            break;
        }
        i = i + 1;
    }
    assert forall|j: int| 0 <= j && j + pat@.len() <= hay@.len() implies #[trigger] hay@.subrange(
        j,
        j + pat@.len(),
    ) != pat@ by {
        assert(j <= last);
    }
    false
}

/// Whether the character sequence `v` equals `pat`.
pub fn chars_equal(v: &Vec<char>, pat: &str) -> (r: bool)
    ensures
        r == (v@ == pat@),
{
    let p = chars_of(pat);
    if p.len() != v.len() {
        return false;
    }
    let r = matches_at(v, &p, 0);
    proof {
        assert(v@.subrange(0, p@.len() as int) =~= v@);
    }
    r
}

/// Whether the character sequence `v` begins with `pat`.
pub fn chars_start_with(v: &Vec<char>, pat: &str) -> (r: bool)
    ensures
        r == has_prefix(v@, pat@),
{
    let p = chars_of(pat);
    if p.len() > v.len() {
        return false;
    }
    let r = matches_at(v, &p, 0);
    proof {
        if r {
            assert(pat@ =~= v@.subrange(0, pat@.len() as int));
        }
    }
    r
}

/// Whether `pat` occurs in `s`.
pub fn contains_text(s: &str, pat: &str) -> (r: bool)
    ensures
        r == has_infix(s@, pat@),
{
    let v = chars_of(s);
    chars_contain(&v, pat)
}

/// What `str::to_lowercase` returns for the characters `s`.
pub uninterp spec fn lowercase(s: Seq<char>) -> Seq<char>;

/// Calls `str::to_lowercase`. The result is a function of the characters of
/// `s` alone (Unicode's case tables); nothing more of it is stated here.
#[verifier::external_body]
pub(crate) fn to_lower(s: &str) -> (r: String)
    ensures
        r@ == lowercase(s@),
{
    s.to_lowercase()
}

/// The characters of the single decimal digit `d`.
pub open spec fn digit_text(d: int) -> Seq<char> {
    if d == 0 { "0"@ }
    else if d == 1 { "1"@ }
    else if d == 2 { "2"@ }
    else if d == 3 { "3"@ }
    else if d == 4 { "4"@ }
    else if d == 5 { "5"@ }
    else if d == 6 { "6"@ }
    else if d == 7 { "7"@ }
    else if d == 8 { "8"@ }
    else { "9"@ }
}

/// The decimal digits of the natural number `n`, without leading zeros.
pub open spec fn natural_text(n: nat) -> Seq<char>
    decreases n,
{
    if n < 10 {
        digit_text(n as int)
    } else {
        natural_text(n / 10) + digit_text((n % 10) as int)
    }
}

/// The decimal text of the integer `n`, with a leading `-` when it is negative.
pub open spec fn decimal_text(n: int) -> Seq<char> {
    if n < 0 { "-"@ + natural_text((-n) as nat) } else { natural_text(n as nat) }
}

/// The number that the decimal digits `s` spell, most significant first.
pub open spec fn digits_value(s: Seq<char>) -> int
    decreases s.len(),
{
    if s.len() == 0 {
        0
    } else {
        10 * digits_value(s.drop_last()) + (s.last() as int - '0' as int)
    }
}

/// Every character of `s` is a decimal digit.
pub open spec fn all_digits(s: Seq<char>) -> bool {
    forall|i: int| 0 <= i < s.len() ==> '0' <= #[trigger] s[i] <= '9'
}

/// A single digit is written as one character that spells it.
pub proof fn digit_text_is_the_digit(d: int)
    requires
        0 <= d < 10,
    ensures
        digit_text(d).len() == 1,
        digit_text(d)[0] as int - '0' as int == d,
        '0' <= digit_text(d)[0] <= '9',
{
    reveal_strlit("0");
    reveal_strlit("1");
    reveal_strlit("2");
    reveal_strlit("3");
    reveal_strlit("4");
    reveal_strlit("5");
    reveal_strlit("6");
    reveal_strlit("7");
    reveal_strlit("8");
    reveal_strlit("9");
}

/// A natural number is written as decimal digits that spell it, with no
/// leading zero.
pub proof fn natural_text_spells_the_number(n: nat)
    ensures
        natural_text(n).len() >= 1,
        all_digits(natural_text(n)),
        digits_value(natural_text(n)) == n,
        n > 0 ==> natural_text(n)[0] != '0',
    decreases n,
{
    if n < 10 {
        digit_text_is_the_digit(n as int);
        let t = natural_text(n);
        assert(t.drop_last() =~= Seq::<char>::empty());
        assert(digits_value(t.drop_last()) == 0);
        assert(digits_value(t) == 10 * digits_value(t.drop_last()) + (t.last() as int - '0' as int));
    } else {
        natural_text_spells_the_number(n / 10);
        digit_text_is_the_digit((n % 10) as int);
        let head = natural_text(n / 10);
        let t = natural_text(n);
        assert(t == head + digit_text((n % 10) as int));
        assert(t.drop_last() =~= head);
        assert(t.last() == digit_text((n % 10) as int)[0]);
        assert(t[0] == head[0]);
        assert(digits_value(t) == 10 * digits_value(head) + (t.last() as int - '0' as int));
        assert(n == 10 * (n / 10) + n % 10);
        assert forall|i: int| 0 <= i < t.len() implies '0' <= #[trigger] t[i] <= '9' by {
            if i < head.len() {
                assert(t[i] == head[i]);
            }
        }
    }
}

/// An integer is written as its digits, with a leading minus sign where it
/// is negative.
pub proof fn decimal_text_spells_the_number(n: int)
    ensures
        n >= 0 ==> all_digits(decimal_text(n)) && digits_value(decimal_text(n)) == n,
        n < 0 ==> decimal_text(n)[0] == '-' && all_digits(decimal_text(n).drop_first())
            && digits_value(decimal_text(n).drop_first()) == -n,
{
    if n >= 0 {
        natural_text_spells_the_number(n as nat);
    } else {
        natural_text_spells_the_number((-n) as nat);
        reveal_strlit("-");
        assert(decimal_text(n).drop_first() =~= natural_text((-n) as nat));
    }
}

/// The single decimal digit `d`.
pub(crate) fn digit_str(d: u64) -> (r: &'static str)
    requires
        d < 10,
    ensures
        r@ == digit_text(d as int),
{
    if d == 0 { "0" }
    else if d == 1 { "1" }
    else if d == 2 { "2" }
    else if d == 3 { "3" }
    else if d == 4 { "4" }
    else if d == 5 { "5" }
    else if d == 6 { "6" }
    else if d == 7 { "7" }
    else if d == 8 { "8" }
    else { "9" }
}

fn append_natural(out: &mut String, n: u64)
    ensures
        final(out)@ == old(out)@ + natural_text(n as nat),
    decreases n,
{
    if n >= 10 {
        append_natural(out, n / 10);
        out.append(digit_str(n % 10));
        assert(final(out)@ =~= old(out)@ + natural_text(n as nat));
    } else {
        out.append(digit_str(n));
    }
}

/// The decimal rendering of `n`, as `{}` formats an integer.
pub fn decimal_string(n: i64) -> (r: String)
    ensures
        r@ == decimal_text(n as int),
{
    let mut out = String::new();
    if n < 0 {
        out.append("-");
        let m: u64 = if n == i64::MIN { 9_223_372_036_854_775_808u64 } else { (-n) as u64 };
        append_natural(&mut out, m);
    } else {
        append_natural(&mut out, n as u64);
    }
    out
}

/// The texts `parts` joined with `sep` between each two neighbours.
pub open spec fn joined(parts: Seq<Seq<char>>, sep: Seq<char>) -> Seq<char>
    decreases parts.len(),
{
    if parts.len() == 0 {
        Seq::empty()
    } else if parts.len() == 1 {
        parts[0]
    } else {
        joined(parts.drop_last(), sep) + sep + parts.last()
    }
}

/// The views of a list of strings.
pub open spec fn texts(v: Seq<String>) -> Seq<Seq<char>> {
    v.map_values(|s: String| s@)
}

/// Joins `parts` with `sep`, as `[String]::join` does.
pub fn join_texts(parts: &Vec<String>, sep: &str) -> (r: String)
    ensures
        r@ == joined(texts(parts@), sep@),
{
    let mut out = String::new();
    let n = parts.len();
    let mut i: usize = 0;
    while i < n
        invariant
            n == parts@.len(),
            i <= n,
            out@ == joined(texts(parts@).take(i as int), sep@),
        decreases n - i,
    {
        let ghost prev = texts(parts@).take(i as int);
        if i > 0 {
            out.append(sep);
        }
        out.append(parts[i].as_str());
        proof {
            let next = texts(parts@).take(i + 1);
            assert(next.drop_last() =~= prev);
            assert(next.last() == parts@[i as int]@);
            if i == 0 {
                assert(out@ =~= joined(next, sep@));
            }
        }
        i = i + 1;
    }
    assert(texts(parts@).take(n as int) =~= texts(parts@));
    out
}

} // verus!
