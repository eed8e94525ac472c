//! Storage keys: a safe name derived from a link and a millisecond timestamp.
use vstd::prelude::*;

verus! {

/// `s` with every leftmost, non-overlapping occurrence of `pat` replaced by `rep`.
pub open spec fn replaced(s: Seq<char>, pat: Seq<char>, rep: Seq<char>) -> Seq<char>
    decreases s.len(),
{
    if pat.len() == 0 || s.len() < pat.len() {
        s
    } else if s.subrange(0, pat.len() as int) == pat {
        rep + replaced(s.subrange(pat.len() as int, s.len() as int), pat, rep)
    } else {
        seq![s[0]] + replaced(s.subrange(1, s.len() as int), pat, rep)
    }
}

/// The link with `://`, then `/`, then `.` each replaced by an underscore.
pub open spec fn safe_name(url: Seq<char>) -> Seq<char> {
    replaced(replaced(replaced(url, "://"@, "_"@), "/"@, "_"@), "."@, "_"@)
}

/// The decimal digits of `d`, a single digit.
pub open spec fn digit_text(d: nat) -> Seq<char> {
    "0123456789"@.subrange(d as int, d + 1 as int)
}

/// The decimal notation of `n`, without leading zeros.
pub open spec fn digits(n: nat) -> Seq<char>
    decreases n,
{
    if n < 10 {
        digit_text(n)
    } else {
        digits(n / 10) + digit_text(n % 10)
    }
}

/// The decimal notation of `t`, with a leading minus sign when negative.
pub open spec fn signed_digits(t: int) -> Seq<char> {
    if t < 0 {
        "-"@ + digits((-t) as nat)
    } else {
        digits(t as nat)
    }
}

/// The file name (without directory and extension) for `url` written at `millis`.
pub open spec fn file_stem(url: Seq<char>, millis: int) -> Seq<char> {
    safe_name(url) + "_"@ + signed_digits(millis)
}

/// The object key under which the Markdown of `url` written at `millis` is stored.
pub open spec fn storage_key(url: Seq<char>, millis: int) -> Seq<char> {
    "markdown/"@ + file_stem(url, millis) + ".md"@
}

/// Whether `pat` occurs in `s` at character position `i`.
fn matches_at(s: &str, n: usize, i: usize, pat: &str, k: usize) -> (r: bool)
    requires
        n == s@.len(),
        k == pat@.len(),
        i <= n,
    ensures
        r == (i + k <= n && s@.subrange(i as int, i + k) == pat@),
{
    if k > n - i {
        return false;
    }
    let mut j: usize = 0;
    while j < k
        invariant
            j <= k,
            i + k <= n,
            n == s@.len(),
            k == pat@.len(),
            forall|t: int| 0 <= t < j ==> s@[i + t] == pat@[t],
        decreases k - j,
    {
        if s.get_char(i + j) != pat.get_char(j) {
            assert(s@.subrange(i as int, i + k)[j as int] != pat@[j as int]);
            return false;
        }
        j = j + 1;
    }
    assert(s@.subrange(i as int, i + k) =~= pat@);
    true
}

/// Replaces every leftmost, non-overlapping occurrence of `pat` in `s` by `rep`.
pub fn replace_each(s: &str, pat: &str, rep: &str) -> (r: String)
    requires
        pat@.len() > 0,
    ensures
        r@ == replaced(s@, pat@, rep@),
{
    let n = s.unicode_len();
    let k = pat.unicode_len();
    let mut out = String::new();
    let mut start: usize = 0;
    let mut i: usize = 0;
    assert(s@.subrange(0, n as int) =~= s@);
    while i < n
        invariant
            start <= i <= n,
            n == s@.len(),
            k == pat@.len(),
            k > 0,
            out@ + s@.subrange(start as int, i as int) + replaced(
                s@.subrange(i as int, n as int),
                pat@,
                rep@,
            ) == replaced(s@, pat@, rep@),
        decreases n - i,
    {
        let ghost suffix = s@.subrange(i as int, n as int);
        if matches_at(s, n, i, pat, k) {
            assert(suffix.subrange(0, k as int) =~= pat@);
            assert(suffix.subrange(k as int, suffix.len() as int) =~= s@.subrange(
                i + k,
                n as int,
            ));
            let piece = s.substring_char(start, i);
            out.append(piece);
            out.append(rep);
            let ghost prev = out@;
            i = i + k;
            start = i;
            assert(s@.subrange(start as int, i as int) =~= Seq::<char>::empty());
            assert(prev + s@.subrange(start as int, i as int) =~= prev);
        } else {
            assert(suffix.subrange(1, suffix.len() as int) =~= s@.subrange(i + 1, n as int));
            proof {
                if suffix.len() < pat@.len() {
                    assert(replaced(s@.subrange(i + 1, n as int), pat@, rep@) == s@.subrange(
                        i + 1,
                        n as int,
                    ));
                    assert(suffix =~= seq![s@[i as int]] + s@.subrange(i + 1, n as int));
                } else {
                    assert(suffix.subrange(0, k as int) =~= s@.subrange(i as int, i + k));
                }
            }
            assert(s@.subrange(start as int, i + 1) =~= s@.subrange(start as int, i as int)
                + seq![s@[i as int]]);
            i = i + 1;
        }
    }
    let tail = s.substring_char(start, n);
    out.append(tail);
    assert(s@.subrange(n as int, n as int) =~= Seq::<char>::empty());
    assert(out@ =~= replaced(s@, pat@, rep@));
    out
}

/// Replaces `://`, then `/`, then `.` in `url` by underscores.
pub fn safe_name_of(url: &str) -> (r: String)
    ensures
        r@ == safe_name(url@),
{
    proof {
        reveal_strlit("://");
        reveal_strlit("/");
        reveal_strlit(".");
    }
    let a = replace_each(url, "://", "_");
    let b = replace_each(a.as_str(), "/", "_");
    replace_each(b.as_str(), ".", "_")
}

/// The decimal notation of `n`.
pub fn decimal(n: u64) -> (r: String)
    ensures
        r@ == digits(n as nat),
    decreases n,
{
    proof {
        reveal_strlit("0123456789");
    }
    if n < 10 {
        "0123456789".substring_char(n as usize, n as usize + 1).to_owned()
    } else {
        let mut s = decimal(n / 10);
        let d = (n % 10) as usize;
        s.append("0123456789".substring_char(d, d + 1));
        s
    }
}

/// The decimal notation of `t`, signed.
pub fn signed_decimal(t: i64) -> (r: String)
    ensures
        r@ == signed_digits(t as int),
{
    if t < 0 {
        let m = (0i128 - t as i128) as u64;
        let mut s = "-".to_owned();
        s.append(decimal(m).as_str());
        s
    } else {
        decimal(t as u64)
    }
}

/// The file name for `url` written at `millis` milliseconds since the epoch.
pub fn filename_at(url: &str, millis: i64) -> (r: String)
    ensures
        r@ == file_stem(url@, millis as int),
{
    let mut s = safe_name_of(url);
    s.append("_");
    s.append(signed_decimal(millis).as_str());
    s
}

/// The file name for `url`, stamped with the current time.
pub fn url_to_filename(url: &str) -> (r: String)
    ensures
        exists|millis: i64| r@ == file_stem(url@, millis as int),
{
    let millis = now_millis();
    filename_at(url, millis)
}

/// The object key for the Markdown of `url` written at `millis`.
pub fn storage_key_at(url: &str, millis: i64) -> (r: String)
    ensures
        r@ == storage_key(url@, millis as int),
{
    let mut s = "markdown/".to_owned();
    s.append(filename_at(url, millis).as_str());
    s.append(".md");
    s
}

/// Relies on chrono's `Utc::now` and `DateTime::timestamp_millis`: the current
/// time in milliseconds since the Unix epoch. Nothing is promised of its value.
#[verifier::external_body]
pub(crate) fn now_millis() -> (r: i64) {
    chrono::Utc::now().timestamp_millis()
}

/// Key derivation depends on the link and the timestamp alone.
pub proof fn lemma_key_deterministic(u1: Seq<char>, u2: Seq<char>, t1: int, t2: int)
    requires
        u1 == u2,
        t1 == t2,
    ensures
        storage_key(u1, t1) == storage_key(u2, t2),
        file_stem(u1, t1) == file_stem(u2, t2),
{
}

} // verus!
