//! Character-level text utilities: literal replacement, searching, splitting
//! and decimal formatting, each specified over `Seq<char>`.

use vstd::prelude::*;
use vstd::string::StrSliceExecFns;

verus! {

/// The pattern `pat` occurs in `s` at position `i`.
pub open spec fn contains_at(s: Seq<char>, pat: Seq<char>, i: int) -> bool {
    0 <= i && i + pat.len() <= s.len() && s.subrange(i, i + pat.len() as int) == pat
}

/// The pattern `pat` occurs somewhere in `s`.
pub open spec fn contains_seq(s: Seq<char>, pat: Seq<char>) -> bool {
    exists|i: int| contains_at(s, pat, i)
}

/// `s` with every occurrence of `pat` replaced by `rep`, scanning left to
/// right and never rescanning replaced text. An empty pattern replaces
/// nothing.
pub open spec fn replace_seq(s: Seq<char>, pat: Seq<char>, rep: Seq<char>) -> Seq<char>
    decreases s.len(),
{
    if pat.len() == 0 || s.len() < pat.len() {
        s
    } else if s.subrange(0, pat.len() as int) == pat {
        rep + replace_seq(s.skip(pat.len() as int), pat, rep)
    } else {
        seq![s[0]] + replace_seq(s.skip(1), pat, rep)
    }
}

/// The prefix of `s` that precedes the first occurrence of `pat`; all of `s`
/// when `pat` does not occur.
pub open spec fn before_first(s: Seq<char>, pat: Seq<char>) -> Seq<char>
    decreases s.len(),
{
    if pat.len() == 0 || s.len() < pat.len() {
        s
    } else if s.subrange(0, pat.len() as int) == pat {
        Seq::empty()
    } else {
        seq![s[0]] + before_first(s.skip(1), pat)
    }
}

/// The characters of `s`, as an executable vector.
pub fn str_chars(s: &str) -> (r: Vec<char>)
    ensures
        r@ == s@,
{
    let n = s.unicode_len();
    let mut r: Vec<char> = Vec::new();
    let mut i: usize = 0;
    while i < n
        invariant
            n == s@.len(),
            i <= n,
            r@ == s@.take(i as int),
        decreases n - i,
    {
        r.push(s.get_char(i));
        assert(s@.take(i + 1 as int) =~= s@.take(i as int).push(s@[i as int]));
        i += 1;
    }
    assert(r@ =~= s@);
    r
}

/// Relies on `String`'s `FromIterator` over `char`: collecting the
/// characters of `v` yields the string of exactly those characters.
#[verifier::external_body]
pub fn chars_to_string(v: &Vec<char>) -> (r: String)
    ensures
        r@ == v@,
{
    v.iter().collect()
}

/// Whether `pat` occurs in `s` at position `i`.
pub(crate) fn match_at(s: &Vec<char>, pat: &Vec<char>, i: usize) -> (b: bool)
    requires
        i + pat@.len() <= s@.len(),
    ensures
        b == contains_at(s@, pat@, i as int),
{
    let n = s.len();
    let m = pat.len();
    let mut j: usize = 0;
    while j < m
        invariant
            n == s@.len(),
            m == pat@.len(),
            i + m <= n,
            j <= m,
            s@.subrange(i as int, i + j as int) =~= pat@.subrange(0, j as int),
        decreases m - j,
    {
        if s[i + j] != pat[j] {
            assert(s@[i + j] != pat@[j as int]);
            assert(!contains_at(s@, pat@, i as int)) by {
                if s@.subrange(i as int, i + pat@.len()) == pat@ {
                    assert(s@.subrange(i as int, i + pat@.len())[j as int] == s@[i + j]);
                }
            }
            return false;
        }
        assert(s@.subrange(i as int, i + (j + 1) as int) =~= s@.subrange(
            i as int,
            i + j as int,
        ).push(s@[i + j]));
        assert(pat@.subrange(0, (j + 1) as int) =~= pat@.subrange(0, j as int).push(
            pat@[j as int],
        ));
        j += 1;
    }
    assert(s@.subrange(i as int, i + pat@.len()) =~= pat@.subrange(0, pat@.len() as int));
    assert(pat@.subrange(0, pat@.len() as int) =~= pat@);
    true
}

/// Appends all characters of `src` to `dst`.
fn push_all(dst: &mut Vec<char>, src: &Vec<char>)
    ensures
        final(dst)@ == old(dst)@ + src@,
{
    let n = src.len();
    let mut i: usize = 0;
    while i < n
        invariant
            n == src@.len(),
            i <= n,
            dst@ == old(dst)@ + src@.take(i as int),
        decreases n - i,
    {
        dst.push(src[i]);
        assert(src@.take(i + 1 as int) =~= src@.take(i as int).push(src@[i as int]));
        assert(old(dst)@ + src@.take(i + 1 as int) =~= (old(dst)@ + src@.take(i as int)).push(
            src@[i as int],
        ));
        i += 1;
    }
    assert(src@.take(n as int) =~= src@);
}

proof fn lemma_replace_step_match(s: Seq<char>, pat: Seq<char>, rep: Seq<char>, i: int)
    requires
        1 <= pat.len(),
        contains_at(s, pat, i),
    ensures
        replace_seq(s.skip(i), pat, rep) == rep + replace_seq(s.skip(i + pat.len()), pat, rep),
{
    let tail = s.skip(i);
    assert(tail.subrange(0, pat.len() as int) =~= s.subrange(i, i + pat.len() as int));
    assert(tail.skip(pat.len() as int) =~= s.skip(i + pat.len()));
}

proof fn lemma_replace_step_miss(s: Seq<char>, pat: Seq<char>, rep: Seq<char>, i: int)
    requires
        1 <= pat.len(),
        0 <= i < s.len(),
        !contains_at(s, pat, i),
    ensures
        replace_seq(s.skip(i), pat, rep) == seq![s[i]] + replace_seq(s.skip(i + 1), pat, rep),
{
    let tail = s.skip(i);
    if i + pat.len() <= s.len() {
        assert(tail.subrange(0, pat.len() as int) =~= s.subrange(i, i + pat.len() as int));
        assert(tail.subrange(0, pat.len() as int) != pat);
    } else {
        assert(tail.len() < pat.len());
        assert(replace_seq(tail, pat, rep) == tail);
        assert(tail =~= seq![tail[0]] + tail.skip(1));
        assert(replace_seq(tail.skip(1), pat, rep) == tail.skip(1));
    }
    assert(tail[0] == s[i]);
    assert(tail.skip(1) =~= s.skip(i + 1));
}

proof fn lemma_before_step_miss(s: Seq<char>, pat: Seq<char>, i: int)
    requires
        1 <= pat.len(),
        0 <= i < s.len(),
        !contains_at(s, pat, i),
    ensures
        before_first(s.skip(i), pat) == seq![s[i]] + before_first(s.skip(i + 1), pat),
{
    let tail = s.skip(i);
    if i + pat.len() <= s.len() {
        assert(tail.subrange(0, pat.len() as int) =~= s.subrange(i, i + pat.len() as int));
        assert(tail.subrange(0, pat.len() as int) != pat);
    } else {
        assert(tail.len() < pat.len());
        assert(before_first(tail, pat) == tail);
        assert(tail =~= seq![tail[0]] + tail.skip(1));
        assert(before_first(tail.skip(1), pat) == tail.skip(1));
    }
    assert(tail[0] == s[i]);
    assert(tail.skip(1) =~= s.skip(i + 1));
}

/// `s` with every occurrence of `pat` replaced by `rep`, scanning left to
/// right, each occurrence replaced once.
pub fn replace_chars(s: &Vec<char>, pat: &Vec<char>, rep: &Vec<char>) -> (r: Vec<char>)
    requires
        pat@.len() >= 1,
    ensures
        r@ == replace_seq(s@, pat@, rep@),
{
    let n = s.len();
    let m = pat.len();
    let mut out: Vec<char> = Vec::new();
    let mut i: usize = 0;
    proof {
        assert(s@.skip(0) =~= s@);
        assert(out@ + replace_seq(s@, pat@, rep@) =~= replace_seq(s@, pat@, rep@));
    }
    while i < n
        invariant
            n == s@.len(),
            m == pat@.len(),
            m >= 1,
            i <= n,
            replace_seq(s@, pat@, rep@) == out@ + replace_seq(s@.skip(i as int), pat@, rep@),
        decreases n - i,
    {
        if m <= n - i && match_at(s, pat, i) {
            proof {
                lemma_replace_step_match(s@, pat@, rep@, i as int);
                assert((out@ + rep@) + replace_seq(s@.skip(i + m as int), pat@, rep@) =~= out@
                    + (rep@ + replace_seq(s@.skip(i + m as int), pat@, rep@)));
            }
            push_all(&mut out, rep);
            i += m;
        } else {
            proof {
                lemma_replace_step_miss(s@, pat@, rep@, i as int);
                assert(out@.push(s@[i as int]) =~= out@ + seq![s@[i as int]]);
                assert((out@ + seq![s@[i as int]]) + replace_seq(s@.skip(i + 1 as int), pat@, rep@)
                    =~= out@ + (seq![s@[i as int]] + replace_seq(s@.skip(i + 1 as int), pat@, rep@)));
            }
            out.push(s[i]);
            i += 1;
        }
    }
    proof {
        assert(s@.skip(n as int) =~= Seq::<char>::empty());
        assert(replace_seq(s@.skip(n as int), pat@, rep@) == s@.skip(n as int));
        assert(out@ + Seq::<char>::empty() =~= out@);
    }
    out
}

/// The prefix of `s` before the first occurrence of `pat`; all of `s` when
/// `pat` does not occur in it.
pub fn take_before(s: &Vec<char>, pat: &Vec<char>) -> (r: Vec<char>)
    requires
        pat@.len() >= 1,
    ensures
        r@ == before_first(s@, pat@),
{
    let n = s.len();
    let m = pat.len();
    let mut out: Vec<char> = Vec::new();
    let mut i: usize = 0;
    proof {
        assert(s@.skip(0) =~= s@);
        assert(out@ + before_first(s@, pat@) =~= before_first(s@, pat@));
    }
    while i < n
        invariant
            n == s@.len(),
            m == pat@.len(),
            m >= 1,
            i <= n,
            before_first(s@, pat@) == out@ + before_first(s@.skip(i as int), pat@),
        decreases n - i,
    {
        if m <= n - i && match_at(s, pat, i) {
            proof {
                let tail = s@.skip(i as int);
                assert(tail.subrange(0, m as int) =~= s@.subrange(i as int, i + m as int));
                assert(before_first(tail, pat@) =~= Seq::<char>::empty());
                assert(out@ + Seq::<char>::empty() =~= out@);
            }
            return out;
        }
        proof {
            lemma_before_step_miss(s@, pat@, i as int);
            assert(out@.push(s@[i as int]) =~= out@ + seq![s@[i as int]]);
            assert((out@ + seq![s@[i as int]]) + before_first(s@.skip(i + 1 as int), pat@) =~= out@
                + (seq![s@[i as int]] + before_first(s@.skip(i + 1 as int), pat@)));
        }
        out.push(s[i]);
        i += 1;
    }
    proof {
        assert(s@.skip(n as int) =~= Seq::<char>::empty());
        assert(before_first(s@.skip(n as int), pat@) =~= Seq::<char>::empty());
        assert(out@ + Seq::<char>::empty() =~= out@);
    }
    out
}

/// Whether `pat` occurs anywhere in `s`.
pub fn contains_chars(s: &Vec<char>, pat: &Vec<char>) -> (b: bool)
    requires
        pat@.len() >= 1,
    ensures
        b == contains_seq(s@, pat@),
{
    let n = s.len();
    let m = pat.len();
    if m > n {
        assert(forall|i: int| !contains_at(s@, pat@, i));
        return false;
    }
    let mut i: usize = 0;
    while i <= n - m
        invariant
            n == s@.len(),
            m == pat@.len(),
            m >= 1,
            m <= n,
            i <= n - m + 1,
            forall|k: int| 0 <= k < i ==> !contains_at(s@, pat@, k),
        decreases n - i,
    {
        if match_at(s, pat, i) {
            assert(contains_at(s@, pat@, i as int));
            return true;
        }
        i += 1;
    }
    assert(forall|k: int| !contains_at(s@, pat@, k));
    false
}


/// The segments of `s` between occurrences of the separator, kept in order
/// and with empty segments preserved; splitting the empty text yields one
/// empty segment.
pub open spec fn segments(s: Seq<char>, sep: char) -> Seq<Seq<char>>
    decreases s.len(),
{
    if s.len() == 0 {
        seq![Seq::<char>::empty()]
    } else if s[0] == sep {
        seq![Seq::<char>::empty()] + segments(s.skip(1), sep)
    } else {
        let r = segments(s.skip(1), sep);
        seq![seq![s[0]] + r[0]] + r.skip(1)
    }
}

/// The whitespace-delimited tokens of `s`: its non-empty space segments.
pub open spec fn split_ws(s: Seq<char>) -> Seq<Seq<char>> {
    segments(s, ' ').filter(|t: Seq<char>| t.len() > 0)
}

/// Splits `s` at every occurrence of `sep`, keeping empty segments.
pub fn split_segments(s: &Vec<char>, sep: char) -> (r: Vec<Vec<char>>)
    ensures
        r.deep_view() == segments(s@, sep),
        r@.len() >= 1,
{
    let n = s.len();
    let mut toks: Vec<Vec<char>> = Vec::new();
    toks.push(Vec::new());
    let mut i: usize = n;
    proof {
        assert(s@.skip(n as int) =~= Seq::<char>::empty());
        assert(toks.deep_view() =~~= segments(s@.skip(n as int), sep));
    }
    while i > 0
        invariant
            n == s@.len(),
            i <= n,
            toks.deep_view() == segments(s@.skip(i as int), sep),
            toks@.len() >= 1,
        decreases i,
    {
        let ghost prev = toks.deep_view();
        proof {
            assert(s@.skip(i - 1 as int).skip(1) =~= s@.skip(i as int));
            assert(s@.skip(i - 1 as int)[0] == s@[i - 1]);
        }
        let c = s[i - 1];
        if c == sep {
            toks.insert(0, Vec::new());
            proof {
                assert(toks.deep_view() =~~= seq![Seq::<char>::empty()] + prev);
            }
        } else {
            let mut t0 = toks.remove(0);
            let ghost rest = toks.deep_view();
            proof {
                assert(rest =~~= prev.skip(1));
            }
            t0.insert(0, c);
            proof {
                assert(t0@ =~= seq![c] + prev[0].subrange(0, prev[0].len() as int));
                assert(prev[0].subrange(0, prev[0].len() as int) =~= prev[0]);
            }
            toks.insert(0, t0);
            proof {
                assert(toks.deep_view() =~~= seq![seq![c] + prev[0]] + prev.skip(1));
            }
        }
        i -= 1;
    }
    proof {
        assert(s@.skip(0) =~= s@);
    }
    toks
}

/// The whitespace-delimited tokens of `s`, each as a vector of characters.
pub fn split_tokens(s: &Vec<char>) -> (r: Vec<Vec<char>>)
    ensures
        r.deep_view() == split_ws(s@),
{
    let segs = split_segments(s, ' ');
    let ghost all = segs.deep_view();
    let ghost pred = |t: Seq<char>| t.len() > 0;
    let n = segs.len();
    let mut out: Vec<Vec<char>> = Vec::new();
    proof {
        reveal(Seq::filter);
        assert(all.take(0) =~~= Seq::<Seq<char>>::empty());
        assert(out.deep_view() =~~= all.take(0).filter(pred));
    }
    let mut i: usize = 0;
    while i < n
        invariant
            n == segs@.len(),
            all == segs.deep_view(),
            pred == (|t: Seq<char>| t.len() > 0),
            i <= n,
            out.deep_view() == all.take(i as int).filter(pred),
        decreases n - i,
    {
        let ghost prevout = out.deep_view();
        proof {
            reveal(Seq::filter);
            assert(all.take(i + 1 as int).drop_last() =~~= all.take(i as int));
            assert(all.take(i + 1 as int).last() == all[i as int]);
        }
        if segs[i].len() > 0 {
            let t = segs[i].clone();
            proof {
                assert(t@ == all[i as int]);
                assert(pred(all[i as int]));
            }
            out.push(t);
            proof {
                assert(out.deep_view() =~~= prevout.push(all[i as int]));
            }
        } else {
            proof {
                assert(!pred(all[i as int]));
            }
        }
        i += 1;
    }
    proof {
        assert(all.take(n as int) =~~= all);
    }
    out
}

/// The parts joined with a single space between consecutive parts.
pub open spec fn join_spaces(parts: Seq<Seq<char>>) -> Seq<char>
    decreases parts.len(),
{
    if parts.len() == 0 {
        Seq::empty()
    } else if parts.len() == 1 {
        parts[0]
    } else {
        parts[0] + seq![' '] + join_spaces(parts.skip(1))
    }
}

proof fn lemma_join_push(parts: Seq<Seq<char>>, x: Seq<char>)
    ensures
        join_spaces(parts.push(x)) == if parts.len() == 0 {
            x
        } else {
            join_spaces(parts) + seq![' '] + x
        },
    decreases parts.len(),
{
    if parts.len() == 0 {
        assert(parts.push(x).len() == 1);
        assert(parts.push(x)[0] == x);
    } else {
        assert(parts.push(x).skip(1) =~= parts.skip(1).push(x));
        lemma_join_push(parts.skip(1), x);
        assert(parts.push(x)[0] == parts[0]);
        if parts.len() == 1 {
            assert(parts.skip(1).len() == 0);
            assert(join_spaces(parts.push(x)) == parts[0] + seq![' '] + x);
            assert(join_spaces(parts) == parts[0]);
        } else {
            assert(join_spaces(parts) + seq![' '] + x =~= parts[0] + seq![' '] + (join_spaces(
                parts.skip(1),
            ) + seq![' '] + x));
        }
    }
}


/// Joins the parts with a single space between consecutive parts.
pub fn join_with_spaces(parts: &Vec<String>) -> (r: String)
    ensures
        r@ == join_spaces(parts.deep_view()),
{
    proof {
        reveal_strlit(" ");
    }
    let mut out = String::new();
    let n = parts.len();
    let mut i: usize = 0;
    proof {
        assert(parts.deep_view().take(0) =~~= Seq::<Seq<char>>::empty());
    }
    while i < n
        invariant
            n == parts@.len(),
            i <= n,
            " "@ == seq![' '],
            out@ == join_spaces(parts.deep_view().take(i as int)),
        decreases n - i,
    {
        proof {
            lemma_join_push(parts.deep_view().take(i as int), parts.deep_view()[i as int]);
            assert(parts.deep_view().take(i as int).push(parts.deep_view()[i as int]) =~~=
                parts.deep_view().take(i + 1 as int));
        }
        if i > 0 {
            out.append(" ");
        }
        out.append(parts[i].as_str());
        i += 1;
    }
    proof {
        assert(parts.deep_view().take(n as int) =~~= parts.deep_view());
    }
    out
}

/// The decimal digit character for `d`.
pub open spec fn dec_digit(d: int) -> char {
    if d == 0 {
        '0'
    } else if d == 1 {
        '1'
    } else if d == 2 {
        '2'
    } else if d == 3 {
        '3'
    } else if d == 4 {
        '4'
    } else if d == 5 {
        '5'
    } else if d == 6 {
        '6'
    } else if d == 7 {
        '7'
    } else if d == 8 {
        '8'
    } else {
        '9'
    }
}

/// The decimal digits of `n`, most significant first, without leading zeros
/// (zero itself is a single `'0'`).
pub open spec fn dec_seq(n: nat) -> Seq<char>
    decreases n,
{
    if n < 10 {
        seq![dec_digit(n as int)]
    } else {
        dec_seq(n / 10) + seq![dec_digit((n % 10) as int)]
    }
}

/// The decimal form of an integer, with a leading minus sign when negative.
pub open spec fn dec_int_seq(n: int) -> Seq<char> {
    if n >= 0 {
        dec_seq(n as nat)
    } else {
        seq!['-'] + dec_seq((-n) as nat)
    }
}

fn dec_digit_char(d: u64) -> (c: char)
    requires
        d < 10,
    ensures
        c == dec_digit(d as int),
{
    if d == 0 {
        '0'
    } else if d == 1 {
        '1'
    } else if d == 2 {
        '2'
    } else if d == 3 {
        '3'
    } else if d == 4 {
        '4'
    } else if d == 5 {
        '5'
    } else if d == 6 {
        '6'
    } else if d == 7 {
        '7'
    } else if d == 8 {
        '8'
    } else {
        '9'
    }
}

/// The decimal rendering of `x`.
pub fn u64_to_string(x: u64) -> (r: String)
    ensures
        r@ == dec_seq(x as nat),
{
    let mut out: Vec<char> = Vec::new();
    let mut v: u64 = x;
    let c0 = dec_digit_char(v % 10);
    out.insert(0, c0);
    proof {
        assert(out@ =~= seq![dec_digit((x as nat % 10) as int)]);
    }
    v = v / 10;
    while v > 0
        invariant
            out@.len() >= 1,
            v == 0 ==> out@ == dec_seq(x as nat),
            v > 0 ==> dec_seq(x as nat) == dec_seq(v as nat) + out@,
        decreases v,
    {
        let ghost prev = out@;
        let d = v % 10;
        let c = dec_digit_char(d);
        out.insert(0, c);
        proof {
            assert(out@ =~= seq![dec_digit(d as int)] + prev);
            if v >= 10 {
                assert(dec_seq(v as nat) == dec_seq(v as nat / 10) + seq![
                    dec_digit((v as nat % 10) as int),
                ]);
                assert(dec_seq(v as nat / 10) + (seq![dec_digit(d as int)] + prev) =~= (dec_seq(
                    v as nat / 10,
                ) + seq![dec_digit(d as int)]) + prev);
            } else {
                assert(dec_seq(v as nat) == seq![dec_digit(v as int)]);
                assert(v % 10 == v);
            }
        }
        v = v / 10;
    }
    chars_to_string(&out)
}

/// The decimal rendering of `x`, with a minus sign when negative.
pub fn i64_to_string(x: i64) -> (r: String)
    ensures
        r@ == dec_int_seq(x as int),
{
    proof {
        reveal_strlit("-");
    }
    if x >= 0 {
        u64_to_string(x as u64)
    } else {
        let m: u64 = ((-(x + 1)) as u64) + 1;
        assert(m as int == -(x as int));
        let mut out = String::new();
        out.append("-");
        let digits = u64_to_string(m);
        out.append(digits.as_str());
        assert(out@ =~= seq!['-'] + dec_seq((-(x as int)) as nat));
        out
    }
}

/// `s` ends with `suffix`.
pub open spec fn ends_with(s: Seq<char>, suffix: Seq<char>) -> bool {
    s.len() >= suffix.len() && s.subrange(s.len() - suffix.len(), s.len() as int) == suffix
}

/// Whether the characters of `s` end with `suffix`.
pub fn chars_end_with(s: &Vec<char>, suffix: &Vec<char>) -> (b: bool)
    ensures
        b == ends_with(s@, suffix@),
{
    let n = s.len();
    let m = suffix.len();
    if m > n {
        return false;
    }
    let b = match_at(s, suffix, n - m);
    proof {
        assert(contains_at(s@, suffix@, n - m as int) == ends_with(s@, suffix@));
    }
    b
}


/// Whether two strings hold the same characters.
pub fn str_eq(a: &str, b: &str) -> (r: bool)
    ensures
        r == (a@ == b@),
{
    let na = a.unicode_len();
    let nb = b.unicode_len();
    if na != nb {
        return false;
    }
    let mut i: usize = 0;
    while i < na
        invariant
            na == a@.len(),
            na == b@.len(),
            i <= na,
            forall|j: int| 0 <= j < i ==> a@[j] == b@[j],
        decreases na - i,
    {
        if a.get_char(i) != b.get_char(i) {
            return false;
        }
        i += 1;
    }
    proof {
        assert(a@ =~= b@);
    }
    true
}

/// Whether the string equals the literal text.
pub fn string_is(s: &String, lit: &str) -> (r: bool)
    ensures
        r == (s@ == lit@),
{
    str_eq(s.as_str(), lit)
}


/// Appends clones of all elements of `src` to `dst`.
pub fn push_all_strings(dst: &mut Vec<String>, src: &Vec<String>)
    ensures
        final(dst).deep_view() == old(dst).deep_view() + src.deep_view(),
{
    let n = src.len();
    let mut i: usize = 0;
    proof {
        assert(old(dst).deep_view() + src.deep_view().take(0) =~~= old(dst).deep_view());
    }
    while i < n
        invariant
            n == src@.len(),
            i <= n,
            dst.deep_view() == old(dst).deep_view() + src.deep_view().take(i as int),
        decreases n - i,
    {
        let ghost prev = dst.deep_view();
        dst.push(src[i].clone());
        proof {
            assert(dst.deep_view() =~~= prev.push(src.deep_view()[i as int]));
            assert(prev.push(src.deep_view()[i as int]) =~~= old(dst).deep_view()
                + src.deep_view().take(i + 1 as int));
        }
        i += 1;
    }
    proof {
        assert(src.deep_view().take(n as int) =~~= src.deep_view());
    }
}


/// The textual form of a truth value.
pub open spec fn spec_bool_text(b: bool) -> Seq<char> {
    if b {
        "true"@
    } else {
        "false"@
    }
}

/// The textual form of a truth value.
pub fn bool_text(b: bool) -> (r: &'static str)
    ensures
        r@ == spec_bool_text(b),
{
    if b {
        "true"
    } else {
        "false"
    }
}


/// The whitespace-delimited tokens of `s`, each as a string.
pub fn split_args(s: &str) -> (r: Vec<String>)
    ensures
        r.deep_view() == split_ws(s@),
{
    let chars = str_chars(s);
    let toks = split_tokens(&chars);
    let ghost tv = toks.deep_view();
    let n = toks.len();
    let mut r: Vec<String> = Vec::new();
    proof {
        assert(r.deep_view() =~~= tv.take(0));
    }
    let mut i: usize = 0;
    while i < n
        invariant
            n == toks@.len(),
            tv == toks.deep_view(),
            i <= n,
            r.deep_view() == tv.take(i as int),
        decreases n - i,
    {
        let ghost prev = r.deep_view();
        r.push(chars_to_string(&toks[i]));
        proof {
            assert(r.deep_view() =~~= prev.push(tv[i as int]));
            assert(prev.push(tv[i as int]) =~~= tv.take(i + 1 as int));
        }
        i += 1;
    }
    proof {
        assert(tv.take(n as int) =~~= tv);
    }
    r
}


/// Replacing a pattern that does not occur changes nothing.
pub proof fn lemma_replace_absent(s: Seq<char>, pat: Seq<char>, rep: Seq<char>)
    requires
        pat.len() >= 1,
        !contains_seq(s, pat),
    ensures
        replace_seq(s, pat, rep) == s,
    decreases s.len(),
{
    if s.len() < pat.len() {
    } else {
        assert(!contains_at(s, pat, 0));
        assert(s.subrange(0, pat.len() as int) != pat);
        assert forall|i: int| !contains_at(s.skip(1), pat, i) by {
            if contains_at(s.skip(1), pat, i) {
                assert(s.skip(1).subrange(i, i + pat.len() as int) =~= s.subrange(
                    i + 1,
                    i + 1 + pat.len() as int,
                ));
                assert(contains_at(s, pat, i + 1));
            }
        }
        lemma_replace_absent(s.skip(1), pat, rep);
        assert(replace_seq(s, pat, rep) == seq![s[0]] + s.skip(1));
        assert(seq![s[0]] + s.skip(1) =~= s);
    }
}


/// `s` begins with `prefix`.
pub open spec fn starts_with(s: Seq<char>, prefix: Seq<char>) -> bool {
    s.len() >= prefix.len() && s.subrange(0, prefix.len() as int) == prefix
}

/// Whether the characters of `s` begin with `prefix`.
pub fn chars_start_with(s: &Vec<char>, prefix: &Vec<char>) -> (b: bool)
    ensures
        b == starts_with(s@, prefix@),
{
    if prefix.len() > s.len() {
        return false;
    }
    let b = match_at(s, prefix, 0);
    proof {
        assert(contains_at(s@, prefix@, 0) == starts_with(s@, prefix@));
    }
    b
}

/// The characters of `s` from position `from` on.
pub fn chars_from(s: &Vec<char>, from: usize) -> (r: Vec<char>)
    requires
        from <= s@.len(),
    ensures
        r@ == s@.skip(from as int),
{
    let n = s.len();
    let mut r: Vec<char> = Vec::new();
    let mut i: usize = from;
    while i < n
        invariant
            n == s@.len(),
            from <= i <= n,
            r@ == s@.subrange(from as int, i as int),
        decreases n - i,
    {
        r.push(s[i]);
        assert(s@.subrange(from as int, i + 1 as int) =~= s@.subrange(from as int, i as int).push(
            s@[i as int],
        ));
        i += 1;
    }
    assert(s@.subrange(from as int, n as int) =~= s@.skip(from as int));
    r
}

} // verus!
