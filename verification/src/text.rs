//! Verified text utilities: substring search, placeholder replacement,
//! whitespace trimming, and suffix stripping for endpoint normalization.
use vstd::prelude::*;

verus! {

use vstd::string::StrSliceExecFns;
use vstd::string::StringExecFns;

/// The pattern `pat` occurs in `s` starting at position `i`.
pub open spec fn occurs_at(s: Seq<char>, pat: Seq<char>, i: int) -> bool {
    0 <= i && i + pat.len() <= s.len() && s.subrange(i, i + pat.len() as int) == pat
}

/// The pattern `pat` occurs somewhere in `s`.
pub open spec fn contains_seq(s: Seq<char>, pat: Seq<char>) -> bool {
    exists|i: int| occurs_at(s, pat, i)
}

/// Leftmost-scan, non-overlapping replacement of `pat` by `rep` in `s`,
/// as `str::replace` performs it: replaced text is not scanned again.
pub open spec fn replace_seq(s: Seq<char>, pat: Seq<char>, rep: Seq<char>) -> Seq<char>
    decreases s.len(),
{
    if pat.len() == 0 || s.len() < pat.len() {
        s
    } else if s.subrange(0, pat.len() as int) == pat {
        rep + replace_seq(s.skip(pat.len() as int), pat, rep)
    } else {
        seq![s[0]] + replace_seq(s.skip(1), pat, rep)
    }
}

/// Law: a text without any occurrence of the pattern is left untouched by
/// replacement.
pub proof fn lemma_replace_no_occurrence(t: Seq<char>, pat: Seq<char>, rep: Seq<char>)
    requires
        !contains_seq(t, pat),
    ensures
        replace_seq(t, pat, rep) == t,
    decreases t.len(),
{
    if pat.len() == 0 {
        assert(t.subrange(0, 0) =~= pat);
        assert(occurs_at(t, pat, 0));
    } else if t.len() < pat.len() {
    } else {
        assert(!occurs_at(t, pat, 0));
        assert(t.subrange(0, pat.len() as int) != pat);
        assert(!contains_seq(t.skip(1), pat)) by {
            if contains_seq(t.skip(1), pat) {
                let i = choose|i: int| occurs_at(t.skip(1), pat, i);
                assert(t.subrange(i + 1, i + 1 + pat.len()) =~= t.skip(1).subrange(
                    i,
                    i + pat.len() as int,
                ));
                assert(occurs_at(t, pat, i + 1));
            }
        }
        lemma_replace_no_occurrence(t.skip(1), pat, rep);
        assert(seq![t[0]] + t.skip(1) =~= t);
    }
}

/// Law: replacement rewrites every occurrence of the pattern and keeps the
/// text around it untouched: when no occurrence starts inside `a`,
/// replacing in `a + pat + b` yields `a`, then the replacement text, then
/// the replacement of `b` on its own.
pub proof fn lemma_replace_splits(a: Seq<char>, pat: Seq<char>, rep: Seq<char>, b: Seq<char>)
    requires
        pat.len() >= 1,
        forall|i: int| 0 <= i < a.len() ==> !occurs_at(a + pat + b, pat, i),
    ensures
        replace_seq(a + pat + b, pat, rep) == a + rep + replace_seq(b, pat, rep),
    decreases a.len(),
{
    let t = a + pat + b;
    if a.len() == 0 {
        assert(t.subrange(0, pat.len() as int) =~= pat);
        assert(t.skip(pat.len() as int) =~= b);
        assert(a + rep + replace_seq(b, pat, rep) =~= rep + replace_seq(b, pat, rep));
    } else {
        assert(!occurs_at(t, pat, 0));
        assert(t.len() >= pat.len());
        assert(t.subrange(0, pat.len() as int) != pat);
        let t1 = a.skip(1) + pat + b;
        assert(t.skip(1) =~= t1);
        assert forall|i: int| 0 <= i < a.skip(1).len() implies !occurs_at(t1, pat, i) by {
            if occurs_at(t1, pat, i) {
                assert(t.subrange(i + 1, i + 1 + pat.len()) =~= t1.subrange(
                    i,
                    i + pat.len() as int,
                ));
                assert(occurs_at(t, pat, i + 1));
            }
        }
        lemma_replace_splits(a.skip(1), pat, rep, b);
        assert(replace_seq(t, pat, rep) == seq![t[0]] + replace_seq(t.skip(1), pat, rep));
        assert(seq![t[0]] + (a.skip(1) + rep + replace_seq(b, pat, rep)) =~= a + rep + replace_seq(
            b,
            pat,
            rep,
        ));
    }
}

/// Whether `s` starts with `pat` at position `i` (executable).
fn starts_with_at(s: &str, pat: &str, i: usize, s_len: usize, pat_len: usize) -> (r: bool)
    requires
        s_len == s@.len(),
        pat_len == pat@.len(),
        i + pat_len <= s_len,
    ensures
        r == occurs_at(s@, pat@, i as int),
{
    let mut j: usize = 0;
    while j < pat_len
        invariant
            j <= pat_len,
            s_len == s@.len(),
            pat_len == pat@.len(),
            i + pat_len <= s_len,
            forall|k: int| 0 <= k < j ==> s@[i + k] == pat@[k],
        decreases pat_len - j,
    {
        if s.get_char(i + j) != pat.get_char(j) {
            assert(s@.subrange(i as int, i + pat@.len() as int) != pat@) by {
                assert(s@.subrange(i as int, i + pat@.len() as int)[j as int] == s@[i + j]);
            }
            return false;
        }
        j = j + 1;
    }
    assert(s@.subrange(i as int, i + pat@.len() as int) =~= pat@);
    true
}

/// Executable substring search, exact against `contains_seq`.
pub fn contains_str(s: &str, pat: &str) -> (r: bool)
    ensures
        r == contains_seq(s@, pat@),
{
    let s_len = s.unicode_len();
    let pat_len = pat.unicode_len();
    if pat_len > s_len {
        assert(!contains_seq(s@, pat@)) by {
            assert(forall|i: int| !occurs_at(s@, pat@, i));
        }
        return false;
    }
    if pat_len == 0 {
        assert(s@.subrange(0, 0) =~= pat@);
        assert(occurs_at(s@, pat@, 0));
        return true;
    }
    let bound = s_len - pat_len + 1;
    let mut i: usize = 0;
    while i < bound
        invariant
            s_len == s@.len(),
            pat_len == pat@.len(),
            1 <= pat_len <= s_len,
            bound == s_len - pat_len + 1,
            i <= bound,
            forall|k: int| 0 <= k < i ==> !occurs_at(s@, pat@, k),
        decreases bound - i,
    {
        if starts_with_at(s, pat, i, s_len, pat_len) {
            assert(occurs_at(s@, pat@, i as int));
            return true;
        }
        i = i + 1;
    }
    assert forall|k: int| !occurs_at(s@, pat@, k) by {
        if 0 <= k && k + pat@.len() <= s@.len() {
            assert(k < i);
            assert(!occurs_at(s@, pat@, k));
        }
    }
    false
}

/// Executable replacement of every occurrence of `pat` by `rep`, exact
/// against `replace_seq`.
pub(crate) fn replace_str(s: &str, pat: &str, rep: &str) -> (r: String)
    requires
        pat@.len() >= 1,
    ensures
        r@ == replace_seq(s@, pat@, rep@),
{
    let mut r = String::new();
    let s_len = s.unicode_len();
    let pat_len = pat.unicode_len();
    proof {
        assert(s@.skip(0) =~= s@);
        assert(r@ + replace_seq(s@, pat@, rep@) =~= replace_seq(s@, pat@, rep@));
    }
    let mut i: usize = 0;
    while i < s_len
        invariant
            i <= s_len,
            s_len == s@.len(),
            pat_len == pat@.len(),
            1 <= pat_len,
            replace_seq(s@, pat@, rep@) == r@ + replace_seq(s@.skip(i as int), pat@, rep@),
        decreases s_len - i,
    {
        let ghost t = s@.skip(i as int);
        if pat_len <= s_len - i && starts_with_at(s, pat, i, s_len, pat_len) {
            proof {
                assert(t.subrange(0, pat@.len() as int) =~= s@.subrange(
                    i as int,
                    i + pat@.len() as int,
                ));
                assert(t.skip(pat@.len() as int) =~= s@.skip(i + pat@.len()));
                assert(replace_seq(t, pat@, rep@) == rep@ + replace_seq(
                    s@.skip(i + pat@.len()),
                    pat@,
                    rep@,
                ));
            }
            let ghost r0 = r@;
            r.append(rep);
            proof {
                assert(r0 + (rep@ + replace_seq(s@.skip(i + pat@.len()), pat@, rep@)) =~= r@
                    + replace_seq(s@.skip(i + pat@.len()), pat@, rep@));
            }
            i = i + pat_len;
        } else {
            proof {
                if pat_len <= s_len - i {
                    assert(t.subrange(0, pat@.len() as int) =~= s@.subrange(
                        i as int,
                        i + pat@.len() as int,
                    ));
                    assert(t.subrange(0, pat@.len() as int) != pat@);
                    assert(t.skip(1) =~= s@.skip(i + 1));
                    assert(replace_seq(t, pat@, rep@) == seq![s@[i as int]] + replace_seq(
                        s@.skip(i + 1),
                        pat@,
                        rep@,
                    ));
                } else {
                    assert(t.len() < pat@.len());
                    assert(replace_seq(t, pat@, rep@) == t);
                    assert(t.skip(1) =~= s@.skip(i + 1));
                    assert(replace_seq(t.skip(1), pat@, rep@) == t.skip(1));
                    assert(t =~= seq![s@[i as int]] + t.skip(1));
                }
            }
            let piece = s.substring_char(i, i + 1);
            let ghost r0 = r@;
            r.append(piece);
            proof {
                assert(piece@ =~= seq![s@[i as int]]);
                assert(r0 + (seq![s@[i as int]] + replace_seq(s@.skip(i + 1), pat@, rep@)) =~= r@
                    + replace_seq(s@.skip(i + 1), pat@, rep@));
            }
            i = i + 1;
        }
    }
    proof {
        assert(s@.skip(s_len as int) =~= Seq::<char>::empty());
        assert(replace_seq(Seq::<char>::empty(), pat@, rep@) =~= Seq::<char>::empty());
        assert(r@ + Seq::<char>::empty() =~= r@);
    }
    r
}

/// The decimal digit character for `d` (meaningful for `0 <= d <= 9`).
pub open spec fn digit_char(d: int) -> char {
    if d == 0 {
        '0'
    } else if d == 1 {
        '1'
    } else if d == 2 {
        '2'
    } else if d == 3 {
        '3'
    } else if d == 4 {
        '4'
    } else if d == 5 {
        '5'
    } else if d == 6 {
        '6'
    } else if d == 7 {
        '7'
    } else if d == 8 {
        '8'
    } else {
        '9'
    }
}

/// The decimal rendering of `n`, without leading zeros (for `n >= 0`).
pub open spec fn dec_str(n: int) -> Seq<char>
    decreases n,
{
    if n < 10 {
        seq![digit_char(n)]
    } else {
        dec_str(n / 10) + seq![digit_char(n % 10)]
    }
}

fn digit_lit(d: u16) -> (r: &'static str)
    requires
        d < 10,
    ensures
        r@ == seq![digit_char(d as int)],
{
    proof {
        reveal_strlit("0");
        reveal_strlit("1");
        reveal_strlit("2");
        reveal_strlit("3");
        reveal_strlit("4");
        reveal_strlit("5");
        reveal_strlit("6");
        reveal_strlit("7");
        reveal_strlit("8");
        reveal_strlit("9");
        assert("0"@ =~= seq![digit_char(0)]);
        assert("1"@ =~= seq![digit_char(1)]);
        assert("2"@ =~= seq![digit_char(2)]);
        assert("3"@ =~= seq![digit_char(3)]);
        assert("4"@ =~= seq![digit_char(4)]);
        assert("5"@ =~= seq![digit_char(5)]);
        assert("6"@ =~= seq![digit_char(6)]);
        assert("7"@ =~= seq![digit_char(7)]);
        assert("8"@ =~= seq![digit_char(8)]);
        assert("9"@ =~= seq![digit_char(9)]);
    }
    if d == 0 {
        "0"
    } else if d == 1 {
        "1"
    } else if d == 2 {
        "2"
    } else if d == 3 {
        "3"
    } else if d == 4 {
        "4"
    } else if d == 5 {
        "5"
    } else if d == 6 {
        "6"
    } else if d == 7 {
        "7"
    } else if d == 8 {
        "8"
    } else {
        "9"
    }
}

fn push_dec(n: u16, out: &mut String)
    ensures
        final(out)@ == old(out)@ + dec_str(n as int),
    decreases n,
{
    if n < 10 {
        out.append(digit_lit(n));
    } else {
        push_dec(n / 10, out);
        let ghost mid = out@;
        out.append(digit_lit(n % 10));
        proof {
            assert(out@ =~= old(out)@ + dec_str(n as int));
        }
    }
}

/// The decimal rendering of `n`, exact against `dec_str`.
pub fn u16_to_dec(n: u16) -> (r: String)
    ensures
        r@ == dec_str(n as int),
{
    let mut s = String::new();
    push_dec(n, &mut s);
    proof {
        assert(s@ =~= dec_str(n as int));
    }
    s
}

/// Executable string equality, exact against view equality.
pub fn str_eq(a: &str, b: &str) -> (r: bool)
    ensures
        r == (a@ == b@),
{
    let a_len = a.unicode_len();
    let b_len = b.unicode_len();
    if a_len != b_len {
        return false;
    }
    let mut i: usize = 0;
    while i < a_len
        invariant
            i <= a_len,
            a_len == a@.len(),
            a_len == b@.len(),
            forall|k: int| 0 <= k < i ==> a@[k] == b@[k],
        decreases a_len - i,
    {
        if a.get_char(i) != b.get_char(i) {
            return false;
        }
        i = i + 1;
    }
    assert(a@ =~= b@);
    true
}

/// The characters that `str::trim` treats as whitespace
/// (the Unicode `White_Space` property).
pub open spec fn is_space_char(c: char) -> bool {
    c == '\u{9}' || c == '\u{a}' || c == '\u{b}' || c == '\u{c}' || c == '\u{d}' || c == ' '
        || c == '\u{85}' || c == '\u{a0}' || c == '\u{1680}' || c == '\u{2000}' || c == '\u{2001}'
        || c == '\u{2002}' || c == '\u{2003}' || c == '\u{2004}' || c == '\u{2005}'
        || c == '\u{2006}' || c == '\u{2007}' || c == '\u{2008}' || c == '\u{2009}'
        || c == '\u{200a}' || c == '\u{2028}' || c == '\u{2029}' || c == '\u{202f}'
        || c == '\u{205f}' || c == '\u{3000}'
}

fn is_space(c: char) -> (r: bool)
    ensures
        r == is_space_char(c),
{
    c == '\u{9}' || c == '\u{a}' || c == '\u{b}' || c == '\u{c}' || c == '\u{d}' || c == ' '
        || c == '\u{85}' || c == '\u{a0}' || c == '\u{1680}' || c == '\u{2000}' || c == '\u{2001}'
        || c == '\u{2002}' || c == '\u{2003}' || c == '\u{2004}' || c == '\u{2005}'
        || c == '\u{2006}' || c == '\u{2007}' || c == '\u{2008}' || c == '\u{2009}'
        || c == '\u{200a}' || c == '\u{2028}' || c == '\u{2029}' || c == '\u{202f}'
        || c == '\u{205f}' || c == '\u{3000}'
}

/// `s` with leading whitespace removed.
pub open spec fn trim_front(s: Seq<char>) -> Seq<char>
    decreases s.len(),
{
    if s.len() > 0 && is_space_char(s[0]) {
        trim_front(s.skip(1))
    } else {
        s
    }
}

/// `s` with trailing whitespace removed.
pub open spec fn trim_back(s: Seq<char>) -> Seq<char>
    decreases s.len(),
{
    if s.len() > 0 && is_space_char(s[s.len() - 1]) {
        trim_back(s.take(s.len() - 1))
    } else {
        s
    }
}

/// `s` with leading and trailing whitespace removed, as `str::trim` leaves it.
pub open spec fn trim_seq(s: Seq<char>) -> Seq<char> {
    trim_back(trim_front(s))
}

/// Executable trim, exact against `trim_seq`.
pub fn trim_str(s: &str) -> (r: String)
    ensures
        r@ == trim_seq(s@),
{
    let s_len = s.unicode_len();
    proof {
        assert(s@.skip(0) =~= s@);
    }
    let mut a: usize = 0;
    while a < s_len && is_space(s.get_char(a))
        invariant
            a <= s_len,
            s_len == s@.len(),
            trim_front(s@) == trim_front(s@.skip(a as int)),
        decreases s_len - a,
    {
        proof {
            assert(s@.skip(a as int)[0] == s@[a as int]);
            assert(s@.skip(a as int).skip(1) =~= s@.skip(a + 1));
        }
        a = a + 1;
    }
    proof {
        if a < s_len {
            assert(s@.skip(a as int)[0] == s@[a as int]);
        }
        assert(trim_front(s@.skip(a as int)) == s@.skip(a as int));
    }
    proof {
        assert(s@.skip(a as int) =~= s@.subrange(a as int, s_len as int));
    }
    let mut b: usize = s_len;
    while b > a && is_space(s.get_char(b - 1))
        invariant
            a <= b <= s_len,
            s_len == s@.len(),
            trim_back(s@.skip(a as int)) == trim_back(s@.subrange(a as int, b as int)),
        decreases b,
    {
        proof {
            let u = s@.subrange(a as int, b as int);
            assert(u[u.len() - 1] == s@[b - 1]);
            assert(u.take(u.len() - 1) =~= s@.subrange(a as int, b - 1));
        }
        b = b - 1;
    }
    proof {
        let u = s@.subrange(a as int, b as int);
        if b > a {
            assert(u[u.len() - 1] == s@[b - 1]);
        }
        assert(trim_back(u) == u);
        assert(s@.skip(a as int) =~= s@.subrange(a as int, s_len as int));
    }
    let mid = s.substring_char(a, b);
    mid.to_owned()
}

/// `s` with every trailing `'/'` removed, as
/// `str::trim_end_matches('/')` leaves it.
pub open spec fn strip_trailing_slashes(s: Seq<char>) -> Seq<char>
    decreases s.len(),
{
    if s.len() > 0 && s[s.len() - 1] == '/' {
        strip_trailing_slashes(s.take(s.len() - 1))
    } else {
        s
    }
}

/// Executable strip of trailing slashes, exact against `strip_trailing_slashes`.
pub fn strip_slashes(s: &str) -> (r: String)
    ensures
        r@ == strip_trailing_slashes(s@),
{
    let s_len = s.unicode_len();
    proof {
        assert(s@.subrange(0, s_len as int) =~= s@);
    }
    let mut b: usize = s_len;
    while b > 0 && s.get_char(b - 1) == '/'
        invariant
            b <= s_len,
            s_len == s@.len(),
            strip_trailing_slashes(s@) == strip_trailing_slashes(s@.subrange(0, b as int)),
        decreases b,
    {
        proof {
            let u = s@.subrange(0, b as int);
            assert(u[u.len() - 1] == s@[b - 1]);
            assert(u.take(u.len() - 1) =~= s@.subrange(0, b - 1));
        }
        b = b - 1;
    }
    proof {
        let u = s@.subrange(0, b as int);
        if b > 0 {
            assert(u[u.len() - 1] == s@[b - 1]);
        }
        assert(strip_trailing_slashes(u) == u);
        assert(s@.subrange(0, s_len as int) =~= s@);
    }
    let mid = s.substring_char(0, b);
    mid.to_owned()
}

/// `s` with every trailing `"/v1"` removed, as
/// `str::trim_end_matches("/v1")` leaves it.
pub open spec fn strip_trailing_v1(s: Seq<char>) -> Seq<char>
    decreases s.len(),
{
    if s.len() >= 3 && s.subrange(s.len() - 3, s.len() as int) == "/v1"@ {
        strip_trailing_v1(s.take(s.len() - 3))
    } else {
        s
    }
}

/// Executable strip of trailing `"/v1"` segments, exact against
/// `strip_trailing_v1`.
pub fn strip_v1(s: &str) -> (r: String)
    ensures
        r@ == strip_trailing_v1(s@),
{
    let s_len = s.unicode_len();
    proof {
        assert(s@.subrange(0, s_len as int) =~= s@);
    }
    let mut b: usize = s_len;
    while b >= 3 && s.get_char(b - 3) == '/' && s.get_char(b - 2) == 'v' && s.get_char(b - 1)
        == '1'
        invariant
            b <= s_len,
            s_len == s@.len(),
            strip_trailing_v1(s@) == strip_trailing_v1(s@.subrange(0, b as int)),
        decreases b,
    {
        proof {
            reveal_strlit("/v1");
            let u = s@.subrange(0, b as int);
            assert(u.subrange(u.len() - 3, u.len() as int)[0] == s@[b - 3]);
            assert(u.subrange(u.len() - 3, u.len() as int)[1] == s@[b - 2]);
            assert(u.subrange(u.len() - 3, u.len() as int)[2] == s@[b - 1]);
            assert(u.subrange(u.len() - 3, u.len() as int) =~= "/v1"@);
            assert(u.take(u.len() - 3) =~= s@.subrange(0, b - 3));
        }
        b = b - 3;
    }
    proof {
        reveal_strlit("/v1");
        let u = s@.subrange(0, b as int);
        if b >= 3 {
            assert(u.subrange(u.len() - 3, u.len() as int)[0] == s@[b - 3]);
            assert(u.subrange(u.len() - 3, u.len() as int)[1] == s@[b - 2]);
            assert(u.subrange(u.len() - 3, u.len() as int)[2] == s@[b - 1]);
            assert(u.subrange(u.len() - 3, u.len() as int) != "/v1"@);
        }
        assert(strip_trailing_v1(u) == u);
        assert(s@.subrange(0, s_len as int) =~= s@);
    }
    let mid = s.substring_char(0, b);
    mid.to_owned()
}

} // verus!
