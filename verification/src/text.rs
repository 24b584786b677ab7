//! Core text operations used by every artifact renderer: placeholder
//! replacement, joining, splitting, trimming and searching, all specified
//! over `Seq<char>`.

use vstd::prelude::*;
use vstd::string::StringExecFns;
use vstd::string::StrSliceExecFns;

verus! {

/// The pattern `pat` occurs in `s` starting at position `i`.
pub open spec fn match_at(s: Seq<char>, pat: Seq<char>, i: int) -> bool {
    0 <= i && i + pat.len() <= s.len() && s.subrange(i, i + pat.len()) == pat
}

/// `s` with every occurrence of `pat` replaced by `to`, scanning left to
/// right without overlap, as `str::replace` does for a non-empty pattern.
/// An empty pattern leaves `s` unchanged.
pub open spec fn spec_replace(s: Seq<char>, pat: Seq<char>, to: Seq<char>) -> Seq<char>
    decreases s.len(),
{
    if pat.len() == 0 || s.len() < pat.len() {
        s
    } else if s.subrange(0, pat.len() as int) == pat {
        to + spec_replace(s.skip(pat.len() as int), pat, to)
    } else {
        seq![s[0]] + spec_replace(s.skip(1), pat, to)
    }
}

proof fn lemma_skip_skip<A>(s: Seq<A>, a: int, b: int)
    requires
        0 <= a,
        0 <= b,
        a + b <= s.len(),
    ensures
        s.skip(a).skip(b) == s.skip(a + b),
{
    assert(s.skip(a).skip(b) =~= s.skip(a + b));
}

/// Whether `pat` occurs at position `i` of `s`.
pub fn matches_at(s: &Vec<char>, i: usize, pat: &Vec<char>) -> (r: bool)
    requires
        i <= s.len(),
    ensures
        r == match_at(s@, pat@, i as int),
{
    if pat.len() > s.len() - i {
        return false;
    }
    let mut j: usize = 0;
    while j < pat.len()
        invariant
            i + pat.len() <= s.len(),
            j <= pat.len(),
            forall|k: int| 0 <= k < j ==> s@[i + k] == pat@[k],
        decreases pat.len() - j,
    {
        if s[i + j] != pat[j] {
            assert(s@.subrange(i as int, i + pat@.len()) != pat@) by {
                assert(s@.subrange(i as int, i + pat@.len())[j as int] == s@[i + j]);
            }
            return false;
        }
        j += 1;
    }
    assert(s@.subrange(i as int, i + pat@.len()) =~= pat@);
    true
}

/// Appends all characters of `xs` to `out`.
pub fn append_chars(out: &mut Vec<char>, xs: &Vec<char>)
    ensures
        final(out)@ == old(out)@ + xs@,
{
    let ghost base = out@;
    let mut j: usize = 0;
    while j < xs.len()
        invariant
            j <= xs.len(),
            out@ == base + xs@.take(j as int),
        decreases xs.len() - j,
    {
        out.push(xs[j]);
        assert(base + xs@.take(j as int) + seq![xs@[j as int]] =~= base + xs@.take(j + 1));
        j += 1;
    }
    assert(base + xs@.take(xs@.len() as int) =~= base + xs@);
}

/// Replaces every occurrence of `pat` in `s` by `to`, leftmost first,
/// without overlap.
pub fn replace_chars(s: &Vec<char>, pat: &Vec<char>, to: &Vec<char>) -> (r: Vec<char>)
    ensures
        r@ == spec_replace(s@, pat@, to@),
{
    if pat.len() == 0 {
        return s.clone();
    }
    let mut out: Vec<char> = Vec::new();
    let mut i: usize = 0;
    assert(s@.skip(0) =~= s@);
    while i < s.len()
        invariant
            i <= s.len(),
            pat@.len() >= 1,
            out@ + spec_replace(s@.skip(i as int), pat@, to@) == spec_replace(s@, pat@, to@),
        decreases s.len() - i,
    {
        let ghost rest = s@.skip(i as int);
        if matches_at(s, i, pat) {
            assert(rest.subrange(0, pat@.len() as int) =~= s@.subrange(
                i as int,
                i + pat@.len(),
            ));
            append_chars(&mut out, to);
            proof {
                lemma_skip_skip(s@, i as int, pat@.len() as int);
                assert(spec_replace(rest, pat@, to@) == to@ + spec_replace(
                    s@.skip(i + pat@.len()),
                    pat@,
                    to@,
                ));
            }
            i += pat.len();
        } else {
            if pat.len() <= s.len() - i {
                assert(rest.subrange(0, pat@.len() as int) != pat@) by {
                    assert(rest.subrange(0, pat@.len() as int) =~= s@.subrange(
                        i as int,
                        i + pat@.len(),
                    ));
                }
            } else {
                assert(rest.len() < pat@.len());
            }
            out.push(s[i]);
            proof {
                lemma_skip_skip(s@, i as int, 1);
                if rest.len() < pat@.len() {
                    assert(spec_replace(rest, pat@, to@) == rest);
                    assert(spec_replace(s@.skip(i + 1), pat@, to@) == s@.skip(i + 1));
                    assert(rest =~= seq![s@[i as int]] + s@.skip(i + 1));
                } else {
                    assert(spec_replace(rest, pat@, to@) == seq![rest[0]] + spec_replace(
                        s@.skip(i + 1),
                        pat@,
                        to@,
                    ));
                    assert(rest[0] == s@[i as int]);
                }
            }
            i += 1;
        }
    }
    assert(s@.skip(s@.len() as int) =~= Seq::<char>::empty());
    assert(spec_replace(Seq::<char>::empty(), pat@, to@) == Seq::<char>::empty());
    assert(out@ + Seq::<char>::empty() =~= out@);
    out
}

/// The characters of `s`, in order.
pub fn str_chars(s: &str) -> (r: Vec<char>)
    ensures
        r@ == s@,
{
    let n = s.unicode_len();
    let mut v: Vec<char> = Vec::new();
    let mut i: usize = 0;
    while i < n
        invariant
            n == s@.len(),
            i <= n,
            v@ == s@.take(i as int),
        decreases n - i,
    {
        v.push(s.get_char(i));
        assert(s@.take(i as int).push(s@[i as int]) =~= s@.take(i + 1));
        i += 1;
    }
    assert(s@.take(n as int) =~= s@);
    v
}

/// Relies on `String::push`: appends the given character to the end of
/// the string.
#[verifier::external_body]
fn push_char(s: &mut String, c: char)
    ensures
        final(s)@ == old(s)@.push(c),
{
    s.push(c)
}

/// A `String` holding exactly the characters of `v`.
pub fn chars_str(v: &Vec<char>) -> (r: String)
    ensures
        r@ == v@,
{
    let mut out = String::new();
    let mut i: usize = 0;
    while i < v.len()
        invariant
            i <= v.len(),
            out@ == v@.take(i as int),
        decreases v.len() - i,
    {
        push_char(&mut out, v[i]);
        assert(v@.take(i as int).push(v@[i as int]) =~= v@.take(i + 1));
        i += 1;
    }
    assert(v@.take(v@.len() as int) =~= v@);
    out
}

/// `s` with every occurrence of `pat` replaced by `to`, as `str::replace`
/// does for a non-empty pattern.
pub fn replace(s: &str, pat: &str, to: &str) -> (r: String)
    ensures
        r@ == spec_replace(s@, pat@, to@),
{
    let sv = str_chars(s);
    let pv = str_chars(pat);
    let tv = str_chars(to);
    let rv = replace_chars(&sv, &pv, &tv);
    chars_str(&rv)
}

/// The parts concatenated with `sep` between consecutive parts, as
/// `[T]::join` does.
pub open spec fn spec_join(parts: Seq<Seq<char>>, sep: Seq<char>) -> Seq<char>
    decreases parts.len(),
{
    if parts.len() == 0 {
        Seq::empty()
    } else if parts.len() == 1 {
        parts[0]
    } else {
        parts[0] + sep + spec_join(parts.skip(1), sep)
    }
}

proof fn lemma_join_push(parts: Seq<Seq<char>>, sep: Seq<char>, x: Seq<char>)
    ensures
        spec_join(parts.push(x), sep) == if parts.len() == 0 {
            x
        } else {
            spec_join(parts, sep) + sep + x
        },
    decreases parts.len(),
{
    reveal_with_fuel(spec_join, 3);
    if parts.len() == 0 {
        assert(parts.push(x).len() == 1);
        assert(parts.push(x)[0] == x);
    } else if parts.len() == 1 {
        assert(parts.push(x).skip(1) =~= seq![x]);
        assert(parts.push(x)[0] == parts[0]);
    } else {
        lemma_join_push(parts.skip(1), sep, x);
        assert(parts.push(x).skip(1) =~= parts.skip(1).push(x));
        assert(parts.push(x)[0] == parts[0]);
        assert(parts[0] + sep + (spec_join(parts.skip(1), sep) + sep + x) =~= (parts[0] + sep
            + spec_join(parts.skip(1), sep)) + sep + x);
    }
}

/// The strings of `parts` joined with `sep` between consecutive elements.
pub fn join_strings(parts: &Vec<String>, sep: &str) -> (r: String)
    ensures
        r@ == spec_join(parts.deep_view(), sep@),
{
    let mut out = String::new();
    let mut k: usize = 0;
    while k < parts.len()
        invariant
            k <= parts.len(),
            parts.deep_view().len() == parts@.len(),
            forall|i: int| 0 <= i < parts@.len() ==> parts.deep_view()[i] == parts@[i]@,
            out@ == spec_join(parts.deep_view().take(k as int), sep@),
        decreases parts.len() - k,
    {
        if k > 0 {
            out.append(sep);
        }
        out.append(parts[k].as_str());
        proof {
            let dv = parts.deep_view();
            lemma_join_push(dv.take(k as int), sep@, dv[k as int]);
            assert(dv.take(k as int).push(dv[k as int]) =~= dv.take(k + 1));
        }
        k += 1;
    }
    assert(parts.deep_view().take(parts@.len() as int) =~= parts.deep_view());
    out
}

/// `n` copies of `c`, as `str::repeat` on a one-character string.
pub open spec fn spec_repeat_char(c: char, n: nat) -> Seq<char>
    decreases n,
{
    if n == 0 {
        Seq::empty()
    } else {
        spec_repeat_char(c, (n - 1) as nat).push(c)
    }
}

/// A string of `n` copies of `c`.
pub fn repeat_char(c: char, n: usize) -> (r: String)
    ensures
        r@ == spec_repeat_char(c, n as nat),
{
    let mut out = String::new();
    let mut k: usize = 0;
    while k < n
        invariant
            k <= n,
            out@ == spec_repeat_char(c, k as nat),
        decreases n - k,
    {
        push_char(&mut out, c);
        k += 1;
    }
    out
}

/// The pattern `pat` occurs somewhere in `s`.
pub open spec fn spec_contains(s: Seq<char>, pat: Seq<char>) -> bool {
    exists|i: int| match_at(s, pat, i)
}

/// Whether `pat` occurs in `s`, as `str::contains`.
pub fn contains_str(s: &str, pat: &str) -> (r: bool)
    ensures
        r == spec_contains(s@, pat@),
{
    let sv = str_chars(s);
    let pv = str_chars(pat);
    if pv.len() > sv.len() {
        assert(forall|i: int| !match_at(s@, pat@, i));
        return false;
    }
    if pv.len() == 0 {
        assert(match_at(s@, pat@, 0)) by {
            assert(s@.subrange(0, 0) =~= pat@);
        }
        return true;
    }
    let n = sv.len() - pv.len();
    let mut i: usize = 0;
    while i <= n
        invariant
            1 <= pv@.len() <= sv@.len(),
            sv@.len() <= usize::MAX,
            n == sv@.len() - pv@.len(),
            sv@ == s@,
            pv@ == pat@,
            i <= n + 1,
            forall|j: int| 0 <= j < i ==> !match_at(s@, pat@, j),
        decreases n + 1 - i,
    {
        if matches_at(&sv, i, &pv) {
            assert(match_at(s@, pat@, i as int));
            return true;
        }
        i += 1;
    }
    assert(forall|j: int| !match_at(s@, pat@, j)) by {
        assert(forall|j: int| j > n ==> !match_at(s@, pat@, j));
    }
    false
}

/// Whether `s` begins with `pat`, as `str::starts_with`.
pub fn starts_with_str(s: &str, pat: &str) -> (r: bool)
    ensures
        r == match_at(s@, pat@, 0),
{
    let sv = str_chars(s);
    let pv = str_chars(pat);
    matches_at(&sv, 0, &pv)
}

/// The suffix of `s` after the last occurrence of `c`; all of `s` when `c`
/// does not occur. This is what `split(c).last()` yields.
pub open spec fn spec_after_last(s: Seq<char>, c: char) -> Seq<char>
    decreases s.len(),
{
    if s.len() == 0 {
        s
    } else if s[s.len() - 1] == c {
        Seq::empty()
    } else {
        spec_after_last(s.take(s.len() - 1), c).push(s[s.len() - 1])
    }
}

proof fn lemma_after_last_none(s: Seq<char>, c: char)
    requires
        forall|k: int| 0 <= k < s.len() ==> s[k] != c,
    ensures
        spec_after_last(s, c) == s,
    decreases s.len(),
{
    if s.len() > 0 {
        lemma_after_last_none(s.take(s.len() - 1), c);
        assert(s.take(s.len() - 1).push(s[s.len() - 1]) =~= s);
    }
}

proof fn lemma_after_last_at(s: Seq<char>, c: char, j: int)
    requires
        0 <= j < s.len(),
        s[j] == c,
        forall|k: int| j < k < s.len() ==> s[k] != c,
    ensures
        spec_after_last(s, c) == s.skip(j + 1),
    decreases s.len(),
{
    if j == s.len() - 1 {
        assert(s.skip(j + 1) =~= Seq::<char>::empty());
    } else {
        let t = s.take(s.len() - 1);
        assert(t[j] == c);
        lemma_after_last_at(t, c, j);
        assert(t.skip(j + 1).push(s[s.len() - 1]) =~= s.skip(j + 1));
    }
}

/// The suffix of `s` after the last occurrence of `c`; all of `s` when `c`
/// does not occur.
pub fn after_last(s: &str, c: char) -> (r: String)
    ensures
        r@ == spec_after_last(s@, c),
{
    let sv = str_chars(s);
    let mut i: usize = sv.len();
    while i > 0
        invariant
            sv@ == s@,
            i <= sv@.len(),
            forall|k: int| i <= k < sv@.len() ==> sv@[k] != c,
        decreases i,
    {
        if sv[i - 1] == c {
            let mut out: Vec<char> = Vec::new();
            let mut k: usize = i;
            while k < sv.len()
                invariant
                    sv@ == s@,
                    i <= k <= sv@.len(),
                    out@ == sv@.subrange(i as int, k as int),
                decreases sv.len() - k,
            {
                out.push(sv[k]);
                assert(sv@.subrange(i as int, k as int).push(sv@[k as int]) =~= sv@.subrange(
                    i as int,
                    k + 1,
                ));
                k += 1;
            }
            proof {
                lemma_after_last_at(s@, c, i - 1);
                assert(s@.subrange(i as int, s@.len() as int) =~= s@.skip(i as int));
            }
            return chars_str(&out);
        }
        i -= 1;
    }
    proof {
        lemma_after_last_none(s@, c);
    }
    s.to_owned()
}

/// The position of the first occurrence of `c` in `s`, or `-1` when `c`
/// does not occur.
pub open spec fn first_occ(s: Seq<char>, c: char) -> int
    decreases s.len(),
{
    if s.len() == 0 {
        -1
    } else if s[0] == c {
        0
    } else {
        let r = first_occ(s.skip(1), c);
        if r < 0 {
            -1
        } else {
            r + 1
        }
    }
}

proof fn lemma_first_occ_found(s: Seq<char>, c: char, i: int)
    requires
        0 <= i < s.len(),
        s[i] == c,
        forall|k: int| 0 <= k < i ==> s[k] != c,
    ensures
        first_occ(s, c) == i,
    decreases i,
{
    if i > 0 {
        lemma_first_occ_found(s.skip(1), c, i - 1);
    }
}

proof fn lemma_first_occ_none(s: Seq<char>, c: char)
    requires
        forall|k: int| 0 <= k < s.len() ==> s[k] != c,
    ensures
        first_occ(s, c) == -1,
    decreases s.len(),
{
    if s.len() > 0 {
        lemma_first_occ_none(s.skip(1), c);
    }
}

/// The position of the first occurrence of `c` in `s`, when there is one.
pub fn find_char(s: &Vec<char>, c: char) -> (r: Option<usize>)
    ensures
        match r {
            Some(i) => first_occ(s@, c) == i as int && i < s@.len(),
            None => first_occ(s@, c) == -1,
        },
{
    let mut i: usize = 0;
    while i < s.len()
        invariant
            i <= s@.len(),
            forall|k: int| 0 <= k < i ==> s@[k] != c,
        decreases s.len() - i,
    {
        if s[i] == c {
            proof {
                lemma_first_occ_found(s@, c, i as int);
            }
            return Some(i);
        }
        i += 1;
    }
    proof {
        lemma_first_occ_none(s@, c);
    }
    None
}

/// Whether the character counts as whitespace for trimming. Relies on
/// `char::is_whitespace`: the `White_Space` property of the character
/// alone.
pub uninterp spec fn is_white_space(c: char) -> bool;

/// Relies on `char::is_whitespace`: true exactly of characters with the
/// Unicode `White_Space` property.
#[verifier::external_body]
fn char_is_whitespace(c: char) -> (r: bool)
    ensures
        r == is_white_space(c),
{
    c.is_whitespace()
}

/// `s` without leading whitespace.
pub open spec fn spec_trim_start(s: Seq<char>) -> Seq<char>
    decreases s.len(),
{
    if s.len() > 0 && is_white_space(s[0]) {
        spec_trim_start(s.skip(1))
    } else {
        s
    }
}

/// `s` without trailing whitespace.
pub open spec fn spec_trim_end(s: Seq<char>) -> Seq<char>
    decreases s.len(),
{
    if s.len() > 0 && is_white_space(s[s.len() - 1]) {
        spec_trim_end(s.take(s.len() - 1))
    } else {
        s
    }
}

/// `s` without leading and trailing whitespace, as `str::trim`.
pub open spec fn spec_trim(s: Seq<char>) -> Seq<char> {
    spec_trim_end(spec_trim_start(s))
}

proof fn lemma_trim_start_skip(s: Seq<char>, a: int)
    requires
        0 <= a <= s.len(),
        forall|k: int| 0 <= k < a ==> is_white_space(s[k]),
        a < s.len() ==> !is_white_space(s[a]),
    ensures
        spec_trim_start(s) == s.skip(a),
    decreases a,
{
    if a == 0 {
        assert(s.skip(0) =~= s);
    } else {
        lemma_trim_start_skip(s.skip(1), a - 1);
        assert(s.skip(1).skip(a - 1) =~= s.skip(a));
    }
}

proof fn lemma_trim_end_take(s: Seq<char>, b: int)
    requires
        0 <= b <= s.len(),
        forall|k: int| b <= k < s.len() ==> is_white_space(s[k]),
        b > 0 ==> !is_white_space(s[b - 1]),
    ensures
        spec_trim_end(s) == s.take(b),
    decreases s.len(),
{
    if b == s.len() {
        assert(s.take(b) =~= s);
    } else {
        lemma_trim_end_take(s.take(s.len() - 1), b);
        assert(s.take(s.len() - 1).take(b) =~= s.take(b));
    }
}

/// `s` without leading and trailing whitespace.
pub fn trim_chars(s: &Vec<char>) -> (r: Vec<char>)
    ensures
        r@ == spec_trim(s@),
{
    let mut a: usize = 0;
    while a < s.len() && char_is_whitespace(s[a])
        invariant
            a <= s@.len(),
            forall|k: int| 0 <= k < a ==> is_white_space(s@[k]),
        decreases s.len() - a,
    {
        a += 1;
    }
    proof {
        lemma_trim_start_skip(s@, a as int);
    }
    let ghost t = s@.skip(a as int);
    let mut b: usize = s.len();
    while b > a && char_is_whitespace(s[b - 1])
        invariant
            a <= b <= s@.len(),
            forall|k: int| b <= k < s@.len() ==> is_white_space(s@[k]),
        decreases b,
    {
        b -= 1;
    }
    proof {
        assert(forall|k: int| b - a <= k < t.len() ==> is_white_space(#[trigger] t[k]));
        assert(b - a > 0 ==> !is_white_space(t[b - a - 1]));
        lemma_trim_end_take(t, b - a);
    }
    let mut out: Vec<char> = Vec::new();
    let mut k: usize = a;
    while k < b
        invariant
            a <= k <= b <= s@.len(),
            out@ == s@.subrange(a as int, k as int),
        decreases b - k,
    {
        out.push(s[k]);
        assert(s@.subrange(a as int, k as int).push(s@[k as int]) =~= s@.subrange(a as int, k + 1));
        k += 1;
    }
    assert(out@ =~= t.take(b - a));
    out
}

/// `s` without leading and trailing whitespace, as `str::trim`.
pub fn trim_str(s: &str) -> (r: String)
    ensures
        r@ == spec_trim(s@),
{
    let sv = str_chars(s);
    let tv = trim_chars(&sv);
    chars_str(&tv)
}

/// The suffix of `s` from position `from`.
pub fn suffix_chars(s: &Vec<char>, from: usize) -> (r: Vec<char>)
    requires
        from <= s.len(),
    ensures
        r@ == s@.skip(from as int),
{
    let mut out: Vec<char> = Vec::new();
    let mut k: usize = from;
    while k < s.len()
        invariant
            from <= k <= s@.len(),
            out@ == s@.subrange(from as int, k as int),
        decreases s.len() - k,
    {
        out.push(s[k]);
        assert(s@.subrange(from as int, k as int).push(s@[k as int]) =~= s@.subrange(
            from as int,
            k + 1,
        ));
        k += 1;
    }
    assert(out@ =~= s@.skip(from as int));
    out
}

/// The parts of `s` between occurrences of `sep`, as `str::split` with a
/// character separator: always at least one part, with empty parts for
/// leading, trailing and doubled separators.
pub open spec fn spec_split(s: Seq<char>, sep: char) -> Seq<Seq<char>>
    decreases s.len(),
{
    if s.len() == 0 {
        seq![Seq::empty()]
    } else if s[0] == sep {
        seq![Seq::<char>::empty()] + spec_split(s.skip(1), sep)
    } else {
        let rest = spec_split(s.skip(1), sep);
        seq![seq![s[0]] + rest[0]] + rest.skip(1)
    }
}

proof fn lemma_split_nonempty(s: Seq<char>, sep: char)
    ensures
        spec_split(s, sep).len() >= 1,
    decreases s.len(),
{
    if s.len() > 0 {
        lemma_split_nonempty(s.skip(1), sep);
    }
}

/// The parts of `s` between occurrences of `sep`.
pub fn split_str(s: &str, sep: char) -> (r: Vec<String>)
    ensures
        r.deep_view() == spec_split(s@, sep),
{
    let sv = str_chars(s);
    let mut parts: Vec<String> = Vec::new();
    let mut cur: Vec<char> = Vec::new();
    let mut i: usize = 0;
    assert(sv@.skip(0) =~= sv@);
    while i < sv.len()
        invariant
            sv@ == s@,
            i <= s@.len(),
            spec_split(s@, sep) == parts.deep_view() + seq![
                cur@ + spec_split(s@.skip(i as int), sep)[0],
            ] + spec_split(s@.skip(i as int), sep).skip(1),
        decreases sv.len() - i,
    {
        let ghost parts_before = parts.deep_view();
        let ghost cur_before = cur@;
        let ghost rest = spec_split(s@.skip(i as int), sep);
        let ghost rest_next = spec_split(s@.skip(i + 1), sep);
        proof {
            assert(s@.skip(i as int).skip(1) =~= s@.skip(i + 1));
            lemma_split_nonempty(s@.skip(i + 1), sep);
        }
        if sv[i] == sep {
            let done = chars_str(&cur);
            parts.push(done);
            cur = Vec::new();
            proof {
                assert(rest == seq![Seq::<char>::empty()] + rest_next);
                assert(parts.deep_view() =~= parts_before.push(cur_before));
                assert(rest[0] =~= Seq::<char>::empty());
                assert(cur_before + rest[0] =~= cur_before);
                assert(rest.skip(1) =~= rest_next);
                assert(parts_before + seq![cur_before] + (seq![rest_next[0]] + rest_next.skip(1))
                    =~= parts_before.push(cur_before) + seq![Seq::<char>::empty() + rest_next[0]]
                    + rest_next.skip(1));
                assert(seq![rest_next[0]] + rest_next.skip(1) =~= rest_next);
            }
        } else {
            cur.push(sv[i]);
            proof {
                assert(rest == seq![seq![s@[i as int]] + rest_next[0]] + rest_next.skip(1));
                assert(cur_before + (seq![s@[i as int]] + rest_next[0]) =~= cur@ + rest_next[0]);
                assert(parts_before + seq![cur_before + rest[0]] + rest.skip(1) =~= parts_before
                    + seq![cur@ + rest_next[0]] + rest_next.skip(1));
            }
        }
        i += 1;
    }
    proof {
        assert(s@.skip(s@.len() as int) =~= Seq::<char>::empty());
        assert(spec_split(Seq::<char>::empty(), sep) == seq![Seq::<char>::empty()]);
    }
    let done = chars_str(&cur);
    parts.push(done);
    proof {
        let rest = spec_split(Seq::<char>::empty(), sep);
        assert(rest.skip(1) =~= Seq::<Seq<char>>::empty());
        assert(cur@ + rest[0] =~= cur@);
        assert(spec_split(s@, sep) =~= parts.deep_view());
    }
    parts
}

/// The decimal digit character for `d`.
pub open spec fn spec_digit(d: nat) -> char {
    if d == 0 {
        '0'
    } else if d == 1 {
        '1'
    } else if d == 2 {
        '2'
    } else if d == 3 {
        '3'
    } else if d == 4 {
        '4'
    } else if d == 5 {
        '5'
    } else if d == 6 {
        '6'
    } else if d == 7 {
        '7'
    } else if d == 8 {
        '8'
    } else {
        '9'
    }
}

/// The decimal digits of `n`, most significant first.
pub open spec fn spec_nat_str(n: nat) -> Seq<char>
    decreases n,
{
    if n < 10 {
        seq![spec_digit(n)]
    } else {
        spec_nat_str(n / 10).push(spec_digit(n % 10))
    }
}

/// `n` in decimal, with a leading minus sign when negative, as integers
/// format with `{}`.
pub open spec fn spec_i64_str(n: int) -> Seq<char> {
    if n < 0 {
        seq!['-'] + spec_nat_str((-n) as nat)
    } else {
        spec_nat_str(n as nat)
    }
}

fn digit_char(d: u64) -> (c: char)
    requires
        d < 10,
    ensures
        c == spec_digit(d as nat),
{
    if d == 0 {
        '0'
    } else if d == 1 {
        '1'
    } else if d == 2 {
        '2'
    } else if d == 3 {
        '3'
    } else if d == 4 {
        '4'
    } else if d == 5 {
        '5'
    } else if d == 6 {
        '6'
    } else if d == 7 {
        '7'
    } else if d == 8 {
        '8'
    } else {
        '9'
    }
}

/// The decimal digits of `n`, most significant first.
pub fn u64_chars(n: u64) -> (r: Vec<char>)
    ensures
        r@ == spec_nat_str(n as nat),
    decreases n,
{
    if n < 10 {
        let mut v: Vec<char> = Vec::new();
        v.push(digit_char(n));
        assert(v@ =~= seq![spec_digit(n as nat)]);
        v
    } else {
        let mut v = u64_chars(n / 10);
        v.push(digit_char(n % 10));
        v
    }
}

/// `n` in decimal, as `i64` formats with `{}`.
pub fn i64_str(n: i64) -> (r: String)
    ensures
        r@ == spec_i64_str(n as int),
{
    if n >= 0 {
        let v = u64_chars(n as u64);
        chars_str(&v)
    } else {
        let wide: i128 = n as i128;
        let m: u64 = (-wide) as u64;
        assert(m as int == -(n as int));
        let mut v: Vec<char> = Vec::new();
        v.push('-');
        let ds = u64_chars(m);
        append_chars(&mut v, &ds);
        assert(v@ =~= seq!['-'] + spec_nat_str((-(n as int)) as nat));
        chars_str(&v)
    }
}

} // verus!
