//! Verified text utilities over `Seq<char>` views: substring search,
//! ASCII-case-insensitive search, line splitting and whitespace
//! tokenization as the standard library defines them.

use vstd::prelude::*;
use vstd::string::*;

verus! {

/// The characters `char::is_whitespace` accepts.
pub open spec fn is_space(c: char) -> bool {
    ||| c == ' '
    ||| c == '\t'
    ||| c == '\n'
    ||| c == '\r'
    ||| c == '\u{000B}'
    ||| c == '\u{000C}'
    ||| c == '\u{0085}'
    ||| c == '\u{00A0}'
    ||| c == '\u{1680}'
    ||| ('\u{2000}' <= c && c <= '\u{200A}')
    ||| c == '\u{2028}'
    ||| c == '\u{2029}'
    ||| c == '\u{202F}'
    ||| c == '\u{205F}'
    ||| c == '\u{3000}'
}

/// Executable test for `is_space`.
pub fn is_space_char(c: char) -> (r: bool)
    ensures
        r == is_space(c),
{
    c == ' ' || c == '\t' || c == '\n' || c == '\r' || c == '\u{000B}' || c == '\u{000C}'
        || c == '\u{0085}' || c == '\u{00A0}' || c == '\u{1680}' || ('\u{2000}' <= c && c
        <= '\u{200A}') || c == '\u{2028}' || c == '\u{2029}' || c == '\u{202F}' || c == '\u{205F}'
        || c == '\u{3000}'
}

/// `needle` occurs in `hay` starting at position `i`.
pub open spec fn matches_at(hay: Seq<char>, needle: Seq<char>, i: int) -> bool {
    &&& 0 <= i
    &&& i + needle.len() <= hay.len()
    &&& hay.subrange(i, i + needle.len()) == needle
}

/// `needle` occurs somewhere in `hay`; what `str::contains` decides.
pub open spec fn contains_seq(hay: Seq<char>, needle: Seq<char>) -> bool {
    exists|i: int| matches_at(hay, needle, i)
}

/// Executable substring search, quadratic but exact.
pub fn contains_str(hay: &str, needle: &str) -> (r: bool)
    ensures
        r == contains_seq(hay@, needle@),
{
    let n = hay.unicode_len();
    let m = needle.unicode_len();
    if m > n {
        assert(forall|i: int| !matches_at(hay@, needle@, i));
        return false;
    }
    let mut i: usize = 0;
    while i <= n - m
        invariant
            m <= n <= usize::MAX,
            i <= n - m + 1,
            forall|j: int| 0 <= j < i ==> !matches_at(hay@, needle@, j),
            n == hay@.len(),
            m == needle@.len(),
        decreases n - m - i + 1,
    {
        let mut k: usize = 0;
        let mut all_eq = true;
        while k < m
            invariant
                i + m <= n,
                k <= m,
                n == hay@.len(),
                m == needle@.len(),
                all_eq == (forall|t: int| 0 <= t < k ==> hay@[i + t] == needle@[t]),
            decreases m - k,
        {
            if hay.get_char(i + k) != needle.get_char(k) {
                assert(hay@[i + k as int] != needle@[k as int]);
                all_eq = false;
                k = m;
            } else {
                proof {
                    let ghost kk = k as int;
                    assert(all_eq ==> (forall|t: int|
                        0 <= t < kk + 1 ==> hay@[i + t] == needle@[t])) by {
                        assert(hay@[i + kk] == needle@[kk]);
                    }
                }
                k = k + 1;
            }
        }
        if all_eq {
            assert(matches_at(hay@, needle@, i as int)) by {
                assert(hay@.subrange(i as int, i + needle@.len()) =~= needle@);
            }
            return true;
        }
        assert(!matches_at(hay@, needle@, i as int)) by {
            let t = choose|t: int| 0 <= t < m && hay@[i + t] != needle@[t];
            assert(hay@.subrange(i as int, i + needle@.len()) != needle@) by {
                assert(hay@.subrange(i as int, i + needle@.len())[t] == hay@[i + t]);
            }
        }
        i = i + 1;
    }
    proof {
        assert(forall|j: int| !matches_at(hay@, needle@, j)) by {
            assert(forall|j: int| j > n - m ==> !matches_at(hay@, needle@, j));
        }
    }
    false
}

/// The code point of `c` with an ASCII capital folded to lower case.
pub open spec fn lower_code(c: char) -> int {
    if 'A' <= c && c <= 'Z' {
        c as int + 32
    } else {
        c as int
    }
}

/// Executable `lower_code`.
pub fn lower_code_of(c: char) -> (r: u32)
    ensures
        r as int == lower_code(c),
{
    if 'A' <= c && c <= 'Z' {
        c as u32 + 32
    } else {
        c as u32
    }
}

/// `needle` occurs in `hay` at `i` up to ASCII case.
pub open spec fn matches_at_ci(hay: Seq<char>, needle: Seq<char>, i: int) -> bool {
    &&& 0 <= i
    &&& i + needle.len() <= hay.len()
    &&& forall|t: int| 0 <= t < needle.len() ==> lower_code(hay[i + t]) == lower_code(needle[t])
}

/// `needle` occurs somewhere in `hay` up to ASCII case; what
/// `str::contains` decides after both sides are lower-cased, for
/// needles without characters that fold across the ASCII border.
pub open spec fn contains_seq_ci(hay: Seq<char>, needle: Seq<char>) -> bool {
    exists|i: int| matches_at_ci(hay, needle, i)
}

/// Executable case-insensitive substring search.
pub fn contains_str_ci(hay: &str, needle: &str) -> (r: bool)
    ensures
        r == contains_seq_ci(hay@, needle@),
{
    let n = hay.unicode_len();
    let m = needle.unicode_len();
    if m > n {
        assert(forall|i: int| !matches_at_ci(hay@, needle@, i));
        return false;
    }
    let mut i: usize = 0;
    while i <= n - m
        invariant
            m <= n <= usize::MAX,
            i <= n - m + 1,
            forall|j: int| 0 <= j < i ==> !matches_at_ci(hay@, needle@, j),
            n == hay@.len(),
            m == needle@.len(),
        decreases n - m - i + 1,
    {
        let mut k: usize = 0;
        let mut all_eq = true;
        while k < m
            invariant
                i + m <= n,
                k <= m,
                n == hay@.len(),
                m == needle@.len(),
                all_eq == (forall|t: int|
                    0 <= t < k ==> lower_code(hay@[i + t]) == lower_code(needle@[t])),
            decreases m - k,
        {
            if lower_code_of(hay.get_char(i + k)) != lower_code_of(needle.get_char(k)) {
                all_eq = false;
                k = m;
            } else {
                proof {
                    let ghost kk = k as int;
                    assert(all_eq ==> (forall|t: int|
                        0 <= t < kk + 1 ==> lower_code(hay@[i + t]) == lower_code(needle@[t])))
                        by {
                        assert(lower_code(hay@[i + kk]) == lower_code(needle@[kk]));
                    }
                }
                k = k + 1;
            }
        }
        if all_eq {
            assert(matches_at_ci(hay@, needle@, i as int));
            return true;
        }
        i = i + 1;
    }
    assert(forall|j: int| j > n - m ==> !matches_at_ci(hay@, needle@, j));
    false
}

/// `s` begins with `prefix`.
pub open spec fn starts_with_seq(s: Seq<char>, prefix: Seq<char>) -> bool {
    matches_at(s, prefix, 0)
}

/// Executable prefix test.
pub fn starts_with_str(s: &str, prefix: &str) -> (r: bool)
    ensures
        r == starts_with_seq(s@, prefix@),
{
    let n = s.unicode_len();
    let m = prefix.unicode_len();
    if m > n {
        return false;
    }
    let mut k: usize = 0;
    while k < m
        invariant
            m <= n,
            k <= m,
            n == s@.len(),
            m == prefix@.len(),
            forall|t: int| 0 <= t < k ==> s@[t] == prefix@[t],
        decreases m - k,
    {
        if s.get_char(k) != prefix.get_char(k) {
            assert(s@.subrange(0, prefix@.len() as int)[k as int] == s@[k as int]);
            return false;
        }
        k = k + 1;
    }
    assert(s@.subrange(0, prefix@.len() as int) =~= prefix@);
    true
}

/// `s` begins with `prefix` up to ASCII case.
pub open spec fn starts_with_seq_ci(s: Seq<char>, prefix: Seq<char>) -> bool {
    matches_at_ci(s, prefix, 0)
}

/// Executable case-insensitive prefix test.
pub fn starts_with_str_ci(s: &str, prefix: &str) -> (r: bool)
    ensures
        r == starts_with_seq_ci(s@, prefix@),
{
    let n = s.unicode_len();
    let m = prefix.unicode_len();
    if m > n {
        return false;
    }
    let mut k: usize = 0;
    while k < m
        invariant
            m <= n,
            k <= m,
            n == s@.len(),
            m == prefix@.len(),
            forall|t: int| 0 <= t < k ==> lower_code(s@[t]) == lower_code(prefix@[t]),
        decreases m - k,
    {
        if lower_code_of(s.get_char(k)) != lower_code_of(prefix.get_char(k)) {
            return false;
        }
        k = k + 1;
    }
    true
}

/// The number of leading whitespace characters of `s`.
pub open spec fn leading_spaces(s: Seq<char>) -> int
    decreases s.len(),
{
    if s.len() == 0 || !is_space(s[0]) {
        0
    } else {
        1 + leading_spaces(s.drop_first())
    }
}

/// The number of trailing whitespace characters of `s`.
pub open spec fn trailing_spaces(s: Seq<char>) -> int
    decreases s.len(),
{
    if s.len() == 0 || !is_space(s.last()) {
        0
    } else {
        1 + trailing_spaces(s.drop_last())
    }
}

/// What `str::trim` returns: `s` without leading and trailing whitespace.
pub open spec fn spec_trim(s: Seq<char>) -> Seq<char> {
    if leading_spaces(s) == s.len() {
        Seq::empty()
    } else {
        s.subrange(leading_spaces(s), s.len() - trailing_spaces(s))
    }
}

proof fn lemma_leading_spaces_bound(s: Seq<char>, k: int)
    requires
        0 <= k <= s.len(),
        forall|t: int| 0 <= t < k ==> is_space(s[t]),
        k < s.len() ==> !is_space(s[k]),
    ensures
        leading_spaces(s) == k,
    decreases s.len(),
{
    if s.len() == 0 {
    } else if k == 0 {
    } else {
        lemma_leading_spaces_bound(s.drop_first(), k - 1);
    }
}

proof fn lemma_trailing_spaces_bound(s: Seq<char>, k: int)
    requires
        0 <= k <= s.len(),
        forall|t: int| s.len() - k <= t < s.len() ==> is_space(s[t]),
        k < s.len() ==> !is_space(s[s.len() - k - 1]),
    ensures
        trailing_spaces(s) == k,
    decreases s.len(),
{
    if s.len() == 0 {
    } else if k == 0 {
    } else {
        lemma_trailing_spaces_bound(s.drop_last(), k - 1);
    }
}

/// Executable `str::trim`.
pub fn trim_of<'a>(s: &'a str) -> (r: &'a str)
    ensures
        r@ == spec_trim(s@),
{
    let n = s.unicode_len();
    let mut a: usize = 0;
    while a < n && is_space_char(s.get_char(a))
        invariant
            a <= n,
            n == s@.len(),
            forall|t: int| 0 <= t < a ==> is_space(s@[t]),
        decreases n - a,
    {
        a = a + 1;
    }
    proof {
        lemma_leading_spaces_bound(s@, a as int);
    }
    if a == n {
        assert(spec_trim(s@) =~= Seq::<char>::empty());
        let r = s.substring_char(n, n);
        assert(r@ =~= Seq::<char>::empty());
        return r;
    }
    let mut b: usize = n;
    while b > a && is_space_char(s.get_char(b - 1))
        invariant
            a <= b <= n,
            n == s@.len(),
            a < n,
            !is_space(s@[a as int]),
            forall|t: int| b <= t < n ==> is_space(s@[t]),
        decreases b,
    {
        b = b - 1;
    }
    proof {
        if b == a {
            assert(!is_space(s@[b as int]));
        }
        lemma_trailing_spaces_bound(s@, (n - b) as int);
    }
    s.substring_char(a, b)
}

/// `s` split at every `'\n'`; the separators are dropped and the result
/// always holds one piece more than `s` holds newlines.
pub open spec fn split_on_nl(s: Seq<char>) -> Seq<Seq<char>>
    decreases s.len(),
{
    if s.len() == 0 {
        seq![Seq::<char>::empty()]
    } else {
        let prev = split_on_nl(s.drop_last());
        if s.last() == '\n' {
            prev.push(Seq::empty())
        } else {
            prev.update(prev.len() - 1, prev.last().push(s.last()))
        }
    }
}

/// A line with one trailing carriage return removed.
pub open spec fn strip_cr(p: Seq<char>) -> Seq<char> {
    if p.len() > 0 && p.last() == '\r' {
        p.drop_last()
    } else {
        p
    }
}

/// What `str::lines` yields: pieces between newlines, each without a
/// trailing `'\r'`, and no empty piece after a final newline.
pub open spec fn spec_lines(s: Seq<char>) -> Seq<Seq<char>> {
    let ps = split_on_nl(s);
    let qs = if ps.last().len() == 0 {
        ps.drop_last()
    } else {
        ps
    };
    qs.map_values(|p: Seq<char>| strip_cr(p))
}

/// One line of `s`, from `start` up to the newline at `end`, with a
/// trailing carriage return removed.
fn line_piece(s: &str, start: usize, end: usize) -> (r: String)
    requires
        start <= end <= s@.len(),
    ensures
        r@ == strip_cr(s@.subrange(start as int, end as int)),
{
    let e = if end > start && s.get_char(end - 1) == '\r' {
        end - 1
    } else {
        end
    };
    proof {
        let p = s@.subrange(start as int, end as int);
        if end > start && s@[end - 1] == '\r' {
            assert(p.last() == '\r');
            assert(p.drop_last() =~= s@.subrange(start as int, e as int));
        } else {
            if end > start {
                assert(p.last() == s@[end - 1]);
            }
        }
    }
    s.substring_char(start, e).to_owned()
}

/// Executable `str::lines`.
pub fn lines_of(s: &str) -> (r: Vec<String>)
    ensures
        r.deep_view() == spec_lines(s@),
{
    let n = s.unicode_len();
    let mut out: Vec<String> = Vec::new();
    let mut start: usize = 0;
    let mut i: usize = 0;
    proof {
        assert(s@.subrange(0, 0) =~= Seq::<char>::empty());
    }
    while i < n
        invariant
            start <= i <= n,
            n == s@.len(),
            split_on_nl(s@.subrange(0, i as int)).len() == out.len() + 1,
            out.deep_view() == split_on_nl(s@.subrange(0, i as int)).drop_last().map_values(
                |p: Seq<char>| strip_cr(p),
            ),
            split_on_nl(s@.subrange(0, i as int)).last() == s@.subrange(start as int, i as int),
        decreases n - i,
    {
        let ghost pre = s@.subrange(0, i as int);
        let ghost post = s@.subrange(0, i + 1);
        proof {
            assert(post.drop_last() =~= pre);
            assert(post.last() == s@[i as int]);
        }
        if s.get_char(i) == '\n' {
            let piece = line_piece(s, start, i);
            out.push(piece);
            proof {
                assert(split_on_nl(post) == split_on_nl(pre).push(Seq::<char>::empty()));
                assert(split_on_nl(post).drop_last() =~= split_on_nl(pre));
                assert(out.deep_view() =~= split_on_nl(post).drop_last().map_values(
                    |p: Seq<char>| strip_cr(p),
                )) by {
                    let f = |p: Seq<char>| strip_cr(p);
                    let old_done = split_on_nl(pre).drop_last();
                    assert(split_on_nl(pre) =~= old_done.push(s@.subrange(
                        start as int,
                        i as int,
                    )));
                    assert forall|t: int| 0 <= t < out.len() implies out.deep_view()[t]
                        == split_on_nl(pre).map_values(f)[t] by {
                        if t < out.len() - 1 {
                            assert(out.deep_view()[t] == old_done.map_values(f)[t]);
                        }
                    }
                }
                assert(split_on_nl(post).last() =~= s@.subrange(i + 1, i + 1));
            }
            start = i + 1;
        } else {
            proof {
                let prev = split_on_nl(pre);
                assert(split_on_nl(post) == prev.update(
                    prev.len() - 1,
                    prev.last().push(s@[i as int]),
                ));
                assert(split_on_nl(post).drop_last() =~= prev.drop_last());
                assert(split_on_nl(post).last() == prev.last().push(s@[i as int]));
                assert(s@.subrange(start as int, i as int).push(s@[i as int]) =~= s@.subrange(
                    start as int,
                    i + 1,
                ));
            }
        }
        i = i + 1;
    }
    proof {
        assert(s@.subrange(0, n as int) =~= s@);
    }
    if start < n {
        let piece = line_piece(s, start, n);
        out.push(piece);
        proof {
            let f = |p: Seq<char>| strip_cr(p);
            let ps = split_on_nl(s@);
            assert(ps.last().len() > 0);
            assert(out.deep_view() =~= ps.map_values(f)) by {
                assert forall|t: int| 0 <= t < out.len() implies out.deep_view()[t]
                    == ps.map_values(f)[t] by {
                    if t < out.len() - 1 {
                        assert(out.deep_view()[t] == ps.drop_last().map_values(f)[t]);
                    }
                }
            }
        }
    } else {
        proof {
            let ps = split_on_nl(s@);
            assert(ps.last() =~= Seq::<char>::empty());
        }
    }
    out
}

/// What `str::split_whitespace` yields: the maximal runs of
/// non-whitespace characters, in order.
pub open spec fn spec_tokens(s: Seq<char>) -> Seq<Seq<char>>
    decreases s.len(),
{
    if s.len() == 0 {
        Seq::empty()
    } else {
        let prev = spec_tokens(s.drop_last());
        let c = s.last();
        if is_space(c) {
            prev
        } else if s.len() >= 2 && !is_space(s[s.len() - 2]) {
            prev.update(prev.len() - 1, prev.last().push(c))
        } else {
            prev.push(seq![c])
        }
    }
}

/// A string with a non-whitespace character has at least one token.
pub proof fn lemma_tokens_nonempty(s: Seq<char>)
    requires
        exists|t: int| 0 <= t < s.len() && !is_space(s[t]),
    ensures
        spec_tokens(s).len() >= 1,
    decreases s.len(),
{
    let t = choose|t: int| 0 <= t < s.len() && !is_space(s[t]);
    if t == s.len() - 1 {
        if s.len() >= 2 && !is_space(s[s.len() - 2]) {
            assert(s.drop_last()[s.len() - 2] == s[s.len() - 2]);
            lemma_tokens_nonempty(s.drop_last());
        }
    } else {
        assert(s.drop_last()[t] == s[t]);
        lemma_tokens_nonempty(s.drop_last());
        if s.len() >= 2 && !is_space(s[s.len() - 2]) && !is_space(s.last()) {
            assert(spec_tokens(s).len() == spec_tokens(s.drop_last()).len());
        }
    }
}

/// Executable `str::split_whitespace`, collected into a vector.
pub fn tokens_of(s: &str) -> (r: Vec<String>)
    ensures
        r.deep_view() == spec_tokens(s@),
{
    let n = s.unicode_len();
    let mut out: Vec<String> = Vec::new();
    let mut start: usize = 0;
    let mut in_tok = false;
    let mut i: usize = 0;
    proof {
        assert(s@.subrange(0, 0) =~= Seq::<char>::empty());
    }
    while i < n
        invariant
            n == s@.len(),
            i <= n,
            in_tok ==> start < i,
            !in_tok ==> (i == 0 || is_space(s@[i - 1])),
            in_tok ==> !is_space(s@[i - 1]),
            !in_tok ==> out.deep_view() == spec_tokens(s@.subrange(0, i as int)),
            in_tok ==> spec_tokens(s@.subrange(0, i as int)).len() == out.len() + 1,
            in_tok ==> spec_tokens(s@.subrange(0, i as int)).drop_last() == out.deep_view(),
            in_tok ==> spec_tokens(s@.subrange(0, i as int)).last() == s@.subrange(
                start as int,
                i as int,
            ),
        decreases n - i,
    {
        let ghost pre = s@.subrange(0, i as int);
        let ghost post = s@.subrange(0, i + 1);
        proof {
            assert(post.drop_last() =~= pre);
            assert(post.last() == s@[i as int]);
            assert(post.len() >= 2 ==> post[post.len() - 2] == s@[i - 1]);
        }
        let c = s.get_char(i);
        if is_space_char(c) {
            if in_tok {
                let piece = s.substring_char(start, i).to_owned();
                out.push(piece);
                proof {
                    let toks = spec_tokens(pre);
                    assert(spec_tokens(post) == toks);
                    assert(toks =~= toks.drop_last().push(s@.subrange(start as int, i as int)));
                    assert(out.deep_view() =~= spec_tokens(post)) by {
                        assert forall|t: int| 0 <= t < out.len() implies out.deep_view()[t]
                            == toks[t] by {
                            if t < out.len() - 1 {
                                assert(out.deep_view()[t] == toks.drop_last()[t]);
                            }
                        }
                    }
                }
                in_tok = false;
            } else {
                proof {
                    assert(spec_tokens(post) == spec_tokens(pre));
                }
            }
        } else {
            if in_tok {
                proof {
                    let toks = spec_tokens(pre);
                    assert(spec_tokens(post) == toks.update(
                        toks.len() - 1,
                        toks.last().push(s@[i as int]),
                    ));
                    assert(spec_tokens(post).drop_last() =~= toks.drop_last());
                    assert(s@.subrange(start as int, i as int).push(s@[i as int]) =~= s@.subrange(
                        start as int,
                        i + 1,
                    ));
                }
            } else {
                proof {
                    let toks = spec_tokens(pre);
                    assert(spec_tokens(post) == toks.push(seq![s@[i as int]]));
                    assert(spec_tokens(post).drop_last() =~= toks);
                    assert(seq![s@[i as int]] =~= s@.subrange(i as int, i + 1));
                }
                start = i;
                in_tok = true;
            }
        }
        i = i + 1;
    }
    proof {
        assert(s@.subrange(0, n as int) =~= s@);
    }
    if in_tok {
        let piece = s.substring_char(start, n).to_owned();
        out.push(piece);
        proof {
            let toks = spec_tokens(s@);
            assert(toks =~= toks.drop_last().push(s@.subrange(start as int, n as int)));
            assert(out.deep_view() =~= toks) by {
                assert forall|t: int| 0 <= t < out.len() implies out.deep_view()[t] == toks[t] by {
                    if t < out.len() - 1 {
                        assert(out.deep_view()[t] == toks.drop_last()[t]);
                    }
                }
            }
        }
    }
    out
}

/// Relies on `String::push` from std: appends exactly the given character.
#[verifier::external_body]
fn push_char(s: &mut String, c: char)
    ensures
        final(s)@ == old(s)@.push(c),
{
    s.push(c);
}

/// The prefix of `s` before its first `'.'`; all of `s` when it has none.
/// What the first piece of `str::split('.')` holds.
pub open spec fn up_to_dot(s: Seq<char>) -> Seq<char>
    decreases s.len(),
{
    if s.len() == 0 {
        s
    } else if s[0] == '.' {
        Seq::empty()
    } else {
        seq![s[0]] + up_to_dot(s.drop_first())
    }
}

proof fn lemma_up_to_dot(s: Seq<char>, j: int)
    requires
        0 <= j <= s.len(),
        forall|t: int| 0 <= t < j ==> s[t] != '.',
        j < s.len() ==> s[j] == '.',
    ensures
        up_to_dot(s) == s.subrange(0, j),
    decreases s.len(),
{
    if j == 0 {
        assert(s.subrange(0, 0) =~= Seq::<char>::empty());
        if s.len() == 0 {
            assert(s =~= s.subrange(0, 0));
        }
    } else {
        lemma_up_to_dot(s.drop_first(), j - 1);
        assert(seq![s[0]] + s.drop_first().subrange(0, j - 1) =~= s.subrange(0, j));
    }
}

/// Executable `up_to_dot`.
pub fn prefix_before_dot(s: &str) -> (r: String)
    ensures
        r@ == up_to_dot(s@),
{
    let n = s.unicode_len();
    let mut i: usize = 0;
    while i < n && s.get_char(i) != '.'
        invariant
            i <= n,
            n == s@.len(),
            forall|t: int| 0 <= t < i ==> s@[t] != '.',
        decreases n - i,
    {
        i = i + 1;
    }
    proof {
        lemma_up_to_dot(s@, i as int);
    }
    s.substring_char(0, i).to_owned()
}

/// `s` without every double quote and comma; what scraping a JSON string
/// field with `str::replace` leaves behind.
pub open spec fn without_quote_comma(s: Seq<char>) -> Seq<char>
    decreases s.len(),
{
    if s.len() == 0 {
        s
    } else {
        let prev = without_quote_comma(s.drop_last());
        if s.last() == '"' || s.last() == ',' {
            prev
        } else {
            prev.push(s.last())
        }
    }
}

/// Executable `without_quote_comma`.
pub fn strip_quote_comma(s: &str) -> (r: String)
    ensures
        r@ == without_quote_comma(s@),
{
    let n = s.unicode_len();
    let mut out = String::new();
    let mut i: usize = 0;
    proof {
        assert(s@.subrange(0, 0) =~= Seq::<char>::empty());
    }
    while i < n
        invariant
            i <= n,
            n == s@.len(),
            out@ == without_quote_comma(s@.subrange(0, i as int)),
        decreases n - i,
    {
        let ghost pre = s@.subrange(0, i as int);
        let ghost post = s@.subrange(0, i + 1);
        proof {
            assert(post.drop_last() =~= pre);
            assert(post.last() == s@[i as int]);
        }
        let c = s.get_char(i);
        if !(c == '"' || c == ',') {
            push_char(&mut out, c);
        }
        i = i + 1;
    }
    proof {
        assert(s@.subrange(0, n as int) =~= s@);
    }
    out
}

} // verus!
