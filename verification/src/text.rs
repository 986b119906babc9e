//! Character-level text rules shared by the editors and the formatters:
//! Unicode whitespace, trimming, splitting into words, and decimal digits.

use vstd::prelude::*;
use vstd::string::*;

verus! {

/// Unicode `White_Space`, the set `char::is_whitespace` tests.
pub open spec fn is_ws(c: char) -> bool {
    let u = c as u32;
    ||| (9 <= u && u <= 13)
    ||| u == 32
    ||| u == 0x85
    ||| u == 0xa0
    ||| u == 0x1680
    ||| (0x2000 <= u && u <= 0x200a)
    ||| u == 0x2028
    ||| u == 0x2029
    ||| u == 0x202f
    ||| u == 0x205f
    ||| u == 0x3000
}

/// Whether `c` is Unicode whitespace.
pub fn is_whitespace(c: char) -> (b: bool)
    ensures
        b == is_ws(c),
{
    let u = c as u32;
    (9 <= u && u <= 13) || u == 32 || u == 0x85 || u == 0xa0 || u == 0x1680 || (0x2000 <= u && u
        <= 0x200a) || u == 0x2028 || u == 0x2029 || u == 0x202f || u == 0x205f || u == 0x3000
}

/// `s` without its leading whitespace.
pub open spec fn trim_start(s: Seq<char>) -> Seq<char>
    decreases s.len(),
{
    if s.len() > 0 && is_ws(s[0]) {
        trim_start(s.drop_first())
    } else {
        s
    }
}

/// `s` without its trailing whitespace.
pub open spec fn trim_end(s: Seq<char>) -> Seq<char>
    decreases s.len(),
{
    if s.len() > 0 && is_ws(s.last()) {
        trim_end(s.drop_last())
    } else {
        s
    }
}

/// `s` without leading or trailing whitespace.
pub open spec fn trim(s: Seq<char>) -> Seq<char> {
    trim_end(trim_start(s))
}

/// The length of the run of non-whitespace characters that starts `s`.
pub open spec fn word_len(s: Seq<char>) -> nat
    decreases s.len(),
{
    if s.len() > 0 && !is_ws(s[0]) {
        1 + word_len(s.drop_first())
    } else {
        0
    }
}

/// The maximal runs of non-whitespace characters of `s`, in order.
pub open spec fn words(s: Seq<char>) -> Seq<Seq<char>>
    decreases s.len(),
{
    if s.len() == 0 {
        Seq::empty()
    } else if is_ws(s[0]) {
        words(s.drop_first())
    } else {
        let k = word_len(s);
        if 0 < k <= s.len() {
            seq![s.subrange(0, k as int)] + words(s.subrange(k as int, s.len() as int))
        } else {
            Seq::empty()
        }
    }
}

/// `ws` joined by single spaces.
pub open spec fn join(ws: Seq<Seq<char>>) -> Seq<char>
    decreases ws.len(),
{
    if ws.len() == 0 {
        Seq::empty()
    } else if ws.len() == 1 {
        ws[0]
    } else {
        join(ws.drop_last()) + seq![' '] + ws.last()
    }
}

/// The decimal digit character for `d < 10`.
pub open spec fn digit_char(d: nat) -> char {
    (48 + d) as char
}

/// The decimal representation of `n`, without sign or leading zeros.
pub open spec fn decimal(n: nat) -> Seq<char>
    decreases n,
{
    if n < 10 {
        seq![digit_char(n)]
    } else {
        decimal(n / 10).push(digit_char(n % 10))
    }
}

/// The characters of `s`, in order.
pub fn chars_of(s: &str) -> (v: Vec<char>)
    ensures
        v@ == s@,
{
    let mut v: Vec<char> = Vec::new();
    for c in it: s.chars()
        invariant
            v@ == it.seq().subrange(0, it.index() as int),
    {
        v.push(c);
    }
    v
}

/// Append one character (`String::push`).
#[verifier::external_body]
pub(crate) fn push_char(s: &mut String, c: char)
    ensures
        final(s)@ == old(s)@.push(c),
{
    s.push(c);
}

/// Append `v[lo..hi]` to `out`.
pub fn push_chars(out: &mut String, v: &Vec<char>, lo: usize, hi: usize)
    requires
        lo <= hi <= v@.len(),
    ensures
        final(out)@ == old(out)@ + v@.subrange(lo as int, hi as int),
{
    let mut i = lo;
    while i < hi
        invariant
            lo <= i <= hi,
            hi <= v@.len(),
            out@ == old(out)@ + v@.subrange(lo as int, i as int),
        decreases hi - i,
    {
        push_char(out, v[i]);
        proof {
            assert(v@.subrange(lo as int, i + 1) == v@.subrange(lo as int, i as int).push(v@[i as int]));
        }
        i = i + 1;
    }
}

/// Append the characters of `s` to `out`.
pub fn push_str(out: &mut String, s: &str)
    ensures
        final(out)@ == old(out)@ + s@,
{
    out.append(s);
}

/// A new string holding `v[lo..hi]`.
pub fn string_of(v: &Vec<char>, lo: usize, hi: usize) -> (r: String)
    requires
        lo <= hi <= v@.len(),
    ensures
        r@ == v@.subrange(lo as int, hi as int),
{
    let mut out = String::new();
    push_chars(&mut out, v, lo, hi);
    out
}

/// Append the decimal digits of `n`.
pub fn push_decimal(out: &mut String, n: u64)
    ensures
        final(out)@ == old(out)@ + decimal(n as nat),
    decreases n,
{
    if n >= 10 {
        push_decimal(out, n / 10);
    }
    let d = (n % 10) as u8;
    push_char(out, (48u8 + d) as char);
    proof {
        assert(((48u8 + d) as char) == digit_char((n % 10) as nat));
        if n >= 10 {
            assert(decimal(n as nat) == decimal((n / 10) as nat).push(digit_char((n % 10) as nat)));
        }
    }
}

/// Append the decimal digits of a 128-bit `n`.
pub fn push_decimal_wide(out: &mut String, n: u128)
    ensures
        final(out)@ == old(out)@ + decimal(n as nat),
    decreases n,
{
    if n >= 10 {
        push_decimal_wide(out, n / 10);
    }
    let d = (n % 10) as u8;
    push_char(out, (48u8 + d) as char);
    proof {
        assert(((48u8 + d) as char) == digit_char((n % 10) as nat));
        if n >= 10 {
            assert(decimal(n as nat) == decimal((n / 10) as nat).push(digit_char((n % 10) as nat)));
        }
    }
}

/// Where trimming starts and ends: `trim(v) == v[lo..hi]`.
pub fn trim_bounds(v: &Vec<char>) -> (r: (usize, usize))
    ensures
        r.0 <= r.1 <= v@.len(),
        trim(v@) == v@.subrange(r.0 as int, r.1 as int),
        trim_start(v@) == v@.subrange(r.0 as int, v@.len() as int),
{
    let n = v.len();
    let mut lo: usize = 0;
    proof {
        assert(v@.subrange(0, n as int) == v@);
    }
    while lo < n && is_whitespace(v[lo])
        invariant
            lo <= n,
            n == v@.len(),
            trim_start(v@) == trim_start(v@.subrange(lo as int, n as int)),
        decreases n - lo,
    {
        proof {
            let t = v@.subrange(lo as int, n as int);
            assert(t.drop_first() == v@.subrange(lo + 1, n as int));
        }
        lo = lo + 1;
    }
    proof {
        let t = v@.subrange(lo as int, n as int);
        assert(trim_start(t) == t);
    }
    let mut hi: usize = n;
    while hi > lo && is_whitespace(v[hi - 1])
        invariant
            lo <= hi <= n,
            n == v@.len(),
            trim(v@) == trim_end(v@.subrange(lo as int, hi as int)),
        decreases hi,
    {
        proof {
            let t = v@.subrange(lo as int, hi as int);
            assert(t.drop_last() == v@.subrange(lo as int, hi - 1));
        }
        hi = hi - 1;
    }
    proof {
        let t = v@.subrange(lo as int, hi as int);
        assert(trim_end(t) == t);
    }
    (lo, hi)
}

/// `raw` with leading and trailing whitespace removed (`str::trim`).
pub fn trim_str(raw: &str) -> (r: String)
    ensures
        r@ == trim(raw@),
{
    let v = chars_of(raw);
    let (lo, hi) = trim_bounds(&v);
    string_of(&v, lo, hi)
}

/// Whether two strings hold the same characters.
pub fn same_chars(a: &str, b: &str) -> (r: bool)
    ensures
        r == (a@ == b@),
{
    let va = chars_of(a);
    let vb = chars_of(b);
    if va.len() != vb.len() {
        return false;
    }
    let mut i: usize = 0;
    while i < va.len()
        invariant
            i <= va@.len(),
            va@ == a@,
            vb@ == b@,
            va@.len() == vb@.len(),
            forall|j: int| 0 <= j < i ==> va@[j] == vb@[j],
        decreases va@.len() - i,
    {
        if va[i] != vb[i] {
            proof {
                assert(va@[i as int] != vb@[i as int]);
            }
            return false;
        }
        i = i + 1;
    }
    proof {
        assert(va@ == vb@);
    }
    true
}

/// Whether `t` occurs in `s` as a contiguous run (`str::contains`).
pub open spec fn has_infix(s: Seq<char>, t: Seq<char>) -> bool {
    exists|i: int| 0 <= i && i + t.len() <= s.len() && #[trigger] s.subrange(i, i + t.len()) == t
}

fn matches_at(v: &Vec<char>, w: &Vec<char>, i: usize) -> (r: bool)
    requires
        i + w@.len() <= v@.len(),
    ensures
        r == (v@.subrange(i as int, i + w@.len()) == w@),
{
    let mut k: usize = 0;
    while k < w.len()
        invariant
            k <= w@.len(),
            i + w@.len() <= v@.len(),
            forall|j: int| 0 <= j < k ==> v@[i + j] == w@[j],
        decreases w@.len() - k,
    {
        let len_v = v.len();
        assert(i + k < len_v);
        if v[i + k] != w[k] {
            proof {
                assert(v@.subrange(i as int, i + w@.len())[k as int] != w@[k as int]);
            }
            return false;
        }
        k = k + 1;
    }
    proof {
        assert(v@.subrange(i as int, i + w@.len()) =~= w@);
    }
    true
}

/// Whether `needle` occurs in `haystack`.
pub fn contains_str(haystack: &str, needle: &str) -> (r: bool)
    ensures
        r == has_infix(haystack@, needle@),
{
    let v = chars_of(haystack);
    let w = chars_of(needle);
    if w.len() > v.len() {
        return false;
    }
    let last = v.len() - w.len();
    let mut i: usize = 0;
    while i < last
        invariant
            i <= last,
            last == v@.len() - w@.len(),
            v@ == haystack@,
            w@ == needle@,
            forall|j: int| 0 <= j < i ==> #[trigger] v@.subrange(j, j + w@.len()) != w@,
        decreases last - i,
    {
        if matches_at(&v, &w, i) {
            return true;
        }
        i = i + 1;
    }
    if matches_at(&v, &w, last) {
        return true;
    }
    proof {
        assert forall|j: int| 0 <= j && j + needle@.len() <= haystack@.len() implies #[trigger] haystack@.subrange(
            j,
            j + needle@.len(),
        ) != needle@ by {
            assert(j <= last);
            if j < last {
                assert(v@.subrange(j, j + w@.len()) != w@);
            }
        }
    }
    false
}

/// A run of `k` non-whitespace characters ended by whitespace or the end of
/// `s` is the first word of `s`.
pub proof fn lemma_word_len(s: Seq<char>, k: nat)
    requires
        k <= s.len(),
        forall|j: int| 0 <= j < k ==> !is_ws(#[trigger] s[j]),
        k == s.len() || is_ws(s[k as int]),
    ensures
        word_len(s) == k,
    decreases k,
{
    if k > 0 {
        let t = s.drop_first();
        assert forall|j: int| 0 <= j < k - 1 implies !is_ws(#[trigger] t[j]) by {
            assert(t[j] == s[j + 1]);
        }
        if k - 1 < t.len() {
            assert(t[k - 1] == s[k as int]);
        }
        lemma_word_len(t, (k - 1) as nat);
    }
}

/// Joining one more word appends a separating space and the word.
pub proof fn lemma_join_push(ws: Seq<Seq<char>>, w: Seq<char>)
    ensures
        join(ws.push(w)) == (if ws.len() == 0 { w } else { join(ws) + seq![' '] + w }),
{
    assert(ws.push(w).drop_last() == ws);
    if ws.len() == 0 {
        assert(ws.push(w).len() == 1);
    }
}

/// The spans `[start, end)` of the words of `v`, in order.
pub fn word_spans(v: &Vec<char>) -> (spans: Vec<(usize, usize)>)
    ensures
        spans@.len() == words(v@).len(),
        forall|k: int|
            0 <= k < spans@.len() ==> {
                &&& (#[trigger] spans@[k]).0 < spans@[k].1 <= v@.len()
                &&& v@.subrange(spans@[k].0 as int, spans@[k].1 as int) == words(v@)[k]
            },
{
    let n = v.len();
    let mut spans: Vec<(usize, usize)> = Vec::new();
    let mut i: usize = 0;
    let ghost mut done: Seq<Seq<char>> = Seq::empty();
    proof {
        assert(v@.subrange(0, n as int) == v@);
    }
    while i < n
        invariant
            i <= n,
            n == v@.len(),
            words(v@) == done + words(v@.subrange(i as int, n as int)),
            spans@.len() == done.len(),
            forall|k: int|
                0 <= k < spans@.len() ==> {
                    &&& (#[trigger] spans@[k]).0 < spans@[k].1 <= n
                    &&& v@.subrange(spans@[k].0 as int, spans@[k].1 as int) == done[k]
                },
        decreases n - i,
    {
        let ghost t = v@.subrange(i as int, n as int);
        if is_whitespace(v[i]) {
            proof {
                assert(t[0] == v@[i as int]);
                assert(t.drop_first() == v@.subrange(i + 1, n as int));
            }
            i = i + 1;
        } else {
            let mut j = i + 1;
            while j < n && !is_whitespace(v[j])
                invariant
                    i < j <= n,
                    n == v@.len(),
                    forall|m: int| i <= m < j ==> !is_ws(#[trigger] v@[m]),
                decreases n - j,
            {
                j = j + 1;
            }
            proof {
                let k = (j - i) as nat;
                assert forall|m: int| 0 <= m < k implies !is_ws(#[trigger] t[m]) by {
                    assert(t[m] == v@[i + m]);
                }
                if j < n {
                    assert(t[k as int] == v@[j as int]);
                }
                lemma_word_len(t, k);
                assert(t[0] == v@[i as int]);
                assert(t.subrange(0, k as int) == v@.subrange(i as int, j as int));
                assert(t.subrange(k as int, t.len() as int) == v@.subrange(j as int, n as int));
                assert(words(t) == seq![v@.subrange(i as int, j as int)] + words(v@.subrange(j as int, n as int)));
                assert(done + words(t) == done.push(v@.subrange(i as int, j as int)) + words(v@.subrange(j as int, n as int)));
                done = done.push(v@.subrange(i as int, j as int));
            }
            spans.push((i, j));
            i = j;
        }
    }
    proof {
        assert(v@.subrange(n as int, n as int) == Seq::<char>::empty());
        assert(words(Seq::<char>::empty()) == Seq::<Seq<char>>::empty());
        assert(done + Seq::<Seq<char>>::empty() == done);
    }
    spans
}

/// The words of `v` joined by single spaces: whitespace runs collapse to one
/// space, and leading and trailing whitespace disappear.
pub fn flatten(v: &Vec<char>) -> (r: Vec<char>)
    ensures
        r@ == join(words(v@)),
{
    let spans = word_spans(v);
    let mut out: Vec<char> = Vec::new();
    let mut k: usize = 0;
    while k < spans.len()
        invariant
            k <= spans@.len(),
            spans@.len() == words(v@).len(),
            forall|m: int|
                0 <= m < spans@.len() ==> {
                    &&& (#[trigger] spans@[m]).0 < spans@[m].1 <= v@.len()
                    &&& v@.subrange(spans@[m].0 as int, spans@[m].1 as int) == words(v@)[m]
                },
            out@ == join(words(v@).subrange(0, k as int)),
        decreases spans@.len() - k,
    {
        let (a, b) = spans[k];
        let ghost before = out@;
        if k > 0 {
            out.push(' ');
        }
        let mut p = a;
        while p < b
            invariant
                a <= p <= b,
                b <= v@.len(),
                out@ == (if k > 0 { before + seq![' '] } else { before }) + v@.subrange(a as int, p as int),
            decreases b - p,
        {
            out.push(v[p]);
            proof {
                assert(v@.subrange(a as int, p + 1) == v@.subrange(a as int, p as int).push(v@[p as int]));
            }
            p = p + 1;
        }
        proof {
            let ws = words(v@).subrange(0, k as int);
            assert(words(v@).subrange(0, k + 1) == ws.push(words(v@)[k as int]));
            lemma_join_push(ws, words(v@)[k as int]);
            if k == 0 {
                assert(before == Seq::<char>::empty());
                assert(out@ == v@.subrange(a as int, b as int));
            }
        }
        k = k + 1;
    }
    proof {
        assert(words(v@).subrange(0, spans@.len() as int) == words(v@));
    }
    out
}

/// The length `trim_end(v[0..hi])` keeps.
pub fn trim_end_len(v: &Vec<char>, hi: usize) -> (r: usize)
    requires
        hi <= v@.len(),
    ensures
        r <= hi,
        trim_end(v@.subrange(0, hi as int)) == v@.subrange(0, r as int),
{
    let mut e = hi;
    while e > 0 && is_whitespace(v[e - 1])
        invariant
            e <= hi,
            hi <= v@.len(),
            trim_end(v@.subrange(0, hi as int)) == trim_end(v@.subrange(0, e as int)),
        decreases e,
    {
        proof {
            assert(v@.subrange(0, e as int).drop_last() == v@.subrange(0, e - 1));
        }
        e = e - 1;
    }
    e
}

/// A one-line preview: whitespace flattened, cut to `limit` characters with
/// the trailing space of the cut dropped and an ellipsis appended.
pub open spec fn preview_of(s: Seq<char>, limit: nat) -> Seq<char> {
    let flat = join(words(s));
    if flat.len() > limit {
        trim_end(flat.subrange(0, limit as int)).push('\u{2026}')
    } else {
        flat
    }
}

/// Trimming never lengthens text.
pub proof fn lemma_trim_end_len(s: Seq<char>)
    ensures
        trim_end(s).len() <= s.len(),
    decreases s.len(),
{
    if s.len() > 0 && is_ws(s.last()) {
        lemma_trim_end_len(s.drop_last());
    }
}

/// A preview is never longer than its limit plus the ellipsis, and it ends
/// with the ellipsis exactly when the flattened text had to be cut.
pub proof fn preview_is_bounded(s: Seq<char>, limit: nat)
    ensures
        preview_of(s, limit).len() <= limit + 1,
        join(words(s)).len() > limit ==> preview_of(s, limit).last() == '\u{2026}',
        join(words(s)).len() <= limit ==> preview_of(s, limit) == join(words(s)),
{
    let flat = join(words(s));
    if flat.len() > limit {
        lemma_trim_end_len(flat.subrange(0, limit as int));
    }
}

/// Whitespace-flattened, character-safe preview of `text` (see `preview_of`).
pub fn preview_chars(text: &str, limit: usize) -> (r: String)
    ensures
        r@ == preview_of(text@, limit as nat),
{
    let v = chars_of(text);
    let flat = flatten(&v);
    if flat.len() > limit {
        let keep = trim_end_len(&flat, limit);
        let mut out = string_of(&flat, 0, keep);
        push_char(&mut out, '\u{2026}');
        out
    } else {
        string_of(&flat, 0, flat.len())
    }
}

} // verus!
