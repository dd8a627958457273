//! Character-level text handling shared by the rest of the library:
//! whitespace trimming, line splitting, decimal rendering and joining.
use vstd::prelude::*;
use vstd::string::StrSliceExecFns;
use vstd::string::StringExecFns;

verus! {

/// Unicode `White_Space` property (PropList.txt), which is what
/// `char::is_whitespace` and `str::trim` go by.
pub open spec fn is_ws(c: char) -> bool {
    ||| ('\u{9}' <= c && c <= '\u{d}')
    ||| c == ' '
    ||| c == '\u{85}'
    ||| c == '\u{a0}'
    ||| c == '\u{1680}'
    ||| ('\u{2000}' <= c && c <= '\u{200a}')
    ||| c == '\u{2028}'
    ||| c == '\u{2029}'
    ||| c == '\u{202f}'
    ||| c == '\u{205f}'
    ||| c == '\u{3000}'
}

/// Whether `c` is Unicode white space.
pub fn is_whitespace(c: char) -> (r: bool)
    ensures
        r == is_ws(c),
{
    ('\u{9}' <= c && c <= '\u{d}') || c == ' ' || c == '\u{85}' || c == '\u{a0}' || c
        == '\u{1680}' || ('\u{2000}' <= c && c <= '\u{200a}') || c == '\u{2028}' || c
        == '\u{2029}' || c == '\u{202f}' || c == '\u{205f}' || c == '\u{3000}'
}

/// `s` with leading white space removed.
pub open spec fn trim_start_seq(s: Seq<char>) -> Seq<char>
    decreases s.len(),
{
    if s.len() > 0 && is_ws(s[0]) {
        trim_start_seq(s.drop_first())
    } else {
        s
    }
}

/// `s` with trailing white space removed.
pub open spec fn trim_end_seq(s: Seq<char>) -> Seq<char>
    decreases s.len(),
{
    if s.len() > 0 && is_ws(s.last()) {
        trim_end_seq(s.drop_last())
    } else {
        s
    }
}

/// `s` with white space removed at both ends (what `str::trim` gives).
pub open spec fn trim_seq(s: Seq<char>) -> Seq<char> {
    trim_end_seq(trim_start_seq(s))
}

/// Dropping `k` leading white-space characters, followed by a
/// non-white-space one (or the end), is what `trim_start_seq` does.
pub proof fn lemma_trim_start(s: Seq<char>, k: int)
    requires
        0 <= k <= s.len(),
        forall|i: int| 0 <= i < k ==> is_ws(#[trigger] s[i]),
        k == s.len() || !is_ws(s[k]),
    ensures
        trim_start_seq(s) == s.skip(k),
    decreases k,
{
    if k == 0 {
        assert(s.skip(0) =~= s);
    } else {
        let t = s.drop_first();
        assert forall|i: int| 0 <= i < k - 1 implies is_ws(#[trigger] t[i]) by {
            assert(t[i] == s[i + 1]);
        }
        lemma_trim_start(t, k - 1);
        assert(t.skip(k - 1) =~= s.skip(k));
    }
}

/// Keeping the first `k` characters, when all after them are white space
/// and the last kept one is not, is what `trim_end_seq` does.
pub proof fn lemma_trim_end(s: Seq<char>, k: int)
    requires
        0 <= k <= s.len(),
        forall|i: int| k <= i < s.len() ==> is_ws(#[trigger] s[i]),
        k == 0 || !is_ws(s[k - 1]),
    ensures
        trim_end_seq(s) == s.take(k),
    decreases s.len() - k,
{
    if k == s.len() {
        assert(s.take(k) =~= s);
    } else {
        let t = s.drop_last();
        assert forall|i: int| k <= i < t.len() implies is_ws(#[trigger] t[i]) by {
            assert(t[i] == s[i]);
        }
        lemma_trim_end(t, k);
        assert(t.take(k) =~= s.take(k));
    }
}

/// The characters of `s`, in order.
pub fn chars_of(s: &str) -> (v: Vec<char>)
    ensures
        v@ == s@,
{
    let n = s.unicode_len();
    let mut v: Vec<char> = Vec::new();
    let mut i: usize = 0;
    while i < n
        invariant
            n == s@.len(),
            i <= n,
            v@ == s@.take(i as int),
        decreases n - i,
    {
        let c = s.get_char(i);
        v.push(c);
        i = i + 1;
        assert(v@ =~= s@.take(i as int));
    }
    assert(s@.take(n as int) =~= s@);
    v
}

/// Appends one character to `s` by calling std's `String::push`; the
/// contract takes std's word that the character ends up last and nothing
/// else changes.
#[verifier::external_body]
pub(crate) fn push_char(s: &mut String, c: char)
    ensures
        final(s)@ == old(s)@.push(c),
{
    s.push(c);
}

/// The string made of the characters `v[from..to]`.
pub fn string_of(v: &Vec<char>, from: usize, to: usize) -> (s: String)
    requires
        from <= to <= v@.len(),
    ensures
        s@ == v@.subrange(from as int, to as int),
{
    let mut s = String::new();
    let mut i: usize = from;
    while i < to
        invariant
            from <= i <= to <= v@.len(),
            s@ == v@.subrange(from as int, i as int),
        decreases to - i,
    {
        push_char(&mut s, v[i]);
        i = i + 1;
        assert(s@ =~= v@.subrange(from as int, i as int));
    }
    s
}

/// A copy of `s` as an owned string.
pub fn owned(s: &str) -> (r: String)
    ensures
        r@ == s@,
{
    String::from_str(s)
}

/// `a` followed by `b`.
pub fn str_concat(a: &str, b: &str) -> (r: String)
    ensures
        r@ == a@ + b@,
{
    let mut r = String::from_str(a);
    r.append(b);
    r
}

/// `s` with white space removed at both ends, as `str::trim` does.
pub fn trim(s: &str) -> (r: String)
    ensures
        r@ == trim_seq(s@),
{
    let v = chars_of(s);
    let n = v.len();
    let mut i: usize = 0;
    while i < n && is_whitespace(v[i])
        invariant
            n == v@.len(),
            i <= n,
            forall|k: int| 0 <= k < i ==> is_ws(#[trigger] v@[k]),
        decreases n - i,
    {
        i = i + 1;
    }
    proof {
        lemma_trim_start(v@, i as int);
    }
    let mut j: usize = n;
    while j > i && is_whitespace(v[j - 1])
        invariant
            n == v@.len(),
            i <= j <= n,
            forall|k: int| j <= k < n ==> is_ws(#[trigger] v@[k]),
        decreases j,
    {
        j = j - 1;
    }
    proof {
        let t = v@.skip(i as int);
        assert forall|k: int| j - i <= k < t.len() implies is_ws(#[trigger] t[k]) by {
            assert(t[k] == v@[k + i]);
        }
        if j > i {
            assert(t[j - i - 1] == v@[j - 1]);
        }
        lemma_trim_end(t, j - i);
        assert(t.take(j - i) =~= v@.subrange(i as int, j as int));
    }
    string_of(&v, i, j)
}

/// The decimal digit character for `d < 10`.
pub open spec fn digit_char(d: nat) -> char {
    ((48 + d) as u8) as char
}

/// The decimal rendering of `n`, without leading zeros.
pub open spec fn dec(n: nat) -> Seq<char>
    decreases n,
{
    if n < 10 {
        seq![digit_char(n)]
    } else {
        dec(n / 10).push(digit_char(n % 10))
    }
}

fn push_decimal(n: u64, out: &mut Vec<char>)
    ensures
        final(out)@ == old(out)@ + dec(n as nat),
    decreases n,
{
    if n >= 10 {
        push_decimal(n / 10, out);
    }
    let d: u8 = (n % 10) as u8;
    out.push((48u8 + d) as char);
    assert(final(out)@ =~= old(out)@ + dec(n as nat));
}

/// The decimal rendering of `n`, as `u64`'s `Display` writes it.
pub fn decimal(n: u64) -> (s: String)
    ensures
        s@ == dec(n as nat),
{
    let mut v: Vec<char> = Vec::new();
    push_decimal(n, &mut v);
    assert(v@ =~= dec(n as nat));
    let len = v.len();
    string_of(&v, 0, len)
}

/// The parts joined with `sep` between each two neighbours.
pub open spec fn join_seq(parts: Seq<Seq<char>>, sep: Seq<char>) -> Seq<char>
    decreases parts.len(),
{
    if parts.len() == 0 {
        seq![]
    } else if parts.len() == 1 {
        parts[0]
    } else {
        join_seq(parts.drop_last(), sep) + sep + parts.last()
    }
}

/// The views of a vector of strings.
pub open spec fn views(v: Seq<String>) -> Seq<Seq<char>> {
    v.map_values(|s: String| s@)
}

/// The strings of `parts` joined with `sep` between each two neighbours.
pub fn join(parts: &Vec<String>, sep: &str) -> (r: String)
    ensures
        r@ == join_seq(views(parts@), sep@),
{
    let mut r = String::new();
    let n = parts.len();
    let mut i: usize = 0;
    while i < n
        invariant
            n == parts@.len(),
            i <= n,
            r@ == join_seq(views(parts@).take(i as int), sep@),
        decreases n - i,
    {
        let ghost before = views(parts@).take(i as int);
        if i > 0 {
            r.append(sep);
        }
        r.append(parts[i].as_str());
        i = i + 1;
        proof {
            let now = views(parts@).take(i as int);
            assert(now.drop_last() =~= before);
            assert(now.last() == parts@[i - 1]@);
            if i == 1 {
                assert(now.len() == 1);
            }
        }
    }
    assert(views(parts@).take(n as int) =~= views(parts@));
    r
}

/// Whether `s` holds the character `c`.
pub fn contains_char(s: &str, c: char) -> (r: bool)
    ensures
        r == s@.contains(c),
{
    let v = chars_of(s);
    let n = v.len();
    let mut i: usize = 0;
    while i < n
        invariant
            n == v@.len(),
            v@ == s@,
            i <= n,
            forall|k: int| 0 <= k < i ==> v@[k] != c,
        decreases n - i,
    {
        if v[i] == c {
            assert(s@[i as int] == c);
            return true;
        }
        i = i + 1;
    }
    false
}

/// Whether `s` holds `needle` as a contiguous part.
pub open spec fn has_infix(s: Seq<char>, needle: Seq<char>) -> bool {
    exists|i: int| 0 <= i <= s.len() - needle.len() && #[trigger] s.subrange(i, i + needle.len()) == needle
}

/// Whether `needle` occurs in `s` (what `str::contains` answers for a string pattern).
pub fn contains_str(s: &str, needle: &str) -> (r: bool)
    ensures
        r == has_infix(s@, needle@),
{
    let v = chars_of(s);
    let w = chars_of(needle);
    let n = v.len();
    let m = w.len();
    if m > n {
        return false;
    }
    let mut i: usize = 0;
    while i <= n - m
        invariant
            n == v@.len(),
            m == w@.len(),
            v@ == s@,
            w@ == needle@,
            m <= n,
            i <= n - m + 1,
            forall|k: int| 0 <= k < i ==> #[trigger] s@.subrange(k, k + m) != needle@,
        decreases n - m + 1 - i,
    {
        let mut j: usize = 0;
        let mut same = true;
        while j < m
            invariant
                n == v@.len(),
                m == w@.len(),
                i + m <= n,
                j <= m,
                same == (forall|k: int| 0 <= k < j ==> v@[i + k] == w@[k]),
            decreases m - j,
        {
            if v[i + j] != w[j] {
                same = false;
            }
            j = j + 1;
        }
        if same {
            assert(s@.subrange(i as int, i + m) =~= needle@);
            return true;
        }
        assert(s@.subrange(i as int, i + m) != needle@) by {
            let k = choose|k: int| 0 <= k < m && v@[i + k] != w@[k];
            assert(s@.subrange(i as int, i + m)[k] == v@[i + k]);
        }
        i = i + 1;
    }
    proof {
        assert forall|k: int| 0 <= k <= s@.len() - needle@.len() implies #[trigger] s@.subrange(k, k + needle@.len()) != needle@ by {}
    }
    false
}

/// The index of the first newline in `t`, or its length when there is none.
pub open spec fn nl_index(t: Seq<char>) -> nat
    decreases t.len(),
{
    if t.len() == 0 {
        0
    } else if t[0] == '\n' {
        0
    } else {
        1 + nl_index(t.drop_first())
    }
}

pub proof fn lemma_nl_index(t: Seq<char>, k: int)
    requires
        0 <= k <= t.len(),
        forall|j: int| 0 <= j < k ==> #[trigger] t[j] != '\n',
        k == t.len() || t[k] == '\n',
    ensures
        nl_index(t) == k,
    decreases k,
{
    if k > 0 {
        let r = t.drop_first();
        assert forall|j: int| 0 <= j < k - 1 implies #[trigger] r[j] != '\n' by {
            assert(r[j] == t[j + 1]);
        }
        assert(t[0] != '\n');
        lemma_nl_index(r, k - 1);
    }
}

/// A line without its carriage return, when it has one at its end.
pub open spec fn strip_cr(l: Seq<char>) -> Seq<char> {
    if l.len() > 0 && l.last() == '\r' {
        l.drop_last()
    } else {
        l
    }
}

/// The lines of `t`, as `str::lines` yields them: split at each newline,
/// a carriage return before the newline removed, no empty last line for a
/// text that ends with a newline.
pub open spec fn lines_spec(t: Seq<char>) -> Seq<Seq<char>>
    decreases t.len(),
{
    if t.len() == 0 {
        seq![]
    } else {
        let k = nl_index(t);
        if k >= t.len() {
            seq![t]
        } else {
            seq![strip_cr(t.take(k as int))] + lines_spec(t.skip((k + 1) as int))
        }
    }
}

/// The lines of `s`, as `str::lines` yields them.
pub fn split_lines(s: &str) -> (r: Vec<String>)
    ensures
        views(r@) == lines_spec(s@),
{
    let v = chars_of(s);
    let n = v.len();
    let mut out: Vec<String> = Vec::new();
    let mut start: usize = 0;
    let mut i: usize = 0;
    assert(s@.skip(0) =~= s@);
    assert(views(out@) =~= Seq::<Seq<char>>::empty());
    while i < n
        invariant
            n == v@.len(),
            v@ == s@,
            start <= i <= n,
            forall|j: int| start <= j < i ==> #[trigger] v@[j] != '\n',
            lines_spec(s@) == views(out@) + lines_spec(s@.skip(start as int)),
        decreases n - i,
    {
        if v[i] == '\n' {
            let mut end = i;
            if end > start && v[end - 1] == '\r' {
                end = end - 1;
            }
            let line = string_of(&v, start, end);
            proof {
                let t = s@.skip(start as int);
                lemma_nl_index(t, i - start);
                assert(t.take(i - start) =~= v@.subrange(start as int, i as int));
                assert(t.skip(i - start + 1) =~= s@.skip(i + 1));
                assert(strip_cr(t.take(i - start)) =~= v@.subrange(start as int, end as int));
            }
            let ghost before = views(out@);
            out.push(line);
            proof {
                assert(views(out@) =~= before.push(line@));
            }
            start = i + 1;
        }
        i = i + 1;
    }
    if start < n {
        let line = string_of(&v, start, n);
        proof {
            let t = s@.skip(start as int);
            lemma_nl_index(t, n - start);
            assert(t =~= v@.subrange(start as int, n as int));
        }
        let ghost before = views(out@);
        out.push(line);
        proof {
            assert(views(out@) =~= before.push(line@));
            assert(lines_spec(s@) =~= views(out@));
        }
    } else {
        proof {
            assert(s@.skip(start as int) =~= Seq::<char>::empty());
            assert(lines_spec(s@) =~= views(out@));
        }
    }
    out
}

/// The last `w` decimal digits of `f`, with leading zeros.
pub open spec fn padded(f: nat, w: nat) -> Seq<char>
    decreases w,
{
    if w == 0 {
        seq![]
    } else {
        padded(f / 10, (w - 1) as nat).push(digit_char(f % 10))
    }
}

/// `s` without its trailing zero digits.
pub open spec fn strip_zeros(s: Seq<char>) -> Seq<char>
    decreases s.len(),
{
    if s.len() > 0 && s.last() == '0' {
        strip_zeros(s.drop_last())
    } else {
        s
    }
}

/// The fractional part `f` of a number with `w` digits after the point,
/// as `Duration`'s `{:?}` writes it: nothing when it is zero, else a point
/// and its digits without trailing zeros.
pub open spec fn fraction(f: nat, w: nat) -> Seq<char> {
    if f == 0 {
        seq![]
    } else {
        "."@ + strip_zeros(padded(f, w))
    }
}

/// How `{:?}` writes a `Duration` of `secs` seconds and `nanos` nanoseconds
/// (`nanos` below one second): in seconds when there is at least one, else
/// in milli-, micro- or nanoseconds, whichever is the largest unit with a
/// nonzero whole part, with the rest as an exact decimal fraction.
pub open spec fn duration_debug(secs: nat, nanos: nat) -> Seq<char> {
    if secs > 0 {
        dec(secs) + fraction(nanos, 9) + "s"@
    } else if nanos >= 1_000_000 {
        dec(nanos / 1_000_000) + fraction(nanos % 1_000_000, 6) + "ms"@
    } else if nanos >= 1_000 {
        dec(nanos / 1_000) + fraction(nanos % 1_000, 3) + "\u{b5}s"@
    } else {
        dec(nanos) + "ns"@
    }
}

fn push_padded(f: u32, w: u32, out: &mut Vec<char>)
    ensures
        final(out)@ == old(out)@ + padded(f as nat, w as nat),
    decreases w,
{
    if w > 0 {
        push_padded(f / 10, w - 1, out);
        let d: u8 = (f % 10) as u8;
        out.push((48u8 + d) as char);
        assert(final(out)@ =~= old(out)@ + padded(f as nat, w as nat));
    } else {
        assert(final(out)@ =~= old(out)@ + padded(f as nat, w as nat));
    }
}

pub proof fn lemma_strip_zeros(s: Seq<char>, k: int)
    requires
        0 <= k <= s.len(),
        forall|i: int| k <= i < s.len() ==> #[trigger] s[i] == '0',
        k == 0 || s[k - 1] != '0',
    ensures
        strip_zeros(s) == s.take(k),
    decreases s.len() - k,
{
    if k == s.len() {
        assert(s.take(k) =~= s);
    } else {
        let t = s.drop_last();
        assert forall|i: int| k <= i < t.len() implies #[trigger] t[i] == '0' by {
            assert(t[i] == s[i]);
        }
        lemma_strip_zeros(t, k);
        assert(t.take(k) =~= s.take(k));
    }
}

/// The fractional part `f` with `w` digits, as `fraction` describes it.
pub fn fraction_text(f: u32, w: u32) -> (r: String)
    ensures
        r@ == fraction(f as nat, w as nat),
{
    if f == 0 {
        return String::new();
    }
    let mut v: Vec<char> = Vec::new();
    push_padded(f, w, &mut v);
    let ghost p = v@;
    assert(p =~= padded(f as nat, w as nat));
    let mut j: usize = v.len();
    while j > 0 && v[j - 1] == '0'
        invariant
            v@ == p,
            j <= p.len(),
            forall|i: int| j <= i < p.len() ==> #[trigger] p[i] == '0',
        decreases j,
    {
        j = j - 1;
    }
    proof {
        lemma_strip_zeros(p, j as int);
        assert(p.take(j as int) =~= v@.subrange(0, j as int));
    }
    let digits = string_of(&v, 0, j);
    str_concat(".", digits.as_str())
}

/// `secs` seconds and `nanos` nanoseconds written as `Duration`'s `{:?}`
/// writes them.
pub fn duration_text(secs: u64, nanos: u32) -> (r: String)
    requires
        nanos < 1_000_000_000,
    ensures
        r@ == duration_debug(secs as nat, nanos as nat),
{
    if secs > 0 {
        let a = decimal(secs);
        let b = fraction_text(nanos, 9);
        let c = str_concat(a.as_str(), b.as_str());
        str_concat(c.as_str(), "s")
    } else if nanos >= 1_000_000 {
        let a = decimal((nanos / 1_000_000) as u64);
        let b = fraction_text(nanos % 1_000_000, 6);
        let c = str_concat(a.as_str(), b.as_str());
        str_concat(c.as_str(), "ms")
    } else if nanos >= 1_000 {
        let a = decimal((nanos / 1_000) as u64);
        let b = fraction_text(nanos % 1_000, 3);
        let c = str_concat(a.as_str(), b.as_str());
        str_concat(c.as_str(), "\u{b5}s")
    } else {
        let a = decimal(nanos as u64);
        str_concat(a.as_str(), "ns")
    }
}

} // verus!
