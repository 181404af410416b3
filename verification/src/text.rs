//! Character-level text model shared by every parser and formatter of the
//! crate: Unicode whitespace and control classes, trimming, splitting, line
//! and word segmentation, substring search, unsigned decimal parsing and
//! decimal / hexadecimal rendering. Each operation is stated over `Seq<char>`
//! and implemented over `Vec<char>`.

use vstd::prelude::*;
use vstd::string::*;

verus! {

// ───────────────────────── character classes ─────────────────────────

/// The Unicode `White_Space` property, as used by `char::is_whitespace`.
pub open spec fn is_ws(c: char) -> bool {
    let u = c as u32;
    ||| 0x09 <= u <= 0x0D
    ||| u == 0x20
    ||| u == 0x85
    ||| u == 0xA0
    ||| u == 0x1680
    ||| 0x2000 <= u <= 0x200A
    ||| u == 0x2028
    ||| u == 0x2029
    ||| u == 0x202F
    ||| u == 0x205F
    ||| u == 0x3000
}

/// The Unicode general category `Cc`, as used by `char::is_control`.
pub open spec fn is_control(c: char) -> bool {
    let u = c as u32;
    u <= 0x1F || (0x7F <= u <= 0x9F)
}

pub open spec fn is_digit(c: char) -> bool {
    '0' as u32 <= c as u32 <= '9' as u32
}

pub open spec fn digit_value(c: char) -> nat {
    (c as u32 - '0' as u32) as nat
}

pub open spec fn is_ascii_alnum(c: char) -> bool {
    ||| is_digit(c)
    ||| 'a' as u32 <= c as u32 <= 'z' as u32
    ||| 'A' as u32 <= c as u32 <= 'Z' as u32
}

pub fn whitespace(c: char) -> (r: bool)
    ensures
        r == is_ws(c),
{
    let u = c as u32;
    (0x09 <= u && u <= 0x0D) || u == 0x20 || u == 0x85 || u == 0xA0 || u == 0x1680 || (0x2000
        <= u && u <= 0x200A) || u == 0x2028 || u == 0x2029 || u == 0x202F || u == 0x205F || u
        == 0x3000
}

pub fn control(c: char) -> (r: bool)
    ensures
        r == is_control(c),
{
    let u = c as u32;
    u <= 0x1F || (0x7F <= u && u <= 0x9F)
}

pub fn digit(c: char) -> (r: bool)
    ensures
        r == is_digit(c),
{
    let u = c as u32;
    48 <= u && u <= 57
}

// ───────────────────────── str <-> Vec<char> ─────────────────────────

/// The characters of a string slice, in order.
pub fn chars_of(s: &str) -> (v: Vec<char>)
    ensures
        v@ == s@,
{
    let n = s.unicode_len();
    let mut v: Vec<char> = Vec::new();
    let mut i: usize = 0;
    while i < n
        invariant
            n == s@.len(),
            i <= n,
            v@ == s@.subrange(0, i as int),
        decreases n - i,
    {
        let c = s.get_char(i);
        v.push(c);
        i = i + 1;
        assert(v@ =~= s@.subrange(0, i as int));
    }
    assert(v@ =~= s@);
    v
}

/// Trusted: `String::push` appends the one character it is given.
#[verifier::external_body]
pub(crate) fn push_char(s: &mut String, c: char)
    ensures
        final(s)@ == old(s)@.push(c),
{
    s.push(c)
}

/// Append every character of `v` to `out`.
pub fn push_chars(out: &mut String, v: &Vec<char>)
    ensures
        final(out)@ == old(out)@ + v@,
{
    let ghost start = out@;
    let mut i: usize = 0;
    while i < v.len()
        invariant
            i <= v.len(),
            out@ == start + v@.subrange(0, i as int),
        decreases v.len() - i,
    {
        push_char(out, v[i]);
        i = i + 1;
        assert(out@ =~= start + v@.subrange(0, i as int));
    }
    assert(v@.subrange(0, v.len() as int) =~= v@);
}

/// A fresh string holding exactly the characters of `v`.
pub fn string_of(v: &Vec<char>) -> (s: String)
    ensures
        s@ == v@,
{
    let mut s = String::new();
    push_chars(&mut s, v);
    assert(s@ =~= v@);
    s
}

/// Append a string slice to `out`.
pub fn push_str(out: &mut String, t: &str)
    ensures
        final(out)@ == old(out)@ + t@,
{
    let v = chars_of(t);
    push_chars(out, &v);
}

/// A fresh owned copy of a string slice.
pub fn owned(t: &str) -> (s: String)
    ensures
        s@ == t@,
{
    let mut s = String::new();
    push_str(&mut s, t);
    assert(s@ =~= t@);
    s
}

/// Character-wise equality of two character vectors.
pub fn chars_eq(a: &Vec<char>, b: &Vec<char>) -> (r: bool)
    ensures
        r == (a@ == b@),
{
    if a.len() != b.len() {
        return false;
    }
    let mut i: usize = 0;
    while i < a.len()
        invariant
            a.len() == b.len(),
            i <= a.len(),
            forall|j: int| 0 <= j < i ==> a@[j] == b@[j],
        decreases a.len() - i,
    {
        if a[i] != b[i] {
            return false;
        }
        i = i + 1;
    }
    assert(a@ =~= b@);
    true
}

/// Character-wise equality of two string slices.
pub fn str_eq(a: &str, b: &str) -> (r: bool)
    ensures
        r == (a@ == b@),
{
    let x = chars_of(a);
    let y = chars_of(b);
    chars_eq(&x, &y)
}

/// A copy of `v[from..to]`.
pub fn slice_chars(v: &Vec<char>, from: usize, to: usize) -> (r: Vec<char>)
    requires
        from <= to <= v.len(),
    ensures
        r@ == v@.subrange(from as int, to as int),
{
    let mut r: Vec<char> = Vec::new();
    let mut i = from;
    while i < to
        invariant
            from <= i <= to <= v.len(),
            r@ == v@.subrange(from as int, i as int),
        decreases to - i,
    {
        r.push(v[i]);
        i = i + 1;
        assert(r@ =~= v@.subrange(from as int, i as int));
    }
    r
}

// ───────────────────────── trimming ─────────────────────────

pub open spec fn trim_start(s: Seq<char>) -> Seq<char>
    decreases s.len(),
{
    if s.len() > 0 && is_ws(s[0]) {
        trim_start(s.drop_first())
    } else {
        s
    }
}

pub open spec fn trim_end(s: Seq<char>) -> Seq<char>
    decreases s.len(),
{
    if s.len() > 0 && is_ws(s.last()) {
        trim_end(s.drop_last())
    } else {
        s
    }
}

/// `str::trim`: leading and trailing Unicode whitespace removed.
pub open spec fn trim(s: Seq<char>) -> Seq<char> {
    trim_end(trim_start(s))
}

/// `str::trim_end_matches(c)` for a single character.
pub open spec fn trim_end_char(s: Seq<char>, c: char) -> Seq<char>
    decreases s.len(),
{
    if s.len() > 0 && s.last() == c {
        trim_end_char(s.drop_last(), c)
    } else {
        s
    }
}

proof fn lemma_trim_start_at(s: Seq<char>, i: int)
    requires
        0 <= i <= s.len(),
        forall|j: int| 0 <= j < i ==> is_ws(#[trigger] s[j]),
        i == s.len() || !is_ws(s[i]),
    ensures
        trim_start(s) == s.subrange(i, s.len() as int),
    decreases i,
{
    if i == 0 {
        assert(s.subrange(0, s.len() as int) =~= s);
    } else {
        assert(is_ws(s[0]));
        let t = s.drop_first();
        assert forall|j: int| 0 <= j < i - 1 implies is_ws(#[trigger] t[j]) by {
            assert(t[j] == s[j + 1]);
        }
        lemma_trim_start_at(t, i - 1);
        assert(t.subrange(i - 1, t.len() as int) =~= s.subrange(i, s.len() as int));
    }
}

proof fn lemma_trim_end_at(s: Seq<char>, k: int)
    requires
        0 <= k <= s.len(),
        forall|j: int| k <= j < s.len() ==> is_ws(#[trigger] s[j]),
        k == 0 || !is_ws(s[k - 1]),
    ensures
        trim_end(s) == s.subrange(0, k),
    decreases s.len() - k,
{
    if k == s.len() {
        assert(s.subrange(0, k) =~= s);
    } else {
        assert(is_ws(s.last()));
        let t = s.drop_last();
        assert forall|j: int| k <= j < t.len() implies is_ws(#[trigger] t[j]) by {
            assert(t[j] == s[j]);
        }
        lemma_trim_end_at(t, k);
        assert(t.subrange(0, k) =~= s.subrange(0, k));
    }
}

proof fn lemma_trim_end_char_at(s: Seq<char>, c: char, k: int)
    requires
        0 <= k <= s.len(),
        forall|j: int| k <= j < s.len() ==> #[trigger] s[j] == c,
        k == 0 || s[k - 1] != c,
    ensures
        trim_end_char(s, c) == s.subrange(0, k),
    decreases s.len() - k,
{
    if k == s.len() {
        assert(s.subrange(0, k) =~= s);
    } else {
        let t = s.drop_last();
        assert forall|j: int| k <= j < t.len() implies #[trigger] t[j] == c by {
            assert(t[j] == s[j]);
        }
        lemma_trim_end_char_at(t, c, k);
        assert(t.subrange(0, k) =~= s.subrange(0, k));
    }
}

/// `str::trim` over characters.
pub fn trim_chars(v: &Vec<char>) -> (r: Vec<char>)
    ensures
        r@ == trim(v@),
{
    let n = v.len();
    let mut i: usize = 0;
    while i < n && whitespace(v[i])
        invariant
            n == v.len(),
            i <= n,
            forall|j: int| 0 <= j < i ==> is_ws(#[trigger] v@[j]),
        decreases n - i,
    {
        i = i + 1;
    }
    proof {
        lemma_trim_start_at(v@, i as int);
    }
    let ghost t = v@.subrange(i as int, n as int);
    let mut k: usize = n;
    while k > i && whitespace(v[k - 1])
        invariant
            n == v.len(),
            i <= k <= n,
            t == v@.subrange(i as int, n as int),
            forall|j: int| k <= j < n ==> is_ws(#[trigger] v@[j]),
        decreases k,
    {
        k = k - 1;
    }
    proof {
        assert forall|j: int| k - i <= j < t.len() implies is_ws(#[trigger] t[j]) by {
            assert(t[j] == v@[j + i]);
        }
        if k > i {
            assert(t[k - i - 1] == v@[k - 1]);
        }
        lemma_trim_end_at(t, k - i);
        assert(t.subrange(0, k - i) =~= v@.subrange(i as int, k as int));
    }
    slice_chars(v, i, k)
}

/// `str::trim_end_matches(c)` for a single character.
pub fn trim_end_char_chars(v: &Vec<char>, c: char) -> (r: Vec<char>)
    ensures
        r@ == trim_end_char(v@, c),
{
    let n = v.len();
    let mut k: usize = n;
    while k > 0 && v[k - 1] == c
        invariant
            n == v.len(),
            k <= n,
            forall|j: int| k <= j < n ==> #[trigger] v@[j] == c,
        decreases k,
    {
        k = k - 1;
    }
    proof {
        lemma_trim_end_char_at(v@, c, k as int);
    }
    slice_chars(v, 0, k)
}

// ───────────────────────── splitting ─────────────────────────

/// `str::split(sep)` for a single character: `n` separators give `n + 1`
/// pieces, empty pieces included. Stated by growing the input one character at
/// a time.
pub open spec fn split(s: Seq<char>, sep: char) -> Seq<Seq<char>>
    decreases s.len(),
{
    if s.len() == 0 {
        seq![Seq::<char>::empty()]
    } else {
        let p = split(s.drop_last(), sep);
        if s.last() == sep {
            p.push(Seq::<char>::empty())
        } else {
            p.update(p.len() - 1, p.last().push(s.last()))
        }
    }
}

pub proof fn lemma_split_nonempty(s: Seq<char>, sep: char)
    ensures
        split(s, sep).len() >= 1,
    decreases s.len(),
{
    if s.len() > 0 {
        lemma_split_nonempty(s.drop_last(), sep);
    }
}

/// Piece list of `v` split at every `sep`.
pub fn split_chars(v: &Vec<char>, sep: char) -> (r: Vec<Vec<char>>)
    ensures
        r.len() == split(v@, sep).len(),
        forall|i: int| 0 <= i < r.len() ==> (#[trigger] r[i])@ == split(v@, sep)[i],
{
    let mut done: Vec<Vec<char>> = Vec::new();
    let mut cur: Vec<char> = Vec::new();
    let mut i: usize = 0;
    while i < v.len()
        invariant
            i <= v.len(),
            done.len() + 1 == split(v@.subrange(0, i as int), sep).len(),
            forall|j: int|
                0 <= j < done.len() ==> (#[trigger] done[j])@ == split(
                    v@.subrange(0, i as int),
                    sep,
                )[j],
            cur@ == split(v@.subrange(0, i as int), sep).last(),
        decreases v.len() - i,
    {
        let ghost before = v@.subrange(0, i as int);
        let ghost after = v@.subrange(0, i + 1);
        proof {
            assert(after.drop_last() =~= before);
            lemma_split_nonempty(before, sep);
        }
        let c = v[i];
        if c == sep {
            let finished = cur;
            done.push(finished);
            cur = Vec::new();
        } else {
            cur.push(c);
        }
        i = i + 1;
        proof {
            assert(v@.subrange(0, i as int) == after);
        }
    }
    assert(v@.subrange(0, v.len() as int) =~= v@);
    let last = cur;
    done.push(last);
    done
}

/// `str::lines`: pieces between `\n` separators, each losing one trailing
/// `\r` when a `\n` follows it; a final line ending adds no empty line and
/// the empty string has no lines.
pub open spec fn lines(s: Seq<char>) -> Seq<Seq<char>> {
    let p = split(s, '\n');
    let terminated = p.drop_last().map_values(|l: Seq<char>| strip_cr(l));
    if s.len() == 0 || s.last() == '\n' {
        terminated
    } else {
        terminated.push(p.last())
    }
}

pub open spec fn strip_cr(l: Seq<char>) -> Seq<char> {
    if l.len() > 0 && l.last() == '\r' {
        l.drop_last()
    } else {
        l
    }
}

fn strip_cr_chars(l: &Vec<char>) -> (r: Vec<char>)
    ensures
        r@ == strip_cr(l@),
{
    if l.len() > 0 && l[l.len() - 1] == '\r' {
        slice_chars(l, 0, l.len() - 1)
    } else {
        slice_chars(l, 0, l.len())
    }
}

/// Lines of `v`, as `str::lines` yields them.
pub fn lines_chars(v: &Vec<char>) -> (r: Vec<Vec<char>>)
    ensures
        r.len() == lines(v@).len(),
        forall|i: int| 0 <= i < r.len() ==> (#[trigger] r[i])@ == lines(v@)[i],
{
    let pieces = split_chars(v, '\n');
    proof {
        lemma_split_nonempty(v@, '\n');
    }
    let ghost p = split(v@, '\n');
    let ghost t = p.drop_last().map_values(|l: Seq<char>| strip_cr(l));
    let mut out: Vec<Vec<char>> = Vec::new();
    let mut i: usize = 0;
    while i + 1 < pieces.len()
        invariant
            pieces.len() == p.len(),
            p.len() >= 1,
            p == split(v@, '\n'),
            t == p.drop_last().map_values(|l: Seq<char>| strip_cr(l)),
            forall|j: int| 0 <= j < pieces.len() ==> (#[trigger] pieces[j])@ == p[j],
            i + 1 <= pieces.len(),
            out.len() == i,
            forall|j: int| 0 <= j < i ==> (#[trigger] out[j])@ == t[j],
        decreases pieces.len() - i,
    {
        let l = strip_cr_chars(&pieces[i]);
        out.push(l);
        i = i + 1;
    }
    let last_index = pieces.len() - 1;
    if v.len() == 0 || v[v.len() - 1] == '\n' {
        assert(lines(v@) == t);
    } else {
        let l = slice_chars(&pieces[last_index], 0, pieces[last_index].len());
        out.push(l);
        assert(lines(v@) == t.push(p.last()));
    }
    out
}

/// `str::split_whitespace`: the maximal runs of non-whitespace characters.
pub open spec fn words(s: Seq<char>) -> Seq<Seq<char>>
    decreases s.len(),
{
    if s.len() == 0 {
        Seq::empty()
    } else {
        let w = words(s.drop_last());
        let c = s.last();
        if is_ws(c) {
            w
        } else if s.len() >= 2 && !is_ws(s[s.len() - 2]) {
            w.update(w.len() - 1, w.last().push(c))
        } else {
            w.push(seq![c])
        }
    }
}

pub proof fn lemma_words_nonempty_after_word_char(s: Seq<char>)
    requires
        s.len() > 0,
        !is_ws(s.last()),
    ensures
        words(s).len() >= 1,
    decreases s.len(),
{
    if s.len() >= 2 && !is_ws(s[s.len() - 2]) {
        let t = s.drop_last();
        assert(t.last() == s[s.len() - 2]);
        lemma_words_nonempty_after_word_char(t);
    }
}

/// `str::split_whitespace` over characters.
pub fn words_chars(v: &Vec<char>) -> (r: Vec<Vec<char>>)
    ensures
        r.len() == words(v@).len(),
        forall|i: int| 0 <= i < r.len() ==> (#[trigger] r[i])@ == words(v@)[i],
{
    let mut done: Vec<Vec<char>> = Vec::new();
    let mut cur: Vec<char> = Vec::new();
    let mut in_word = false;
    let mut i: usize = 0;
    while i < v.len()
        invariant
            i <= v.len(),
            in_word == (i > 0 && !is_ws(v@[i - 1])),
            in_word ==> done.len() + 1 == words(v@.subrange(0, i as int)).len(),
            in_word ==> cur@ == words(v@.subrange(0, i as int)).last(),
            !in_word ==> done.len() == words(v@.subrange(0, i as int)).len(),
            forall|j: int|
                0 <= j < done.len() ==> (#[trigger] done[j])@ == words(
                    v@.subrange(0, i as int),
                )[j],
        decreases v.len() - i,
    {
        let ghost before = v@.subrange(0, i as int);
        let ghost after = v@.subrange(0, i + 1);
        proof {
            assert(after.drop_last() =~= before);
            if i > 0 {
                assert(after[after.len() - 2] == v@[i - 1]);
            }
        }
        let c = v[i];
        if whitespace(c) {
            if in_word {
                let finished = cur;
                done.push(finished);
                cur = Vec::new();
            }
            in_word = false;
        } else {
            if in_word {
                cur.push(c);
            } else {
                cur = Vec::new();
                cur.push(c);
                assert(cur@ =~= seq![c]);
            }
            in_word = true;
        }
        i = i + 1;
        proof {
            assert(v@.subrange(0, i as int) == after);
        }
    }
    assert(v@.subrange(0, v.len() as int) =~= v@);
    if in_word {
        let last = cur;
        done.push(last);
    }
    done
}

// ───────────────────────── substring search ─────────────────────────

pub open spec fn matches_at(hay: Seq<char>, needle: Seq<char>, i: int) -> bool {
    0 <= i && i + needle.len() <= hay.len() && hay.subrange(i, i + needle.len()) == needle
}

/// `str::contains(&str)`.
pub open spec fn contains(hay: Seq<char>, needle: Seq<char>) -> bool {
    exists|i: int| matches_at(hay, needle, i)
}

pub open spec fn starts_with(hay: Seq<char>, prefix: Seq<char>) -> bool {
    matches_at(hay, prefix, 0)
}

pub open spec fn ends_with(hay: Seq<char>, suffix: Seq<char>) -> bool {
    suffix.len() <= hay.len() && matches_at(hay, suffix, hay.len() - suffix.len())
}

/// `str::find(&str)`: the leftmost match position.
pub open spec fn find(hay: Seq<char>, needle: Seq<char>) -> Option<int> {
    if contains(hay, needle) {
        Some(choose|i: int| matches_at(hay, needle, i) && forall|j: int| 0 <= j < i ==> !matches_at(hay, needle, j))
    } else {
        None
    }
}

fn matches_at_exec(hay: &Vec<char>, needle: &Vec<char>, i: usize) -> (r: bool)
    requires
        i + needle.len() <= hay.len(),
    ensures
        r == matches_at(hay@, needle@, i as int),
{
    let mut k: usize = 0;
    while k < needle.len()
        invariant
            i + needle.len() <= hay.len(),
            k <= needle.len(),
            forall|j: int| 0 <= j < k ==> hay@[i + j] == needle@[j],
        decreases needle.len() - k,
    {
        if hay[i + k] != needle[k] {
            assert(hay@.subrange(i as int, i + needle.len())[k as int] != needle@[k as int]);
            return false;
        }
        k = k + 1;
    }
    assert(hay@.subrange(i as int, i + needle.len()) =~= needle@);
    true
}

/// Leftmost position of `needle` in `hay`.
pub fn find_chars(hay: &Vec<char>, needle: &Vec<char>) -> (r: Option<usize>)
    ensures
        match r {
            Some(i) => find(hay@, needle@) == Some(i as int),
            None => find(hay@, needle@) is None,
        },
        r is Some <==> contains(hay@, needle@),
        r matches Some(i) ==> matches_at(hay@, needle@, i as int),
{
    if needle.len() > hay.len() {
        assert(!contains(hay@, needle@));
        return None;
    }
    let last = hay.len() - needle.len();
    let mut i: usize = 0;
    loop
        invariant
            last == hay.len() - needle.len(),
            i <= last,
            forall|j: int| 0 <= j < i ==> !matches_at(hay@, needle@, j),
        decreases last - i,
    {
        if matches_at_exec(hay, needle, i) {
            proof {
                let w = choose|k: int|
                    matches_at(hay@, needle@, k) && forall|j: int|
                        0 <= j < k ==> !matches_at(hay@, needle@, j);
                assert(matches_at(hay@, needle@, i as int) && forall|j: int|
                    0 <= j < i ==> !matches_at(hay@, needle@, j));
                if w < i {
                } else if w > i {
                    assert(!matches_at(hay@, needle@, i as int));
                }
            }
            return Some(i);
        }
        if i == last {
            assert(!contains(hay@, needle@));
            return None;
        }
        i = i + 1;
    }
}

pub fn contains_chars(hay: &Vec<char>, needle: &Vec<char>) -> (r: bool)
    ensures
        r == contains(hay@, needle@),
{
    find_chars(hay, needle).is_some()
}

pub fn starts_with_chars(hay: &Vec<char>, prefix: &Vec<char>) -> (r: bool)
    ensures
        r == starts_with(hay@, prefix@),
{
    if prefix.len() > hay.len() {
        false
    } else {
        matches_at_exec(hay, prefix, 0)
    }
}

pub fn ends_with_chars(hay: &Vec<char>, suffix: &Vec<char>) -> (r: bool)
    ensures
        r == ends_with(hay@, suffix@),
{
    if suffix.len() > hay.len() {
        false
    } else {
        matches_at_exec(hay, suffix, hay.len() - suffix.len())
    }
}

/// Whether the single character `c` occurs in `v`.
pub fn has_char(v: &Vec<char>, c: char) -> (r: bool)
    ensures
        r == v@.contains(c),
{
    let mut i: usize = 0;
    while i < v.len()
        invariant
            i <= v.len(),
            forall|j: int| 0 <= j < i ==> v@[j] != c,
        decreases v.len() - i,
    {
        if v[i] == c {
            return true;
        }
        i = i + 1;
    }
    false
}

// ───────────────────────── unsigned decimal parsing ─────────────────────────

/// Why an unsigned integer could not be parsed; the kinds of
/// `core::num::ParseIntError` that an unsigned target can produce.
#[derive(Debug, Clone, Copy, PartialEq, Eq, Structural)]
pub enum IntErrorKind {
    Empty,
    InvalidDigit,
    PosOverflow,
}

/// Digits read left to right onto `acc`: the first non-digit is an invalid
/// digit, the first digit that lifts the value above `max` an overflow.
pub open spec fn parse_digits(s: Seq<char>, acc: nat, max: nat) -> Result<nat, IntErrorKind>
    decreases s.len(),
{
    if s.len() == 0 {
        Ok(acc)
    } else if !is_digit(s[0]) {
        Err(IntErrorKind::InvalidDigit)
    } else {
        let v = acc * 10 + digit_value(s[0]);
        if v > max {
            Err(IntErrorKind::PosOverflow)
        } else {
            parse_digits(s.drop_first(), v, max)
        }
    }
}

/// `str::parse` for an unsigned integer type whose largest value is `max`:
/// one optional leading `+`, then decimal digits only.
pub open spec fn parse_unsigned(s: Seq<char>, max: nat) -> Result<nat, IntErrorKind> {
    if s.len() == 0 {
        Err(IntErrorKind::Empty)
    } else if (s[0] == '+' || s[0] == '-') && s.len() == 1 {
        Err(IntErrorKind::InvalidDigit)
    } else if s[0] == '+' {
        parse_digits(s.drop_first(), 0, max)
    } else {
        parse_digits(s, 0, max)
    }
}

pub proof fn lemma_parse_digits_bounded(s: Seq<char>, acc: nat, max: nat)
    requires
        acc <= max,
    ensures
        parse_digits(s, acc, max) matches Ok(v) ==> v <= max,
    decreases s.len(),
{
    if s.len() > 0 && is_digit(s[0]) {
        let v = acc * 10 + digit_value(s[0]);
        if v <= max {
            lemma_parse_digits_bounded(s.drop_first(), v, max);
        }
    }
}

pub fn parse_unsigned_chars(v: &Vec<char>, max: u64) -> (r: Result<u64, IntErrorKind>)
    ensures
        match r {
            Ok(n) => parse_unsigned(v@, max as nat) == Ok::<nat, IntErrorKind>(n as nat),
            Err(e) => parse_unsigned(v@, max as nat) == Err::<nat, IntErrorKind>(e),
        },
        r matches Ok(n) ==> n <= max,
{
    if v.len() == 0 {
        return Err(IntErrorKind::Empty);
    }
    if (v[0] == '+' || v[0] == '-') && v.len() == 1 {
        return Err(IntErrorKind::InvalidDigit);
    }
    let mut i: usize = if v[0] == '+' {
        1
    } else {
        0
    };
    let ghost digits = v@.subrange(i as int, v.len() as int);
    proof {
        if i == 1 {
            assert(digits =~= v@.drop_first());
        } else {
            assert(digits =~= v@);
        }
        assert(parse_unsigned(v@, max as nat) == parse_digits(digits, 0, max as nat));
    }
    let start = i;
    let mut acc: u64 = 0;
    while i < v.len()
        invariant
            start <= i <= v.len(),
            digits == v@.subrange(start as int, v.len() as int),
            acc <= max,
            parse_digits(v@.subrange(i as int, v.len() as int), acc as nat, max as nat)
                == parse_digits(digits, 0, max as nat),
            parse_unsigned(v@, max as nat) == parse_digits(digits, 0, max as nat),
        decreases v.len() - i,
    {
        let ghost rest = v@.subrange(i as int, v.len() as int);
        let c = v[i];
        assert(rest[0] == c);
        if !digit(c) {
            return Err(IntErrorKind::InvalidDigit);
        }
        let d = (c as u32 - 48) as u64;
        assert(d as nat == digit_value(c));
        let next: u128 = (acc as u128) * 10 + (d as u128);
        if next > max as u128 {
            return Err(IntErrorKind::PosOverflow);
        }
        acc = next as u64;
        i = i + 1;
        assert(rest.drop_first() =~= v@.subrange(i as int, v.len() as int));
    }
    assert(v@.subrange(i as int, v.len() as int) =~= Seq::<char>::empty());
    Ok(acc)
}

/// `str::parse::<uN>().ok()` for a target whose largest value is `max`.
pub open spec fn parse_unsigned_opt(s: Seq<char>, max: nat) -> Option<nat> {
    match parse_unsigned(s, max) {
        Ok(n) => Some(n),
        Err(_) => None,
    }
}

pub fn parse_u32_chars(v: &Vec<char>) -> (r: Option<u32>)
    ensures
        match r {
            Some(n) => parse_unsigned_opt(v@, u32::MAX as nat) == Some(n as nat),
            None => parse_unsigned_opt(v@, u32::MAX as nat) is None,
        },
{
    match parse_unsigned_chars(v, u32::MAX as u64) {
        Ok(n) => Some(n as u32),
        Err(_) => None,
    }
}

pub fn parse_u64_chars(v: &Vec<char>) -> (r: Option<u64>)
    ensures
        match r {
            Some(n) => parse_unsigned_opt(v@, u64::MAX as nat) == Some(n as nat),
            None => parse_unsigned_opt(v@, u64::MAX as nat) is None,
        },
{
    match parse_unsigned_chars(v, u64::MAX) {
        Ok(n) => Some(n),
        Err(_) => None,
    }
}

// ───────────────────────── number rendering ─────────────────────────

pub open spec fn digit_char(d: nat) -> char {
    ((d + '0' as u32) as u32) as char
}

/// `n` in decimal, as `Display` renders an unsigned integer.
pub open spec fn decimal(n: nat) -> Seq<char>
    decreases n,
{
    if n < 10 {
        seq![digit_char(n)]
    } else {
        decimal(n / 10).push(digit_char(n % 10))
    }
}

/// Append `n` in decimal to `out`.
pub fn push_decimal(out: &mut String, n: u64)
    ensures
        final(out)@ == old(out)@ + decimal(n as nat),
    decreases n,
{
    if n >= 10 {
        push_decimal(out, n / 10);
    }
    let d = (n % 10) as u8 + 48;
    let c = d as char;
    proof {
        assert(c == digit_char((n % 10) as nat));
    }
    push_char(out, c);
    proof {
        if n >= 10 {
            assert(final(out)@ =~= old(out)@ + decimal(n as nat));
        } else {
            assert(final(out)@ =~= old(out)@ + decimal(n as nat));
        }
    }
}

pub open spec fn hex_char(d: nat) -> char {
    if d < 10 {
        digit_char(d)
    } else {
        ((d - 10 + 'a' as u32) as u32) as char
    }
}

/// `format!("{:016x}", n)`: sixteen lowercase hexadecimal digits, most
/// significant first.
pub open spec fn hex16(n: u64) -> Seq<char> {
    Seq::new(16, |i: int| hex_char(((n >> ((60 - 4 * i) as u64)) & 0xf) as nat))
}

pub fn push_hex16(out: &mut String, n: u64)
    ensures
        final(out)@ == old(out)@ + hex16(n),
{
    let ghost start = out@;
    let mut i: u64 = 0;
    while i < 16
        invariant
            i <= 16,
            out@ == start + hex16(n).subrange(0, i as int),
        decreases 16 - i,
    {
        let sh: u64 = 60 - 4 * i;
        let d = (n >> sh) & 0xf;
        assert(d < 16) by (bit_vector)
            requires
                d == (n >> sh) & 0xf,
        ;
        let code: u8 = if d < 10 {
            d as u8 + 48
        } else {
            d as u8 - 10 + 97
        };
        let c = code as char;
        proof {
            assert(c == hex_char(d as nat));
            assert(hex16(n)[i as int] == hex_char(((n >> ((60 - 4 * i) as u64)) & 0xf) as nat));
        }
        push_char(out, c);
        i = i + 1;
        assert(out@ =~= start + hex16(n).subrange(0, i as int));
    }
    assert(hex16(n).subrange(0, 16) =~= hex16(n));
}

} // verus!
