//! Text utilities over Unicode scalar sequences.

use vstd::prelude::*;
use vstd::std_specs::iter::IteratorSpec;

verus! {

/// Appends one character to a `String` (`String::push`).
/// Claimed: the string afterwards is the old one followed by `c`.
#[verifier::external_body]
pub(crate) fn push_char(s: &mut String, c: char)
    ensures
        final(s)@ == old(s)@.push(c),
{
    s.push(c);
}

/// The characters of `s`, in order.
pub fn chars_of(s: &str) -> (out: Vec<char>)
    ensures
        out@ == s@,
{
    let mut out: Vec<char> = Vec::new();
    let mut it = s.chars();
    for c in iter: it
        invariant
            out@ == iter.seq().take(iter.index() as int),
            iter.seq() == s@,
    {
        out.push(c);
    }
    out
}

/// A `String` holding exactly `chars`.
pub fn string_of(chars: &Vec<char>) -> (out: String)
    ensures
        out@ == chars@,
{
    let mut out = String::new();
    for i in 0..chars.len()
        invariant
            out@ == chars@.take(i as int),
    {
        push_char(&mut out, chars[i]);
        assert(chars@.take(i + 1) == chars@.take(i as int).push(chars@[i as int]));
    }
    out
}


/// `s` begins with `p`.
pub open spec fn has_prefix(s: Seq<char>, p: Seq<char>) -> bool {
    p.len() <= s.len() && s.take(p.len() as int) == p
}

/// `s` ends with `p`.
pub open spec fn has_suffix(s: Seq<char>, p: Seq<char>) -> bool {
    p.len() <= s.len() && s.skip(s.len() - p.len()) == p
}

/// `p` occurs in `s` starting at position `i`.
pub open spec fn occurs_at(s: Seq<char>, p: Seq<char>, i: int) -> bool {
    0 <= i && i + p.len() <= s.len() && s.subrange(i, i + p.len()) == p
}

/// `p` occurs somewhere in `s`.
pub open spec fn has_infix(s: Seq<char>, p: Seq<char>) -> bool {
    exists|i: int| occurs_at(s, p, i)
}

/// Every non-overlapping occurrence of `pat` in `s`, scanned from the left,
/// replaced by `rep` (the semantics of `str::replace` for a non-empty pattern).
pub open spec fn replace_all(s: Seq<char>, pat: Seq<char>, rep: Seq<char>) -> Seq<char>
    decreases s.len(),
{
    if pat.len() == 0 || s.len() < pat.len() {
        s
    } else if s.take(pat.len() as int) == pat {
        rep + replace_all(s.skip(pat.len() as int), pat, rep)
    } else {
        seq![s[0]] + replace_all(s.skip(1), pat, rep)
    }
}

/// Whether `p` occurs in `s` at position `i`.
pub fn occurs_at_exec(s: &Vec<char>, p: &Vec<char>, i: usize) -> (r: bool)
    ensures
        r == occurs_at(s@, p@, i as int),
{
    if i > s.len() || p.len() > s.len() - i {
        return false;
    }
    let mut k: usize = 0;
    while k < p.len()
        invariant
            i + p.len() <= s.len(),
            k <= p.len(),
            forall|j: int| 0 <= j < k ==> s@[i + j] == p@[j],
        decreases p.len() - k,
    {
        if s[i + k] != p[k] {
            assert(s@.subrange(i as int, i + p.len())[k as int] != p@[k as int]);
            return false;
        }
        k = k + 1;
    }
    assert(s@.subrange(i as int, i + p.len()) =~= p@);
    true
}

/// Replaces every occurrence of a non-empty `pat` in `s` by `rep`, leftmost first.
pub fn replace_all_exec(s: &Vec<char>, pat: &Vec<char>, rep: &Vec<char>) -> (out: Vec<char>)
    requires
        pat.len() > 0,
    ensures
        out@ == replace_all(s@, pat@, rep@),
{
    let mut out: Vec<char> = Vec::new();
    let mut i: usize = 0;
    assert(s@.skip(0) =~= s@);
    assert(out@ + replace_all(s@, pat@, rep@) =~= replace_all(s@, pat@, rep@));
    while i < s.len()
        invariant
            pat.len() > 0,
            i <= s.len(),
            replace_all(s@, pat@, rep@) == out@ + replace_all(s@.skip(i as int), pat@, rep@),
        decreases s.len() - i,
    {
        let ghost rest = s@.skip(i as int);
        if occurs_at_exec(s, pat, i) {
            assert(rest.take(pat@.len() as int) =~= s@.subrange(i as int, i + pat@.len()));
            assert(rest.skip(pat@.len() as int) =~= s@.skip(i + pat@.len()));
            let mut k: usize = 0;
            let ghost before = out@;
            while k < rep.len()
                invariant
                    k <= rep.len(),
                    out@ == before + rep@.take(k as int),
                decreases rep.len() - k,
            {
                out.push(rep[k]);
                assert(rep@.take(k + 1) =~= rep@.take(k as int).push(rep@[k as int]));
                k = k + 1;
            }
            assert(rep@.take(rep@.len() as int) =~= rep@);
            assert(before + (rep@ + replace_all(rest.skip(pat@.len() as int), pat@, rep@))
                =~= (before + rep@) + replace_all(rest.skip(pat@.len() as int), pat@, rep@));
            i = i + pat.len();
        } else {
            proof {
                if rest.len() >= pat@.len() {
                    assert(rest.take(pat@.len() as int) =~= s@.subrange(i as int, i + pat@.len()));
                }
            }
            assert(rest.skip(1) =~= s@.skip(i + 1));
            let ghost before = out@;
            out.push(s[i]);
            assert(before + (seq![rest[0]] + replace_all(rest.skip(1), pat@, rep@))
                =~= before.push(s@[i as int]) + replace_all(rest.skip(1), pat@, rep@));
            proof {
                if rest.len() < pat@.len() {
                    // the tail is left as it is, one character at a time
                    assert(replace_all(rest.skip(1), pat@, rep@) == rest.skip(1));
                    assert(rest =~= seq![rest[0]] + rest.skip(1));
                }
            }
            i = i + 1;
        }
    }
    assert(s@.skip(i as int).len() == 0);
    assert(out@ + s@.skip(i as int) =~= out@);
    out
}


/// The characters `s[from..to]`.
pub fn slice_chars(s: &Vec<char>, from: usize, to: usize) -> (out: Vec<char>)
    requires
        from <= to <= s.len(),
    ensures
        out@ == s@.subrange(from as int, to as int),
{
    let mut out: Vec<char> = Vec::new();
    let mut k: usize = from;
    while k < to
        invariant
            from <= k <= to <= s.len(),
            out@ == s@.subrange(from as int, k as int),
        decreases to - k,
    {
        out.push(s[k]);
        assert(s@.subrange(from as int, k + 1) =~= s@.subrange(from as int, k as int).push(s@[k as int]));
        k = k + 1;
    }
    out
}

/// Appends `extra` to `out`.
pub fn extend_chars(out: &mut Vec<char>, extra: &Vec<char>)
    ensures
        final(out)@ == old(out)@ + extra@,
{
    let ghost start = out@;
    let mut k: usize = 0;
    while k < extra.len()
        invariant
            k <= extra.len(),
            out@ == start + extra@.take(k as int),
        decreases extra.len() - k,
    {
        out.push(extra[k]);
        assert(extra@.take(k + 1) =~= extra@.take(k as int).push(extra@[k as int]));
        k = k + 1;
    }
    assert(extra@.take(extra@.len() as int) =~= extra@);
}

/// Appends the characters of `extra` to `out`.
pub fn extend_str(out: &mut Vec<char>, extra: &str)
    ensures
        final(out)@ == old(out)@ + extra@,
{
    let chars = chars_of(extra);
    extend_chars(out, &chars);
}

/// The position of the first `c` in `s`, or `s.len()` where there is none.
pub open spec fn index_of(s: Seq<char>, c: char) -> int
    decreases s.len(),
{
    if s.len() == 0 {
        0
    } else if s[0] == c {
        0
    } else {
        1 + index_of(s.skip(1), c)
    }
}

/// `index_of` is the first position that holds `c`, or the length.
pub proof fn lemma_index_of(s: Seq<char>, c: char, k: int)
    requires
        0 <= k <= s.len(),
        forall|j: int| 0 <= j < k ==> s[j] != c,
        k < s.len() ==> s[k] == c,
    ensures
        index_of(s, c) == k,
    decreases k,
{
    if k > 0 {
        assert forall|j: int| 0 <= j < k - 1 implies s.skip(1)[j] != c by {
            assert(s.skip(1)[j] == s[j + 1]);
        }
        if k - 1 < s.skip(1).len() {
            assert(s.skip(1)[k - 1] == s[k]);
        }
        lemma_index_of(s.skip(1), c, k - 1);
    }
}

/// The position of the first `c` in `s` at or after `from`, or `s.len()`.
pub fn index_of_from(s: &Vec<char>, c: char, from: usize) -> (r: usize)
    requires
        from <= s.len(),
    ensures
        from <= r <= s.len(),
        r - from == index_of(s@.skip(from as int), c),
        forall|j: int| from <= j < r ==> s@[j] != c,
        r < s.len() ==> s@[r as int] == c,
{
    let mut k: usize = from;
    while k < s.len() && s[k] != c
        invariant
            from <= k <= s.len(),
            forall|j: int| from <= j < k ==> s@[j] != c,
        decreases s.len() - k,
    {
        k = k + 1;
    }
    proof {
        let t = s@.skip(from as int);
        assert forall|j: int| 0 <= j < k - from implies t[j] != c by {
            assert(t[j] == s@[from + j]);
        }
        if k < s.len() {
            assert(t[k - from] == s@[k as int]);
        }
        lemma_index_of(t, c, k - from);
    }
    k
}

/// A line without the carriage return that preceded its line feed.
pub open spec fn strip_cr(line: Seq<char>) -> Seq<char> {
    if line.len() > 0 && line.last() == '\r' {
        line.drop_last()
    } else {
        line
    }
}

/// The lines of `s` as `str::lines` yields them: split at each `\n`, a `\r`
/// just before that `\n` removed, and no empty line after a final `\n`.
pub open spec fn lines_of(s: Seq<char>) -> Seq<Seq<char>>
    decreases s.len(),
{
    if s.len() == 0 {
        Seq::empty()
    } else {
        let i = index_of(s, '\n');
        proof {
            lemma_index_of_bound(s, '\n');
        }
        if i >= s.len() {
            seq![s]
        } else {
            seq![strip_cr(s.take(i))] + lines_of(s.skip(i + 1))
        }
    }
}

/// The first line of `s`, if it has one.
pub open spec fn first_line(s: Seq<char>) -> Option<Seq<char>> {
    if lines_of(s).len() == 0 {
        None
    } else {
        Some(lines_of(s)[0])
    }
}

/// `index_of` stays within the sequence.
pub proof fn lemma_index_of_bound(s: Seq<char>, c: char)
    ensures
        0 <= index_of(s, c) <= s.len(),
    decreases s.len(),
{
    if s.len() > 0 && s[0] != c {
        lemma_index_of_bound(s.skip(1), c);
    }
}

fn without_cr(line: Vec<char>) -> (out: Vec<char>)
    ensures
        out@ == strip_cr(line@),
{
    let mut line = line;
    if line.len() > 0 && line[line.len() - 1] == '\r' {
        line.pop();
    }
    line
}

/// The character sequences held by a vector of character vectors.
pub open spec fn views(v: Seq<Vec<char>>) -> Seq<Seq<char>> {
    v.map_values(|x: Vec<char>| x@)
}

/// The lines of `s`, split as `str::lines` does.
pub fn split_lines(s: &Vec<char>) -> (out: Vec<Vec<char>>)
    ensures
        views(out@) == lines_of(s@),
{
    let mut out: Vec<Vec<char>> = Vec::new();
    let mut i: usize = 0;
    assert(s@.skip(0) =~= s@);
    assert(views(out@) + lines_of(s@) =~= lines_of(s@));
    while i < s.len()
        invariant
            i <= s.len(),
            lines_of(s@) == views(out@) + lines_of(s@.skip(i as int)),
        decreases s.len() - i,
    {
        let ghost rest = s@.skip(i as int);
        let ghost before = views(out@);
        let j = index_of_from(s, '\n', i);
        let piece = slice_chars(s, i, j);
        assert(rest.take(j - i) =~= s@.subrange(i as int, j as int));
        if j < s.len() {
            let line = without_cr(piece);
            out.push(line);
            assert(rest.skip(j - i + 1) =~= s@.skip(j + 1));
            assert(views(out@) =~= before.push(strip_cr(rest.take(j - i))));
            assert(before + (seq![strip_cr(rest.take(j - i))] + lines_of(rest.skip(j - i + 1)))
                =~= views(out@) + lines_of(s@.skip(j + 1)));
            i = j + 1;
        } else {
            out.push(piece);
            assert(rest =~= s@.subrange(i as int, j as int));
            assert(views(out@) =~= before.push(rest));
            assert(s@.skip(j as int).len() == 0);
            assert(lines_of(s@.skip(j as int)) =~= Seq::<Seq<char>>::empty());
            assert(before + seq![rest] =~= views(out@) + lines_of(s@.skip(j as int)));
            i = j;
        }
    }
    assert(lines_of(s@.skip(i as int)) =~= Seq::<Seq<char>>::empty());
    assert(views(out@) + Seq::<Seq<char>>::empty() =~= views(out@));
    out
}


/// Unicode's White_Space property (PropList.txt), the characters for which
/// `char::is_whitespace` answers true: tab to carriage return, space, next
/// line, no-break space, ogham space mark, the en quad to hair space block,
/// line and paragraph separators, narrow no-break space, medium mathematical
/// space and ideographic space.
pub open spec fn white_space(c: char) -> bool {
    let u = c as u32;
    ||| 0x9 <= u <= 0xD
    ||| u == 0x20
    ||| u == 0x85
    ||| u == 0xA0
    ||| u == 0x1680
    ||| 0x2000 <= u <= 0x200A
    ||| u == 0x2028
    ||| u == 0x2029
    ||| u == 0x202F
    ||| u == 0x205F
    ||| u == 0x3000
}

/// Whether `c` has the White_Space property (`char::is_whitespace`).
pub fn is_white_space(c: char) -> (r: bool)
    ensures
        r == white_space(c),
{
    let u = c as u32;
    (0x9 <= u && u <= 0xD) || u == 0x20 || u == 0x85 || u == 0xA0 || u == 0x1680
        || (0x2000 <= u && u <= 0x200A) || u == 0x2028 || u == 0x2029 || u == 0x202F
        || u == 0x205F || u == 0x3000
}

/// Which characters a strip removes from the ends of a text.
#[derive(Clone, Copy)]
pub enum Strip {
    /// Characters with the White_Space property (`str::trim`).
    Whitespace,
    /// One given character (`str::trim_matches` with a `char`).
    Char(char),
}

/// Whether `strip` removes `c`.
pub open spec fn strips(strip: Strip, c: char) -> bool {
    match strip {
        Strip::Whitespace => white_space(c),
        Strip::Char(d) => c == d,
    }
}

/// `s` without the leading characters that `strip` removes.
pub open spec fn strip_start(s: Seq<char>, strip: Strip) -> Seq<char>
    decreases s.len(),
{
    if s.len() > 0 && strips(strip, s[0]) {
        strip_start(s.skip(1), strip)
    } else {
        s
    }
}

/// `s` without the trailing characters that `strip` removes.
pub open spec fn strip_end(s: Seq<char>, strip: Strip) -> Seq<char>
    decreases s.len(),
{
    if s.len() > 0 && strips(strip, s.last()) {
        strip_end(s.drop_last(), strip)
    } else {
        s
    }
}

/// `s` without the characters that `strip` removes at either end.
pub open spec fn strip_both(s: Seq<char>, strip: Strip) -> Seq<char> {
    strip_end(strip_start(s, strip), strip)
}

/// `s` as `str::trim` leaves it.
pub open spec fn trim(s: Seq<char>) -> Seq<char> {
    strip_both(s, Strip::Whitespace)
}

fn strips_exec(strip: Strip, c: char) -> (r: bool)
    ensures
        r == strips(strip, c),
{
    match strip {
        Strip::Whitespace => is_white_space(c),
        Strip::Char(d) => c == d,
    }
}

/// Stripping the start of `s` is stripping the start of `s` past a prefix of
/// characters that the strip removes.
proof fn lemma_strip_start_skip(s: Seq<char>, strip: Strip, k: int)
    requires
        0 <= k <= s.len(),
        forall|j: int| 0 <= j < k ==> strips(strip, s[j]),
    ensures
        strip_start(s, strip) == strip_start(s.skip(k), strip),
    decreases k,
{
    if k > 0 {
        assert forall|j: int| 0 <= j < k - 1 implies strips(strip, s.skip(1)[j]) by {
            assert(s.skip(1)[j] == s[j + 1]);
        }
        lemma_strip_start_skip(s.skip(1), strip, k - 1);
        assert(s.skip(1).skip(k - 1) =~= s.skip(k));
    } else {
        assert(s.skip(0) =~= s);
    }
}

/// Stripping the end of `s` is stripping the end of `s` cut before a suffix of
/// characters that the strip removes.
proof fn lemma_strip_end_take(s: Seq<char>, strip: Strip, k: int)
    requires
        0 <= k <= s.len(),
        forall|j: int| k <= j < s.len() ==> strips(strip, s[j]),
    ensures
        strip_end(s, strip) == strip_end(s.take(k), strip),
    decreases s.len() - k,
{
    if k < s.len() {
        assert forall|j: int| k <= j < s.drop_last().len() implies strips(strip, s.drop_last()[j]) by {
            assert(s.drop_last()[j] == s[j]);
        }
        lemma_strip_end_take(s.drop_last(), strip, k);
        assert(s.drop_last().take(k) =~= s.take(k));
    } else {
        assert(s.take(k) =~= s);
    }
}

/// The characters of `s` with those that `strip` removes taken away at both ends.
pub fn strip_exec(s: &Vec<char>, strip: Strip) -> (out: Vec<char>)
    ensures
        out@ == strip_both(s@, strip),
{
    let mut a: usize = 0;
    while a < s.len() && strips_exec(strip, s[a])
        invariant
            a <= s.len(),
            forall|j: int| 0 <= j < a ==> strips(strip, s@[j]),
        decreases s.len() - a,
    {
        a = a + 1;
    }
    proof {
        lemma_strip_start_skip(s@, strip, a as int);
    }
    let mut b: usize = s.len();
    while b > a && strips_exec(strip, s[b - 1])
        invariant
            a <= b <= s.len(),
            forall|j: int| b <= j < s.len() ==> strips(strip, s@[j]),
        decreases b,
    {
        b = b - 1;
    }
    let out = slice_chars(s, a, b);
    proof {
        let t = s@.skip(a as int);
        if a < s.len() {
            assert(t[0] == s@[a as int]);
        }
        assert(strip_start(t, strip) == t);
        assert forall|j: int| b - a <= j < t.len() implies strips(strip, t[j]) by {
            assert(t[j] == s@[a + j]);
        }
        lemma_strip_end_take(t, strip, b - a);
        let u = t.take(b - a);
        assert(u =~= s@.subrange(a as int, b as int));
        if b > a {
            assert(u.last() == s@[b - 1]);
        }
        assert(strip_end(u, strip) == u);
    }
    out
}

/// Whether `s` begins with `p`.
pub fn has_prefix_exec(s: &Vec<char>, p: &Vec<char>) -> (r: bool)
    ensures
        r == has_prefix(s@, p@),
{
    let r = occurs_at_exec(s, p, 0);
    proof {
        if p@.len() <= s@.len() {
            assert(s@.subrange(0, p@.len() as int) =~= s@.take(p@.len() as int));
        }
    }
    r
}

/// Whether `s` ends with `p`.
pub fn has_suffix_exec(s: &Vec<char>, p: &Vec<char>) -> (r: bool)
    ensures
        r == has_suffix(s@, p@),
{
    if p.len() > s.len() {
        return false;
    }
    let r = occurs_at_exec(s, p, s.len() - p.len());
    assert(s@.subrange(s@.len() - p@.len(), s@.len() as int) =~= s@.skip(s@.len() - p@.len()));
    r
}

/// Whether `p` occurs in `s`.
pub fn has_infix_exec(s: &Vec<char>, p: &Vec<char>) -> (r: bool)
    ensures
        r == has_infix(s@, p@),
{
    if p.len() > s.len() {
        return false;
    }
    let last = s.len() - p.len();
    let mut i: usize = 0;
    while i < last
        invariant
            i <= last == s.len() - p.len(),
            forall|j: int| 0 <= j < i ==> !occurs_at(s@, p@, j),
        decreases last - i,
    {
        if occurs_at_exec(s, p, i) {
            return true;
        }
        i = i + 1;
    }
    if occurs_at_exec(s, p, last) {
        return true;
    }
    assert forall|j: int| !occurs_at(s@, p@, j) by {
        if 0 <= j < i {
        }
    }
    false
}

/// The first line of `s`, as `s.lines().next()` gives it.
pub fn first_line_exec(s: &Vec<char>) -> (r: Option<Vec<char>>)
    ensures
        match r {
            Some(l) => first_line(s@) == Some(l@),
            None => first_line(s@) is None,
        },
{
    if s.len() == 0 {
        return None;
    }
    let j = index_of_from(s, '\n', 0);
    assert(s@.skip(0) =~= s@);
    let piece = slice_chars(s, 0, j);
    assert(s@.take(j as int) =~= s@.subrange(0, j as int));
    if j < s.len() {
        Some(without_cr(piece))
    } else {
        assert(s@.subrange(0, j as int) =~= s@);
        Some(piece)
    }
}


/// The decimal digit for `d < 10`.
pub open spec fn digit_char(d: nat) -> char {
    if d == 0 { '0' }
    else if d == 1 { '1' }
    else if d == 2 { '2' }
    else if d == 3 { '3' }
    else if d == 4 { '4' }
    else if d == 5 { '5' }
    else if d == 6 { '6' }
    else if d == 7 { '7' }
    else if d == 8 { '8' }
    else { '9' }
}

/// `n` written in decimal, without leading zeros.
pub open spec fn decimal(n: nat) -> Seq<char>
    decreases n,
{
    if n < 10 {
        seq![digit_char(n)]
    } else {
        decimal(n / 10) + seq![digit_char(n % 10)]
    }
}

/// `s` preceded by as many `'0'` as bring it to `width` characters.
pub open spec fn zero_pad(s: Seq<char>, width: nat) -> Seq<char> {
    if s.len() >= width {
        s
    } else {
        Seq::new((width - s.len()) as nat, |i: int| '0') + s
    }
}

fn digit_exec(d: u64) -> (c: char)
    requires
        d < 10,
    ensures
        c == digit_char(d as nat),
{
    if d == 0 { '0' }
    else if d == 1 { '1' }
    else if d == 2 { '2' }
    else if d == 3 { '3' }
    else if d == 4 { '4' }
    else if d == 5 { '5' }
    else if d == 6 { '6' }
    else if d == 7 { '7' }
    else if d == 8 { '8' }
    else { '9' }
}

/// Appends `n` in decimal to `out`.
pub fn push_decimal(out: &mut Vec<char>, n: u64)
    ensures
        final(out)@ == old(out)@ + decimal(n as nat),
    decreases n,
{
    if n >= 10 {
        push_decimal(out, n / 10);
    }
    let c = digit_exec(n % 10);
    out.push(c);
    assert(old(out)@ + decimal(n as nat) =~= out@) by {
        if n >= 10 {
            assert(old(out)@ + (decimal((n / 10) as nat) + seq![c])
                =~= (old(out)@ + decimal((n / 10) as nat)) + seq![c]);
        }
    }
}

/// Appends `n` in decimal, zero-padded to `width`, to `out`.
pub fn push_padded_decimal(out: &mut Vec<char>, n: u64, width: usize)
    ensures
        final(out)@ == old(out)@ + zero_pad(decimal(n as nat), width as nat),
{
    let mut digits: Vec<char> = Vec::new();
    push_decimal(&mut digits, n);
    assert(digits@ =~= decimal(n as nat));
    let mut k: usize = digits.len();
    let ghost start = out@;
    while k < width
        invariant
            digits.len() <= k <= width || k == digits.len(),
            digits@ == decimal(n as nat),
            out@ == start + Seq::new((k - digits.len()) as nat, |i: int| '0'),
        decreases width - k,
    {
        out.push('0');
        assert(Seq::new((k + 1 - digits.len()) as nat, |i: int| '0')
            =~= Seq::new((k - digits.len()) as nat, |i: int| '0').push('0'));
        k = k + 1;
    }
    let ghost zeros = out@;
    extend_chars(out, &digits);
    assert(out@ =~= start + zero_pad(decimal(n as nat), width as nat)) by {
        if digits.len() >= width {
            assert(k == digits.len());
            assert(Seq::new(0nat, |i: int| '0') =~= Seq::<char>::empty());
            assert(zeros =~= start);
        }
    }
}

/// `parts` joined, with `sep` between neighbours (`[T]::join`).
pub open spec fn join(parts: Seq<Seq<char>>, sep: Seq<char>) -> Seq<char>
    decreases parts.len(),
{
    if parts.len() == 0 {
        Seq::empty()
    } else if parts.len() == 1 {
        parts[0]
    } else {
        join(parts.drop_last(), sep) + sep + parts.last()
    }
}

/// The strings of `parts`, in order.
pub open spec fn string_views(parts: Seq<String>) -> Seq<Seq<char>> {
    parts.map_values(|x: String| x@)
}

/// `parts` joined with `sep` between neighbours.
pub fn join_strings(parts: &Vec<String>, sep: &str) -> (out: String)
    ensures
        out@ == join(string_views(parts@), sep@),
{
    let mut acc: Vec<char> = Vec::new();
    let ghost all = string_views(parts@);
    for i in 0..parts.len()
        invariant
            all == string_views(parts@),
            acc@ == join(all.take(i as int), sep@),
    {
        assert(all.take(i + 1).drop_last() =~= all.take(i as int));
        if i > 0 {
            extend_str(&mut acc, sep);
        }
        extend_str(&mut acc, parts[i].as_str());
        proof {
            if i == 0 {
                assert(all.take(1)[0] == all[0]);
                assert(acc@ =~= all[0]);
            }
        }
    }
    assert(all.take(parts.len() as int) =~= all);
    string_of(&acc)
}


/// An owned copy of `s`.
pub fn text_of(s: &str) -> (out: String)
    ensures
        out@ == s@,
{
    let chars = chars_of(s);
    string_of(&chars)
}

/// Whether `a` and `b` hold the same characters.
pub fn same_chars(a: &Vec<char>, b: &Vec<char>) -> (r: bool)
    ensures
        r == (a@ == b@),
{
    if a.len() != b.len() {
        return false;
    }
    let r = occurs_at_exec(a, b, 0);
    assert(a@.subrange(0, b@.len() as int) =~= a@);
    r
}

/// Whether `a` and `b` are the same text.
pub fn same_text(a: &str, b: &str) -> (r: bool)
    ensures
        r == (a@ == b@),
{
    let x = chars_of(a);
    let y = chars_of(b);
    same_chars(&x, &y)
}


/// The code point of `c` is below 0x80.
pub open spec fn ascii_char(c: char) -> bool {
    (c as u32) < 0x80
}

/// Every character of `s` is ASCII.
pub open spec fn ascii_text(s: Seq<char>) -> bool {
    forall|i: int| 0 <= i < s.len() ==> ascii_char(#[trigger] s[i])
}

/// An ASCII letter or digit: `A`..=`Z`, `a`..=`z`, `0`..=`9`.
pub open spec fn ascii_alphanumeric(c: char) -> bool {
    let u = c as u32;
    (0x41 <= u <= 0x5A) || (0x61 <= u <= 0x7A) || (0x30 <= u <= 0x39)
}

/// What `char::is_alphanumeric` answers for a character beyond ASCII
/// (Unicode Alphabetic or Numeric).
pub uninterp spec fn alphanumeric_beyond_ascii(c: char) -> bool;

/// What `char::is_alphanumeric` answers for `c`: for ASCII, the letters and
/// digits; beyond ASCII, Unicode's Alphabetic and Numeric properties.
pub open spec fn alphanumeric(c: char) -> bool {
    if ascii_char(c) {
        ascii_alphanumeric(c)
    } else {
        alphanumeric_beyond_ascii(c)
    }
}

/// `char::is_alphanumeric`. Claimed: on ASCII the answer is true exactly for
/// the letters and digits (Alphabetic and Numeric meet ASCII there); beyond
/// ASCII it is `alphanumeric_beyond_ascii(c)`, a function of `c` alone, and
/// which characters qualify is left unsaid.
#[verifier::external_body]
pub(crate) fn is_alphanumeric(c: char) -> (r: bool)
    ensures
        ascii_char(c) ==> r == ascii_alphanumeric(c),
        !ascii_char(c) ==> r == alphanumeric_beyond_ascii(c),
{
    c.is_alphanumeric()
}

/// `c` with `A`..=`Z` turned into `a`..=`z`.
pub open spec fn ascii_lower(c: char) -> char {
    let u = c as u32;
    if 0x41 <= u <= 0x5A {
        (u + 32) as char
    } else {
        c
    }
}

/// What `str::to_lowercase` gives for text that is not all ASCII.
pub uninterp spec fn lowercase_beyond_ascii(s: Seq<char>) -> Seq<char>;

/// What `str::to_lowercase` gives for `s`: ASCII text with each capital
/// letter made small; other text by Unicode's lowercase mapping.
pub open spec fn lowercase(s: Seq<char>) -> Seq<char> {
    if ascii_text(s) {
        s.map_values(|c: char| ascii_lower(c))
    } else {
        lowercase_beyond_ascii(s)
    }
}

/// `str::to_lowercase`. Claimed: for ASCII text, each capital letter made
/// small and every other character kept; for other text the result is
/// `lowercase_beyond_ascii(s)`, a function of the text alone, and the Unicode
/// case mapping itself is left unsaid.
#[verifier::external_body]
pub(crate) fn to_lowercase(s: &str) -> (r: String)
    ensures
        ascii_text(s@) ==> r@ == s@.map_values(|c: char| ascii_lower(c)),
        !ascii_text(s@) ==> r@ == lowercase_beyond_ascii(s@),
{
    s.to_lowercase()
}

/// The first position at which `p` occurs in `s`.
pub open spec fn find_text(s: Seq<char>, p: Seq<char>) -> Option<int>
    decreases s.len(),
{
    if s.len() < p.len() {
        None
    } else if has_prefix(s, p) {
        Some(0)
    } else if s.len() == 0 {
        None
    } else {
        match find_text(s.skip(1), p) {
            Some(i) => Some(i + 1),
            None => None,
        }
    }
}

/// `find_text` is the first position where `p` occurs, or none.
proof fn lemma_find_text(s: Seq<char>, p: Seq<char>, k: int)
    requires
        0 <= k,
        forall|j: int| 0 <= j < k ==> !occurs_at(s, p, j),
        k < s.len() + 1 - p.len() ==> occurs_at(s, p, k),
        k >= s.len() + 1 - p.len() ==> forall|j: int| !occurs_at(s, p, j),
    ensures
        find_text(s, p) == (if k < s.len() + 1 - p.len() { Some(k) } else { None::<int> }),
    decreases s.len(),
{
    if s.len() < p.len() {
    } else if has_prefix(s, p) {
        assert(s.subrange(0, p.len() as int) =~= s.take(p.len() as int));
        assert(occurs_at(s, p, 0));
    } else if s.len() == 0 {
        assert(s.subrange(0, p.len() as int) =~= s.take(p.len() as int));
    } else {
        assert(s.subrange(0, p.len() as int) =~= s.take(p.len() as int));
        assert(!occurs_at(s, p, 0));
        let t = s.skip(1);
        assert forall|j: int| 0 <= j < k - 1 implies !occurs_at(t, p, j) by {
            if j + p.len() <= t.len() {
                assert(t.subrange(j, j + p.len()) =~= s.subrange(j + 1, j + 1 + p.len()));
                assert(!occurs_at(s, p, j + 1));
            }
        }
        if k < s.len() + 1 - p.len() {
            assert(k >= 1);
            assert(t.subrange(k - 1, k - 1 + p.len()) =~= s.subrange(k, k + p.len()));
        } else {
            assert forall|j: int| !occurs_at(t, p, j) by {
                if 0 <= j && j + p.len() <= t.len() {
                    assert(t.subrange(j, j + p.len()) =~= s.subrange(j + 1, j + 1 + p.len()));
                }
            }
        }
        if k >= 1 {
            lemma_find_text(t, p, k - 1);
        } else {
            assert(false);
        }
    }
}

/// The first position at which `p` occurs in `s`, as `str::find` gives it.
pub fn find_text_exec(s: &Vec<char>, p: &Vec<char>) -> (r: Option<usize>)
    ensures
        r matches Some(i) ==> find_text(s@, p@) == Some(i as int),
        r is None ==> find_text(s@, p@) is None,
        r matches Some(i) ==> occurs_at(s@, p@, i as int),
{
    if p.len() > s.len() {
        proof {
            assert forall|j: int| !occurs_at(s@, p@, j) by {}
            lemma_find_text(s@, p@, 0);
        }
        return None;
    }
    let last = s.len() - p.len();
    let mut i: usize = 0;
    while i <= last
        invariant
            last == s.len() - p.len(),
            i <= last + 1,
            forall|j: int| 0 <= j < i ==> !occurs_at(s@, p@, j),
        decreases last + 1 - i,
    {
        if occurs_at_exec(s, p, i) {
            proof {
                lemma_find_text(s@, p@, i as int);
            }
            return Some(i);
        }
        if i == last {
            proof {
                assert forall|j: int| !occurs_at(s@, p@, j) by {
                    if 0 <= j <= last {
                    }
                }
                lemma_find_text(s@, p@, (last + 1) as int);
            }
            return None;
        }
        i = i + 1;
    }
    proof {
        lemma_find_text(s@, p@, (last + 1) as int);
    }
    None
}


/// `a` followed by `b`.
pub fn concat2(a: &str, b: &str) -> (out: String)
    ensures
        out@ == a@ + b@,
{
    let mut v = chars_of(a);
    extend_str(&mut v, b);
    string_of(&v)
}

/// `a`, `b` and `c`, one after the other.
pub fn concat3(a: &str, b: &str, c: &str) -> (out: String)
    ensures
        out@ == a@ + b@ + c@,
{
    let mut v = chars_of(a);
    extend_str(&mut v, b);
    extend_str(&mut v, c);
    string_of(&v)
}

} // verus!
