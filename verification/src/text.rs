//! Text as sequences of characters: the vocabulary every contract in this crate is
//! written in, and the executable routines that compute it.
//!
//! Strings cross the crate boundary as `&str` and `String`; inside, they are
//! unpacked into `Vec<char>` so that positions are character positions.

use vstd::prelude::*;

verus! {

/// `String::push` appends exactly one character to the end of the string.
pub assume_specification[ String::push ](s: &mut String, ch: char)
    ensures
        final(s)@ == old(s)@.push(ch),
;

/// Whether `c` carries the Unicode `White_Space` property.
pub open spec fn is_space(c: char) -> bool {
    let n = c as u32;
    ||| 0x09 <= n <= 0x0D
    ||| n == 0x20
    ||| n == 0x85
    ||| n == 0xA0
    ||| n == 0x1680
    ||| 0x2000 <= n <= 0x200A
    ||| n == 0x2028
    ||| n == 0x2029
    ||| n == 0x202F
    ||| n == 0x205F
    ||| n == 0x3000
}

/// `s` without its leading white space.
pub open spec fn trim_start(s: Seq<char>) -> Seq<char>
    decreases s.len(),
{
    if s.len() > 0 && is_space(s.first()) {
        trim_start(s.drop_first())
    } else {
        s
    }
}

/// `s` without its trailing white space.
pub open spec fn trim_end(s: Seq<char>) -> Seq<char>
    decreases s.len(),
{
    if s.len() > 0 && is_space(s.last()) {
        trim_end(s.drop_last())
    } else {
        s
    }
}

/// `s` without leading and trailing white space.
pub open spec fn trim(s: Seq<char>) -> Seq<char> {
    trim_end(trim_start(s))
}

/// Whether `s` holds nothing but white space.
pub open spec fn is_blank(s: Seq<char>) -> bool {
    trim(s).len() == 0
}

/// Whether `pat` stands in `s` at position `i`.
pub open spec fn matches_at(s: Seq<char>, pat: Seq<char>, i: int) -> bool {
    0 <= i && i + pat.len() <= s.len() && s.subrange(i, i + pat.len()) =~= pat
}

/// The first position at or after `from` where `pat` stands in `s`.
pub open spec fn find_from(s: Seq<char>, pat: Seq<char>, from: int) -> Option<int>
    decreases s.len() - pat.len() - from + 1,
{
    if from < 0 || from + pat.len() > s.len() {
        None
    } else if matches_at(s, pat, from) {
        Some(from)
    } else {
        find_from(s, pat, from + 1)
    }
}

/// The first position where `pat` stands in `s`.
pub open spec fn find(s: Seq<char>, pat: Seq<char>) -> Option<int> {
    find_from(s, pat, 0)
}

/// Whether `s` begins with `pat`.
pub open spec fn starts_with(s: Seq<char>, pat: Seq<char>) -> bool {
    matches_at(s, pat, 0)
}

/// The position of the first `c` in `s`, or `s.len()` where there is none.
pub open spec fn position(s: Seq<char>, c: char) -> int
    decreases s.len(),
{
    if s.len() == 0 || s.first() == c {
        0
    } else {
        1 + position(s.drop_first(), c)
    }
}

/// The pieces of `s` between occurrences of `sep`: the text before the first
/// `sep`, then the pieces of what follows it. A text without `sep` is one piece.
pub open spec fn split_on(s: Seq<char>, sep: char) -> Seq<Seq<char>>
    decreases s.len(),
{
    let k = position(s, sep);
    if 0 <= k < s.len() {
        seq![s.take(k)] + split_on(s.skip(k + 1), sep)
    } else {
        seq![s]
    }
}

/// The `parts` written one after another with `sep` between neighbours.
pub open spec fn join(parts: Seq<Seq<char>>, sep: Seq<char>) -> Seq<char>
    decreases parts.len(),
{
    if parts.len() == 0 {
        Seq::empty()
    } else if parts.len() == 1 {
        parts[0]
    } else {
        join(parts.drop_last(), sep) + sep + parts.last()
    }
}

/// The character for a decimal digit `0..=9`.
pub open spec fn digit(d: int) -> char {
    if d == 0 {
        '0'
    } else if d == 1 {
        '1'
    } else if d == 2 {
        '2'
    } else if d == 3 {
        '3'
    } else if d == 4 {
        '4'
    } else if d == 5 {
        '5'
    } else if d == 6 {
        '6'
    } else if d == 7 {
        '7'
    } else if d == 8 {
        '8'
    } else {
        '9'
    }
}

/// A natural number in decimal, without leading zeros.
pub open spec fn decimal_nat(n: nat) -> Seq<char>
    decreases n,
{
    if n < 10 {
        seq![digit(n as int)]
    } else {
        decimal_nat(n / 10).push(digit((n % 10) as int))
    }
}

/// An integer in decimal, with a leading `-` where it is negative.
pub open spec fn decimal(n: int) -> Seq<char> {
    if n < 0 {
        seq!['-'] + decimal_nat((-n) as nat)
    } else {
        decimal_nat(n as nat)
    }
}

/// The character sequences behind a list of strings.
pub open spec fn texts(list: Seq<String>) -> Seq<Seq<char>> {
    list.map_values(|s: String| s@)
}

/// The character sequences behind a list of character vectors.
pub open spec fn rows(list: Seq<Vec<char>>) -> Seq<Seq<char>> {
    list.map_values(|v: Vec<char>| v@)
}

/// White space at the front does not change what is left after trimming the
/// front.
pub proof fn lemma_trim_start_skips(s: Seq<char>, k: int)
    requires
        0 <= k <= s.len(),
        forall|j: int| 0 <= j < k ==> is_space(#[trigger] s[j]),
    ensures
        trim_start(s) == trim_start(s.skip(k)),
    decreases k,
{
    if k > 0 {
        assert(s.drop_first().skip(k - 1) =~= s.skip(k));
        lemma_trim_start_skips(s.drop_first(), k - 1);
    } else {
        assert(s.skip(0) =~= s);
    }
}

/// White space at the end does not change what is left after trimming the
/// end.
pub proof fn lemma_trim_end_takes(s: Seq<char>, k: int)
    requires
        0 <= k <= s.len(),
        forall|j: int| k <= j < s.len() ==> is_space(#[trigger] s[j]),
    ensures
        trim_end(s) == trim_end(s.take(k)),
    decreases s.len() - k,
{
    if k < s.len() {
        assert(s.drop_last().take(k) =~= s.take(k));
        lemma_trim_end_takes(s.drop_last(), k);
    } else {
        assert(s.take(k) =~= s);
    }
}

/// Where no `c` stands before position `k`, the first `c` is at `k` or later.
pub proof fn lemma_position_skips(s: Seq<char>, c: char, k: int)
    requires
        0 <= k <= s.len(),
        forall|j: int| 0 <= j < k ==> #[trigger] s[j] != c,
    ensures
        position(s, c) == k + position(s.skip(k), c),
    decreases k,
{
    if k > 0 {
        let t = s.drop_first();
        assert(t.skip(k - 1) =~= s.skip(k));
        assert forall|j: int| 0 <= j < k - 1 implies #[trigger] t[j] != c by {
            assert(t[j] == s[j + 1]);
        }
        lemma_position_skips(t, c, k - 1);
    } else {
        assert(s.skip(0) =~= s);
    }
}

/// `position` stays within the text, and names a `c` where it is inside it.
pub proof fn lemma_position_bounds(s: Seq<char>, c: char)
    ensures
        0 <= position(s, c) <= s.len(),
        position(s, c) < s.len() ==> s[position(s, c)] == c,
        forall|j: int| 0 <= j < position(s, c) ==> #[trigger] s[j] != c,
    decreases s.len(),
{
    if s.len() == 0 || s.first() == c {
    } else {
        let t = s.drop_first();
        lemma_position_bounds(t, c);
        assert forall|j: int| 0 <= j < position(s, c) implies #[trigger] s[j] != c by {
            if j > 0 {
                assert(s[j] == t[j - 1]);
            }
        }
    }
}

/// A text without the separator is its own single piece.
pub proof fn lemma_split_without_separator(s: Seq<char>, sep: char)
    requires
        !s.contains(sep),
    ensures
        split_on(s, sep) == seq![s],
{
    lemma_position_bounds(s, sep);
}

/// Splitting around one separator splits each side on its own.
pub proof fn lemma_split_around(a: Seq<char>, b: Seq<char>, sep: char)
    ensures
        split_on(a + seq![sep] + b, sep) == split_on(a, sep) + split_on(b, sep),
    decreases a.len(),
{
    let whole = a + seq![sep] + b;
    lemma_position_bounds(a, sep);
    let k = position(a, sep);
    assert forall|j: int| 0 <= j < k implies #[trigger] whole[j] != sep by {
        assert(whole[j] == a[j]);
    }
    lemma_position_skips(whole, sep, k);
    assert(whole.skip(k).first() == sep);
    assert(position(whole, sep) == k);
    if k < a.len() {
        assert(whole.take(k) =~= a.take(k));
        assert(whole.skip(k + 1) =~= a.skip(k + 1) + seq![sep] + b);
        lemma_split_around(a.skip(k + 1), b, sep);
        assert(split_on(whole, sep) =~= split_on(a, sep) + split_on(b, sep));
    } else {
        assert(whole.take(k) =~= a);
        assert(whole.skip(k + 1) =~= b);
        assert(split_on(whole, sep) =~= split_on(a, sep) + split_on(b, sep));
    }
}

/// Joining with a separator and splitting on it again gives the parts back, as
/// long as there is at least one part and no part holds the separator.
pub proof fn lemma_split_of_join(parts: Seq<Seq<char>>, sep: char)
    requires
        parts.len() >= 1,
        forall|i: int| 0 <= i < parts.len() ==> !(#[trigger] parts[i]).contains(sep),
    ensures
        split_on(join(parts, seq![sep]), sep) == parts,
    decreases parts.len(),
{
    if parts.len() == 1 {
        lemma_split_without_separator(parts[0], sep);
        assert(seq![parts[0]] =~= parts);
    } else {
        let init = parts.drop_last();
        assert forall|i: int| 0 <= i < init.len() implies !(#[trigger] init[i]).contains(sep) by {
            assert(init[i] == parts[i]);
        }
        lemma_split_of_join(init, sep);
        lemma_split_around(join(init, seq![sep]), parts.last(), sep);
        lemma_split_without_separator(parts.last(), sep);
        assert(init + seq![parts.last()] =~= parts);
    }
}

/// Executable test for the `White_Space` property.
pub fn char_is_space(c: char) -> (b: bool)
    ensures
        b == is_space(c),
{
    let n: u32 = c as u32;
    (0x09 <= n && n <= 0x0D) || n == 0x20 || n == 0x85 || n == 0xA0 || n == 0x1680 || (0x2000 <= n
        && n <= 0x200A) || n == 0x2028 || n == 0x2029 || n == 0x202F || n == 0x205F || n == 0x3000
}

/// The characters of a string, one element each.
pub fn to_chars(s: &str) -> (v: Vec<char>)
    ensures
        v@ == s@,
{
    let mut v: Vec<char> = Vec::new();
    for c in it: s.chars()
        invariant
            v@ == s@.take(it.index() as int),
            it.seq() == s@,
    {
        v.push(c);
    }
    v
}

/// The string made of the given characters.
pub fn from_chars(v: &Vec<char>) -> (s: String)
    ensures
        s@ == v@,
{
    let mut s = String::new();
    let mut i: usize = 0;
    while i < v.len()
        invariant
            i <= v.len(),
            s@ == v@.take(i as int),
        decreases v.len() - i,
    {
        s.push(v[i]);
        i += 1;
    }
    s
}

/// A copy of the characters of `v` from `from` up to, not including, `to`.
pub fn copy_range(v: &Vec<char>, from: usize, to: usize) -> (out: Vec<char>)
    requires
        from <= to <= v.len(),
    ensures
        out@ == v@.subrange(from as int, to as int),
{
    let mut out: Vec<char> = Vec::new();
    let mut i: usize = from;
    while i < to
        invariant
            from <= i <= to <= v.len(),
            out@ == v@.subrange(from as int, i as int),
        decreases to - i,
    {
        out.push(v[i]);
        i += 1;
    }
    out
}

/// Appends the characters of `tail` to `acc`.
pub fn extend_chars(acc: &mut Vec<char>, tail: &Vec<char>)
    ensures
        final(acc)@ == old(acc)@ + tail@,
{
    let mut i: usize = 0;
    while i < tail.len()
        invariant
            i <= tail.len(),
            acc@ == old(acc)@ + tail@.take(i as int),
        decreases tail.len() - i,
    {
        acc.push(tail[i]);
        i += 1;
    }
}

/// `v` without leading and trailing white space.
pub fn trim_chars(v: &Vec<char>) -> (out: Vec<char>)
    ensures
        out@ == trim(v@),
{
    let n = v.len();
    let mut a: usize = 0;
    while a < n && char_is_space(v[a])
        invariant
            a <= n == v.len(),
            forall|j: int| 0 <= j < a ==> is_space(#[trigger] v@[j]),
        decreases n - a,
    {
        a += 1;
    }
    let mut b: usize = n;
    while b > a && char_is_space(v[b - 1])
        invariant
            a <= b <= n == v.len(),
            forall|j: int| b <= j < n ==> is_space(#[trigger] v@[j]),
        decreases b,
    {
        b -= 1;
    }
    proof {
        let rest = v@.skip(a as int);
        lemma_trim_start_skips(v@, a as int);
        assert(trim_start(v@) == rest);
        assert forall|j: int| b - a <= j < rest.len() implies is_space(#[trigger] rest[j]) by {
            assert(rest[j] == v@[j + a]);
        }
        lemma_trim_end_takes(rest, b - a);
        assert(rest.take(b - a) =~= v@.subrange(a as int, b as int));
        if b > a {
            assert(v@.subrange(a as int, b as int).last() == v@[b - 1]);
        }
    }
    copy_range(v, a, b)
}

/// Whether `pat` stands in `s` at position `i`.
pub fn matches_at_chars(s: &Vec<char>, pat: &Vec<char>, i: usize) -> (b: bool)
    requires
        i + pat.len() <= s.len(),
    ensures
        b == matches_at(s@, pat@, i as int),
{
    let m = pat.len();
    let mut j: usize = 0;
    while j < m
        invariant
            j <= m == pat.len(),
            i + m <= s.len(),
            forall|k: int| 0 <= k < j ==> s@[i + k] == #[trigger] pat@[k],
        decreases m - j,
    {
        if s[i + j] != pat[j] {
            proof {
                let window = s@.subrange(i as int, i + m);
                assert(window[j as int] == s@[i + j]);
            }
            return false;
        }
        j += 1;
    }
    assert(s@.subrange(i as int, i + m) =~= pat@);
    true
}

/// The first position where `pat` stands in `s`.
pub fn find_chars(s: &Vec<char>, pat: &Vec<char>) -> (at: Option<usize>)
    ensures
        match at {
            Some(i) => find(s@, pat@) == Some(i as int) && matches_at(s@, pat@, i as int),
            None => find(s@, pat@).is_none(),
        },
{
    let n = s.len();
    let m = pat.len();
    if m > n {
        return None;
    }
    let mut i: usize = 0;
    while i <= n - m
        invariant
            m <= n == s.len(),
            m == pat.len(),
            i <= n - m + 1,
            find(s@, pat@) == find_from(s@, pat@, i as int),
        decreases n - m + 1 - i,
    {
        if matches_at_chars(s, pat, i) {
            return Some(i);
        }
        i += 1;
    }
    None
}

/// Whether `s` begins with `pat`.
pub fn starts_with_chars(s: &Vec<char>, pat: &Vec<char>) -> (b: bool)
    ensures
        b == starts_with(s@, pat@),
{
    if pat.len() > s.len() {
        false
    } else {
        matches_at_chars(s, pat, 0)
    }
}

/// The pieces of `s` between occurrences of `sep`.
pub fn split_chars(s: &Vec<char>, sep: char) -> (pieces: Vec<Vec<char>>)
    ensures
        rows(pieces@) == split_on(s@, sep),
{
    let n = s.len();
    let mut pieces: Vec<Vec<char>> = Vec::new();
    let mut start: usize = 0;
    let mut i: usize = 0;
    proof {
        assert(s@.skip(0) =~= s@);
        assert(rows(pieces@) + split_on(s@, sep) =~= split_on(s@, sep));
    }
    while i < n
        invariant
            start <= i <= n == s.len(),
            forall|j: int| start <= j < i ==> #[trigger] s@[j] != sep,
            split_on(s@, sep) == rows(pieces@) + split_on(s@.skip(start as int), sep),
        decreases n - i,
    {
        if s[i] == sep {
            let piece = copy_range(s, start, i);
            proof {
                let rest = s@.skip(start as int);
                assert forall|j: int| 0 <= j < i - start implies #[trigger] rest[j] != sep by {
                    assert(rest[j] == s@[j + start]);
                }
                lemma_position_skips(rest, sep, i - start);
                assert(rest.skip(i - start).first() == sep);
                assert(position(rest, sep) == i - start);
                assert(rest.take(i - start) =~= piece@);
                assert(rest.skip(i - start + 1) =~= s@.skip(i + 1));
                assert(rows(pieces@.push(piece)) =~= rows(pieces@).push(piece@));
                assert(rows(pieces@).push(piece@) + split_on(s@.skip(i + 1), sep) =~= rows(
                    pieces@,
                ) + split_on(rest, sep));
            }
            pieces.push(piece);
            start = i + 1;
        }
        i += 1;
    }
    let piece = copy_range(s, start, n);
    proof {
        let rest = s@.skip(start as int);
        assert(rest =~= piece@);
        assert forall|j: int| 0 <= j < rest.len() implies #[trigger] rest[j] != sep by {
            assert(rest[j] == s@[j + start]);
        }
        lemma_position_skips(rest, sep, rest.len() as int);
        assert(rest.skip(rest.len() as int).len() == 0);
        assert(position(rest, sep) == rest.len());
        assert(rows(pieces@.push(piece)) =~= rows(pieces@).push(piece@));
        assert(rows(pieces@).push(piece@) =~= rows(pieces@) + seq![rest]);
    }
    pieces.push(piece);
    pieces
}

/// The `parts` written one after another with `sep` between neighbours.
pub fn join_chars(parts: &Vec<Vec<char>>, sep: &Vec<char>) -> (out: Vec<char>)
    ensures
        out@ == join(rows(parts@), sep@),
{
    let mut out: Vec<char> = Vec::new();
    let mut i: usize = 0;
    while i < parts.len()
        invariant
            i <= parts.len(),
            out@ == join(rows(parts@).take(i as int), sep@),
        decreases parts.len() - i,
    {
        proof {
            let done = rows(parts@).take(i as int);
            let next = rows(parts@).take(i + 1);
            assert(next.drop_last() =~= done);
            assert(next.last() == parts@[i as int]@);
            if i > 0 {
                assert(join(next, sep@) == join(done, sep@) + sep@ + parts@[i as int]@);
            } else {
                assert(join(next, sep@) == parts@[i as int]@);
                assert(out@ + parts@[i as int]@ =~= parts@[i as int]@);
            }
        }
        if i > 0 {
            extend_chars(&mut out, sep);
        }
        extend_chars(&mut out, &parts[i]);
        i += 1;
    }
    assert(rows(parts@).take(parts.len() as int) =~= rows(parts@));
    out
}

/// The character for a decimal digit.
pub fn digit_char(d: u8) -> (c: char)
    requires
        d < 10,
    ensures
        c == digit(d as int),
{
    if d == 0 {
        '0'
    } else if d == 1 {
        '1'
    } else if d == 2 {
        '2'
    } else if d == 3 {
        '3'
    } else if d == 4 {
        '4'
    } else if d == 5 {
        '5'
    } else if d == 6 {
        '6'
    } else if d == 7 {
        '7'
    } else if d == 8 {
        '8'
    } else {
        '9'
    }
}

/// A natural number in decimal.
pub fn decimal_nat_chars(n: u64) -> (out: Vec<char>)
    ensures
        out@ == decimal_nat(n as nat),
    decreases n,
{
    if n < 10 {
        let mut out: Vec<char> = Vec::new();
        out.push(digit_char(n as u8));
        assert(out@ =~= seq![digit(n as int)]);
        out
    } else {
        let mut out = decimal_nat_chars(n / 10);
        out.push(digit_char((n % 10) as u8));
        out
    }
}

/// A 32-bit integer in decimal, with a leading `-` where it is negative.
pub fn decimal_chars(n: i32) -> (out: Vec<char>)
    ensures
        out@ == decimal(n as int),
{
    if n < 0 {
        let magnitude: u64 = (-(n as i64)) as u64;
        let mut out: Vec<char> = Vec::new();
        out.push('-');
        let digits = decimal_nat_chars(magnitude);
        extend_chars(&mut out, &digits);
        assert(out@ =~= seq!['-'] + decimal_nat((-n) as nat));
        out
    } else {
        decimal_nat_chars(n as u64)
    }
}

/// Whether two strings hold the same characters.
pub fn same_text(a: &str, b: &str) -> (same: bool)
    ensures
        same == (a@ == b@),
{
    let left = to_chars(a);
    let right = to_chars(b);
    if left.len() != right.len() {
        return false;
    }
    let same = matches_at_chars(&left, &right, 0);
    assert(left@.subrange(0, left@.len() as int) =~= left@);
    same
}

} // verus!
