//! Character-level text handling used throughout the library.
//!
//! Strings are modelled by their character sequences (`s@: Seq<char>`).
//! Most of the work happens on `Vec<char>`, converted at the edges.
use vstd::prelude::*;
use vstd::string::*;

verus! {

// ---------------------------------------------------------------------------
// Conversions between `str`/`String` and character vectors
// ---------------------------------------------------------------------------

/// The characters of `s`, in order.
pub fn chars_of(s: &str) -> (r: Vec<char>)
    ensures
        r@ == s@,
{
    let mut r: Vec<char> = Vec::new();
    for c in it: s.chars()
        invariant
            it.seq() == s@,
            r@ == it.seq().take(it.index() as int),
    {
        r.push(c);
    }
    r
}

/// Appends one character to a string (`String::push`).
#[verifier::external_body]
fn push_char(s: &mut String, c: char)
    ensures
        final(s)@ == old(s)@.push(c),
{
    s.push(c);
}

/// The string made of the characters of `v`.
pub fn string_of(v: &Vec<char>) -> (r: String)
    ensures
        r@ == v@,
{
    let mut r = String::new();
    for i in 0..v.len()
        invariant
            r@ == v@.take(i as int),
    {
        push_char(&mut r, v[i]);
        assert(v@.take(i + 1) =~= v@.take(i as int).push(v@[i as int]));
    }
    assert(v@.take(v.len() as int) =~= v@);
    r
}

/// An owned copy of `s`.
pub fn owned(s: &str) -> (r: String)
    ensures
        r@ == s@,
{
    s.to_owned()
}

/// Whether two character vectors hold the same characters.
pub fn chars_eq(a: &Vec<char>, b: &Vec<char>) -> (r: bool)
    ensures
        r == (a@ == b@),
{
    if a.len() != b.len() {
        return false;
    }
    for i in 0..a.len()
        invariant
            a.len() == b.len(),
            forall|j: int| 0 <= j < i ==> a@[j] == b@[j],
    {
        if a[i] != b[i] {
            return false;
        }
    }
    assert(a@ =~= b@);
    true
}

/// Whether two strings hold the same characters.
pub fn str_eq(a: &str, b: &str) -> (r: bool)
    ensures
        r == (a@ == b@),
{
    chars_eq(&chars_of(a), &chars_of(b))
}

/// Appends the characters of `t` to `v`.
pub fn extend_chars(v: &mut Vec<char>, t: &Vec<char>)
    ensures
        final(v)@ == old(v)@ + t@,
{
    let ghost start = v@;
    for i in 0..t.len()
        invariant
            v@ == start + t@.take(i as int),
    {
        v.push(t[i]);
        assert(t@.take(i + 1) =~= t@.take(i as int).push(t@[i as int]));
    }
    assert(t@.take(t.len() as int) =~= t@);
}

/// Appends the characters of `s` to `v`.
pub fn extend_str(v: &mut Vec<char>, s: &str)
    ensures
        final(v)@ == old(v)@ + s@,
{
    let t = chars_of(s);
    extend_chars(v, &t);
}

// ---------------------------------------------------------------------------
// Whitespace and trimming
// ---------------------------------------------------------------------------

/// Whether `c` has the Unicode `White_Space` property (the characters that
/// `char::is_whitespace` accepts): tab, line feed,
/// vertical tab, form feed, carriage return, space, next line, no-break
/// space, ogham space mark, the spaces U+2000 to U+200A, line and paragraph
/// separators, narrow no-break space, medium mathematical space and
/// ideographic space.
pub open spec fn is_white_space(c: char) -> bool {
    let n = c as u32;
    ||| 0x09 <= n <= 0x0d
    ||| n == 0x20
    ||| n == 0x85
    ||| n == 0xa0
    ||| n == 0x1680
    ||| 0x2000 <= n <= 0x200a
    ||| n == 0x2028
    ||| n == 0x2029
    ||| n == 0x202f
    ||| n == 0x205f
    ||| n == 0x3000
}

/// Whether `c` is whitespace (what `char::is_whitespace` answers).
fn char_is_whitespace(c: char) -> (r: bool)
    ensures
        r == is_white_space(c),
{
    let n = c as u32;
    (0x09 <= n && n <= 0x0d) || n == 0x20 || n == 0x85 || n == 0xa0 || n == 0x1680 || (0x2000
        <= n && n <= 0x200a) || n == 0x2028 || n == 0x2029 || n == 0x202f || n == 0x205f || n
        == 0x3000
}

/// The index of the first non-whitespace character of `s` at or after `i`
/// (or `s.len()` if there is none).
pub open spec fn skip_white_from(s: Seq<char>, i: int) -> int
    decreases s.len() - i,
{
    if i < 0 || i >= s.len() || !is_white_space(s[i]) {
        i
    } else {
        skip_white_from(s, i + 1)
    }
}

/// The end of `s.take(j)` once trailing whitespace is dropped.
pub open spec fn back_white_from(s: Seq<char>, j: int) -> int
    decreases j,
{
    if j <= 0 || j > s.len() || !is_white_space(s[j - 1]) {
        j
    } else {
        back_white_from(s, j - 1)
    }
}

/// `s` without leading and trailing whitespace (what `str::trim` returns).
pub open spec fn trimmed(s: Seq<char>) -> Seq<char> {
    let a = skip_white_from(s, 0);
    let b = back_white_from(s, s.len() as int);
    if a < b {
        s.subrange(a, b)
    } else {
        Seq::empty()
    }
}

/// `str::trim` on a character vector.
pub fn trim_chars(s: &Vec<char>) -> (r: Vec<char>)
    ensures
        r@ == trimmed(s@),
{
    let n = s.len();
    let mut a: usize = 0;
    while a < n && char_is_whitespace(s[a])
        invariant
            a <= n == s@.len(),
            skip_white_from(s@, a as int) == skip_white_from(s@, 0),
        decreases n - a,
    {
        a = a + 1;
    }
    assert(skip_white_from(s@, a as int) == a);
    let mut b: usize = n;
    while b > 0 && char_is_whitespace(s[b - 1])
        invariant
            b <= n == s@.len(),
            back_white_from(s@, b as int) == back_white_from(s@, n as int),
        decreases b,
    {
        b = b - 1;
    }
    assert(back_white_from(s@, b as int) == b);
    let mut r: Vec<char> = Vec::new();
    if a < b {
        let mut k = a;
        while k < b
            invariant
                a <= k <= b <= n == s@.len(),
                r@ == s@.subrange(a as int, k as int),
            decreases b - k,
        {
            r.push(s[k]);
            assert(s@.subrange(a as int, k + 1) =~= s@.subrange(a as int, k as int).push(
                s@[k as int],
            ));
            k = k + 1;
        }
    }
    r
}

// ---------------------------------------------------------------------------
// Splitting and joining
// ---------------------------------------------------------------------------

/// The separators that the library splits text on.
#[derive(Clone, Copy, PartialEq, Eq, Debug)]
pub enum Separator {
    /// Any whitespace character.
    White,
    /// A comma.
    Comma,
    /// A comma or a space.
    CommaOrSpace,
    /// An at sign.
    At,
}

/// Whether `c` separates pieces under `sep`.
pub open spec fn separates(sep: Separator, c: char) -> bool {
    match sep {
        Separator::White => is_white_space(c),
        Separator::Comma => c == ',',
        Separator::CommaOrSpace => c == ',' || c == ' ',
        Separator::At => c == '@',
    }
}

/// The pieces of `s` between separator characters, empty pieces included,
/// as `str::split` yields them: an empty text gives one empty piece.
pub open spec fn pieces(s: Seq<char>, sep: Separator) -> Seq<Seq<char>>
    decreases s.len(),
{
    if s.len() == 0 {
        seq![Seq::empty()]
    } else {
        let before = pieces(s.drop_last(), sep);
        if separates(sep, s.last()) {
            before.push(Seq::empty())
        } else {
            before.update(before.len() - 1, before.last().push(s.last()))
        }
    }
}

pub proof fn lemma_pieces_nonempty(s: Seq<char>, sep: Separator)
    ensures
        pieces(s, sep).len() >= 1,
    decreases s.len(),
{
    if s.len() > 0 {
        lemma_pieces_nonempty(s.drop_last(), sep);
    }
}

/// The non-empty pieces of `s` between whitespace (what
/// `str::split_whitespace` yields).
pub open spec fn words(s: Seq<char>) -> Seq<Seq<char>> {
    pieces(s, Separator::White).filter(|w: Seq<char>| w.len() > 0)
}

fn is_separator(sep: Separator, c: char) -> (r: bool)
    ensures
        r == separates(sep, c),
{
    match sep {
        Separator::White => char_is_whitespace(c),
        Separator::Comma => c == ',',
        Separator::CommaOrSpace => c == ',' || c == ' ',
        Separator::At => c == '@',
    }
}

/// The character sequences of a vector of character vectors.
pub open spec fn char_seqs(v: Seq<Vec<char>>) -> Seq<Seq<char>> {
    v.map_values(|w: Vec<char>| w@)
}

/// `str::split` on a character vector.
pub fn split_chars(s: &Vec<char>, sep: Separator) -> (r: Vec<Vec<char>>)
    ensures
        char_seqs(r@) == pieces(s@, sep),
{
    let mut done: Vec<Vec<char>> = Vec::new();
    let mut cur: Vec<char> = Vec::new();
    for i in 0..s.len()
        invariant
            char_seqs(done@).push(cur@) == pieces(s@.take(i as int), sep),
    {
        let c = s[i];
        let ghost before = char_seqs(done@).push(cur@);
        assert(s@.take(i + 1).drop_last() =~= s@.take(i as int));
        assert(s@.take(i + 1).last() == c);
        if is_separator(sep, c) {
            let piece = cur;
            done.push(piece);
            cur = Vec::new();
            assert(char_seqs(done@).push(cur@) =~= before.push(Seq::empty()));
        } else {
            cur.push(c);
            assert(char_seqs(done@).push(cur@) =~= before.update(
                before.len() - 1,
                before.last().push(c),
            ));
        }
    }
    assert(s@.take(s.len() as int) =~= s@);
    done.push(cur);
    assert(char_seqs(done@) =~= pieces(s@, sep));
    done
}

/// The non-empty whitespace-separated words of `s` (`str::split_whitespace`).
pub fn split_words(s: &Vec<char>) -> (r: Vec<Vec<char>>)
    ensures
        char_seqs(r@) == words(s@),
{
    let all = split_chars(s, Separator::White);
    let mut r: Vec<Vec<char>> = Vec::new();
    let ghost p = char_seqs(all@);
    let ghost f = |w: Seq<char>| w.len() > 0;
    for i in 0..all.len()
        invariant
            p == char_seqs(all@),
            f == (|w: Seq<char>| w.len() > 0),
            char_seqs(r@) == p.take(i as int).filter(f),
    {
        reveal_with_fuel(Seq::<_>::filter, 1);
        assert(p.take(i + 1).drop_last() =~= p.take(i as int));
        assert(p.take(i + 1).last() == all@[i as int]@);
        assert(p.take(i + 1).filter(f) == (if f(p.take(i + 1).last()) {
            p.take(i as int).filter(f).push(p.take(i + 1).last())
        } else {
            p.take(i as int).filter(f)
        }));
        let ghost prev = r@;
        if all[i].len() > 0 {
            let w = all[i].clone();
            assert(w@ == all@[i as int]@);
            r.push(w);
            assert(r@ == prev.push(w));
            assert(char_seqs(r@) =~= char_seqs(prev).push(w@));
            assert(f(p.take(i + 1).last()));
        } else {
            assert(!f(p.take(i + 1).last()));
        }
        assert(char_seqs(r@) =~= p.take(i + 1).filter(f));
    }
    assert(p.take(all.len() as int) =~= p);
    r
}

/// `list` joined with `sep` between neighbours (what `[..].join(sep)` gives).
pub open spec fn joined(list: Seq<Seq<char>>, sep: Seq<char>) -> Seq<char>
    decreases list.len(),
{
    if list.len() == 0 {
        Seq::empty()
    } else if list.len() == 1 {
        list[0]
    } else {
        joined(list.drop_last(), sep) + sep + list.last()
    }
}

/// Joins character vectors with `sep` between neighbours.
pub fn join_chars(list: &Vec<Vec<char>>, sep: &Vec<char>) -> (r: Vec<char>)
    ensures
        r@ == joined(char_seqs(list@), sep@),
{
    let mut r: Vec<char> = Vec::new();
    let ghost l = char_seqs(list@);
    for i in 0..list.len()
        invariant
            l == char_seqs(list@),
            r@ == joined(l.take(i as int), sep@),
    {
        assert(l.take(i + 1).drop_last() =~= l.take(i as int));
        if i > 0 {
            extend_chars(&mut r, sep);
        }
        extend_chars(&mut r, &list[i]);
        assert(r@ =~= joined(l.take(i + 1), sep@));
    }
    assert(l.take(list.len() as int) =~= l);
    r
}

/// The character sequences of a vector of strings.
pub open spec fn string_seqs(v: Seq<String>) -> Seq<Seq<char>> {
    v.map_values(|s: String| s@)
}

/// Joins strings with `sep` between neighbours (`[String]::join`).
pub fn join_strings(list: &Vec<String>, sep: &str) -> (r: Vec<char>)
    ensures
        r@ == joined(string_seqs(list@), sep@),
{
    let mut r: Vec<char> = Vec::new();
    let ghost l = string_seqs(list@);
    for i in 0..list.len()
        invariant
            l == string_seqs(list@),
            r@ == joined(l.take(i as int), sep@),
    {
        assert(l.take(i + 1).drop_last() =~= l.take(i as int));
        if i > 0 {
            extend_str(&mut r, sep);
        }
        extend_str(&mut r, list[i].as_str());
        assert(r@ =~= joined(l.take(i + 1), sep@));
    }
    assert(l.take(list.len() as int) =~= l);
    r
}

// ---------------------------------------------------------------------------
// Prefixes, suffixes and replacement
// ---------------------------------------------------------------------------

/// Whether `s` begins with `p`.
pub open spec fn has_prefix(s: Seq<char>, p: Seq<char>) -> bool {
    p.len() <= s.len() && s.take(p.len() as int) == p
}

/// Whether `s` ends with `p`.
pub open spec fn has_suffix(s: Seq<char>, p: Seq<char>) -> bool {
    p.len() <= s.len() && s.skip(s.len() - p.len()) == p
}

/// Whether `p` occurs in `s` at index `i`.
pub open spec fn occurs_at(s: Seq<char>, p: Seq<char>, i: int) -> bool {
    0 <= i && i + p.len() <= s.len() && s.subrange(i, i + p.len()) == p
}

/// Whether `p` occurs in `s` at index `i`.
pub fn matches_at(s: &Vec<char>, p: &Vec<char>, i: usize) -> (r: bool)
    ensures
        r == occurs_at(s@, p@, i as int),
{
    if i > s.len() || p.len() > s.len() - i {
        return false;
    }
    for k in 0..p.len()
        invariant
            i + p.len() <= s.len(),
            forall|j: int| 0 <= j < k ==> s@[i + j] == p@[j],
    {
        if s[i + k] != p[k] {
            return false;
        }
    }
    assert(s@.subrange(i as int, i + p.len()) =~= p@);
    true
}

/// Whether `s` begins with `p` (`str::starts_with`).
pub fn starts_with_chars(s: &Vec<char>, p: &Vec<char>) -> (r: bool)
    ensures
        r == has_prefix(s@, p@),
{
    let r = matches_at(s, p, 0);
    assert(p@.len() <= s@.len() ==> s@.subrange(0, p@.len() as int) =~= s@.take(p@.len() as int));
    r
}

/// Whether `s` ends with `p` (`str::ends_with`).
pub fn ends_with_chars(s: &Vec<char>, p: &Vec<char>) -> (r: bool)
    ensures
        r == has_suffix(s@, p@),
{
    if p.len() > s.len() {
        return false;
    }
    let r = matches_at(s, p, s.len() - p.len());
    assert(s@.subrange(s@.len() - p@.len(), s@.len() as int) =~= s@.skip(s@.len() - p@.len()));
    r
}

/// The characters of `s` from index `i` on.
pub fn suffix_from(s: &Vec<char>, i: usize) -> (r: Vec<char>)
    requires
        i <= s.len(),
    ensures
        r@ == s@.skip(i as int),
{
    let mut r: Vec<char> = Vec::new();
    let mut k = i;
    while k < s.len()
        invariant
            i <= k <= s.len(),
            r@ == s@.subrange(i as int, k as int),
        decreases s.len() - k,
    {
        r.push(s[k]);
        assert(s@.subrange(i as int, k + 1) =~= s@.subrange(i as int, k as int).push(s@[k as int]));
        k = k + 1;
    }
    assert(s@.subrange(i as int, s@.len() as int) =~= s@.skip(i as int));
    r
}

/// `s` with every occurrence of the non-empty pattern `pat` replaced by `to`,
/// scanning from the left without overlaps (what `str::replace` returns).
pub open spec fn replaced(s: Seq<char>, pat: Seq<char>, to: Seq<char>) -> Seq<char>
    recommends
        pat.len() > 0,
    decreases s.len(),
{
    if pat.len() == 0 || s.len() < pat.len() {
        s
    } else if s.take(pat.len() as int) == pat {
        to + replaced(s.skip(pat.len() as int), pat, to)
    } else {
        seq![s[0]] + replaced(s.drop_first(), pat, to)
    }
}

/// `str::replace` on character vectors, for a non-empty pattern.
pub fn replace_chars(s: &Vec<char>, pat: &Vec<char>, to: &Vec<char>) -> (r: Vec<char>)
    requires
        pat.len() > 0,
    ensures
        r@ == replaced(s@, pat@, to@),
{
    let mut r: Vec<char> = Vec::new();
    let mut i: usize = 0;
    assert(s@.skip(0) =~= s@);
    while i < s.len()
        invariant
            pat@.len() > 0,
            i <= s.len(),
            r@ + replaced(s@.skip(i as int), pat@, to@) == replaced(s@, pat@, to@),
        decreases s.len() - i,
    {
        let ghost rest = s@.skip(i as int);
        if matches_at(s, pat, i) {
            assert(rest.take(pat@.len() as int) =~= s@.subrange(i as int, i + pat@.len()));
            assert(rest.skip(pat@.len() as int) =~= s@.skip(i + pat@.len()));
            let ghost before = r@;
            extend_chars(&mut r, to);
            assert(r@ + replaced(s@.skip(i + pat@.len()), pat@, to@) =~= before + replaced(
                rest,
                pat@,
                to@,
            ));
            i = i + pat.len();
        } else {
            assert(rest.drop_first() =~= s@.skip(i + 1));
            assert(rest.len() >= pat@.len() ==> rest.take(pat@.len() as int) =~= s@.subrange(
                i as int,
                i + pat@.len(),
            ));
            assert(replaced(rest, pat@, to@) =~= seq![s@[i as int]] + replaced(
                s@.skip(i + 1),
                pat@,
                to@,
            ));
            let ghost before = r@;
            r.push(s[i]);
            assert(r@ + replaced(s@.skip(i + 1), pat@, to@) =~= before + replaced(
                rest,
                pat@,
                to@,
            ));
            i = i + 1;
        }
    }
    assert(s@.skip(i as int) =~= Seq::<char>::empty());
    assert(r@ + Seq::<char>::empty() =~= r@);
    r
}

// ---------------------------------------------------------------------------
// Decimal numbers
// ---------------------------------------------------------------------------

/// The decimal digit character for `d` (`0 <= d < 10`).
pub open spec fn digit_char(d: int) -> char {
    (d + 48) as char
}

/// The decimal digits of `n`, most significant first, without leading zeros.
pub open spec fn decimal(n: nat) -> Seq<char>
    decreases n,
{
    if n < 10 {
        seq![digit_char(n as int)]
    } else {
        decimal(n / 10).push(digit_char((n % 10) as int))
    }
}

/// How `n` is written in decimal, with a leading `-` when negative (what the
/// `Display` impl of the integer types writes).
pub open spec fn int_text(n: int) -> Seq<char> {
    if n < 0 {
        seq!['-'] + decimal((-n) as nat)
    } else {
        decimal(n as nat)
    }
}

fn digit(d: u64) -> (c: char)
    requires
        d < 10,
    ensures
        c == digit_char(d as int),
{
    let b: u8 = 48u8 + (d as u8);
    b as char
}

fn decimal_u64(n: u64) -> (r: Vec<char>)
    ensures
        r@ == decimal(n as nat),
    decreases n,
{
    if n < 10 {
        let mut v: Vec<char> = Vec::new();
        v.push(digit(n));
        v
    } else {
        let mut v = decimal_u64(n / 10);
        v.push(digit(n % 10));
        v
    }
}

/// `n` written in decimal.
pub fn i64_text(n: i64) -> (r: Vec<char>)
    ensures
        r@ == int_text(n as int),
{
    if n < 0 {
        let m: u64 = if n == i64::MIN {
            9223372036854775808u64
        } else {
            (-n) as u64
        };
        let mut r: Vec<char> = Vec::new();
        r.push('-');
        let d = decimal_u64(m);
        extend_chars(&mut r, &d);
        assert(r@ =~= seq!['-'] + decimal((-(n as int)) as nat));
        r
    } else {
        decimal_u64(n as u64)
    }
}

/// `n` written in decimal.
pub fn usize_text(n: usize) -> (r: Vec<char>)
    ensures
        r@ == int_text(n as int),
{
    decimal_u64(n as u64)
}

/// Whether `c` is an ASCII decimal digit.
pub open spec fn is_digit(c: char) -> bool {
    48 <= (c as int) <= 57
}

/// The value of a string of decimal digits (0 for the empty string).
pub open spec fn digits_value(s: Seq<char>) -> int
    decreases s.len(),
{
    if s.len() == 0 {
        0
    } else {
        digits_value(s.drop_last()) * 10 + ((s.last() as int) - 48)
    }
}

/// Whether every character of `s` is an ASCII decimal digit.
pub open spec fn all_digits(s: Seq<char>) -> bool {
    forall|i: int| 0 <= i < s.len() ==> is_digit(#[trigger] s[i])
}

/// The length of the sign that `s` begins with (`+` or `-`), 0 or 1.
pub open spec fn sign_len(s: Seq<char>) -> int {
    if s.len() > 0 && (s[0] == '-' || s[0] == '+') {
        1
    } else {
        0
    }
}

/// The integer that `s` spells: an optional `+` or `-` followed by one or
/// more ASCII digits, nothing else.
pub open spec fn spelled_int(s: Seq<char>) -> Option<int> {
    let body = s.skip(sign_len(s));
    if body.len() == 0 || !all_digits(body) {
        None
    } else if s[0] == '-' {
        Some(-digits_value(body))
    } else {
        Some(digits_value(body))
    }
}

/// What `str::parse::<i64>` gives for `s`: the spelled integer when it fits.
pub open spec fn parsed_i64(s: Seq<char>) -> Option<int> {
    match spelled_int(s) {
        Some(v) => if i64::MIN <= v <= i64::MAX {
            Some(v)
        } else {
            None
        },
        None => None,
    }
}

proof fn lemma_digits_value_nonneg(s: Seq<char>)
    requires
        all_digits(s),
    ensures
        digits_value(s) >= 0,
    decreases s.len(),
{
    if s.len() > 0 {
        lemma_digits_value_nonneg(s.drop_last());
    }
}

proof fn lemma_digits_value_prefix(s: Seq<char>, k: int)
    requires
        0 <= k <= s.len(),
        all_digits(s),
    ensures
        digits_value(s.take(k)) <= digits_value(s),
    decreases s.len(),
{
    if k < s.len() {
        lemma_digits_value_prefix(s.drop_last(), k);
        lemma_digits_value_nonneg(s.drop_last());
        assert(s.drop_last().take(k) =~= s.take(k));
    } else {
        assert(s.take(k) =~= s);
    }
}

/// `str::parse::<i64>` on a character vector.
pub fn parse_i64(s: &Vec<char>) -> (r: Option<i64>)
    ensures
        match r {
            Some(v) => parsed_i64(s@) == Some(v as int),
            None => parsed_i64(s@) is None,
        },
{
    let n = s.len();
    if n == 0 {
        return None;
    }
    let negative = s[0] == '-';
    let start: usize = if s[0] == '-' || s[0] == '+' {
        1
    } else {
        0
    };
    let ghost body = s@.skip(start as int);
    if start == n {
        return None;
    }
    let bound: u128 = 9223372036854775808u128;
    let mut acc: u128 = 0;
    let mut i: usize = start;
    while i < n
        invariant
            start <= i <= n == s@.len(),
            body == s@.skip(start as int),
            start == sign_len(s@),
            negative == (s@[0] == '-'),
            bound == 9223372036854775808u128,
            acc == digits_value(body.take(i - start)),
            acc <= bound,
            forall|j: int| 0 <= j < i - start ==> is_digit(#[trigger] body[j]),
        decreases n - i,
    {
        let c = s[i];
        assert(c == body[i - start]);
        if !('0' <= c && c <= '9') {
            assert(!is_digit(c));
            return None;
        }
        let d: u128 = ((c as u32) - 48) as u128;
        assert(body.take(i + 1 - start).drop_last() =~= body.take(i - start));
        assert(body.take(i + 1 - start).last() == c);
        let next = acc * 10 + d;
        if next > bound {
            proof {
                if all_digits(body) {
                    lemma_digits_value_prefix(body, i + 1 - start);
                }
            }
            return None;
        }
        acc = next;
        i = i + 1;
    }
    assert(body.take(n - start) =~= body);
    if negative {
        if acc == bound {
            Some(i64::MIN)
        } else {
            Some(-(acc as i64))
        }
    } else if acc == bound {
        None
    } else {
        Some(acc as i64)
    }
}

/// What `str::parse::<i32>` gives for `s`: the spelled integer when it fits.
pub open spec fn parsed_i32(s: Seq<char>) -> Option<int> {
    match spelled_int(s) {
        Some(v) => if i32::MIN <= v <= i32::MAX {
            Some(v)
        } else {
            None
        },
        None => None,
    }
}

/// `str::parse::<i32>` on a character vector.
pub fn parse_i32(s: &Vec<char>) -> (r: Option<i32>)
    ensures
        match r {
            Some(v) => parsed_i32(s@) == Some(v as int),
            None => parsed_i32(s@) is None,
        },
{
    match parse_i64(s) {
        Some(v) => {
            if i32::MIN as i64 <= v && v <= i32::MAX as i64 {
                Some(v as i32)
            } else {
                None
            }
        },
        None => None,
    }
}

// ---------------------------------------------------------------------------
// Letter case
// ---------------------------------------------------------------------------

/// What `str::to_lowercase` returns for a string with the characters `s`.
pub uninterp spec fn lowercase(s: Seq<char>) -> Seq<char>;

/// What `str::to_uppercase` returns for a string with the characters `s`.
pub uninterp spec fn uppercase(s: Seq<char>) -> Seq<char>;

/// `str::to_lowercase`: the result is `lowercase(s@)`; the Unicode case
/// tables that decide it are not restated.
#[verifier::external_body]
pub(crate) fn to_lowercase(s: &str) -> (r: String)
    ensures
        r@ == lowercase(s@),
{
    s.to_lowercase()
}

/// `str::to_uppercase`: the result is `uppercase(s@)`; the Unicode case
/// tables that decide it are not restated.
#[verifier::external_body]
pub(crate) fn to_uppercase(s: &str) -> (r: String)
    ensures
        r@ == uppercase(s@),
{
    s.to_uppercase()
}

/// The lower-case form of a character vector.
pub fn lowercase_chars(s: &Vec<char>) -> (r: Vec<char>)
    ensures
        r@ == lowercase(s@),
{
    let t = string_of(s);
    let l = to_lowercase(t.as_str());
    chars_of(l.as_str())
}

/// The upper-case form of a string, as characters.
pub fn uppercase_chars(s: &str) -> (r: Vec<char>)
    ensures
        r@ == uppercase(s@),
{
    let u = to_uppercase(s);
    chars_of(u.as_str())
}

} // verus!
