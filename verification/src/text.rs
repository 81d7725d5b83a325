//! Character-level string operations with exact specifications over `Seq<char>`.
use vstd::prelude::*;
use vstd::string::*;

verus! {

// ---------------------------------------------------------------------------
// Unicode character classes and case mapping
// ---------------------------------------------------------------------------

/// Whether `c` has the Unicode `White_Space` property, which is what
/// `char::is_whitespace` reports: tab to carriage return, space, next line,
/// no-break space, ogham space mark, the spaces U+2000 to U+200A, line and
/// paragraph separators, narrow no-break space, medium mathematical space and
/// ideographic space.
pub open spec fn is_whitespace(c: char) -> bool {
    let u = c as u32;
    (0x09 <= u && u <= 0x0d) || u == 0x20 || u == 0x85 || u == 0xa0 || u == 0x1680
        || (0x2000 <= u && u <= 0x200a) || u == 0x2028 || u == 0x2029 || u == 0x202f
        || u == 0x205f || u == 0x3000
}

/// Whether a character beyond ASCII is alphabetic or numeric in the Unicode sense
/// (what `char::is_alphanumeric` reports for it).
pub uninterp spec fn is_alphanumeric_beyond_ascii(c: char) -> bool;

/// Whether `c` is alphabetic or numeric in the Unicode sense, as
/// `char::is_alphanumeric` reports: among ASCII characters exactly the letters and
/// digits; beyond ASCII, `is_alphanumeric_beyond_ascii`.
pub open spec fn is_alphanumeric(c: char) -> bool {
    if (c as u32) < 128 {
        ('0' <= c && c <= '9') || ('a' <= c && c <= 'z') || ('A' <= c && c <= 'Z')
    } else {
        is_alphanumeric_beyond_ascii(c)
    }
}

/// Whether `c` is white space (`is_whitespace`), as `char::is_whitespace` tells.
pub(crate) fn char_is_whitespace(c: char) -> (r: bool)
    ensures
        r == is_whitespace(c),
{
    let u = c as u32;
    (0x09 <= u && u <= 0x0d) || u == 0x20 || u == 0x85 || u == 0xa0 || u == 0x1680
        || (0x2000 <= u && u <= 0x200a) || u == 0x2028 || u == 0x2029 || u == 0x202f
        || u == 0x205f || u == 0x3000
}

/// Calls `char::is_alphanumeric`: the contract says its answer is
/// `is_alphanumeric(c)`, stated for ASCII (the letters and digits are the only
/// ASCII characters that are alphabetic or numeric) and named beyond it.
#[verifier::external_body]
pub(crate) fn char_is_alphanumeric(c: char) -> (r: bool)
    ensures
        r == is_alphanumeric(c),
        (c as u32) >= 128 ==> r == is_alphanumeric_beyond_ascii(c),
{
    c.is_alphanumeric()
}

/// The lower-case form, under Unicode case mapping, of text that holds a character
/// beyond ASCII (what `str::to_lowercase` returns for it).
pub uninterp spec fn lowercase_beyond_ascii(s: Seq<char>) -> Seq<char>;

/// The lower-case form of `s` under Unicode case mapping (what `str::to_lowercase`
/// returns): for text made of ASCII characters only, its ASCII lower-casing (the
/// Unicode lower case of an ASCII character is its ASCII lower case); otherwise
/// `lowercase_beyond_ascii`.
pub open spec fn spec_lowercase(s: Seq<char>) -> Seq<char> {
    if forall|i: int| 0 <= i < s.len() ==> (#[trigger] s[i] as u32) < 128 {
        spec_ascii_lowercase(s)
    } else {
        lowercase_beyond_ascii(s)
    }
}

/// Calls `str::to_lowercase`: the contract says its result is `spec_lowercase(s)`,
/// stated for ASCII text and named beyond it.
#[verifier::external_body]
pub(crate) fn to_lowercase(s: &str) -> (r: String)
    ensures
        r@ == spec_lowercase(s@),
        (exists|i: int| 0 <= i < s@.len() && (#[trigger] s@[i] as u32) >= 128) ==> r@ == lowercase_beyond_ascii(s@),
{
    s.to_lowercase()
}

/// Calls `String::push`, which appends one character.
#[verifier::external_body]
pub(crate) fn push_char(s: &mut String, c: char)
    ensures
        final(s)@ == old(s)@.push(c),
{
    s.push(c)
}

// ---------------------------------------------------------------------------
// Basic conversions
// ---------------------------------------------------------------------------

/// The characters of `s`, in order.
pub fn chars_of(s: &str) -> (r: Vec<char>)
    ensures
        r@ == s@,
{
    let mut out: Vec<char> = Vec::new();
    for c in it: s.chars()
        invariant
            out@ == it.seq().take(it.index() as int),
            it.seq() == s@,
    {
        out.push(c);
    }
    out
}

/// A `String` holding `chars[from..to]`.
pub fn string_of_range(chars: &Vec<char>, from: usize, to: usize) -> (r: String)
    requires
        from <= to <= chars.len(),
    ensures
        r@ == chars@.subrange(from as int, to as int),
{
    let mut out = String::new();
    let mut i = from;
    while i < to
        invariant
            from <= i <= to <= chars.len(),
            out@ == chars@.subrange(from as int, i as int),
        decreases to - i,
    {
        push_char(&mut out, chars[i]);
        assert(chars@.subrange(from as int, i + 1) == chars@.subrange(from as int, i as int).push(chars@[i as int]));
        i += 1;
    }
    out
}

/// A `String` holding all of `chars`.
pub fn string_of_chars(chars: &Vec<char>) -> (r: String)
    ensures
        r@ == chars@,
{
    let r = string_of_range(chars, 0, chars.len());
    assert(chars@.subrange(0, chars@.len() as int) == chars@);
    r
}

/// An owned copy of `s`.
pub fn to_owned_string(s: &str) -> (r: String)
    ensures
        r@ == s@,
{
    s.to_owned()
}

/// `a` followed by `b`.
pub fn concat2(a: &str, b: &str) -> (r: String)
    ensures
        r@ == a@ + b@,
{
    let mut out = to_owned_string(a);
    out.append(b);
    out
}

/// Whether the two strings hold the same characters.
pub fn str_eq(a: &str, b: &str) -> (r: bool)
    ensures
        r == (a@ == b@),
{
    let x = to_owned_string(a);
    let y = to_owned_string(b);
    x == y
}

// ---------------------------------------------------------------------------
// Prefixes
// ---------------------------------------------------------------------------

pub open spec fn spec_starts_with(s: Seq<char>, prefix: Seq<char>) -> bool {
    prefix.len() <= s.len() && s.subrange(0, prefix.len() as int) == prefix
}

/// Whether `s` begins with `prefix`.
pub fn starts_with(s: &str, prefix: &str) -> (r: bool)
    ensures
        r == spec_starts_with(s@, prefix@),
{
    let sc = chars_of(s);
    let pc = chars_of(prefix);
    if pc.len() > sc.len() {
        return false;
    }
    let mut i: usize = 0;
    while i < pc.len()
        invariant
            pc.len() <= sc.len(),
            i <= pc.len(),
            sc@ == s@,
            pc@ == prefix@,
            forall|k: int| 0 <= k < i ==> sc@[k] == pc@[k],
        decreases pc.len() - i,
    {
        if sc[i] != pc[i] {
            assert(s@.subrange(0, prefix@.len() as int)[i as int] != prefix@[i as int]);
            return false;
        }
        i += 1;
    }
    assert(s@.subrange(0, prefix@.len() as int) =~= prefix@);
    true
}

// ---------------------------------------------------------------------------
// Trimming
// ---------------------------------------------------------------------------

/// `s` without its leading whitespace.
pub open spec fn spec_trim_start(s: Seq<char>) -> Seq<char>
    decreases s.len(),
{
    if s.len() > 0 && is_whitespace(s[0]) {
        spec_trim_start(s.drop_first())
    } else {
        s
    }
}

/// `s` without its trailing whitespace.
pub open spec fn spec_trim_end(s: Seq<char>) -> Seq<char>
    decreases s.len(),
{
    if s.len() > 0 && is_whitespace(s.last()) {
        spec_trim_end(s.drop_last())
    } else {
        s
    }
}

/// `s` without leading and trailing whitespace (what `str::trim` returns).
pub open spec fn spec_trim(s: Seq<char>) -> Seq<char> {
    spec_trim_end(spec_trim_start(s))
}

/// The slice of `s` without leading and trailing whitespace.
pub fn trim(s: &str) -> (r: &str)
    ensures
        r@ == spec_trim(s@),
{
    let cs = chars_of(s);
    let n = cs.len();
    let mut i: usize = 0;
    assert(s@.subrange(0, n as int) =~= s@);
    while i < n && char_is_whitespace(cs[i])
        invariant
            i <= n == cs@.len(),
            cs@ == s@,
            spec_trim_start(s@) == spec_trim_start(s@.subrange(i as int, n as int)),
        decreases n - i,
    {
        assert(s@.subrange(i as int, n as int).drop_first() =~= s@.subrange(i + 1, n as int));
        i += 1;
    }
    assert(spec_trim_start(s@) == s@.subrange(i as int, n as int));
    let mut j: usize = n;
    while j > i && char_is_whitespace(cs[j - 1])
        invariant
            i <= j <= n == cs@.len(),
            cs@ == s@,
            spec_trim(s@) == spec_trim_end(s@.subrange(i as int, j as int)),
        decreases j,
    {
        assert(s@.subrange(i as int, j as int).drop_last() =~= s@.subrange(i as int, j - 1));
        j -= 1;
    }
    assert(spec_trim(s@) == s@.subrange(i as int, j as int));
    s.substring_char(i, j)
}

// ---------------------------------------------------------------------------
// ASCII case folding
// ---------------------------------------------------------------------------

pub open spec fn spec_ascii_lower_char(c: char) -> char {
    if 'A' <= c && c <= 'Z' {
        ((c as u32) + 32) as char
    } else {
        c
    }
}

/// `s` with `A`..`Z` mapped to `a`..`z` and every other character unchanged
/// (what `str::to_ascii_lowercase` returns).
pub open spec fn spec_ascii_lowercase(s: Seq<char>) -> Seq<char> {
    s.map_values(|c: char| spec_ascii_lower_char(c))
}

pub fn ascii_lower_char(c: char) -> (r: char)
    ensures
        r == spec_ascii_lower_char(c),
{
    if 'A' <= c && c <= 'Z' {
        let u = (c as u32) + 32;
        assert(0x61 <= u <= 0x7a);
        char_from_ascii_range(u)
    } else {
        c
    }
}

fn char_from_ascii_range(u: u32) -> (r: char)
    requires
        u < 0x80,
    ensures
        r == u as char,
{
    (u as u8) as char
}

/// `s` with ASCII upper-case letters turned to lower case.
pub fn ascii_lowercase(s: &str) -> (r: String)
    ensures
        r@ == spec_ascii_lowercase(s@),
{
    let cs = chars_of(s);
    let mut out = String::new();
    let mut i: usize = 0;
    while i < cs.len()
        invariant
            i <= cs.len(),
            cs@ == s@,
            out@ == spec_ascii_lowercase(s@.subrange(0, i as int)),
        decreases cs.len() - i,
    {
        let c = ascii_lower_char(cs[i]);
        push_char(&mut out, c);
        assert(spec_ascii_lowercase(s@.subrange(0, i + 1)) =~= spec_ascii_lowercase(s@.subrange(0, i as int)).push(c));
        i += 1;
    }
    assert(s@.subrange(0, i as int) =~= s@);
    out
}

// ---------------------------------------------------------------------------
// Decimal numbers
// ---------------------------------------------------------------------------

pub open spec fn spec_digit_char(d: nat) -> char {
    if d == 0 { '0' } else if d == 1 { '1' } else if d == 2 { '2' } else if d == 3 { '3' }
    else if d == 4 { '4' } else if d == 5 { '5' } else if d == 6 { '6' } else if d == 7 { '7' }
    else if d == 8 { '8' } else { '9' }
}

/// The decimal representation of `n`, without sign or leading zeros (what `to_string` gives).
pub open spec fn spec_decimal(n: nat) -> Seq<char>
    decreases n,
{
    if n < 10 {
        seq![spec_digit_char(n)]
    } else {
        spec_decimal(n / 10).push(spec_digit_char(n % 10))
    }
}

fn digit_char(d: u64) -> (r: char)
    requires
        d < 10,
    ensures
        r == spec_digit_char(d as nat),
{
    if d == 0 { '0' } else if d == 1 { '1' } else if d == 2 { '2' } else if d == 3 { '3' }
    else if d == 4 { '4' } else if d == 5 { '5' } else if d == 6 { '6' } else if d == 7 { '7' }
    else if d == 8 { '8' } else { '9' }
}

/// Appends the decimal representation of `n` to `out`.
pub fn push_decimal(out: &mut String, n: u64)
    ensures
        final(out)@ == old(out)@ + spec_decimal(n as nat),
    decreases n,
{
    if n >= 10 {
        push_decimal(out, n / 10);
    }
    push_char(out, digit_char(n % 10));
}

/// The decimal representation of `n`.
pub fn decimal(n: u64) -> (r: String)
    ensures
        r@ == spec_decimal(n as nat),
{
    let mut out = String::new();
    push_decimal(&mut out, n);
    assert(out@ =~= spec_decimal(n as nat));
    out
}

pub open spec fn spec_is_ascii_digit(c: char) -> bool {
    '0' <= c && c <= '9'
}

pub open spec fn spec_digit_value(c: char) -> nat {
    ((c as u32) - ('0' as u32)) as nat
}

/// The value of a string of decimal digits.
pub open spec fn spec_digits_value(s: Seq<char>) -> nat
    decreases s.len(),
{
    if s.len() == 0 {
        0
    } else {
        spec_digits_value(s.drop_last()) * 10 + spec_digit_value(s.last())
    }
}

pub open spec fn spec_all_ascii_digits(d: Seq<char>) -> bool {
    forall|i: int| 0 <= i < d.len() ==> spec_is_ascii_digit(#[trigger] d[i])
}

/// `s` without one leading `+`, if it has one.
pub open spec fn spec_strip_plus(s: Seq<char>) -> Seq<char> {
    if s.len() > 0 && s[0] == '+' { s.drop_first() } else { s }
}

/// What `str::parse::<u8>` accepts: an optional single `+`, then at least one ASCII
/// digit and nothing else, with a value that fits in a `u8`.
pub open spec fn spec_parse_u8(s: Seq<char>) -> Option<u8> {
    let digits = spec_strip_plus(s);
    if digits.len() > 0 && spec_all_ascii_digits(digits) && spec_digits_value(digits) <= 255 {
        Some(spec_digits_value(digits) as u8)
    } else {
        None
    }
}

proof fn lemma_digit_char_value(d: nat)
    requires
        d < 10,
    ensures
        spec_is_ascii_digit(spec_digit_char(d)),
        spec_digit_value(spec_digit_char(d)) == d,
{
}

proof fn lemma_decimal_digits(n: nat)
    ensures
        spec_decimal(n).len() > 0,
        spec_all_ascii_digits(spec_decimal(n)),
        spec_digits_value(spec_decimal(n)) == n,
    decreases n,
{
    if n >= 10 {
        lemma_decimal_digits(n / 10);
        let d = spec_decimal(n / 10);
        let s = d.push(spec_digit_char(n % 10));
        assert(s.drop_last() =~= d);
        lemma_digit_char_value(n % 10);
        assert((n / 10) * 10 + n % 10 == n) by (nonlinear_arith);
        assert(spec_decimal(n) == s);
        assert(s.last() == spec_digit_char(n % 10));
        assert(spec_digits_value(s) == spec_digits_value(d) * 10 + spec_digit_value(spec_digit_char(n % 10)));
        assert forall|i: int| 0 <= i < s.len() implies spec_is_ascii_digit(#[trigger] s[i]) by {
            if i < d.len() {
                assert(s[i] == d[i]);
            }
        }
    } else {
        let s = spec_decimal(n);
        assert(s.drop_last() =~= Seq::<char>::empty());
        lemma_digit_char_value(n);
        assert(spec_digits_value(s) == spec_digits_value(s.drop_last()) * 10 + spec_digit_value(s.last()));
    }
}

/// A `u8` written in decimal reads back as itself.
pub proof fn decimal_parses_back(n: u8)
    ensures
        spec_parse_u8(spec_decimal(n as nat)) == Some(n),
{
    lemma_decimal_digits(n as nat);
    let s = spec_decimal(n as nat);
    assert(s[0] != '+');
    assert(spec_strip_plus(s) == s);
}

/// Parses `s` as a `u8` the way `str::parse::<u8>` does.
pub fn parse_u8(s: &str) -> (r: Option<u8>)
    ensures
        r == spec_parse_u8(s@),
{
    let cs = chars_of(s);
    let start: usize = if cs.len() > 0 && cs[0] == '+' { 1 } else { 0 };
    let ghost digits = spec_strip_plus(s@);
    assert(digits =~= s@.subrange(start as int, s@.len() as int));
    if start == cs.len() {
        return None;
    }
    let mut acc: u32 = 0;
    let mut i: usize = start;
    while i < cs.len()
        invariant
            start <= i <= cs.len(),
            cs@ == s@,
            digits == s@.subrange(start as int, s@.len() as int),
            digits == spec_strip_plus(s@),
            forall|k: int| start <= k < i ==> spec_is_ascii_digit(#[trigger] s@[k]),
            acc as nat == if spec_digits_value(s@.subrange(start as int, i as int)) < 256 {
                spec_digits_value(s@.subrange(start as int, i as int))
            } else {
                256
            },
        decreases cs.len() - i,
    {
        let c = cs[i];
        if !('0' <= c && c <= '9') {
            assert(!spec_is_ascii_digit(digits[i - start]));
            return None;
        }
        let d = (c as u32) - ('0' as u32);
        assert(s@.subrange(start as int, i + 1).drop_last() =~= s@.subrange(start as int, i as int));
        let next = acc * 10 + d;
        acc = if next > 256 { 256 } else { next };
        i += 1;
    }
    assert(s@.subrange(start as int, i as int) =~= digits);
    assert forall|k: int| 0 <= k < digits.len() implies spec_is_ascii_digit(#[trigger] digits[k]) by {
        assert(digits[k] == s@[start + k]);
    }
    if acc <= 255 {
        Some(acc as u8)
    } else {
        None
    }
}

// ---------------------------------------------------------------------------
// Splitting and joining
// ---------------------------------------------------------------------------

/// The pieces of `s` between occurrences of `sep` (what `str::split(sep)` yields):
/// always at least one piece, empty pieces kept.
pub open spec fn spec_split(s: Seq<char>, sep: char) -> Seq<Seq<char>>
    decreases s.len(),
{
    if s.len() == 0 {
        seq![Seq::<char>::empty()]
    } else {
        let parts = spec_split(s.drop_last(), sep);
        if s.last() == sep {
            parts.push(Seq::<char>::empty())
        } else {
            parts.update(parts.len() - 1, parts.last().push(s.last()))
        }
    }
}

pub proof fn lemma_split_nonempty(s: Seq<char>, sep: char)
    ensures
        spec_split(s, sep).len() >= 1,
    decreases s.len(),
{
    if s.len() > 0 {
        lemma_split_nonempty(s.drop_last(), sep);
    }
}

/// The pieces of `s` between occurrences of `sep`.
pub fn split_char(s: &str, sep: char) -> (r: Vec<String>)
    ensures
        r@.map_values(|p: String| p@) == spec_split(s@, sep),
{
    let cs = chars_of(s);
    let mut parts: Vec<String> = Vec::new();
    let mut start: usize = 0;
    let mut i: usize = 0;
    proof {
        assert(s@.subrange(0, 0) =~= Seq::<char>::empty());
    }
    while i < cs.len()
        invariant
            start <= i <= cs.len(),
            cs@ == s@,
            parts@.map_values(|p: String| p@).push(s@.subrange(start as int, i as int))
                == spec_split(s@.subrange(0, i as int), sep),
        decreases cs.len() - i,
    {
        let ghost prev = s@.subrange(0, i as int);
        assert(s@.subrange(0, i + 1).drop_last() =~= prev);
        assert(s@.subrange(0, i + 1).last() == cs@[i as int]);
        if cs[i] == sep {
            let piece = string_of_range(&cs, start, i);
            parts.push(piece);
            start = i + 1;
            assert(s@.subrange(start as int, i + 1) =~= Seq::<char>::empty());
            assert(parts@.map_values(|p: String| p@) =~= parts@.drop_last().map_values(|p: String| p@).push(piece@));
        } else {
            assert(s@.subrange(start as int, i + 1) =~= s@.subrange(start as int, i as int).push(cs@[i as int]));
            let ghost m = parts@.map_values(|p: String| p@);
            assert(m.push(s@.subrange(start as int, i + 1)) =~= m.push(s@.subrange(start as int, i as int)).update(m.len() as int, m.push(s@.subrange(start as int, i as int)).last().push(cs@[i as int])));
        }
        i += 1;
    }
    let last = string_of_range(&cs, start, cs.len());
    let ghost before = parts@;
    parts.push(last);
    assert(s@.subrange(0, cs.len() as int) =~= s@);
    assert(parts@.map_values(|p: String| p@) =~= before.map_values(|p: String| p@).push(last@));
    parts
}

/// The pieces joined with `sep` between consecutive ones (what `[String]::join` gives).
pub open spec fn spec_join(parts: Seq<Seq<char>>, sep: Seq<char>) -> Seq<char>
    decreases parts.len(),
{
    if parts.len() == 0 {
        Seq::<char>::empty()
    } else if parts.len() == 1 {
        parts[0]
    } else {
        spec_join(parts.drop_last(), sep) + sep + parts.last()
    }
}

/// Joins `parts` with `sep` between consecutive pieces.
pub fn join(parts: &Vec<String>, sep: &str) -> (r: String)
    ensures
        r@ == spec_join(parts@.map_values(|p: String| p@), sep@),
{
    let ghost views = parts@.map_values(|p: String| p@);
    let mut out = String::new();
    let mut i: usize = 0;
    while i < parts.len()
        invariant
            i <= parts.len(),
            views == parts@.map_values(|p: String| p@),
            out@ == spec_join(views.take(i as int), sep@),
        decreases parts.len() - i,
    {
        assert(views.take(i + 1).drop_last() =~= views.take(i as int));
        if i > 0 {
            out.append(sep);
        } else {
            assert(out@ + parts[0]@ =~= parts[0]@);
        }
        out.append(parts[i].as_str());
        i += 1;
    }
    assert(views.take(parts.len() as int) =~= views);
    out
}

// ---------------------------------------------------------------------------
// Substring search (leftmost, non-overlapping, as `str::match_indices` scans)
// ---------------------------------------------------------------------------

/// `needle` occurs in `hay` starting at position `i`.
pub open spec fn occurs_at(hay: Seq<char>, needle: Seq<char>, i: int) -> bool {
    0 <= i && i + needle.len() <= hay.len() && hay.subrange(i, i + needle.len()) == needle
}

/// The first position `>= from` at which `needle` occurs in `hay`.
pub open spec fn first_occurrence_from(hay: Seq<char>, needle: Seq<char>, from: int) -> Option<int>
    decreases hay.len() + 1 - from,
{
    if from < 0 || from + needle.len() > hay.len() {
        None
    } else if occurs_at(hay, needle, from) {
        Some(from)
    } else {
        first_occurrence_from(hay, needle, from + 1)
    }
}

pub proof fn lemma_first_occurrence_bounds(hay: Seq<char>, needle: Seq<char>, from: int)
    requires
        0 <= from,
    ensures
        first_occurrence_from(hay, needle, from) matches Some(i) ==> from <= i && occurs_at(hay, needle, i)
            && (forall|k: int| from <= k < i ==> !occurs_at(hay, needle, k)),
        first_occurrence_from(hay, needle, from) is None ==> (forall|k: int| from <= k ==> #[trigger] occurs_at(hay, needle, k) ==> false),
    decreases hay.len() + 1 - from,
{
    if from + needle.len() > hay.len() {
    } else if occurs_at(hay, needle, from) {
    } else {
        lemma_first_occurrence_bounds(hay, needle, from + 1);
    }
}

/// Whether `needle` occurs in `hay` at position `i`.
pub fn matches_at(hay: &Vec<char>, needle: &Vec<char>, i: usize) -> (r: bool)
    ensures
        r == occurs_at(hay@, needle@, i as int),
{
    if i > hay.len() || needle.len() > hay.len() - i {
        return false;
    }
    let mut k: usize = 0;
    while k < needle.len()
        invariant
            i + needle.len() <= hay.len(),
            k <= needle.len(),
            forall|j: int| 0 <= j < k ==> hay@[i + j] == needle@[j],
        decreases needle.len() - k,
    {
        if hay[i + k] != needle[k] {
            assert(hay@.subrange(i as int, i + needle.len())[k as int] != needle@[k as int]);
            return false;
        }
        k += 1;
    }
    assert(hay@.subrange(i as int, i + needle.len()) =~= needle@);
    true
}

/// The first position `>= from` at which `needle` occurs in `hay`.
pub fn find_from(hay: &Vec<char>, needle: &Vec<char>, from: usize) -> (r: Option<usize>)
    ensures
        r == (match first_occurrence_from(hay@, needle@, from as int) {
            Some(i) => Some(i as usize),
            None => None,
        }),
        r matches Some(i) ==> i + needle.len() <= hay.len(),
{
    if from > hay.len() {
        return None;
    }
    let mut p = from;
    loop
        invariant
            from <= p <= hay.len(),
            first_occurrence_from(hay@, needle@, from as int) == first_occurrence_from(hay@, needle@, p as int),
        decreases hay.len() - p,
    {
        if needle.len() > hay.len() - p {
            return None;
        }
        if matches_at(hay, needle, p) {
            return Some(p);
        }
        if p == hay.len() {
            assert(first_occurrence_from(hay@, needle@, p as int + 1) is None);
            return None;
        }
        p += 1;
    }
}

/// Whether `needle` occurs anywhere in `hay`.
pub open spec fn spec_contains(hay: Seq<char>, needle: Seq<char>) -> bool {
    first_occurrence_from(hay, needle, 0) is Some
}

/// Whether `needle` occurs anywhere in `hay` (what `str::contains` answers).
pub fn contains(hay: &str, needle: &str) -> (r: bool)
    ensures
        r == spec_contains(hay@, needle@),
{
    let h = chars_of(hay);
    let n = chars_of(needle);
    find_from(&h, &n, 0).is_some()
}

/// `hay[from..]` with every leftmost non-overlapping occurrence of the non-empty `pat`
/// replaced by `with`.
pub open spec fn spec_replace_from(hay: Seq<char>, pat: Seq<char>, with: Seq<char>, from: int) -> Seq<char>
    decreases hay.len() - from,
{
    if pat.len() == 0 || from < 0 || from > hay.len() {
        hay.subrange(from, hay.len() as int)
    } else {
        match first_occurrence_from(hay, pat, from) {
            None => hay.subrange(from, hay.len() as int),
            Some(i) => if from <= i && i + pat.len() <= hay.len() {
                hay.subrange(from, i) + with + spec_replace_from(hay, pat, with, i + pat.len())
            } else {
                hay.subrange(from, hay.len() as int)
            },
        }
    }
}

/// `hay` with every occurrence of the non-empty `pat` replaced by `with`
/// (what `str::replace` returns).
pub open spec fn spec_replace(hay: Seq<char>, pat: Seq<char>, with: Seq<char>) -> Seq<char> {
    spec_replace_from(hay, pat, with, 0)
}

/// Replaces every occurrence of the non-empty `pat` in `hay` by `with`.
pub fn replace_all(hay: &str, pat: &str, with: &str) -> (r: String)
    requires
        pat@.len() > 0,
    ensures
        r@ == spec_replace(hay@, pat@, with@),
{
    let h = chars_of(hay);
    let p = chars_of(pat);
    let mut out = String::new();
    let mut pos: usize = 0;
    loop
        invariant
            pos <= h.len(),
            h@ == hay@,
            p@ == pat@,
            p@.len() > 0,
            out@ + spec_replace_from(hay@, pat@, with@, pos as int) == spec_replace(hay@, pat@, with@),
        decreases h.len() - pos,
    {
        proof {
            lemma_first_occurrence_bounds(hay@, pat@, pos as int);
        }
        match find_from(&h, &p, pos) {
            None => {
                let rest = string_of_range(&h, pos, h.len());
                out.append(rest.as_str());
                return out;
            }
            Some(i) => {
                let piece = string_of_range(&h, pos, i);
                out.append(piece.as_str());
                out.append(with);
                let ghost old_pos = pos;
                pos = i + p.len();
                assert(out@ + spec_replace_from(hay@, pat@, with@, pos as int) =~= spec_replace(hay@, pat@, with@));
            }
        }
    }
}

/// An element-by-element copy of a list of strings.
pub fn clone_strings(v: &Vec<String>) -> (r: Vec<String>)
    ensures
        r@ == v@,
{
    let mut out: Vec<String> = Vec::new();
    let mut i: usize = 0;
    while i < v.len()
        invariant
            i <= v.len(),
            out@ == v@.take(i as int),
        decreases v.len() - i,
    {
        out.push(v[i].clone());
        assert(v@.take(i + 1) =~= v@.take(i as int).push(v@[i as int]));
        i += 1;
    }
    assert(v@.take(v.len() as int) =~= v@);
    out
}

} // verus!
