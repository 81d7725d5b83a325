//! The access gate: parsing the e-mail allowlist, and reading the identity claims
//! of a Google ID token or userinfo payload.
use vstd::prelude::*;
use vstd::utf8::{decode_utf8, valid_utf8};
use crate::text::{
    ascii_lowercase, chars_of, concat2, push_decimal, spec_ascii_lowercase, spec_decimal,
    spec_split, spec_trim, split_char, str_eq, to_owned_string, trim, lemma_split_nonempty,
};

verus! {

// ── Allowlist ────────────────────────────────────────────────────────────────

/// An allowlist entry or an e-mail as compared: trimmed, then ASCII lower-cased.
pub open spec fn spec_clean_email(e: Seq<char>) -> Seq<char> {
    spec_ascii_lowercase(spec_trim(e))
}

/// The allowlist written in `raw`: its comma-separated entries, cleaned, without
/// the empty ones.
pub open spec fn spec_allowlist(raw: Seq<char>) -> Set<Seq<char>> {
    Set::new(|x: Seq<char>| x.len() > 0 && exists|i: int| 0 <= i < spec_split(raw, ',').len()
        && #[trigger] spec_clean_email(spec_split(raw, ',')[i]) == x)
}

/// Whether the list holds the string `x`.
fn list_contains(list: &Vec<String>, x: &str) -> (r: bool)
    ensures
        r == list@.map_values(|s: String| s@).contains(x@),
{
    let ghost v = list@.map_values(|s: String| s@);
    let mut i: usize = 0;
    while i < list.len()
        invariant
            i <= list.len(),
            v == list@.map_values(|s: String| s@),
            forall|k: int| 0 <= k < i ==> v[k] != x@,
        decreases list.len() - i,
    {
        if str_eq(list[i].as_str(), x) {
            assert(v[i as int] == x@);
            return true;
        }
        i += 1;
    }
    false
}

/// The cleaned non-empty entries among the first `n` pieces.
pub open spec fn spec_allowed_prefix(pieces: Seq<Seq<char>>, n: int) -> Set<Seq<char>> {
    Set::new(|x: Seq<char>| x.len() > 0 && exists|k: int| 0 <= k < n && #[trigger] spec_clean_email(pieces[k]) == x)
}

proof fn lemma_allowed_prefix_step(pieces: Seq<Seq<char>>, n: int)
    requires
        0 <= n < pieces.len(),
    ensures
        spec_allowed_prefix(pieces, n + 1) == (if spec_clean_email(pieces[n]).len() > 0 {
            spec_allowed_prefix(pieces, n).insert(spec_clean_email(pieces[n]))
        } else {
            spec_allowed_prefix(pieces, n)
        }),
{
    let c = spec_clean_email(pieces[n]);
    let a = spec_allowed_prefix(pieces, n + 1);
    let b = spec_allowed_prefix(pieces, n);
    assert forall|x: Seq<char>| a.contains(x) <==> (if c.len() > 0 { b.insert(c) } else { b }).contains(x) by {
        if a.contains(x) {
            let k = choose|k: int| 0 <= k < n + 1 && #[trigger] spec_clean_email(pieces[k]) == x;
            if k < n {
                assert(b.contains(x));
            }
        }
        if b.contains(x) {
            let k = choose|k: int| 0 <= k < n && #[trigger] spec_clean_email(pieces[k]) == x;
            assert(0 <= k < n + 1 && spec_clean_email(pieces[k]) == x);
        }
        if c.len() > 0 && x == c {
            assert(0 <= n < n + 1 && spec_clean_email(pieces[n]) == x);
        }
    }
    if c.len() > 0 {
        assert(a =~= b.insert(c));
    } else {
        assert(a =~= b);
    }
}

proof fn lemma_push_to_set(s: Seq<Seq<char>>, x: Seq<char>)
    ensures
        s.push(x).to_set() == s.to_set().insert(x),
{
    assert forall|y: Seq<char>| s.push(x).to_set().contains(y) <==> s.to_set().insert(x).contains(y) by {
        if s.push(x).contains(y) {
            let j = choose|j: int| 0 <= j < s.push(x).len() && s.push(x)[j] == y;
            if j < s.len() {
                assert(s[j] == y);
            }
        }
        if s.contains(y) {
            let j = choose|j: int| 0 <= j < s.len() && s[j] == y;
            assert(s.push(x)[j] == y);
        }
        if y == x {
            assert(s.push(x)[s.len() as int] == y);
        }
    }
    assert(s.push(x).to_set() =~= s.to_set().insert(x));
}

/// Parses the comma-separated allowlist: each entry trimmed and lower-cased, empty
/// entries dropped. Each address appears once, in order of first appearance.
pub fn parse_allowlist(raw: &str) -> (r: Vec<String>)
    ensures
        r@.map_values(|s: String| s@).to_set() == spec_allowlist(raw@),
        r@.map_values(|s: String| s@).no_duplicates(),
{
    let parts = split_char(raw, ',');
    let ghost pv = parts@.map_values(|p: String| p@);
    assert(pv == spec_split(raw@, ','));
    let mut out: Vec<String> = Vec::new();
    let mut i: usize = 0;
    assert(out@.map_values(|s: String| s@).to_set() =~= spec_allowed_prefix(pv, 0));
    while i < parts.len()
        invariant
            i <= parts.len(),
            pv == parts@.map_values(|p: String| p@),
            out@.map_values(|s: String| s@).no_duplicates(),
            out@.map_values(|s: String| s@).to_set() == spec_allowed_prefix(pv, i as int),
        decreases parts.len() - i,
    {
        let cleaned = ascii_lowercase(trim(parts[i].as_str()));
        let ghost c = cleaned@;
        assert(c == spec_clean_email(pv[i as int]));
        let ghost before = out@.map_values(|s: String| s@);
        proof {
            lemma_allowed_prefix_step(pv, i as int);
            lemma_push_to_set(before, c);
        }
        if !cleaned.as_str().is_empty() {
            if !list_contains(&out, cleaned.as_str()) {
                out.push(cleaned);
                assert(out@.map_values(|s: String| s@) =~= before.push(c));
                proof {
                    assert forall|a: int, b: int| 0 <= a < b < before.push(c).len() implies before.push(c)[a] != before.push(c)[b] by {
                        if b == before.len() {
                            assert(before.contains(before[a]));
                        }
                    }
                }
            } else {
                assert(before.to_set().insert(c) =~= before.to_set());
            }
        }
        i += 1;
    }
    assert(spec_allowed_prefix(pv, i as int) =~= spec_allowlist(raw@));
    out
}

/// Whether `email`, trimmed and lower-cased, is on the allowlist `allowlist`
/// (nobody is allowed when there is no allowlist).
pub fn is_allowed(allowlist: Option<&str>, email: &str) -> (r: bool)
    ensures
        r == spec_is_allowed(match allowlist { Some(a) => Some(a@), None => None }, email@),
{
    match allowlist {
        None => false,
        Some(raw) => {
            let set = parse_allowlist(raw);
            let cleaned = ascii_lowercase(trim(email));
            let r = list_contains(&set, cleaned.as_str());
            proof {
                let v = set@.map_values(|s: String| s@);
                assert(v.contains(cleaned@) <==> v.to_set().contains(cleaned@));
            }
            r
        }
    }
}

pub open spec fn spec_is_allowed(allowlist: Option<Seq<char>>, email: Seq<char>) -> bool {
    match allowlist {
        None => false,
        Some(raw) => spec_allowlist(raw).contains(spec_clean_email(email)),
    }
}

/// Two e-mails that differ only in surrounding whitespace and ASCII case are
/// allowed or refused alike.
pub proof fn allowlist_ignores_case_and_spaces(allowlist: Option<Seq<char>>, e1: Seq<char>, e2: Seq<char>)
    requires
        spec_clean_email(e1) == spec_clean_email(e2),
    ensures
        spec_is_allowed(allowlist, e1) == spec_is_allowed(allowlist, e2),
{
}

/// No e-mail is allowed by an empty allowlist.
pub proof fn empty_allowlist_allows_nobody(email: Seq<char>)
    ensures
        !spec_is_allowed(Some(Seq::<char>::empty()), email),
{
    let parts = spec_split(Seq::<char>::empty(), ',');
    assert(parts =~= seq![Seq::<char>::empty()]);
    let x = spec_clean_email(email);
    if spec_allowlist(Seq::<char>::empty()).contains(x) {
        let k = choose|k: int| 0 <= k < parts.len() && #[trigger] spec_clean_email(parts[k]) == x;
        assert(parts[k] == Seq::<char>::empty());
        assert(spec_trim(Seq::<char>::empty()) =~= Seq::<char>::empty());
        assert(spec_clean_email(Seq::<char>::empty()) =~= Seq::<char>::empty());
    }
}

// ── Base64URL ────────────────────────────────────────────────────────────────

/// The value of `c` in the base64url alphabet `A-Z a-z 0-9 - _`.
pub open spec fn spec_b64_value(c: u8) -> Option<u8> {
    if 65 <= c <= 90 {
        Some((c - 65) as u8)
    } else if 97 <= c <= 122 {
        Some((c - 71) as u8)
    } else if 48 <= c <= 57 {
        Some((c + 4) as u8)
    } else if c == 45 {
        Some(62)
    } else if c == 95 {
        Some(63)
    } else {
        None
    }
}

/// Bytes the decoder passes over: `=`, line feed and carriage return.
pub open spec fn spec_b64_skipped(c: u8) -> bool {
    c == 61 || c == 10 || c == 13
}

/// The 6-bit values of the significant bytes of `bytes`, or the first byte that is
/// neither skipped nor in the alphabet.
pub open spec fn spec_sextets(bytes: Seq<u8>) -> Result<Seq<u8>, u8>
    decreases bytes.len(),
{
    if bytes.len() == 0 {
        Ok(Seq::<u8>::empty())
    } else {
        match spec_sextets(bytes.drop_last()) {
            Err(c) => Err(c),
            Ok(v) => {
                let c = bytes.last();
                if spec_b64_skipped(c) {
                    Ok(v)
                } else {
                    match spec_b64_value(c) {
                        Some(x) => Ok(v.push(x)),
                        None => Err(c),
                    }
                }
            }
        }
    }
}

/// The bytes carried by a sequence of 6-bit values: each group of four gives three
/// bytes; a final group of three gives two bytes, of two gives one byte, of one
/// gives none.
pub open spec fn spec_decode_sextets(v: Seq<u8>) -> Seq<u8>
    decreases v.len(),
{
    if v.len() >= 4 {
        seq![
            (v[0] << 2u8) | (v[1] >> 4u8),
            ((v[1] & 15u8) << 4u8) | (v[2] >> 2u8),
            ((v[2] & 3u8) << 6u8) | v[3],
        ] + spec_decode_sextets(v.skip(4))
    } else if v.len() == 3 {
        seq![(v[0] << 2u8) | (v[1] >> 4u8), ((v[1] & 15u8) << 4u8) | (v[2] >> 2u8)]
    } else if v.len() == 2 {
        seq![(v[0] << 2u8) | (v[1] >> 4u8)]
    } else {
        Seq::<u8>::empty()
    }
}

/// Base64URL decoding of bytes: the decoded bytes, or the error naming the first
/// byte outside the alphabet.
pub open spec fn spec_decode_bytes(bytes: Seq<u8>) -> Result<Seq<u8>, Seq<char>> {
    match spec_sextets(bytes) {
        Ok(v) => Ok(spec_decode_sextets(v)),
        Err(c) => Err("invalid base64url char: "@ + spec_decimal(c as nat)),
    }
}

/// Base64URL decoding of the UTF-8 bytes of `input`.
pub open spec fn spec_base64url_decode(input: Seq<char>) -> Result<Seq<u8>, Seq<char>> {
    spec_decode_bytes(vstd::utf8::encode_utf8(input))
}

/// A padding `=`, line feed or carriage return anywhere in the input changes
/// nothing in the decoding.
pub proof fn skipped_bytes_are_ignored(a: Seq<u8>, c: u8, b: Seq<u8>)
    requires
        spec_b64_skipped(c),
    ensures
        spec_decode_bytes(a.push(c) + b) == spec_decode_bytes(a + b),
{
    lemma_sextets_skip(a, c, b);
}

proof fn lemma_sextets_skip(a: Seq<u8>, c: u8, b: Seq<u8>)
    requires
        spec_b64_skipped(c),
    ensures
        spec_sextets(a.push(c) + b) == spec_sextets(a + b),
    decreases b.len(),
{
    if b.len() == 0 {
        assert(a.push(c) + b =~= a.push(c));
        assert(a + b =~= a);
        assert(a.push(c).drop_last() =~= a);
    } else {
        let b0 = b.drop_last();
        lemma_sextets_skip(a, c, b0);
        assert((a.push(c) + b).drop_last() =~= a.push(c) + b0);
        assert((a + b).drop_last() =~= a + b0);
        assert((a.push(c) + b).last() == b.last());
        assert((a + b).last() == b.last());
    }
}

/// A byte the decoder refuses: neither passed over nor in the alphabet.
pub open spec fn spec_b64_rejected(c: u8) -> bool {
    !spec_b64_skipped(c) && spec_b64_value(c) is None
}

/// The bytes the decoder does not pass over, in order.
pub open spec fn spec_significant(bytes: Seq<u8>) -> Seq<u8>
    decreases bytes.len(),
{
    if bytes.len() == 0 {
        Seq::<u8>::empty()
    } else if spec_b64_skipped(bytes.last()) {
        spec_significant(bytes.drop_last())
    } else {
        spec_significant(bytes.drop_last()).push(bytes.last())
    }
}

proof fn lemma_sextets_shape(bytes: Seq<u8>)
    ensures
        spec_sextets(bytes) is Err <==> exists|i: int| 0 <= i < bytes.len() && spec_b64_rejected(#[trigger] bytes[i]),
        spec_sextets(bytes) matches Ok(v) ==> v.len() == spec_significant(bytes).len(),
    decreases bytes.len(),
{
    if bytes.len() > 0 {
        let pre = bytes.drop_last();
        lemma_sextets_shape(pre);
        if exists|i: int| 0 <= i < pre.len() && spec_b64_rejected(#[trigger] pre[i]) {
            let i = choose|i: int| 0 <= i < pre.len() && spec_b64_rejected(#[trigger] pre[i]);
            assert(bytes[i] == pre[i]);
        }
        if exists|i: int| 0 <= i < bytes.len() && spec_b64_rejected(#[trigger] bytes[i]) {
            let i = choose|i: int| 0 <= i < bytes.len() && spec_b64_rejected(#[trigger] bytes[i]);
            if i < pre.len() {
                assert(pre[i] == bytes[i]);
            }
        }
    }
}

proof fn lemma_decode_sextets_len(v: Seq<u8>)
    ensures
        spec_decode_sextets(v).len() == v.len() * 6 / 8,
    decreases v.len(),
{
    if v.len() >= 4 {
        lemma_decode_sextets_len(v.skip(4));
    }
}

/// What decoding a text yields or refuses: it fails exactly when some byte is
/// neither passed over (`=`, line feed, carriage return) nor in the alphabet, and
/// otherwise gives six bits per remaining byte, whole bytes only.
pub proof fn base64url_decode_shape(bytes: Seq<u8>)
    ensures
        spec_decode_bytes(bytes) is Err <==> exists|i: int| 0 <= i < bytes.len() && spec_b64_rejected(#[trigger] bytes[i]),
        spec_decode_bytes(bytes) matches Ok(out) ==> out.len() == spec_significant(bytes).len() * 6 / 8,
{
    lemma_sextets_shape(bytes);
    if let Ok(v) = spec_sextets(bytes) {
        lemma_decode_sextets_len(v);
    }
}

/// The base64url character (as a byte) for the 6-bit value `x`.
pub open spec fn spec_b64_char(x: u8) -> u8 {
    if x < 26 {
        (x + 65) as u8
    } else if x < 52 {
        (x + 71) as u8
    } else if x < 62 {
        (x - 4) as u8
    } else if x == 62 {
        45
    } else {
        95
    }
}

/// The 6-bit values that encode `b`, three bytes to four values, without padding.
pub open spec fn spec_encode_sextets(b: Seq<u8>) -> Seq<u8>
    decreases b.len(),
{
    if b.len() >= 3 {
        seq![
            b[0] >> 2u8,
            ((b[0] & 3u8) << 4u8) | (b[1] >> 4u8),
            ((b[1] & 15u8) << 2u8) | (b[2] >> 6u8),
            b[2] & 63u8,
        ] + spec_encode_sextets(b.skip(3))
    } else if b.len() == 2 {
        seq![b[0] >> 2u8, ((b[0] & 3u8) << 4u8) | (b[1] >> 4u8), (b[1] & 15u8) << 2u8]
    } else if b.len() == 1 {
        seq![b[0] >> 2u8, (b[0] & 3u8) << 4u8]
    } else {
        Seq::<u8>::empty()
    }
}

/// The unpadded base64url text of `b`.
pub open spec fn spec_base64url_encode(b: Seq<u8>) -> Seq<char> {
    spec_encode_sextets(b).map_values(|x: u8| spec_b64_char(x) as char)
}

proof fn lemma_group_bits(x: u8, y: u8, z: u8)
    by (bit_vector)
    ensures
        ((x >> 2u8) << 2u8) | ((((x & 3u8) << 4u8) | (y >> 4u8)) >> 4u8) == x,
        (((((x & 3u8) << 4u8) | (y >> 4u8)) & 15u8) << 4u8) | ((((y & 15u8) << 2u8) | (z >> 6u8)) >> 2u8) == y,
        (((((y & 15u8) << 2u8) | (z >> 6u8)) & 3u8) << 6u8) | (z & 63u8) == z,
        x >> 2u8 < 64,
        (((x & 3u8) << 4u8) | (y >> 4u8)) < 64,
        (((y & 15u8) << 2u8) | (z >> 6u8)) < 64,
        z & 63u8 < 64,
        ((x & 3u8) << 4u8) < 64,
        ((y & 15u8) << 2u8) < 64,
{
}

proof fn lemma_partial_bits(x: u8, y: u8)
    by (bit_vector)
    ensures
        ((x >> 2u8) << 2u8) | (((x & 3u8) << 4u8) >> 4u8) == x,
        ((x >> 2u8) << 2u8) | ((((x & 3u8) << 4u8) | (y >> 4u8)) >> 4u8) == x,
        (((((x & 3u8) << 4u8) | (y >> 4u8)) & 15u8) << 4u8) | (((y & 15u8) << 2u8) >> 2u8) == y,
{
}

proof fn lemma_encode_decode_sextets(b: Seq<u8>)
    ensures
        spec_decode_sextets(spec_encode_sextets(b)) == b,
        forall|i: int| 0 <= i < spec_encode_sextets(b).len() ==> #[trigger] spec_encode_sextets(b)[i] < 64,
    decreases b.len(),
{
    let e = spec_encode_sextets(b);
    if b.len() >= 3 {
        lemma_encode_decode_sextets(b.skip(3));
        lemma_group_bits(b[0], b[1], b[2]);
        let rest = spec_encode_sextets(b.skip(3));
        assert(e.skip(4) =~= rest);
        assert(spec_decode_sextets(e) =~= seq![b[0], b[1], b[2]] + b.skip(3));
        assert(seq![b[0], b[1], b[2]] + b.skip(3) =~= b);
        assert forall|i: int| 0 <= i < e.len() implies #[trigger] e[i] < 64 by {
            if i >= 4 {
                assert(e[i] == rest[i - 4]);
            }
        }
    } else if b.len() == 2 {
        lemma_group_bits(b[0], b[1], 0);
        lemma_partial_bits(b[0], b[1]);
        assert(spec_decode_sextets(e) =~= b);
    } else if b.len() == 1 {
        lemma_group_bits(b[0], 0, 0);
        lemma_partial_bits(b[0], 0);
        assert(spec_decode_sextets(e) =~= b);
    } else {
        assert(spec_decode_sextets(e) =~= b);
    }
}

proof fn lemma_b64_char(x: u8)
    requires
        x < 64,
    ensures
        !spec_b64_skipped(spec_b64_char(x)),
        spec_b64_value(spec_b64_char(x)) == Some(x),
{
}

proof fn lemma_sextets_of_chars(bytes: Seq<u8>, v: Seq<u8>)
    requires
        bytes.len() == v.len(),
        forall|i: int| 0 <= i < v.len() ==> #[trigger] v[i] < 64 && bytes[i] == spec_b64_char(v[i]),
    ensures
        spec_sextets(bytes) == Ok::<Seq<u8>, u8>(v),
    decreases bytes.len(),
{
    if bytes.len() > 0 {
        let n = bytes.len() - 1;
        assert forall|i: int| 0 <= i < v.drop_last().len() implies #[trigger] v.drop_last()[i] < 64
            && bytes.drop_last()[i] == spec_b64_char(v.drop_last()[i]) by {
            assert(v[i] < 64);
        }
        lemma_sextets_of_chars(bytes.drop_last(), v.drop_last());
        assert(v[n] < 64);
        lemma_b64_char(v[n]);
        assert(bytes.last() == spec_b64_char(v.last()));
        assert(v.drop_last().push(v.last()) =~= v);
    } else {
        assert(v =~= Seq::<u8>::empty());
    }
}

/// Decoding the unpadded base64url text of any bytes gives them back.
pub proof fn base64url_round_trip(b: Seq<u8>)
    ensures
        spec_base64url_decode(spec_base64url_encode(b)) == Ok::<Seq<u8>, Seq<char>>(b),
{
    let v = spec_encode_sextets(b);
    let chars = spec_base64url_encode(b);
    lemma_encode_decode_sextets(b);
    assert forall|i: int| 0 <= i < chars.len() implies '\0' <= #[trigger] chars[i] <= '\u{7f}' by {
        assert(v[i] < 64);
        assert(chars[i] == spec_b64_char(v[i]) as char);
    }
    assert(vstd::utf8::is_ascii_chars(chars));
    vstd::utf8::is_ascii_chars_encode_utf8(chars);
    let bytes = vstd::utf8::encode_utf8(chars);
    assert forall|i: int| 0 <= i < v.len() implies #[trigger] v[i] < 64 && bytes[i] == spec_b64_char(v[i]) by {
        assert(chars[i] == spec_b64_char(v[i]) as char);
        assert(chars[i] as u8 == bytes[i]);
    }
    lemma_sextets_of_chars(bytes, v);
}

proof fn lemma_sextets_error_sticks(bytes: Seq<u8>, n: int)
    requires
        0 <= n <= bytes.len(),
        spec_sextets(bytes.take(n)) is Err,
    ensures
        spec_sextets(bytes) == spec_sextets(bytes.take(n)),
    decreases bytes.len() - n,
{
    if n < bytes.len() {
        assert(bytes.take(n + 1).drop_last() =~= bytes.take(n));
        lemma_sextets_error_sticks(bytes, n + 1);
    } else {
        assert(bytes.take(n) =~= bytes);
    }
}

fn b64_value(c: u8) -> (r: Option<u8>)
    ensures
        r == spec_b64_value(c),
{
    if 65 <= c && c <= 90 {
        Some(c - 65)
    } else if 97 <= c && c <= 122 {
        Some(c - 71)
    } else if 48 <= c && c <= 57 {
        Some(c + 4)
    } else if c == 45 {
        Some(62)
    } else if c == 95 {
        Some(63)
    } else {
        None
    }
}

/// Decodes base64url text, passing over `=`, line feeds and carriage returns (as the
/// browser's `atob` does once padded); any other byte outside the alphabet is an
/// error that names it.
pub fn base64url_decode(input: &str) -> (r: Result<Vec<u8>, String>)
    ensures
        match r {
            Ok(v) => spec_base64url_decode(input@) == Ok::<Seq<u8>, Seq<char>>(v@),
            Err(e) => spec_base64url_decode(input@) == Err::<Seq<u8>, Seq<char>>(e@),
        },
{
    let bytes = input.as_bytes();
    let ghost bs = bytes@;
    assert(bs == vstd::utf8::encode_utf8(input@));
    let mut sextets: Vec<u8> = Vec::new();
    let mut i: usize = 0;
    assert(bs.take(0) =~= Seq::<u8>::empty());
    while i < bytes.len()
        invariant
            i <= bytes.len(),
            bs == bytes@,
            bs == vstd::utf8::encode_utf8(input@),
            spec_sextets(bs.take(i as int)) == Ok::<Seq<u8>, u8>(sextets@),
            forall|k: int| 0 <= k < sextets@.len() ==> sextets@[k] < 64,
        decreases bytes.len() - i,
    {
        let c = bytes[i];
        assert(bs.take(i + 1).drop_last() =~= bs.take(i as int));
        if c == 61 || c == 10 || c == 13 {
        } else {
            match b64_value(c) {
                Some(x) => {
                    sextets.push(x);
                }
                None => {
                    proof {
                        assert(spec_sextets(bs.take(i + 1)) == Err::<Seq<u8>, u8>(c));
                        lemma_sextets_error_sticks(bs, i + 1);
                    }
                    let mut msg = to_owned_string("invalid base64url char: ");
                    push_decimal(&mut msg, c as u64);
                    assert(spec_base64url_decode(input@) == Err::<Seq<u8>, Seq<char>>(msg@));
                    return Err(msg);
                }
            }
        }
        i += 1;
    }
    assert(bs.take(bytes.len() as int) =~= bs);
    let ghost v = sextets@;
    let mut out: Vec<u8> = Vec::new();
    let mut j: usize = 0;
    assert(v.skip(0) =~= v);
    while sextets.len() - j >= 4
        invariant
            j <= sextets.len(),
            v == sextets@,
            out@ + spec_decode_sextets(v.skip(j as int)) == spec_decode_sextets(v),
        decreases sextets.len() - j,
    {
        let a = sextets[j];
        let b = sextets[j + 1];
        let c = sextets[j + 2];
        let d = sextets[j + 3];
        let ghost rest = v.skip(j as int);
        assert(rest.skip(4) =~= v.skip(j + 4));
        assert(rest[0] == a && rest[1] == b && rest[2] == c && rest[3] == d);
        out.push((a << 2u8) | (b >> 4u8));
        out.push(((b & 15u8) << 4u8) | (c >> 2u8));
        out.push(((c & 3u8) << 6u8) | d);
        assert(out@ + spec_decode_sextets(v.skip(j + 4)) =~= spec_decode_sextets(v));
        j += 4;
    }
    let ghost rest = v.skip(j as int);
    let left = sextets.len() - j;
    if left == 3 {
        let a = sextets[j];
        let b = sextets[j + 1];
        let c = sextets[j + 2];
        assert(rest[0] == a && rest[1] == b && rest[2] == c);
        out.push((a << 2u8) | (b >> 4u8));
        out.push(((b & 15u8) << 4u8) | (c >> 2u8));
    } else if left == 2 {
        let a = sextets[j];
        let b = sextets[j + 1];
        assert(rest[0] == a && rest[1] == b);
        out.push((a << 2u8) | (b >> 4u8));
    }
    assert(out@ =~= spec_decode_sextets(v));
    Ok(out)
}

// ── JWT payload ──────────────────────────────────────────────────────────────

/// The text that `String::from_utf8` reports for bytes that are not valid UTF-8.
pub uninterp spec fn utf8_error_text(bytes: Seq<u8>) -> Seq<char>;

/// Calls `String::from_utf8`. It succeeds exactly on valid UTF-8, decoding it; on
/// other bytes the error's display text is named `utf8_error_text(bytes)`, and
/// nothing more is said of that text.
#[verifier::external_body]
fn string_from_utf8(bytes: Vec<u8>) -> (r: Result<String, String>)
    ensures
        r is Ok <==> valid_utf8(bytes@),
        r matches Ok(s) ==> s@ == decode_utf8(bytes@),
        r matches Err(e) ==> e@ == utf8_error_text(bytes@),
{
    String::from_utf8(bytes).map_err(|e| e.to_string())
}

/// The middle segment padded with `=` according to its UTF-8 byte length (as a
/// `usize`) modulo 4: nothing for 0, two for 2, one otherwise.
pub open spec fn spec_pad_segment(seg: Seq<char>) -> Seq<char> {
    let n = vstd::utf8::encode_utf8(seg).len() as usize;
    if n % 4 == 0 {
        seg
    } else if n % 4 == 2 {
        seg + "=="@
    } else {
        seg + "="@
    }
}

/// The JSON payload of a JWT: the middle of its three dot-separated segments,
/// base64url-decoded and read as UTF-8.
pub open spec fn spec_jwt_payload(token: Seq<char>) -> Result<Seq<char>, Seq<char>> {
    let parts = spec_split(token, '.');
    if parts.len() != 3 {
        Err("not a JWT (expected 3 segments)"@)
    } else {
        match spec_base64url_decode(spec_pad_segment(parts[1])) {
            Err(e) => Err(e),
            Ok(bytes) => if valid_utf8(bytes) {
                Ok(decode_utf8(bytes))
            } else {
                Err("payload not utf8: "@ + utf8_error_text(bytes))
            },
        }
    }
}

proof fn lemma_encode_utf8_concat(a: Seq<char>, b: Seq<char>)
    ensures
        vstd::utf8::encode_utf8(a + b) == vstd::utf8::encode_utf8(a) + vstd::utf8::encode_utf8(b),
    decreases a.len(),
{
    if a.len() > 0 {
        lemma_encode_utf8_concat(a.drop_first(), b);
        assert((a + b).drop_first() =~= a.drop_first() + b);
        assert((a + b)[0] == a[0]);
        assert(vstd::utf8::encode_utf8(a + b) =~= vstd::utf8::encode_scalar(a[0] as u32) + vstd::utf8::encode_utf8(a.drop_first() + b));
    } else {
        assert(a + b =~= b);
        assert(vstd::utf8::encode_utf8(a) =~= Seq::<u8>::empty());
    }
}

proof fn lemma_padding_ignored(seg: Seq<char>, pad: Seq<char>)
    requires
        pad.len() <= 2,
        forall|i: int| 0 <= i < pad.len() ==> #[trigger] pad[i] == '=',
    ensures
        spec_base64url_decode(seg + pad) == spec_base64url_decode(seg),
    decreases pad.len(),
{
    if pad.len() > 0 {
        let shorter = pad.drop_last();
        lemma_padding_ignored(seg, shorter);
        let last = seq!['='];
        assert(seg + pad =~= (seg + shorter) + last);
        lemma_encode_utf8_concat(seg + shorter, last);
        assert(vstd::utf8::is_ascii_chars(last));
        vstd::utf8::is_ascii_chars_encode_utf8(last);
        let a = vstd::utf8::encode_utf8(seg + shorter);
        assert(vstd::utf8::encode_utf8(last) =~= seq![61u8]);
        assert(a + seq![61u8] =~= a.push(61u8) + Seq::<u8>::empty());
        assert(a =~= a + Seq::<u8>::empty());
        skipped_bytes_are_ignored(a, 61u8, Seq::<u8>::empty());
    } else {
        assert(seg + pad =~= seg);
    }
}

/// The payload of a JWT is there exactly when the token has three dot-separated
/// parts whose middle one decodes to valid UTF-8 (the `=` padding added before
/// decoding never changes the bytes); the payload is then that text, whose UTF-8
/// bytes are the decoded bytes. The outer parts are never read.
pub proof fn jwt_payload_is_the_decoded_middle_part(token: Seq<char>)
    ensures
        ({
            let parts = spec_split(token, '.');
            &&& spec_jwt_payload(token) is Ok <==> parts.len() == 3
                && (spec_base64url_decode(parts[1]) matches Ok(b) && valid_utf8(b))
            &&& spec_jwt_payload(token) matches Ok(p) ==> (spec_base64url_decode(parts[1]) matches Ok(b)
                && valid_utf8(b) && p == decode_utf8(b) && vstd::utf8::encode_utf8(p) == b)
        }),
{
    let parts = spec_split(token, '.');
    if parts.len() == 3 {
        let seg = parts[1];
        let n = vstd::utf8::encode_utf8(seg).len() as usize;
        if n % 4 == 0 {
            assert(spec_pad_segment(seg) == seg);
        } else if n % 4 == 2 {
            reveal_strlit("==");
            lemma_padding_ignored(seg, "=="@);
        } else {
            reveal_strlit("=");
            lemma_padding_ignored(seg, "="@);
        }
        if let Ok(b) = spec_base64url_decode(seg) {
            if valid_utf8(b) {
                vstd::utf8::decode_utf8_encode_utf8(b);
            }
        }
    }
}

/// Decodes the payload (middle) segment of a JWT given as three dot-separated
/// base64url segments, returning the raw JSON text.
pub fn jwt_payload(token: &str) -> (r: Result<String, String>)
    ensures
        match r {
            Ok(p) => spec_jwt_payload(token@) == Ok::<Seq<char>, Seq<char>>(p@),
            Err(e) => spec_jwt_payload(token@) == Err::<Seq<char>, Seq<char>>(e@),
        },
{
    let parts = split_char(token, '.');
    if parts.len() != 3 {
        return Err(to_owned_string("not a JWT (expected 3 segments)"));
    }
    let seg = parts[1].as_str();
    let n = seg.len();
    let b64 = if n % 4 == 0 {
        to_owned_string(seg)
    } else if n % 4 == 2 {
        concat2(seg, "==")
    } else {
        concat2(seg, "=")
    };
    assert(b64@ == spec_pad_segment(spec_split(token@, '.')[1]));
    match base64url_decode(b64.as_str()) {
        Err(e) => Err(e),
        Ok(bytes) => match string_from_utf8(bytes) {
            Ok(s) => Ok(s),
            Err(e) => Err(concat2("payload not utf8: ", e.as_str())),
        },
    }
}

// ── Identity claims ──────────────────────────────────────────────────────────

/// The claims read from a Google ID token or userinfo payload.
#[derive(Clone, Debug, PartialEq)]
pub struct VerifiedProfile {
    pub email: String,
    pub email_verified: bool,
    pub sub: String,
    pub name: String,
}

/// The claims as plain values: (email, email_verified, sub, name).
pub open spec fn profile_view(p: VerifiedProfile) -> (Seq<char>, bool, Seq<char>, Seq<char>) {
    (p.email@, p.email_verified, p.sub@, p.name@)
}

impl Default for VerifiedProfile {
    fn default() -> (r: Self)
        ensures
            profile_view(r) == (Seq::<char>::empty(), false, Seq::<char>::empty(), Seq::<char>::empty()),
    {
        VerifiedProfile { email: String::new(), email_verified: false, sub: String::new(), name: String::new() }
    }
}

/// What the access check reads of a JSON member: a string, a boolean, or anything else.
#[derive(Clone, Debug, PartialEq)]
pub enum ClaimValue {
    Str(String),
    Bool(bool),
    Other,
}

/// A JSON member as a plain value.
pub enum ClaimView {
    Str(Seq<char>),
    Bool(bool),
    Other,
}

pub open spec fn claim_view(c: ClaimValue) -> ClaimView {
    match c {
        ClaimValue::Str(s) => ClaimView::Str(s@),
        ClaimValue::Bool(b) => ClaimView::Bool(b),
        ClaimValue::Other => ClaimView::Other,
    }
}

/// Object members as plain values.
pub open spec fn members_view(v: Seq<(String, ClaimValue)>) -> Seq<(Seq<char>, ClaimView)> {
    v.map_values(|m: (String, ClaimValue)| (m.0@, claim_view(m.1)))
}

pub open spec fn opt_members_view(m: Option<Vec<(String, ClaimValue)>>) -> Option<Seq<(Seq<char>, ClaimView)>> {
    match m {
        Some(v) => Some(members_view(v@)),
        None => None,
    }
}

/// The members of a payload as plain values.
pub open spec fn claims_view(r: Result<Option<Vec<(String, ClaimValue)>>, String>) -> Result<Option<Seq<(Seq<char>, ClaimView)>>, Seq<char>> {
    match r {
        Err(e) => Err(e@),
        Ok(None) => Ok(None),
        Ok(Some(v)) => Ok(Some(members_view(v@))),
    }
}

/// What `serde_json` makes of `payload`: its error text when the text is not JSON,
/// no members when it is JSON but not an object, else the members of the object.
pub uninterp spec fn json_object_members(payload: Seq<char>) -> Result<Option<Seq<(Seq<char>, ClaimView)>>, Seq<char>>;

/// Parses `payload` with `serde_json::from_str` into a `serde_json::Value` and hands
/// back its top-level object members, each as a string, a boolean or "other"; the
/// contract names the result `json_object_members(payload)` and says no more of it.
#[verifier::external_body]
fn parse_json_members(payload: &str) -> (r: Result<Option<Vec<(String, ClaimValue)>>, String>)
    ensures
        claims_view(r) == json_object_members(payload@),
{
    let v: serde_json::Value = serde_json::from_str(payload).map_err(|e| e.to_string())?;
    Ok(v.as_object().map(|m| m.iter().map(|(k, x)| (k.clone(), match x {
        serde_json::Value::String(s) => ClaimValue::Str(s.clone()),
        serde_json::Value::Bool(b) => ClaimValue::Bool(*b),
        _ => ClaimValue::Other,
    })).collect()))
}

/// The member `key` of the payload (the first one so named), or "other" when there
/// is none or the payload is not an object.
pub open spec fn spec_member(members: Option<Seq<(Seq<char>, ClaimView)>>, key: Seq<char>) -> ClaimView
    decreases (match members { Some(m) => m.len(), None => 0 }),
{
    match members {
        None => ClaimView::Other,
        Some(m) => if m.len() == 0 {
            ClaimView::Other
        } else if m[0].0 == key {
            m[0].1
        } else {
            spec_member(Some(m.drop_first()), key)
        },
    }
}

fn member(members: &Option<Vec<(String, ClaimValue)>>, key: &str) -> (r: ClaimValue)
    ensures
        claim_view(r) == spec_member(opt_members_view(*members), key@),
{
    match members {
        None => ClaimValue::Other,
        Some(v) => {
            let ghost mv = members_view(v@);
            let mut i: usize = 0;
            assert(mv.skip(0) =~= mv);
            while i < v.len()
                invariant
                    i <= v.len(),
                    mv == members_view(v@),
                    opt_members_view(*members) == Some(mv),
                    spec_member(Some(mv), key@) == spec_member(Some(mv.skip(i as int)), key@),
                decreases v.len() - i,
            {
                assert(mv.skip(i as int).drop_first() =~= mv.skip(i + 1));
                if str_eq(v[i].0.as_str(), key) {
                    let r = match &v[i].1 {
                        ClaimValue::Str(s) => ClaimValue::Str(s.clone()),
                        ClaimValue::Bool(b) => ClaimValue::Bool(*b),
                        ClaimValue::Other => ClaimValue::Other,
                    };
                    assert(mv.skip(i as int)[0] == mv[i as int]);
                    assert(claim_view(r) == claim_view(v@[i as int].1));
                    assert(mv[i as int].0 == key@);
                    return r;
                }
                i += 1;
            }
            ClaimValue::Other
        }
    }
}

/// The profile read from the members of a parsed payload (none when it is not an
/// object): an error when `email` is not a string member; `email_verified` is
/// false unless a boolean member says otherwise; `sub` and `name` are empty unless
/// string members.
pub open spec fn spec_profile_from_members(members: Option<Seq<(Seq<char>, ClaimView)>>) -> Result<(Seq<char>, bool, Seq<char>, Seq<char>), Seq<char>> {
    match spec_member(members, "email"@) {
        ClaimView::Str(email) => Ok((
            email,
            match spec_member(members, "email_verified"@) { ClaimView::Bool(b) => b, _ => false },
            match spec_member(members, "sub"@) { ClaimView::Str(s) => s, _ => Seq::<char>::empty() },
            match spec_member(members, "name"@) { ClaimView::Str(s) => s, _ => Seq::<char>::empty() },
        )),
        _ => Err("missing email claim"@),
    }
}

/// The profile read from a payload: an error for text that is not JSON, else the
/// profile read from its members.
pub open spec fn spec_verify_profile(payload: Seq<char>) -> Result<(Seq<char>, bool, Seq<char>, Seq<char>), Seq<char>> {
    match json_object_members(payload) {
        Err(e) => Err("bad payload: "@ + e),
        Ok(members) => spec_profile_from_members(members),
    }
}

/// A member is read by its own key: the value of the first member so named, or
/// "other" when no member has that key (or there are no members).
pub proof fn member_is_read_by_its_key(m: Seq<(Seq<char>, ClaimView)>, key: Seq<char>, i: int)
    ensures
        0 <= i < m.len() && m[i].0 == key && (forall|j: int| 0 <= j < i ==> #[trigger] m[j].0 != key)
            ==> spec_member(Some(m), key) == m[i].1,
        (forall|j: int| 0 <= j < m.len() ==> #[trigger] m[j].0 != key) ==> spec_member(Some(m), key) == ClaimView::Other,
        spec_member(None, key) == ClaimView::Other,
    decreases m.len(),
{
    if m.len() > 0 {
        let rest = m.drop_first();
        assert forall|j: int| 0 <= j < rest.len() implies #[trigger] rest[j] == m[j + 1] by {}
        if 0 < i < m.len() && m[i].0 == key && (forall|j: int| 0 <= j < i ==> #[trigger] m[j].0 != key) {
            assert(m[0].0 != key);
            assert forall|j: int| 0 <= j < i - 1 implies #[trigger] rest[j].0 != key by {
                assert(m[j + 1].0 != key);
            }
            member_is_read_by_its_key(rest, key, i - 1);
        }
        if forall|j: int| 0 <= j < m.len() ==> #[trigger] m[j].0 != key {
            assert(m[0].0 != key);
            assert forall|j: int| 0 <= j < rest.len() implies #[trigger] rest[j].0 != key by {
                assert(m[j + 1].0 != key);
            }
            member_is_read_by_its_key(rest, key, -1);
        }
    }
}

/// Each claim of the profile is read from the member of its own name: the e-mail
/// from a string `email` (without one there is no profile), `email_verified` from a
/// boolean `email_verified` (else false), `sub` and `name` from string members
/// `sub` and `name` (else empty); no other member is read.
pub proof fn profile_claims_come_from_their_members(
    m: Option<Seq<(Seq<char>, ClaimView)>>,
    email: Seq<char>,
    verified: bool,
    sub: Seq<char>,
    name: Seq<char>,
)
    ensures
        !(spec_member(m, "email"@) is Str) ==> spec_profile_from_members(m) == Err::<(Seq<char>, bool, Seq<char>, Seq<char>), Seq<char>>("missing email claim"@),
        spec_member(m, "email"@) == ClaimView::Str(email) ==> (spec_profile_from_members(m) matches Ok(p) && p.0 == email),
        spec_member(m, "email"@) is Str && spec_member(m, "email_verified"@) == ClaimView::Bool(verified)
            ==> (spec_profile_from_members(m) matches Ok(p) && p.1 == verified),
        spec_member(m, "email"@) is Str && !(spec_member(m, "email_verified"@) is Bool)
            ==> (spec_profile_from_members(m) matches Ok(p) && !p.1),
        spec_member(m, "email"@) is Str && spec_member(m, "sub"@) == ClaimView::Str(sub)
            ==> (spec_profile_from_members(m) matches Ok(p) && p.2 == sub),
        spec_member(m, "email"@) is Str && !(spec_member(m, "sub"@) is Str)
            ==> (spec_profile_from_members(m) matches Ok(p) && p.2.len() == 0),
        spec_member(m, "email"@) is Str && spec_member(m, "name"@) == ClaimView::Str(name)
            ==> (spec_profile_from_members(m) matches Ok(p) && p.3 == name),
        spec_member(m, "email"@) is Str && !(spec_member(m, "name"@) is Str)
            ==> (spec_profile_from_members(m) matches Ok(p) && p.3.len() == 0),
{
}

/// Reads the email / email_verified / sub / name claims from the members of a
/// parsed payload.
pub fn profile_from_members(members: &Option<Vec<(String, ClaimValue)>>) -> (r: Result<VerifiedProfile, String>)
    ensures
        match r {
            Ok(p) => spec_profile_from_members(opt_members_view(*members)) == Ok::<(Seq<char>, bool, Seq<char>, Seq<char>), Seq<char>>(profile_view(p)),
            Err(e) => spec_profile_from_members(opt_members_view(*members)) == Err::<(Seq<char>, bool, Seq<char>, Seq<char>), Seq<char>>(e@),
        },
{
    let email = match member(members, "email") {
        ClaimValue::Str(s) => s,
        _ => return Err(to_owned_string("missing email claim")),
    };
    let email_verified = match member(members, "email_verified") {
        ClaimValue::Bool(b) => b,
        _ => false,
    };
    let sub = match member(members, "sub") {
        ClaimValue::Str(s) => s,
        _ => String::new(),
    };
    let name = match member(members, "name") {
        ClaimValue::Str(s) => s,
        _ => String::new(),
    };
    Ok(VerifiedProfile { email, email_verified, sub, name })
}

/// Reads the email / email_verified / sub / name claims of a raw userinfo or ID
/// token payload.
pub fn verify_profile(payload_json: &str) -> (r: Result<VerifiedProfile, String>)
    ensures
        match r {
            Ok(p) => spec_verify_profile(payload_json@) == Ok::<(Seq<char>, bool, Seq<char>, Seq<char>), Seq<char>>(profile_view(p)),
            Err(e) => spec_verify_profile(payload_json@) == Err::<(Seq<char>, bool, Seq<char>, Seq<char>), Seq<char>>(e@),
        },
{
    let parsed = parse_json_members(payload_json);
    match parsed {
        Err(e) => Err(concat2("bad payload: ", e.as_str())),
        Ok(members) => profile_from_members(&members),
    }
}

} // verus!
