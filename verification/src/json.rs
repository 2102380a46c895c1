//! A byte-level scanner for the JSON bodies the service accepts, and the
//! extraction of the `title` member that the todo payload schema requires.
//!
//! The accepted grammar is standard JSON with two deliberate simplifications,
//! both stated by the spec functions below: a number is any non-empty run of
//! the bytes `0-9 . e E + -`, and `\u` escapes denote code points of the Basic
//! Multilingual Plane only (surrogate pairs are rejected). String content is
//! returned with its escapes decoded to UTF-8 bytes.

use vstd::prelude::*;
use crate::text::{QUOTE, BACKSLASH, esc_byte, esc_bytes, json_string, dec_digits, int_digits};

verus! {

/// JSON whitespace: space, tab, line feed, carriage return.
pub open spec fn is_ws(b: u8) -> bool {
    b == 0x20 || b == 0x09 || b == 0x0a || b == 0x0d
}

/// The first index at or after `i` that does not hold whitespace.
pub open spec fn skip_ws(s: Seq<u8>, i: int) -> int
    decreases s.len() - i,
{
    if 0 <= i && i < s.len() && is_ws(s[i]) {
        skip_ws(s, i + 1)
    } else {
        i
    }
}

/// An ASCII hex digit.
pub open spec fn is_hex(b: u8) -> bool {
    (0x30 <= b && b <= 0x39) || (0x61 <= b && b <= 0x66) || (0x41 <= b && b <= 0x46)
}

/// The value of an ASCII hex digit.
pub open spec fn hex_val(b: u8) -> nat {
    if 0x30 <= b && b <= 0x39 {
        (b - 0x30) as nat
    } else if 0x61 <= b && b <= 0x66 {
        (b - 0x61 + 10) as nat
    } else {
        (b - 0x41 + 10) as nat
    }
}

/// The UTF-8 encoding of a code point below 0x10000.
pub open spec fn utf8_of(c: nat) -> Seq<u8> {
    if c < 0x80 {
        seq![c as u8]
    } else if c < 0x800 {
        seq![(0xc0 + c / 64) as u8, (0x80 + c % 64) as u8]
    } else {
        seq![(0xe0 + c / 4096) as u8, (0x80 + (c / 64) % 64) as u8, (0x80 + c % 64) as u8]
    }
}

/// A byte that may appear in a number token.
pub open spec fn is_num_byte(b: u8) -> bool {
    (0x30 <= b && b <= 0x39) || b == 0x2e || b == 0x65 || b == 0x45 || b == 0x2b || b == 0x2d
}

/// The end of the number token starting at `i`.
pub open spec fn skip_num(s: Seq<u8>, i: int) -> int
    decreases s.len() - i,
{
    if 0 <= i && i < s.len() && is_num_byte(s[i]) {
        skip_num(s, i + 1)
    } else {
        i
    }
}

/// Scans a string body starting just after the opening quote. Returns the
/// decoded content and the index just past the closing quote, or `None` if
/// the bytes from `i` on are not a well-formed string body.
pub open spec fn scan_string(s: Seq<u8>, i: int) -> Option<(Seq<u8>, int)>
    decreases s.len() - i,
{
    if i < 0 || i >= s.len() {
        None
    } else if s[i] == QUOTE {
        Some((seq![], i + 1))
    } else if s[i] == BACKSLASH {
        if i + 2 > s.len() {
            None
        } else {
            let e = s[i + 1];
            if e == QUOTE || e == BACKSLASH || e == 0x2f {
                match scan_string(s, i + 2) {
                    Some((c, j)) => Some((seq![e] + c, j)),
                    None => None,
                }
            } else if e == 0x62 || e == 0x66 || e == 0x6e || e == 0x72 || e == 0x74 {
                match scan_string(s, i + 2) {
                    Some((c, j)) => Some((seq![short_escape(e)] + c, j)),
                    None => None,
                }
            } else if e == 0x75 {
                if i + 6 > s.len() {
                    None
                } else if !(is_hex(s[i + 2]) && is_hex(s[i + 3]) && is_hex(s[i + 4]) && is_hex(
                    s[i + 5],
                )) {
                    None
                } else {
                    let c = hex_val(s[i + 2]) * 4096 + hex_val(s[i + 3]) * 256 + hex_val(
                        s[i + 4],
                    ) * 16 + hex_val(s[i + 5]);
                    if 0xd800 <= c && c <= 0xdfff {
                        None
                    } else {
                        match scan_string(s, i + 6) {
                            Some((c2, j)) => Some((utf8_of(c) + c2, j)),
                            None => None,
                        }
                    }
                }
            } else {
                None
            }
        }
    } else if s[i] < 0x20 {
        None
    } else {
        match scan_string(s, i + 1) {
            Some((c, j)) => Some((seq![s[i]] + c, j)),
            None => None,
        }
    }
}

/// What a short escape `\b \f \n \r \t` stands for.
pub open spec fn short_escape(e: u8) -> u8 {
    if e == 0x62 {
        0x08u8
    } else if e == 0x66 {
        0x0cu8
    } else if e == 0x6e {
        0x0au8
    } else if e == 0x72 {
        0x0du8
    } else {
        0x09u8
    }
}

/// The end of the JSON value starting at the non-whitespace index `i`, or
/// `None` if no value of the grammar starts there.
pub open spec fn skip_value(s: Seq<u8>, i: int) -> Option<int>
    decreases s.len() - i, 0int,
{
    if i < 0 || i >= s.len() {
        None
    } else {
        let b = s[i];
        if b == QUOTE {
            match scan_string(s, i + 1) {
                Some((_, j)) => Some(j),
                None => None,
            }
        } else if b == 0x7b {  // '{'
            let k = skip_ws(s, i + 1);
            if k <= i || k > s.len() {
                None
            } else {
                match scan_members(s, k, true, false, None) {
                    Some((_, j)) => Some(j),
                    None => None,
                }
            }
        } else if b == 0x5b {  // '['
            let k = skip_ws(s, i + 1);
            if k <= i || k > s.len() {
                None
            } else {
                skip_items(s, k)
            }
        } else if b == 0x74 {  // "true"
            if i + 4 <= s.len() && s[i + 1] == 0x72 && s[i + 2] == 0x75 && s[i + 3] == 0x65 {
                Some(i + 4)
            } else {
                None
            }
        } else if b == 0x66 {  // "false"
            if i + 5 <= s.len() && s[i + 1] == 0x61 && s[i + 2] == 0x6c && s[i + 3] == 0x73 && s[i
                + 4] == 0x65 {
                Some(i + 5)
            } else {
                None
            }
        } else if b == 0x6e {  // "null"
            if i + 4 <= s.len() && s[i + 1] == 0x75 && s[i + 2] == 0x6c && s[i + 3] == 0x6c {
                Some(i + 4)
            } else {
                None
            }
        } else if is_num_byte(b) {
            Some(skip_num(s, i))
        } else {
            None
        }
    }
}

/// The ends of the items of an array, `i` standing on the first item.
pub open spec fn skip_items(s: Seq<u8>, i: int) -> Option<int>
    decreases s.len() - i, 1int,
{
    match skip_value(s, i) {
        None => None,
        Some(v) => {
            let w = skip_ws(s, v);
            if w < 0 || w >= s.len() {
                None
            } else if s[w] == 0x5d {  // ']'
                Some(w + 1)
            } else if s[w] == 0x2c {  // ','
                let p = skip_ws(s, w + 1);
                if p <= i || p > s.len() {
                    None
                } else {
                    skip_items(s, p)
                }
            } else {
                None
            }
        },
    }
}

/// The bytes of the member name `title`.
pub open spec fn title_key() -> Seq<u8> {
    seq![0x74u8, 0x69u8, 0x74u8, 0x6cu8, 0x65u8]
}

/// Scans the members of an object, `i` standing on the first non-whitespace
/// byte after `{` or after a separating comma. When `collect` holds, a member
/// named `title` must hold a string, is recorded, and may occur only once;
/// `acc` carries the title seen so far. Returns the recorded title and the
/// index just past the closing brace.
pub open spec fn scan_members(
    s: Seq<u8>,
    i: int,
    first: bool,
    collect: bool,
    acc: Option<Seq<u8>>,
) -> Option<(Option<Seq<u8>>, int)>
    decreases s.len() - i, 3int,
{
    if i < 0 || i >= s.len() {
        None
    } else if first && s[i] == 0x7d {  // '}'
        Some((acc, i + 1))
    } else if s[i] == QUOTE {
        match scan_string(s, i + 1) {
            None => None,
            Some((key, j)) => {
                let k = skip_ws(s, j);
                if k < 0 || k >= s.len() || s[k] != 0x3a {  // ':'
                    None
                } else {
                    let m = skip_ws(s, k + 1);
                    if m < i || m > s.len() {
                        None
                    } else if collect && key == title_key() {
                        if acc is Some {
                            None
                        } else if m < s.len() && s[m] == QUOTE {
                            match scan_string(s, m + 1) {
                                None => None,
                                Some((val, v)) => {
                                    if v < i || v > s.len() {
                                        None
                                    } else {
                                        members_rest(s, v, collect, Some(val))
                                    }
                                },
                            }
                        } else {
                            None
                        }
                    } else {
                        match skip_value(s, m) {
                            None => None,
                            Some(v) => {
                                if v < i || v > s.len() {
                                    None
                                } else {
                                    members_rest(s, v, collect, acc)
                                }
                            },
                        }
                    }
                }
            },
        }
    } else {
        None
    }
}

/// After a member's value, ending at `v`: either the object closes or a comma
/// leads to the next member.
pub open spec fn members_rest(s: Seq<u8>, v: int, collect: bool, acc: Option<Seq<u8>>) -> Option<
    (Option<Seq<u8>>, int),
>
    decreases s.len() - v, 2int,
{
    let w = skip_ws(s, v);
    if w < 0 || w >= s.len() {
        None
    } else if s[w] == 0x7d {  // '}'
        Some((acc, w + 1))
    } else if s[w] == 0x2c {  // ','
        let p = skip_ws(s, w + 1);
        if p <= v || p > s.len() {
            None
        } else {
            scan_members(s, p, false, collect, acc)
        }
    } else {
        None
    }
}

/// What the request body yields as a todo title: `Some(title)` exactly when
/// the whole body is one JSON object of the grammar with a string member
/// `title`, and `title` is its decoded content.
pub open spec fn body_title(s: Seq<u8>) -> Option<Seq<u8>> {
    let i = skip_ws(s, 0);
    if 0 <= i && i < s.len() && s[i] == 0x7b {
        let k = skip_ws(s, i + 1);
        if k <= i || k > s.len() {
            None
        } else {
            match scan_members(s, k, true, true, None) {
                None => None,
                Some((t, j)) => if skip_ws(s, j) == s.len() {
                    t
                } else {
                    None
                },
            }
        }
    } else {
        None
    }
}

/// Compares two byte slices.
pub fn bytes_eq(a: &[u8], b: &[u8]) -> (r: bool)
    ensures
        r == (a@ == b@),
{
    if a.len() != b.len() {
        proof {
            assert(a@ != b@);
        }
        return false;
    }
    let mut i: usize = 0;
    while i < a.len()
        invariant
            a@.len() == b@.len(),
            i <= a.len(),
            forall|k: int| 0 <= k < i ==> a@[k] == b@[k],
        decreases a.len() - i,
    {
        if a[i] != b[i] {
            return false;
        }
        i = i + 1;
    }
    proof {
        assert(a@ =~= b@);
    }
    true
}

/// Executable twin of `skip_ws`.
pub fn ws_end(s: &[u8], i: usize) -> (r: usize)
    requires
        i <= s@.len(),
    ensures
        r == skip_ws(s@, i as int),
        i <= r <= s@.len(),
    decreases s@.len() - i,
{
    if i < s.len() {
        let b = s[i];
        if b == 0x20 || b == 0x09 || b == 0x0a || b == 0x0d {
            return ws_end(s, i + 1);
        }
    }
    i
}

/// Executable twin of `skip_num`.
pub fn num_end(s: &[u8], i: usize) -> (r: usize)
    requires
        i <= s@.len(),
    ensures
        r == skip_num(s@, i as int),
        i <= r <= s@.len(),
        i < s@.len() && is_num_byte(s@[i as int]) ==> i < r,
    decreases s@.len() - i,
{
    if i < s.len() {
        let b = s[i];
        if (0x30 <= b && b <= 0x39) || b == 0x2e || b == 0x65 || b == 0x45 || b == 0x2b || b
            == 0x2d {
            return num_end(s, i + 1);
        }
    }
    i
}

/// Executable twin of `scan_string`: the decoded content and the index just
/// past the closing quote.
pub fn string_scan(s: &[u8], i: usize) -> (r: Option<(Vec<u8>, usize)>)
    requires
        i <= s@.len(),
    ensures
        match r {
            Some(cj) => scan_string(s@, i as int) == Some((cj.0@, cj.1 as int)) && i < cj.1
                <= s@.len(),
            None => scan_string(s@, i as int) is None,
        },
    decreases s@.len() - i,
{
    if i >= s.len() {
        return None;
    }
    let b = s[i];
    if b == QUOTE {
        let c: Vec<u8> = Vec::new();
        return Some((c, i + 1));
    }
    if b == BACKSLASH {
        if s.len() - i < 2 {
            return None;
        }
        let e = s[i + 1];
        if e == QUOTE || e == BACKSLASH || e == 0x2f {
            match string_scan(s, i + 2) {
                Some((mut c, j)) => {
                    let ghost c0 = c@;
                    c.insert(0, e);
                    proof {
                        assert(c@ =~= seq![e] + c0);
                    }
                    return Some((c, j));
                },
                None => {
                    return None;
                },
            }
        }
        if e == 0x62 || e == 0x66 || e == 0x6e || e == 0x72 || e == 0x74 {
            let d: u8 = if e == 0x62 {
                0x08
            } else if e == 0x66 {
                0x0c
            } else if e == 0x6e {
                0x0a
            } else if e == 0x72 {
                0x0d
            } else {
                0x09
            };
            match string_scan(s, i + 2) {
                Some((mut c, j)) => {
                    let ghost c0 = c@;
                    c.insert(0, d);
                    proof {
                        assert(c@ =~= seq![short_escape(e)] + c0);
                    }
                    return Some((c, j));
                },
                None => {
                    return None;
                },
            }
        }
        if e == 0x75 {
            if s.len() - i < 6 {
                return None;
            }
            let h0 = hex_nibble(s[i + 2]);
            let h1 = hex_nibble(s[i + 3]);
            let h2 = hex_nibble(s[i + 4]);
            let h3 = hex_nibble(s[i + 5]);
            match (h0, h1, h2, h3) {
                (Some(a0), Some(a1), Some(a2), Some(a3)) => {
                    let c: u32 = (a0 as u32) * 4096 + (a1 as u32) * 256 + (a2 as u32) * 16 + (
                    a3 as u32);
                    if 0xd800 <= c && c <= 0xdfff {
                        return None;
                    }
                    match string_scan(s, i + 6) {
                        Some((mut rest, j)) => {
                            let ghost r0 = rest@;
                            if c < 0x80 {
                                rest.insert(0, c as u8);
                            } else if c < 0x800 {
                                rest.insert(0, (0x80 + c % 64) as u8);
                                rest.insert(0, (0xc0 + c / 64) as u8);
                            } else {
                                rest.insert(0, (0x80 + c % 64) as u8);
                                rest.insert(0, (0x80 + (c / 64) % 64) as u8);
                                rest.insert(0, (0xe0 + c / 4096) as u8);
                            }
                            proof {
                                assert(rest@ =~= utf8_of(c as nat) + r0);
                            }
                            return Some((rest, j));
                        },
                        None => {
                            return None;
                        },
                    }
                },
                _ => {
                    return None;
                },
            }
        }
        return None;
    }
    if b < 0x20 {
        return None;
    }
    match string_scan(s, i + 1) {
        Some((mut c, j)) => {
            let ghost c0 = c@;
            c.insert(0, b);
            proof {
                assert(c@ =~= seq![b] + c0);
            }
            Some((c, j))
        },
        None => None,
    }
}

/// What an optional byte vector stands for in the spec.
pub open spec fn opt_bytes(o: Option<Vec<u8>>) -> Option<Seq<u8>> {
    match o {
        Some(v) => Some(v@),
        None => None,
    }
}

/// Executable twin of `skip_value`.
pub fn value_end(s: &[u8], i: usize) -> (r: Option<usize>)
    requires
        i <= s@.len(),
    ensures
        match r {
            Some(j) => skip_value(s@, i as int) == Some(j as int) && i < j <= s@.len(),
            None => skip_value(s@, i as int) is None,
        },
    decreases s@.len() - i, 0int,
{
    if i >= s.len() {
        return None;
    }
    let b = s[i];
    if b == QUOTE {
        match string_scan(s, i + 1) {
            Some((_, j)) => Some(j),
            None => None,
        }
    } else if b == 0x7b {  // '{'
        let k = ws_end(s, i + 1);
        match members_scan(s, k, true, false, None) {
            Some((_, j)) => Some(j),
            None => None,
        }
    } else if b == 0x5b {  // '['
        let k = ws_end(s, i + 1);
        items_end(s, k)
    } else if b == 0x74 {  // "true"
        if s.len() - i >= 4 && s[i + 1] == 0x72 && s[i + 2] == 0x75 && s[i + 3] == 0x65 {
            Some(i + 4)
        } else {
            None
        }
    } else if b == 0x66 {  // "false"
        if s.len() - i >= 5 && s[i + 1] == 0x61 && s[i + 2] == 0x6c && s[i + 3] == 0x73 && s[i + 4]
            == 0x65 {
            Some(i + 5)
        } else {
            None
        }
    } else if b == 0x6e {  // "null"
        if s.len() - i >= 4 && s[i + 1] == 0x75 && s[i + 2] == 0x6c && s[i + 3] == 0x6c {
            Some(i + 4)
        } else {
            None
        }
    } else if (0x30 <= b && b <= 0x39) || b == 0x2e || b == 0x65 || b == 0x45 || b == 0x2b || b
        == 0x2d {
        Some(num_end(s, i))
    } else {
        None
    }
}

/// Executable twin of `skip_items`.
pub fn items_end(s: &[u8], i: usize) -> (r: Option<usize>)
    requires
        i <= s@.len(),
    ensures
        match r {
            Some(j) => skip_items(s@, i as int) == Some(j as int) && i < j <= s@.len(),
            None => skip_items(s@, i as int) is None,
        },
    decreases s@.len() - i, 1int,
{
    match value_end(s, i) {
        None => None,
        Some(v) => {
            let w = ws_end(s, v);
            if w >= s.len() {
                None
            } else if s[w] == 0x5d {  // ']'
                Some(w + 1)
            } else if s[w] == 0x2c {  // ','
                let p = ws_end(s, w + 1);
                items_end(s, p)
            } else {
                None
            }
        },
    }
}

/// Executable twin of `scan_members`.
pub fn members_scan(s: &[u8], i: usize, first: bool, collect: bool, acc: Option<Vec<u8>>) -> (r:
    Option<(Option<Vec<u8>>, usize)>)
    requires
        i <= s@.len(),
    ensures
        match r {
            Some(tj) => scan_members(s@, i as int, first, collect, opt_bytes(acc)) == Some(
                (opt_bytes(tj.0), tj.1 as int),
            ) && i < tj.1 <= s@.len(),
            None => scan_members(s@, i as int, first, collect, opt_bytes(acc)) is None,
        },
    decreases s@.len() - i, 3int,
{
    if i >= s.len() {
        return None;
    }
    if first && s[i] == 0x7d {  // '}'
        return Some((acc, i + 1));
    }
    if s[i] != QUOTE {
        return None;
    }
    match string_scan(s, i + 1) {
        None => None,
        Some((key, j)) => {
            let k = ws_end(s, j);
            if k >= s.len() {
                return None;
            }
            if s[k] != 0x3a {  // ':'
                return None;
            }
            let m = ws_end(s, k + 1);
            let is_title = bytes_eq(key.as_slice(), &[0x74, 0x69, 0x74, 0x6c, 0x65]);
            proof {
                assert(seq![0x74u8, 0x69u8, 0x74u8, 0x6cu8, 0x65u8] =~= title_key());
            }
            if collect && is_title {
                if acc.is_some() {
                    return None;
                }
                if m < s.len() && s[m] == QUOTE {
                    match string_scan(s, m + 1) {
                        None => None,
                        Some((val, v)) => members_rest_scan(s, v, collect, Some(val)),
                    }
                } else {
                    None
                }
            } else {
                match value_end(s, m) {
                    None => None,
                    Some(v) => members_rest_scan(s, v, collect, acc),
                }
            }
        },
    }
}

/// Executable twin of `members_rest`.
pub fn members_rest_scan(s: &[u8], v: usize, collect: bool, acc: Option<Vec<u8>>) -> (r: Option<
    (Option<Vec<u8>>, usize)>)
    requires
        v <= s@.len(),
    ensures
        match r {
            Some(tj) => members_rest(s@, v as int, collect, opt_bytes(acc)) == Some(
                (opt_bytes(tj.0), tj.1 as int),
            ) && v < tj.1 <= s@.len(),
            None => members_rest(s@, v as int, collect, opt_bytes(acc)) is None,
        },
    decreases s@.len() - v, 2int,
{
    let w = ws_end(s, v);
    if w >= s.len() {
        None
    } else if s[w] == 0x7d {  // '}'
        Some((acc, w + 1))
    } else if s[w] == 0x2c {  // ','
        let p = ws_end(s, w + 1);
        members_scan(s, p, false, collect, acc)
    } else {
        None
    }
}

/// Extracts the todo title from a request body: `Some` exactly when the body
/// is one JSON object of the grammar with a single string member `title`.
pub fn parse_body_title(s: &[u8]) -> (r: Option<Vec<u8>>)
    ensures
        opt_bytes(r) == body_title(s@),
{
    let i = ws_end(s, 0);
    if i >= s.len() {
        return None;
    }
    if s[i] != 0x7b {  // '{'
        return None;
    }
    let k = ws_end(s, i + 1);
    match members_scan(s, k, true, true, None) {
        None => None,
        Some((t, j)) => {
            let e = ws_end(s, j);
            if e == s.len() {
                t
            } else {
                None
            }
        },
    }
}

/// The value of an ASCII hex digit, or `None` for any other byte.
pub fn hex_nibble(b: u8) -> (r: Option<u8>)
    ensures
        r is Some <==> is_hex(b),
        r is Some ==> r->0 == hex_val(b),
{
    if 0x30 <= b && b <= 0x39 {
        Some(b - 0x30)
    } else if 0x61 <= b && b <= 0x66 {
        Some(b - 0x61 + 10)
    } else if 0x41 <= b && b <= 0x46 {
        Some(b - 0x41 + 10)
    } else {
        None
    }
}

/// A hex digit names its value: `hex_val` undoes `hex_digit`.
pub proof fn lemma_hex_digit_val(x: u8)
    requires
        x < 16,
    ensures
        is_hex(crate::text::hex_digit(x)),
        hex_val(crate::text::hex_digit(x)) == x,
{
}

/// Scanning an escaped string body reads back exactly the escaped bytes:
/// wherever `esc_bytes(s)` and a closing quote stand in `full`, the scan
/// starting there yields `s` and stops just past that quote.
pub proof fn lemma_scan_escaped(full: Seq<u8>, pre: Seq<u8>, s: Seq<u8>, t: Seq<u8>)
    requires
        full == pre + esc_bytes(s) + seq![QUOTE] + t,
    ensures
        scan_string(full, pre.len() as int) == Some(
            (s, (pre.len() + esc_bytes(s).len() + 1) as int),
        ),
    decreases s.len(),
{
    let i = pre.len() as int;
    if s.len() == 0 {
        assert(full[i] == QUOTE);
    } else {
        let b = s[0];
        let rest = s.drop_first();
        assert(esc_bytes(s) == esc_byte(b) + esc_bytes(rest));
        let pre2 = pre + esc_byte(b);
        assert(full =~= pre2 + esc_bytes(rest) + seq![QUOTE] + t);
        lemma_scan_escaped(full, pre2, rest, t);
        if b == QUOTE || b == BACKSLASH {
            assert(full[i] == BACKSLASH);
            assert(full[i + 1] == b);
            assert(pre2.len() == i + 2);
            assert(seq![b] + rest =~= s);
            assert(scan_string(full, i) == Some((s, i + esc_bytes(s).len() + 1)));
        } else if b < 0x20 {
            assert(full[i] == BACKSLASH);
            assert(full[i + 1] == 0x75);
            assert(full[i + 2] == 0x30);
            assert(full[i + 3] == 0x30);
            assert(full[i + 4] == crate::text::hex_digit(b / 16));
            assert(full[i + 5] == crate::text::hex_digit(b % 16));
            lemma_hex_digit_val(b / 16);
            lemma_hex_digit_val(b % 16);
            let c = hex_val(full[i + 2]) * 4096 + hex_val(full[i + 3]) * 256 + hex_val(
                full[i + 4],
            ) * 16 + hex_val(full[i + 5]);
            assert(c == b);
            assert(utf8_of(c) =~= seq![b]);
            assert(pre2.len() == i + 6);
            assert(utf8_of(c) + rest =~= s);
            assert(scan_string(full, i) == Some((s, i + esc_bytes(s).len() + 1)));
        } else {
            assert(full[i] == b);
            assert(pre2.len() == i + 1);
            assert(seq![b] + rest =~= s);
            assert(scan_string(full, i) == Some((s, i + esc_bytes(s).len() + 1)));
        }
    }
}

/// The string round trip: what the scanner reads back from a rendered JSON
/// string literal is exactly the string that was rendered, so a title carried
/// through a response body comes back byte for byte.
pub proof fn lemma_string_round_trip(s: Seq<u8>)
    ensures
        scan_string(json_string(s), 1) == Some((s, json_string(s).len() as int)),
{
    let full = json_string(s);
    assert(full =~= seq![QUOTE] + esc_bytes(s) + seq![QUOTE] + seq![]);
    lemma_scan_escaped(full, seq![QUOTE], s, seq![]);
}


/// Escaping a string of plain bytes (no quote, no backslash, no control
/// byte) changes nothing.
pub proof fn lemma_esc_plain(s: Seq<u8>)
    requires
        forall|k: int|
            0 <= k < s.len() ==> (#[trigger] s[k]) != QUOTE && s[k] != BACKSLASH && s[k] >= 0x20,
    ensures
        esc_bytes(s) == s,
    decreases s.len(),
{
    if s.len() > 0 {
        lemma_esc_plain(s.drop_first());
        assert(esc_byte(s[0]) + s.drop_first() =~= s);
    }
}

/// A number token runs to the first byte outside its alphabet.
pub proof fn lemma_skip_num_to(s: Seq<u8>, i: int, j: int)
    requires
        0 <= i <= j <= s.len(),
        forall|k: int| i <= k < j ==> is_num_byte(#[trigger] s[k]),
        j == s.len() || !is_num_byte(s[j]),
    ensures
        skip_num(s, i) == j,
    decreases j - i,
{
    if i < j {
        lemma_skip_num_to(s, i + 1, j);
    }
}

/// Every byte of a decimal rendering is a digit.
pub proof fn lemma_dec_digits_bytes(n: nat)
    ensures
        dec_digits(n).len() >= 1,
        forall|k: int| 0 <= k < dec_digits(n).len() ==> 0x30 <= #[trigger] dec_digits(n)[k]
            <= 0x39,
    decreases n,
{
    if n >= 10 {
        lemma_dec_digits_bytes(n / 10);
        assert forall|k: int| 0 <= k < dec_digits(n).len() implies 0x30
            <= #[trigger] dec_digits(n)[k] <= 0x39 by {
            if k < dec_digits(n / 10).len() {
                assert(dec_digits(n)[k] == dec_digits(n / 10)[k]);
            }
        }
    }
}

/// Every byte of an integer rendering belongs to the number token alphabet,
/// and the first is a digit or the minus sign.
pub proof fn lemma_int_digits_bytes(i: int)
    ensures
        int_digits(i).len() >= 1,
        forall|k: int| 0 <= k < int_digits(i).len() ==> is_num_byte(
            #[trigger] int_digits(i)[k],
        ),
        int_digits(i)[0] == 0x2d || 0x30 <= int_digits(i)[0] <= 0x39,
{
    if i >= 0 {
        lemma_dec_digits_bytes(i as nat);
    } else {
        lemma_dec_digits_bytes((-i) as nat);
        assert forall|k: int| 0 <= k < int_digits(i).len() implies is_num_byte(
            #[trigger] int_digits(i)[k],
        ) by {
            if k > 0 {
                assert(int_digits(i)[k] == dec_digits((-i) as nat)[k - 1]);
            }
        }
    }
}


} // verus!
