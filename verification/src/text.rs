//! ASCII text held as bytes: case folding, visible characters, and lists of
//! tokens separated by spaces and commas.

use vstd::prelude::*;
use vstd::string::*;

verus! {

/// The bytes of a text made of ASCII characters, one byte for each character.
pub open spec fn ascii_bytes(text: Seq<char>) -> Seq<u8> {
    Seq::new(text.len(), |i: int| text[i] as u8)
}

/// The lower-case form of an ASCII letter; any other byte stays as it is.
pub open spec fn lower(b: u8) -> u8 {
    if 0x41 <= b <= 0x5a {
        (b + 0x20) as u8
    } else {
        b
    }
}

/// Two byte strings are equal up to the case of their ASCII letters.
pub open spec fn eq_ignore_case(a: Seq<u8>, b: Seq<u8>) -> bool {
    &&& a.len() == b.len()
    &&& forall|i: int| 0 <= i < a.len() ==> lower(#[trigger] a[i]) == lower(b[i])
}

/// A byte that may stand in a header value read as text: a printable ASCII
/// character, a space or a tab.
pub open spec fn is_visible(b: u8) -> bool {
    32 <= b < 127 || b == 9
}

/// Every byte of `s` is visible.
pub open spec fn all_visible(s: Seq<u8>) -> bool {
    forall|i: int| 0 <= i < s.len() ==> is_visible(#[trigger] s[i])
}

/// A space or a comma: what separates the tokens of a list.
pub open spec fn is_separator(b: u8) -> bool {
    b == 0x20 || b == 0x2c
}

/// `s[start..end]` is one piece of `s` cut at its separators: it holds no
/// separator, and on each side it ends at a separator or at the end of `s`.
/// Two separators in a row enclose an empty piece.
pub open spec fn is_piece(s: Seq<u8>, start: int, end: int) -> bool {
    &&& 0 <= start <= end <= s.len()
    &&& start == 0 || is_separator(s[start - 1])
    &&& end == s.len() || is_separator(s[end])
    &&& forall|k: int| start <= k < end ==> !is_separator(#[trigger] s[k])
}

/// One of the pieces of `s` equals `token` up to case.
pub open spec fn has_token(s: Seq<u8>, token: Seq<u8>) -> bool {
    exists|start: int, end: int| #[trigger]
        is_piece(s, start, end) && eq_ignore_case(s.subrange(start, end), token)
}

/// The bytes of an ASCII string literal.
pub fn literal_bytes(text: &'static str) -> (bytes: &'static [u8])
    requires
        is_ascii(text),
    ensures
        bytes@ == ascii_bytes(text@),
{
    broadcast use is_ascii_spec_bytes;

    let bytes = text.as_bytes();
    assert(bytes@ =~= ascii_bytes(text@));
    bytes
}

/// Folds an ASCII letter to lower case.
pub fn to_lower(b: u8) -> (r: u8)
    ensures
        r == lower(b),
{
    if 0x41 <= b && b <= 0x5a {
        b + 0x20
    } else {
        b
    }
}

/// Tells whether the byte separates tokens.
pub fn is_separator_byte(b: u8) -> (r: bool)
    ensures
        r == is_separator(b),
{
    b == 0x20 || b == 0x2c
}

/// Compares two byte strings exactly.
pub fn bytes_eq(a: &[u8], b: &[u8]) -> (r: bool)
    ensures
        r == (a@ == b@),
{
    if a.len() != b.len() {
        return false;
    }
    let mut i: usize = 0;
    while i < a.len()
        invariant
            a.len() == b.len(),
            i <= a.len(),
            forall|k: int| 0 <= k < i ==> a@[k] == b@[k],
        decreases a.len() - i,
    {
        if a[i] != b[i] {
            return false;
        }
        i += 1;
    }
    assert(a@ =~= b@);
    true
}

/// Compares two texts exactly.
pub fn str_eq(a: &str, b: &str) -> (r: bool)
    ensures
        r == (a@ == b@),
{
    let r = bytes_eq(a.as_bytes(), b.as_bytes());
    proof {
        vstd::utf8::encode_utf8_decode_utf8(a@);
        vstd::utf8::encode_utf8_decode_utf8(b@);
    }
    r
}

/// Compares `value[start..end]` with `token`, letters in either case.
pub fn range_eq_ignore_case(value: &[u8], start: usize, end: usize, token: &[u8]) -> (r: bool)
    requires
        start <= end <= value.len(),
    ensures
        r == eq_ignore_case(value@.subrange(start as int, end as int), token@),
{
    if end - start != token.len() {
        return false;
    }
    let ghost piece = value@.subrange(start as int, end as int);
    let mut i: usize = 0;
    while i < token.len()
        invariant
            start <= end <= value.len(),
            end - start == token.len(),
            i <= token.len(),
            piece == value@.subrange(start as int, end as int),
            forall|k: int| 0 <= k < i ==> lower(#[trigger] piece[k]) == lower(token@[k]),
        decreases token.len() - i,
    {
        assert(piece[i as int] == value@[start + i]);
        if to_lower(value[start + i]) != to_lower(token[i]) {
            return false;
        }
        i += 1;
    }
    true
}

/// Compares two byte strings, letters in either case.
pub fn bytes_eq_ignore_case(a: &[u8], b: &[u8]) -> (r: bool)
    ensures
        r == eq_ignore_case(a@, b@),
{
    assert(a@.subrange(0, a@.len() as int) =~= a@);
    range_eq_ignore_case(a, 0, a.len(), b)
}

/// Tells whether every byte of `value` is visible, so that the value can be
/// read as text.
pub fn is_visible_ascii(value: &[u8]) -> (r: bool)
    ensures
        r == all_visible(value@),
{
    let mut i: usize = 0;
    while i < value.len()
        invariant
            i <= value.len(),
            forall|k: int| 0 <= k < i ==> is_visible(#[trigger] value@[k]),
        decreases value.len() - i,
    {
        let b = value[i];
        if !(32 <= b && b < 127 || b == 9) {
            return false;
        }
        i += 1;
    }
    true
}

/// A piece that ends at `end`, where the piece in progress began at `start`,
/// is that piece.
proof fn lemma_piece_start(s: Seq<u8>, start: int, a: int, end: int)
    requires
        0 <= start <= end <= s.len(),
        start == 0 || is_separator(s[start - 1]),
        forall|k: int| start <= k < end ==> !is_separator(#[trigger] s[k]),
        is_piece(s, a, end),
    ensures
        a == start,
{
    if a < start {
        assert(is_separator(s[start - 1]));
        assert(!is_separator(s[start - 1]));
    } else if a > start {
        assert(is_separator(s[a - 1]));
        assert(!is_separator(s[a - 1]));
    }
}

/// Cuts `value` at spaces and commas and tells whether one of the pieces is
/// `token`, letters in either case.
pub fn contains_token(value: &[u8], token: &[u8]) -> (r: bool)
    ensures
        r == has_token(value@, token@),
{
    let n = value.len();
    let mut start: usize = 0;
    let mut i: usize = 0;
    while i < n
        invariant
            n == value.len(),
            start <= i <= n,
            start == 0 || is_separator(value@[start - 1]),
            forall|k: int| start <= k < i ==> !is_separator(#[trigger] value@[k]),
            forall|a: int, b: int| #[trigger]
                is_piece(value@, a, b) && b < i ==> !eq_ignore_case(
                    value@.subrange(a, b),
                    token@,
                ),
        decreases n - i,
    {
        if is_separator_byte(value[i]) {
            if range_eq_ignore_case(value, start, i, token) {
                assert(is_piece(value@, start as int, i as int));
                return true;
            }
            assert forall|a: int, b: int| #[trigger]
                is_piece(value@, a, b) && b < i + 1 implies !eq_ignore_case(
                value@.subrange(a, b),
                token@,
            ) by {
                if b == i {
                    lemma_piece_start(value@, start as int, a, b);
                }
            }
            start = i + 1;
        }
        i += 1;
    }
    let found = range_eq_ignore_case(value, start, n, token);
    proof {
        if found {
            assert(is_piece(value@, start as int, n as int));
        } else {
            assert forall|a: int, b: int| #[trigger]
                is_piece(value@, a, b) implies !eq_ignore_case(value@.subrange(a, b), token@) by {
                if b == n {
                    lemma_piece_start(value@, start as int, a, b);
                }
            }
        }
    }
    found
}

} // verus!
