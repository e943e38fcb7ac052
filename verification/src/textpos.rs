//! Byte positions inside UTF-8 text.
//!
//! The segmenters address text by byte offset, while the mathematical model
//! of a text is its sequence of characters.  This module ties the two
//! together: [`byte_pos`] gives the byte offset of a character index,
//! [`is_char_bdy`] says when a byte offset falls on a character boundary, and
//! [`char_idx`] recovers the character index of such an offset.  The
//! executable helpers ([`str_split`], [`first_char`], [`last_char`], ...) are
//! proved against that model through the UTF-8 theory of `vstd`.

use vstd::prelude::*;
use vstd::utf8::*;

verus! {

/// Number of bytes in the UTF-8 encoding of one character.
pub open spec fn char_utf8_width(c: char) -> int {
    if c as u32 <= 0x7F {
        1int
    } else if c as u32 <= 0x7FF {
        2int
    } else if c as u32 <= 0xFFFF {
        3int
    } else {
        4int
    }
}

/// Byte offset of the character with index `i` inside the UTF-8 encoding of `s`.
pub open spec fn byte_pos(s: Seq<char>, i: int) -> int
    decreases i,
{
    if i <= 0 {
        0int
    } else {
        byte_pos(s, i - 1) + char_utf8_width(s[i - 1])
    }
}

/// Total length in bytes of the UTF-8 encoding of `s`.
pub open spec fn byte_len(s: Seq<char>) -> int {
    byte_pos(s, s.len() as int)
}

/// `b` is a byte offset that falls on a character boundary of `s`
/// (including the offsets `0` and `byte_len(s)`).
pub open spec fn is_char_bdy(s: Seq<char>, b: int) -> bool {
    exists|i: int| 0 <= i <= s.len() && byte_pos(s, i) == b
}

/// The character index whose byte offset is `b`; meaningful when
/// `is_char_bdy(s, b)` holds.
pub open spec fn char_idx(s: Seq<char>, b: int) -> int {
    choose|i: int| 0 <= i <= s.len() && byte_pos(s, i) == b
}

/// A character occupies between one and four bytes, so byte offsets grow
/// strictly with the character index.
pub proof fn lemma_byte_pos_mono(s: Seq<char>, i: int, j: int)
    requires
        0 <= i <= j,
    ensures
        byte_pos(s, i) <= byte_pos(s, j),
        byte_pos(s, j) - byte_pos(s, i) >= j - i,
    decreases j - i,
{
    if i < j {
        lemma_byte_pos_mono(s, i, j - 1);
    }
}

/// `byte_pos` only looks at the first `i` characters, so it agrees on any
/// prefix that is long enough.
pub proof fn lemma_byte_pos_take(s: Seq<char>, j: int, i: int)
    requires
        0 <= i <= j <= s.len(),
    ensures
        byte_pos(s.take(j), i) == byte_pos(s, i),
    decreases i,
{
    if i > 0 {
        lemma_byte_pos_take(s, j, i - 1);
    }
}

/// `byte_pos` of a suffix, shifted by the prefix it dropped.
pub proof fn lemma_byte_pos_skip(s: Seq<char>, j: int, i: int)
    requires
        0 <= j,
        0 <= i,
        i + j <= s.len(),
    ensures
        byte_pos(s.skip(j), i) == byte_pos(s, i + j) - byte_pos(s, j),
    decreases i,
{
    if i > 0 {
        lemma_byte_pos_skip(s, j, i - 1);
        assert(s.skip(j)[i - 1] == s[i + j - 1]);
    }
}

/// The character boundary at byte offset `b` has a unique character index,
/// and `char_idx` names it.
pub proof fn lemma_char_idx(s: Seq<char>, b: int)
    requires
        is_char_bdy(s, b),
    ensures
        0 <= char_idx(s, b) <= s.len(),
        byte_pos(s, char_idx(s, b)) == b,
        forall|i: int| 0 <= i <= s.len() && byte_pos(s, i) == b ==> i == char_idx(s, b),
        0 <= b <= byte_len(s),
{
    let ci = char_idx(s, b);
    assert(0 <= ci <= s.len() && byte_pos(s, ci) == b);
    assert forall|i: int| 0 <= i <= s.len() && byte_pos(s, i) == b implies i == ci by {
        if i < ci {
            lemma_byte_pos_mono(s, i, ci);
        } else if ci < i {
            lemma_byte_pos_mono(s, ci, i);
        }
    }
    lemma_byte_pos_mono(s, 0, ci);
    lemma_byte_pos_mono(s, ci, s.len() as int);
}

/// The offsets `0` and `byte_len(s)` are always character boundaries, with
/// character indices `0` and `s.len()`.
pub proof fn lemma_bdy_ends(s: Seq<char>)
    ensures
        is_char_bdy(s, 0),
        is_char_bdy(s, byte_len(s)),
        char_idx(s, 0) == 0,
        char_idx(s, byte_len(s)) == s.len(),
{
    assert(byte_pos(s, 0) == 0);
    assert(is_char_bdy(s, 0));
    assert(is_char_bdy(s, byte_len(s)));
    lemma_char_idx(s, 0);
    lemma_char_idx(s, byte_len(s));
}

/// Stepping one character forward from a boundary lands on the next boundary.
pub proof fn lemma_bdy_step(s: Seq<char>, b: int)
    requires
        is_char_bdy(s, b),
        char_idx(s, b) < s.len(),
    ensures
        is_char_bdy(s, b + char_utf8_width(s[char_idx(s, b)])),
        char_idx(s, b + char_utf8_width(s[char_idx(s, b)])) == char_idx(s, b) + 1,
{
    let ci = char_idx(s, b);
    lemma_char_idx(s, b);
    assert(byte_pos(s, ci + 1) == b + char_utf8_width(s[ci]));
    assert(is_char_bdy(s, b + char_utf8_width(s[ci])));
    lemma_char_idx(s, b + char_utf8_width(s[ci]));
}

/// Stepping one character backward from a boundary lands on the previous boundary.
pub proof fn lemma_bdy_step_back(s: Seq<char>, b: int)
    requires
        is_char_bdy(s, b),
        char_idx(s, b) > 0,
    ensures
        is_char_bdy(s, b - char_utf8_width(s[char_idx(s, b) - 1])),
        char_idx(s, b - char_utf8_width(s[char_idx(s, b) - 1])) == char_idx(s, b) - 1,
        0 <= b - char_utf8_width(s[char_idx(s, b) - 1]),
{
    let ci = char_idx(s, b);
    lemma_char_idx(s, b);
    lemma_byte_pos_mono(s, 0, ci - 1);
    assert(byte_pos(s, ci) == byte_pos(s, ci - 1) + char_utf8_width(s[ci - 1]));
    assert(is_char_bdy(s, b - char_utf8_width(s[ci - 1])));
    lemma_char_idx(s, b - char_utf8_width(s[ci - 1]));
}

/// The UTF-8 width of a character equals the length of its encoding.
pub proof fn lemma_char_width_encode(c: char)
    ensures
        encode_scalar(c as u32).len() == char_utf8_width(c),
        1 <= char_utf8_width(c) <= 4,
{
    char_is_scalar(c);
}

proof fn lemma_byte_pos_drop_first(s: Seq<char>, i: int)
    requires
        1 <= i <= s.len(),
    ensures
        byte_pos(s, i) == char_utf8_width(s[0]) + byte_pos(s.drop_first(), i - 1),
    decreases i,
{
    if i == 1 {
        assert(byte_pos(s, 1) == byte_pos(s, 0) + char_utf8_width(s[0]));
        assert(byte_pos(s, 0) == 0);
        assert(byte_pos(s.drop_first(), 0) == 0);
    } else {
        lemma_byte_pos_drop_first(s, i - 1);
        assert(s.drop_first()[i - 2] == s[i - 1]);
        assert(byte_pos(s, i) == byte_pos(s, i - 1) + char_utf8_width(s[i - 1]));
        assert(byte_pos(s.drop_first(), i - 1) == byte_pos(s.drop_first(), i - 2)
            + char_utf8_width(s.drop_first()[i - 2]));
    }
}

/// `byte_pos` is the length of the encoding of the corresponding prefix.
pub proof fn lemma_byte_pos_encode(s: Seq<char>, i: int)
    requires
        0 <= i <= s.len(),
    ensures
        byte_pos(s, i) == encode_utf8(s.take(i)).len(),
    decreases s.len(),
{
    if i == 0 {
        assert(s.take(0) =~= Seq::<char>::empty());
    } else {
        lemma_char_width_encode(s[0]);
        lemma_byte_pos_drop_first(s, i);
        lemma_byte_pos_encode(s.drop_first(), i - 1);
        assert(s.take(i).drop_first() =~= s.drop_first().take(i - 1));
        assert(s.take(i)[0] == s[0]);
    }
}

/// The total byte length is the length of the full encoding.
pub proof fn lemma_byte_len_encode(s: Seq<char>)
    ensures
        byte_len(s) == encode_utf8(s).len(),
{
    lemma_byte_pos_encode(s, s.len() as int);
    assert(s.take(s.len() as int) =~= s);
}

/// Encoding distributes over concatenation.
pub proof fn lemma_encode_concat(a: Seq<char>, b: Seq<char>)
    ensures
        encode_utf8(a + b) == encode_utf8(a) + encode_utf8(b),
    decreases a.len(),
{
    if a.len() == 0 {
        assert(a + b =~= b);
        assert(encode_utf8(a) + encode_utf8(b) =~= encode_utf8(b));
    } else {
        lemma_encode_concat(a.drop_first(), b);
        assert((a + b).drop_first() =~= a.drop_first() + b);
        assert((a + b)[0] == a[0]);
        assert(encode_scalar(a[0] as u32) + (encode_utf8(a.drop_first()) + encode_utf8(b))
            =~= (encode_scalar(a[0] as u32) + encode_utf8(a.drop_first())) + encode_utf8(b));
    }
}

/// Two character sequences with the same encoding are the same sequence.
pub proof fn lemma_encode_injective(a: Seq<char>, b: Seq<char>)
    requires
        encode_utf8(a) == encode_utf8(b),
    ensures
        a == b,
{
    encode_utf8_decode_utf8(a);
    encode_utf8_decode_utf8(b);
}

/// A character boundary of the model is a character boundary of the encoding.
pub proof fn lemma_bdy_to_bytes(s: Seq<char>, i: int)
    requires
        0 <= i <= s.len(),
    ensures
        is_char_boundary(encode_utf8(s), byte_pos(s, i)),
    decreases i,
{
    encode_utf8_valid_utf8(s);
    if i > 0 {
        encode_utf8_first_scalar(s);
        lemma_char_width_encode(s[0]);
        assert(pop_first_scalar(encode_utf8(s)) =~= encode_utf8(s.drop_first()));
        lemma_byte_pos_drop_first(s, i);
        lemma_bdy_to_bytes(s.drop_first(), i - 1);
    }
}

/// A character boundary of the encoding comes from a character index.
pub proof fn lemma_bdy_from_bytes(s: Seq<char>, b: int)
    requires
        is_char_boundary(encode_utf8(s), b),
    ensures
        is_char_bdy(s, b),
    decreases s.len(),
{
    encode_utf8_valid_utf8(s);
    if b == 0 {
        assert(byte_pos(s, 0) == 0);
    } else {
        assert(s.len() > 0) by {
            if s.len() == 0 {
                assert(encode_utf8(s).len() == 0);
            }
        }
        encode_utf8_first_scalar(s);
        lemma_char_width_encode(s[0]);
        assert(pop_first_scalar(encode_utf8(s)) =~= encode_utf8(s.drop_first()));
        let w = char_utf8_width(s[0]);
        assert(b >= w) by {
            if b < w {
                assert(!is_char_boundary(encode_utf8(s.drop_first()), b - w));
            }
        }
        lemma_bdy_from_bytes(s.drop_first(), b - w);
        let i0 = choose|i: int|
            0 <= i <= s.drop_first().len() && byte_pos(s.drop_first(), i) == b - w;
        lemma_byte_pos_drop_first(s, i0 + 1);
        assert(byte_pos(s, i0 + 1) == b);
    }
}

/// Width of one character, as executable code.
pub fn char_width(c: char) -> (w: usize)
    ensures
        w as int == char_utf8_width(c),
{
    let u: u32 = c as u32;
    if u <= 0x7F {
        1
    } else if u <= 0x7FF {
        2
    } else if u <= 0xFFFF {
        3
    } else {
        4
    }
}

/// Byte length of a string slice, tied to the model.
pub fn str_byte_len(s: &str) -> (n: usize)
    ensures
        n as int == byte_len(s@),
{
    proof {
        lemma_byte_len_encode(s@);
    }
    s.as_bytes().len()
}

/// Split a string slice at a byte offset that is a character boundary.
pub fn str_split<'a>(s: &'a str, b: usize) -> (r: (&'a str, &'a str))
    requires
        is_char_bdy(s@, b as int),
    ensures
        r.0@ == s@.take(char_idx(s@, b as int)),
        r.1@ == s@.skip(char_idx(s@, b as int)),
        byte_len(r.0@) == b,
        byte_len(r.1@) == byte_len(s@) - b,
{
    proof {
        let ci = char_idx(s@, b as int);
        lemma_char_idx(s@, b as int);
        lemma_bdy_to_bytes(s@, ci);
        assert(s@.take(ci) + s@.skip(ci) =~= s@);
        lemma_encode_concat(s@.take(ci), s@.skip(ci));
        lemma_byte_pos_encode(s@, ci);
        lemma_byte_len_encode(s@);
    }
    let r = s.split_at(b);
    proof {
        let ci = char_idx(s@, b as int);
        let eb = encode_utf8(s@);
        assert(encode_utf8(s@.take(ci)) =~= eb.subrange(0, b as int));
        assert(encode_utf8(s@.skip(ci)) =~= eb.subrange(b as int, eb.len() as int));
        lemma_encode_injective(r.0@, s@.take(ci));
        lemma_encode_injective(r.1@, s@.skip(ci));
        lemma_byte_len_encode(r.0@);
        lemma_byte_len_encode(r.1@);
    }
    r
}

/// First character of a non-empty string slice.
pub fn first_char(s: &str) -> (c: char)
    requires
        s@.len() > 0,
    ensures
        c == s@[0],
{
    broadcast use vstd::string::group_string_axioms;

    let mut it = s.chars();
    let c = it.next();
    c.unwrap()
}

/// Last character of a non-empty string slice.
pub fn last_char(s: &str) -> (c: char)
    requires
        s@.len() > 0,
    ensures
        c == s@[s@.len() - 1],
{
    proof {
        lemma_byte_len_encode(s@);
        lemma_byte_pos_mono(s@, s@.len() - 1, s@.len() as int);
        lemma_byte_pos_mono(s@, 0, s@.len() - 1);
        encode_utf8_valid_utf8(s@);
    }
    let bs = s.as_bytes();
    let n = bs.len();
    let ghost last_start: int = byte_pos(s@, s@.len() - 1);
    proof {
        lemma_byte_len_encode(s@);
        lemma_byte_pos_mono(s@, s@.len() - 1, s@.len() as int);
        assert(byte_pos(s@, s@.len() as int) - last_start >= 1);
        lemma_char_idx_of_pos(s@, s@.len() - 1);
    }
    let mut k: usize = n - 1;
    while bs[k] >= 0x80 && bs[k] <= 0xBF
        invariant
            s@.len() > 0,
            bs@ == encode_utf8(s@),
            bs@.len() == n,
            n as int == byte_len(s@),
            last_start <= k < n,
            last_start == byte_pos(s@, s@.len() - 1),
        decreases k,
    {
        proof {
            encode_utf8_valid_utf8(s@);
            if k as int == last_start {
                lemma_bdy_to_bytes(s@, s@.len() - 1);
                lemma_byte_len_encode(s@);
                is_char_boundary_iff_not_is_continuation_byte(encode_utf8(s@), k as int);
                assert(false);
            }
        }
        k = k - 1;
    }
    proof {
        encode_utf8_valid_utf8(s@);
        lemma_byte_len_encode(s@);
        is_char_boundary_iff_not_is_continuation_byte(encode_utf8(s@), k as int);
        lemma_bdy_from_bytes(s@, k as int);
        lemma_char_idx(s@, k as int);
        let ci = char_idx(s@, k as int);
        if ci < s@.len() - 1 {
            lemma_byte_pos_mono(s@, ci + 1, s@.len() - 1);
            assert(byte_pos(s@, ci + 1) <= last_start);
            assert(byte_pos(s@, ci + 1) == k + char_utf8_width(s@[ci]));
            assert(false);
        }
        if ci == s@.len() {
            lemma_byte_len_encode(s@);
            assert(false);
        }
        assert(ci == s@.len() - 1);
    }
    let tail = str_split(s, k).1;
    proof {
        assert(tail@[0] == s@[s@.len() - 1]);
    }
    first_char(tail)
}

pub proof fn lemma_char_idx_of_pos(s: Seq<char>, i: int)
    requires
        0 <= i <= s.len(),
    ensures
        is_char_bdy(s, byte_pos(s, i)),
        char_idx(s, byte_pos(s, i)) == i,
{
    assert(is_char_bdy(s, byte_pos(s, i)));
    lemma_char_idx(s, byte_pos(s, i));
}

/// The character that starts at byte offset `b`.
pub fn char_at(s: &str, b: usize) -> (c: char)
    requires
        is_char_bdy(s@, b as int),
        b < byte_len(s@),
    ensures
        c == s@[char_idx(s@, b as int)],
{
    proof {
        lemma_char_idx(s@, b as int);
        if char_idx(s@, b as int) == s@.len() {
            assert(false);
        }
    }
    let tail = str_split(s, b).1;
    first_char(tail)
}

/// The character that ends at byte offset `b`.
pub fn char_before(s: &str, b: usize) -> (c: char)
    requires
        is_char_bdy(s@, b as int),
        0 < b,
    ensures
        c == s@[char_idx(s@, b as int) - 1],
{
    proof {
        lemma_char_idx(s@, b as int);
        if char_idx(s@, b as int) == 0 {
            assert(false);
        }
    }
    let head = str_split(s, b).0;
    last_char(head)
}

/// The slice of `s` between two character boundaries.
pub fn str_slice<'a>(s: &'a str, b1: usize, b2: usize) -> (r: &'a str)
    requires
        is_char_bdy(s@, b1 as int),
        is_char_bdy(s@, b2 as int),
        b1 <= b2,
    ensures
        r@ == s@.subrange(char_idx(s@, b1 as int), char_idx(s@, b2 as int)),
        byte_len(r@) == b2 - b1,
{
    proof {
        let c1 = char_idx(s@, b1 as int);
        let c2 = char_idx(s@, b2 as int);
        lemma_char_idx(s@, b1 as int);
        lemma_char_idx(s@, b2 as int);
        if c2 < c1 {
            lemma_byte_pos_mono(s@, c2, c1);
            assert(false);
        }
        lemma_byte_pos_take(s@, c2, c1);
        lemma_char_idx_take(s@, c2, c1);
    }
    let head = str_split(s, b2).0;
    let r = str_split(head, b1).1;
    proof {
        let c1 = char_idx(s@, b1 as int);
        let c2 = char_idx(s@, b2 as int);
        assert(r@ =~= s@.subrange(c1, c2));
        lemma_byte_pos_skip(s@.take(c2), c1, c2 - c1);
        lemma_byte_pos_take(s@, c2, c2);
        assert(byte_len(r@) == b2 - b1) by {
            assert(r@ =~= s@.take(c2).skip(c1));
            assert(byte_len(s@.take(c2).skip(c1)) == byte_pos(s@.take(c2), c2 - c1 + c1)
                - byte_pos(s@.take(c2), c1));
        }
    }
    r
}

proof fn lemma_char_idx_take(s: Seq<char>, j: int, i: int)
    requires
        0 <= i <= j <= s.len(),
    ensures
        is_char_bdy(s.take(j), byte_pos(s, i)),
        char_idx(s.take(j), byte_pos(s, i)) == i,
{
    lemma_byte_pos_take(s, j, i);
    assert(byte_pos(s.take(j), i) == byte_pos(s, i));
    assert(is_char_bdy(s.take(j), byte_pos(s, i)));
    lemma_char_idx(s.take(j), byte_pos(s, i));
}

} // verus!
