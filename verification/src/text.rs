//! Strings as characters and as bytes: how the two views of a text relate,
//! and the comparison of two texts.

use vstd::prelude::*;
use vstd::string::StringSliceAdditionalSpecFns;
use vstd::utf8::{encode_scalar, encode_utf8, encode_utf8_decode_utf8};

verus! {

/// Whether two strings hold the same characters.
pub fn same_text(a: &str, b: &str) -> (same: bool)
    ensures
        same == (a@ == b@),
{
    let left = a.as_bytes();
    let right = b.as_bytes();
    proof {
        // Strings with the same encoding decode to the same characters.
        encode_utf8_decode_utf8(a@);
        encode_utf8_decode_utf8(b@);
    }
    if left.len() != right.len() {
        return false;
    }
    let mut i: usize = 0;
    while i < left.len()
        invariant
            left@ == a.spec_bytes(),
            right@ == b.spec_bytes(),
            left@.len() == right@.len(),
            i <= left@.len(),
            forall|j: int| 0 <= j < i ==> left@[j] == right@[j],
        decreases left@.len() - i,
    {
        if left[i] != right[i] {
            return false;
        }
        i += 1;
    }
    assert(left@ =~= right@);
    true
}

/// The encoding of two texts joined is the encoding of the first followed
/// by that of the second.
pub proof fn lemma_encode_utf8_concat(a: Seq<char>, b: Seq<char>)
    ensures
        encode_utf8(a + b) == encode_utf8(a) + encode_utf8(b),
    decreases a.len(),
{
    if a.len() == 0 {
        assert(a + b =~= b);
        assert(encode_utf8(a) + encode_utf8(b) =~= encode_utf8(b));
    } else {
        assert((a + b).drop_first() =~= a.drop_first() + b);
        lemma_encode_utf8_concat(a.drop_first(), b);
        assert((a + b)[0] == a[0]);
        assert(encode_utf8(a + b) =~= encode_utf8(a) + encode_utf8(b));
    }
}

/// An ASCII character and its byte are the same number.
pub proof fn lemma_ascii_char_is_its_byte(c: char)
    requires
        (c as u32) < 0x80,
    ensures
        c as u8 == c as u32,
{
}

/// The encoding of one character: an ASCII character is its own byte, and
/// any other character is two bytes or more, each of them 128 or more.
pub proof fn lemma_encode_scalar_bytes(c: char)
    ensures
        (c as u32) < 0x80 ==> encode_scalar(c as u32) == seq![c as u8],
        (c as u32) >= 0x80 ==> encode_scalar(c as u32).len() >= 2,
        (c as u32) >= 0x80 ==> forall|i: int|
            0 <= i < encode_scalar(c as u32).len() ==> #[trigger] encode_scalar(c as u32)[i]
                >= 0x80,
{
    let s = c as u32;
    assert(s < 0x80 ==> (s & 0x7F) as u8 == s as u8) by (bit_vector);
    assert(0xC0u8 | ((s >> 6) & 0x1F) as u8 >= 0x80) by (bit_vector);
    assert(0xE0u8 | ((s >> 12) & 0x0F) as u8 >= 0x80) by (bit_vector);
    assert(0xF0u8 | ((s >> 18) & 0x7) as u8 >= 0x80) by (bit_vector);
    assert(0x80u8 | (s & 0x3F) as u8 >= 0x80) by (bit_vector);
    assert(0x80u8 | ((s >> 6) & 0x3F) as u8 >= 0x80) by (bit_vector);
    assert(0x80u8 | ((s >> 12) & 0x3F) as u8 >= 0x80) by (bit_vector);
}

/// A rule on the bytes of a text is a rule on its characters.
///
/// Let `byte_ok` treat all bytes of 128 and more alike, as `high` says, and
/// let `char_ok` hold of an ASCII character where `byte_ok` holds of its
/// byte, and of any other character where `high` holds. Then every
/// character of a text meets `char_ok` exactly when every byte of its
/// encoding meets `byte_ok`.
pub proof fn lemma_bytes_follow_chars(
    chars: Seq<char>,
    byte_ok: spec_fn(u8) -> bool,
    char_ok: spec_fn(char) -> bool,
    high: bool,
)
    requires
        forall|c: char| (c as u32) < 0x80 ==> (#[trigger] char_ok(c) <==> byte_ok(c as u8)),
        forall|c: char| (c as u32) >= 0x80 ==> (#[trigger] char_ok(c) <==> high),
        forall|b: u8| b >= 0x80 ==> (#[trigger] byte_ok(b) <==> high),
    ensures
        (forall|i: int| 0 <= i < chars.len() ==> char_ok(#[trigger] chars[i])) <==> (forall|j: int|
            0 <= j < encode_utf8(chars).len() ==> byte_ok(#[trigger] encode_utf8(chars)[j])),
    decreases chars.len(),
{
    if chars.len() > 0 {
        let first = chars[0];
        let rest = chars.drop_first();
        let head = encode_scalar(first as u32);
        let tail = encode_utf8(rest);
        let bytes = encode_utf8(chars);
        assert(bytes == head + tail);
        lemma_encode_scalar_bytes(first);
        lemma_bytes_follow_chars(rest, byte_ok, char_ok, high);
        if forall|i: int| 0 <= i < chars.len() ==> char_ok(#[trigger] chars[i]) {
            assert(char_ok(chars[0]));
            assert forall|i: int| 0 <= i < rest.len() implies char_ok(#[trigger] rest[i]) by {
                assert(rest[i] == chars[i + 1]);
            }
            assert forall|j: int| 0 <= j < bytes.len() implies byte_ok(#[trigger] bytes[j]) by {
                if j < head.len() {
                    assert(bytes[j] == head[j]);
                } else {
                    assert(bytes[j] == tail[j - head.len()]);
                }
            }
        }
        if forall|j: int| 0 <= j < bytes.len() ==> byte_ok(#[trigger] bytes[j]) {
            assert(bytes[0] == head[0]);
            assert(byte_ok(bytes[0]));
            assert forall|j: int| 0 <= j < tail.len() implies byte_ok(#[trigger] tail[j]) by {
                assert(tail[j] == bytes[j + head.len()]);
            }
            assert forall|i: int| 0 <= i < chars.len() implies char_ok(#[trigger] chars[i]) by {
                if i > 0 {
                    assert(chars[i] == rest[i - 1]);
                }
            }
        }
    }
}

/// A text is empty exactly when its encoding is.
pub proof fn lemma_encode_utf8_empty(chars: Seq<char>)
    ensures
        chars.len() == 0 <==> encode_utf8(chars).len() == 0,
{
    if chars.len() > 0 {
        lemma_encode_scalar_bytes(chars[0]);
    }
}

} // verus!
