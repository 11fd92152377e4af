//! Owned strings, borrowed strings and slices of them.

use vstd::prelude::*;
use vstd::string::{StrSliceExecFns, StringExecFns, StringSliceAdditionalSpecFns};
use vstd::utf8::{
    char_is_scalar, encode_scalar, encode_utf8, encode_utf8_decode_utf8, encode_utf8_valid_utf8,
    is_char_boundary_iff_not_is_continuation_byte,
};

verus! {

/// The byte that separates words.
pub const SPACE: u8 = 32;

/// How many bytes come before the first space of `bytes`: all of them when
/// there is no space.
pub open spec fn word_len(bytes: Seq<u8>) -> int
    decreases bytes.len(),
{
    if bytes.len() == 0 || bytes[0] == SPACE {
        0
    } else {
        1 + word_len(bytes.drop_first())
    }
}

/// `word_len` stops at the first space and not before.
pub proof fn lemma_word_len(bytes: Seq<u8>)
    ensures
        0 <= word_len(bytes) <= bytes.len(),
        forall|j: int| 0 <= j < word_len(bytes) ==> bytes[j] != SPACE,
        word_len(bytes) < bytes.len() ==> bytes[word_len(bytes)] == SPACE,
    decreases bytes.len(),
{
    if bytes.len() != 0 && bytes[0] != SPACE {
        let rest = bytes.drop_first();
        lemma_word_len(rest);
        assert forall|j: int| 0 <= j < word_len(bytes) implies bytes[j] != SPACE by {
            if j > 0 {
                assert(bytes[j] == rest[j - 1]);
            }
        }
    }
}

/// How many characters come before the first space of `chars`: all of them
/// when there is no space.
pub open spec fn first_space(chars: Seq<char>) -> int
    decreases chars.len(),
{
    if chars.len() == 0 || chars[0] == ' ' {
        0
    } else {
        1 + first_space(chars.drop_first())
    }
}

proof fn lemma_one_byte_scalar(scalar: u32)
    by (bit_vector)
    requires
        scalar <= 0x7F,
    ensures
        ((scalar & 0x7F) as u8 == 32u8) <==> scalar == 32u32,
{
}

proof fn lemma_longer_scalar(scalar: u32)
    by (bit_vector)
    ensures
        0xC0u8 | ((scalar >> 6) & 0x1F) as u8 != 32u8,
        0xE0u8 | ((scalar >> 12) & 0x0F) as u8 != 32u8,
        0xF0u8 | ((scalar >> 18) & 0x7) as u8 != 32u8,
        0x80u8 | (scalar & 0x3F) as u8 != 32u8,
        0x80u8 | ((scalar >> 6) & 0x3F) as u8 != 32u8,
        0x80u8 | ((scalar >> 12) & 0x3F) as u8 != 32u8,
{
}

/// A space is encoded as the one byte `SPACE`, and no other character has
/// that byte anywhere in its encoding.
pub proof fn lemma_space_in_encoding(c: char)
    ensures
        c == ' ' ==> encode_scalar(c as u32) == seq![SPACE],
        c != ' ' ==> forall|j: int|
            0 <= j < encode_scalar(c as u32).len() ==> #[trigger] encode_scalar(c as u32)[j]
                != SPACE,
        encode_scalar(c as u32).len() > 0,
{
    let scalar = c as u32;
    char_is_scalar(c);
    lemma_longer_scalar(scalar);
    if scalar <= 0x7F {
        lemma_one_byte_scalar(scalar);
        assert(' ' as u32 == 32u32);
        if c == ' ' {
            assert(encode_scalar(scalar) =~= seq![SPACE]);
        }
    }
}

/// Bytes without a space in front of `tail` move the end of the first word
/// by their number.
pub proof fn lemma_word_len_after(head: Seq<u8>, tail: Seq<u8>)
    requires
        forall|j: int| 0 <= j < head.len() ==> head[j] != SPACE,
    ensures
        word_len(head + tail) == head.len() + word_len(tail),
    decreases head.len(),
{
    if head.len() == 0 {
        assert(head + tail =~= tail);
    } else {
        assert((head + tail)[0] == head[0]);
        assert((head + tail).drop_first() =~= head.drop_first() + tail);
        lemma_word_len_after(head.drop_first(), tail);
    }
}

/// The bytes before the first space byte are the encoding of the
/// characters before the first space.
pub proof fn lemma_first_word_chars(chars: Seq<char>)
    ensures
        0 <= first_space(chars) <= chars.len(),
        encode_utf8(chars).take(word_len(encode_utf8(chars))) == encode_utf8(
            chars.take(first_space(chars)),
        ),
    decreases chars.len(),
{
    let bytes = encode_utf8(chars);
    if chars.len() == 0 {
        assert(chars.take(0) =~= chars);
        assert(bytes.take(0) =~= bytes);
    } else {
        let head = encode_scalar(chars[0] as u32);
        let rest = chars.drop_first();
        let tail = encode_utf8(rest);
        lemma_space_in_encoding(chars[0]);
        if chars[0] == ' ' {
            assert(bytes[0] == SPACE);
            assert(chars.take(0).len() == 0);
            assert(bytes.take(0) =~= encode_utf8(chars.take(0)));
        } else {
            lemma_word_len_after(head, tail);
            lemma_first_word_chars(rest);
            lemma_word_len(tail);
            let k = first_space(rest);
            let n = word_len(tail);
            let word = chars.take(1 + k);
            assert(word[0] == chars[0]);
            assert(word.drop_first() =~= rest.take(k));
            assert(encode_utf8(word) == head + encode_utf8(rest.take(k)));
            assert(bytes.take(head.len() + n) =~= head + tail.take(n));
        }
    }
}

/// The first word of `s`: everything before its first space, or the whole
/// of `s` when it holds no space.
pub fn first_word(s: &str) -> (word: &str)
    ensures
        word@ == s@.take(first_space(s@)),
        word.spec_bytes() == s.spec_bytes().take(word_len(s.spec_bytes())),
{
    proof {
        lemma_first_word_chars(s@);
        encode_utf8_decode_utf8(s@.take(first_space(s@)));
    }
    let bytes = s.as_bytes();
    let mut i: usize = 0;
    proof {
        assert(bytes@.skip(0) =~= bytes@);
    }
    while i < bytes.len()
        invariant
            i <= bytes.len(),
            bytes@ == s.spec_bytes(),
            word_len(bytes@) == i + word_len(bytes@.skip(i as int)),
        decreases bytes.len() - i,
    {
        if bytes[i] == SPACE {
            proof {
                encode_utf8_valid_utf8(s@);
                is_char_boundary_iff_not_is_continuation_byte(bytes@, i as int);
                assert(bytes@.skip(i as int)[0] == SPACE);
            }
            let (word, _) = s.split_at(i);
            proof {
                assert(s.spec_bytes().subrange(0, i as int) =~= s.spec_bytes().take(i as int));
                lemma_first_word_chars(s@);
                encode_utf8_decode_utf8(s@.take(first_space(s@)));
                encode_utf8_decode_utf8(word@);
            }
            return word;
        }
        proof {
            assert(bytes@.skip(i as int)[0] == bytes@[i as int]);
            assert(bytes@.skip(i as int).drop_first() =~= bytes@.skip(i + 1));
        }
        i = i + 1;
    }
    proof {
        assert(bytes@.skip(i as int).len() == 0);
        assert(s.spec_bytes().take(i as int) =~= s.spec_bytes());
        encode_utf8_decode_utf8(s@);
    }
    s
}

/// Builds a greeting by growing an owned string in place.
pub fn string_type() -> (s: String)
    ensures
        s@ == "hello"@ + ", world!"@,
{
    let mut s = String::from_str("hello");
    s.append(", world!");
    s
}

/// Moves a string from one owner to the next; the first owner is then gone.
pub fn move_var() {
    let s1 = String::from_str("Hello");
    let _s2 = s1;
}

/// Copies a string together with the text it owns.
pub fn deepcopy() {
    let s1 = String::from_str("Hello");
    let _s2 = s1.clone();
    assert(_s2@ == s1@);
}

/// Hands a string back together with its length in bytes.
pub fn calculate_len(s: String) -> (pair: (String, usize))
    ensures
        pair.0 == s,
        pair.1 == encode_utf8(s@).len() as usize,
{
    let len = s.as_str().len();
    (s, len)
}

/// The length in bytes of a string that is only borrowed.
pub fn reference(s: &String) -> (len: usize)
    ensures
        len == encode_utf8(s@).len() as usize,
{
    s.as_str().len()
}

/// Appends to a string through a mutable borrow.
pub fn mut_reference(s: &mut String)
    ensures
        final(s)@ == old(s)@ + ", world"@,
{
    s.append(", world");
}

/// Cuts `Hello World` into its first word, its second word and the whole.
pub fn slice() -> (parts: (&'static str, &'static str, &'static str))
    ensures
        parts.0@ == "Hello"@,
        parts.1@ == "World"@,
        parts.2@ == "Hello World"@,
{
    let s: &'static str = "Hello World";
    proof {
        reveal_strlit("Hello World");
        reveal_strlit("Hello");
        reveal_strlit("World");
    }
    let h = s.substring_ascii(0, 5);
    let w = s.substring_ascii(6, 11);
    let t = s.substring_ascii(0, 11);
    proof {
        assert(h@ =~= "Hello"@);
        assert(w@ =~= "World"@);
        assert(t@ =~= "Hello World"@);
    }
    (h, w, t)
}

} // verus!
