//! Prefix tests and slicing on command-line tokens, proved against their
//! character view.

use vstd::prelude::*;
use vstd::utf8::*;

verus! {

broadcast use vstd::utf8::encode_utf8_valid_utf8, vstd::utf8::encode_utf8_decode_utf8;

/// A token is a switch `-<letter>` when it starts with a dash and the letter.
pub open spec fn is_switch(token: Seq<char>, letter: char) -> bool {
    token.len() >= 2 && token[0] == '-' && token[1] == letter
}

/// What follows the two characters of a switch.
pub open spec fn inline_value(token: Seq<char>) -> Seq<char> {
    token.subrange(2, token.len() as int)
}

proof fn lemma_leading_bytes_high(x: u8)
    ensures
        0xC0u8 <= (0xC0u8 | x),
        0xE0u8 <= (0xE0u8 | x),
        0xF0u8 <= (0xF0u8 | x),
{
    assert(0xC0u8 <= (0xC0u8 | x)) by (bit_vector);
    assert(0xE0u8 <= (0xE0u8 | x)) by (bit_vector);
    assert(0xF0u8 <= (0xF0u8 | x)) by (bit_vector);
}

/// The encoding of a character starts with a byte below 0x80 exactly when the
/// character is ASCII, and that byte is then the whole encoding.
proof fn lemma_first_byte(c: char)
    ensures
        encode_scalar(c as u32).len() >= 1,
        encode_scalar(c as u32)[0] < 0x80 <==> (c as u32) < 0x80,
        (c as u32) < 0x80 ==> encode_scalar(c as u32) == seq![(c as u32) as u8],
{
    let v = c as u32;
    if has_width_1_encoding(v) {
        assert((v & 0x7F) == v) by (bit_vector)
            requires
                v <= 0x7F,
        ;
    } else if has_width_2_encoding(v) {
        lemma_leading_bytes_high(((v >> 6) & 0x1F) as u8);
    } else if has_width_3_encoding(v) {
        lemma_leading_bytes_high(((v >> 12) & 0x0F) as u8);
    } else {
        lemma_leading_bytes_high(((v >> 18) & 0x7) as u8);
    }
}

proof fn lemma_same_code_same_char(a: char, b: char)
    requires
        a as u32 == b as u32,
    ensures
        a == b,
{
    vstd::utf8::char_u32_cast(a, a as u32);
    vstd::utf8::char_u32_cast(b, b as u32);
}

/// Two leading ASCII characters show in the first two bytes of the encoding,
/// and the encoding of the rest follows them.
proof fn lemma_ascii_pair(s: Seq<char>, a: char, b: char)
    requires
        (a as u32) < 0x80,
        (b as u32) < 0x80,
    ensures
        (encode_utf8(s).len() >= 2 && encode_utf8(s)[0] == (a as u32) as u8 && encode_utf8(s)[1]
            == (b as u32) as u8) <==> (s.len() >= 2 && s[0] == a && s[1] == b),
        (s.len() >= 2 && s[0] == a && s[1] == b) ==> encode_utf8(s) == seq![
            (a as u32) as u8,
            (b as u32) as u8,
        ] + encode_utf8(s.subrange(2, s.len() as int)),
{
    let e = encode_utf8(s);
    if s.len() == 0 {
    } else {
        let r = s.drop_first();
        lemma_first_byte(s[0]);
        assert(e == encode_scalar(s[0] as u32) + encode_utf8(r));
        if e.len() >= 2 && e[0] == (a as u32) as u8 {
            assert((s[0] as u32) < 0x80);
            lemma_same_code_same_char(s[0], a);
        }
        if s.len() >= 1 && s[0] == a {
            assert(e == seq![(a as u32) as u8] + encode_utf8(r));
            if r.len() == 0 {
                assert(e.len() == 1);
            } else {
                let q = r.drop_first();
                lemma_first_byte(r[0]);
                assert(encode_utf8(r) == encode_scalar(r[0] as u32) + encode_utf8(q));
                assert(e[1] == encode_scalar(r[0] as u32)[0]);
                if e[1] == (b as u32) as u8 {
                    lemma_same_code_same_char(r[0], b);
                }
                if r[0] == b {
                    assert(q =~= s.subrange(2, s.len() as int));
                    assert(e =~= seq![(a as u32) as u8, (b as u32) as u8] + encode_utf8(q));
                }
            }
        }
    }
}

/// Tells whether `token` is the switch `-<letter>`, by its first two bytes.
pub fn is_switch_token(token: &String, letter: char) -> (r: bool)
    requires
        (letter as u32) < 0x80,
    ensures
        r == is_switch(token@, letter),
{
    let bytes = token.as_str().as_bytes();
    proof {
        lemma_ascii_pair(token@, '-', letter);
    }
    bytes.len() >= 2 && bytes[0] == 45u8 && bytes[1] as u32 == letter as u32
}

/// The characters of a switch token after its dash and its ASCII letter.
pub fn inline_value_of(token: &String) -> (r: String)
    requires
        token@.len() >= 2,
        token@[0] == '-',
        (token@[1] as u32) < 0x80,
    ensures
        r@ == inline_value(token@),
{
    let s = token.as_str();
    let ghost rest = inline_value(token@);
    proof {
        lemma_ascii_pair(token@, '-', token@[1]);
        let e = encode_utf8(token@);
        assert(e.subrange(1, e.len() as int) =~= seq![(token@[1] as u32) as u8] + encode_utf8(
            rest,
        ));
        assert(e.subrange(2, e.len() as int) =~= encode_utf8(rest));
        let e1 = e.subrange(1, e.len() as int);
        let e2 = e.subrange(2, e.len() as int);
        assert(pop_first_scalar(e) == e1);
        assert(valid_utf8(e1));
        assert(e2 =~= e1.subrange(1, e1.len() as int));
        assert(pop_first_scalar(e1) == e2);
        assert(valid_utf8(e2));
        assert(is_char_boundary(e2, 0));
        assert(is_char_boundary(e1, 1));
        assert(is_char_boundary(e, 2));
    }
    let (_head, tail) = s.split_at(2);
    proof {
        assert(encode_utf8(tail@) == encode_utf8(rest));
        assert(decode_utf8(encode_utf8(tail@)) == tail@);
        assert(decode_utf8(encode_utf8(rest)) == rest);
    }
    tail.to_owned()
}

} // verus!
