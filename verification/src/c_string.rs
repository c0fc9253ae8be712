//! The C strings that OSVR takes: the bytes of a Rust string followed by one
//! NUL byte, which is only possible when the string holds no NUL of its own.
use vstd::prelude::*;
use vstd::string::StringSliceAdditionalSpecFns;
use vstd::utf8::{
    encode_scalar, encode_utf8, has_width_1_encoding, has_width_2_encoding, has_width_3_encoding,
    leading_byte_width_1, leading_byte_width_2, leading_byte_width_3, leading_byte_width_4,
    last_continuation_byte, second_last_continuation_byte, third_last_continuation_byte,
};

verus! {

/// Whether a C string can be made of these bytes: none of them is NUL.
pub open spec fn nul_free(bytes: Seq<u8>) -> bool {
    forall|i: int| 0 <= i < bytes.len() ==> bytes[i] != 0u8
}

/// A character's UTF-8 encoding holds a NUL byte only when the character is
/// NUL itself: every other byte of a multi-byte encoding has its top bit set.
proof fn scalar_encoding_nul_free(c: char)
    ensures
        nul_free(encode_scalar(c as u32)) <==> c != '\0',
{
    let v = c as u32;
    if has_width_1_encoding(v) {
        let b = leading_byte_width_1(v);
        assert(b == 0u8 <==> v == 0u32) by (bit_vector)
            requires
                v <= 0x7Fu32,
                b == (v & 0x7Fu32) as u8,
        ;
        assert(encode_scalar(v)[0] == b);
    } else if has_width_2_encoding(v) {
        let b1 = leading_byte_width_2(v);
        let b2 = last_continuation_byte(v);
        assert(b1 != 0u8 && b2 != 0u8) by (bit_vector)
            requires
                b1 == 0xC0u8 | ((v >> 6u32) & 0x1Fu32) as u8,
                b2 == 0x80u8 | (v & 0x3Fu32) as u8,
        ;
        assert(encode_scalar(v) == seq![b1, b2]);
    } else if has_width_3_encoding(v) {
        let b1 = leading_byte_width_3(v);
        let b2 = second_last_continuation_byte(v);
        let b3 = last_continuation_byte(v);
        assert(b1 != 0u8 && b2 != 0u8 && b3 != 0u8) by (bit_vector)
            requires
                b1 == 0xE0u8 | ((v >> 12u32) & 0x0Fu32) as u8,
                b2 == 0x80u8 | ((v >> 6u32) & 0x3Fu32) as u8,
                b3 == 0x80u8 | (v & 0x3Fu32) as u8,
        ;
        assert(encode_scalar(v) == seq![b1, b2, b3]);
    } else {
        let b1 = leading_byte_width_4(v);
        let b2 = third_last_continuation_byte(v);
        let b3 = second_last_continuation_byte(v);
        let b4 = last_continuation_byte(v);
        assert(b1 != 0u8 && b2 != 0u8 && b3 != 0u8 && b4 != 0u8) by (bit_vector)
            requires
                b1 == 0xF0u8 | ((v >> 18u32) & 0x7u32) as u8,
                b2 == 0x80u8 | ((v >> 12u32) & 0x3Fu32) as u8,
                b3 == 0x80u8 | ((v >> 6u32) & 0x3Fu32) as u8,
                b4 == 0x80u8 | (v & 0x3Fu32) as u8,
        ;
        assert(encode_scalar(v) == seq![b1, b2, b3, b4]);
    }
}

/// The UTF-8 encoding of a string holds a NUL byte exactly when the string
/// holds the NUL character.
pub proof fn utf8_nul_free(chars: Seq<char>)
    ensures
        nul_free(encode_utf8(chars)) <==> !chars.contains('\0'),
    decreases chars.len(),
{
    if chars.len() > 0 {
        let head = encode_scalar(chars[0] as u32);
        let tail = encode_utf8(chars.drop_first());
        scalar_encoding_nul_free(chars[0]);
        utf8_nul_free(chars.drop_first());
        assert(encode_utf8(chars) == head + tail);
        if nul_free(head) && nul_free(tail) {
            assert forall|i: int| 0 <= i < (head + tail).len() implies (head + tail)[i] != 0u8 by {
                if i >= head.len() {
                    assert((head + tail)[i] == tail[i - head.len()]);
                }
            }
        } else if !nul_free(head) {
            let i = choose|i: int| 0 <= i < head.len() && head[i] == 0u8;
            assert((head + tail)[i] == 0u8);
        } else {
            let i = choose|i: int| 0 <= i < tail.len() && tail[i] == 0u8;
            assert((head + tail)[i + head.len()] == 0u8);
        }
        if chars.contains('\0') {
            let k = choose|k: int| 0 <= k < chars.len() && chars[k] == '\0';
            if k > 0 {
                assert(chars.drop_first()[k - 1] == '\0');
            }
        }
        if chars.drop_first().contains('\0') {
            let k = choose|k: int| 0 <= k < chars.drop_first().len() && chars.drop_first()[k] == '\0';
            assert(chars[k + 1] == '\0');
        }
    } else {
        assert(encode_utf8(chars) == Seq::<u8>::empty());
    }
}

/// The bytes of `s` in UTF-8 followed by a terminating NUL, or `None` where
/// `s` holds a NUL character (the only character whose UTF-8 encoding has a
/// NUL byte) and so cannot be passed to C.
pub fn nul_terminated(s: &str) -> (r: Option<Vec<u8>>)
    ensures
        r is Some <==> nul_free(s.spec_bytes()),
        r is Some <==> !s@.contains('\0'),
        r matches Some(v) ==> v@ == s.spec_bytes().push(0u8),
        r matches Some(v) ==> {
            &&& v@.len() >= 1
            &&& v@.last() == 0u8
            &&& nul_free(v@.drop_last())
        },
{
    proof {
        utf8_nul_free(s@);
        assert(s.spec_bytes() == encode_utf8(s@));
    }
    let bytes = s.as_bytes();
    let n = bytes.len();
    let mut out: Vec<u8> = Vec::new();
    let mut i: usize = 0;
    while i < n
        invariant
            n == bytes@.len(),
            bytes@ == s.spec_bytes(),
            nul_free(s.spec_bytes()) <==> !s@.contains('\0'),
            i <= n,
            out@ == bytes@.take(i as int),
            nul_free(out@),
        decreases n - i,
    {
        let b = bytes[i];
        if b == 0 {
            assert(s.spec_bytes()[i as int] == 0u8);
            return None;
        }
        out.push(b);
        i += 1;
        assert(out@ == bytes@.take(i as int));
    }
    assert(bytes@.take(n as int) == bytes@);
    out.push(0u8);
    assert(out@.drop_last() == bytes@);
    Some(out)
}

} // verus!
