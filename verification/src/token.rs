//! URL-safe tokens: unpadded base64url text of random bytes, as used for
//! OAuth `state` values and PKCE verifiers.

use vstd::prelude::*;
use vstd::utf8::{encode_utf8, is_ascii_chars, is_ascii_chars_encode_utf8};
use crate::session::{pkce_byte, pkce_plain};
use crate::text::{blank, has_ctrl, is_ctrl, is_ws, nonempty_without_control, string_push};

verus! {

/// The base64url letter for a 6-bit value: `A-Z`, `a-z`, `0-9`, `-`, `_`.
pub open spec fn b64url_char(v: int) -> char {
    if v < 26 {
        (65 + v) as char
    } else if v < 52 {
        (97 + v - 26) as char
    } else if v < 62 {
        (48 + v - 52) as char
    } else if v == 62 {
        '-'
    } else {
        '_'
    }
}

/// Byte `i` of `b`, or zero past its end.
pub open spec fn byte_at(b: Seq<u8>, i: int) -> int {
    if 0 <= i < b.len() {
        b[i] as int
    } else {
        0
    }
}

/// The `k`-th 6-bit group of the bytes `b`, read big-endian and padded with
/// zero bits.
pub open spec fn sextet(b: Seq<u8>, k: int) -> int {
    let g = k / 4;
    let x0 = byte_at(b, 3 * g);
    let x1 = byte_at(b, 3 * g + 1);
    let x2 = byte_at(b, 3 * g + 2);
    if k % 4 == 0 {
        x0 / 4
    } else if k % 4 == 1 {
        (x0 % 4) * 16 + x1 / 16
    } else if k % 4 == 2 {
        (x1 % 16) * 4 + x2 / 64
    } else {
        x2 % 64
    }
}

/// The number of letters of unpadded base64 for `n` bytes: `ceil(4n / 3)`.
pub open spec fn b64_len(n: nat) -> nat {
    ((4 * n + 2) / 3) as nat
}

/// Unpadded base64url text of `b` (RFC 4648, section 5, without `=`).
pub open spec fn base64url_spec(b: Seq<u8>) -> Seq<char> {
    Seq::new(b64_len(b.len()), |k: int| b64url_char(sextet(b, k)))
}

fn b64_char(v: u32) -> (c: char)
    requires
        v < 64,
    ensures
        c == b64url_char(v as int),
{
    if v < 26 {
        ((v + 65) as u8) as char
    } else if v < 52 {
        ((v - 26 + 97) as u8) as char
    } else if v < 62 {
        ((v - 52 + 48) as u8) as char
    } else if v == 62 {
        '-'
    } else {
        '_'
    }
}

/// Unpadded base64url text of `bytes`.
pub fn base64_url_no_pad(bytes: &[u8]) -> (r: String)
    ensures
        r@ == base64url_spec(bytes@),
{
    let ghost b = bytes@;
    let mut output = String::new();
    let mut index: usize = 0;
    while bytes.len() - index >= 3
        invariant
            b == bytes@,
            index <= bytes.len(),
            index % 3 == 0,
            output@.len() == index / 3 * 4,
            forall|k: int| 0 <= k < output@.len() ==> #[trigger] output@[k] == b64url_char(sextet(b,
                k)),
        decreases bytes.len() - index,
    {
        let x0 = bytes[index];
        let x1 = bytes[index + 1];
        let x2 = bytes[index + 2];
        let block: u32 = ((x0 as u32) << 16) | ((x1 as u32) << 8) | (x2 as u32);
        let s0 = (block >> 18) & 0x3f;
        let s1 = (block >> 12) & 0x3f;
        let s2 = (block >> 6) & 0x3f;
        let s3 = block & 0x3f;
        assert(s0 == x0 / 4 && s1 == (x0 % 4) * 16 + x1 / 16 && s2 == (x1 % 16) * 4 + x2 / 64 && s3
            == x2 % 64) by (bit_vector)
            requires
                block == ((x0 as u32) << 16) | ((x1 as u32) << 8) | (x2 as u32),
                s0 == (block >> 18) & 0x3f,
                s1 == (block >> 12) & 0x3f,
                s2 == (block >> 6) & 0x3f,
                s3 == block & 0x3f,
        ;
        let ghost base = output@.len() as int;
        proof {
            assert(base / 4 == index / 3);
            assert(base % 4 == 0);
            assert((base + 1) / 4 == index / 3 && (base + 1) % 4 == 1);
            assert((base + 2) / 4 == index / 3 && (base + 2) % 4 == 2);
            assert((base + 3) / 4 == index / 3 && (base + 3) % 4 == 3);
        }
        string_push(&mut output, b64_char(s0));
        string_push(&mut output, b64_char(s1));
        string_push(&mut output, b64_char(s2));
        string_push(&mut output, b64_char(s3));
        assert(output@[base] == b64url_char(sextet(b, base)));
        assert(output@[base + 1] == b64url_char(sextet(b, base + 1)));
        assert(output@[base + 2] == b64url_char(sextet(b, base + 2)));
        assert(output@[base + 3] == b64url_char(sextet(b, base + 3)));
        index = index + 3;
    }
    let rest = bytes.len() - index;
    let ghost base = output@.len() as int;
    proof {
        assert(base / 4 == index / 3);
        assert((base + 1) / 4 == index / 3 && (base + 1) % 4 == 1);
        assert((base + 2) / 4 == index / 3 && (base + 2) % 4 == 2);
    }
    if rest == 1 {
        let x0 = bytes[index];
        let block: u32 = (x0 as u32) << 16;
        let s0 = (block >> 18) & 0x3f;
        let s1 = (block >> 12) & 0x3f;
        assert(s0 == x0 / 4 && s1 == (x0 % 4) * 16) by (bit_vector)
            requires
                block == (x0 as u32) << 16,
                s0 == (block >> 18) & 0x3f,
                s1 == (block >> 12) & 0x3f,
        ;
        string_push(&mut output, b64_char(s0));
        string_push(&mut output, b64_char(s1));
        assert(output@[base] == b64url_char(sextet(b, base)));
        assert(output@[base + 1] == b64url_char(sextet(b, base + 1)));
    } else if rest == 2 {
        let x0 = bytes[index];
        let x1 = bytes[index + 1];
        let block: u32 = ((x0 as u32) << 16) | ((x1 as u32) << 8);
        let s0 = (block >> 18) & 0x3f;
        let s1 = (block >> 12) & 0x3f;
        let s2 = (block >> 6) & 0x3f;
        assert(s0 == x0 / 4 && s1 == (x0 % 4) * 16 + x1 / 16 && s2 == (x1 % 16) * 4) by (bit_vector)
            requires
                block == ((x0 as u32) << 16) | ((x1 as u32) << 8),
                s0 == (block >> 18) & 0x3f,
                s1 == (block >> 12) & 0x3f,
                s2 == (block >> 6) & 0x3f,
        ;
        proof {
            assert((base + 2) / 4 == index / 3);
        }
        string_push(&mut output, b64_char(s0));
        string_push(&mut output, b64_char(s1));
        string_push(&mut output, b64_char(s2));
        assert(output@[base] == b64url_char(sextet(b, base)));
        assert(output@[base + 1] == b64url_char(sextet(b, base + 1)));
        assert(output@[base + 2] == b64url_char(sextet(b, base + 2)));
    }
    assert(output@ =~= base64url_spec(b));
    output
}

// ---------------------------------------------------------------------------
// Laws
// ---------------------------------------------------------------------------

/// A URL-safe letter: `A-Z`, `a-z`, `0-9`, `-` or `_`.
pub open spec fn url_safe(c: char) -> bool {
    ||| ('A' <= c && c <= 'Z')
    ||| ('a' <= c && c <= 'z')
    ||| ('0' <= c && c <= '9')
    ||| c == '-'
    ||| c == '_'
}

/// Every letter of base64url text is URL-safe, and there are `ceil(4n/3)`
/// of them for `n` bytes.
pub proof fn lemma_base64url_url_safe(b: Seq<u8>)
    ensures
        base64url_spec(b).len() == b64_len(b.len()),
        forall|k: int| 0 <= k < base64url_spec(b).len() ==> url_safe(#[trigger] base64url_spec(b)[k]),
{
    assert forall|k: int| 0 <= k < base64url_spec(b).len() implies url_safe(
        #[trigger] base64url_spec(b)[k],
    ) by {
        let v = sextet(b, k);
        assert(0 <= byte_at(b, 3 * (k / 4)) < 256);
        assert(0 <= byte_at(b, 3 * (k / 4) + 1) < 256);
        assert(0 <= byte_at(b, 3 * (k / 4) + 2) < 256);
        assert(0 <= v < 64);
    }
}

/// A token made of enough random bytes is a valid PKCE `plain` verifier:
/// 33 to 96 bytes give 44 to 128 URL-safe letters. `auth begin` draws 48.
pub proof fn lemma_token_is_pkce_plain(b: Seq<u8>)
    requires
        33 <= b.len() <= 96,
    ensures
        pkce_plain(base64url_spec(b)),
{
    let s = base64url_spec(b);
    lemma_base64url_url_safe(b);
    assert(is_ascii_chars(s)) by {
        assert forall|i: int| 0 <= i < s.len() implies '\0' <= #[trigger] s[i] <= '\u{7f}' by {
            assert(url_safe(s[i]));
        }
    }
    is_ascii_chars_encode_utf8(s);
    assert(43 <= s.len() <= 128);
    assert(!blank(s)) by {
        assert(url_safe(s[0]));
        assert(!is_ws(s[0]));
    }
    assert(!has_ctrl(s)) by {
        assert forall|i: int| 0 <= i < s.len() implies !#[trigger] is_ctrl(s[i]) by {
            assert(url_safe(s[i]));
        }
    }
    assert forall|i: int| 0 <= i < encode_utf8(s).len() implies #[trigger] pkce_byte(
        encode_utf8(s)[i],
    ) by {
        assert(url_safe(s[i]));
        assert(s[i] as u8 == encode_utf8(s)[i]);
    }
}

/// A token of at least one byte is usable as an OAuth `state`: it is not
/// blank and has no control character. `auth begin` draws 24 bytes.
pub proof fn lemma_token_is_state_value(b: Seq<u8>)
    requires
        b.len() >= 1,
    ensures
        nonempty_without_control(base64url_spec(b)),
{
    let s = base64url_spec(b);
    lemma_base64url_url_safe(b);
    assert(url_safe(s[0]));
    assert(!is_ws(s[0]));
    assert(!blank(s));
    assert forall|i: int| 0 <= i < s.len() implies !#[trigger] is_ctrl(s[i]) by {
        assert(url_safe(s[i]));
    }
}

} // verus!
