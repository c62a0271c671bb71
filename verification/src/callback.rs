//! Reading a pasted OAuth callback: the query of a URL, form-style percent
//! decoding, and the parameters it carries.

use vstd::prelude::*;
use vstd::string::StringSliceAdditionalSpecFns;
use vstd::utf8::{
    decode_utf8, encode_utf8, encode_utf8_decode_utf8, encode_utf8_valid_utf8, is_ascii_chars,
    is_ascii_chars_encode_utf8, valid_utf8,
};
use crate::text::{
    chars_of, lemma_split_on_nonempty, split_chars, split_on, string_from_chars, str_eq,
};

verus! {

/// Calls `String::from_utf8`. Trusted, as std documents it: the bytes are
/// accepted exactly when they are valid UTF-8, and the string then holds
/// the characters they encode.
#[verifier::external_body]
fn string_from_utf8(bytes: Vec<u8>) -> (r: Option<String>)
    ensures
        r is Some <==> valid_utf8(bytes@),
        r matches Some(s) ==> s@ == decode_utf8(bytes@),
{
    String::from_utf8(bytes).ok()
}

// ---------------------------------------------------------------------------
// Percent decoding
// ---------------------------------------------------------------------------

/// The value of one hexadecimal digit.
pub open spec fn hex_spec(b: u8) -> Option<u8> {
    if 0x30 <= b && b <= 0x39 {
        Some((b - 0x30) as u8)
    } else if 0x61 <= b && b <= 0x66 {
        Some((b - 0x61 + 10) as u8)
    } else if 0x41 <= b && b <= 0x46 {
        Some((b - 0x41 + 10) as u8)
    } else {
        None
    }
}

/// `application/x-www-form-urlencoded` decoding of bytes: `+` is a space,
/// `%HH` is the byte `0xHH`, every other byte stands for itself. `None`
/// when a `%` is not followed by two hexadecimal digits.
pub open spec fn percent_decode_bytes(b: Seq<u8>) -> Option<Seq<u8>>
    decreases b.len(),
{
    if b.len() == 0 {
        Some(Seq::<u8>::empty())
    } else if b[0] == 0x2b {
        match percent_decode_bytes(b.drop_first()) {
            Some(r) => Some(seq![0x20u8] + r),
            None => None,
        }
    } else if b[0] == 0x25 {
        if b.len() < 3 {
            None
        } else {
            match (hex_spec(b[1]), hex_spec(b[2]), percent_decode_bytes(b.skip(3))) {
                (Some(h), Some(l), Some(r)) => Some(seq![(h * 16 + l) as u8] + r),
                _ => None,
            }
        }
    } else {
        match percent_decode_bytes(b.drop_first()) {
            Some(r) => Some(seq![b[0]] + r),
            None => None,
        }
    }
}

/// A decoded form component: the percent-decoded UTF-8 bytes of `s`, which
/// must themselves be valid UTF-8.
pub open spec fn decode_component(s: Seq<char>) -> Option<Seq<char>> {
    match percent_decode_bytes(encode_utf8(s)) {
        Some(b) => if valid_utf8(b) {
            Some(decode_utf8(b))
        } else {
            None
        },
        None => None,
    }
}

/// The value of one ASCII hexadecimal digit, either case.
pub fn hex_value(byte: u8) -> (r: Option<u8>)
    ensures
        r == hex_spec(byte),
        r matches Some(v) ==> v < 16,
{
    if 0x30u8 <= byte && byte <= 0x39u8 {
        Some(byte - 0x30u8)
    } else if 0x61u8 <= byte && byte <= 0x66u8 {
        Some(byte - 0x61u8 + 10)
    } else if 0x41u8 <= byte && byte <= 0x46u8 {
        Some(byte - 0x41u8 + 10)
    } else {
        None
    }
}

/// Decodes one form-encoded component of a callback query.
pub fn percent_decode_form_component(input: &str) -> (r: Result<String, &'static str>)
    ensures
        match r {
            Ok(s) => decode_component(input@) == Some(s@),
            Err(e) => decode_component(input@) is None && e@ == "callback_query_invalid"@,
        },
{
    let bytes = input.as_bytes();
    let ghost b = bytes@;
    let mut output: Vec<u8> = Vec::new();
    let mut index: usize = 0;
    assert(b.skip(0) =~= b);
    while index < bytes.len()
        invariant
            b == bytes@,
            b == input.spec_bytes(),
            0 <= index <= bytes.len(),
            match percent_decode_bytes(b.skip(index as int)) {
                Some(rest) => percent_decode_bytes(b) == Some(output@ + rest),
                None => percent_decode_bytes(b) is None,
            },
        decreases bytes.len() - index,
    {
        let ghost tail = b.skip(index as int);
        let c = bytes[index];
        if c == 0x2bu8 {
            assert(tail.drop_first() =~= b.skip(index + 1));
            output.push(0x20u8);
            index = index + 1;
        } else if c == 0x25u8 {
            if bytes.len() - index <= 2 {
                return Err("callback_query_invalid");
            }
            let high = match hex_value(bytes[index + 1]) {
                Some(h) => h,
                None => {
                    return Err("callback_query_invalid");
                },
            };
            let low = match hex_value(bytes[index + 2]) {
                Some(l) => l,
                None => {
                    return Err("callback_query_invalid");
                },
            };
            assert(tail.skip(3) =~= b.skip(index + 3));
            let v: u8 = (high << 4) | low;
            assert(v == (high * 16 + low) as u8) by (bit_vector)
                requires
                    v == (high << 4) | low,
                    high < 16,
                    low < 16,
            ;
            output.push(v);
            index = index + 3;
        } else {
            assert(tail.drop_first() =~= b.skip(index + 1));
            output.push(c);
            index = index + 1;
        }
        proof {
            if let Some(rest) = percent_decode_bytes(b.skip(index as int)) {
                let prev = output@.drop_last();
                assert(output@ + rest =~= prev + (seq![output@.last()] + rest));
            }
        }
    }
    assert(b.skip(index as int) =~= Seq::<u8>::empty());
    assert(output@ + Seq::<u8>::empty() =~= output@);
    match string_from_utf8(output) {
        Some(s) => Ok(s),
        None => Err("callback_query_invalid"),
    }
}

// ---------------------------------------------------------------------------
// The query of a callback URL
// ---------------------------------------------------------------------------

/// The index of the first `c` in `s`, or `s.len()` when there is none.
pub open spec fn first_index(s: Seq<char>, c: char) -> int
    decreases s.len(),
{
    if s.len() == 0 {
        0
    } else if s[0] == c {
        0
    } else {
        1 + first_index(s.drop_first(), c)
    }
}

proof fn lemma_first_index(s: Seq<char>, c: char, i: int)
    requires
        0 <= i <= s.len(),
        forall|j: int| 0 <= j < i ==> s[j] != c,
        i == s.len() || s[i] == c,
    ensures
        first_index(s, c) == i,
    decreases i,
{
    if i > 0 {
        lemma_first_index(s.drop_first(), c, i - 1);
    }
}

/// The query part of a pasted callback: the fragment (from the first `#`)
/// is dropped, then everything up to and including the first `?`, then one
/// more leading `?` if there is one. Input without `?` is taken as the
/// query itself.
pub open spec fn callback_query_spec(s: Seq<char>) -> Seq<char> {
    let h = first_index(s, '#');
    let without_fragment = s.subrange(0, h);
    let q = first_index(without_fragment, '?');
    let query = if q < without_fragment.len() {
        without_fragment.subrange(q + 1, without_fragment.len() as int)
    } else {
        without_fragment
    };
    if query.len() > 0 && query[0] == '?' {
        query.drop_first()
    } else {
        query
    }
}

fn find_char(v: &Vec<char>, end: usize, c: char) -> (r: usize)
    requires
        end <= v.len(),
    ensures
        r <= end,
        r == first_index(v@.subrange(0, end as int), c),
{
    let mut i: usize = 0;
    while i < end && v[i] != c
        invariant
            0 <= i <= end,
            end <= v.len(),
            forall|j: int| 0 <= j < i ==> v@[j] != c,
        decreases end - i,
    {
        i = i + 1;
    }
    proof {
        lemma_first_index(v@.subrange(0, end as int), c, i as int);
    }
    i
}

/// The query part of a pasted callback URL or query string.
pub fn callback_query(input: &str) -> (r: Vec<char>)
    ensures
        r@ == callback_query_spec(input@),
{
    let v = chars_of(input);
    let h = find_char(&v, v.len(), '#');
    assert(v@.subrange(0, v.len() as int) =~= v@);
    let q = find_char(&v, h, '?');
    let start: usize = if q < h {
        q + 1
    } else {
        0
    };
    let start2: usize = if start < h && v[start] == '?' {
        start + 1
    } else {
        start
    };
    let mut r: Vec<char> = Vec::new();
    let mut i: usize = start2;
    while i < h
        invariant
            start2 <= i <= h,
            h <= v.len(),
            r@ == v@.subrange(start2 as int, i as int),
        decreases h - i,
    {
        r.push(v[i]);
        i = i + 1;
        assert(r@ =~= v@.subrange(start2 as int, i as int));
    }
    proof {
        let wf = input@.subrange(0, h as int);
        assert(v@.subrange(0, h as int) == wf);
        let query = if (q as int) < wf.len() {
            wf.subrange(q + 1, wf.len() as int)
        } else {
            wf
        };
        assert(query =~= v@.subrange(start as int, h as int));
        if query.len() > 0 && query[0] == '?' {
            assert(query.drop_first() =~= v@.subrange(start2 as int, h as int));
        } else {
            assert(query =~= v@.subrange(start2 as int, h as int));
        }
    }
    r
}

// ---------------------------------------------------------------------------
// Callback parameters
// ---------------------------------------------------------------------------

/// One decoded `name=value` pair of a callback query.
pub struct CallbackParameter {
    pub name: String,
    pub value: String,
}

/// The decoded parameters of a callback query, each name once, in the order
/// of the query.
pub struct CallbackParameters {
    pub entries: Vec<CallbackParameter>,
}

impl View for CallbackParameters {
    type V = Seq<(Seq<char>, Seq<char>)>;

    open spec fn view(&self) -> Seq<(Seq<char>, Seq<char>)> {
        Seq::new(
            self.entries@.len(),
            |i: int| (self.entries@[i].name@, self.entries@[i].value@),
        )
    }
}

/// The value given for `name`, if any.
pub open spec fn param_lookup(ps: Seq<(Seq<char>, Seq<char>)>, name: Seq<char>) -> Option<
    Seq<char>,
>
    decreases ps.len(),
{
    if ps.len() == 0 {
        None
    } else if ps.last().0 == name {
        Some(ps.last().1)
    } else {
        param_lookup(ps.drop_last(), name)
    }
}

/// `part.split_once('=')`, or the whole part and an empty value.
pub open spec fn split_pair(part: Seq<char>) -> (Seq<char>, Seq<char>) {
    let k = first_index(part, '=');
    if k < part.len() {
        (part.subrange(0, k), part.subrange(k + 1, part.len() as int))
    } else {
        (part, Seq::<char>::empty())
    }
}

/// The parameters carried by the `&`-separated pieces of a query; empty
/// pieces are skipped. `None` when a name or value does not decode, or when
/// a name comes twice.
pub open spec fn params_from_parts(parts: Seq<Seq<char>>) -> Option<
    Seq<(Seq<char>, Seq<char>)>,
>
    decreases parts.len(),
{
    if parts.len() == 0 {
        Some(Seq::empty())
    } else {
        match params_from_parts(parts.drop_last()) {
            None => None,
            Some(ps) => {
                let part = parts.last();
                if part.len() == 0 {
                    Some(ps)
                } else {
                    let (n, v) = split_pair(part);
                    match (decode_component(n), decode_component(v)) {
                        (Some(name), Some(value)) => if param_lookup(ps, name) is Some {
                            None
                        } else {
                            Some(ps.push((name, value)))
                        },
                        _ => None,
                    }
                }
            },
        }
    }
}

/// The parameters of a pasted callback URL or query string.
pub open spec fn parse_callback_spec(input: Seq<char>) -> Option<Seq<(Seq<char>, Seq<char>)>> {
    params_from_parts(split_on(callback_query_spec(input), '&'))
}

proof fn lemma_params_from_parts_none(parts: Seq<Seq<char>>, k: int)
    requires
        0 <= k <= parts.len(),
        params_from_parts(parts.subrange(0, k)) is None,
    ensures
        params_from_parts(parts) is None,
    decreases parts.len() - k,
{
    if k < parts.len() {
        assert(parts.subrange(0, k + 1).drop_last() =~= parts.subrange(0, k));
        lemma_params_from_parts_none(parts, k + 1);
    } else {
        assert(parts.subrange(0, k) =~= parts);
    }
}

impl CallbackParameters {
    /// The value given for `name`, if any.
    pub fn get(&self, name: &str) -> (r: Option<&String>)
        ensures
            match r {
                Some(v) => param_lookup(self@, name@) == Some(v@),
                None => param_lookup(self@, name@) is None,
            },
    {
        let mut i: usize = self.entries.len();
        assert(self@.subrange(0, i as int) =~= self@);
        while i > 0
            invariant
                i <= self.entries@.len(),
                param_lookup(self@, name@) == param_lookup(self@.subrange(0, i as int), name@),
            decreases i,
        {
            let e = &self.entries[i - 1];
            assert(self@.subrange(0, i as int).last() == (e.name@, e.value@));
            if str_eq(e.name.as_str(), name) {
                return Some(&e.value);
            }
            assert(self@.subrange(0, i as int).drop_last() =~= self@.subrange(0, i - 1));
            i = i - 1;
        }
        None
    }

    /// Whether a value is given for `name`.
    pub fn contains_key(&self, name: &str) -> (r: bool)
        ensures
            r == param_lookup(self@, name@) is Some,
    {
        self.get(name).is_some()
    }
}

fn split_pair_exec(part: &Vec<char>) -> (r: (String, String))
    requires
        part@.len() > 0,
    ensures
        r.0@ == split_pair(part@).0,
        r.1@ == split_pair(part@).1,
{
    let k = find_char(part, part.len(), '=');
    assert(part@.subrange(0, part.len() as int) =~= part@);
    let mut name: Vec<char> = Vec::new();
    let mut i: usize = 0;
    while i < k
        invariant
            0 <= i <= k,
            k <= part.len(),
            name@ == part@.subrange(0, i as int),
        decreases k - i,
    {
        name.push(part[i]);
        i = i + 1;
        assert(name@ =~= part@.subrange(0, i as int));
    }
    let mut value: Vec<char> = Vec::new();
    if k < part.len() {
        let mut j: usize = k + 1;
        while j < part.len()
            invariant
                k + 1 <= j <= part.len(),
                value@ == part@.subrange(k + 1, j as int),
            decreases part.len() - j,
        {
            value.push(part[j]);
            j = j + 1;
            assert(value@ =~= part@.subrange(k + 1, j as int));
        }
    } else {
        assert(name@ =~= part@);
        assert(value@ =~= Seq::<char>::empty());
    }
    (string_from_chars(&name), string_from_chars(&value))
}

/// Parses the parameters of a pasted callback URL or query string.
pub fn parse_callback_parameters(input: &str) -> (r: Result<CallbackParameters, &'static str>)
    ensures
        match r {
            Ok(ps) => parse_callback_spec(input@) == Some(ps@),
            Err(e) => parse_callback_spec(input@) is None && e@ == "callback_query_invalid"@,
        },
{
    let query = callback_query(input);
    let parts = split_chars(&query, '&');
    let ghost sp = split_on(query@, '&');
    let mut out = CallbackParameters { entries: Vec::new() };
    assert(out@ =~= Seq::<(Seq<char>, Seq<char>)>::empty());
    let mut i: usize = 0;
    while i < parts.len()
        invariant
            sp == split_on(callback_query_spec(input@), '&'),
            parts@.len() == sp.len(),
            forall|j: int| 0 <= j < parts@.len() ==> #[trigger] parts@[j]@ == sp[j],
            0 <= i <= parts.len(),
            params_from_parts(sp.subrange(0, i as int)) == Some(out@),
        decreases parts.len() - i,
    {
        assert(sp.subrange(0, i + 1).drop_last() =~= sp.subrange(0, i as int));
        assert(sp.subrange(0, i + 1).last() == parts@[i as int]@);
        let part = &parts[i];
        if part.len() > 0 {
            let (n, v) = split_pair_exec(part);
            let name = match percent_decode_form_component(n.as_str()) {
                Ok(s) => s,
                Err(e) => {
                    proof {
                        lemma_params_from_parts_none(sp, i + 1);
                    }
                    return Err(e);
                },
            };
            let value = match percent_decode_form_component(v.as_str()) {
                Ok(s) => s,
                Err(e) => {
                    proof {
                        lemma_params_from_parts_none(sp, i + 1);
                    }
                    return Err(e);
                },
            };
            if out.contains_key(name.as_str()) {
                proof {
                    lemma_params_from_parts_none(sp, i + 1);
                }
                return Err("callback_query_invalid");
            }
            let ghost before = out@;
            out.entries.push(CallbackParameter { name, value });
            assert(out@ =~= before.push((name@, value@)));
        }
        i = i + 1;
    }
    assert(sp.subrange(0, parts.len() as int) =~= sp);
    Ok(out)
}

} // verus!

verus! {

// ---------------------------------------------------------------------------
// Laws of form decoding
// ---------------------------------------------------------------------------

/// The ASCII hexadecimal digit of `n` (below 16), upper or lower case.
pub open spec fn hex_digit_byte(n: int, upper: bool) -> u8 {
    if n < 10 {
        (0x30 + n) as u8
    } else if upper {
        (0x41 + n - 10) as u8
    } else {
        (0x61 + n - 10) as u8
    }
}

/// Every byte written as `%HH`.
pub open spec fn form_escaped_bytes(b: Seq<u8>, upper: bool) -> Seq<u8> {
    Seq::new(
        3 * b.len(),
        |k: int|
            if k % 3 == 0 {
                0x25u8
            } else if k % 3 == 1 {
                hex_digit_byte((b[k / 3] / 16) as int, upper)
            } else {
                hex_digit_byte((b[k / 3] % 16) as int, upper)
            },
    )
}

/// The form encoding of a string that escapes every UTF-8 byte of it as
/// `%HH`, with the hexadecimal digits in upper or in lower case.
pub open spec fn form_escape(s: Seq<char>, upper: bool) -> Seq<char> {
    let e = form_escaped_bytes(encode_utf8(s), upper);
    Seq::new(e.len(), |k: int| e[k] as char)
}

/// A `%` at `i` that is not followed by two hexadecimal digits.
pub open spec fn bad_escape_at(b: Seq<u8>, i: int) -> bool {
    &&& 0 <= i < b.len()
    &&& b[i] == 0x25
    &&& (i + 2 >= b.len() || hex_spec(b[i + 1]) is None || hex_spec(b[i + 2]) is None)
}

proof fn lemma_unescape_escaped(b: Seq<u8>, upper: bool)
    ensures
        percent_decode_bytes(form_escaped_bytes(b, upper)) == Some(b),
    decreases b.len(),
{
    let e = form_escaped_bytes(b, upper);
    if b.len() == 0 {
        assert(e =~= Seq::<u8>::empty());
    } else {
        let t = b.drop_first();
        assert(e.skip(3) =~= form_escaped_bytes(t, upper));
        lemma_unescape_escaped(t, upper);
        let h = b[0] / 16;
        let l = b[0] % 16;
        assert(e[0] == 0x25u8);
        assert(e[1] == hex_digit_byte(h as int, upper));
        assert(e[2] == hex_digit_byte(l as int, upper));
        assert(hex_spec(e[1]) == Some(h as u8));
        assert(hex_spec(e[2]) == Some(l as u8));
        assert((h * 16 + l) as u8 == b[0]);
        assert(seq![b[0]] + t =~= b);
    }
}

proof fn lemma_decode_fails_iff_bad_escape(b: Seq<u8>)
    ensures
        percent_decode_bytes(b) is None <==> exists|i: int| bad_escape_at(b, i),
    decreases b.len(),
{
    if b.len() == 0 {
        assert(!(exists|i: int| bad_escape_at(b, i)));
    } else if b[0] == 0x25 && (b.len() < 3 || hex_spec(b[1]) is None || hex_spec(b[2]) is None) {
        assert(bad_escape_at(b, 0));
    } else {
        let n: int = if b[0] == 0x25 {
            3
        } else {
            1
        };
        let t = b.skip(n);
        assert(b[0] != 0x25 ==> b.drop_first() =~= t);
        lemma_decode_fails_iff_bad_escape(t);
        assert forall|i: int| #[trigger] bad_escape_at(t, i) implies bad_escape_at(b, i + n) by {}
        assert forall|i: int| #[trigger] bad_escape_at(b, i) implies bad_escape_at(t, i - n) by {
            assert(i >= n);
        }
        if exists|i: int| bad_escape_at(t, i) {
            let i = choose|i: int| bad_escape_at(t, i);
            assert(bad_escape_at(b, i + n));
        }
        if exists|i: int| bad_escape_at(b, i) {
            let i = choose|i: int| bad_escape_at(b, i);
            assert(bad_escape_at(t, i - n));
        }
    }
}

/// Form decoding undoes form encoding: a string written with every UTF-8
/// byte escaped as `%HH` (digits in either case) decodes to itself.
pub proof fn lemma_form_escape_decodes_back(s: Seq<char>, upper: bool)
    ensures
        decode_component(form_escape(s, upper)) == Some(s),
{
    let b = encode_utf8(s);
    let e = form_escaped_bytes(b, upper);
    let x = form_escape(s, upper);
    assert forall|k: int| 0 <= k < e.len() implies #[trigger] e[k] < 0x80 by {}
    assert(is_ascii_chars(x));
    is_ascii_chars_encode_utf8(x);
    assert(encode_utf8(x) =~= e);
    lemma_unescape_escaped(b, upper);
    encode_utf8_valid_utf8(s);
    encode_utf8_decode_utf8(s);
}

/// Form decoding fails exactly when, in the UTF-8 bytes of the input, a
/// `%` is not followed by two hexadecimal digits, or when the decoded bytes
/// are not valid UTF-8.
pub proof fn lemma_form_decoding_fails_iff(x: Seq<char>)
    ensures
        decode_component(x) is None <==> ((exists|i: int| bad_escape_at(encode_utf8(x), i)) || (
        percent_decode_bytes(encode_utf8(x)) matches Some(d) && !valid_utf8(d))),
{
    lemma_decode_fails_iff_bad_escape(encode_utf8(x));
}

} // verus!

verus! {

// ---------------------------------------------------------------------------
// Laws of callback parsing
// ---------------------------------------------------------------------------

/// A character that a callback value carries as it is: ASCII, and none
/// of those that form encoding or the query syntax give a meaning to.
pub open spec fn plain_query_char(c: char) -> bool {
    &&& '\0' <= c <= '\u{7f}'
    &&& c != '%' && c != '+' && c != '&' && c != '=' && c != '#' && c != '?'
}

/// A value made of plain characters only.
pub open spec fn plain_query_value(s: Seq<char>) -> bool {
    forall|i: int| 0 <= i < s.len() ==> plain_query_char(#[trigger] s[i])
}

proof fn lemma_decode_plain_bytes(b: Seq<u8>)
    requires
        forall|i: int| 0 <= i < b.len() ==> #[trigger] b[i] != 0x25 && b[i] != 0x2b,
    ensures
        percent_decode_bytes(b) == Some(b),
    decreases b.len(),
{
    if b.len() > 0 {
        lemma_decode_plain_bytes(b.drop_first());
        assert(seq![b[0]] + b.drop_first() =~= b);
    }
}

/// A plain value decodes to itself.
pub proof fn lemma_plain_value_decodes_to_itself(s: Seq<char>)
    requires
        plain_query_value(s),
    ensures
        decode_component(s) == Some(s),
{
    assert forall|i: int| 0 <= i < s.len() implies '\0' <= #[trigger] s[i] <= '\u{7f}' by {
        assert(plain_query_char(s[i]));
    }
    assert(is_ascii_chars(s));
    is_ascii_chars_encode_utf8(s);
    let b = encode_utf8(s);
    assert forall|i: int| 0 <= i < b.len() implies #[trigger] b[i] != 0x25 && b[i] != 0x2b by {
        assert(s[i] as u8 == b[i]);
        assert(plain_query_char(s[i]));
    }
    lemma_decode_plain_bytes(b);
    encode_utf8_valid_utf8(s);
    encode_utf8_decode_utf8(s);
}

proof fn lemma_split_on_without_sep(p: Seq<char>, b: Seq<char>, sep: char)
    requires
        forall|i: int| 0 <= i < b.len() ==> #[trigger] b[i] != sep,
    ensures
        split_on(p + b, sep) == split_on(p, sep).update(
            split_on(p, sep).len() - 1,
            split_on(p, sep).last() + b,
        ),
    decreases b.len(),
{
    lemma_split_on_nonempty(p, sep);
    let sp = split_on(p, sep);
    if b.len() == 0 {
        assert(p + b =~= p);
        assert(sp.last() + b =~= sp.last());
        assert(sp.update(sp.len() - 1, sp.last() + b) =~= sp);
    } else {
        let b0 = b.drop_last();
        lemma_split_on_without_sep(p, b0, sep);
        assert((p + b).drop_last() =~= p + b0);
        assert((p + b).last() == b.last());
        assert((sp.last() + b0).push(b.last()) =~= sp.last() + b);
        assert(split_on(p + b, sep) =~= sp.update(sp.len() - 1, sp.last() + b));
    }
}

proof fn lemma_split_two(a: Seq<char>, b: Seq<char>, sep: char)
    requires
        forall|i: int| 0 <= i < a.len() ==> #[trigger] a[i] != sep,
        forall|i: int| 0 <= i < b.len() ==> #[trigger] b[i] != sep,
    ensures
        split_on(a + seq![sep] + b, sep) == seq![a, b],
{
    let e = Seq::<char>::empty();
    lemma_split_on_without_sep(e, a, sep);
    assert(e + a =~= a);
    assert(split_on(e, sep).last() + a =~= a);
    assert(split_on(a, sep) =~= seq![a]);
    let with_sep = a + seq![sep];
    assert(with_sep.drop_last() =~= a);
    assert(split_on(with_sep, sep) =~= seq![a, e]);
    lemma_split_on_without_sep(with_sep, b, sep);
    assert(e + b =~= b);
    assert(split_on(with_sep + b, sep) =~= seq![a, b]);
}

proof fn lemma_query_after_base(base: Seq<char>, query: Seq<char>)
    requires
        forall|i: int| 0 <= i < base.len() ==> #[trigger] base[i] != '?' && base[i] != '#',
        forall|i: int| 0 <= i < query.len() ==> #[trigger] query[i] != '#',
        query.len() > 0,
        query[0] != '?',
    ensures
        callback_query_spec(base + seq!['?'] + query) == query,
{
    let url = base + seq!['?'] + query;
    assert forall|j: int| 0 <= j < url.len() implies #[trigger] url[j] != '#' by {
        if j > base.len() {
            assert(url[j] == query[j - base.len() - 1]);
        }
    }
    lemma_first_index(url, '#', url.len() as int);
    assert(url.subrange(0, url.len() as int) =~= url);
    lemma_first_index(url, '?', base.len() as int);
    assert(url.subrange(base.len() as int + 1, url.len() as int) =~= query);
}

proof fn lemma_named_part(name: Seq<char>, value: Seq<char>)
    requires
        plain_query_value(name),
        plain_query_value(value),
    ensures
        split_pair(name + seq!['='] + value) == (name, value),
{
    let part = name + seq!['='] + value;
    assert forall|i: int| 0 <= i < name.len() implies #[trigger] part[i] != '=' by {
        assert(plain_query_char(name[i]));
    }
    lemma_first_index(part, '=', name.len() as int);
    assert(part.subrange(0, name.len() as int) =~= name);
    assert(part.subrange(name.len() as int + 1, part.len() as int) =~= value);
}

proof fn lemma_plain_part_has_no(name: Seq<char>, value: Seq<char>, c: char)
    requires
        plain_query_value(name),
        plain_query_value(value),
        c == '&' || c == '#',
    ensures
        forall|i: int| 0 <= i < (name + seq!['='] + value).len() ==> #[trigger] (name + seq!['=']
            + value)[i] != c,
{
    let part = name + seq!['='] + value;
    assert forall|i: int| 0 <= i < part.len() implies #[trigger] part[i] != c by {
        if i < name.len() {
            assert(plain_query_char(name[i]));
        } else if i > name.len() {
            assert(part[i] == value[i - name.len() - 1]);
            assert(plain_query_char(value[i - name.len() - 1]));
        }
    }
}

/// The parameters of a callback URL of the usual shape: a base without
/// `?` or `#`, then `?code=` and the code, then `&state=` and the state,
/// both plain values.
pub proof fn lemma_callback_url_parameters(base: Seq<char>, code: Seq<char>, state: Seq<char>)
    requires
        forall|i: int| 0 <= i < base.len() ==> #[trigger] base[i] != '?' && base[i] != '#',
        plain_query_value(code),
        plain_query_value(state),
    ensures
        parse_callback_spec(base + "?code="@ + code + "&state="@ + state) == Some(
            seq![("code"@, code), ("state"@, state)],
        ),
{
    reveal_strlit("?code=");
    reveal_strlit("&state=");
    reveal_strlit("code");
    reveal_strlit("state");
    let code_name = "code"@;
    let state_name = "state"@;
    assert(plain_query_value(code_name));
    assert(plain_query_value(state_name));
    let part1 = code_name + seq!['='] + code;
    let part2 = state_name + seq!['='] + state;
    let query = part1 + seq!['&'] + part2;
    assert(base + "?code="@ + code + "&state="@ + state =~= base + seq!['?'] + query);
    lemma_plain_part_has_no(code_name, code, '&');
    lemma_plain_part_has_no(state_name, state, '&');
    lemma_plain_part_has_no(code_name, code, '#');
    lemma_plain_part_has_no(state_name, state, '#');
    assert forall|i: int| 0 <= i < query.len() implies #[trigger] query[i] != '#' by {
        if i < part1.len() {
            assert(query[i] == part1[i]);
        } else if i > part1.len() {
            assert(query[i] == part2[i - part1.len() - 1]);
        }
    }
    assert(query[0] == 'c');
    lemma_query_after_base(base, query);
    lemma_split_two(part1, part2, '&');
    lemma_named_part(code_name, code);
    lemma_named_part(state_name, state);
    lemma_plain_value_decodes_to_itself(code_name);
    lemma_plain_value_decodes_to_itself(state_name);
    lemma_plain_value_decodes_to_itself(code);
    lemma_plain_value_decodes_to_itself(state);
    let parts = seq![part1, part2];
    assert(parts.drop_last() =~= seq![part1]);
    assert(seq![part1].drop_last() =~= Seq::<Seq<char>>::empty());
    let none = Seq::<(Seq<char>, Seq<char>)>::empty();
    let ps1 = none.push((code_name, code));
    assert(params_from_parts(Seq::<Seq<char>>::empty()) == Some(none));
    assert(param_lookup(none, code_name) is None);
    assert(param_lookup(none, state_name) is None);
    assert(part1.len() > 0);
    assert(params_from_parts(seq![part1]) == Some(ps1));
    assert(ps1.drop_last() =~= none);
    assert(ps1.last().0 == code_name);
    assert(code_name != state_name) by {
        assert(code_name[0] != state_name[0]);
    }
    assert(param_lookup(ps1, state_name) is None);
    assert(ps1.push((state_name, state)) =~= seq![(code_name, code), (state_name, state)]);
}

} // verus!
