//! The native encodings of booleans and strings: `int` flags, and NUL-terminated
//! byte buffers holding UTF-8.
use vstd::prelude::*;
use vstd::utf8::{
    decode_utf8, encode_scalar, encode_utf8, encode_utf8_decode_utf8, encode_utf8_valid_utf8,
    valid_utf8,
};

verus! {

/// The native boolean flag type: an `int` where zero is false.
pub type GBoolean = i32;

/// The native "false" flag value.
pub const GFALSE: GBoolean = 0;

/// The native "true" flag value.
pub const GTRUE: GBoolean = 1;

/// The flag that a host boolean encodes to.
pub open spec fn flag_of(b: bool) -> GBoolean {
    if b { GTRUE } else { GFALSE }
}

/// The host boolean that a native flag decodes to: any nonzero value is true.
pub open spec fn bool_of(v: GBoolean) -> bool {
    v != GFALSE
}

/// Encodes a host boolean as a native flag.
pub fn bool_to_glib(b: bool) -> (r: GBoolean)
    ensures
        r == flag_of(b),
{
    if b { GTRUE } else { GFALSE }
}

/// Decodes a native flag into a host boolean.
pub fn bool_from_glib(v: GBoolean) -> (r: bool)
    ensures
        r == bool_of(v),
{
    v != GFALSE
}

/// Decoding an encoded boolean gives back the same boolean.
pub proof fn lemma_flag_round_trip(b: bool)
    ensures
        bool_of(flag_of(b)) == b,
{
}

/// The length of the C string at the start of `b`: the bytes before the first NUL,
/// or all of them when there is none.
pub open spec fn c_len(b: Seq<u8>) -> nat
    decreases b.len(),
{
    if b.len() == 0 || b[0] == 0 {
        0
    } else {
        1 + c_len(b.drop_first())
    }
}

/// What a C reader sees of the buffer `b`: the bytes before the first NUL.
pub open spec fn c_prefix(b: Seq<u8>) -> Seq<u8> {
    b.take(c_len(b) as int)
}

/// The NUL-terminated buffer that holds the text `s`: its UTF-8 bytes, then a NUL.
pub open spec fn c_buffer_of(s: Seq<char>) -> Seq<u8> {
    encode_utf8(s).push(0)
}

proof fn lemma_c_len_step(b: Seq<u8>, i: int)
    requires
        0 <= i < b.len(),
        b[i] != 0,
    ensures
        c_len(b.skip(i)) == 1 + c_len(b.skip(i + 1)),
{
    assert(b.skip(i).drop_first() =~= b.skip(i + 1));
}

/// The bytes of a NUL-terminated buffer up to, not including, its first NUL.
pub fn c_prefix_of(buf: &[u8]) -> (r: Vec<u8>)
    ensures
        r@ == c_prefix(buf@),
{
    let mut r: Vec<u8> = Vec::new();
    let mut i: usize = 0;
    proof {
        assert(buf@.skip(0) =~= buf@);
    }
    while i < buf.len() && buf[i] != 0
        invariant
            0 <= i <= buf@.len(),
            r@ =~= buf@.take(i as int),
            c_len(buf@) == i + c_len(buf@.skip(i as int)),
        decreases buf@.len() - i,
    {
        proof {
            lemma_c_len_step(buf@, i as int);
        }
        r.push(buf[i]);
        i = i + 1;
    }
    r
}

/// Copies the text `s` into a fresh NUL-terminated buffer. Text that holds a NUL
/// is copied whole; a C reader stops at its first NUL.
pub fn to_c_buffer(s: &str) -> (r: Vec<u8>)
    ensures
        r@ == c_buffer_of(s@),
{
    let bytes = s.as_bytes();
    let mut r = vstd::slice::slice_to_vec(bytes);
    r.push(0);
    r
}

/// Relies on std::str::from_utf8: it succeeds exactly on valid UTF-8, and then
/// holds the text that those bytes encode.
#[verifier::external_body]
fn utf8_to_string(b: &[u8]) -> (r: Option<String>)
    ensures
        r is Some <==> valid_utf8(b@),
        r is Some ==> r->Some_0@ == decode_utf8(b@),
{
    match std::str::from_utf8(b) {
        Ok(s) => Some(s.to_string()),
        Err(_) => None,
    }
}

/// Reads the text of a NUL-terminated buffer: the bytes before its first NUL,
/// decoded as UTF-8. `None` when those bytes are not valid UTF-8.
pub fn text_from_c_buffer(buf: &[u8]) -> (r: Option<String>)
    ensures
        r is Some <==> valid_utf8(c_prefix(buf@)),
        r is Some ==> r->Some_0@ == decode_utf8(c_prefix(buf@)),
{
    let bytes = c_prefix_of(buf);
    utf8_to_string(bytes.as_slice())
}

proof fn lemma_scalar_bytes_nonzero(c: u32)
    requires
        c != 0,
    ensures
        forall|i: int| 0 <= i < encode_scalar(c).len() ==> encode_scalar(c)[i] != 0,
{
    assert(c != 0 && c <= 0x7f ==> (c & 0x7f) as u8 != 0) by (bit_vector);
    assert((0xc0 | ((c >> 6) & 0x1f) as u8) != 0) by (bit_vector);
    assert((0xe0 | ((c >> 12) & 0x0f) as u8) != 0) by (bit_vector);
    assert((0xf0 | ((c >> 18) & 0x7) as u8) != 0) by (bit_vector);
    assert((0x80 | (c & 0x3f) as u8) != 0) by (bit_vector);
    assert((0x80 | ((c >> 6) & 0x3f) as u8) != 0) by (bit_vector);
    assert((0x80 | ((c >> 12) & 0x3f) as u8) != 0) by (bit_vector);
}

proof fn lemma_encoding_has_no_nul(s: Seq<char>)
    requires
        forall|i: int| 0 <= i < s.len() ==> s[i] as u32 != 0,
    ensures
        forall|i: int| 0 <= i < encode_utf8(s).len() ==> encode_utf8(s)[i] != 0,
    decreases s.len(),
{
    if s.len() > 0 {
        lemma_scalar_bytes_nonzero(s[0] as u32);
        let rest = s.drop_first();
        assert forall|i: int| 0 <= i < rest.len() implies rest[i] as u32 != 0 by {
            assert(rest[i] == s[i + 1]);
        }
        lemma_encoding_has_no_nul(rest);
        let e0 = encode_scalar(s[0] as u32);
        let er = encode_utf8(rest);
        assert(encode_utf8(s) == e0 + er);
        assert forall|i: int| 0 <= i < encode_utf8(s).len() implies encode_utf8(s)[i] != 0 by {
            if i < e0.len() {
                assert(encode_utf8(s)[i] == e0[i]);
            } else {
                assert(encode_utf8(s)[i] == er[i - e0.len()]);
            }
        }
    }
}

proof fn lemma_c_len_at_first_nul(b: Seq<u8>, n: int)
    requires
        0 <= n < b.len(),
        b[n] == 0,
        forall|j: int| 0 <= j < n ==> b[j] != 0,
    ensures
        c_len(b) == n,
    decreases n,
{
    if n > 0 {
        lemma_c_len_at_first_nul(b.drop_first(), n - 1);
    }
}

/// The buffer made for a text without NUL characters reads back as that text.
pub proof fn lemma_c_buffer_round_trip(s: Seq<char>)
    requires
        !s.contains('\0'),
    ensures
        c_prefix(c_buffer_of(s)) == encode_utf8(s),
        valid_utf8(c_prefix(c_buffer_of(s))),
        decode_utf8(c_prefix(c_buffer_of(s))) == s,
{
    assert forall|i: int| 0 <= i < s.len() implies s[i] as u32 != 0 by {
        if s[i] as u32 == 0 {
            vstd::utf8::char_u32_cast(s[i], 0);
            assert(s[i] == '\0');
        }
    }
    lemma_encoding_has_no_nul(s);
    let b = c_buffer_of(s);
    lemma_c_len_at_first_nul(b, encode_utf8(s).len() as int);
    assert(c_prefix(b) =~= encode_utf8(s));
    encode_utf8_valid_utf8(s);
    encode_utf8_decode_utf8(s);
}

} // verus!
