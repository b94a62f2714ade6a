//! Decoding of fixed native character buffers and of 32-bit payload words.
use crate::integer::{byte_of, char_to_u8};
use crate::result::{is_other, Error, SigarResult};
use vstd::prelude::*;
use vstd::utf8::{decode_utf8, valid_utf8};

verus! {

/// Reason given when a native text field does not hold UTF-8.
pub const INVALID_TEXT: &'static str = "native text is not valid UTF-8";

/// The bytes of a native character buffer, cell for cell.
pub open spec fn bytes_of(chars: Seq<i8>) -> Seq<u8> {
    chars.map_values(|c: i8| byte_of(c))
}

/// `b` with its trailing run of zero bytes removed.
pub open spec fn stripped(b: Seq<u8>) -> Seq<u8>
    decreases b.len(),
{
    if b.len() > 0 && b.last() == 0 {
        stripped(b.drop_last())
    } else {
        b
    }
}

/// `n` is the length of the text that starts `b`: the bytes before the first
/// zero byte, or all of `b` where it holds none.
pub open spec fn text_len(b: Seq<u8>, n: int) -> bool {
    &&& 0 <= n <= b.len()
    &&& forall|j: int| 0 <= j < n ==> b[j] != 0
    &&& (n == b.len() || b[n] == 0)
}

/// The text that starts `b`: its bytes before the first zero byte.
pub open spec fn text_of(b: Seq<u8>) -> Seq<u8> {
    b.subrange(0, choose|n: int| text_len(b, n))
}

/// The text that starts `b` is its first `n` bytes.
pub proof fn lemma_text_of(b: Seq<u8>, n: int)
    requires
        text_len(b, n),
    ensures
        text_of(b) == b.subrange(0, n),
{
    let m = choose|m: int| text_len(b, m);
    if m < n {
        assert(b[m] != 0);
    } else if n < m {
        assert(b[n] != 0);
    }
}

/// The byte of `w` at position `k` (0 the least significant).
pub open spec fn byte_at(w: u32, k: int) -> u8 {
    if k == 0 {
        (w % 0x100) as u8
    } else if k == 1 {
        ((w / 0x100) % 0x100) as u8
    } else if k == 2 {
        ((w / 0x1_0000) % 0x100) as u8
    } else {
        (w / 0x100_0000) as u8
    }
}

/// `w` with its four bytes in reverse order.
pub open spec fn reversed(w: u32) -> u32 {
    (byte_at(w, 0) * 0x100_0000 + byte_at(w, 1) * 0x1_0000 + byte_at(w, 2) * 0x100 + byte_at(w, 3)) as u32
}

/// Copies every cell of a native character buffer into an owned byte
/// sequence, zero cells included.
pub fn chars_to_bytes(chars: &[i8]) -> (r: Vec<u8>)
    ensures
        r@ == bytes_of(chars@),
{
    let mut bytes: Vec<u8> = Vec::with_capacity(chars.len());
    let mut i: usize = 0;
    while i < chars.len()
        invariant
            i <= chars@.len(),
            bytes@ == bytes_of(chars@.subrange(0, i as int)),
        decreases chars@.len() - i,
    {
        bytes.push(char_to_u8(chars[i]));
        i += 1;
        assert(bytes_of(chars@.subrange(0, i as int)) =~= bytes_of(chars@.subrange(0, i - 1))
            + seq![byte_of(chars@[i - 1])]);
    }
    assert(chars@.subrange(0, i as int) =~= chars@);
    bytes
}

/// Strips ending zeros in the bytes.
pub fn strip_bytes(bytes: &[u8]) -> (r: &[u8])
    ensures
        r@ == stripped(bytes@),
{
    let mut len: usize = bytes.len();
    assert(bytes@.subrange(0, len as int) =~= bytes@);
    while len > 0 && bytes[len - 1] == 0
        invariant
            len <= bytes@.len(),
            stripped(bytes@.subrange(0, len as int)) == stripped(bytes@),
        decreases len,
    {
        assert(bytes@.subrange(0, len as int).drop_last() =~= bytes@.subrange(0, len - 1));
        len -= 1;
    }
    &bytes[0..len]
}

/// Stripping a second time removes nothing more.
pub proof fn lemma_strip_idempotent(b: Seq<u8>)
    ensures
        stripped(stripped(b)) == stripped(b),
    decreases b.len(),
{
    if b.len() > 0 && b.last() == 0 {
        lemma_strip_idempotent(b.drop_last());
    }
}

/// Relies on `std::str::from_utf8`: it accepts exactly the UTF-8 byte
/// sequences, and the text it gives holds the characters they encode.
#[verifier::external_body]
fn utf8_text(b: &[u8]) -> (r: Option<String>)
    ensures
        r is Some <==> valid_utf8(b@),
        r matches Some(s) ==> s@ == decode_utf8(b@),
{
    match std::str::from_utf8(b) {
        Ok(s) => Some(s.to_owned()),
        Err(_) => None,
    }
}

/// Reads a zero-terminated native text field: the cells before the first
/// zero cell (all of them where there is none), which must be UTF-8.
pub fn chars_to_string(chars: &[i8]) -> (r: SigarResult<String>)
    ensures
        match r {
            Ok(s) => valid_utf8(text_of(bytes_of(chars@))) && s@ == decode_utf8(
                text_of(bytes_of(chars@)),
            ),
            Err(e) => !valid_utf8(text_of(bytes_of(chars@))) && is_other(e, INVALID_TEXT@),
        },
{
    let bytes = chars_to_bytes(chars);
    let mut n: usize = 0;
    while n < bytes.len() && bytes[n] != 0
        invariant
            n <= bytes@.len(),
            forall|j: int| 0 <= j < n ==> bytes@[j] != 0,
        decreases bytes@.len() - n,
    {
        n += 1;
    }
    proof {
        lemma_text_of(bytes@, n as int);
    }
    let text = &bytes.as_slice()[0..n];
    match utf8_text(text) {
        Some(s) => Ok(s),
        None => Err(Error::from_str(INVALID_TEXT)),
    }
}

/// Reverses the byte order of a 32-bit word.
pub fn u32_reverse(src: u32) -> (r: u32)
    ensures
        r == reversed(src),
{
    let r: u32 = (src & 0xff) << 24 | (src >> 8 & 0xff) << 16 | (src >> 16 & 0xff) << 8 | (src >> 24
        & 0xff);
    assert(r == (src % 0x100) * 0x100_0000 + ((src / 0x100) % 0x100) * 0x1_0000 + ((src / 0x1_0000)
        % 0x100) * 0x100 + src / 0x100_0000) by (bit_vector)
        requires
            r == (src & 0xff) << 24 | (src >> 8 & 0xff) << 16 | (src >> 16 & 0xff) << 8 | (src >> 24
                & 0xff),
    ;
    r
}

} // verus!
