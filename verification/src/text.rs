//! Fixed-capacity reply text, held in a `heapless::String<64>` as on the device.

use vstd::prelude::*;
use vstd::string::*;

verus! {

#[verifier::external_type_specification]
#[verifier::external_body]
pub struct ExHeaplessString<const N: usize>(heapless::String<N>);

/// The bytes that a 64-byte `heapless::String` holds.
pub uninterp spec fn text_bytes(s: heapless::String<64>) -> Seq<u8>;

/// `heapless::String::<64>::new`: an empty string.
#[verifier::external_body]
pub(crate) fn text_new() -> (s: heapless::String<64>)
    ensures
        text_bytes(s) == Seq::<u8>::empty(),
{
    heapless::String::new()
}

/// `heapless::String::push_str`: appends the whole of `piece` when it fits in
/// the 64-byte capacity and returns `Ok`; otherwise leaves the string as it was
/// and returns `Err`. A string never holds more than its capacity.
#[verifier::external_body]
pub(crate) fn text_push_str(s: &mut heapless::String<64>, piece: &str) -> (r: Result<(), ()>)
    ensures
        text_bytes(*old(s)).len() <= 64,
        text_bytes(*old(s)).len() + piece.spec_bytes().len() <= 64 ==> r is Ok && text_bytes(
            *final(s),
        ) == text_bytes(*old(s)) + piece.spec_bytes(),
        text_bytes(*old(s)).len() + piece.spec_bytes().len() > 64 ==> r is Err && text_bytes(
            *final(s),
        ) == text_bytes(*old(s)),
{
    s.push_str(piece)
}

/// `heapless::String::push` of the ASCII character `b`: appends the one byte
/// when the string is not full and returns `Ok`; otherwise leaves the string as
/// it was and returns `Err`.
#[verifier::external_body]
pub(crate) fn text_push_ascii(s: &mut heapless::String<64>, b: u8) -> (r: Result<(), ()>)
    requires
        b < 128,
    ensures
        text_bytes(*old(s)).len() <= 64,
        text_bytes(*old(s)).len() < 64 ==> r is Ok && text_bytes(*final(s)) == text_bytes(
            *old(s),
        ).push(b),
        text_bytes(*old(s)).len() == 64 ==> r is Err && text_bytes(*final(s)) == text_bytes(
            *old(s),
        ),
{
    s.push(b as char)
}

/// `heapless::String::as_str`: the string's contents as a `str`.
#[verifier::external_body]
pub(crate) fn text_as_str(s: &heapless::String<64>) -> (r: &str)
    ensures
        r.spec_bytes() == text_bytes(*s),
{
    s.as_str()
}

/// The bytes of a text literal.
pub open spec fn lit(s: &str) -> Seq<u8> {
    s.spec_bytes()
}

/// The ASCII upper-case hexadecimal digit of `n < 16`.
pub open spec fn hex_digit(n: u8) -> u8 {
    if n < 10 {
        (48 + n) as u8
    } else {
        (55 + n) as u8
    }
}

/// `v` as two upper-case hexadecimal digits, as `{:02X}` prints it.
pub open spec fn hex_pair(v: u8) -> Seq<u8> {
    seq![hex_digit(v / 16), hex_digit(v % 16)]
}

fn hex_digit_exec(n: u8) -> (d: u8)
    requires
        n < 16,
    ensures
        d == hex_digit(n),
        d < 128,
{
    if n < 10 {
        48 + n
    } else {
        55 + n
    }
}

/// Appends a literal piece that is known to fit.
pub(crate) fn push_lit(s: &mut heapless::String<64>, lit: &str)
    requires
        text_bytes(*old(s)).len() + lit.spec_bytes().len() <= 64,
    ensures
        text_bytes(*final(s)) == text_bytes(*old(s)) + lit.spec_bytes(),
{
    let _ = text_push_str(s, lit);
}

/// Appends `v` as two upper-case hexadecimal digits, known to fit.
pub(crate) fn push_hex(s: &mut heapless::String<64>, v: u8)
    requires
        text_bytes(*old(s)).len() + 2 <= 64,
    ensures
        text_bytes(*final(s)) == text_bytes(*old(s)) + hex_pair(v),
{
    let hi = hex_digit_exec(v / 16);
    let lo = hex_digit_exec(v % 16);
    let _ = text_push_ascii(s, hi);
    let _ = text_push_ascii(s, lo);
    assert(text_bytes(*s) =~= text_bytes(*old(s)) + hex_pair(v));
}

/// The byte length of an ASCII literal is its number of characters.
pub proof fn lemma_ascii_len(s: &str)
    requires
        is_ascii(s),
    ensures
        s.spec_bytes().len() == s@.len(),
{
    broadcast use is_ascii_spec_bytes;

}

} // verus!
