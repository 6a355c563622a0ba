//! Percent-encoding as Twitter asks for it: letters, digits and `- . _ ~`
//! stay, every other byte of the UTF-8 text becomes `%` and two upper-case
//! hexadecimal digits.
use vstd::prelude::*;
use vstd::string::StringExecFns;
use vstd::string::StringSliceAdditionalSpecFns;
use vstd::utf8::encode_utf8;

verus! {

/// Whether the byte is written as it is.
pub open spec fn is_unreserved(b: u8) -> bool {
    ||| 0x30 <= b <= 0x39
    ||| 0x41 <= b <= 0x5a
    ||| 0x61 <= b <= 0x7a
    ||| b == 0x2d
    ||| b == 0x2e
    ||| b == 0x5f
    ||| b == 0x7e
}

/// The upper-case hexadecimal digit for `n`, for `n` below sixteen.
pub open spec fn hex_upper(n: nat) -> char {
    if n < 10 {
        ((48 + n) as u8) as char
    } else {
        ((55 + n) as u8) as char
    }
}

/// `%` and the two hexadecimal digits of the byte.
pub open spec fn escaped(b: u8) -> Seq<char> {
    seq!['%', hex_upper(b as nat / 16), hex_upper(b as nat % 16)]
}

/// What one byte is written as.
pub open spec fn encoded_byte(b: u8) -> Seq<char> {
    if is_unreserved(b) {
        seq![b as char]
    } else {
        escaped(b)
    }
}

/// What a sequence of bytes is written as.
pub open spec fn percent_encoded(bytes: Seq<u8>) -> Seq<char>
    decreases bytes.len(),
{
    if bytes.len() == 0 {
        Seq::empty()
    } else {
        percent_encoded(bytes.drop_last()) + encoded_byte(bytes.last())
    }
}

/// What a text is written as: the encoding of its UTF-8 bytes.
pub open spec fn encoded_text(text: Seq<char>) -> Seq<char> {
    percent_encoded(encode_utf8(text))
}

/// Calls `percent_encoding::percent_encode_byte`, which returns the three
/// characters that stand for the byte whatever the byte is: `%` and its two
/// hexadecimal digits in upper case.
#[verifier::external_body]
fn escape_byte(b: u8) -> (s: &'static str)
    ensures
        s@ == escaped(b),
{
    percent_encoding::percent_encode_byte(b)
}

/// Whether the byte is written as it is.
pub fn unreserved(b: u8) -> (r: bool)
    ensures
        r == is_unreserved(b),
{
    (0x30 <= b && b <= 0x39) || (0x41 <= b && b <= 0x5a) || (0x61 <= b && b <= 0x7a) || b == 0x2d
        || b == 0x2e || b == 0x5f || b == 0x7e
}

/// Appends the encoding of `src` to `out`.
pub fn push_percent_encoded(out: &mut String, src: &str)
    ensures
        final(out)@ == old(out)@ + encoded_text(src@),
{
    let bytes = src.as_bytes();
    let mut i: usize = 0;
    assert(out@ =~= old(out)@ + percent_encoded(bytes@.take(0)));
    while i < bytes.len()
        invariant
            i <= bytes.len(),
            bytes@ == encode_utf8(src@),
            out@ == old(out)@ + percent_encoded(bytes@.take(i as int)),
        decreases bytes.len() - i,
    {
        let b: u8 = bytes[i];
        let ghost before = out@;
        if unreserved(b) {
            out.push(b as char);
            assert(out@ =~= before + encoded_byte(b));
        } else {
            out.append(escape_byte(b));
        }
        proof {
            let ghost next = bytes@.take(i + 1);
            assert(next.drop_last() =~= bytes@.take(i as int));
            assert(next.last() == b);
            assert(out@ =~= old(out)@ + percent_encoded(next));
        }
        i += 1;
    }
    assert(bytes@.take(bytes.len() as int) =~= bytes@);
}

/// The encoding of `src`.
pub fn percent_encode(src: &str) -> (out: String)
    ensures
        out@ == encoded_text(src@),
{
    let mut out = String::new();
    push_percent_encoded(&mut out, src);
    assert(Seq::<char>::empty() + encoded_text(src@) =~= encoded_text(src@));
    out
}

} // verus!
