//! Percent-decoding of URL paths.

use vstd::prelude::*;
use vstd::string::*;
use vstd::utf8::*;

verus! {

/// Why a candidate path could not be decoded.
#[derive(Clone, Copy, Debug, PartialEq, Eq, Structural)]
pub enum DecodeError {
    /// A `%` is not followed by two hexadecimal digits.
    MalformedEscape,
    /// The decoded bytes are not UTF-8 text.
    InvalidUtf8,
}

/// The byte `%`.
pub const PERCENT: u8 = 0x25;

/// True of the ASCII codes of `0`-`9`, `A`-`F` and `a`-`f`.
pub open spec fn is_hex_digit(b: u8) -> bool {
    (0x30 <= b <= 0x39) || (0x41 <= b <= 0x46) || (0x61 <= b <= 0x66)
}

/// The number that a hexadecimal digit stands for.
pub open spec fn hex_value(b: u8) -> int
    recommends
        is_hex_digit(b),
{
    if b <= 0x39 {
        b - 0x30
    } else if b <= 0x46 {
        b - 0x41 + 10
    } else {
        b - 0x61 + 10
    }
}

/// True when an escape, `%` and two hexadecimal digits, starts at index `i`.
pub open spec fn escape_at(bytes: Seq<u8>, i: int) -> bool {
    &&& 0 <= i
    &&& i + 2 < bytes.len()
    &&& bytes[i] == PERCENT
    &&& is_hex_digit(bytes[i + 1])
    &&& is_hex_digit(bytes[i + 2])
}

/// True when every `%` among the bytes starts an escape.
pub open spec fn escapes_well_formed(bytes: Seq<u8>) -> bool {
    forall|i: int| 0 <= i < bytes.len() && #[trigger] bytes[i] == PERCENT ==> escape_at(bytes, i)
}

/// The bytes with every escape replaced by the byte it stands for. A `%`
/// that starts no escape is kept as it is.
pub open spec fn unescape(bytes: Seq<u8>) -> Seq<u8>
    decreases bytes.len(),
{
    if bytes.len() == 0 {
        seq![]
    } else if escape_at(bytes, 0) {
        seq![(hex_value(bytes[1]) * 16 + hex_value(bytes[2])) as u8] + unescape(bytes.skip(3))
    } else {
        seq![bytes[0]] + unescape(bytes.skip(1))
    }
}

/// The error of `core::str::from_utf8`, carried through as an opaque value.
#[verifier::external_type_specification]
#[verifier::external_body]
pub struct ExUtf8Error(core::str::Utf8Error);

/// Calls `percent_encoding::percent_decode` on the bytes of `path` and then
/// `decode_utf8` on what it returns. Trusted: the call replaces each `%`
/// followed by two hexadecimal digits by the byte they denote and keeps every
/// other byte; it succeeds exactly when the resulting bytes are UTF-8, and
/// then returns them as text.
#[verifier::external_body]
fn decode_escaped_utf8(path: &str) -> (r: Result<String, core::str::Utf8Error>)
    ensures
        r is Ok <==> valid_utf8(unescape(path.spec_bytes())),
        r matches Ok(s) ==> s@ == decode_utf8(unescape(path.spec_bytes())),
{
    match percent_encoding::percent_decode(path.as_bytes()).decode_utf8() {
        Ok(text) => Ok(text.into_owned()),
        Err(e) => Err(e),
    }
}

/// Tests whether `b` is the ASCII code of a hexadecimal digit.
pub fn hex_digit(b: u8) -> (hex: bool)
    ensures
        hex == is_hex_digit(b),
{
    (0x30 <= b && b <= 0x39) || (0x41 <= b && b <= 0x46) || (0x61 <= b && b <= 0x66)
}

/// Tests whether every `%` among the bytes is followed by two hexadecimal
/// digits.
pub fn check_escapes(bytes: &[u8]) -> (ok: bool)
    ensures
        ok == escapes_well_formed(bytes@),
{
    let n: usize = bytes.len();
    let mut i: usize = 0;
    while i < n
        invariant
            n == bytes@.len(),
            i <= n,
            forall|j: int| 0 <= j < i && #[trigger] bytes@[j] == PERCENT ==> escape_at(bytes@, j),
        decreases n - i,
    {
        if bytes[i] == PERCENT {
            if n - i < 3 || !hex_digit(bytes[i + 1]) || !hex_digit(bytes[i + 2]) {
                assert(!escape_at(bytes@, i as int));
                return false;
            }
        }
        i += 1;
    }
    true
}

/// What decoding the text `path` yields: an error where an escape is
/// malformed or the unescaped bytes are not UTF-8, else the text that the
/// unescaped bytes encode.
pub open spec fn percent_decoded(path: Seq<char>) -> Result<Seq<char>, DecodeError> {
    let bytes = encode_utf8(path);
    if !escapes_well_formed(bytes) {
        Err(DecodeError::MalformedEscape)
    } else if !valid_utf8(unescape(bytes)) {
        Err(DecodeError::InvalidUtf8)
    } else {
        Ok(decode_utf8(unescape(bytes)))
    }
}

/// Decodes the percent-escapes of `path` and reads the result as UTF-8.
pub fn percent_decode(path: &str) -> (r: Result<String, DecodeError>)
    ensures
        match r {
            Ok(s) => percent_decoded(path@) == Ok::<Seq<char>, DecodeError>(s@),
            Err(e) => percent_decoded(path@) == Err::<Seq<char>, DecodeError>(e),
        },
{
    if !check_escapes(path.as_bytes()) {
        return Err(DecodeError::MalformedEscape);
    }
    match decode_escaped_utf8(path) {
        Ok(s) => Ok(s),
        Err(_) => Err(DecodeError::InvalidUtf8),
    }
}

/// Bytes that hold no `%` are left unchanged by unescaping.
pub proof fn lemma_unescape_without_percent(bytes: Seq<u8>)
    requires
        forall|i: int| 0 <= i < bytes.len() ==> bytes[i] != PERCENT,
    ensures
        unescape(bytes) == bytes,
        escapes_well_formed(bytes),
    decreases bytes.len(),
{
    if bytes.len() > 0 {
        let rest = bytes.skip(1);
        assert forall|i: int| 0 <= i < rest.len() implies rest[i] != PERCENT by {
            assert(rest[i] == bytes[i + 1]);
        }
        lemma_unescape_without_percent(rest);
        assert(seq![bytes[0]] + rest =~= bytes);
    } else {
        assert(unescape(bytes) =~= bytes);
    }
}

/// Text whose UTF-8 encoding holds no `%` decodes to itself.
pub proof fn lemma_decode_without_percent(path: Seq<char>)
    requires
        forall|i: int| 0 <= i < encode_utf8(path).len() ==> encode_utf8(path)[i] != PERCENT,
    ensures
        percent_decoded(path) == Ok::<Seq<char>, DecodeError>(path),
{
    lemma_unescape_without_percent(encode_utf8(path));
    encode_utf8_valid_utf8(path);
    encode_utf8_decode_utf8(path);
}

} // verus!
