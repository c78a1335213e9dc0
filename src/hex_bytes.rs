use vstd::prelude::*;

verus! {

/// The value of one hexadecimal digit, either case.
pub open spec fn hex_value(c: char) -> Option<u8> {
    let n = c as u32;
    if 48 <= n <= 57 {
        Some((n - 48) as u8)
    } else if 97 <= n <= 102 {
        Some((n - 87) as u8)
    } else if 65 <= n <= 70 {
        Some((n - 55) as u8)
    } else {
        None
    }
}

/// The lowercase digit for a value below 16.
pub open spec fn lower_digit(n: int) -> char {
    seq!['0', '1', '2', '3', '4', '5', '6', '7', '8', '9', 'a', 'b', 'c', 'd', 'e', 'f'][n]
}

/// Two lowercase digits for each byte, the high half first.
pub open spec fn hex_encoding(b: Seq<u8>) -> Seq<char> {
    Seq::new(
        2 * b.len(),
        |i: int|
            if i % 2 == 0 {
                lower_digit(b[i / 2] as int / 16)
            } else {
                lower_digit(b[i / 2] as int % 16)
            },
    )
}

/// Text that decodes: an even number of digits of either case.
pub open spec fn is_hex_text(s: Seq<char>) -> bool {
    &&& s.len() % 2 == 0
    &&& forall|i: int| 0 <= i < s.len() ==> (#[trigger] hex_value(s[i])) is Some
}

/// The bytes that hexadecimal text stands for, two digits each.
pub open spec fn hex_decoding(s: Seq<char>) -> Seq<u8> {
    Seq::new(
        s.len() / 2,
        |i: int| (hex_value(s[2 * i]).unwrap() * 16 + hex_value(s[2 * i + 1]).unwrap()) as u8,
    )
}

pub proof fn lemma_digit_value(n: int)
    requires
        0 <= n < 16,
    ensures
        hex_value(lower_digit(n)) == Some(n as u8),
{
}


/// Lowercase hexadecimal encoding is valid text, and decoding it gives back the
/// bytes it was made from.
pub proof fn lemma_hex_round_trip(b: Seq<u8>)
    ensures
        is_hex_text(hex_encoding(b)),
        hex_decoding(hex_encoding(b)) == b,
{
    let e = hex_encoding(b);
    assert forall|i: int| 0 <= i < e.len() implies (#[trigger] hex_value(e[i])) is Some by {
        if i % 2 == 0 {
            lemma_digit_value(b[i / 2] as int / 16);
        } else {
            lemma_digit_value(b[i / 2] as int % 16);
        }
    }
    assert forall|i: int| 0 <= i < b.len() implies #[trigger] hex_decoding(e)[i] == b[i] by {
        assert((2 * i) / 2 == i);
        assert((2 * i + 1) / 2 == i);
        assert((2 * i) % 2 == 0);
        assert((2 * i + 1) % 2 == 1);
        lemma_digit_value(b[i] as int / 16);
        lemma_digit_value(b[i] as int % 16);
        assert((b[i] as int / 16) * 16 + b[i] as int % 16 == b[i] as int);
    }
    assert(hex_decoding(e) =~= b);
}

#[verifier::external_type_specification]
#[verifier::external_body]
pub struct ExFromHexError(hex::FromHexError);

/// Relies on hex::encode: two lowercase digits for each byte, high half first.
#[verifier::external_body]
fn encode_hex(b: &[u8]) -> (r: String)
    ensures
        r@ == hex_encoding(b@),
{
    hex::encode(b)
}

/// Relies on hex::decode: it accepts an even number of digits of either case,
/// and each pair of digits gives one byte.
#[verifier::external_body]
fn decode_hex(s: &str) -> (r: Result<Vec<u8>, hex::FromHexError>)
    ensures
        r is Ok <==> is_hex_text(s@),
        r matches Ok(v) ==> v@ == hex_decoding(s@),
{
    hex::decode(s)
}

/// Bytes that travel as lowercase hexadecimal text.
#[derive(Clone, Debug, PartialEq, Eq)]
pub struct HexBytes(pub Vec<u8>);

/// Text that is not hexadecimal, kept for the error message.
#[derive(Clone, Debug, PartialEq, Eq)]
pub struct InvalidHex {
    pub text: String,
}

impl HexBytes {
    pub open spec fn bytes(&self) -> Seq<u8> {
        self.0@
    }

    /// The text form: two lowercase digits per byte.
    pub fn to_hex(&self) -> (r: String)
        ensures
            r@ == hex_encoding(self.bytes()),
    {
        encode_hex(self.0.as_slice())
    }

    /// Reads hexadecimal text of either case.
    pub fn from_hex(s: &str) -> (r: Result<HexBytes, InvalidHex>)
        ensures
            r is Ok <==> is_hex_text(s@),
            r matches Ok(h) ==> h.bytes() == hex_decoding(s@),
            r matches Err(e) ==> e.text@ == s@,
    {
        match decode_hex(s) {
            Ok(v) => Ok(HexBytes(v)),
            Err(_) => Err(InvalidHex { text: String::from_str(s) }),
        }
    }
}

} // verus!
