//! The job identifier: a 32-bit correlation key with a fixed 4-byte
//! little-endian wire form and a fixed-width uppercase hexadecimal text form.

use vstd::prelude::*;

verus! {

/// Failure of decoding a job identifier from its wire form: the input
/// did not hold exactly four bytes.
#[derive(Copy, Clone, Debug, PartialEq, Eq, Structural)]
pub enum TryFromRequestIdError {
    LengthError(usize),
}

impl TryFromRequestIdError {
    /// A fixed diagnostic text for the error.
    pub fn message(&self) -> (s: &'static str) {
        match self {
            TryFromRequestIdError::LengthError(_) => "wrong length, expected exactly 4 bytes",
        }
    }
}

/// The little-endian 4-byte wire form of a 32-bit value.
pub open spec fn le_bytes_of(x: u32) -> Seq<u8> {
    seq![
        (x & 0xff) as u8,
        ((x >> 8) & 0xff) as u8,
        ((x >> 16) & 0xff) as u8,
        ((x >> 24) & 0xff) as u8,
    ]
}

/// The 32-bit value read from a little-endian 4-byte wire form.
pub open spec fn u32_of_le_bytes(b: Seq<u8>) -> u32
    recommends
        b.len() == 4,
{
    ((b[0] as u32) | ((b[1] as u32) << 8) | ((b[2] as u32) << 16) | ((b[3] as u32) << 24)) as u32
}

/// Encoding inverts decoding: any 4-byte input is reproduced by
/// re-encoding the value read from it.
pub proof fn lemma_le_bytes_round_trip(b: Seq<u8>)
    requires
        b.len() == 4,
    ensures
        le_bytes_of(u32_of_le_bytes(b)) == b,
{
    let b0 = b[0];
    let b1 = b[1];
    let b2 = b[2];
    let b3 = b[3];
    let x = u32_of_le_bytes(b);
    assert(x == ((b0 as u32) | ((b1 as u32) << 8) | ((b2 as u32) << 16) | ((b3 as u32) << 24)));
    assert(((b0 as u32) | ((b1 as u32) << 8) | ((b2 as u32) << 16) | ((b3 as u32) << 24)) & 0xff
        == b0 as u32) by (bit_vector);
    assert((((b0 as u32) | ((b1 as u32) << 8) | ((b2 as u32) << 16) | ((b3 as u32) << 24)) >> 8)
        & 0xff == b1 as u32) by (bit_vector);
    assert((((b0 as u32) | ((b1 as u32) << 8) | ((b2 as u32) << 16) | ((b3 as u32) << 24)) >> 16)
        & 0xff == b2 as u32) by (bit_vector);
    assert((((b0 as u32) | ((b1 as u32) << 8) | ((b2 as u32) << 16) | ((b3 as u32) << 24)) >> 24)
        & 0xff == b3 as u32) by (bit_vector);
    assert(le_bytes_of(x) =~= b);
}

/// Decoding inverts encoding: the value read back from an encoded
/// identifier is the identifier itself.
pub proof fn lemma_le_value_round_trip(x: u32)
    ensures
        u32_of_le_bytes(le_bytes_of(x)) == x,
{
    assert((((x & 0xff) as u8 as u32) | (((x >> 8) & 0xff) as u8 as u32) << 8 | (((x >> 16)
        & 0xff) as u8 as u32) << 16 | (((x >> 24) & 0xff) as u8 as u32) << 24) == x)
        by (bit_vector);
}

/// The hexadecimal digit standing for a value below 16, upper case.
pub open spec fn hex_char_of(d: u8) -> char
    recommends
        d < 16,
{
    if d == 0 {
        '0'
    } else if d == 1 {
        '1'
    } else if d == 2 {
        '2'
    } else if d == 3 {
        '3'
    } else if d == 4 {
        '4'
    } else if d == 5 {
        '5'
    } else if d == 6 {
        '6'
    } else if d == 7 {
        '7'
    } else if d == 8 {
        '8'
    } else if d == 9 {
        '9'
    } else if d == 10 {
        'A'
    } else if d == 11 {
        'B'
    } else if d == 12 {
        'C'
    } else if d == 13 {
        'D'
    } else if d == 14 {
        'E'
    } else {
        'F'
    }
}

/// The fixed-width (8 digit) uppercase hexadecimal text form of a 32-bit
/// value, most significant digit first.
pub open spec fn spec_hex(x: u32) -> Seq<char> {
    seq![
        hex_char_of(((x >> 28) & 0xf) as u8),
        hex_char_of(((x >> 24) & 0xf) as u8),
        hex_char_of(((x >> 20) & 0xf) as u8),
        hex_char_of(((x >> 16) & 0xf) as u8),
        hex_char_of(((x >> 12) & 0xf) as u8),
        hex_char_of(((x >> 8) & 0xf) as u8),
        hex_char_of(((x >> 4) & 0xf) as u8),
        hex_char_of((x & 0xf) as u8),
    ]
}

/// Distinct values below 16 render as distinct hexadecimal digits.
pub proof fn lemma_hex_char_injective(d1: u8, d2: u8)
    requires
        d1 < 16,
        d2 < 16,
        hex_char_of(d1) == hex_char_of(d2),
    ensures
        d1 == d2,
{
}

/// Distinct 32-bit values render as distinct hexadecimal texts.
pub proof fn lemma_hex_injective(x: u32, y: u32)
    requires
        spec_hex(x) == spec_hex(y),
    ensures
        x == y,
{
    assert(((x >> 28) & 0xf) < 16 && ((x >> 24) & 0xf) < 16 && ((x >> 20) & 0xf) < 16 && ((x
        >> 16) & 0xf) < 16 && ((x >> 12) & 0xf) < 16 && ((x >> 8) & 0xf) < 16 && ((x >> 4) & 0xf)
        < 16 && (x & 0xf) < 16) by (bit_vector);
    assert(((y >> 28) & 0xf) < 16 && ((y >> 24) & 0xf) < 16 && ((y >> 20) & 0xf) < 16 && ((y
        >> 16) & 0xf) < 16 && ((y >> 12) & 0xf) < 16 && ((y >> 8) & 0xf) < 16 && ((y >> 4) & 0xf)
        < 16 && (y & 0xf) < 16) by (bit_vector);
    assert(spec_hex(x)[0] == spec_hex(y)[0]);
    assert(spec_hex(x)[1] == spec_hex(y)[1]);
    assert(spec_hex(x)[2] == spec_hex(y)[2]);
    assert(spec_hex(x)[3] == spec_hex(y)[3]);
    assert(spec_hex(x)[4] == spec_hex(y)[4]);
    assert(spec_hex(x)[5] == spec_hex(y)[5]);
    assert(spec_hex(x)[6] == spec_hex(y)[6]);
    assert(spec_hex(x)[7] == spec_hex(y)[7]);
    lemma_hex_char_injective(((x >> 28) & 0xf) as u8, ((y >> 28) & 0xf) as u8);
    lemma_hex_char_injective(((x >> 24) & 0xf) as u8, ((y >> 24) & 0xf) as u8);
    lemma_hex_char_injective(((x >> 20) & 0xf) as u8, ((y >> 20) & 0xf) as u8);
    lemma_hex_char_injective(((x >> 16) & 0xf) as u8, ((y >> 16) & 0xf) as u8);
    lemma_hex_char_injective(((x >> 12) & 0xf) as u8, ((y >> 12) & 0xf) as u8);
    lemma_hex_char_injective(((x >> 8) & 0xf) as u8, ((y >> 8) & 0xf) as u8);
    lemma_hex_char_injective(((x >> 4) & 0xf) as u8, ((y >> 4) & 0xf) as u8);
    lemma_hex_char_injective((x & 0xf) as u8, (y & 0xf) as u8);
    assert(x == y) by (bit_vector)
        requires
            (x >> 28) & 0xf == (y >> 28) & 0xf,
            (x >> 24) & 0xf == (y >> 24) & 0xf,
            (x >> 20) & 0xf == (y >> 20) & 0xf,
            (x >> 16) & 0xf == (y >> 16) & 0xf,
            (x >> 12) & 0xf == (y >> 12) & 0xf,
            (x >> 8) & 0xf == (y >> 8) & 0xf,
            (x >> 4) & 0xf == (y >> 4) & 0xf,
            x & 0xf == y & 0xf,
    ;
}

/// The single-character text of one hexadecimal digit.
fn hex_digit(d: u8) -> (s: &'static str)
    requires
        d < 16,
    ensures
        s@ == seq![hex_char_of(d)],
{
    if d == 0 {
        proof {
            reveal_strlit("0");
            assert("0"@ =~= seq![hex_char_of(d)]);
        }
        "0"
    } else if d == 1 {
        proof {
            reveal_strlit("1");
            assert("1"@ =~= seq![hex_char_of(d)]);
        }
        "1"
    } else if d == 2 {
        proof {
            reveal_strlit("2");
            assert("2"@ =~= seq![hex_char_of(d)]);
        }
        "2"
    } else if d == 3 {
        proof {
            reveal_strlit("3");
            assert("3"@ =~= seq![hex_char_of(d)]);
        }
        "3"
    } else if d == 4 {
        proof {
            reveal_strlit("4");
            assert("4"@ =~= seq![hex_char_of(d)]);
        }
        "4"
    } else if d == 5 {
        proof {
            reveal_strlit("5");
            assert("5"@ =~= seq![hex_char_of(d)]);
        }
        "5"
    } else if d == 6 {
        proof {
            reveal_strlit("6");
            assert("6"@ =~= seq![hex_char_of(d)]);
        }
        "6"
    } else if d == 7 {
        proof {
            reveal_strlit("7");
            assert("7"@ =~= seq![hex_char_of(d)]);
        }
        "7"
    } else if d == 8 {
        proof {
            reveal_strlit("8");
            assert("8"@ =~= seq![hex_char_of(d)]);
        }
        "8"
    } else if d == 9 {
        proof {
            reveal_strlit("9");
            assert("9"@ =~= seq![hex_char_of(d)]);
        }
        "9"
    } else if d == 10 {
        proof {
            reveal_strlit("A");
            assert("A"@ =~= seq![hex_char_of(d)]);
        }
        "A"
    } else if d == 11 {
        proof {
            reveal_strlit("B");
            assert("B"@ =~= seq![hex_char_of(d)]);
        }
        "B"
    } else if d == 12 {
        proof {
            reveal_strlit("C");
            assert("C"@ =~= seq![hex_char_of(d)]);
        }
        "C"
    } else if d == 13 {
        proof {
            reveal_strlit("D");
            assert("D"@ =~= seq![hex_char_of(d)]);
        }
        "D"
    } else if d == 14 {
        proof {
            reveal_strlit("E");
            assert("E"@ =~= seq![hex_char_of(d)]);
        }
        "E"
    } else {
        proof {
            reveal_strlit("F");
            assert("F"@ =~= seq![hex_char_of(d)]);
        }
        "F"
    }
}

/// Render a 32-bit value as its fixed-width uppercase hexadecimal text.
pub fn u32_hex(x: u32) -> (s: String)
    ensures
        s@ == spec_hex(x),
{
    proof {
        assert(((x >> 28) & 0xf) < 16 && ((x >> 24) & 0xf) < 16 && ((x >> 20) & 0xf) < 16 && ((x
            >> 16) & 0xf) < 16 && ((x >> 12) & 0xf) < 16 && ((x >> 8) & 0xf) < 16 && ((x >> 4)
            & 0xf) < 16 && (x & 0xf) < 16) by (bit_vector);
    }
    let mut s = String::new();
    s.append(hex_digit(((x >> 28) & 0xf) as u8));
    s.append(hex_digit(((x >> 24) & 0xf) as u8));
    s.append(hex_digit(((x >> 20) & 0xf) as u8));
    s.append(hex_digit(((x >> 16) & 0xf) as u8));
    s.append(hex_digit(((x >> 12) & 0xf) as u8));
    s.append(hex_digit(((x >> 8) & 0xf) as u8));
    s.append(hex_digit(((x >> 4) & 0xf) as u8));
    s.append(hex_digit((x & 0xf) as u8));
    proof {
        assert(s@ =~= spec_hex(x));
    }
    s
}

/// Relies on rand::random: one uniformly drawn 32-bit value; nothing is
/// assumed of which value comes back.
#[verifier::external_body]
pub(crate) fn random_u32() -> u32 {
    rand::random::<u32>()
}

/// The 32-bit correlation key for one upload/conversion/result triple.
/// Generated once, at random, when a job is submitted; immutable afterwards.
#[derive(Copy, Clone, Debug, PartialEq, Eq, Structural)]
pub struct RequestId(u32);

impl View for RequestId {
    type V = u32;

    closed spec fn view(&self) -> u32 {
        self.0
    }
}

impl RequestId {
    /// Encode to the 4-byte little-endian wire form.
    pub fn as_bytes(&self) -> (r: [u8; 4])
        ensures
            r@ == le_bytes_of(self@),
    {
        let x = self.0;
        let r = [(x & 0xff) as u8, ((x >> 8) & 0xff) as u8, ((x >> 16) & 0xff) as u8, ((x >> 24)
            & 0xff) as u8];
        proof {
            assert(r@ =~= le_bytes_of(x));
        }
        r
    }

    /// Decode from a byte slice.  Succeeds exactly on inputs of length 4;
    /// any other length yields the length error and never a panic.
    pub fn from_bytes(v: &[u8]) -> (r: Result<Self, TryFromRequestIdError>)
        ensures
            match r {
                Ok(id) => v@.len() == 4 && id@ == u32_of_le_bytes(v@),
                Err(e) => v@.len() != 4 && e == TryFromRequestIdError::LengthError(
                    v@.len() as usize,
                ),
            },
    {
        if v.len() != 4 {
            return Err(TryFromRequestIdError::LengthError(v.len()));
        }
        let x: u32 = (v[0] as u32) | ((v[1] as u32) << 8) | ((v[2] as u32) << 16) | ((v[3]
            as u32) << 24);
        Ok(RequestId(x))
    }

    /// Draw a fresh identifier at random.  No uniqueness is enforced beyond
    /// the birthday bound of the 32-bit space.
    pub fn new() -> Self {
        let id: u32 = random_u32();
        RequestId(id)
    }

    /// The fixed-width uppercase hexadecimal text form, as used in store
    /// keys and diagnostics.
    pub fn hex_string(&self) -> (s: String)
        ensures
            s@ == spec_hex(self@),
    {
        u32_hex(self.0)
    }
}

impl Default for RequestId {
    /// A fresh random identifier.
    fn default() -> Self {
        RequestId::new()
    }
}

impl From<u32> for RequestId {
    fn from(id: u32) -> (r: RequestId) {
        RequestId(id)
    }
}

impl vstd::std_specs::convert::FromSpecImpl<u32> for RequestId {
    open spec fn obeys_from_spec() -> bool {
        true
    }

    closed spec fn from_spec(id: u32) -> RequestId {
        RequestId(id)
    }
}

/// Wrapping a 32-bit value keeps it: the identifier made from a value
/// views back to that value.
pub proof fn lemma_from_u32_view(id: u32)
    ensures
        <RequestId as vstd::std_specs::convert::FromSpec<u32>>::from_spec(id)@ == id,
{
}

} // verus!
