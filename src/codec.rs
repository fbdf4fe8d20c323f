use crate::text::{decimal, hex_digit, push_char, push_decimal, push_hex_digit};
use vstd::prelude::*;
use vstd::string::{is_ascii_spec_bytes, StringSliceAdditionalSpecFns};

verus! {

/// A printable, non-control ASCII byte.
pub open spec fn is_printable(b: u8) -> bool {
    0x20 <= b <= 0x7e
}

pub open spec fn all_printable(b: Seq<u8>) -> bool {
    forall|i: int| 0 <= i < b.len() ==> is_printable(#[trigger] b[i])
}

/// The four bytes of `v`, most significant first.
pub open spec fn be_bytes(v: u32) -> Seq<u8> {
    seq![(v >> 24u32) as u8, (v >> 16u32) as u8, (v >> 8u32) as u8, v as u8]
}

/// The characters of the bytes, one for each.
pub open spec fn ascii_chars(b: Seq<u8>) -> Seq<char> {
    Seq::new(b.len(), |i: int| b[i] as char)
}

/// The two upper-case hexadecimal digits of a byte.
pub open spec fn hex_byte(b: u8) -> Seq<char> {
    seq![hex_digit((b / 16) as int), hex_digit((b % 16) as int)]
}

/// How an identifier of four bytes is shown: its characters when all are
/// printable ASCII, else `0x` followed by eight hexadecimal digits.
pub open spec fn display_text(b: Seq<u8>) -> Seq<char> {
    if all_printable(b) {
        ascii_chars(b)
    } else {
        seq!['0', 'x'] + hex_byte(b[0]) + hex_byte(b[1]) + hex_byte(b[2]) + hex_byte(b[3])
    }
}

/// The decimal byte values, as `[b0, b1, b2, b3]`.
pub open spec fn byte_list_text(b: Seq<u8>) -> Seq<char> {
    seq!['['] + decimal(b[0] as nat) + seq![',', ' '] + decimal(b[1] as nat) + seq![',', ' ']
        + decimal(b[2] as nat) + seq![',', ' '] + decimal(b[3] as nat) + seq![']']
}

/// How an identifier is shown for debugging: its characters in double quotes
/// when all are printable ASCII, else the list of its byte values.
pub open spec fn debug_text(b: Seq<u8>) -> Seq<char> {
    if all_printable(b) {
        seq!['"'] + ascii_chars(b) + seq!['"']
    } else {
        byte_list_text(b)
    }
}

/// Why bytes or text were refused as a codec identifier.
#[derive(Debug, Clone, Copy, PartialEq, Eq, Structural)]
pub enum CodecIdError {
    InvalidLength,
    NonPrintableAscii,
}

impl CodecIdError {
    pub fn message(&self) -> (r: &'static str)
        ensures
            *self == CodecIdError::InvalidLength ==> r@ == "codec id must be exactly 4 bytes"@,
            *self == CodecIdError::NonPrintableAscii ==> r@
                == "codec id must contain printable ASCII characters"@,
    {
        match self {
            CodecIdError::InvalidLength => "codec id must be exactly 4 bytes",
            CodecIdError::NonPrintableAscii => "codec id must contain printable ASCII characters",
        }
    }
}

/// A four-character code naming a codec, held as a big-endian `u32`.
/// Equality and hashing go by that value.
#[derive(Debug, Clone, Copy, PartialEq, Eq, Hash, Structural)]
pub struct CodecId(u32);

impl View for CodecId {
    type V = u32;

    closed spec fn view(&self) -> u32 {
        self.0
    }
}

impl CodecId {
    /// The four bytes of the identifier, first character first.
    pub open spec fn bytes(self) -> Seq<u8> {
        be_bytes(self@)
    }

    /// The identifier whose bytes, first character first, are `b`.
    pub closed spec fn from_bytes_spec(b: Seq<u8>) -> CodecId {
        CodecId(be_value(b))
    }

    /// What converting four bytes gives: the identifier with those bytes when
    /// all are printable ASCII, else the error that says they are not.
    pub open spec fn try_from_bytes_spec(b: Seq<u8>) -> Result<CodecId, CodecIdError> {
        if all_printable(b) {
            Ok(CodecId::from_bytes_spec(b))
        } else {
            Err(CodecIdError::NonPrintableAscii)
        }
    }

    fn from_be(b: [u8; 4]) -> (r: CodecId)
        ensures
            r.bytes() == b@,
            r == CodecId::from_bytes_spec(b@),
    {
        let (b0, b1, b2, b3) = (b[0], b[1], b[2], b[3]);
        let v: u32 = ((b0 as u32) << 24u32) | ((b1 as u32) << 16u32) | ((b2 as u32) << 8u32)
            | (b3 as u32);
        assert((v >> 24u32) as u8 == b0 && (v >> 16u32) as u8 == b1 && (v >> 8u32) as u8 == b2
            && v as u8 == b3) by (bit_vector)
            requires
                v == ((b0 as u32) << 24u32) | ((b1 as u32) << 16u32) | ((b2 as u32) << 8u32) | (
                b3 as u32),
        ;
        let r = CodecId(v);
        assert(r.bytes() =~= b@);
        r
    }

    /// Builds an identifier without checking that its bytes are printable.
    pub fn from_bytes_unchecked(bytes: [u8; 4]) -> (r: CodecId)
        requires
            forall|i: int| 0 <= i < 4 ==> #[trigger] bytes@[i] < 0x80,
        ensures
            r.bytes() == bytes@,
    {
        Self::from_be(bytes)
    }

    /// Builds an identifier from four printable ASCII bytes.
    pub fn from_ascii_bytes(bytes: [u8; 4]) -> (r: Result<CodecId, CodecIdError>)
        ensures
            r is Ok <==> all_printable(bytes@),
            r matches Ok(id) ==> id.bytes() == bytes@,
            r matches Err(e) ==> e == CodecIdError::NonPrintableAscii,
            r == CodecId::try_from_bytes_spec(bytes@),
    {
        let mut i: usize = 0;
        while i < 4
            invariant
                i <= 4,
                forall|j: int| 0 <= j < i ==> is_printable(#[trigger] bytes@[j]),
            decreases 4 - i,
        {
            if !(0x20 <= bytes[i] && bytes[i] <= 0x7e) {
                return Err(CodecIdError::NonPrintableAscii);
            }
            i = i + 1;
        }
        Ok(Self::from_be(bytes))
    }

    /// Builds an identifier from text of exactly four bytes, all printable ASCII.
    pub fn from_ascii(s: &str) -> (r: Result<CodecId, CodecIdError>)
        ensures
            r == Err::<CodecId, _>(CodecIdError::InvalidLength) <==> s.spec_bytes().len() != 4,
            r is Ok <==> s.spec_bytes().len() == 4 && all_printable(s.spec_bytes()),
            r matches Ok(id) ==> id.bytes() == s.spec_bytes(),
            s.spec_bytes().len() == 4 ==> r == CodecId::try_from_bytes_spec(s.spec_bytes()),
    {
        let b = s.as_bytes();
        if b.len() != 4 {
            return Err(CodecIdError::InvalidLength);
        }
        let arr: [u8; 4] = [b[0], b[1], b[2], b[3]];
        assert(arr@ =~= s.spec_bytes());
        Self::from_ascii_bytes(arr)
    }

    pub fn as_bytes(self) -> (r: [u8; 4])
        ensures
            r@ == self.bytes(),
    {
        let v = self.0;
        let r = [(v >> 24u32) as u8, (v >> 16u32) as u8, (v >> 8u32) as u8, v as u8];
        assert(r@ =~= self.bytes());
        r
    }

    pub fn as_u32(&self) -> (r: u32)
        ensures
            r == self@,
    {
        self.0
    }

    /// The identifier's characters, when all four bytes are printable ASCII.
    fn as_str(&self) -> (r: Option<String>)
        ensures
            r is Some <==> all_printable(self.bytes()),
            r matches Some(s) ==> s@ == ascii_chars(self.bytes()),
    {
        let b = self.as_bytes();
        let mut s = String::new();
        let mut i: usize = 0;
        while i < 4
            invariant
                i <= 4,
                b@ == self.bytes(),
                forall|j: int| 0 <= j < i ==> is_printable(#[trigger] b@[j]),
                s@ =~= ascii_chars(b@.subrange(0, i as int)),
            decreases 4 - i,
        {
            if !(0x20 <= b[i] && b[i] <= 0x7e) {
                return None;
            }
            push_char(&mut s, b[i] as char);
            i = i + 1;
            assert(s@ =~= ascii_chars(b@.subrange(0, i as int)));
        }
        assert(b@.subrange(0, 4) =~= b@);
        Some(s)
    }

    /// The identifier as shown to people: its characters, or `0x` and eight
    /// upper-case hexadecimal digits when a byte is not printable ASCII.
    pub fn to_string(&self) -> (r: String)
        ensures
            r@ == display_text(self.bytes()),
    {
        match self.as_str() {
            Some(s) => s,
            None => {
                let b = self.as_bytes();
                let mut s = String::new();
                push_char(&mut s, '0');
                push_char(&mut s, 'x');
                let mut i: usize = 0;
                while i < 4
                    invariant
                        i <= 4,
                        b@ == self.bytes(),
                        b@.len() == 4,
                        s@ =~= seq!['0', 'x'] + hex_bytes(b@, i as int),
                    decreases 4 - i,
                {
                    push_hex_digit(&mut s, (b[i] / 16) as u32);
                    push_hex_digit(&mut s, (b[i] % 16) as u32);
                    i = i + 1;
                    assert(hex_bytes(b@, i as int) =~= hex_bytes(b@, i - 1) + hex_byte(b@[i - 1]));
                }
                assert(hex_bytes(b@, 4) =~= hex_byte(b@[0]) + hex_byte(b@[1]) + hex_byte(b@[2])
                    + hex_byte(b@[3])) by {
                    assert(hex_bytes(b@, 0) =~= seq![]);
                    assert(hex_bytes(b@, 1) =~= hex_byte(b@[0]));
                    assert(hex_bytes(b@, 2) == hex_bytes(b@, 1) + hex_byte(b@[1]));
                    assert(hex_bytes(b@, 3) == hex_bytes(b@, 2) + hex_byte(b@[2]));
                    assert(hex_bytes(b@, 4) == hex_bytes(b@, 3) + hex_byte(b@[3]));
                }
                s
            },
        }
    }

    /// The identifier as shown for debugging: its characters in double
    /// quotes, or the list of its byte values when a byte is not printable.
    pub fn to_debug_string(&self) -> (r: String)
        ensures
            r@ == debug_text(self.bytes()),
    {
        match self.as_str() {
            Some(t) => {
                let mut s = String::new();
                push_char(&mut s, '"');
                let ghost mid = s@;
                let mut i: usize = 0;
                let b = self.as_bytes();
                while i < 4
                    invariant
                        i <= 4,
                        b@ == self.bytes(),
                        all_printable(b@),
                        s@ =~= seq!['"'] + ascii_chars(b@.subrange(0, i as int)),
                    decreases 4 - i,
                {
                    push_char(&mut s, b[i] as char);
                    i = i + 1;
                    assert(s@ =~= seq!['"'] + ascii_chars(b@.subrange(0, i as int)));
                }
                assert(b@.subrange(0, 4) =~= b@);
                push_char(&mut s, '"');
                assert(s@ =~= debug_text(self.bytes()));
                s
            },
            None => {
                let b = self.as_bytes();
                let mut s = String::new();
                push_char(&mut s, '[');
                push_decimal(&mut s, b[0] as u32);
                push_char(&mut s, ',');
                push_char(&mut s, ' ');
                push_decimal(&mut s, b[1] as u32);
                push_char(&mut s, ',');
                push_char(&mut s, ' ');
                push_decimal(&mut s, b[2] as u32);
                push_char(&mut s, ',');
                push_char(&mut s, ' ');
                push_decimal(&mut s, b[3] as u32);
                push_char(&mut s, ']');
                assert(s@ =~= byte_list_text(b@));
                s
            },
        }
    }
}

impl TryFrom<[u8; 4]> for CodecId {
    type Error = CodecIdError;

    fn try_from(bytes: [u8; 4]) -> Result<CodecId, CodecIdError> {
        Self::from_ascii_bytes(bytes)
    }
}

impl vstd::std_specs::convert::TryFromSpecImpl<[u8; 4]> for CodecId {
    open spec fn obeys_try_from_spec() -> bool {
        true
    }

    open spec fn try_from_spec(v: [u8; 4]) -> Result<CodecId, CodecIdError> {
        CodecId::try_from_bytes_spec(v@)
    }
}

impl<'a> TryFrom<&'a str> for CodecId {
    type Error = CodecIdError;

    fn try_from(s: &'a str) -> Result<CodecId, CodecIdError> {
        Self::from_ascii(s)
    }
}

impl<'a> vstd::std_specs::convert::TryFromSpecImpl<&'a str> for CodecId {
    open spec fn obeys_try_from_spec() -> bool {
        true
    }

    open spec fn try_from_spec(v: &'a str) -> Result<CodecId, CodecIdError> {
        if v.spec_bytes().len() != 4 {
            Err(CodecIdError::InvalidLength)
        } else {
            CodecId::try_from_bytes_spec(v.spec_bytes())
        }
    }
}

impl std::str::FromStr for CodecId {
    type Err = CodecIdError;

    fn from_str(s: &str) -> (r: Result<CodecId, CodecIdError>)
        ensures
            r == Err::<CodecId, _>(CodecIdError::InvalidLength) <==> s.spec_bytes().len() != 4,
            r is Ok <==> s.spec_bytes().len() == 4 && all_printable(s.spec_bytes()),
            r matches Ok(id) ==> id.bytes() == s.spec_bytes(),
            s.spec_bytes().len() == 4 ==> r == CodecId::try_from_bytes_spec(s.spec_bytes()),
    {
        Self::from_ascii(s)
    }
}

/// The hexadecimal digits of the first `n` bytes.
pub open spec fn hex_bytes(b: Seq<u8>, n: int) -> Seq<char>
    decreases n,
{
    if n <= 0 {
        seq![]
    } else {
        hex_bytes(b, n - 1) + hex_byte(b[n - 1])
    }
}

/// The big-endian value of four bytes, first byte most significant.
pub open spec fn be_value(b: Seq<u8>) -> u32 {
    ((b[0] as u32) << 24u32) | ((b[1] as u32) << 16u32) | ((b[2] as u32) << 8u32) | (b[3] as u32)
}

/// The identifier built from four bytes has exactly those bytes, and their
/// big-endian value.
pub proof fn lemma_from_bytes_spec(b: Seq<u8>)
    requires
        b.len() == 4,
    ensures
        CodecId::from_bytes_spec(b).bytes() == b,
        CodecId::from_bytes_spec(b)@ == be_value(b),
{
    let (b0, b1, b2, b3) = (b[0], b[1], b[2], b[3]);
    let v = be_value(b);
    assert((v >> 24u32) as u8 == b0 && (v >> 16u32) as u8 == b1 && (v >> 8u32) as u8 == b2
        && v as u8 == b3) by (bit_vector)
        requires
            v == ((b0 as u32) << 24u32) | ((b1 as u32) << 16u32) | ((b2 as u32) << 8u32) | (
            b3 as u32),
    ;
    assert(CodecId::from_bytes_spec(b).bytes() =~= b);
}

/// Converting an identifier's own bytes gives that identifier back, and
/// succeeds whenever those bytes are printable.
pub proof fn lemma_bytes_round_trip(id: CodecId)
    ensures
        CodecId::from_bytes_spec(id.bytes()) == id,
        all_printable(id.bytes()) ==> CodecId::try_from_bytes_spec(id.bytes()) == Ok::<
            CodecId,
            CodecIdError,
        >(id),
{
    lemma_from_bytes_spec(id.bytes());
    lemma_bytes_determine_id(CodecId::from_bytes_spec(id.bytes()), id);
}

/// Two identifiers with the same bytes are the same identifier.
pub proof fn lemma_bytes_determine_id(a: CodecId, b: CodecId)
    requires
        a.bytes() == b.bytes(),
    ensures
        a == b,
{
    let (x, y) = (a.0, b.0);
    assert(a.bytes()[0] == b.bytes()[0] && a.bytes()[1] == b.bytes()[1] && a.bytes()[2]
        == b.bytes()[2] && a.bytes()[3] == b.bytes()[3]);
    assert(x == y) by (bit_vector)
        requires
            (x >> 24u32) as u8 == (y >> 24u32) as u8,
            (x >> 16u32) as u8 == (y >> 16u32) as u8,
            (x >> 8u32) as u8 == (y >> 8u32) as u8,
            x as u8 == y as u8,
    ;
}

/// Text of four printable ASCII characters is accepted as an identifier,
/// and that identifier is shown as the same text.
pub proof fn lemma_text_round_trip(s: &str)
    requires
        s@.len() == 4,
        forall|i: int| 0 <= i < 4 ==> ' ' <= #[trigger] s@[i] <= '~',
    ensures
        s.spec_bytes().len() == 4,
        all_printable(s.spec_bytes()),
        display_text(s.spec_bytes()) == s@,
{
    assert(vstd::string::is_ascii(s));
    is_ascii_spec_bytes(s);
    assert(ascii_chars(s.spec_bytes()) =~= s@);
}

/// An identifier of printable characters, shown and read back, is the same
/// identifier: text equal to what it shows has exactly its bytes.
pub proof fn lemma_id_round_trip(id: CodecId, t: &str)
    requires
        all_printable(id.bytes()),
        t@ == display_text(id.bytes()),
    ensures
        t.spec_bytes() == id.bytes(),
        forall|other: CodecId| other.bytes() == t.spec_bytes() ==> other == id,
{
    let b = id.bytes();
    assert(vstd::string::is_ascii(t)) by {
        assert forall|i: int| 0 <= i < t@.len() implies '\0' <= #[trigger] t@[i] <= '\u{7f}' by {
            assert(is_printable(b[i]));
        }
    }
    is_ascii_spec_bytes(t);
    assert(t.spec_bytes() =~= b);
    assert forall|other: CodecId| other.bytes() == t.spec_bytes() implies other == id by {
        lemma_bytes_determine_id(other, id);
    }
}

} // verus!
