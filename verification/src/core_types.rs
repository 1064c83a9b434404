//! Shared domain primitives: execution identifiers and operation outcomes.

use vstd::prelude::*;

verus! {

#[verifier::external_type_specification]
#[verifier::external_body]
pub struct ExIoError(std::io::Error);

pub open spec fn is_lower_hex_digit(c: char) -> bool {
    ('0' <= c && c <= '9') || ('a' <= c && c <= 'f')
}

/// The hyphenated lower-case form of a UUID: 36 characters, hyphens at
/// positions 8, 13, 18 and 23, lower-case hexadecimal digits elsewhere.
pub open spec fn is_hyphenated_uuid(text: Seq<char>) -> bool {
    &&& text.len() == 36
    &&& forall|i: int|
        0 <= i < 36 ==> if i == 8 || i == 13 || i == 18 || i == 23 {
            text[i] == '-'
        } else {
            is_lower_hex_digit(#[trigger] text[i])
        }
}

/// A hexadecimal digit in lower case.
pub open spec fn hex_lower(n: u8) -> char {
    if n < 10 {
        (48 + n) as char
    } else {
        (87 + n) as char
    }
}

/// The `j`-th of the 32 digits of sixteen bytes, high nibble first.
pub open spec fn uuid_digit(bytes: Seq<u8>, j: int) -> char {
    let b = bytes[j / 2];
    hex_lower(if j % 2 == 0 { b / 16 } else { b % 16 })
}

/// Sixteen bytes as a hyphenated UUID: 32 lower-case hexadecimal digits in
/// byte order, with hyphens after the 4th, 6th, 8th and 10th bytes.
pub open spec fn uuid_hyphenated(bytes: Seq<u8>) -> Seq<char> {
    Seq::new(
        36,
        |i: int|
            if i == 8 || i == 13 || i == 18 || i == 23 {
                '-'
            } else {
                uuid_digit(
                    bytes,
                    if i < 8 {
                        i
                    } else if i < 13 {
                        i - 1
                    } else if i < 18 {
                        i - 2
                    } else if i < 23 {
                        i - 3
                    } else {
                        i - 4
                    },
                )
            },
    )
}

/// The hyphenated form of any sixteen bytes has the hyphenated shape.
pub proof fn lemma_uuid_text_shape(bytes: Seq<u8>)
    requires
        bytes.len() == 16,
    ensures
        is_hyphenated_uuid(uuid_hyphenated(bytes)),
{
    let t = uuid_hyphenated(bytes);
    assert forall|i: int| 0 <= i < 36 && !(i == 8 || i == 13 || i == 18 || i == 23) implies is_lower_hex_digit(#[trigger] t[i]) by {
        let j = if i < 8 {
            i
        } else if i < 13 {
            i - 1
        } else if i < 18 {
            i - 2
        } else if i < 23 {
            i - 3
        } else {
            i - 4
        };
        let b = bytes[j / 2];
        let n: u8 = if j % 2 == 0 { (b / 16) as u8 } else { (b % 16) as u8 };
        assert(n < 16);
        assert(t[i] == hex_lower(n));
    }
}

/// Calls `uuid::Uuid::new_v4` and takes its bytes (`into_bytes`). They are
/// random, except that `new_v4` sets the version nibble to 4 and the variant
/// bits to `10`; that is all the contract states.
#[verifier::external_body]
pub(crate) fn random_uuid_bytes() -> (bytes: [u8; 16])
    ensures
        bytes@[6] / 16 == 4,
        bytes@[8] / 64 == 2,
{
    uuid::Uuid::new_v4().into_bytes()
}

/// Calls the `Display` impl of `uuid::Uuid::from_bytes(bytes)` (through
/// `to_string`), which writes the bytes' lower-case hexadecimal digits in
/// order, hyphenated after the 4th, 6th, 8th and 10th bytes.
#[verifier::external_body]
pub(crate) fn uuid_text(bytes: [u8; 16]) -> (text: String)
    ensures
        text@ == uuid_hyphenated(bytes@),
{
    uuid::Uuid::from_bytes(bytes).to_string()
}

/// Sixteen bytes of a version-4 UUID: the version nibble is 4 and the
/// variant bits are `10`.
pub open spec fn is_version4_bytes(bytes: Seq<u8>) -> bool {
    &&& bytes.len() == 16
    &&& bytes[6] / 16 == 4
    &&& bytes[8] / 64 == 2
}

/// Unique identifier for an individual tool execution: the sixteen bytes of a
/// version-4 UUID.
#[derive(Debug, Clone, Copy, PartialEq, Eq, Hash)]
pub struct ExecutionId([u8; 16]);

impl View for ExecutionId {
    type V = Seq<u8>;

    closed spec fn view(&self) -> Seq<u8> {
        self.0@
    }
}

impl ExecutionId {
    /// A fresh random version-4 identifier.
    pub fn new() -> (id: Self)
        ensures
            is_version4_bytes(id@),
    {
        let bytes = random_uuid_bytes();
        ExecutionId(bytes)
    }

    /// The identifier's sixteen bytes.
    pub fn as_bytes(&self) -> (bytes: [u8; 16])
        ensures
            bytes@ == self@,
    {
        self.0
    }

    /// The identifier in hyphenated lower-case form.
    pub fn text(&self) -> (text: String)
        ensures
            text@ == uuid_hyphenated(self@),
    {
        uuid_text(self.0)
    }
}

impl Default for ExecutionId {
    /// A fresh random version-4 identifier.
    fn default() -> (id: Self)
        ensures
            is_version4_bytes(id@),
    {
        ExecutionId::new()
    }
}

/// High-level outcome of an operation.
#[derive(Debug, Clone, Copy, PartialEq, Eq, Structural)]
pub enum OperationStatus {
    Success,
    PartialSuccess,
    Failed,
    Cancelled,
    TimedOut,
    Denied,
    RequiresAuthorization,
}

} // verus!
