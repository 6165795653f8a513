//! The eight payload bytes of a marshalled operand, and how booleans and
//! numbers lie in bytes.
//!
//! A boolean takes one byte, 1 for true and 0 for false. A 32-bit number
//! takes four bytes, least significant first; a signed one is stored in
//! two's complement. Payload bytes that a member does not use are 0.

use vstd::prelude::*;

verus! {

/// Number of bytes in the payload of a marshalled operand.
pub const PAYLOAD_SIZE: usize = 8;

/// The byte that stands for a boolean.
pub open spec fn bool_byte(b: bool) -> u8 {
    if b {
        1
    } else {
        0
    }
}

/// The boolean that a byte stands for: every nonzero byte reads as true.
pub open spec fn byte_bool(byte: u8) -> bool {
    byte != 0
}

/// The four bytes of a 32-bit number, least significant first.
pub open spec fn word_bytes(word: u32) -> Seq<u8> {
    seq![
        (word % 256) as u8,
        (word / 256 % 256) as u8,
        (word / 65536 % 256) as u8,
        (word / 16777216) as u8,
    ]
}

/// The 32-bit number whose bytes, least significant first, are `bytes[at]`
/// to `bytes[at + 3]`.
pub open spec fn bytes_word(bytes: Seq<u8>, at: int) -> u32 {
    (bytes[at] + 256 * bytes[at + 1] + 65536 * bytes[at + 2] + 16777216 * bytes[at + 3]) as u32
}

/// The 16-bit number whose bytes, least significant first, are `bytes[at]`
/// and `bytes[at + 1]`.
pub open spec fn bytes_half_word(bytes: Seq<u8>, at: int) -> u32 {
    (bytes[at] + 256 * bytes[at + 1]) as u32
}

/// The unsigned number with the same 32 bits as `value`.
pub open spec fn signed_word(value: i32) -> u32 {
    if value >= 0 {
        value as u32
    } else {
        (value + 0x1_0000_0000) as u32
    }
}

/// The signed number with the same 32 bits as `word`.
pub open spec fn word_signed(word: u32) -> i32 {
    if word < 0x8000_0000 {
        word as i32
    } else {
        (word - 0x1_0000_0000) as i32
    }
}

/// A signed number survives the passage through its 32 bits.
pub proof fn lemma_signed_round_trip(value: i32)
    ensures
        word_signed(signed_word(value)) == value,
{
}

/// The payload of a marshalled operand: eight bytes, whose meaning the
/// operand's kind decides.
#[derive(Clone, Copy, Debug, PartialEq, Eq)]
pub struct ArgumentValue {
    pub bytes: [u8; 8],
}

impl View for ArgumentValue {
    type V = Seq<u8>;

    open spec fn view(&self) -> Seq<u8> {
        self.bytes@
    }
}

pub(crate) fn bool_to_byte(b: bool) -> (byte: u8)
    ensures
        byte == bool_byte(b),
{
    if b {
        1
    } else {
        0
    }
}

pub(crate) fn signed_to_word(value: i32) -> (word: u32)
    ensures
        word == signed_word(value),
{
    assert(value as u32 == signed_word(value)) by (bit_vector);
    value as u32
}

pub(crate) fn word_to_signed(word: u32) -> (value: i32)
    ensures
        value == word_signed(word),
{
    assert(word as i32 == word_signed(word)) by (bit_vector);
    word as i32
}

impl ArgumentValue {
    /// A payload that holds one byte, then zeros.
    pub fn from_byte(byte: u8) -> (value: ArgumentValue)
        ensures
            value@ == seq![byte, 0u8, 0u8, 0u8, 0u8, 0u8, 0u8, 0u8],
    {
        ArgumentValue { bytes: [byte, 0, 0, 0, 0, 0, 0, 0] }
    }

    /// A payload that holds a 32-bit number and, behind it, one byte.
    pub fn from_word_and_byte(word: u32, byte: u8) -> (value: ArgumentValue)
        ensures
            value@ == word_bytes(word) + seq![byte, 0u8, 0u8, 0u8],
    {
        let value = ArgumentValue {
            bytes: [
                (word % 256) as u8,
                (word / 256 % 256) as u8,
                (word / 65536 % 256) as u8,
                (word / 16777216) as u8,
                byte,
                0,
                0,
                0,
            ],
        };
        assert(value@ =~= word_bytes(word) + seq![byte, 0u8, 0u8, 0u8]);
        value
    }

    /// A payload that holds a 32-bit number, then zeros.
    pub fn from_word(word: u32) -> (value: ArgumentValue)
        ensures
            value@ == word_bytes(word) + seq![0u8, 0u8, 0u8, 0u8],
    {
        ArgumentValue::from_word_and_byte(word, 0)
    }

    /// A payload that holds a signed 32-bit number, then zeros.
    pub fn from_signed(number: i32) -> (value: ArgumentValue)
        ensures
            value@ == word_bytes(signed_word(number)) + seq![0u8, 0u8, 0u8, 0u8],
    {
        ArgumentValue::from_word_and_byte(signed_to_word(number), 0)
    }

    /// The 32-bit number in the first four bytes.
    pub fn word(&self) -> (word: u32)
        ensures
            word == bytes_word(self@, 0),
    {
        self.word_at(0)
    }

    /// The signed 32-bit number in the first four bytes.
    pub fn signed(&self) -> (number: i32)
        ensures
            number == word_signed(bytes_word(self@, 0)),
    {
        word_to_signed(self.word_at(0))
    }

    /// The 32-bit number in the four bytes from `at` on.
    pub(crate) fn word_at(&self, at: usize) -> (word: u32)
        requires
            at + 4 <= PAYLOAD_SIZE,
        ensures
            word == bytes_word(self@, at as int),
    {
        let b0: u32 = self.bytes[at] as u32;
        let b1: u32 = self.bytes[at + 1] as u32;
        let b2: u32 = self.bytes[at + 2] as u32;
        let b3: u32 = self.bytes[at + 3] as u32;
        b0 + 256 * b1 + 65536 * b2 + 16777216 * b3
    }
}

} // verus!
