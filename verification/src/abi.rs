//! The contract ABI surface: hexadecimal addresses, calls without arguments,
//! and return data of one `bool` or `uint256` word.
//!
//! Parsing, encoding and decoding are the work of the `alloy` crate. The
//! functions at the end of this file call it; their contracts are taken on
//! trust from its source and are what the rest of the library reasons from.

use crate::text::{all_digits, digits_value};
use crate::uint::{limbs_value, two_pow_256};
use alloy::dyn_abi::{DynSolValue, FunctionExt, JsonAbiExt};
use alloy::json_abi::{Function, Param, StateMutability};
use vstd::prelude::*;

verus! {

/// The Solidity type name `bool`.
pub open spec fn bool_type() -> Seq<char> {
    seq!['b', 'o', 'o', 'l']
}

/// The Solidity type name `uint256`.
pub open spec fn uint256_type() -> Seq<char> {
    seq!['u', 'i', 'n', 't', '2', '5', '6']
}

/// Whether `c` is one of `0-9`, `a-f`, `A-F`.
pub open spec fn is_hex_digit(c: char) -> bool {
    ||| 0x30 <= c as u32 <= 0x39
    ||| 0x61 <= c as u32 <= 0x66
    ||| 0x41 <= c as u32 <= 0x46
}

/// The value, 0 to 15, of a hexadecimal digit.
pub open spec fn hex_digit_value(c: char) -> nat {
    if 0x30 <= c as u32 <= 0x39 {
        (c as u32 - 0x30) as nat
    } else if 0x61 <= c as u32 <= 0x66 {
        (c as u32 - 0x61 + 10) as nat
    } else {
        (c as u32 - 0x41 + 10) as nat
    }
}

/// `text` without one leading `0x` or `0X`, if it has one.
pub open spec fn strip_hex_prefix(text: Seq<char>) -> Seq<char> {
    if text.len() >= 2 && text[0] == '0' && (text[1] == 'x' || text[1] == 'X') {
        text.skip(2)
    } else {
        text
    }
}

/// Whether `text` writes a 20-byte address: forty hexadecimal digits, with or
/// without a `0x` prefix.
pub open spec fn is_address_text(text: Seq<char>) -> bool {
    let digits = strip_hex_prefix(text);
    &&& digits.len() == 40
    &&& forall|i: int| 0 <= i < 40 ==> is_hex_digit(#[trigger] digits[i])
}

/// The bytes that an even number of hexadecimal digits write, two digits a byte.
pub open spec fn hex_bytes(digits: Seq<char>) -> Seq<u8> {
    Seq::new(
        digits.len() / 2,
        |i: int| (16 * hex_digit_value(digits[2 * i]) + hex_digit_value(digits[2 * i + 1])) as u8,
    )
}

/// The twenty bytes of the address that `text` writes.
pub open spec fn address_bytes(text: Seq<char>) -> Seq<u8> {
    hex_bytes(strip_hex_prefix(text))
}

/// The number that `bytes` write, most significant byte first.
pub open spec fn be_value(bytes: Seq<u8>) -> nat
    decreases bytes.len(),
{
    if bytes.len() == 0 {
        0
    } else {
        be_value(bytes.drop_last()) * 256 + bytes.last() as nat
    }
}

/// Whether every byte of `bytes` is zero.
pub open spec fn all_zero(bytes: Seq<u8>) -> bool {
    forall|i: int| 0 <= i < bytes.len() ==> #[trigger] bytes[i] == 0
}

/// Whether the 32-byte `word` is a `bool` as a contract encodes it: zero or
/// one.
pub open spec fn is_bool_word(word: Seq<u8>) -> bool {
    &&& word.len() == 32
    &&& forall|i: int| 0 <= i < 31 ==> #[trigger] word[i] == 0
    &&& word[31] <= 1
}

/// A value decoded from return data, as far as the keeper reads it.
#[derive(Clone, Copy, Debug)]
pub enum AbiValue {
    /// A `bool`.
    Bool(bool),
    /// An unsigned integer in four 64-bit limbs, least significant first.
    Uint([u64; 4]),
    /// Any value of another type.
    Other,
}

/// Whether `value` is what the 32-byte `word` holds when read as
/// `return_type`, which is `bool` or `uint256`: a `bool` is true unless the
/// word is all zero, a `uint256` is the word as a big-endian number.
pub open spec fn is_word_value(value: AbiValue, return_type: Seq<char>, word: Seq<u8>) -> bool {
    if return_type == bool_type() {
        value == AbiValue::Bool(!all_zero(word))
    } else {
        value matches AbiValue::Uint(limbs) && limbs_value(limbs@) == be_value(word)
    }
}

/// The call data of the call without arguments of the function `name`: the
/// function's four-byte selector. What the function returns has no part in
/// it.
pub uninterp spec fn zero_arg_call_data(name: Seq<char>) -> Seq<u8>;

/// Parses a contract address with `alloy::primitives::Address`'s `FromStr`.
///
/// Trusted: the parse succeeds exactly on forty hexadecimal digits of either
/// case after an optional `0x` or `0X`, and yields the bytes they write.
#[verifier::external_body]
pub(crate) fn parse_address(text: &str) -> (r: Option<[u8; 20]>)
    ensures
        r is Some <==> is_address_text(text@),
        r matches Some(bytes) ==> bytes@ == address_bytes(text@),
{
    match text.parse::<alloy::primitives::Address>() {
        Ok(address) => Some(address.into_array()),
        Err(_) => None,
    }
}

/// Parses a decimal number with `alloy::primitives::U256::from_str_radix`,
/// radix 10.
///
/// Trusted: on a text of one or more digits `0-9` the parse succeeds exactly
/// if the number they write is below two to the power 256, and yields that
/// number.
#[verifier::external_body]
pub(crate) fn parse_decimal_u256(text: &str) -> (r: Option<[u64; 4]>)
    requires
        text@.len() > 0,
        all_digits(text@),
    ensures
        r is Some <==> digits_value(text@) < two_pow_256(),
        r matches Some(limbs) ==> limbs_value(limbs@) == digits_value(text@),
{
    match alloy::primitives::U256::from_str_radix(text, 10) {
        Ok(n) => Some(n.into_limbs()),
        Err(_) => None,
    }
}

/// Encodes the call without arguments of a view function with
/// `JsonAbiExt::abi_encode_input` of `alloy`.
///
/// Trusted: with no inputs declared and none given the encoding succeeds,
/// and its result is four bytes that depend on the function's name alone,
/// not on the declared output.
#[verifier::external_body]
pub(crate) fn encode_zero_arg_call(name: &str, return_type: &str) -> (r: Option<Vec<u8>>)
    ensures
        r is Some,
        r matches Some(data) ==> data@ == zero_arg_call_data(name@),
        r matches Some(data) ==> data@.len() == 4,
{
    let output = Param { ty: return_type.to_string(), ..Default::default() };
    let function = Function {
        name: name.to_string(),
        inputs: vec![],
        outputs: vec![output],
        state_mutability: StateMutability::View,
    };
    function.abi_encode_input(&[]).ok()
}

/// Decodes return data against one declared output with
/// `FunctionExt::abi_decode_output` of `alloy`, validation on.
///
/// Trusted: for the output types `bool` and `uint256` the decoding fails on
/// fewer than 32 bytes and otherwise yields one value read from the first 32
/// bytes, whatever follows them: a `bool` that is false only for the all-zero
/// word, or the word as a big-endian number.
#[verifier::external_body]
pub(crate) fn decode_single_output(name: &str, return_type: &str, data: &[u8]) -> (r: Option<
    Vec<AbiValue>,
>)
    requires
        return_type@ == bool_type() || return_type@ == uint256_type(),
    ensures
        r is Some <==> data@.len() >= 32,
        r matches Some(values) ==> values@.len() == 1 && is_word_value(
            values@[0],
            return_type@,
            data@.subrange(0, 32),
        ),
{
    let output = Param { ty: return_type.to_string(), ..Default::default() };
    let function = Function {
        name: name.to_string(),
        inputs: vec![],
        outputs: vec![output],
        state_mutability: StateMutability::View,
    };
    let values = function.abi_decode_output(data, true).ok()?;
    Some(values.iter().map(|v| match v {
        DynSolValue::Bool(b) => AbiValue::Bool(*b),
        DynSolValue::Uint(n, _) => AbiValue::Uint(n.into_limbs()),
        _ => AbiValue::Other,
    }).collect())
}

} // verus!
