//! What can go wrong while a gating condition is checked.

use vstd::prelude::*;
use vstd::string::*;

verus! {

/// Why a gating condition could not be evaluated.
#[derive(Clone, Copy, Debug, PartialEq, Eq, Structural)]
pub enum ConditionError {
    /// The contract address is not forty hexadecimal digits.
    InvalidAddress,
    /// The function signature holds no `()`.
    MissingParentheses,
    /// Something other than a parenthesised return type follows the `()`.
    InvalidSignature,
    /// The return type's parentheses are empty or blank.
    EmptyReturnType,
    /// The call could not be ABI-encoded.
    AbiEncode,
    /// The return data could not be ABI-decoded as the declared type.
    AbiDecode,
    /// The declared return type is neither `bool` nor `uint256`.
    UnsupportedReturnType,
    /// The expected value does not fit the declared return type.
    InvalidExpectedValue,
}

impl ConditionError {
    /// The sentence that tells of the error in logs and reports.
    pub open spec fn spec_message(self) -> Seq<char> {
        match self {
            ConditionError::InvalidAddress => "contract address is not a 20-byte hexadecimal address"@,
            ConditionError::MissingParentheses => "function signature must contain '()'"@,
            ConditionError::InvalidSignature => "invalid function signature format, expected 'funcName()' or 'funcName() (returnType)'"@,
            ConditionError::EmptyReturnType => "empty return type specification in function signature"@,
            ConditionError::AbiEncode => "the call could not be ABI-encoded"@,
            ConditionError::AbiDecode => "the return data could not be ABI-decoded"@,
            ConditionError::UnsupportedReturnType => "unsupported or mismatched return type"@,
            ConditionError::InvalidExpectedValue => "expected value does not fit the declared return type"@,
        }
    }

    /// A sentence for logs and reports.
    pub fn message(&self) -> (r: String)
        ensures
            r@ == self.spec_message(),
    {
        let text: &str = match self {
            ConditionError::InvalidAddress => "contract address is not a 20-byte hexadecimal address",
            ConditionError::MissingParentheses => "function signature must contain '()'",
            ConditionError::InvalidSignature => "invalid function signature format, expected 'funcName()' or 'funcName() (returnType)'",
            ConditionError::EmptyReturnType => "empty return type specification in function signature",
            ConditionError::AbiEncode => "the call could not be ABI-encoded",
            ConditionError::AbiDecode => "the return data could not be ABI-decoded",
            ConditionError::UnsupportedReturnType => "unsupported or mismatched return type",
            ConditionError::InvalidExpectedValue => "expected value does not fit the declared return type",
        };
        String::from_str(text)
    }
}

} // verus!
