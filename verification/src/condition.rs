//! Gating conditions: a boolean precondition read from a live contract.
//!
//! A condition names a contract, a getter without arguments and the value the
//! getter must return. Checking one takes a round trip to the chain, which
//! the caller makes: `prepare_call` says what to ask, `check_condition` judges
//! the answer.

use crate::abi::{
    address_bytes, all_zero, be_value, bool_type, decode_single_output, encode_zero_arg_call,
    is_bool_word, is_address_text, parse_address, parse_decimal_u256, uint256_type,
    zero_arg_call_data, AbiValue,
};
use crate::error::ConditionError;
use crate::text::{
    all_digits, digits_value, is_blank, lemma_trim_empty_iff_blank, only_digits, same_text, trim,
    trimmed,
};
use crate::uint::{two_pow_256, U256};
use vstd::prelude::*;
use vstd::string::*;

verus! {

/// The value a getter is expected to return, as the configuration gives it.
#[derive(Clone, Debug, PartialEq, Eq)]
pub enum ExpectedValue {
    /// A boolean.
    Bool(bool),
    /// A string; for a `uint256` getter, the number in decimal.
    Text(String),
    /// Anything else: null, a bare number, a list, a map.
    Other,
}

/// A gating condition on a contract.
#[derive(Clone, Debug, PartialEq, Eq)]
pub enum CheckCondition {
    /// The getter `property` returns a `bool`.
    Property { contract_address: String, property: String, expected_value: ExpectedValue },
    /// `function` is a signature, `name()` or `name() (type)`.
    Function { contract_address: String, function: String, expected_value: ExpectedValue },
}

/// A read-only call to make: the contract and the call data.
#[derive(Clone, Debug, PartialEq, Eq)]
pub struct ContractCall {
    pub to: [u8; 20],
    pub data: Vec<u8>,
}

/// The position of the first `()` of `s` at or after `from`, if there is one.
pub open spec fn find_call_parens(s: Seq<char>, from: int) -> Option<int>
    decreases s.len() - from,
{
    if from < 0 || from + 1 >= s.len() {
        None
    } else if s[from] == '(' && s[from + 1] == ')' {
        Some(from)
    } else {
        find_call_parens(s, from + 1)
    }
}

/// The function name and return type that `signature` declares.
///
/// White space does not count around the signature, around the name, around
/// what follows the first `()`, and around the return type within its
/// parentheses. The name is what stands before the first `()`. Nothing after
/// it means `bool`; otherwise a return type in parentheses must follow, and
/// it may not be blank.
pub open spec fn parsed_signature(signature: Seq<char>) -> Result<
    (Seq<char>, Seq<char>),
    ConditionError,
> {
    let s = trim(signature);
    match find_call_parens(s, 0) {
        None => Err(ConditionError::MissingParentheses),
        Some(at) => {
            let rest = trim(s.skip(at + 2));
            if rest.len() == 0 {
                Ok((trim(s.take(at)), bool_type()))
            } else if rest.first() == '(' && rest.last() == ')' {
                let inner = rest.subrange(1, rest.len() - 1);
                if is_blank(inner) {
                    Err(ConditionError::EmptyReturnType)
                } else {
                    Ok((trim(s.take(at)), trim(inner)))
                }
            } else {
                Err(ConditionError::InvalidSignature)
            }
        },
    }
}

/// Where `find_call_parens` finds a `()`, it is the first one.
pub proof fn lemma_find_call_parens(s: Seq<char>, from: int)
    requires
        0 <= from,
    ensures
        match find_call_parens(s, from) {
            Some(at) => {
                &&& from <= at
                &&& at + 1 < s.len()
                &&& s[at] == '('
                &&& s[at + 1] == ')'
                &&& forall|j: int| from <= j < at ==> !(s[j] == '(' && #[trigger] s[j + 1] == ')')
            },
            None => forall|j: int|
                from <= j && j + 1 < s.len() ==> !(s[j] == '(' && #[trigger] s[j + 1] == ')'),
        },
    decreases s.len() - from,
{
    if from + 1 < s.len() && !(s[from] == '(' && s[from + 1] == ')') {
        lemma_find_call_parens(s, from + 1);
    }
}

/// What the 32-byte return word means for a `bool` getter expected to give
/// `expected`. A word that is neither zero nor one is no `bool`: what sent it
/// does not return the type declared.
pub open spec fn bool_outcome(response: Seq<u8>, expected: ExpectedValue) -> Result<
    bool,
    ConditionError,
> {
    if response.len() < 32 || !is_bool_word(response.subrange(0, 32)) {
        Err(ConditionError::AbiDecode)
    } else {
        match expected {
            ExpectedValue::Bool(e) => Ok((response[31] == 1) == e),
            _ => Err(ConditionError::InvalidExpectedValue),
        }
    }
}

/// Whether `text` writes an unsigned 256-bit number in decimal: digits, at
/// least one, whose value is below two to the power 256.
pub open spec fn is_uint256_number(text: Seq<char>) -> bool {
    text.len() > 0 && all_digits(text) && digits_value(text) < two_pow_256()
}

/// What the 32-byte return word means for a `uint256` getter expected to
/// give `expected`, which has to be a number written as a string.
pub open spec fn uint256_outcome(response: Seq<u8>, expected: ExpectedValue) -> Result<
    bool,
    ConditionError,
> {
    if response.len() < 32 {
        Err(ConditionError::AbiDecode)
    } else {
        match expected {
            ExpectedValue::Text(t) => if is_uint256_number(t@) {
                Ok(be_value(response.subrange(0, 32)) == digits_value(t@))
            } else {
                Err(ConditionError::InvalidExpectedValue)
            },
            _ => Err(ConditionError::InvalidExpectedValue),
        }
    }
}

/// The outcome of a `Property` condition whose call returned `response`.
pub open spec fn property_outcome(
    contract_address: Seq<char>,
    expected: ExpectedValue,
    response: Seq<u8>,
) -> Result<bool, ConditionError> {
    if !is_address_text(contract_address) {
        Err(ConditionError::InvalidAddress)
    } else {
        bool_outcome(response, expected)
    }
}

/// The outcome of a `Function` condition whose call returned `response`.
pub open spec fn function_outcome(
    contract_address: Seq<char>,
    function: Seq<char>,
    expected: ExpectedValue,
    response: Seq<u8>,
) -> Result<bool, ConditionError> {
    if !is_address_text(contract_address) {
        Err(ConditionError::InvalidAddress)
    } else {
        match parsed_signature(function) {
            Err(e) => Err(e),
            Ok((_, return_type)) => if return_type == bool_type() {
                bool_outcome(response, expected)
            } else if return_type == uint256_type() {
                uint256_outcome(response, expected)
            } else {
                Err(ConditionError::UnsupportedReturnType)
            },
        }
    }
}

/// The outcome of `condition` when its call returned `response`.
pub open spec fn condition_outcome(condition: CheckCondition, response: Seq<u8>) -> Result<
    bool,
    ConditionError,
> {
    match condition {
        CheckCondition::Property { contract_address, property, expected_value } => property_outcome(
            contract_address@,
            expected_value,
            response,
        ),
        CheckCondition::Function { contract_address, function, expected_value } => function_outcome(
            contract_address@,
            function@,
            expected_value,
            response,
        ),
    }
}

/// The getter that a `Property` condition reads: `property` itself, returning
/// `bool`, provided the address is one.
pub open spec fn property_getter(contract_address: Seq<char>, property: Seq<char>) -> Result<
    (Seq<char>, Seq<char>),
    ConditionError,
> {
    if is_address_text(contract_address) {
        Ok((property, bool_type()))
    } else {
        Err(ConditionError::InvalidAddress)
    }
}

/// The getter that a `Function` condition reads: what the signature declares,
/// provided the address is one.
pub open spec fn function_getter(contract_address: Seq<char>, function: Seq<char>) -> Result<
    (Seq<char>, Seq<char>),
    ConditionError,
> {
    if is_address_text(contract_address) {
        parsed_signature(function)
    } else {
        Err(ConditionError::InvalidAddress)
    }
}

/// The getter's name and declared return type, where `condition` is well formed.
pub open spec fn condition_getter(condition: CheckCondition) -> Result<
    (Seq<char>, Seq<char>),
    ConditionError,
> {
    match condition {
        CheckCondition::Property { contract_address, property, expected_value } => property_getter(
            contract_address@,
            property@,
        ),
        CheckCondition::Function { contract_address, function, expected_value } => function_getter(
            contract_address@,
            function@,
        ),
    }
}

/// The contract address that `condition` names.
pub open spec fn condition_address(condition: CheckCondition) -> Seq<char> {
    match condition {
        CheckCondition::Property { contract_address, property, expected_value } => contract_address@,
        CheckCondition::Function { contract_address, function, expected_value } => contract_address@,
    }
}

/// Whether `call` is the call without arguments of the getter `name` on the
/// contract at `contract_address`: it goes to the address written there, and
/// its data are the four bytes that select the getter.
pub open spec fn is_getter_call(
    call: ContractCall,
    contract_address: Seq<char>,
    name: Seq<char>,
) -> bool {
    &&& call.to@ == address_bytes(contract_address)
    &&& call.data@ == zero_arg_call_data(name)
    &&& call.data@.len() == 4
}

/// Whether `r` plans the call of `getter` on the contract at
/// `contract_address`: the call itself where there is a getter, and else the
/// reason why there is none.
pub open spec fn is_planned_call(
    r: Result<ContractCall, ConditionError>,
    contract_address: Seq<char>,
    getter: Result<(Seq<char>, Seq<char>), ConditionError>,
) -> bool {
    match getter {
        Ok((name, _)) => r matches Ok(call) && is_getter_call(call, contract_address, name),
        Err(e) => r matches Err(x) && x == e,
    }
}

/// Whether every one of a feed's conditions was checked and found to hold.
/// A condition that does not hold, or that could not be checked, blocks the
/// update.
pub open spec fn all_met(outcomes: Seq<Result<bool, ConditionError>>) -> bool {
    forall|i: int|
        0 <= i < outcomes.len() ==> #[trigger] outcomes[i] == Ok::<bool, ConditionError>(true)
}

/// Evaluates gating conditions against a contract.
pub struct ConditionChecker;

/// The position of the first `()` in `s`.
fn first_call_parens(s: &str) -> (r: Option<usize>)
    ensures
        match r {
            Some(at) => find_call_parens(s@, 0) == Some(at as int),
            None => find_call_parens(s@, 0) is None,
        },
{
    let n: usize = s.unicode_len();
    let mut i: usize = 0;
    while i < n && i + 1 < n
        invariant
            i <= n,
            n == s@.len(),
            find_call_parens(s@, 0) == find_call_parens(s@, i as int),
        decreases n - i,
    {
        if s.get_char(i) == '(' && s.get_char(i + 1) == ')' {
            return Some(i);
        }
        i += 1;
    }
    None
}

/// Whether the first 32 bytes of `response` are zero or one.
fn starts_with_bool_word(response: &[u8]) -> (r: bool)
    requires
        response@.len() >= 32,
    ensures
        r == is_bool_word(response@.subrange(0, 32)),
{
    let ghost word = response@.subrange(0, 32);
    let mut i: usize = 0;
    while i < 31
        invariant
            i <= 31,
            response@.len() >= 32,
            word == response@.subrange(0, 32),
            forall|j: int| 0 <= j < i ==> #[trigger] word[j] == 0,
        decreases 31 - i,
    {
        if response[i] != 0 {
            assert(word[i as int] != 0);
            return false;
        }
        i += 1;
    }
    assert(word[31] == response@[31]);
    response[31] <= 1
}

/// Judges the return data of a `bool` getter.
fn judge_bool(name: &str, response: &[u8], expected_value: &ExpectedValue) -> (r: Result<
    bool,
    ConditionError,
>)
    ensures
        r == bool_outcome(response@, *expected_value),
{
    proof {
        reveal_strlit("bool");
        assert("bool"@ =~= bool_type());
    }
    match decode_single_output(name, "bool", response) {
        None => Err(ConditionError::AbiDecode),
        Some(values) => match values[0] {
            AbiValue::Bool(actual) => {
                // The decoder reads every word but zero as true.
                if !starts_with_bool_word(response) {
                    return Err(ConditionError::AbiDecode);
                }
                proof {
                    let word = response@.subrange(0, 32);
                    assert(word[31] == response@[31]);
                    if word[31] == 0 {
                        assert(all_zero(word));
                    }
                }
                match expected_value {
                    ExpectedValue::Bool(expected) => Ok(actual == *expected),
                    _ => Err(ConditionError::InvalidExpectedValue),
                }
            },
            _ => Err(ConditionError::AbiDecode),
        },
    }
}

/// Judges the return data of a `uint256` getter.
fn judge_uint256(name: &str, response: &[u8], expected_value: &ExpectedValue) -> (r: Result<
    bool,
    ConditionError,
>)
    ensures
        r == uint256_outcome(response@, *expected_value),
{
    proof {
        reveal_strlit("uint256");
        assert("uint256"@ =~= uint256_type());
        assert(uint256_type() != bool_type());
    }
    match decode_single_output(name, "uint256", response) {
        None => Err(ConditionError::AbiDecode),
        Some(values) => match values[0] {
            AbiValue::Uint(actual) => match expected_value {
                ExpectedValue::Text(text) => {
                    if text.as_str().unicode_len() == 0 || !only_digits(text.as_str()) {
                        return Err(ConditionError::InvalidExpectedValue);
                    }
                    match parse_decimal_u256(text.as_str()) {
                        Some(expected) => Ok(
                            U256::from_limbs(actual).equals(&U256::from_limbs(expected)),
                        ),
                        None => Err(ConditionError::InvalidExpectedValue),
                    }
                },
                _ => Err(ConditionError::InvalidExpectedValue),
            },
            _ => Err(ConditionError::AbiDecode),
        },
    }
}

impl ConditionChecker {
    /// Splits a function signature, `name()` or `name() (type)`, into the
    /// function's name and its return type.
    pub fn parse_function_signature(signature: &str) -> (r: Result<
        (String, String),
        ConditionError,
    >)
        ensures
            match parsed_signature(signature@) {
                Ok((name, return_type)) => r matches Ok((n, t)) && n@ == name && t@ == return_type,
                Err(e) => r matches Err(x) && x == e,
            },
    {
        let s: &str = trimmed(signature);
        let n: usize = s.unicode_len();
        match first_call_parens(s) {
            None => Err(ConditionError::MissingParentheses),
            Some(at) => {
                proof {
                    lemma_find_call_parens(s@, 0);
                    assert(s@.take(at as int) =~= s@.subrange(0, at as int));
                    assert(s@.skip(at + 2) =~= s@.subrange(at + 2, n as int));
                }
                let func_name: &str = trimmed(s.substring_char(0, at));
                let rest: &str = trimmed(s.substring_char(at + 2, n));
                let m: usize = rest.unicode_len();
                if m == 0 {
                    proof {
                        reveal_strlit("bool");
                        assert("bool"@ =~= bool_type());
                    }
                    Ok((String::from_str(func_name), String::from_str("bool")))
                } else if rest.get_char(0) == '(' && rest.get_char(m - 1) == ')' {
                    let inner: &str = rest.substring_char(1, m - 1);
                    proof {
                        lemma_trim_empty_iff_blank(inner@);
                    }
                    let return_type: &str = trimmed(inner);
                    if return_type.unicode_len() == 0 {
                        Err(ConditionError::EmptyReturnType)
                    } else {
                        Ok((String::from_str(func_name), String::from_str(return_type)))
                    }
                } else {
                    Err(ConditionError::InvalidSignature)
                }
            },
        }
    }

    /// The call that a `Property` condition asks for.
    pub fn property_call(contract_address: &str, property: &str) -> (r: Result<
        ContractCall,
        ConditionError,
    >)
        ensures
            is_planned_call(r, contract_address@, property_getter(contract_address@, property@)),
    {
        let to: [u8; 20] = match parse_address(contract_address) {
            Some(bytes) => bytes,
            None => {
                return Err(ConditionError::InvalidAddress);
            },
        };
        proof {
            reveal_strlit("bool");
            assert("bool"@ =~= bool_type());
        }
        match encode_zero_arg_call(property, "bool") {
            Some(data) => Ok(ContractCall { to, data }),
            None => Err(ConditionError::AbiEncode),
        }
    }

    /// Judges a `Property` condition by the data that its call returned: the
    /// getter's `bool` must equal the expected boolean.
    pub fn check_property(
        contract_address: &str,
        property: &str,
        expected_value: &ExpectedValue,
        response: &[u8],
    ) -> (r: Result<bool, ConditionError>)
        ensures
            r == property_outcome(contract_address@, *expected_value, response@),
    {
        if parse_address(contract_address).is_none() {
            return Err(ConditionError::InvalidAddress);
        }
        judge_bool(property, response, expected_value)
    }

    /// The call that a `Function` condition asks for.
    pub fn function_call(contract_address: &str, function: &str) -> (r: Result<
        ContractCall,
        ConditionError,
    >)
        ensures
            is_planned_call(r, contract_address@, function_getter(contract_address@, function@)),
    {
        let to: [u8; 20] = match parse_address(contract_address) {
            Some(bytes) => bytes,
            None => {
                return Err(ConditionError::InvalidAddress);
            },
        };
        let (func_name, return_type) = match ConditionChecker::parse_function_signature(function) {
            Ok(parts) => parts,
            Err(e) => {
                return Err(e);
            },
        };
        match encode_zero_arg_call(func_name.as_str(), return_type.as_str()) {
            Some(data) => Ok(ContractCall { to, data }),
            None => Err(ConditionError::AbiEncode),
        }
    }

    /// Judges a `Function` condition by the data that its call returned. A
    /// `bool` getter is compared with the expected boolean, a `uint256` getter
    /// with the expected decimal string; no other return type is evaluated.
    pub fn check_function(
        contract_address: &str,
        function: &str,
        expected_value: &ExpectedValue,
        response: &[u8],
    ) -> (r: Result<bool, ConditionError>)
        ensures
            r == function_outcome(contract_address@, function@, *expected_value, response@),
    {
        if parse_address(contract_address).is_none() {
            return Err(ConditionError::InvalidAddress);
        }
        let (func_name, return_type) = match ConditionChecker::parse_function_signature(function) {
            Ok(parts) => parts,
            Err(e) => {
                return Err(e);
            },
        };
        proof {
            reveal_strlit("bool");
            reveal_strlit("uint256");
            assert("bool"@ =~= bool_type());
            assert("uint256"@ =~= uint256_type());
        }
        if same_text(return_type.as_str(), "bool") {
            judge_bool(func_name.as_str(), response, expected_value)
        } else if same_text(return_type.as_str(), "uint256") {
            judge_uint256(func_name.as_str(), response, expected_value)
        } else {
            Err(ConditionError::UnsupportedReturnType)
        }
    }

    /// Whether all of a feed's conditions hold, given the outcome of each.
    pub fn conditions_met(outcomes: &Vec<Result<bool, ConditionError>>) -> (r: bool)
        ensures
            r == all_met(outcomes@),
    {
        let n: usize = outcomes.len();
        let mut i: usize = 0;
        while i < n
            invariant
                i <= n,
                n == outcomes@.len(),
                forall|j: int|
                    0 <= j < i ==> #[trigger] outcomes@[j] == Ok::<bool, ConditionError>(true),
            decreases n - i,
        {
            match outcomes[i] {
                Ok(true) => {},
                _ => {
                    return false;
                },
            }
            i += 1;
        }
        true
    }

    /// The call that `condition` asks for, or why there is none to make.
    pub fn prepare_call(condition: &CheckCondition) -> (r: Result<ContractCall, ConditionError>)
        ensures
            is_planned_call(r, condition_address(*condition), condition_getter(*condition)),
    {
        match condition {
            CheckCondition::Property { contract_address, property, expected_value } => {
                ConditionChecker::property_call(contract_address.as_str(), property.as_str())
            },
            CheckCondition::Function { contract_address, function, expected_value } => {
                ConditionChecker::function_call(contract_address.as_str(), function.as_str())
            },
        }
    }

    /// Whether `condition` holds, judged by the data that its call returned.
    pub fn check_condition(condition: &CheckCondition, response: &[u8]) -> (r: Result<
        bool,
        ConditionError,
    >)
        ensures
            r == condition_outcome(*condition, response@),
    {
        match condition {
            CheckCondition::Property { contract_address, property, expected_value } => {
                ConditionChecker::check_property(
                    contract_address.as_str(),
                    property.as_str(),
                    expected_value,
                    response,
                )
            },
            CheckCondition::Function { contract_address, function, expected_value } => {
                ConditionChecker::check_function(
                    contract_address.as_str(),
                    function.as_str(),
                    expected_value,
                    response,
                )
            },
        }
    }
}

} // verus!
