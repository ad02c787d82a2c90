//! Validation and representation of contract names.
//!
//! A contract name is a string whose first character is an ASCII letter and
//! whose remaining characters are ASCII letters, digits, hyphens or
//! underscores, with a total length between [`CONTRACT_MIN_NAME_LENGTH`] and
//! [`CONTRACT_MAX_NAME_LENGTH`]; the reserved literal `__transient` is also
//! accepted, outside that grammar. The only way to obtain a [`ContractName`]
//! is through the validating constructor, so a value of that type always
//! holds an admissible name.

use vstd::prelude::*;

verus! {

/// Minimum length of a contract name
pub const CONTRACT_MIN_NAME_LENGTH: usize = 1;

/// Maximum length of a contract name
pub const CONTRACT_MAX_NAME_LENGTH: usize = 40;

/// An admissible first character: an ASCII letter.
pub open spec fn is_name_start_char(c: char) -> bool {
    ('a' <= c && c <= 'z') || ('A' <= c && c <= 'Z')
}

/// An admissible non-first character: an ASCII letter, an ASCII digit,
/// a hyphen or an underscore.
pub open spec fn is_name_char(c: char) -> bool {
    is_name_start_char(c) || ('0' <= c && c <= '9') || c == '-' || c == '_'
}

/// The general contract-name grammar: a first character that is an ASCII
/// letter, followed by admissible characters, the whole string between the
/// minimum and maximum length.
pub open spec fn matches_name_grammar(s: Seq<char>) -> bool {
    &&& CONTRACT_MIN_NAME_LENGTH <= s.len() <= CONTRACT_MAX_NAME_LENGTH
    &&& is_name_start_char(s[0])
    &&& forall|i: int| 1 <= i < s.len() ==> is_name_char(#[trigger] s[i])
}

/// The reserved contract name, exempt from the general grammar.
pub open spec fn is_transient_name(s: Seq<char>) -> bool {
    s == "__transient"@
}

/// A string is a valid contract name when it matches the general grammar or
/// equals the reserved literal.
pub open spec fn is_valid_contract_name(s: Seq<char>) -> bool {
    matches_name_grammar(s) || is_transient_name(s)
}

/// Error type for contract name validation
#[derive(Clone, Copy, Debug, PartialEq, Eq)]
pub enum ContractNameError {
    /// The length is outside the admissible bounds.
    InvalidLength,
    /// The length is admissible but the contents do not match the grammar.
    InvalidFormat,
}

/// Contract name type: a string validated at construction, immutable
/// afterwards.
#[derive(Debug)]
pub struct ContractName(String);

impl View for ContractName {
    type V = Seq<char>;

    closed spec fn view(&self) -> Seq<char> {
        self.0@
    }
}

impl ContractName {
    #[verifier::type_invariant]
    spec fn wf(self) -> bool {
        is_valid_contract_name(self.0@)
    }

    /// Create a new contract name from the provided string.
    ///
    /// Succeeds exactly on the valid names; a string whose length is out of
    /// bounds is reported as a length error, any other rejection as a format
    /// error.
    pub fn new(contract_name: &str) -> (result: Result<Self, ContractNameError>)
        ensures
            result is Ok <==> is_valid_contract_name(contract_name@),
            result matches Ok(name) ==> name@ == contract_name@,
            result == Err::<ContractName, _>(ContractNameError::InvalidLength) <==> (
            contract_name@.len() < CONTRACT_MIN_NAME_LENGTH || contract_name@.len()
                > CONTRACT_MAX_NAME_LENGTH),
            result == Err::<ContractName, _>(ContractNameError::InvalidFormat) <==> (
            CONTRACT_MIN_NAME_LENGTH <= contract_name@.len() <= CONTRACT_MAX_NAME_LENGTH
                && !is_valid_contract_name(contract_name@)),
    {
        proof {
            // The reserved literal is 11 characters long, so it always
            // passes the length check below.
            reveal_strlit("__transient");
        }
        let len = contract_name.unicode_len();
        if len < CONTRACT_MIN_NAME_LENGTH || len > CONTRACT_MAX_NAME_LENGTH {
            Err(ContractNameError::InvalidLength)
        } else if matches_contract_name_grammar(contract_name) {
            Ok(ContractName(contract_name.to_owned()))
        } else {
            Err(ContractNameError::InvalidFormat)
        }
    }

    /// Borrow the validated name as a string slice. The slice is always a
    /// valid contract name: the type invariant guarantees it.
    pub fn as_str(&self) -> (s: &str)
        ensures
            s@ == self@,
            is_valid_contract_name(s@),
    {
        proof {
            use_type_invariant(self);
        }
        self.0.as_str()
    }

    /// Consume the contract name, returning the validated string.
    pub fn into_string(self) -> (s: String)
        ensures
            s@ == self@,
    {
        self.0
    }
}

/// A contract name that exists is always valid: its text satisfies the
/// grammar (or is the reserved literal), so re-validating it with
/// [`ContractName::new`] can only succeed, and wraps equal text.
pub fn contract_name_is_always_valid(name: &ContractName)
    ensures
        is_valid_contract_name(name@),
{
    proof {
        use_type_invariant(name);
    }
}

/// Idempotence of validation: feeding the string representation of an
/// existing contract name back into the validating constructor always
/// succeeds, and the resulting name wraps equal text.
pub fn revalidate(name: &ContractName) -> (result: Result<ContractName, ContractNameError>)
    ensures
        result matches Ok(again) && again@ == name@,
{
    ContractName::new(name.as_str())
}

/// Decide whether a string matches the contract-name pattern: the general
/// grammar, anchored at both ends, or the reserved literal.
pub fn matches_contract_name_grammar(s: &str) -> (matched: bool)
    ensures
        matched == is_valid_contract_name(s@),
{
    if is_transient_literal(s) {
        return true;
    }
    let len = s.unicode_len();
    if len < CONTRACT_MIN_NAME_LENGTH || len > CONTRACT_MAX_NAME_LENGTH {
        return false;
    }
    if !name_start_char(s.get_char(0)) {
        return false;
    }
    let mut i: usize = 1;
    while i < len
        invariant
            1 <= i <= len,
            len == s@.len(),
            CONTRACT_MIN_NAME_LENGTH <= len <= CONTRACT_MAX_NAME_LENGTH,
            !is_transient_name(s@),
            is_name_start_char(s@[0]),
            forall|j: int| 1 <= j < i ==> is_name_char(#[trigger] s@[j]),
        decreases len - i,
    {
        if !name_char(s.get_char(i)) {
            return false;
        }
        i += 1;
    }
    true
}

/// Decide whether a character may start a contract name.
fn name_start_char(c: char) -> (admissible: bool)
    ensures
        admissible == is_name_start_char(c),
{
    ('a' <= c && c <= 'z') || ('A' <= c && c <= 'Z')
}

/// Decide whether a character may appear after the first one.
fn name_char(c: char) -> (admissible: bool)
    ensures
        admissible == is_name_char(c),
{
    name_start_char(c) || ('0' <= c && c <= '9') || c == '-' || c == '_'
}

/// Decide whether a string equals the reserved literal `__transient`.
fn is_transient_literal(s: &str) -> (matched: bool)
    ensures
        matched == is_transient_name(s@),
{
    proof {
        reveal_strlit("__transient");
    }
    let len = s.unicode_len();
    if len != 11 {
        return false;
    }
    let matched = s.get_char(0) == '_' && s.get_char(1) == '_' && s.get_char(2) == 't'
        && s.get_char(3) == 'r' && s.get_char(4) == 'a' && s.get_char(5) == 'n'
        && s.get_char(6) == 's' && s.get_char(7) == 'i' && s.get_char(8) == 'e'
        && s.get_char(9) == 'n' && s.get_char(10) == 't';
    proof {
        if matched {
            assert(s@ =~= "__transient"@);
        }
    }
    matched
}

} // verus!
