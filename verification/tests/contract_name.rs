use stacks_core::contract_name::{
    matches_contract_name_grammar, revalidate, ContractName, ContractNameError,
    CONTRACT_MAX_NAME_LENGTH, CONTRACT_MIN_NAME_LENGTH,
};

#[test]
fn bounds_are_one_and_forty() {
    assert_eq!(CONTRACT_MIN_NAME_LENGTH, 1);
    assert_eq!(CONTRACT_MAX_NAME_LENGTH, 40);
}

#[test]
fn my_contract_is_accepted() {
    let name = ContractName::new("my-contract").unwrap();
    assert_eq!(name.as_str(), "my-contract");
}

#[test]
fn empty_string_is_rejected() {
    let err = ContractName::new("").unwrap_err();
    assert_eq!(err, ContractNameError::InvalidLength);
}

#[test]
fn leading_digit_is_rejected() {
    let err = ContractName::new("1abc").unwrap_err();
    assert_eq!(err, ContractNameError::InvalidFormat);
}

#[test]
fn transient_literal_is_accepted() {
    let name = ContractName::new("__transient").unwrap();
    assert_eq!(name.as_str(), "__transient");
}

#[test]
fn forty_valid_characters_are_accepted() {
    let raw = "a".repeat(40);
    let name = ContractName::new(&raw).unwrap();
    assert_eq!(name.as_str(), raw);
}

#[test]
fn forty_one_characters_are_rejected() {
    let raw = "a".repeat(41);
    let err = ContractName::new(&raw).unwrap_err();
    assert_eq!(err, ContractNameError::InvalidLength);
}

#[test]
fn single_letter_is_accepted() {
    let name = ContractName::new("x").unwrap();
    assert_eq!(name.as_str(), "x");
}

#[test]
fn uppercase_start_is_accepted() {
    let name = ContractName::new("Token").unwrap();
    assert_eq!(name.as_str(), "Token");
}

#[test]
fn digits_hyphens_underscores_are_accepted_after_first() {
    let name = ContractName::new("a0-b_C9").unwrap();
    assert_eq!(name.as_str(), "a0-b_C9");
}

#[test]
fn space_is_rejected() {
    let err = ContractName::new("my contract").unwrap_err();
    assert_eq!(err, ContractNameError::InvalidFormat);
}

#[test]
fn dollar_sign_is_rejected() {
    let err = ContractName::new("ab$c").unwrap_err();
    assert_eq!(err, ContractNameError::InvalidFormat);
}

#[test]
fn leading_underscore_is_rejected() {
    let err = ContractName::new("_transient").unwrap_err();
    assert_eq!(err, ContractNameError::InvalidFormat);
}

#[test]
fn transient_with_suffix_is_rejected() {
    let err = ContractName::new("__transient2").unwrap_err();
    assert_eq!(err, ContractNameError::InvalidFormat);
}

#[test]
fn non_ascii_character_is_rejected() {
    let err = ContractName::new("caf\u{e9}").unwrap_err();
    assert_eq!(err, ContractNameError::InvalidFormat);
}

#[test]
fn revalidation_is_idempotent() {
    let name = ContractName::new("token-v2").unwrap();
    let again = revalidate(&name).unwrap();
    assert_eq!(again.as_str(), name.as_str());
}

#[test]
fn revalidating_as_str_directly_succeeds() {
    let name = ContractName::new("__transient").unwrap();
    let again = ContractName::new(name.as_str()).unwrap();
    assert_eq!(again.as_str(), "__transient");
}

#[test]
fn into_string_returns_the_validated_text() {
    let name = ContractName::new("my-contract").unwrap();
    let owned: String = name.into_string();
    assert_eq!(owned, "my-contract");
}

#[test]
fn grammar_matcher_agrees_with_validation() {
    assert!(matches_contract_name_grammar("my-contract"));
    assert!(matches_contract_name_grammar("__transient"));
    assert!(!matches_contract_name_grammar(""));
    assert!(!matches_contract_name_grammar("1abc"));
    assert!(!matches_contract_name_grammar("__transient2"));
    let long = "b".repeat(41);
    assert!(!matches_contract_name_grammar(&long));
}
