use cosmwasm_system::error::SystemError;
use cosmwasm_system::sanitize::sanitize_custom_attributes;
use cosmwasm_system::text::u64_to_decimal;
use cosmwasm_system::types::Attribute;

fn attr(key: &str, value: &str) -> Attribute {
    Attribute { key: key.to_string(), value: value.to_string() }
}

#[test]
fn decimal_notation() {
    assert_eq!(u64_to_decimal(0), "0");
    assert_eq!(u64_to_decimal(7), "7");
    assert_eq!(u64_to_decimal(10), "10");
    assert_eq!(u64_to_decimal(1234567890), "1234567890");
    assert_eq!(u64_to_decimal(u64::MAX), u64::MAX.to_string());
}

#[test]
fn trimming() {
    let mut attributes = vec![attr("  a b \n", "\u{2003}x\u{3000}"), attr("\u{200b}k", "v")];
    assert_eq!(sanitize_custom_attributes(&mut attributes, "c".to_string()), Ok(()));
    assert_eq!(
        attributes,
        vec![attr("a b", "x"), attr("\u{200b}k", "v"), attr("_contract_address", "c")]
    );
    let mut attributes = vec![attr("k", " \t ")];
    assert_eq!(
        sanitize_custom_attributes(&mut attributes, "c".to_string()),
        Err(SystemError::EmptyEventValue)
    );
}

#[test]
fn prefixes() {
    let mut attributes = vec![attr("key_", "v")];
    assert_eq!(sanitize_custom_attributes(&mut attributes, "c".to_string()), Ok(()));
    let mut attributes = vec![attr("_key", "v")];
    assert_eq!(
        sanitize_custom_attributes(&mut attributes, "c".to_string()),
        Err(SystemError::ReservedEventPrefixIsUsed)
    );
}
