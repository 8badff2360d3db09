use cosmwasm_system::error::SystemError;
use cosmwasm_system::events::{
    ExecuteCall, HasEvent, InstantiateCall, MigrateCall, ReplyCall, SystemAttribute,
    SystemAttributeKey, SystemEvent, SystemEventType,
};
use cosmwasm_system::sanitize::{emit_contract_events, emit_custom_events, sanitize_custom_attributes};
use cosmwasm_system::types::{Attribute, Event};

fn attr(key: &str, value: &str) -> Attribute {
    Attribute { key: key.to_string(), value: value.to_string() }
}

fn event(ty: &str, attributes: Vec<Attribute>) -> Event {
    Event { ty: ty.to_string(), attributes }
}

#[test]
fn event_type_names() {
    let cases = [
        (SystemEventType::StoreCode, "store_code"),
        (SystemEventType::Instantiate, "instantiate"),
        (SystemEventType::Execute, "execute"),
        (SystemEventType::Migrate, "migrate"),
        (SystemEventType::PinCode, "pin_code"),
        (SystemEventType::UnpinCode, "unpin_code"),
        (SystemEventType::Sudo, "sudo"),
        (SystemEventType::Reply, "reply"),
    ];
    for (ty, name) in cases {
        assert_eq!(ty.name(), name);
    }
}

#[test]
fn attribute_key_names() {
    assert_eq!(SystemAttributeKey::ContractAddr.name(), "_contract_address");
    assert_eq!(SystemAttributeKey::CodeID.name(), "code_id");
    assert_eq!(SystemAttributeKey::ResultDataHex.name(), "result");
    assert_eq!(SystemAttributeKey::Feature.name(), "feature");
}

#[test]
fn system_attribute_becomes_attribute() {
    let a = SystemAttribute { key: SystemAttributeKey::Feature, value: "iterator".to_string() };
    assert_eq!(a.into_attribute(), attr("feature", "iterator"));
}

#[test]
fn system_event_becomes_event() {
    let e = SystemEvent {
        ty: SystemEventType::PinCode,
        attributes: vec![
            SystemAttribute { key: SystemAttributeKey::CodeID, value: "7".to_string() },
            SystemAttribute { key: SystemAttributeKey::ResultDataHex, value: "beef".to_string() },
        ],
    };
    assert_eq!(e.into_event(), event("pin_code", vec![attr("code_id", "7"), attr("result", "beef")]));
}

#[test]
fn instantiate_event_carries_code_id() {
    let e = InstantiateCall::generate_event("contract1".to_string(), 42);
    assert_eq!(
        e,
        event("instantiate", vec![attr("_contract_address", "contract1"), attr("code_id", "42")])
    );
    let e = MigrateCall::generate_event("contract1".to_string(), 18446744073709551615);
    assert_eq!(
        e,
        event(
            "migrate",
            vec![attr("_contract_address", "contract1"), attr("code_id", "18446744073709551615")]
        )
    );
}

#[test]
fn execute_and_reply_events_have_no_code_id() {
    assert_eq!(
        ExecuteCall::generate_event("c".to_string(), 3),
        event("execute", vec![attr("_contract_address", "c")])
    );
    assert_eq!(
        ReplyCall::generate_event("c".to_string(), 3),
        event("reply", vec![attr("_contract_address", "c")])
    );
}

#[test]
fn sanitize_trims_and_appends_address() {
    let mut attributes = vec![attr("  key ", "\tvalue\n"), attr("k2", " v 2 ")];
    assert_eq!(sanitize_custom_attributes(&mut attributes, "contract".to_string()), Ok(()));
    assert_eq!(
        attributes,
        vec![attr("key", "value"), attr("k2", "v 2"), attr("_contract_address", "contract")]
    );
}

#[test]
fn sanitize_trims_unicode_whitespace() {
    let mut attributes = vec![attr("\u{3000}key\u{a0}", "\u{2028}v\u{85}")];
    assert_eq!(sanitize_custom_attributes(&mut attributes, "c".to_string()), Ok(()));
    assert_eq!(attributes, vec![attr("key", "v"), attr("_contract_address", "c")]);
}

#[test]
fn sanitize_of_nothing_adds_only_the_address() {
    let mut attributes = vec![];
    assert_eq!(sanitize_custom_attributes(&mut attributes, "c".to_string()), Ok(()));
    assert_eq!(attributes, vec![attr("_contract_address", "c")]);
}

#[test]
fn sanitize_refuses_empty_key() {
    let mut attributes = vec![attr(" a ", "1"), attr("   ", "2"), attr(" b ", "3")];
    assert_eq!(
        sanitize_custom_attributes(&mut attributes, "c".to_string()),
        Err(SystemError::EmptyEventKey)
    );
    // The attributes before the refused one are trimmed, the others untouched.
    assert_eq!(attributes, vec![attr("a", "1"), attr("   ", "2"), attr(" b ", "3")]);
}

#[test]
fn sanitize_refuses_empty_value() {
    let mut attributes = vec![attr("a", " \n ")];
    assert_eq!(
        sanitize_custom_attributes(&mut attributes, "c".to_string()),
        Err(SystemError::EmptyEventValue)
    );
}

#[test]
fn sanitize_refuses_reserved_prefix_after_trim() {
    let mut attributes = vec![attr("  _hidden", "x")];
    assert_eq!(
        sanitize_custom_attributes(&mut attributes, "c".to_string()),
        Err(SystemError::ReservedEventPrefixIsUsed)
    );
}

#[test]
fn sanitize_checks_key_before_value() {
    let mut attributes = vec![attr(" ", " ")];
    assert_eq!(
        sanitize_custom_attributes(&mut attributes, "c".to_string()),
        Err(SystemError::EmptyEventKey)
    );
    let mut attributes = vec![attr("_k", " ")];
    assert_eq!(
        sanitize_custom_attributes(&mut attributes, "c".to_string()),
        Err(SystemError::EmptyEventValue)
    );
}

#[test]
fn sanitizing_twice_changes_nothing_but_the_address() {
    let mut attributes = vec![attr(" a ", " 1 "), attr("b", "2 ")];
    assert_eq!(sanitize_custom_attributes(&mut attributes, "c".to_string()), Ok(()));
    let once = attributes.clone();
    attributes.pop();
    assert_eq!(sanitize_custom_attributes(&mut attributes, "c".to_string()), Ok(()));
    assert_eq!(attributes, once);
}

#[test]
fn contract_events_are_prefixed_and_tagged() {
    let mut out = vec![event("instantiate", vec![])];
    let r = emit_contract_events(
        &mut out,
        &"contract".to_string(),
        vec![attr(" action ", " mint ")],
        vec![event("  transfer ", vec![attr("to", "bob")]), event("ab", vec![])],
    );
    assert_eq!(r, Ok(()));
    assert_eq!(
        out,
        vec![
            event("instantiate", vec![]),
            event("wasm", vec![attr("action", "mint"), attr("_contract_address", "contract")]),
            event(
                "wasm-transfer",
                vec![attr("to", "bob"), attr("_contract_address", "contract")]
            ),
            event("wasm-ab", vec![attr("_contract_address", "contract")]),
        ]
    );
}

#[test]
fn no_wasm_event_without_attributes() {
    let mut out = vec![];
    let r = emit_contract_events(&mut out, &"c".to_string(), vec![], vec![event("xy", vec![])]);
    assert_eq!(r, Ok(()));
    assert_eq!(out, vec![event("wasm-xy", vec![attr("_contract_address", "c")])]);
}

#[test]
fn short_event_type_is_refused_and_stops_emission() {
    let mut out = vec![];
    let r = emit_custom_events(
        &mut out,
        &"c".to_string(),
        vec![event("ok", vec![]), event(" x  ", vec![]), event("later", vec![])],
    );
    assert_eq!(r, Err(SystemError::EventTypeIsTooShort));
    assert_eq!(out, vec![event("wasm-ok", vec![attr("_contract_address", "c")])]);
}

#[test]
fn event_type_length_counts_bytes() {
    // One character of two bytes is long enough.
    let mut out = vec![];
    let r = emit_custom_events(&mut out, &"c".to_string(), vec![event("é", vec![])]);
    assert_eq!(r, Ok(()));
    assert_eq!(out, vec![event("wasm-é", vec![attr("_contract_address", "c")])]);
}

#[test]
fn bad_custom_attribute_is_refused() {
    let mut out = vec![];
    let r = emit_contract_events(
        &mut out,
        &"c".to_string(),
        vec![attr("a", "1")],
        vec![event("ev", vec![attr("_x", "1")])],
    );
    assert_eq!(r, Err(SystemError::ReservedEventPrefixIsUsed));
    assert_eq!(out, vec![event("wasm", vec![attr("a", "1"), attr("_contract_address", "c")])]);
}

#[test]
fn bad_attribute_refuses_before_any_event() {
    let mut out = vec![];
    let r = emit_contract_events(
        &mut out,
        &"c".to_string(),
        vec![attr("", "1")],
        vec![event("ev", vec![])],
    );
    assert_eq!(r, Err(SystemError::EmptyEventKey));
    assert_eq!(out, vec![]);
}
