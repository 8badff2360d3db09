//! The events the system layer emits: the event it generates for each entry
//! point it runs, and the contract's own attributes and events, sanitized.
use vstd::prelude::*;
use vstd::string::*;
use crate::error::CosmwasmCodeId;
use crate::text::{decimal, u64_to_decimal};
use crate::types::{Attribute, AttributeView, Event, EventView, attributes_view};

verus! {

broadcast use vstd::seq_lib::group_seq_properties;

/// The kinds of system events.
#[derive(Clone, Copy, Debug, PartialEq, Eq)]
pub enum SystemEventType {
    StoreCode,
    Instantiate,
    Execute,
    Migrate,
    PinCode,
    UnpinCode,
    Sudo,
    Reply,
}

/// The type tag of a system event.
pub open spec fn event_type_name(ty: SystemEventType) -> Seq<char> {
    match ty {
        SystemEventType::StoreCode => "store_code"@,
        SystemEventType::Instantiate => "instantiate"@,
        SystemEventType::Execute => "execute"@,
        SystemEventType::Migrate => "migrate"@,
        SystemEventType::PinCode => "pin_code"@,
        SystemEventType::UnpinCode => "unpin_code"@,
        SystemEventType::Sudo => "sudo"@,
        SystemEventType::Reply => "reply"@,
    }
}

impl SystemEventType {
    /// The type tag of this kind of event, as it appears in emitted events.
    pub fn name(&self) -> (r: String)
        ensures
            r@ == event_type_name(*self),
    {
        match self {
            SystemEventType::StoreCode => String::from_str("store_code"),
            SystemEventType::Instantiate => String::from_str("instantiate"),
            SystemEventType::Execute => String::from_str("execute"),
            SystemEventType::Migrate => String::from_str("migrate"),
            SystemEventType::PinCode => String::from_str("pin_code"),
            SystemEventType::UnpinCode => String::from_str("unpin_code"),
            SystemEventType::Sudo => String::from_str("sudo"),
            SystemEventType::Reply => String::from_str("reply"),
        }
    }
}

/// The keys of the attributes the system layer attaches to events.
#[derive(Clone, Copy, Debug, PartialEq, Eq)]
pub enum SystemAttributeKey {
    ContractAddr,
    CodeID,
    ResultDataHex,
    Feature,
}

/// The key string of a system attribute.
pub open spec fn attribute_key_name(key: SystemAttributeKey) -> Seq<char> {
    match key {
        SystemAttributeKey::ContractAddr => "_contract_address"@,
        SystemAttributeKey::CodeID => "code_id"@,
        SystemAttributeKey::ResultDataHex => "result"@,
        SystemAttributeKey::Feature => "feature"@,
    }
}

impl SystemAttributeKey {
    /// The key string of this attribute, as it appears in emitted events.
    pub fn name(&self) -> (r: String)
        ensures
            r@ == attribute_key_name(*self),
    {
        match self {
            SystemAttributeKey::ContractAddr => String::from_str("_contract_address"),
            SystemAttributeKey::CodeID => String::from_str("code_id"),
            SystemAttributeKey::ResultDataHex => String::from_str("result"),
            SystemAttributeKey::Feature => String::from_str("feature"),
        }
    }
}

/// An attribute with a system key.
#[derive(Clone, Debug, PartialEq, Eq)]
pub struct SystemAttribute {
    pub key: SystemAttributeKey,
    pub value: String,
}

/// The event attribute a system attribute becomes.
pub open spec fn system_attribute_view(a: SystemAttribute) -> AttributeView {
    AttributeView { key: attribute_key_name(a.key), value: a.value@ }
}

impl SystemAttribute {
    /// Turns the system attribute into an event attribute, naming its key.
    pub fn into_attribute(self) -> (r: Attribute)
        ensures
            r@ == system_attribute_view(self),
    {
        Attribute { key: self.key.name(), value: self.value }
    }
}

/// An event of a system kind with system attributes.
#[derive(Clone, Debug, PartialEq, Eq)]
pub struct SystemEvent {
    pub ty: SystemEventType,
    pub attributes: Vec<SystemAttribute>,
}

/// The event a system event becomes.
pub open spec fn system_event_view(e: SystemEvent) -> EventView {
    EventView {
        ty: event_type_name(e.ty),
        attributes: e.attributes@.map_values(|a: SystemAttribute| system_attribute_view(a)),
    }
}

impl SystemEvent {
    /// Turns the system event into an event, naming its type and keys and
    /// keeping the order of its attributes.
    pub fn into_event(self) -> (r: Event)
        ensures
            r@ == system_event_view(self),
    {
        let mut attributes: Vec<Attribute> = Vec::new();
        let n = self.attributes.len();
        for i in 0..n
            invariant
                n == self.attributes@.len(),
                attributes_view(attributes@) =~= self.attributes@.take(i as int).map_values(
                    |a: SystemAttribute| system_attribute_view(a),
                ),
        {
            let a = &self.attributes[i];
            let ghost prev = attributes@;
            let attr = Attribute { key: a.key.name(), value: a.value.clone() };
            assert(attr@ == system_attribute_view(self.attributes@[i as int]));
            attributes.push(attr);
            assert(attributes_view(attributes@) =~= attributes_view(prev).push(attr@));
            assert(self.attributes@.take(i + 1) =~= self.attributes@.take(i as int).push(
                self.attributes@[i as int],
            ));
        }
        assert(self.attributes@.take(n as int) =~= self.attributes@);
        Event { ty: self.ty.name(), attributes }
    }
}

/// Tells whether the event of an entry point carries the code id.
pub trait EventHasCodeId {
    const HAS_CODE_ID: bool;
}

/// Tells the kind of event an entry point generates.
pub trait EventIsTyped {
    const TYPE: SystemEventType;
}

/// The `instantiate` entry point.
pub struct InstantiateCall;

/// The `execute` entry point.
pub struct ExecuteCall;

/// The `migrate` entry point.
pub struct MigrateCall;

/// The `reply` entry point.
pub struct ReplyCall;

impl EventHasCodeId for InstantiateCall {
    const HAS_CODE_ID: bool = true;
}

impl EventHasCodeId for ExecuteCall {
    const HAS_CODE_ID: bool = false;
}

impl EventHasCodeId for MigrateCall {
    const HAS_CODE_ID: bool = true;
}

impl EventHasCodeId for ReplyCall {
    const HAS_CODE_ID: bool = false;
}

impl EventIsTyped for InstantiateCall {
    const TYPE: SystemEventType = SystemEventType::Instantiate;
}

impl EventIsTyped for ExecuteCall {
    const TYPE: SystemEventType = SystemEventType::Execute;
}

impl EventIsTyped for MigrateCall {
    const TYPE: SystemEventType = SystemEventType::Migrate;
}

impl EventIsTyped for ReplyCall {
    const TYPE: SystemEventType = SystemEventType::Reply;
}

/// The event kind of each entry point, and whether its event carries the code
/// id: `instantiate` and `migrate` carry it, `execute` and `reply` do not.
pub proof fn lemma_entry_point_events()
    ensures
        <InstantiateCall as EventIsTyped>::TYPE == SystemEventType::Instantiate,
        <InstantiateCall as EventHasCodeId>::HAS_CODE_ID,
        <ExecuteCall as EventIsTyped>::TYPE == SystemEventType::Execute,
        !<ExecuteCall as EventHasCodeId>::HAS_CODE_ID,
        <MigrateCall as EventIsTyped>::TYPE == SystemEventType::Migrate,
        <MigrateCall as EventHasCodeId>::HAS_CODE_ID,
        <ReplyCall as EventIsTyped>::TYPE == SystemEventType::Reply,
        !<ReplyCall as EventHasCodeId>::HAS_CODE_ID,
{
}

/// The `_contract_address` attribute for `address`.
pub open spec fn contract_address_attribute(address: Seq<char>) -> AttributeView {
    AttributeView { key: "_contract_address"@, value: address }
}

/// The event generated for an entry point of kind `ty` run on the contract at
/// `address` with code `code_id`: the contract address first, then the code id
/// in decimal where the entry point carries it.
pub open spec fn generated_event(
    ty: SystemEventType,
    has_code_id: bool,
    address: Seq<char>,
    code_id: CosmwasmCodeId,
) -> EventView {
    EventView {
        ty: event_type_name(ty),
        attributes: if has_code_id {
            seq![
                contract_address_attribute(address),
                AttributeView { key: "code_id"@, value: decimal(code_id as nat) },
            ]
        } else {
            seq![contract_address_attribute(address)]
        },
    }
}

/// Entry points that generate a system event when they run.
pub trait HasEvent: EventHasCodeId + EventIsTyped {
    fn generate_event(address: String, code_id: CosmwasmCodeId) -> (r: Event)
        ensures
            r@ == generated_event(Self::TYPE, Self::HAS_CODE_ID, address@, code_id),
    ;
}

impl<I: EventHasCodeId + EventIsTyped> HasEvent for I {
    fn generate_event(address: String, code_id: CosmwasmCodeId) -> (r: Event) {
        let addr_attr = SystemAttribute { key: SystemAttributeKey::ContractAddr, value: address };
        let attributes = if I::HAS_CODE_ID {
            vec![
                addr_attr,
                SystemAttribute { key: SystemAttributeKey::CodeID, value: u64_to_decimal(code_id) },
            ]
        } else {
            vec![addr_attr]
        };
        let event = SystemEvent { ty: I::TYPE, attributes };
        let r = event.into_event();
        assert(r@.attributes =~= generated_event(
            I::TYPE,
            I::HAS_CODE_ID,
            address@,
            code_id,
        ).attributes);
        r
    }
}

} // verus!
