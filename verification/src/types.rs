//! Plain-value models of the CosmWasm messages, responses and queries that the
//! system layer reads and builds.  Each type keeps exactly the information the
//! dispatch logic looks at; byte payloads are `Vec<u8>` and amounts are `u128`.
use vstd::prelude::*;
use cosmwasm_std::SystemError as HostQueryError;

verus! {

/// An amount of a given denomination.
#[derive(Clone, Debug, PartialEq, Eq)]
pub struct Coin {
    pub denom: String,
    pub amount: u128,
}

/// A key/value pair attached to an event.
#[derive(Clone, Debug, PartialEq, Eq)]
pub struct Attribute {
    pub key: String,
    pub value: String,
}

/// The mathematical content of an [`Attribute`].
pub struct AttributeView {
    pub key: Seq<char>,
    pub value: Seq<char>,
}

impl View for Attribute {
    type V = AttributeView;

    open spec fn view(&self) -> AttributeView {
        AttributeView { key: self.key@, value: self.value@ }
    }
}

/// The views of a sequence of attributes.
pub open spec fn attributes_view(attributes: Seq<Attribute>) -> Seq<AttributeView> {
    attributes.map_values(|a: Attribute| a@)
}

/// An event: a type tag and its attributes, in order.
#[derive(Clone, Debug, PartialEq, Eq)]
pub struct Event {
    pub ty: String,
    pub attributes: Vec<Attribute>,
}

/// The mathematical content of an [`Event`].
pub struct EventView {
    pub ty: Seq<char>,
    pub attributes: Seq<AttributeView>,
}

impl View for Event {
    type V = EventView;

    open spec fn view(&self) -> EventView {
        EventView { ty: self.ty@, attributes: attributes_view(self.attributes@) }
    }
}

/// The views of a sequence of events.
pub open spec fn events_view(events: Seq<Event>) -> Seq<EventView> {
    events.map_values(|e: Event| e@)
}

/// When a contract wants to hear back about a submessage.
#[derive(Clone, Copy, Debug, PartialEq, Eq)]
pub enum ReplyOn {
    Always,
    Error,
    Success,
    Never,
}

/// Messages to the bank module.
#[derive(Clone, Debug, PartialEq, Eq)]
pub enum BankMsg {
    Send { to_address: String, amount: Vec<Coin> },
    Burn { amount: Vec<Coin> },
    /// Any other bank message; the system layer does not handle it.
    Other,
}

/// Messages to the wasm module.
#[derive(Clone, Debug, PartialEq, Eq)]
pub enum WasmMsg {
    Execute { contract_addr: String, msg: Vec<u8>, funds: Vec<Coin> },
    Instantiate {
        admin: Option<String>,
        code_id: u64,
        msg: Vec<u8>,
        funds: Vec<Coin>,
        label: String,
    },
    Migrate { contract_addr: String, new_code_id: u64, msg: Vec<u8> },
    UpdateAdmin { contract_addr: String, admin: String },
    ClearAdmin { contract_addr: String },
    /// Any other wasm message; the system layer does not handle it.
    Other,
}

/// A message a contract asks the chain to run, with custom messages of type `T`.
#[derive(Clone, Debug, PartialEq, Eq)]
pub enum CosmosMsg<T> {
    Bank(BankMsg),
    Custom(T),
    Wasm(WasmMsg),
    /// Staking, distribution, IBC, governance and the like; the system layer
    /// does not handle them.
    Other,
}

/// A message together with its reply policy.
#[derive(Clone, Debug, PartialEq, Eq)]
pub struct SubMsg<T> {
    pub id: u64,
    pub msg: CosmosMsg<T>,
    pub gas_limit: Option<u64>,
    pub reply_on: ReplyOn,
}

/// What a successful submessage produced.
#[derive(Clone, Debug, PartialEq, Eq)]
pub struct SubMsgResponse {
    pub events: Vec<Event>,
    pub data: Option<Vec<u8>>,
}

/// The outcome of a submessage, as handed to the `reply` entry point: what it
/// produced, or the description of its error.
pub type SubMsgResult = Result<SubMsgResponse, String>;

/// The message handed to a contract's `reply` entry point.
#[derive(Debug, PartialEq, Eq)]
pub struct Reply {
    pub id: u64,
    pub result: SubMsgResult,
}

/// The answer of a contract entry point.
#[derive(Clone, Debug, PartialEq, Eq)]
pub struct Response<T> {
    pub messages: Vec<SubMsg<T>>,
    pub attributes: Vec<Attribute>,
    pub events: Vec<Event>,
    pub data: Option<Vec<u8>>,
}

/// The result a contract reports: a value or an error message.
pub type ContractResult<T> = Result<T, String>;

/// The error the host reports for a query it could not serve. The system
/// layer only carries it from the VM to the contract.
#[verifier::external_type_specification]
#[verifier::external_body]
pub struct ExHostQueryError(HostQueryError);

/// The result of a query at the host level.
pub type SystemResult<T> = Result<T, HostQueryError>;

/// What a contract answers to a query: serialized bytes or an error message.
pub type CosmwasmQueryResult = ContractResult<Vec<u8>>;

/// The sender and the funds of the message being executed.
#[derive(Clone, Debug, PartialEq, Eq)]
pub struct MessageInfo {
    pub sender: String,
    pub funds: Vec<Coin>,
}

/// The contract being executed.
#[derive(Clone, Debug, PartialEq, Eq)]
pub struct ContractInfo {
    pub address: String,
}

/// The environment of the running contract.
#[derive(Clone, Debug, PartialEq, Eq)]
pub struct Env {
    pub contract: ContractInfo,
}

/// Queries to the bank module.
#[derive(Clone, Debug, PartialEq, Eq)]
pub enum BankQuery {
    Balance { address: String, denom: String },
    AllBalances { address: String },
    /// Any other bank query; the system layer does not handle it.
    Other,
}

/// Queries to the wasm module.
#[derive(Clone, Debug, PartialEq, Eq)]
pub enum WasmQuery {
    Smart { contract_addr: String, msg: Vec<u8> },
    Raw { contract_addr: String, key: Vec<u8> },
    ContractInfo { contract_addr: String },
    /// Any other wasm query; the system layer does not handle it.
    Other,
}

/// A query a contract sends to the chain, with custom queries of type `C`.
#[derive(Clone, Debug, PartialEq, Eq)]
pub enum QueryRequest<C> {
    Bank(BankQuery),
    Custom(C),
    Wasm(WasmQuery),
    /// Staking, IBC, stargate and the like; the system layer does not handle them.
    Other,
}

/// The public information about a contract.
#[derive(Clone, Debug, PartialEq, Eq)]
pub struct ContractInfoResponse {
    pub code_id: u64,
    pub creator: String,
    pub admin: Option<String>,
    pub pinned: bool,
    pub ibc_port: Option<String>,
}

/// How much gas a submessage may burn.
#[derive(Clone, Copy, Debug, PartialEq, Eq)]
pub enum VmGasCheckpoint {
    Unlimited,
    Limited(u64),
}

/// The contents of optional bytes.
pub open spec fn opt_bytes(d: Option<Vec<u8>>) -> Option<Seq<u8>> {
    match d {
        Some(b) => Some(b@),
        None => None,
    }
}

/// A copy of an attribute.
pub fn clone_attribute(a: &Attribute) -> (r: Attribute)
    ensures
        r == *a,
{
    Attribute { key: a.key.clone(), value: a.value.clone() }
}

/// A copy of an event.
pub fn clone_event(e: &Event) -> (r: Event)
    ensures
        r@ == e@,
{
    let mut attributes: Vec<Attribute> = Vec::new();
    let n = e.attributes.len();
    for i in 0..n
        invariant
            n == e.attributes@.len(),
            attributes@ =~= e.attributes@.take(i as int),
    {
        attributes.push(clone_attribute(&e.attributes[i]));
    }
    assert(attributes@ =~= e.attributes@);
    Event { ty: e.ty.clone(), attributes }
}

/// A copy of a list of events.
pub fn clone_events(events: &Vec<Event>) -> (r: Vec<Event>)
    ensures
        events_view(r@) == events_view(events@),
{
    let mut out: Vec<Event> = Vec::new();
    let n = events.len();
    for i in 0..n
        invariant
            n == events@.len(),
            events_view(out@) =~= events_view(events@.take(i as int)),
    {
        let ghost prev = out@;
        out.push(clone_event(&events[i]));
        assert(events@.take(i + 1) =~= events@.take(i as int).push(events@[i as int]));
        assert(events_view(out@) =~= events_view(prev).push(events@[i as int]@));
        assert(events_view(events@.take(i + 1)) =~= events_view(events@.take(i as int)).push(
            events@[i as int]@,
        ));
    }
    assert(events@.take(n as int) =~= events@);
    out
}

/// Appends `more` to `events`.
pub fn append_events(events: &mut Vec<Event>, more: Vec<Event>)
    ensures
        events_view(final(events)@) == events_view(old(events)@) + events_view(more@),
{
    let mut more = more;
    let ghost m = more@;
    events.append(&mut more);
    assert(events_view(events@) =~= events_view(old(events)@) + events_view(m));
}

} // verus!
