//! High level queries for a CosmWasm VM: bank balances, smart and raw
//! queries of contracts, contract information, and custom queries. Answers
//! are JSON, encoded by `serde_json` over the CosmWasm types.
use vstd::prelude::*;
use crate::error::SystemError;
use crate::types::{
    opt_bytes, BankQuery, Coin, ContractInfoResponse, CosmwasmQueryResult, QueryRequest,
    SystemResult, WasmQuery,
};
use crate::vm::{calls_since, is_system_error, system_error, CosmwasmVm, VmCall};
use cosmwasm_std::{Binary, ContractResult as ContractOutcome, SystemResult as HostResult};
use cosmwasm_std::SystemError as HostQueryError;

verus! {

/// The JSON of a `BalanceResponse` holding `amount` of `denom`, where it
/// can be encoded.
pub uninterp spec fn balance_response_json(denom: Seq<char>, amount: u128) -> Option<Seq<u8>>;

/// The JSON of an `AllBalanceResponse` holding these coins, where it can be
/// encoded.
pub uninterp spec fn all_balance_response_json(coins: Seq<(Seq<char>, u128)>) -> Option<Seq<u8>>;

/// The JSON of a `ContractInfoResponse` with these fields, where it can be
/// encoded.
pub uninterp spec fn contract_info_response_json(
    code_id: u64,
    creator: Seq<char>,
    admin: Option<Seq<char>>,
    pinned: bool,
    ibc_port: Option<Seq<char>>,
) -> Option<Seq<u8>>;

/// The JSON of a host-level query answer, where it can be encoded.
pub uninterp spec fn query_answer_json(
    answer: Result<Result<Seq<u8>, Seq<char>>, HostQueryError>,
) -> Option<Seq<u8>>;

/// The denominations and amounts of a list of coins.
pub open spec fn coins_view(coins: Seq<Coin>) -> Seq<(Seq<char>, u128)> {
    coins.map_values(|c: Coin| (c.denom@, c.amount))
}

/// The text of an optional string.
pub open spec fn opt_string_view(s: Option<String>) -> Option<Seq<char>> {
    match s {
        Some(t) => Some(t@),
        None => None,
    }
}

/// The contents of a host-level query answer.
pub open spec fn answer_view(answer: SystemResult<CosmwasmQueryResult>) -> Result<
    Result<Seq<u8>, Seq<char>>,
    HostQueryError,
> {
    match answer {
        Ok(Ok(data)) => Ok(Ok(data@)),
        Ok(Err(message)) => Ok(Err(message@)),
        Err(e) => Err(e),
    }
}

/// Calls `serde_json::to_vec` on a `cosmwasm_std::BalanceResponse` built
/// from `coin`; `None` where serialization fails.
#[verifier::external_body]
fn serialize_balance_response(coin: &Coin) -> (r: Option<Vec<u8>>)
    ensures
        opt_bytes(r) == balance_response_json(coin.denom@, coin.amount),
{
    let amount = cosmwasm_std::Coin::new(coin.amount, coin.denom.clone());
    serde_json::to_vec(&cosmwasm_std::BalanceResponse::new(amount)).ok()
}

/// Calls `serde_json::to_vec` on a `cosmwasm_std::AllBalanceResponse` built
/// from `coins`, in order; `None` where serialization fails.
#[verifier::external_body]
fn serialize_all_balance_response(coins: &Vec<Coin>) -> (r: Option<Vec<u8>>)
    ensures
        opt_bytes(r) == all_balance_response_json(coins_view(coins@)),
{
    let amount: Vec<cosmwasm_std::Coin> = coins.iter().map(
        |c| cosmwasm_std::Coin::new(c.amount, c.denom.clone()),
    ).collect();
    serde_json::to_vec(&cosmwasm_std::AllBalanceResponse::new(amount)).ok()
}

/// Calls `serde_json::to_vec` on a `cosmwasm_std::ContractInfoResponse` with
/// the fields of `info`; `None` where serialization fails.
#[verifier::external_body]
fn serialize_contract_info(info: &ContractInfoResponse) -> (r: Option<Vec<u8>>)
    ensures
        opt_bytes(r) == contract_info_response_json(
            info.code_id,
            info.creator@,
            opt_string_view(info.admin),
            info.pinned,
            opt_string_view(info.ibc_port),
        ),
{
    let mut response = cosmwasm_std::ContractInfoResponse::default();
    response.code_id = info.code_id;
    response.creator = info.creator.clone();
    response.admin = info.admin.clone();
    response.pinned = info.pinned;
    response.ibc_port = info.ibc_port.clone();
    serde_json::to_vec(&response).ok()
}

/// Calls `serde_json::to_vec` on the `cosmwasm_std::SystemResult` holding a
/// `ContractResult` of `Binary` that `answer` stands for; `None` where
/// serialization fails.
#[verifier::external_body]
fn serialize_query_answer(answer: SystemResult<CosmwasmQueryResult>) -> (r: Option<Vec<u8>>)
    ensures
        opt_bytes(r) == query_answer_json(answer_view(answer)),
{
    let converted: HostResult<ContractOutcome<Binary>> = match answer {
        Ok(Ok(data)) => HostResult::Ok(ContractOutcome::Ok(Binary(data))),
        Ok(Err(message)) => HostResult::Ok(ContractOutcome::Err(message)),
        Err(e) => HostResult::Err(e),
    };
    serde_json::to_vec(&converted).ok()
}

/// A successful answer holding the serialized bytes `json`, or the
/// serialization failure where there are none.
pub open spec fn serialized_outcome<V: CosmwasmVm>(
    json: Option<Seq<u8>>,
    r: Result<SystemResult<CosmwasmQueryResult>, V::Error>,
) -> bool {
    match json {
        Some(b) => r matches Ok(Ok(Ok(v))) && v@ == b,
        None => r matches Err(e) && is_system_error::<V>(e, SystemError::FailedToSerialize),
    }
}

/// A successful answer holding serialized bytes, or the serialization
/// failure where there are none.
fn serialized_answer<V: CosmwasmVm>(bytes: Option<Vec<u8>>) -> (r: Result<
    SystemResult<CosmwasmQueryResult>,
    V::Error,
>)
    ensures
        serialized_outcome::<V>(opt_bytes(bytes), r),
{
    match bytes {
        Some(b) => Ok(Ok(Ok(b))),
        None => Err(system_error::<V>(SystemError::FailedToSerialize)),
    }
}

/// The answer to a balance query whose balance is `coin`.
pub fn balance_answer<V: CosmwasmVm>(coin: &Coin) -> (r: Result<
    SystemResult<CosmwasmQueryResult>,
    V::Error,
>)
    ensures
        serialized_outcome::<V>(balance_response_json(coin.denom@, coin.amount), r),
{
    serialized_answer::<V>(serialize_balance_response(coin))
}

/// The answer to an all-balances query whose balances are `coins`.
pub fn all_balances_answer<V: CosmwasmVm>(coins: &Vec<Coin>) -> (r: Result<
    SystemResult<CosmwasmQueryResult>,
    V::Error,
>)
    ensures
        serialized_outcome::<V>(all_balance_response_json(coins_view(coins@)), r),
{
    serialized_answer::<V>(serialize_all_balance_response(coins))
}

/// The JSON of a contract information answer.
pub open spec fn contract_info_json(info: ContractInfoResponse) -> Option<Seq<u8>> {
    contract_info_response_json(
        info.code_id,
        info.creator@,
        opt_string_view(info.admin),
        info.pinned,
        opt_string_view(info.ibc_port),
    )
}

/// The answer to a contract information query whose answer is `info`.
pub fn contract_info_answer<V: CosmwasmVm>(info: &ContractInfoResponse) -> (r: Result<
    SystemResult<CosmwasmQueryResult>,
    V::Error,
>)
    ensures
        serialized_outcome::<V>(contract_info_json(*info), r),
{
    serialized_answer::<V>(serialize_contract_info(info))
}

/// The calls a query makes and its answer, for each kind of request: the VM
/// is asked exactly one question, after the addressed account or contract
/// was parsed (a failed parse fails the query before any call), and its
/// answer becomes the reply, serialized as JSON for balances and contract
/// information. Queries the system layer does not handle make no call.
pub open spec fn query_outcome<V: CosmwasmVm>(
    request: QueryRequest<V::QueryCustom>,
    calls: Seq<VmCall<V>>,
    r: Result<SystemResult<CosmwasmQueryResult>, V::Error>,
) -> bool {
    match request {
        QueryRequest::Custom(query) => calls.len() == 1 && calls[0] == VmCall::<V>::QueryCustom {
            query,
            result: r,
        },
        QueryRequest::Bank(BankQuery::Other) => refused_query::<V>(calls, r),
        QueryRequest::Wasm(WasmQuery::Other) => refused_query::<V>(calls, r),
        QueryRequest::Other => refused_query::<V>(calls, r),
        _ => match V::parsed_address(queried_address(request)) {
            None => calls.len() == 0 && r is Err,
            Some(address) => calls.len() == 1 && answered_query::<V>(request, address, calls[0], r),
        },
    }
}

/// The text of the account or contract a bank or wasm query addresses.
pub open spec fn queried_address<C>(request: QueryRequest<C>) -> Seq<char> {
    match request {
        QueryRequest::Bank(BankQuery::Balance { address, .. }) => address@,
        QueryRequest::Bank(BankQuery::AllBalances { address }) => address@,
        QueryRequest::Wasm(WasmQuery::Smart { contract_addr, .. }) => contract_addr@,
        QueryRequest::Wasm(WasmQuery::Raw { contract_addr, .. }) => contract_addr@,
        QueryRequest::Wasm(WasmQuery::ContractInfo { contract_addr }) => contract_addr@,
        _ => Seq::empty(),
    }
}

/// A query refused without asking the VM.
pub open spec fn refused_query<V: CosmwasmVm>(
    calls: Seq<VmCall<V>>,
    r: Result<SystemResult<CosmwasmQueryResult>, V::Error>,
) -> bool {
    calls.len() == 0 && (r matches Err(e) && is_system_error::<V>(e, SystemError::UnsupportedMessage))
}

/// The reply to a query whose one call to the VM was `call`, on the account
/// or contract at `address`.
pub open spec fn answered_query<V: CosmwasmVm>(
    request: QueryRequest<V::QueryCustom>,
    address: Seq<char>,
    call: VmCall<V>,
    r: Result<SystemResult<CosmwasmQueryResult>, V::Error>,
) -> bool {
    match (request, call) {
        (
            QueryRequest::Bank(BankQuery::Balance { denom, .. }),
            VmCall::Balance { account, denom: d, result },
        ) => account == address && d == denom@ && match result {
            Err(e) => r == Err::<SystemResult<CosmwasmQueryResult>, V::Error>(e),
            Ok(coin) => serialized_outcome::<V>(balance_response_json(coin.denom@, coin.amount), r),
        },
        (QueryRequest::Bank(BankQuery::AllBalances { .. }), VmCall::AllBalance { account, result }) => {
            account == address && match result {
                Err(e) => r == Err::<SystemResult<CosmwasmQueryResult>, V::Error>(e),
                Ok(coins) => serialized_outcome::<V>(
                    all_balance_response_json(coins_view(coins@)),
                    r,
                ),
            }
        },
        (
            QueryRequest::Wasm(WasmQuery::Smart { msg, .. }),
            VmCall::ContinueQuery { address: a, message, result },
        ) => a == address && message == msg@ && match result {
            Err(e) => r == Err::<SystemResult<CosmwasmQueryResult>, V::Error>(e),
            Ok(output) => r == Ok::<SystemResult<CosmwasmQueryResult>, V::Error>(Ok(output)),
        },
        (QueryRequest::Wasm(WasmQuery::Raw { key, .. }), VmCall::QueryRaw { address: a, key: k, result }) => {
            a == address && k == key@ && match result {
                Err(e) => r == Err::<SystemResult<CosmwasmQueryResult>, V::Error>(e),
                Ok(value) => match r {
                    Ok(Ok(Ok(v))) => v@ == match value {
                        Some(stored) => stored@,
                        None => Seq::<u8>::empty(),
                    },
                    _ => false,
                },
            }
        },
        (QueryRequest::Wasm(WasmQuery::ContractInfo { .. }), VmCall::QueryInfo { address: a, result }) => {
            a == address && match result {
                Err(e) => r == Err::<SystemResult<CosmwasmQueryResult>, V::Error>(e),
                Ok(info) => serialized_outcome::<V>(contract_info_json(info), r),
            }
        },
        _ => false,
    }
}

/// The answer to a raw storage read: the stored value, or nothing where the
/// key holds none.
pub fn raw_value(value: Option<Vec<u8>>) -> (r: Vec<u8>)
    ensures
        r@ == match value {
            Some(v) => v@,
            None => Seq::<u8>::empty(),
        },
{
    match value {
        Some(v) => v,
        None => Vec::new(),
    }
}

/// High level query for a CosmWasm VM: returns the value answered by the
/// contract's `query` entry point, a raw storage value, a balance or contract
/// information encoded as JSON, or the answer to a custom query. Queries the
/// system layer does not handle are refused without asking the VM.
pub fn cosmwasm_system_query<V: CosmwasmVm>(vm: &mut V, request: QueryRequest<V::QueryCustom>) -> (r:
    Result<SystemResult<CosmwasmQueryResult>, V::Error>)
    ensures
        old(vm).calls().is_prefix_of(final(vm).calls()),
        query_outcome::<V>(request, calls_since(*old(vm), *final(vm)), r),
{
    match request {
        QueryRequest::Custom(query) => Ok(vm.query_custom(query)?),
        QueryRequest::Bank(bank_query) => match bank_query {
            BankQuery::Balance { address, denom } => {
                let vm_account_addr = V::address_from_text(address)?;
                let amount = vm.balance(&vm_account_addr, denom)?;
                balance_answer::<V>(&amount)
            },
            BankQuery::AllBalances { address } => {
                let vm_account_addr = V::address_from_text(address)?;
                let amount = vm.all_balance(&vm_account_addr)?;
                all_balances_answer::<V>(&amount)
            },
            BankQuery::Other => Err(system_error::<V>(SystemError::UnsupportedMessage)),
        },
        QueryRequest::Wasm(wasm_query) => match wasm_query {
            WasmQuery::Smart { contract_addr, msg } => {
                let vm_contract_addr = V::address_from_text(contract_addr)?;
                let output = vm.continue_query(vm_contract_addr, msg.as_slice())?;
                Ok(Ok(output))
            },
            WasmQuery::Raw { contract_addr, key } => {
                let vm_contract_addr = V::address_from_text(contract_addr)?;
                let value = vm.query_raw(vm_contract_addr, key)?;
                Ok(Ok(Ok(raw_value(value))))
            },
            WasmQuery::ContractInfo { contract_addr } => {
                let vm_contract_addr = V::address_from_text(contract_addr)?;
                let info = vm.query_info(vm_contract_addr)?;
                contract_info_answer::<V>(&info)
            },
            WasmQuery::Other => Err(system_error::<V>(SystemError::UnsupportedMessage)),
        },
        QueryRequest::Other => Err(system_error::<V>(SystemError::UnsupportedMessage)),
    }
}

/// The JSON encoding of a query answer, or the serialization failure.
pub fn encode_query_answer<V: CosmwasmVm>(answer: SystemResult<CosmwasmQueryResult>) -> (r: Result<
    Vec<u8>,
    V::Error,
>)
    ensures
        match query_answer_json(answer_view(answer)) {
            Some(b) => r matches Ok(v) && v@ == b,
            None => r matches Err(e) && is_system_error::<V>(e, SystemError::FailedToSerialize),
        },
{
    match serialize_query_answer(answer) {
        Some(b) => Ok(b),
        None => Err(system_error::<V>(SystemError::FailedToSerialize)),
    }
}

/// The reply of a raw query whose host-level answer was `answer`: the
/// answer's JSON, the serialization failure, or the answer's own error.
pub open spec fn encoded_outcome<V: CosmwasmVm>(
    answer: Result<SystemResult<CosmwasmQueryResult>, V::Error>,
    r: Result<Vec<u8>, V::Error>,
) -> bool {
    match answer {
        Err(e) => r == Err::<Vec<u8>, V::Error>(e),
        Ok(a) => match query_answer_json(answer_view(a)) {
            Some(b) => r matches Ok(v) && v@ == b,
            None => r matches Err(e) && is_system_error::<V>(e, SystemError::FailedToSerialize),
        },
    }
}

/// High level query for a CosmWasm VM with remarshalling for contract
/// execution continuation: the answer of [`cosmwasm_system_query`], encoded
/// as JSON.
pub fn cosmwasm_system_query_raw<V: CosmwasmVm>(vm: &mut V, request: QueryRequest<V::QueryCustom>) -> (r:
    Result<Vec<u8>, V::Error>)
    ensures
        old(vm).calls().is_prefix_of(final(vm).calls()),
        exists|answer: Result<SystemResult<CosmwasmQueryResult>, V::Error>|
            #[trigger] query_outcome::<V>(request, calls_since(*old(vm), *final(vm)), answer)
                && encoded_outcome::<V>(answer, r),
{
    let ghost req = request;
    let output = cosmwasm_system_query(vm, request);
    let r = match output {
        Err(e) => Err(e),
        Ok(answer) => encode_query_answer::<V>(answer),
    };
    assert(query_outcome::<V>(req, calls_since(*old(vm), *vm), output) && encoded_outcome::<V>(output, r));
    r
}

} // verus!
