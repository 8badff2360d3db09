//! High level dispatch for a CosmWasm VM: an entry point runs inside a
//! transaction, its response becomes events, and its submessages are
//! dispatched one by one, each in a transaction of its own, with the replies
//! that their policies ask for.
use vstd::prelude::*;
use crate::admin::{
    admin_call_outcome, admin_check, admin_text, admin_updated_meta, lemma_admin_calls_push_no_events, migrate,
    migrated_meta, update_admin,
};
use crate::error::{CosmwasmCodeId, CosmwasmContractMeta, SystemError};
use crate::events::{generated_event, HasEvent};
use crate::sanitize::{contract_events, emit_contract_events};
use crate::types::{
    append_events, attributes_view, clone_events, events_view, opt_bytes, AttributeView, EventView, BankMsg, Coin, ContractResult, CosmosMsg, Env, Event,
    MessageInfo, Reply, ReplyOn, Response, SubMsg, SubMsgResponse, SubMsgResult, VmGasCheckpoint,
    WasmMsg,
};
use crate::vm::{
    call_events, calls_since, events_of, is_system_error, lemma_calls_since_one, lemma_calls_since_split,
    lemma_events_extend, lemma_events_of_concat, lemma_prefix_transitive, system_error, CosmwasmVm, VmCall,
};

verus! {

/// The gas checkpoint of a submessage: limited where it has a gas limit.
pub open spec fn gas_checkpoint(gas_limit: Option<u64>) -> VmGasCheckpoint {
    match gas_limit {
        Some(limit) => VmGasCheckpoint::Limited(limit),
        None => VmGasCheckpoint::Unlimited,
    }
}

/// The gas checkpoint of a submessage.
pub fn gas_checkpoint_for(gas_limit: Option<u64>) -> (r: VmGasCheckpoint)
    ensures
        r == gas_checkpoint(gas_limit),
        match gas_limit {
            Some(limit) => r == VmGasCheckpoint::Limited(limit),
            None => r == VmGasCheckpoint::Unlimited,
        },
{
    match gas_limit {
        Some(limit) => VmGasCheckpoint::Limited(limit),
        None => VmGasCheckpoint::Unlimited,
    }
}

/// Whether a message only moves funds or changes an admin, and so produces
/// no data.
pub open spec fn dataless_message<T>(msg: CosmosMsg<T>) -> bool {
    match msg {
        CosmosMsg::Bank(_) => true,
        CosmosMsg::Wasm(WasmMsg::UpdateAdmin { .. }) => true,
        CosmosMsg::Wasm(WasmMsg::ClearAdmin { .. }) => true,
        _ => false,
    }
}

/// Whether the system layer refuses a message without asking the VM.
pub open spec fn unsupported_message<T>(msg: CosmosMsg<T>) -> bool {
    match msg {
        CosmosMsg::Bank(BankMsg::Other) => true,
        CosmosMsg::Wasm(WasmMsg::Other) => true,
        CosmosMsg::Other => true,
        _ => false,
    }
}

/// Whether the reply policy asks for a reply when the submessage succeeds.
pub open spec fn replies_on_success(reply_on: ReplyOn) -> bool {
    reply_on == ReplyOn::Always || reply_on == ReplyOn::Success
}

/// Whether the reply policy asks for a reply when the submessage fails.
pub open spec fn replies_on_error(reply_on: ReplyOn) -> bool {
    reply_on == ReplyOn::Always || reply_on == ReplyOn::Error
}

/// How the run goes on after a submessage.
#[derive(Debug, PartialEq)]
pub enum SubCallContinuation<E> {
    /// No reply: go on; the data the submessage produced, if any, is not
    /// kept, since only a reply's data replaces the run's data.
    Continue(Option<Vec<u8>>),
    /// Hand this outcome to the contract's `reply` entry point.
    Reply(SubMsgResult),
    /// Stop the run with this error.
    Abort(E),
}

/// Decides how the run goes on after a submessage, from its outcome and its
/// reply policy: a success is answered with a reply where the policy asks for
/// one on success, else the run goes on; a failure is answered with a reply
/// carrying the error's reported text where the policy asks for one on
/// error, else it aborts the run.
pub fn sub_call_continuation<V: CosmwasmVm>(
    sub_res: Result<(Option<Vec<u8>>, Vec<Event>), V::Error>,
    reply_on: ReplyOn,
) -> (r: SubCallContinuation<V::Error>)
    ensures
        match sub_res {
            Ok((data, events)) => if replies_on_success(reply_on) {
                r == SubCallContinuation::<V::Error>::Reply(Ok(SubMsgResponse { events, data }))
            } else {
                r == SubCallContinuation::<V::Error>::Continue(data)
            },
            Err(e) => if replies_on_error(reply_on) {
                match r {
                    SubCallContinuation::Reply(Err(text)) => text@ == V::reported_text(e),
                    _ => false,
                }
            } else {
                r == SubCallContinuation::<V::Error>::Abort(e)
            },
        },
{
    match sub_res {
        Ok((data, events)) => match reply_on {
            ReplyOn::Never | ReplyOn::Error => SubCallContinuation::Continue(data),
            ReplyOn::Always | ReplyOn::Success => SubCallContinuation::Reply(
                Ok(SubMsgResponse { events, data }),
            ),
        },
        Err(e) => match reply_on {
            ReplyOn::Always | ReplyOn::Error => SubCallContinuation::Reply(Err(V::error_text(&e))),
            ReplyOn::Never | ReplyOn::Success => SubCallContinuation::Abort(e),
        },
    }
}

/// How a transaction ends.
#[derive(Clone, Copy, Debug, PartialEq, Eq)]
pub enum TransactionOutcome {
    Commit,
    Rollback,
}

/// A transaction is committed where the work it wraps succeeded, and rolled
/// back where it failed.
pub fn transaction_outcome<T, E>(result: &Result<T, E>) -> (r: TransactionOutcome)
    ensures
        (r == TransactionOutcome::Commit) == (result is Ok),
        (r == TransactionOutcome::Rollback) == (result is Err),
{
    match result {
        Ok(_) => TransactionOutcome::Commit,
        Err(_) => TransactionOutcome::Rollback,
    }
}

/// The call that ends the innermost transaction as decided.
pub open spec fn end_call<V: CosmwasmVm>(outcome: TransactionOutcome, result: Result<(), V::Error>) -> VmCall<V> {
    match outcome {
        TransactionOutcome::Commit => VmCall::TransactionCommit { result },
        TransactionOutcome::Rollback => VmCall::TransactionRollback { result },
    }
}

/// Ends the innermost transaction of the VM as decided.
fn end_transaction<V: CosmwasmVm>(vm: &mut V, outcome: TransactionOutcome) -> (r: Result<(), V::Error>)
    ensures
        final(vm).calls() == old(vm).calls().push(end_call::<V>(outcome, r)),
{
    match outcome {
        TransactionOutcome::Commit => vm.transaction_commit(),
        TransactionOutcome::Rollback => vm.transaction_rollback(),
    }
}

/// Whether `call` ended the transaction that wrapped work whose result was
/// `result`, and `r` is what comes of it: a commit where the work succeeded,
/// a rollback where it failed; an error ending the transaction replaces the
/// work's result.
pub open spec fn closes_transaction<V: CosmwasmVm, T>(
    result: Result<T, V::Error>,
    call: VmCall<V>,
    r: Result<T, V::Error>,
) -> bool {
    match call {
        VmCall::TransactionCommit { result: end } => result is Ok && match end {
            Ok(_) => r == result,
            Err(e) => r == Err::<T, V::Error>(e),
        },
        VmCall::TransactionRollback { result: end } => result is Err && match end {
            Ok(_) => r == result,
            Err(e) => r == Err::<T, V::Error>(e),
        },
        _ => false,
    }
}

/// Ends the transaction that wrapped work whose result is `result`: commits
/// it where the work succeeded and rolls it back where it failed. Gives the
/// result back, unless ending the transaction failed.
pub fn close_transaction<V: CosmwasmVm, T>(vm: &mut V, result: Result<T, V::Error>) -> (r: Result<
    T,
    V::Error,
>)
    ensures
        final(vm).calls().len() == old(vm).calls().len() + 1,
        final(vm).calls().drop_last() == old(vm).calls(),
        closes_transaction::<V, T>(result, final(vm).calls().last(), r),
{
    let ended = end_transaction(vm, transaction_outcome(&result));
    assert(vm.calls().drop_last() =~= old(vm).calls());
    match ended {
        Err(e) => Err(e),
        Ok(()) => result,
    }
}

/// Whether the only call made was a failed opening of a transaction, whose
/// error is the result.
pub open spec fn failed_to_begin<V: CosmwasmVm, T>(calls: Seq<VmCall<V>>, r: Result<T, V::Error>) -> bool {
    calls.len() == 1 && match calls[0] {
        VmCall::TransactionBegin { result: Err(e) } => r == Err::<T, V::Error>(e),
        _ => false,
    }
}

/// Whether `call` ended a transaction as `r` shows: committed where `r`
/// succeeded, or where committing failed with `r`'s error; rolled back where
/// `r` failed.
pub open spec fn ended_as<V: CosmwasmVm, T>(call: VmCall<V>, r: Result<T, V::Error>) -> bool {
    match call {
        VmCall::TransactionCommit { result: end } => match end {
            Ok(_) => r is Ok,
            Err(e) => r == Err::<T, V::Error>(e),
        },
        VmCall::TransactionRollback { result: end } => r is Err && match end {
            Ok(_) => true,
            Err(e) => r == Err::<T, V::Error>(e),
        },
        _ => false,
    }
}

/// The first of two optional values that is present.
pub open spec fn first_some<T>(a: Option<T>, b: Option<T>) -> Option<T> {
    match a {
        Some(x) => Some(x),
        None => b,
    }
}

/// The run's data after a reply: the reply's data where it produced some,
/// else the data so far. The data a submessage produced reaches the run
/// only through its reply.
pub fn reply_data(reply: Option<Vec<u8>>, current: Option<Vec<u8>>) -> (r: Option<Vec<u8>>)
    ensures
        r == first_some(reply, current),
        reply is Some ==> r == reply,
        reply is None ==> r == current,
{
    match reply {
        Some(d) => Some(d),
        None => current,
    }
}

/// Whether the message failed before any call on the VM (an address that
/// did not parse).
pub open spec fn failed_before_call<V: CosmwasmVm>(
    calls: Seq<VmCall<V>>,
    r: Result<Option<Vec<u8>>, V::Error>,
) -> bool {
    calls.len() == 0 && r is Err
}

/// The result of a message that only moves funds or changes an admin, from
/// what the VM answered: no data, or the VM's error.
pub open spec fn no_data<V: CosmwasmVm>(
    answer: Result<(), V::Error>,
    r: Result<Option<Vec<u8>>, V::Error>,
) -> bool {
    match answer {
        Ok(_) => r == Ok::<Option<Vec<u8>>, V::Error>(None),
        Err(e) => r == Err::<Option<Vec<u8>>, V::Error>(e),
    }
}

/// The calls an admin change by `sender` on the contract at `contract` makes
/// and its result: the contract's metadata is read (a failed read fails
/// with its error); where `sender` is not the admin the change is refused as
/// [`admin_check`] says; else the metadata is written back with the admin
/// replaced by `new_admin` (by its view), code id and label kept, and the
/// change answers no data or the write's error.
pub open spec fn admin_change_outcome<V: CosmwasmVm>(
    sender: Seq<char>,
    contract: Seq<char>,
    new_admin: Option<Seq<char>>,
    calls: Seq<VmCall<V>>,
    r: Result<Option<Vec<u8>>, V::Error>,
) -> bool {
    calls.len() >= 1 && match calls[0] {
        VmCall::ContractMeta { address, result } => address == contract && match result {
            Err(e) => calls.len() == 1 && r == Err::<Option<Vec<u8>>, V::Error>(e),
            Ok(read) => match admin_check(sender, admin_text::<V>(read.admin)) {
                Err(refusal) => calls.len() == 1 && (r matches Err(e) && is_system_error::<V>(
                    e,
                    refusal,
                )),
                Ok(_) => calls.len() == 2 && match calls[1] {
                    VmCall::SetContractMeta { address: written_to, meta, result: written } =>
                        written_to == contract && meta.code_id == read.code_id && meta.label
                        == read.label && admin_text::<V>(meta.admin) == new_admin && no_data::<V>(
                        written,
                        r,
                    ),
                    _ => false,
                },
            },
        },
        _ => false,
    }
}

/// The calls a migration by `sender` of the contract at `contract` to
/// `new_code_id` makes and its result: the admin operation of `migrate`
/// (a read, and a write of the new code id where `sender` is the admin);
/// where it succeeded, the contract's `migrate` entry point runs with
/// `msg`, and its answer is the result; else the result is its error.
pub open spec fn migration_outcome<V: CosmwasmVm>(
    sender: Seq<char>,
    contract: Seq<char>,
    new_code_id: CosmwasmCodeId,
    msg: Seq<u8>,
    calls: Seq<VmCall<V>>,
    r: Result<Option<Vec<u8>>, V::Error>,
) -> bool {
    let decide = |m: CosmwasmContractMeta<V::Address>| migrated_meta::<V>(sender, m, new_code_id);
    ||| match r {
        Err(e) => admin_call_outcome::<V>(calls, contract, decide, Err(e)),
        Ok(_) => false,
    }
    ||| calls.len() >= 1 && admin_call_outcome::<V>(calls.drop_last(), contract, decide, Ok(()))
        && match calls.last() {
        VmCall::ContinueMigrate { address, message, result, .. } => address == contract && message
            == msg && result == r,
        _ => false,
    }
}

/// The admin of an instantiated contract as its message gives it, by its
/// view: none, or the address its text parses to.
pub open spec fn parsed_admin<V: CosmwasmVm>(admin: Option<String>) -> Option<Seq<char>> {
    match admin {
        Some(text) => V::parsed_address(text@),
        None => None,
    }
}

/// The calls a submessage makes on the VM and its result, for each kind of
/// message: a contract call or a custom message is handed to the VM with the
/// message's addresses, bytes and funds, and its data is the result; funds
/// moved or burnt and admin changes produce no data. A message naming an
/// address that does not parse fails before any call. `sender` is the
/// sender of the message being executed.
pub open spec fn submessage_outcome<V: CosmwasmVm>(
    sender: Seq<char>,
    msg: CosmosMsg<V::MessageCustom>,
    calls: Seq<VmCall<V>>,
    r: Result<Option<Vec<u8>>, V::Error>,
) -> bool {
    match msg {
        CosmosMsg::Custom(message) => calls.len() == 1 && match calls[0] {
            VmCall::MessageCustom { message: m, result, .. } => m == message && result == r,
            _ => false,
        },
        CosmosMsg::Wasm(WasmMsg::Execute { contract_addr, msg, funds }) => match V::parsed_address(
            contract_addr@,
        ) {
            None => failed_before_call::<V>(calls, r),
            Some(contract) => calls.len() == 1 && match calls[0] {
                VmCall::ContinueExecute { address, funds: f, message, result, .. } => address
                    == contract && f == funds@ && message == msg@ && result == r,
                _ => false,
            },
        },
        CosmosMsg::Wasm(WasmMsg::Instantiate { admin, code_id, msg, funds, label }) => if admin is Some
            && parsed_admin::<V>(admin) is None {
            failed_before_call::<V>(calls, r)
        } else {
            calls.len() == 1 && match calls[0] {
                VmCall::ContinueInstantiate { meta, funds: f, message, result, .. } => meta.code_id
                    == code_id && meta.label == label && admin_text::<V>(meta.admin)
                    == parsed_admin::<V>(admin) && f == funds@ && message == msg@ && match result {
                    Ok((_, data)) => r == Ok::<Option<Vec<u8>>, V::Error>(data),
                    Err(e) => r == Err::<Option<Vec<u8>>, V::Error>(e),
                },
                _ => false,
            }
        },
        CosmosMsg::Wasm(WasmMsg::Migrate { contract_addr, new_code_id, msg }) => match (
            V::parsed_address(contract_addr@),
            V::parsed_address(sender),
        ) {
            (Some(contract), Some(migrator)) => migration_outcome::<V>(
                migrator,
                contract,
                new_code_id,
                msg@,
                calls,
                r,
            ),
            _ => failed_before_call::<V>(calls, r),
        },
        CosmosMsg::Wasm(WasmMsg::UpdateAdmin { contract_addr, admin }) => match (
            V::parsed_address(admin@),
            V::parsed_address(contract_addr@),
        ) {
            (Some(new_admin), Some(contract)) => admin_change_outcome::<V>(
                sender,
                contract,
                Some(new_admin),
                calls,
                r,
            ),
            _ => failed_before_call::<V>(calls, r),
        },
        CosmosMsg::Wasm(WasmMsg::ClearAdmin { contract_addr }) => match V::parsed_address(
            contract_addr@,
        ) {
            Some(contract) => admin_change_outcome::<V>(sender, contract, None, calls, r),
            None => failed_before_call::<V>(calls, r),
        },
        CosmosMsg::Bank(BankMsg::Send { to_address, amount }) => match V::parsed_address(
            to_address@,
        ) {
            None => failed_before_call::<V>(calls, r),
            Some(to) => calls.len() == 1 && match calls[0] {
                VmCall::Transfer { to: t, funds, result } => t == to && funds == amount@ && no_data::<
                    V,
                >(result, r),
                _ => false,
            },
        },
        CosmosMsg::Bank(BankMsg::Burn { amount }) => calls.len() == 1 && match calls[0] {
            VmCall::Burn { funds, result } => funds == amount@ && no_data::<V>(result, r),
            _ => false,
        },
        _ => calls.len() == 0 && (r matches Err(e) && is_system_error::<V>(
            e,
            SystemError::UnsupportedMessage,
        )),
    }
}

/// Runs one submessage on the VM; the events it emits land in `sub_events`.
/// Messages the system layer does not handle are refused without a call.
fn run_submessage<V: CosmwasmVm>(
    vm: &mut V,
    info: &MessageInfo,
    msg: CosmosMsg<V::MessageCustom>,
    sub_events: &mut Vec<Event>,
) -> (r: Result<Option<Vec<u8>>, V::Error>)
    ensures
        old(vm).calls().is_prefix_of(final(vm).calls()),
        submessage_outcome::<V>(info.sender@, msg, calls_since(*old(vm), *final(vm)), r),
        events_view(final(sub_events)@) == events_view(old(sub_events)@) + events_of(
            calls_since(*old(vm), *final(vm)),
        ),
        unsupported_message(msg) ==> (r matches Err(e) && is_system_error::<V>(e, SystemError::UnsupportedMessage)),
        dataless_message(msg) ==> (r matches Ok(data) ==> data is None),
{
    let ghost before = *vm;
    let ghost ev0 = sub_events@;
    proof {
        assert(calls_since(before, before) =~= Seq::<VmCall<V>>::empty());
        assert(events_view(ev0) + events_of(Seq::<VmCall<V>>::empty()) =~= events_view(ev0));
    }
    match msg {
        CosmosMsg::Custom(message) => {
            let r = vm.message_custom(message, sub_events);
            proof {
                lemma_calls_since_one(before, *vm, vm.calls().last());
                lemma_events_extend(ev0, sub_events@);
            }
            r
        },
        CosmosMsg::Wasm(wasm_message) => match wasm_message {
            WasmMsg::Execute { contract_addr, msg, funds } => {
                let vm_contract_addr = V::address_from_text(contract_addr)?;
                let r = vm.continue_execute(vm_contract_addr, funds, msg.as_slice(), sub_events);
                proof {
                    lemma_calls_since_one(before, *vm, vm.calls().last());
                    lemma_events_extend(ev0, sub_events@);
                }
                r
            },
            WasmMsg::Instantiate { admin, code_id, msg, funds, label } => {
                let admin = match admin {
                    Some(admin) => Some(V::address_from_text(admin)?),
                    None => None,
                };
                let meta = CosmwasmContractMeta { code_id, admin, label };
                let answer = vm.continue_instantiate(meta, funds, msg.as_slice(), sub_events);
                proof {
                    lemma_calls_since_one(before, *vm, vm.calls().last());
                    lemma_events_extend(ev0, sub_events@);
                }
                match answer {
                    Ok((_, data)) => Ok(data),
                    Err(e) => Err(e),
                }
            },
            WasmMsg::Migrate { contract_addr, new_code_id, msg } => {
                let contract_addr = V::address_from_text(contract_addr)?;
                let sender = V::address_from_text(info.sender.clone())?;
                let ghost sender_view = sender@;
                let migrated = migrate::<V>(vm, sender, V::clone_address(&contract_addr), new_code_id);
                let ghost mid = *vm;
                proof {
                    lemma_admin_calls_push_no_events(
                        calls_since(before, mid),
                        contract_addr@,
                        |m: CosmwasmContractMeta<V::Address>| migrated_meta::<V>(sender_view, m, new_code_id),
                        migrated,
                    );
                }
                migrated?;
                let r = vm.continue_migrate(contract_addr, msg.as_slice(), sub_events);
                proof {
                    lemma_prefix_transitive(before.calls(), mid.calls(), vm.calls());
                    lemma_calls_since_one(mid, *vm, vm.calls().last());
                    lemma_calls_since_split(before, mid, *vm);
                    lemma_events_extend(ev0, sub_events@);
                    let all = calls_since(before, *vm);
                    let admin_calls = calls_since(before, mid);
                    assert(all =~= admin_calls.push(vm.calls().last()));
                    assert(all[all.len() - 2] == admin_calls[1]);
                }
                r
            },
            WasmMsg::UpdateAdmin { contract_addr, admin: new_admin } => {
                let new_admin = V::address_from_text(new_admin)?;
                let vm_contract_addr = V::address_from_text(contract_addr)?;
                let ghost new_admin_addr = Some(new_admin);
                let ghost contract_view = vm_contract_addr@;
                let updated = update_admin::<V>(vm, &info.sender, vm_contract_addr, Some(new_admin));
                proof {
                    lemma_admin_calls_push_no_events(
                        calls_since(before, *vm),
                        contract_view,
                        |m: CosmwasmContractMeta<V::Address>| admin_updated_meta::<V>(info.sender@, m, new_admin_addr),
                        updated,
                    );
                }
                updated?;
                Ok(None)
            },
            WasmMsg::ClearAdmin { contract_addr } => {
                let vm_contract_addr = V::address_from_text(contract_addr)?;
                let ghost contract_view = vm_contract_addr@;
                let updated = update_admin::<V>(vm, &info.sender, vm_contract_addr, None);
                proof {
                    lemma_admin_calls_push_no_events(
                        calls_since(before, *vm),
                        contract_view,
                        |m: CosmwasmContractMeta<V::Address>| admin_updated_meta::<V>(info.sender@, m, None),
                        updated,
                    );
                }
                updated?;
                Ok(None)
            },
            WasmMsg::Other => Err(system_error::<V>(SystemError::UnsupportedMessage)),
        },
        CosmosMsg::Bank(bank_message) => match bank_message {
            BankMsg::Send { to_address, amount } => {
                let vm_contract_addr = V::address_from_text(to_address)?;
                let sent = vm.transfer(&vm_contract_addr, amount.as_slice());
                proof {
                    lemma_calls_since_one(before, *vm, vm.calls().last());
                }
                sent?;
                Ok(None)
            },
            BankMsg::Burn { amount } => {
                let burnt = vm.burn(amount.as_slice());
                proof {
                    lemma_calls_since_one(before, *vm, vm.calls().last());
                }
                burnt?;
                Ok(None)
            },
            BankMsg::Other => Err(system_error::<V>(SystemError::UnsupportedMessage)),
        },
        CosmosMsg::Other => Err(system_error::<V>(SystemError::UnsupportedMessage)),
    }
}

/// The data of a dispatched submessage's result, or its error.
pub open spec fn data_of<V: CosmwasmVm>(r: Result<(Option<Vec<u8>>, Vec<Event>), V::Error>) -> Result<
    Option<Vec<u8>>,
    V::Error,
> {
    match r {
        Ok((data, _)) => Ok(data),
        Err(e) => Err(e),
    }
}

/// The calls a dispatched submessage makes and its result: the gas
/// checkpoint of its limit is pushed first (a failed push ends the dispatch
/// with its error), the message runs as [`submessage_outcome`] says, and the
/// checkpoint is popped last (a failed pop replaces the result with its
/// error).
pub open spec fn dispatch_outcome<V: CosmwasmVm>(
    sender: Seq<char>,
    msg: CosmosMsg<V::MessageCustom>,
    gas_limit: Option<u64>,
    calls: Seq<VmCall<V>>,
    r: Result<(Option<Vec<u8>>, Vec<Event>), V::Error>,
) -> bool {
    calls.len() >= 1 && match calls[0] {
        VmCall::GasCheckpointPush { checkpoint, result } => checkpoint == gas_checkpoint(gas_limit)
            && match result {
            Err(e) => calls.len() == 1 && r == Err::<(Option<Vec<u8>>, Vec<Event>), V::Error>(e),
            Ok(_) => calls.len() >= 2 && match calls.last() {
                VmCall::GasCheckpointPop { result: popped } => match popped {
                    Err(e) => r == Err::<(Option<Vec<u8>>, Vec<Event>), V::Error>(e),
                    Ok(_) => submessage_outcome::<V>(
                        sender,
                        msg,
                        calls.subrange(1, calls.len() - 1),
                        data_of::<V>(r),
                    ) && match r {
                        Ok((_, sub_events)) => events_view(sub_events@) == events_of(calls),
                        Err(_) => true,
                    },
                },
                _ => false,
            },
        },
        _ => false,
    }
}

/// Dispatches a submessage under its gas checkpoint. The events it emits are
/// added both to `events` and to the submessage's own events, which come
/// back with its data on success. A message the system layer does not
/// handle always fails.
pub fn dispatch_submessage<V: CosmwasmVm>(
    vm: &mut V,
    info: &MessageInfo,
    msg: CosmosMsg<V::MessageCustom>,
    gas_limit: Option<u64>,
    events: &mut Vec<Event>,
) -> (r: Result<(Option<Vec<u8>>, Vec<Event>), V::Error>)
    ensures
        old(vm).calls().is_prefix_of(final(vm).calls()),
        dispatch_outcome::<V>(info.sender@, msg, gas_limit, calls_since(*old(vm), *final(vm)), r),
        events_view(old(events)@).is_prefix_of(events_view(final(events)@)),
        events_view(final(events)@) == events_view(old(events)@) + events_of(
            calls_since(*old(vm), *final(vm)),
        ),
        unsupported_message(msg) ==> r is Err,
        dataless_message(msg) ==> (r matches Ok((data, _)) ==> data is None),
{
    let ghost before = events_view(events@);
    let ghost vm0 = *vm;
    let pushed = vm.gas_checkpoint_push(gas_checkpoint_for(gas_limit));
    proof {
        lemma_calls_since_one(vm0, *vm, vm.calls().last());
        assert(before + Seq::<EventView>::empty() =~= before);
    }
    if let Err(e) = pushed {
        return Err(e);
    }
    let ghost vm1 = *vm;
    let mut sub_events: Vec<Event> = Vec::new();
    let sub_result = run_submessage(vm, info, msg, &mut sub_events);
    let ghost vm2 = *vm;
    append_events(events, clone_events(&sub_events));
    assert(before.is_prefix_of(events_view(events@))) by {
        assert(events_view(events@).subrange(0, before.len() as int) =~= before);
    }
    let popped = vm.gas_checkpoint_pop();
    let r = match popped {
        Err(e) => Err(e),
        Ok(()) => match sub_result {
            Ok(data) => Ok((data, sub_events)),
            Err(e) => Err(e),
        },
    };
    proof {
        lemma_calls_since_one(vm2, *vm, vm.calls().last());
        lemma_calls_since_split(vm0, vm1, vm2);
        lemma_prefix_transitive(vm0.calls(), vm1.calls(), vm2.calls());
        lemma_calls_since_split(vm0, vm2, *vm);
        lemma_prefix_transitive(vm0.calls(), vm2.calls(), vm.calls());
        let all = calls_since(vm0, *vm);
        assert(all[0] == vm1.calls().last());
        assert(all.subrange(1, all.len() - 1) =~= calls_since(vm1, vm2));
        assert(all.last() == vm.calls().last());
        assert(events_of(all) =~= events_of(calls_since(vm1, vm2)));
        assert(events_view(sub_events@) == events_of(calls_since(vm1, vm2)));
    }
    r
}

/// The run's data after a reply answered `result`: the reply's data where
/// it produced some, else the data before (`current`); or the reply's
/// error.
pub open spec fn after_reply<V: CosmwasmVm>(
    result: Result<Option<Vec<u8>>, V::Error>,
    current: Option<Seq<u8>>,
    next: Result<Option<Seq<u8>>, V::Error>,
) -> bool {
    match result {
        Err(e) => next == Err::<Option<Seq<u8>>, V::Error>(e),
        Ok(v) => next == Ok::<Option<Seq<u8>>, V::Error>(first_some(opt_bytes(v), current)),
    }
}

/// How a round goes on after its transaction ended with `end`, from what
/// dispatching its submessage gave (`dispatched`) and the reply policy: a
/// failed ending stops the fold; a success is answered with a reply carrying
/// its events and data where the policy asks for one, else the run goes on
/// with its data unchanged; a failure is answered with a reply carrying the
/// error's reported text where the policy asks for one, else it stops the
/// fold. Only the data a reply produced replaces the run's data.
pub open spec fn after_round_end<V: CosmwasmVm>(
    sub: SubMsg<V::MessageCustom>,
    chunk: Seq<VmCall<V>>,
    data_before: Option<Seq<u8>>,
    end_at: int,
    dispatched: Result<(Option<Vec<u8>>, Vec<Event>), V::Error>,
    end: Result<(), V::Error>,
    next: Result<Option<Seq<u8>>, V::Error>,
) -> bool {
    match end {
        Err(e) => chunk.len() == end_at + 1 && next == Err::<Option<Seq<u8>>, V::Error>(e),
        Ok(_) => match dispatched {
            Ok((data, events)) => if replies_on_success(sub.reply_on) {
                chunk.len() == end_at + 2 && match chunk[end_at + 1] {
                    VmCall::ContinueReply { reply, result, .. } => reply == Reply {
                        id: sub.id,
                        result: Ok(SubMsgResponse { events, data }),
                    } && after_reply::<V>(result, data_before, next),
                    _ => false,
                }
            } else {
                chunk.len() == end_at + 1 && next == Ok::<Option<Seq<u8>>, V::Error>(data_before)
            },
            Err(e) => if replies_on_error(sub.reply_on) {
                chunk.len() == end_at + 2 && match chunk[end_at + 1] {
                    VmCall::ContinueReply { reply, result, .. } => reply.id == sub.id && match reply.result {
                        Err(text) => text@ == V::reported_text(e),
                        Ok(_) => false,
                    } && after_reply::<V>(result, data_before, next),
                    _ => false,
                }
            } else {
                chunk.len() == end_at + 1 && next == Err::<Option<Seq<u8>>, V::Error>(e)
            },
        },
    }
}

/// One round of the fold over submessages, given where its transaction was
/// ended in its calls (`end_at`) and what dispatching the submessage gave:
/// a transaction is opened (a failed opening stops the fold), the submessage
/// is dispatched as [`dispatch_outcome`] says, the transaction is committed
/// where that succeeded and rolled back where it failed, and the round goes
/// on as [`after_round_end`] says. `next` is the run's data after the round,
/// or the error that stops the fold.
pub open spec fn round_holds<V: CosmwasmVm>(
    sender: Seq<char>,
    sub: SubMsg<V::MessageCustom>,
    chunk: Seq<VmCall<V>>,
    data_before: Option<Seq<u8>>,
    end_at: int,
    dispatched: Result<(Option<Vec<u8>>, Vec<Event>), V::Error>,
    next: Result<Option<Seq<u8>>, V::Error>,
) -> bool {
    chunk.len() >= 1 && match chunk[0] {
        VmCall::TransactionBegin { result: Err(e) } => chunk.len() == 1 && next == Err::<
            Option<Seq<u8>>,
            V::Error,
        >(e),
        VmCall::TransactionBegin { result: Ok(_) } => 1 <= end_at < chunk.len() && dispatch_outcome::<
            V,
        >(sender, sub.msg, sub.gas_limit, chunk.subrange(1, end_at), dispatched) && match chunk[end_at] {
            VmCall::TransactionCommit { result: end } => dispatched is Ok && after_round_end::<V>(
                sub,
                chunk,
                data_before,
                end_at,
                dispatched,
                end,
                next,
            ),
            VmCall::TransactionRollback { result: end } => dispatched is Err && after_round_end::<V>(
                sub,
                chunk,
                data_before,
                end_at,
                dispatched,
                end,
                next,
            ),
            _ => false,
        },
        _ => false,
    }
}

/// Whether `chunk` holds the calls of one round of the fold over
/// submessages, for the submessage `sub` with the run's data `data_before`,
/// and `next` is what came of it.
pub open spec fn round_ok<V: CosmwasmVm>(
    sender: Seq<char>,
    sub: SubMsg<V::MessageCustom>,
    chunk: Seq<VmCall<V>>,
    data_before: Option<Seq<u8>>,
    next: Result<Option<Seq<u8>>, V::Error>,
) -> bool {
    exists|end_at: int, dispatched: Result<(Option<Vec<u8>>, Vec<Event>), V::Error>|
        #[trigger] round_holds::<V>(sender, sub, chunk, data_before, end_at, dispatched, next)
}

/// The run's data, or the error, by its view.
pub open spec fn data_view<V: CosmwasmVm>(r: Result<Option<Vec<u8>>, V::Error>) -> Result<
    Option<Seq<u8>>,
    V::Error,
> {
    match r {
        Ok(d) => Ok(opt_bytes(d)),
        Err(e) => Err(e),
    }
}

/// Runs one round of the fold over submessages: dispatches `sub` in a
/// transaction of its own and answers it with a reply where its policy asks
/// for one. Gives the run's data after the round, or the error that stops
/// the fold.
fn dispatch_round<V: CosmwasmVm>(
    vm: &mut V,
    info: &MessageInfo,
    sub: SubMsg<V::MessageCustom>,
    current: Option<Vec<u8>>,
    events: &mut Vec<Event>,
) -> (r: Result<Option<Vec<u8>>, V::Error>)
    ensures
        old(vm).calls().is_prefix_of(final(vm).calls()),
        events_view(final(events)@) == events_view(old(events)@) + events_of(
            calls_since(*old(vm), *final(vm)),
        ),
        round_ok::<V>(
            info.sender@,
            sub,
            calls_since(*old(vm), *final(vm)),
            opt_bytes(current),
            data_view::<V>(r),
        ),
{
    let ghost sub0 = sub;
    let ghost cur0 = opt_bytes(current);
    let ghost vm0 = *vm;
    let ghost ev0 = events_view(events@);
    let SubMsg { id, msg, gas_limit, reply_on } = sub;
    let begun = vm.transaction_begin();
    proof {
        lemma_calls_since_one(vm0, *vm, vm.calls().last());
        assert(ev0 + Seq::<EventView>::empty() =~= ev0);
    }
    if let Err(e) = begun {
        proof {
            let chunk = calls_since(vm0, *vm);
            assert(round_holds::<V>(info.sender@, sub0, chunk, cur0, 0, Err(e), data_view::<V>(Err(e))));
        }
        return Err(e);
    }
    let ghost vm1 = *vm;
    let sub_res = dispatch_submessage(vm, info, msg, gas_limit, events);
    let ghost vm2 = *vm;
    let ghost sub_res0 = sub_res;
    let ended = end_transaction(vm, transaction_outcome(&sub_res));
    let ghost vm3 = *vm;
    proof {
        lemma_calls_since_split(vm0, vm1, vm2);
        lemma_prefix_transitive(vm0.calls(), vm1.calls(), vm2.calls());
        lemma_calls_since_one(vm2, vm3, vm3.calls().last());
        lemma_calls_since_split(vm0, vm2, vm3);
        lemma_prefix_transitive(vm0.calls(), vm2.calls(), vm3.calls());
        let chunk = calls_since(vm0, vm3);
        let end_at = chunk.len() - 1;
        assert(chunk[0] == vm1.calls().last());
        assert(chunk.subrange(1, end_at) =~= calls_since(vm1, vm2));
        assert(chunk[end_at] == vm3.calls().last());
        assert(events_of(chunk) =~= events_of(calls_since(vm1, vm2)));
        assert(events_view(events@) =~= ev0 + events_of(chunk));
    }
    if let Err(e) = ended {
        proof {
            let chunk = calls_since(vm0, vm3);
            assert(round_holds::<V>(info.sender@, sub0, chunk, cur0, chunk.len() - 1, sub_res0, data_view::<V>(Err(e))));
        }
        return Err(e);
    }
    let r = match sub_call_continuation::<V>(sub_res, reply_on) {
        SubCallContinuation::Continue(_) => {
            let r = Ok(current);
            proof {
                let chunk = calls_since(vm0, vm3);
                assert(round_holds::<V>(info.sender@, sub0, chunk, cur0, chunk.len() - 1, sub_res0, data_view::<V>(r)));
            }
            r
        },
        SubCallContinuation::Abort(e) => {
            proof {
                let chunk = calls_since(vm0, vm3);
                assert(round_holds::<V>(info.sender@, sub0, chunk, cur0, chunk.len() - 1, sub_res0, data_view::<V>(Err(e))));
            }
            Err(e)
        },
        SubCallContinuation::Reply(response) => {
            let mut reply_events: Vec<Event> = Vec::new();
            let ghost mid = events_view(events@);
            let ghost empty_events = reply_events@;
            let replied = vm.continue_reply(Reply { id, result: response }, &mut reply_events);
            let ghost emitted = reply_events@;
            append_events(events, reply_events);
            let r = match replied {
                Err(e) => Err(e),
                Ok(v) => Ok(reply_data(v, current)),
            };
            proof {
                assert(empty_events.len() == 0);
                assert(emitted.skip(0) =~= emitted);
                lemma_calls_since_one(vm3, *vm, vm.calls().last());
                lemma_calls_since_split(vm0, vm3, *vm);
                lemma_prefix_transitive(vm0.calls(), vm3.calls(), vm.calls());
                let chunk = calls_since(vm0, *vm);
                let end_at = chunk.len() - 2;
                assert(chunk.subrange(1, end_at) =~= calls_since(vm1, vm2));
                assert(chunk[0] == vm1.calls().last());
                assert(chunk[end_at] == vm3.calls().last());
                assert(chunk[end_at + 1] == vm.calls().last());
                assert(call_events(vm.calls().last()) == events_view(emitted));
                assert(events_view(events@) =~= ev0 + events_of(chunk));
                assert(round_holds::<V>(info.sender@, sub0, chunk, cur0, end_at, sub_res0, data_view::<V>(r)));
            }
            r
        },
    };
    r
}

/// Whether the `i`-th round of a fold over `messages`, whose calls lie
/// between `bounds[i]` and `bounds[i + 1]`, went on with the run's data
/// `datas[i + 1]` from `datas[i]`.
pub open spec fn round_went_on<V: CosmwasmVm>(
    sender: Seq<char>,
    messages: Seq<SubMsg<V::MessageCustom>>,
    calls: Seq<VmCall<V>>,
    bounds: Seq<int>,
    datas: Seq<Option<Seq<u8>>>,
    i: int,
) -> bool {
    bounds[i] <= bounds[i + 1] && round_ok::<V>(
        sender,
        messages[i],
        calls.subrange(bounds[i], bounds[i + 1]),
        datas[i],
        Ok(datas[i + 1]),
    )
}

/// Whether the calls of a fold over `messages`, from the run's data `data`,
/// split at `bounds` into one round per submessage handled, the run's data
/// before each round being in `datas`, and `r` is what came of it: the data
/// after the last round where every submessage went on, or the error of the
/// round that stopped the fold, after which no submessage is handled.
pub open spec fn fold_holds<V: CosmwasmVm>(
    sender: Seq<char>,
    messages: Seq<SubMsg<V::MessageCustom>>,
    data: Option<Seq<u8>>,
    calls: Seq<VmCall<V>>,
    bounds: Seq<int>,
    datas: Seq<Option<Seq<u8>>>,
    r: Result<Option<Seq<u8>>, V::Error>,
) -> bool {
    let n = datas.len() - 1;
    &&& datas.len() >= 1
    &&& bounds.len() == datas.len()
    &&& n <= messages.len()
    &&& bounds[0] == 0
    &&& datas[0] == data
    &&& bounds[n] <= calls.len()
    &&& forall|i: int| 0 <= i < n ==> #[trigger] round_went_on::<V>(sender, messages, calls, bounds, datas, i)
    &&& match r {
        Ok(d) => n == messages.len() && bounds[n] == calls.len() && d == datas[n],
        Err(e) => n < messages.len() && round_ok::<V>(
            sender,
            messages[n],
            calls.subrange(bounds[n], calls.len() as int),
            datas[n],
            Err(e),
        ),
    }
}

/// The calls of a fold over submessages and its result: the submessages are
/// handled in order, each in one round as [`round_ok`] says, from the run's
/// data `data`, until one stops the fold.
pub open spec fn submessages_outcome<V: CosmwasmVm>(
    sender: Seq<char>,
    messages: Seq<SubMsg<V::MessageCustom>>,
    data: Option<Seq<u8>>,
    calls: Seq<VmCall<V>>,
    r: Result<Option<Seq<u8>>, V::Error>,
) -> bool {
    exists|bounds: Seq<int>, datas: Seq<Option<Seq<u8>>>|
        #[trigger] fold_holds::<V>(sender, messages, data, calls, bounds, datas, r)
}

/// Dispatches the submessages of a response in order, folding the run's
/// data, starting from `data`, over them. Without submessages there is
/// nothing to ask of the VM: the run's data stays `data`.
fn dispatch_submessages<V: CosmwasmVm>(
    vm: &mut V,
    info: &MessageInfo,
    messages: Vec<SubMsg<V::MessageCustom>>,
    data: Option<Vec<u8>>,
    events: &mut Vec<Event>,
) -> (r: Result<Option<Vec<u8>>, V::Error>)
    ensures
        old(vm).calls().is_prefix_of(final(vm).calls()),
        events_view(old(events)@).is_prefix_of(events_view(final(events)@)),
        events_view(final(events)@) == events_view(old(events)@) + events_of(
            calls_since(*old(vm), *final(vm)),
        ),
        submessages_outcome::<V>(
            info.sender@,
            messages@,
            opt_bytes(data),
            calls_since(*old(vm), *final(vm)),
            data_view::<V>(r),
        ),
        messages@.len() == 0 ==> r == Ok::<Option<Vec<u8>>, V::Error>(data) && final(events)@
            == old(events)@ && final(vm).calls() == old(vm).calls(),
{
    let ghost start = events_view(events@);
    let ghost sender = info.sender@;
    let ghost all_messages = messages@;
    let ghost data0 = data;
    let ghost mut bounds: Seq<int> = seq![0];
    let ghost mut datas: Seq<Option<Seq<u8>>> = seq![opt_bytes(data)];
    let ghost mut k: int = 0;
    let mut current = data;
    let mut rest = messages;
    proof {
        assert(calls_since(*old(vm), *vm) =~= Seq::<VmCall<V>>::empty());
        assert(rest@ =~= all_messages.skip(0));
        assert(start + events_of(calls_since(*old(vm), *vm)) =~= start);
    }
    while rest.len() > 0
        invariant
            start == events_view(old(events)@),
            start.is_prefix_of(events_view(events@)),
            events_view(events@) == start + events_of(calls_since(*old(vm), *vm)),
            sender == info.sender@,
            data0 == data,
            all_messages == messages@,
            old(vm).calls().is_prefix_of(vm.calls()),
            0 <= k <= all_messages.len(),
            rest@ == all_messages.skip(k),
            bounds.len() == k + 1,
            datas.len() == k + 1,
            bounds[0] == 0,
            datas[0] == opt_bytes(data0),
            bounds[k] == calls_since(*old(vm), *vm).len(),
            datas[k] == opt_bytes(current),
            forall|i: int| 0 <= i <= k ==> 0 <= #[trigger] bounds[i] <= bounds[k],
            forall|i: int| 0 <= i < k ==> #[trigger] round_went_on::<V>(
                sender,
                all_messages,
                calls_since(*old(vm), *vm),
                bounds,
                datas,
                i,
            ),
            k == 0 ==> current == data0 && events@ == old(events)@ && vm.calls() == old(vm).calls(),
        decreases rest@.len(),
    {
        let sub = rest.remove(0);
        let ghost vmb = *vm;
        let step = dispatch_round(vm, info, sub, current, events);
        proof {
            lemma_prefix_transitive(old(vm).calls(), vmb.calls(), vm.calls());
            lemma_calls_since_split(*old(vm), vmb, *vm);
            assert(events_view(events@) =~= start + events_of(calls_since(*old(vm), *vm)));
            assert(start.is_prefix_of(events_view(events@))) by {
                assert(events_view(events@).subrange(0, start.len() as int) =~= start);
            }
            assert(all_messages.skip(k)[0] == all_messages[k]);
            let prev = calls_since(*old(vm), vmb);
            let all = calls_since(*old(vm), *vm);
            assert(prev.is_prefix_of(all));
            assert forall|i: int| 0 <= i < k implies #[trigger] round_went_on::<V>(
                sender,
                all_messages,
                all,
                bounds,
                datas,
                i,
            ) by {
                assert(round_went_on::<V>(sender, all_messages, prev, bounds, datas, i));
                assert(bounds[i + 1] <= bounds[k]);
                assert(all.subrange(bounds[i], bounds[i + 1]) =~= prev.subrange(bounds[i], bounds[i + 1]));
            }
            assert(all.subrange(bounds[k], all.len() as int) =~= calls_since(vmb, *vm));
        }
        match step {
            Err(e) => {
                proof {
                    let all = calls_since(*old(vm), *vm);
                    assert(fold_holds::<V>(sender, all_messages, opt_bytes(data0), all, bounds, datas, data_view::<V>(Err(e))));
                }
                return Err(e);
            },
            Ok(d) => {
                proof {
                    let all = calls_since(*old(vm), *vm);
                    let k0 = k;
                    let bounds0 = bounds;
                    let datas0 = datas;
                    bounds = bounds.push(all.len() as int);
                    datas = datas.push(opt_bytes(d));
                    k = k + 1;
                    assert(round_went_on::<V>(sender, all_messages, all, bounds, datas, k0)) by {
                        assert(bounds[k0] == bounds0[k0]);
                        assert(datas[k0] == datas0[k0]);
                    }
                    assert forall|i: int| 0 <= i < k implies #[trigger] round_went_on::<V>(
                        sender,
                        all_messages,
                        all,
                        bounds,
                        datas,
                        i,
                    ) by {
                        if i < k0 {
                            assert(round_went_on::<V>(sender, all_messages, all, bounds0, datas0, i));
                            assert(bounds[i] == bounds0[i] && bounds[i + 1] == bounds0[i + 1]);
                            assert(datas[i] == datas0[i] && datas[i + 1] == datas0[i + 1]);
                        }
                    }
                    assert forall|i: int| 0 <= i <= k implies 0 <= #[trigger] bounds[i] <= bounds[k] by {
                        if i < k {
                            assert(bounds[i] == bounds0[i]);
                            assert(bounds0[i] <= bounds0[k0]);
                        }
                    }
                    assert(all_messages.skip(k0).skip(1) =~= all_messages.skip(k));
                }
                current = d;
            },
        }
    }
    proof {
        assert(all_messages.skip(k).len() == 0);
        assert(fold_holds::<V>(sender, all_messages, opt_bytes(data0), calls_since(*old(vm), *vm), bounds, datas, data_view::<V>(Ok(current))));
    }
    Ok(current)
}

/// The response of a contract entry point, from what the call answered: a
/// failed call keeps its error, and an error the contract reported becomes
/// a contract execution failure carrying its message.
pub fn contract_response<V: CosmwasmVm>(
    output: Result<ContractResult<Response<V::MessageCustom>>, V::Error>,
) -> (r: Result<Response<V::MessageCustom>, V::Error>)
    ensures
        match output {
            Ok(Ok(response)) => r == Ok::<Response<V::MessageCustom>, V::Error>(response),
            Ok(Err(message)) => r matches Err(e) && is_system_error::<V>(
                e,
                SystemError::ContractExecutionFailure(message),
            ),
            Err(e) => r == Err::<Response<V::MessageCustom>, V::Error>(e),
        },
{
    match output {
        Ok(Ok(response)) => Ok(response),
        Ok(Err(message)) => Err(system_error::<V>(SystemError::ContractExecutionFailure(message))),
        Err(e) => Err(e),
    }
}

/// What a run of the entry point `I` emits before its submessages: the
/// system event of `I` for the contract at `address` with code `code_id`,
/// then the contract's attributes and custom events as accepted and tagged
/// with that address.
pub open spec fn run_events<I: HasEvent>(
    address: Seq<char>,
    code_id: CosmwasmCodeId,
    attributes: Seq<AttributeView>,
    custom: Seq<EventView>,
) -> Seq<EventView> {
    seq![generated_event(I::TYPE, I::HAS_CODE_ID, address, code_id)] + contract_events(
        address,
        attributes,
        custom,
    ).0
}

/// Whether a list of events opens with what a successful run of the entry
/// point `I` emits before its submessages, for some contract, code id and
/// contract response whose attributes and events were all accepted.
pub open spec fn opens_with_run_events<I: HasEvent>(events: Seq<EventView>) -> bool {
    exists|address: Seq<char>, code_id: CosmwasmCodeId, attributes: Seq<AttributeView>, custom: Seq<EventView>|
        #![trigger run_events::<I>(address, code_id, attributes, custom)]
        {
            &&& contract_events(address, attributes, custom).1 is None
            &&& run_events::<I>(address, code_id, attributes, custom).is_prefix_of(events)
        }
}

/// The events and result of handling the response of the entry point `I` of
/// the contract at `address`, given what reading the running contract's
/// metadata answered (`meta_read`) and the calls made after it (`later`): a
/// failed read fails with its error and emits nothing; else the run's events
/// are emitted with the code id read, and where the contract's attributes or
/// events are refused, it fails with the refusal; else its submessages are
/// folded over as [`submessages_outcome`] says, from the response's data,
/// the result is the fold's, and the events after the run's are exactly
/// those the fold's calls pushed. `sender` is the sender of the message
/// being executed; `before` and `after` are the event lists before and
/// after.
pub open spec fn handled_response<I: HasEvent, V: CosmwasmVm>(
    sender: Seq<char>,
    address: Seq<char>,
    response: Response<V::MessageCustom>,
    meta_read: VmCall<V>,
    later: Seq<VmCall<V>>,
    before: Seq<EventView>,
    after: Seq<EventView>,
    r: Result<Option<Vec<u8>>, V::Error>,
) -> bool {
    match meta_read {
        VmCall::RunningContractMeta { result: Err(e) } => r == Err::<Option<Vec<u8>>, V::Error>(e)
            && after == before && later.len() == 0,
        VmCall::RunningContractMeta { result: Ok(meta) } => {
            let attributes = attributes_view(response.attributes@);
            let custom = events_view(response.events@);
            let emitted = before + run_events::<I>(address, meta.code_id, attributes, custom);
            match contract_events(address, attributes, custom).1 {
                Some(refusal) => after == emitted && later.len() == 0 && (r matches Err(e)
                    && is_system_error::<V>(e, refusal)),
                None => after == emitted + events_of(later) && submessages_outcome::<V>(
                    sender,
                    response.messages@,
                    opt_bytes(response.data),
                    later,
                    data_view::<V>(r),
                ) && (response.messages@.len() == 0 ==> (r == Ok::<Option<Vec<u8>>, V::Error>(
                    response.data,
                ) && after == emitted && later.len() == 0)),
            }
        },
        _ => false,
    }
}

/// Handles the response of the entry point `I` of the contract at
/// `contract_address`: reads the running contract's metadata, emits the
/// system event of `I` with the contract's code id, then the contract's own
/// attributes and events, then dispatches its submessages in order, with
/// the response's data as the run's data to start from. The events added to
/// `events` are exactly those and the ones the submessages' calls pushed.
pub fn cosmwasm_system_handle_response<I: HasEvent, V: CosmwasmVm>(
    vm: &mut V,
    info: &MessageInfo,
    contract_address: &String,
    response: Response<V::MessageCustom>,
    events: &mut Vec<Event>,
) -> (r: Result<Option<Vec<u8>>, V::Error>)
    ensures
        old(vm).calls().is_prefix_of(final(vm).calls()),
        final(vm).calls().len() > old(vm).calls().len(),
        handled_response::<I, V>(
            info.sender@,
            contract_address@,
            response,
            final(vm).calls()[old(vm).calls().len() as int],
            final(vm).calls().skip(old(vm).calls().len() + 1 as int),
            events_view(old(events)@),
            events_view(final(events)@),
            r,
        ),
{
    let ghost response0 = response;
    let ghost n = vm.calls().len();
    let read = vm.running_contract_meta();
    let ghost vm1 = *vm;
    assert(vm.calls()[n as int] == vm.calls().last());
    let meta = match read {
        Err(e) => {
            assert(vm.calls().skip(n + 1 as int) =~= Seq::<VmCall<V>>::empty());
            return Err(e);
        },
        Ok(meta) => meta,
    };
    let Response { messages, attributes, events: contract_events, data } = response;
    let ghost before = events_view(events@);
    let ghost attributes0 = attributes_view(attributes@);
    let ghost custom0 = events_view(contract_events@);
    let event = I::generate_event(contract_address.clone(), meta.code_id);
    events.push(event);
    assert(events_view(events@) =~= before.push(event@));
    let emitted = emit_contract_events(events, contract_address, attributes, contract_events);
    assert(before.is_prefix_of(events_view(events@))) by {
        assert(events_view(events@).subrange(0, before.len() as int) =~= before);
    }
    let ghost after_emit = events_view(events@);
    let ghost expected = run_events::<I>(contract_address@, meta.code_id, attributes0, custom0);
    assert(after_emit =~= before + expected);
    match emitted {
        Err(e) => {
            assert(vm.calls().skip(n + 1 as int) =~= Seq::<VmCall<V>>::empty());
            Err(system_error::<V>(e))
        },
        Ok(()) => {
            let r = dispatch_submessages(vm, info, messages, data, events);
            proof {
                lemma_prefix_transitive(old(vm).calls(), vm1.calls(), vm.calls());
                assert(vm.calls()[n as int] == vm1.calls()[n as int]);
                assert(vm.calls().skip(n + 1 as int) =~= calls_since(vm1, *vm));
                if response0.messages@.len() == 0 {
                    assert(vm.calls().skip(n + 1 as int) =~= Seq::<VmCall<V>>::empty());
                }
            }
            r
        },
    }
}

/// Moves the funds of the message from its sender to the contract; fails
/// without a call where either address does not parse.
fn move_funds<V: CosmwasmVm>(vm: &mut V, info: &MessageInfo, env: &Env) -> (r: Result<(), V::Error>)
    ensures
        old(vm).calls().is_prefix_of(final(vm).calls()),
        match (V::parsed_address(info.sender@), V::parsed_address(env.contract.address@)) {
            (Some(from), Some(to)) => calls_since(*old(vm), *final(vm)) == seq![
                VmCall::<V>::TransferFrom { from, to, funds: info.funds@, result: r },
            ],
            _ => calls_since(*old(vm), *final(vm)).len() == 0 && r is Err,
        },
{
    let sender = V::address_from_text(info.sender.clone())?;
    let contract = V::address_from_text(env.contract.address.clone())?;
    let r = vm.transfer_from(&sender, &contract, info.funds.as_slice());
    assert(calls_since(*old(vm), *vm) =~= seq![vm.calls().last()]);
    r
}

/// The calls a run of the entry point `I` makes and its result, for the
/// message `message` with the message information `info` in the
/// environment `env`: the message's funds are moved from the address its
/// sender parses to to the contract's (where an address does not parse, the
/// run fails without a call), the entry point is called with the message, and its response is
/// handled as [`handled_response`] says; a failed call, or an error the
/// contract reported, fails the run without emitting anything. `before` and
/// `after` are the event lists before and after.
pub open spec fn run_outcome<I: HasEvent, V: CosmwasmVm>(
    info: MessageInfo,
    env: Env,
    message: Seq<u8>,
    calls: Seq<VmCall<V>>,
    before: Seq<EventView>,
    after: Seq<EventView>,
    r: Result<Option<Vec<u8>>, V::Error>,
) -> bool {
    match (V::parsed_address(info.sender@), V::parsed_address(env.contract.address@)) {
        (Some(from), Some(to)) => calls.len() >= 1 && match calls[0] {
        VmCall::TransferFrom { from: f, to: t, funds, result } => f == from && t == to && funds
            == info.funds@ && match result {
            Err(e) => calls.len() == 1 && r == Err::<Option<Vec<u8>>, V::Error>(e) && after == before,
            Ok(_) => calls.len() >= 2 && match calls[1] {
                VmCall::Call { message: m, result: output } => m == message && match output {
                    Ok(Ok(response)) => calls.len() >= 3 && handled_response::<I, V>(
                        info.sender@,
                        env.contract.address@,
                        response,
                        calls[2],
                        calls.skip(3),
                        before,
                        after,
                        r,
                    ),
                    Ok(Err(text)) => calls.len() == 2 && after == before && (r matches Err(e)
                        && is_system_error::<V>(e, SystemError::ContractExecutionFailure(text))),
                    Err(e) => calls.len() == 2 && after == before && r == Err::<
                        Option<Vec<u8>>,
                        V::Error,
                    >(e),
                },
                _ => false,
            },
        },
        _ => false,
    },
        _ => calls.len() == 0 && r is Err && after == before,
    }
}

/// What follows the hook of a run, from what it answered (`output`) and the
/// VM it left (`left`), up to the VM at the end (`end`): a response is
/// handled as [`handled_response`] says, from the calls made after the
/// hook; a failed call, or an error the contract reported, fails the run
/// right away without emitting anything.
pub open spec fn after_hook<I: HasEvent, V: CosmwasmVm>(
    info: MessageInfo,
    env: Env,
    output: Result<ContractResult<Response<V::MessageCustom>>, V::Error>,
    left: V,
    end: V,
    before: Seq<EventView>,
    after: Seq<EventView>,
    r: Result<Option<Vec<u8>>, V::Error>,
) -> bool {
    match output {
        Ok(Ok(response)) => left.calls().is_prefix_of(end.calls()) && end.calls().len()
            > left.calls().len() && handled_response::<I, V>(
            info.sender@,
            env.contract.address@,
            response,
            end.calls()[left.calls().len() as int],
            end.calls().skip(left.calls().len() + 1 as int),
            before,
            after,
            r,
        ),
        Ok(Err(text)) => end == left && after == before && (r matches Err(e) && is_system_error::<V>(
            e,
            SystemError::ContractExecutionFailure(text),
        )),
        Err(e) => end == left && after == before && r == Err::<Option<Vec<u8>>, V::Error>(e),
    }
}

/// A run of an entry point through a hook, from the VM `start` to the VM
/// `end`, that stopped before the hook: where an address does not parse,
/// without a call; where moving the message's funds failed, with its error.
pub open spec fn stopped_before_hook<V: CosmwasmVm>(
    start: V,
    end: V,
    before: Seq<EventView>,
    after: Seq<EventView>,
    r: Result<Option<Vec<u8>>, V::Error>,
) -> bool {
    let info = start.current_info();
    after == before && match (
        V::parsed_address(info.sender@),
        V::parsed_address(start.current_env().contract.address@),
    ) {
        (Some(from), Some(to)) => match r {
            Err(e) => end.calls() == start.calls().push(
                VmCall::TransferFrom { from, to, funds: info.funds@, result: Err(e) },
            ),
            Ok(_) => false,
        },
        _ => end.calls() == start.calls() && r is Err,
    }
}

/// A run of an entry point through a hook, from the VM `start` to the VM
/// `end`, whose hook was called on the VM `entered`, answered `output` and
/// left the VM `left`: the message's funds were moved first, with the
/// addresses its sender and the contract parse to, and the run went on as
/// [`after_hook`] says.
pub open spec fn went_through_hook<I: HasEvent, V: CosmwasmVm>(
    start: V,
    entered: V,
    output: Result<ContractResult<Response<V::MessageCustom>>, V::Error>,
    left: V,
    end: V,
    before: Seq<EventView>,
    after: Seq<EventView>,
    r: Result<Option<Vec<u8>>, V::Error>,
) -> bool {
    let info = start.current_info();
    let env = start.current_env();
    match (V::parsed_address(info.sender@), V::parsed_address(env.contract.address@)) {
        (Some(from), Some(to)) => entered.calls().len() == start.calls().len() + 1
            && entered.calls().drop_last() == start.calls() && match entered.calls().last() {
            VmCall::TransferFrom { from: f, to: t, funds, result: Ok(_) } => f == from && t == to
                && funds == info.funds@,
            _ => false,
        } && after_hook::<I, V>(info, env, output, left, end, before, after, r),
        _ => false,
    }
}

/// Where the events after `before` are those a run of the entry point `I`
/// emits for an accepted response before its submessages, then others, they
/// open with the run's events.
proof fn lemma_opens_with_run_events<I: HasEvent, V: CosmwasmVm>(
    before: Seq<EventView>,
    fin: Seq<EventView>,
    address: Seq<char>,
    code_id: CosmwasmCodeId,
    response: Response<V::MessageCustom>,
)
    requires
        contract_events(address, attributes_view(response.attributes@), events_view(response.events@)).1 is None,
        (before + run_events::<I>(
            address,
            code_id,
            attributes_view(response.attributes@),
            events_view(response.events@),
        )).is_prefix_of(fin),
    ensures
        opens_with_run_events::<I>(fin.skip(before.len() as int)),
{
    let attributes = attributes_view(response.attributes@);
    let custom = events_view(response.events@);
    let expected = run_events::<I>(address, code_id, attributes, custom);
    let added = fin.skip(before.len() as int);
    assert forall|j: int| 0 <= j < expected.len() implies added[j] == expected[j] by {
        assert(added[j] == fin[before.len() + j]);
        assert(fin.subrange(0, (before + expected).len() as int)[before.len() + j] == fin[before.len() + j]);
        assert((before + expected)[before.len() + j] == expected[j]);
    }
    assert(added.subrange(0, expected.len() as int) =~= expected);
    assert(expected.is_prefix_of(added));
}

/// Runs an entry point of the running contract through `hook`, after moving
/// the funds of the message from its sender to the contract, and handles the
/// contract's response as [`cosmwasm_system_handle_response`] does. Events
/// are only ever added to `events`.
pub fn cosmwasm_system_run_hook<I: HasEvent, V: CosmwasmVm>(
    vm: &mut V,
    message: &[u8],
    events: &mut Vec<Event>,
    hook: impl FnOnce(&mut V, &[u8]) -> Result<ContractResult<Response<V::MessageCustom>>, V::Error>,
) -> (r: Result<Option<Vec<u8>>, V::Error>)
    requires
        forall|v: &mut V, m: &[u8]| call_requires(hook, (v, m)),
    ensures
        stopped_before_hook::<V>(
            *old(vm),
            *final(vm),
            events_view(old(events)@),
            events_view(final(events)@),
            r,
        ) || exists|v: &mut V, output: Result<ContractResult<Response<V::MessageCustom>>, V::Error>|
            #[trigger] call_ensures(hook, (v, message), output) && went_through_hook::<I, V>(
                *old(vm),
                *v,
                output,
                *final(v),
                *final(vm),
                events_view(old(events)@),
                events_view(final(events)@),
                r,
            ),
        events_view(old(events)@).is_prefix_of(events_view(final(events)@)),
        r is Ok ==> opens_with_run_events::<I>(
            events_view(final(events)@).skip(old(events)@.len() as int),
        ),
{
    let info = vm.message_info();
    let env = vm.env();
    assert(events_view(events@).subrange(0, events@.len() as int) =~= events_view(events@));
    let moved_funds = move_funds(vm, &info, &env);
    proof {
        let calls = calls_since(*old(vm), *vm);
        if calls.len() == 0 {
            assert(vm.calls() =~= old(vm).calls());
        } else {
            assert(vm.calls() =~= old(vm).calls().push(calls[0]));
        }
    }
    if let Err(e) = moved_funds {
        return Err(e);
    }
    let ghost moved = *vm;
    assert(moved.calls().drop_last() =~= old(vm).calls());
    let output = hook(vm, message);
    let ghost left = *vm;
    let ghost output0 = output;
    let response = match contract_response::<V>(output) {
        Err(e) => {
            assert(went_through_hook::<I, V>(*old(vm), moved, output0, left, *vm, events_view(old(events)@), events_view(events@), Err(e)));
            return Err(e);
        },
        Ok(response) => response,
    };
    let ghost before = events_view(events@);
    let ghost n = vm.calls().len();
    let ghost response0 = response;
    let r = cosmwasm_system_handle_response::<I, V>(vm, &info, &env.contract.address, response, events);
    proof {
        if r is Ok {
            let meta_read = vm.calls()[n as int];
            if let VmCall::RunningContractMeta { result: Ok(meta) } = meta_read {
                lemma_opens_with_run_events::<I, V>(
                    before,
                    events_view(events@),
                    env.contract.address@,
                    meta.code_id,
                    response0,
                );
            }
        }
    }
    r
}

/// Runs the entry point `I` of the running contract on a message: moves the
/// message's funds from its sender to the contract, calls the entry point,
/// and handles its response as [`cosmwasm_system_handle_response`] does, as
/// [`cosmwasm_system_run_hook`] does with the VM's own call.
pub fn cosmwasm_system_run<I: HasEvent, V: CosmwasmVm>(
    vm: &mut V,
    message: &[u8],
    events: &mut Vec<Event>,
) -> (r: Result<Option<Vec<u8>>, V::Error>)
    ensures
        old(vm).calls().is_prefix_of(final(vm).calls()),
        run_outcome::<I, V>(
            old(vm).current_info(),
            old(vm).current_env(),
            message@,
            calls_since(*old(vm), *final(vm)),
            events_view(old(events)@),
            events_view(final(events)@),
            r,
        ),
        events_view(old(events)@).is_prefix_of(events_view(final(events)@)),
        r is Ok ==> opens_with_run_events::<I>(
            events_view(final(events)@).skip(old(events)@.len() as int),
        ),
{
    let info = vm.message_info();
    let env = vm.env();
    let ghost vm0 = *vm;
    let moved = move_funds(vm, &info, &env);
    assert(events_view(events@).subrange(0, events@.len() as int) =~= events_view(events@));
    if let Err(e) = moved {
        return Err(e);
    }
    assert(calls_since(vm0, *vm).len() == 1);
    let ghost vm1 = *vm;
    let output = vm.cosmwasm_call::<I>(message);
    let ghost vm2 = *vm;
    proof {
        lemma_prefix_transitive(vm0.calls(), vm1.calls(), vm2.calls());
        let calls = calls_since(vm0, vm2);
        assert(calls[0] == vm1.calls().last());
        assert(calls[1] == vm2.calls().last());
        assert(calls.len() == 2);
    }
    let response = match contract_response::<V>(output) {
        Err(e) => {
            return Err(e);
        },
        Ok(response) => response,
    };
    let ghost before = events_view(events@);
    let ghost n = vm.calls().len();
    let ghost response0 = response;
    let r = cosmwasm_system_handle_response::<I, V>(vm, &info, &env.contract.address, response, events);
    proof {
        lemma_prefix_transitive(vm0.calls(), vm2.calls(), vm.calls());
        let calls = calls_since(vm0, *vm);
        assert(calls[0] == vm1.calls().last());
        assert(calls[1] == vm2.calls().last());
        assert(calls[2] == vm.calls()[n as int]);
        assert(calls.skip(3) =~= vm.calls().skip(n + 1 as int));
        if r is Ok {
            let meta_read = vm.calls()[n as int];
            if let VmCall::RunningContractMeta { result: Ok(meta) } = meta_read {
                lemma_opens_with_run_events::<I, V>(
                    before,
                    events_view(events@),
                    env.contract.address@,
                    meta.code_id,
                    response0,
                );
            }
        }
    }
    r
}

/// High level dispatch for a CosmWasm VM: runs an entry point through `hook`
/// inside a transaction, committed where the run succeeds and rolled back
/// where it fails. Returns the data produced by the contract along with the
/// events generated, following CosmWasm's semantics: the data of the
/// response stands unless a reply returns data of its own, and every event
/// emitted by the contract, its submessages and its replies is returned in
/// the order it was emitted.
pub fn cosmwasm_system_entrypoint_hook<I: HasEvent, V: CosmwasmVm>(
    vm: &mut V,
    message: &[u8],
    hook: impl FnOnce(&mut V, &[u8]) -> Result<ContractResult<Response<V::MessageCustom>>, V::Error>,
) -> (r: Result<(Option<Vec<u8>>, Vec<Event>), V::Error>)
    requires
        forall|v: &mut V, m: &[u8]| call_requires(hook, (v, m)),
    ensures
        failed_to_begin::<V, (Option<Vec<u8>>, Vec<Event>)>(calls_since(*old(vm), *final(vm)), r)
            || exists|
            begun: V,
            ran: V,
            run: Result<Option<Vec<u8>>, V::Error>,
            events: Seq<EventView>,
        |
            #[trigger] wrapped_in_transaction::<V>(*old(vm), begun, ran, *final(vm), run, events, r)
                && (stopped_before_hook::<V>(begun, ran, Seq::empty(), events, run) || exists|
                v: &mut V,
                output: Result<ContractResult<Response<V::MessageCustom>>, V::Error>,
            |
                #[trigger] call_ensures(hook, (v, message), output) && went_through_hook::<I, V>(
                    begun,
                    *v,
                    output,
                    *final(v),
                    ran,
                    Seq::empty(),
                    events,
                    run,
                )),
        final(vm).calls().len() > 0,
        failed_to_begin::<V, (Option<Vec<u8>>, Vec<Event>)>(calls_since(*old(vm), *final(vm)), r)
            || ended_as::<V, (Option<Vec<u8>>, Vec<Event>)>(final(vm).calls().last(), r),
        final(vm).calls().last() is TransactionBegin ==> failed_to_begin::<
            V,
            (Option<Vec<u8>>, Vec<Event>),
        >(calls_since(*old(vm), *final(vm)), r),
        r matches Ok((_, events)) ==> opens_with_run_events::<I>(events_view(events@)),
{
    let mut events: Vec<Event> = Vec::new();
    let begun = vm.transaction_begin();
    if let Err(e) = begun {
        assert(calls_since(*old(vm), *vm) =~= seq![VmCall::<V>::TransactionBegin { result: begun }]);
        return Err(e);
    }
    let ghost vm1 = *vm;
    assert(vm1.calls().drop_last() =~= old(vm).calls());
    assert(events_view(events@) =~= Seq::<EventView>::empty());
    let result = cosmwasm_system_run_hook::<I, V>(vm, message, &mut events, hook);
    let ghost vm2 = *vm;
    let ghost run_events_view = events_view(events@);
    assert(events_view(events@).skip(0) =~= events_view(events@));
    let with_events = match result {
        Ok(data) => Ok((data, events)),
        Err(e) => Err(e),
    };
    let r = close_transaction(vm, with_events);
    assert(wrapped_in_transaction::<V>(*old(vm), vm1, vm2, *vm, result, run_events_view, r));
    r
}

/// Whether a run from the VM `begun` to the VM `ran`, whose result was
/// `run` and which emitted `events`, was wrapped in a transaction, from the
/// VM `start` to the VM `end`: the transaction was opened first, with the
/// message and environment kept, and ended last, and `r` is what comes of
/// it as [`entry_result`] says.
pub open spec fn wrapped_in_transaction<V: CosmwasmVm>(
    start: V,
    begun: V,
    ran: V,
    end: V,
    run: Result<Option<Vec<u8>>, V::Error>,
    events: Seq<EventView>,
    r: Result<(Option<Vec<u8>>, Vec<Event>), V::Error>,
) -> bool {
    &&& begun.calls().len() == start.calls().len() + 1
    &&& begun.calls().drop_last() == start.calls()
    &&& match begun.calls().last() {
        VmCall::TransactionBegin { result: Ok(_) } => true,
        _ => false,
    }
    &&& begun.current_info() == start.current_info()
    &&& begun.current_env() == start.current_env()
    &&& end.calls().len() == ran.calls().len() + 1
    &&& end.calls().drop_last() == ran.calls()
    &&& entry_result::<V>(run, events, end.calls().last(), r)
}

/// What an entry point gives once its transaction was ended by `call`,
/// from the result of its run and the events the run emitted: the run's
/// data and events where it succeeded and was committed; else the error of
/// the run, or of ending the transaction.
pub open spec fn entry_result<V: CosmwasmVm>(
    run: Result<Option<Vec<u8>>, V::Error>,
    events: Seq<EventView>,
    call: VmCall<V>,
    r: Result<(Option<Vec<u8>>, Vec<Event>), V::Error>,
) -> bool {
    match call {
        VmCall::TransactionCommit { result: end } => match run {
            Ok(d) => match end {
                Ok(_) => match r {
                    Ok((data, evs)) => data == d && events_view(evs@) == events,
                    Err(_) => false,
                },
                Err(e) => r == Err::<(Option<Vec<u8>>, Vec<Event>), V::Error>(e),
            },
            Err(_) => false,
        },
        VmCall::TransactionRollback { result: end } => match run {
            Err(e) => match end {
                Ok(_) => r == Err::<(Option<Vec<u8>>, Vec<Event>), V::Error>(e),
                Err(e2) => r == Err::<(Option<Vec<u8>>, Vec<Event>), V::Error>(e2),
            },
            Ok(_) => false,
        },
        _ => false,
    }
}

/// The calls an entry point makes and its result: a transaction is opened
/// (a failed opening fails with its error), the entry point runs as
/// [`run_outcome`] says from no events, and the transaction is committed
/// where the run succeeded and rolled back where it failed, as
/// [`entry_result`] says.
pub open spec fn entrypoint_outcome<I: HasEvent, V: CosmwasmVm>(
    info: MessageInfo,
    env: Env,
    message: Seq<u8>,
    calls: Seq<VmCall<V>>,
    r: Result<(Option<Vec<u8>>, Vec<Event>), V::Error>,
) -> bool {
    ||| failed_to_begin::<V, (Option<Vec<u8>>, Vec<Event>)>(calls, r)
    ||| calls.len() >= 2 && (match calls[0] {
        VmCall::TransactionBegin { result: Ok(_) } => true,
        _ => false,
    }) && exists|
        run: Result<Option<Vec<u8>>, V::Error>,
        events: Seq<EventView>,
    |
        #[trigger] run_outcome::<I, V>(
            info,
            env,
            message,
            calls.subrange(1, calls.len() - 1),
            Seq::empty(),
            events,
            run,
        ) && entry_result::<V>(run, events, calls.last(), r)
}

/// Runs the entry point `I` of the running contract on a message inside a
/// transaction, committed where the run succeeds and rolled back where it
/// fails; see [`cosmwasm_system_entrypoint_hook`]. Returns the data produced
/// by the contract along with the events generated.
pub fn cosmwasm_system_entrypoint<I: HasEvent, V: CosmwasmVm>(vm: &mut V, message: &[u8]) -> (r:
    Result<(Option<Vec<u8>>, Vec<Event>), V::Error>)
    ensures
        old(vm).calls().is_prefix_of(final(vm).calls()),
        entrypoint_outcome::<I, V>(
            old(vm).current_info(),
            old(vm).current_env(),
            message@,
            calls_since(*old(vm), *final(vm)),
            r,
        ),
        r matches Ok((_, events)) ==> opens_with_run_events::<I>(events_view(events@)),
{
    let mut events: Vec<Event> = Vec::new();
    let begun = vm.transaction_begin();
    let ghost begun0 = begun;
    if let Err(e) = begun {
        assert(calls_since(*old(vm), *vm) =~= seq![VmCall::<V>::TransactionBegin { result: begun }]);
        return Err(e);
    }
    let ghost vm1 = *vm;
    assert(begun0 is Ok);
    assert(events_view(events@) =~= Seq::<EventView>::empty());
    let result = cosmwasm_system_run::<I, V>(vm, message, &mut events);
    let ghost vm2 = *vm;
    let ghost run_events_view = events_view(events@);
    assert(events_view(events@).skip(0) =~= events_view(events@));
    let with_events = match result {
        Ok(data) => Ok((data, events)),
        Err(e) => Err(e),
    };
    let r = close_transaction(vm, with_events);
    proof {
        lemma_prefix_transitive(old(vm).calls(), vm1.calls(), vm2.calls());
        let calls = calls_since(*old(vm), *vm);
        assert(calls[0] == vm1.calls().last());
        assert(calls.subrange(1, calls.len() - 1) =~= calls_since(vm1, vm2));
        assert(calls.last() == vm.calls().last());
        assert(run_outcome::<I, V>(
            old(vm).current_info(),
            old(vm).current_env(),
            message@,
            calls.subrange(1, calls.len() - 1),
            Seq::empty(),
            run_events_view,
            result,
        ));
        assert(entry_result::<V>(result, run_events_view, calls.last(), r));
    }
    r
}

} // verus!
