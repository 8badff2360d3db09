//! Properties that hold of the system layer as a whole.
use vstd::prelude::*;
use crate::admin::{admin_call_outcome, admin_check, admin_text, admin_updated_meta, migrated_meta, read_agrees};
use crate::error::{CosmwasmCodeId, CosmwasmContractMeta, SystemError};
use crate::events::{contract_address_attribute, HasEvent};
use crate::sanitize::{
    accepted_prefix_len, attribute_error, lemma_accepted_prefix_len, lemma_all_accepted, contract_events, custom_event, custom_events,
    sanitize_attributes, sanitized_attribute, wasm_event_type,
};
use crate::text::{has_prefix, lemma_trimmed_idempotent, trimmed};
use crate::types::{AttributeView, EventView};
use crate::vm::{is_system_error, CosmwasmVm, VmCall};
use crate::system::{
    after_reply, dispatch_outcome, round_holds, run_events, run_outcome, submessage_outcome,
    went_through_hook,
};
use crate::types::{
    BankMsg, BankQuery, Coin, CosmosMsg, CosmwasmQueryResult, Env, Event, MessageInfo, QueryRequest, Reply, ReplyOn,
    SubMsg, SubMsgResponse, SystemResult, VmGasCheckpoint, WasmMsg, WasmQuery,
};
use crate::query::query_outcome;
use crate::system::{closes_transaction, entry_result};

verus! {

proof fn lemma_accepted_when_all_good(s: Seq<AttributeView>, i: int)
    requires
        0 <= i <= s.len(),
        forall|j: int| i <= j < s.len() ==> attribute_error(#[trigger] s[j]) is None,
    ensures
        accepted_prefix_len(s.subrange(i, s.len() as int)) == s.len() - i,
    decreases s.len() - i,
{
    if i < s.len() {
        lemma_accepted_when_all_good(s, i + 1);
        assert(s.subrange(i, s.len() as int).drop_first() =~= s.subrange(i + 1, s.len() as int));
    }
}

proof fn lemma_sanitized_attribute_accepted(a: AttributeView)
    requires
        attribute_error(a) is None,
    ensures
        attribute_error(sanitized_attribute(a)) is None,
        sanitized_attribute(sanitized_attribute(a)) == sanitized_attribute(a),
{
    lemma_trimmed_idempotent(a.key);
    lemma_trimmed_idempotent(a.value);
}

/// A contract's attributes, once sanitized, keep their number and order, are
/// trimmed, have no empty key or value and no key starting with `_`, and end
/// with the contract address.
pub proof fn law_sanitized_attributes(s: Seq<AttributeView>, address: Seq<char>)
    requires
        sanitize_attributes(s, address) is Ok,
    ensures
        ({
            let out = sanitize_attributes(s, address)->Ok_0;
            &&& out.len() == s.len() + 1
            &&& out.last() == contract_address_attribute(address)
            &&& forall|j: int|
                0 <= j < s.len() ==> #[trigger] out[j] == sanitized_attribute(s[j])
                    && attribute_error(out[j]) is None && out[j].key.len() > 0 && out[j].value.len()
                    > 0 && !has_prefix(out[j].key, "_"@) && trimmed(out[j].key) == out[j].key
                    && trimmed(out[j].value) == out[j].value
        }),
{
    lemma_accepted_prefix_len(s, 0);
    lemma_all_accepted(s);
    let out = sanitize_attributes(s, address)->Ok_0;
    assert forall|j: int| 0 <= j < s.len() implies #[trigger] out[j] == sanitized_attribute(s[j])
        && attribute_error(out[j]) is None && out[j].key.len() > 0 && out[j].value.len() > 0
        && !has_prefix(out[j].key, "_"@) && trimmed(out[j].key) == out[j].key && trimmed(
        out[j].value,
    ) == out[j].value by {
        lemma_sanitized_attribute_accepted(s[j]);
        lemma_trimmed_idempotent(s[j].key);
        lemma_trimmed_idempotent(s[j].value);
    }
}

/// Sanitizing attributes that were already sanitized gives them back as they
/// are, with the contract address appended once more.
pub proof fn law_sanitize_idempotent(s: Seq<AttributeView>, address: Seq<char>)
    requires
        sanitize_attributes(s, address) is Ok,
    ensures
        ({
            let out = sanitize_attributes(s, address)->Ok_0;
            sanitize_attributes(out.drop_last(), address) == Ok::<Seq<AttributeView>, SystemError>(
                out.drop_last().push(contract_address_attribute(address)),
            )
        }),
{
    law_sanitized_attributes(s, address);
    let out = sanitize_attributes(s, address)->Ok_0;
    let t = out.drop_last();
    assert forall|j: int| 0 <= j < t.len() implies attribute_error(#[trigger] t[j]) is None by {
        assert(t[j] == out[j]);
    }
    lemma_accepted_when_all_good(t, 0);
    assert(t.subrange(0, t.len() as int) =~= t);
    assert forall|j: int| 0 <= j < t.len() implies sanitized_attribute(#[trigger] t[j]) == t[j] by {
        assert(t[j] == out[j]);
        lemma_sanitized_attribute_accepted(s[j]);
    }
    assert(t.map_values(|a: AttributeView| sanitized_attribute(a)) =~= t);
}

/// An emitted contract event: it carries the contract address as its last
/// attribute, every other attribute passed the checks, and its type is
/// `wasm` or starts with `wasm-`.
pub open spec fn tagged_event(e: EventView, address: Seq<char>) -> bool {
    &&& e.attributes.len() > 0
    &&& e.attributes.last() == contract_address_attribute(address)
    &&& forall|j: int| 0 <= j < e.attributes.len() - 1 ==> attribute_error(#[trigger] e.attributes[j]) is None
    &&& (e.ty == wasm_event_type() || has_prefix(e.ty, "wasm-"@))
}

proof fn lemma_sanitized_tagged(s: Seq<AttributeView>, address: Seq<char>)
    requires
        sanitize_attributes(s, address) is Ok,
    ensures
        ({
            let out = sanitize_attributes(s, address)->Ok_0;
            &&& out.len() > 0
            &&& out.last() == contract_address_attribute(address)
            &&& forall|j: int| 0 <= j < out.len() - 1 ==> attribute_error(#[trigger] out[j]) is None
        }),
{
    law_sanitized_attributes(s, address);
    let out = sanitize_attributes(s, address)->Ok_0;
    assert forall|j: int| 0 <= j < out.len() - 1 implies attribute_error(#[trigger] out[j]) is None by {
        assert(out[j] == sanitized_attribute(s[j]));
    }
}

proof fn lemma_custom_events_tagged(evs: Seq<EventView>, address: Seq<char>)
    ensures
        forall|i: int|
            0 <= i < custom_events(evs, address).0.len() ==> tagged_event(
                #[trigger] custom_events(evs, address).0[i],
                address,
            ),
    decreases evs.len(),
{
    if evs.len() > 0 {
        lemma_custom_events_tagged(evs.drop_last(), address);
        let (prev, err) = custom_events(evs.drop_last(), address);
        if err is None {
            let ev = evs.last();
            if let Ok(e) = custom_event(ev, address) {
                lemma_sanitized_tagged(ev.attributes, address);
                let ty = trimmed(ev.ty);
                assert(("wasm-"@ + ty).subrange(0, "wasm-"@.len() as int) =~= "wasm-"@);
                assert(tagged_event(e, address));
                assert forall|i: int| 0 <= i < prev.push(e).len() implies tagged_event(
                    #[trigger] prev.push(e)[i],
                    address,
                ) by {
                    if i < prev.len() {
                        assert(prev.push(e)[i] == prev[i]);
                    }
                }
            }
        }
    }
}

/// Where all of a contract's custom events are accepted, each one is emitted,
/// in order, as its own `wasm-` event.
pub proof fn law_custom_events_in_order(evs: Seq<EventView>, address: Seq<char>)
    requires
        custom_events(evs, address).1 is None,
    ensures
        custom_events(evs, address).0.len() == evs.len(),
        forall|i: int|
            0 <= i < evs.len() ==> custom_event(evs[i], address) == Ok::<EventView, SystemError>(
                #[trigger] custom_events(evs, address).0[i],
            ),
    decreases evs.len(),
{
    if evs.len() > 0 {
        let prev = evs.drop_last();
        law_custom_events_in_order(prev, address);
        assert forall|i: int| 0 <= i < evs.len() implies custom_event(evs[i], address) == Ok::<
            EventView,
            SystemError,
        >(#[trigger] custom_events(evs, address).0[i]) by {
            if i < evs.len() - 1 {
                assert(evs[i] == prev[i]);
            }
        }
    }
}

/// Every event emitted for a contract's response carries the contract's
/// address as its last attribute, has only accepted attributes besides, and
/// is typed `wasm` or `wasm-` and more.
pub proof fn law_contract_events_tagged(
    address: Seq<char>,
    attributes: Seq<AttributeView>,
    events: Seq<EventView>,
)
    ensures
        forall|i: int|
            0 <= i < contract_events(address, attributes, events).0.len() ==> tagged_event(
                #[trigger] contract_events(address, attributes, events).0[i],
                address,
            ),
{
    lemma_custom_events_tagged(events, address);
    if attributes.len() > 0 {
        if let Ok(a) = sanitize_attributes(attributes, address) {
            lemma_sanitized_tagged(attributes, address);
            let w = EventView { ty: wasm_event_type(), attributes: a };
            let c = custom_events(events, address).0;
            assert forall|i: int| 0 <= i < (seq![w] + c).len() implies tagged_event(
                #[trigger] (seq![w] + c)[i],
                address,
            ) by {
                if i > 0 {
                    assert((seq![w] + c)[i] == c[i - 1]);
                }
            }
        }
    }
}

/// The events a run emits before its submessages all name one contract: the
/// system event opens with the contract's address, and every contract event
/// after it carries that address as its last attribute.
pub proof fn law_run_events_name_the_contract<I: HasEvent>(
    address: Seq<char>,
    code_id: CosmwasmCodeId,
    attributes: Seq<AttributeView>,
    custom: Seq<EventView>,
)
    ensures
        run_events::<I>(address, code_id, attributes, custom)[0].attributes[0]
            == contract_address_attribute(address),
        forall|i: int|
            1 <= i < run_events::<I>(address, code_id, attributes, custom).len() ==> tagged_event(
                #[trigger] run_events::<I>(address, code_id, attributes, custom)[i],
                address,
            ),
{
    law_contract_events_tagged(address, attributes, custom);
    let evs = run_events::<I>(address, code_id, attributes, custom);
    let c = contract_events(address, attributes, custom).0;
    assert forall|i: int| 1 <= i < evs.len() implies tagged_event(#[trigger] evs[i], address) by {
        assert(evs[i] == c[i - 1]);
    }
}

/// Only the admin of a contract may migrate it, and a contract without
/// admin cannot be migrated; a migration changes the code id alone.
pub proof fn law_only_admin_migrates<V: CosmwasmVm>(
    sender: Seq<char>,
    meta: CosmwasmContractMeta<V::Address>,
    new_code_id: CosmwasmCodeId,
)
    ensures
        migrated_meta::<V>(sender, meta, new_code_id) is Ok <==> admin_text::<V>(meta.admin)
            == Some(sender),
        meta.admin is None ==> migrated_meta::<V>(sender, meta, new_code_id) == Err::<
            CosmwasmContractMeta<V::Address>,
            SystemError,
        >(SystemError::ImmutableCantMigrate),
        migrated_meta::<V>(sender, meta, new_code_id) matches Ok(m) ==> m.code_id == new_code_id
            && m.admin == meta.admin && m.label == meta.label,
{
}

/// Only the admin of a contract may change its admin, and a contract without
/// admin keeps having none; an admin change changes the admin alone.
pub proof fn law_only_admin_updates_admin<V: CosmwasmVm>(
    sender: Seq<char>,
    meta: CosmwasmContractMeta<V::Address>,
    new_admin: Option<V::Address>,
)
    ensures
        admin_updated_meta::<V>(sender, meta, new_admin) is Ok <==> admin_text::<V>(meta.admin)
            == Some(sender),
        meta.admin is None ==> admin_updated_meta::<V>(sender, meta, new_admin) == Err::<
            CosmwasmContractMeta<V::Address>,
            SystemError,
        >(SystemError::ImmutableCantMigrate),
        admin_updated_meta::<V>(sender, meta, new_admin) matches Ok(m) ==> m.code_id
            == meta.code_id && m.admin == new_admin && m.label == meta.label,
{
}

/// After a migration the admin keeps the right to migrate the contract and
/// to change its admin.
pub proof fn law_migration_keeps_admin<V: CosmwasmVm>(
    sender: Seq<char>,
    meta: CosmwasmContractMeta<V::Address>,
    new_code_id: CosmwasmCodeId,
    later_code_id: CosmwasmCodeId,
    later_admin: Option<V::Address>,
)
    requires
        migrated_meta::<V>(sender, meta, new_code_id) is Ok,
    ensures
        migrated_meta::<V>(
            sender,
            migrated_meta::<V>(sender, meta, new_code_id)->Ok_0,
            later_code_id,
        ) is Ok,
        admin_updated_meta::<V>(
            sender,
            migrated_meta::<V>(sender, meta, new_code_id)->Ok_0,
            later_admin,
        ) is Ok,
{
}

/// Once its admin is cleared a contract is immutable: every later migration
/// or admin change, by anyone, is refused.
pub proof fn law_cleared_admin_is_final<V: CosmwasmVm>(
    sender: Seq<char>,
    meta: CosmwasmContractMeta<V::Address>,
    later_sender: Seq<char>,
    later_code_id: CosmwasmCodeId,
    later_admin: Option<V::Address>,
)
    requires
        admin_updated_meta::<V>(sender, meta, None) is Ok,
    ensures
        migrated_meta::<V>(
            later_sender,
            admin_updated_meta::<V>(sender, meta, None)->Ok_0,
            later_code_id,
        ) == Err::<CosmwasmContractMeta<V::Address>, SystemError>(
            SystemError::ImmutableCantMigrate,
        ),
        admin_updated_meta::<V>(
            later_sender,
            admin_updated_meta::<V>(sender, meta, None)->Ok_0,
            later_admin,
        ) == Err::<CosmwasmContractMeta<V::Address>, SystemError>(
            SystemError::ImmutableCantMigrate,
        ),
{
}

/// After the admin hands the contract over to a new admin, the new admin,
/// and no one else, may change it.
pub proof fn law_admin_handover<V: CosmwasmVm>(
    sender: Seq<char>,
    meta: CosmwasmContractMeta<V::Address>,
    new_admin: V::Address,
    later_sender: Seq<char>,
    later_code_id: CosmwasmCodeId,
)
    requires
        admin_updated_meta::<V>(sender, meta, Some(new_admin)) is Ok,
    ensures
        migrated_meta::<V>(
            later_sender,
            admin_updated_meta::<V>(sender, meta, Some(new_admin))->Ok_0,
            later_code_id,
        ) is Ok <==> later_sender == new_admin@,
{
}

/// Migrating a contract back to the code id it had restores the metadata a
/// VM holds exactly: the two writes `migrate` makes undo each other, and
/// every other contract's metadata is untouched throughout.
pub proof fn law_migrating_back_restores<V: CosmwasmVm>(
    metas: Map<Seq<char>, CosmwasmContractMeta<V::Address>>,
    sender: Seq<char>,
    contract: Seq<char>,
    new_code_id: CosmwasmCodeId,
)
    requires
        metas.contains_key(contract),
        migrated_meta::<V>(sender, metas[contract], new_code_id) is Ok,
    ensures
        ({
            let migrated = metas.insert(
                contract,
                migrated_meta::<V>(sender, metas[contract], new_code_id)->Ok_0,
            );
            &&& migrated_meta::<V>(sender, migrated[contract], metas[contract].code_id) is Ok
            &&& migrated.insert(
                contract,
                migrated_meta::<V>(sender, migrated[contract], metas[contract].code_id)->Ok_0,
            ) == metas
        }),
{
    let migrated = metas.insert(contract, migrated_meta::<V>(sender, metas[contract], new_code_id)->Ok_0);
    let back = migrated.insert(
        contract,
        migrated_meta::<V>(sender, migrated[contract], metas[contract].code_id)->Ok_0,
    );
    assert(back =~= metas);
}

/// Handing the admin role over and back restores the metadata a VM holds
/// exactly: the new admin may give the role back to the one who handed it
/// over, and the two writes `update_admin` makes undo each other.
pub proof fn law_handing_back_restores<V: CosmwasmVm>(
    metas: Map<Seq<char>, CosmwasmContractMeta<V::Address>>,
    sender: Seq<char>,
    contract: Seq<char>,
    new_admin: V::Address,
)
    requires
        metas.contains_key(contract),
        admin_updated_meta::<V>(sender, metas[contract], Some(new_admin)) is Ok,
    ensures
        ({
            let handed = metas.insert(
                contract,
                admin_updated_meta::<V>(sender, metas[contract], Some(new_admin))->Ok_0,
            );
            &&& admin_updated_meta::<V>(new_admin@, handed[contract], metas[contract].admin) is Ok
            &&& handed.insert(
                contract,
                admin_updated_meta::<V>(new_admin@, handed[contract], metas[contract].admin)->Ok_0,
            ) == metas
        }),
{
    let handed = metas.insert(contract, admin_updated_meta::<V>(sender, metas[contract], Some(new_admin))->Ok_0);
    let back = handed.insert(
        contract,
        admin_updated_meta::<V>(new_admin@, handed[contract], metas[contract].admin)->Ok_0,
    );
    assert(back =~= metas);
}

/// What a migration does follows from the metadata the VM holds: where the
/// read of the contract's metadata succeeds, a migration that the held
/// metadata refuses fails with that refusal and writes nothing (a contract
/// without admin is immutable, a sender other than its admin must be its
/// admin), and any other writes the migrated metadata.
pub proof fn law_migration_follows_state<V: CosmwasmVm>(
    calls: Seq<VmCall<V>>,
    metas: Map<Seq<char>, CosmwasmContractMeta<V::Address>>,
    sender: Seq<char>,
    contract: Seq<char>,
    new_code_id: CosmwasmCodeId,
    r: Result<(), V::Error>,
)
    requires
        admin_call_outcome::<V>(
            calls,
            contract,
            |m: CosmwasmContractMeta<V::Address>| migrated_meta::<V>(sender, m, new_code_id),
            r,
        ),
        read_agrees::<V>(calls, metas),
        match calls[0] {
            VmCall::ContractMeta { result: Ok(_), .. } => true,
            _ => false,
        },
    ensures
        metas.contains_key(contract),
        match migrated_meta::<V>(sender, metas[contract], new_code_id) {
            Err(refusal) => calls.len() == 1 && (r matches Err(e) && is_system_error::<V>(e, refusal)),
            Ok(written) => calls.len() == 2 && match calls[1] {
                VmCall::SetContractMeta { address, meta, result } => address == contract && meta
                    == written && result == r,
                _ => false,
            },
        },
{
}

/// What an admin change does follows from the metadata the VM holds: where
/// the read of the contract's metadata succeeds, a change that the held
/// metadata refuses fails with that refusal and writes nothing (once the
/// admin role is handed over or cleared, the former admin must be admin),
/// and any other writes the changed metadata.
pub proof fn law_admin_change_follows_state<V: CosmwasmVm>(
    calls: Seq<VmCall<V>>,
    metas: Map<Seq<char>, CosmwasmContractMeta<V::Address>>,
    sender: Seq<char>,
    contract: Seq<char>,
    new_admin: Option<V::Address>,
    r: Result<(), V::Error>,
)
    requires
        admin_call_outcome::<V>(
            calls,
            contract,
            |m: CosmwasmContractMeta<V::Address>| admin_updated_meta::<V>(sender, m, new_admin),
            r,
        ),
        read_agrees::<V>(calls, metas),
        match calls[0] {
            VmCall::ContractMeta { result: Ok(_), .. } => true,
            _ => false,
        },
    ensures
        metas.contains_key(contract),
        match admin_updated_meta::<V>(sender, metas[contract], new_admin) {
            Err(refusal) => calls.len() == 1 && (r matches Err(e) && is_system_error::<V>(e, refusal)),
            Ok(written) => calls.len() == 2 && match calls[1] {
                VmCall::SetContractMeta { address, meta, result } => address == contract && meta
                    == written && result == r,
                _ => false,
            },
        },
{
}

/// Only a reply's data replaces the run's data: a reply that returns data
/// makes it the run's data, whatever the data before it; a reply that
/// returns none keeps the data before it; a failed reply stops the fold
/// with its error.
pub proof fn law_reply_data_replaces<V: CosmwasmVm>(
    result: Result<Option<Vec<u8>>, V::Error>,
    current: Option<Seq<u8>>,
    next: Result<Option<Seq<u8>>, V::Error>,
)
    requires
        after_reply::<V>(result, current, next),
    ensures
        match result {
            Ok(Some(d)) => next == Ok::<Option<Seq<u8>>, V::Error>(Some(d@)),
            Ok(None) => next == Ok::<Option<Seq<u8>>, V::Error>(current),
            Err(e) => next == Err::<Option<Seq<u8>>, V::Error>(e),
        },
{
}

/// In a round of the fold over submessages that ends with a reply, the data
/// the reply returns becomes the run's data, whatever the data before the
/// round; a reply that returns none keeps the data before the round.
pub proof fn law_round_reply_sets_data<V: CosmwasmVm>(
    sender: Seq<char>,
    sub: SubMsg<V::MessageCustom>,
    chunk: Seq<VmCall<V>>,
    data_before: Option<Seq<u8>>,
    end_at: int,
    dispatched: Result<(Option<Vec<u8>>, Vec<Event>), V::Error>,
    next: Result<Option<Seq<u8>>, V::Error>,
)
    requires
        round_holds::<V>(sender, sub, chunk, data_before, end_at, dispatched, next),
        chunk.last() is ContinueReply,
    ensures
        match chunk.last() {
            VmCall::ContinueReply { reply, result, .. } => reply.id == sub.id && match result {
                Ok(Some(d)) => next == Ok::<Option<Seq<u8>>, V::Error>(Some(d@)),
                Ok(None) => next == Ok::<Option<Seq<u8>>, V::Error>(data_before),
                Err(e) => next == Err::<Option<Seq<u8>>, V::Error>(e),
            },
            _ => false,
        },
{
}

/// A dispatched submessage runs under the gas checkpoint of its own limit:
/// limited to it where it has one, unlimited where it has none.
pub proof fn law_dispatch_gas_checkpoint<V: CosmwasmVm>(
    sender: Seq<char>,
    msg: CosmosMsg<V::MessageCustom>,
    gas_limit: Option<u64>,
    calls: Seq<VmCall<V>>,
    r: Result<(Option<Vec<u8>>, Vec<Event>), V::Error>,
)
    requires
        dispatch_outcome::<V>(sender, msg, gas_limit, calls, r),
    ensures
        calls.len() >= 1,
        match calls[0] {
            VmCall::GasCheckpointPush { checkpoint, .. } => match gas_limit {
                Some(limit) => checkpoint == VmGasCheckpoint::Limited(limit),
                None => checkpoint == VmGasCheckpoint::Unlimited,
            },
            _ => false,
        },
{
}

/// An execute submessage asks the VM to execute the contract its address
/// parses to, with exactly the submessage's bytes and funds, and its result
/// is what the VM answered; it makes no other call.
pub proof fn law_execute_submessage_hands_over_message_and_funds<V: CosmwasmVm>(
    sender: Seq<char>,
    contract_addr: String,
    msg: Vec<u8>,
    funds: Vec<Coin>,
    calls: Seq<VmCall<V>>,
    r: Result<Option<Vec<u8>>, V::Error>,
)
    requires
        submessage_outcome::<V>(
            sender,
            CosmosMsg::Wasm(WasmMsg::Execute { contract_addr, msg, funds }),
            calls,
            r,
        ),
    ensures
        calls.len() <= 1,
        calls.len() == 0 ==> r is Err,
        forall|i: int| 0 <= i < calls.len() ==> match #[trigger] calls[i] {
            VmCall::ContinueExecute { address, funds: f, message, result, .. } => V::parsed_address(
                contract_addr@,
            ) == Some(address) && f == funds@ && message == msg@ && result == r,
            _ => false,
        },
{
}

/// An instantiate submessage asks the VM to instantiate the code with
/// exactly the submessage's code id, label, admin, bytes and funds.
pub proof fn law_instantiate_submessage_hands_over_everything<V: CosmwasmVm>(
    sender: Seq<char>,
    admin: Option<String>,
    code_id: u64,
    msg: Vec<u8>,
    funds: Vec<Coin>,
    label: String,
    calls: Seq<VmCall<V>>,
    r: Result<Option<Vec<u8>>, V::Error>,
)
    requires
        submessage_outcome::<V>(
            sender,
            CosmosMsg::Wasm(WasmMsg::Instantiate { admin, code_id, msg, funds, label }),
            calls,
            r,
        ),
    ensures
        calls.len() <= 1,
        calls.len() == 0 ==> r is Err,
        forall|i: int| 0 <= i < calls.len() ==> match #[trigger] calls[i] {
            VmCall::ContinueInstantiate { meta, funds: f, message, .. } => meta.code_id == code_id
                && meta.label == label && f == funds@ && message == msg@ && match admin {
                Some(text) => admin_text::<V>(meta.admin) == V::parsed_address(text@),
                None => meta.admin is None,
            },
            _ => false,
        },
{
}

/// A migrate submessage runs the contract's `migrate` entry point with
/// exactly the submessage's bytes, and only after writing the new code id
/// into that contract's metadata; where it succeeds, the entry point ran.
pub proof fn law_migrate_submessage_hands_over_message<V: CosmwasmVm>(
    sender: Seq<char>,
    contract_addr: String,
    new_code_id: CosmwasmCodeId,
    msg: Vec<u8>,
    calls: Seq<VmCall<V>>,
    r: Result<Option<Vec<u8>>, V::Error>,
)
    requires
        submessage_outcome::<V>(
            sender,
            CosmosMsg::Wasm(WasmMsg::Migrate { contract_addr, new_code_id, msg }),
            calls,
            r,
        ),
    ensures
        forall|i: int| 0 <= i < calls.len() ==> match #[trigger] calls[i] {
            VmCall::ContinueMigrate { address, message, .. } => message == msg@
                && V::parsed_address(contract_addr@) == Some(address) && i == calls.len() - 1
                && i >= 2 && match calls[i - 1] {
                VmCall::SetContractMeta { address: written_to, meta, result: Ok(_) } => written_to
                    == address && meta.code_id == new_code_id,
                _ => false,
            },
            _ => true,
        },
        r is Ok ==> calls.len() >= 3 && calls.last() is ContinueMigrate,
{
    if calls.len() >= 1 {
        assert forall|i: int| 0 <= i < calls.len() implies match #[trigger] calls[i] {
            VmCall::ContinueMigrate { address, message, .. } => message == msg@
                && V::parsed_address(contract_addr@) == Some(address) && i == calls.len() - 1
                && i >= 2 && match calls[i - 1] {
                VmCall::SetContractMeta { address: written_to, meta, result: Ok(_) } => written_to
                    == address && meta.code_id == new_code_id,
                _ => false,
            },
            _ => true,
        } by {
            if i < calls.len() - 1 {
                assert(calls.drop_last()[i] == calls[i]);
            }
        }
    }
}

/// An admin update submessage writes, where it writes at all, metadata whose
/// admin is the address the new admin's text parses to; where it succeeds,
/// it answers no data and that write succeeded.
pub proof fn law_update_admin_submessage_writes_new_admin<V: CosmwasmVm>(
    sender: Seq<char>,
    contract_addr: String,
    admin: String,
    new_admin: Seq<char>,
    calls: Seq<VmCall<V>>,
    r: Result<Option<Vec<u8>>, V::Error>,
)
    requires
        submessage_outcome::<V>(
            sender,
            CosmosMsg::Wasm(WasmMsg::UpdateAdmin { contract_addr, admin }),
            calls,
            r,
        ),
        V::parsed_address(admin@) == Some(new_admin),
    ensures
        forall|i: int| 0 <= i < calls.len() ==> match #[trigger] calls[i] {
            VmCall::SetContractMeta { meta, .. } => admin_text::<V>(meta.admin) == Some(new_admin),
            _ => true,
        },
        r is Ok ==> r == Ok::<Option<Vec<u8>>, V::Error>(None) && calls.len() == 2 && match calls[1] {
            VmCall::SetContractMeta { meta, result, .. } => result is Ok && admin_text::<V>(
                meta.admin,
            ) == Some(new_admin),
            _ => false,
        },
{
}

/// An admin clearing submessage writes, where it writes at all, metadata
/// without admin; where it succeeds, it answers no data and that write
/// succeeded.
pub proof fn law_clear_admin_submessage_clears_admin<V: CosmwasmVm>(
    sender: Seq<char>,
    contract_addr: String,
    calls: Seq<VmCall<V>>,
    r: Result<Option<Vec<u8>>, V::Error>,
)
    requires
        submessage_outcome::<V>(sender, CosmosMsg::Wasm(WasmMsg::ClearAdmin { contract_addr }), calls, r),
    ensures
        forall|i: int| 0 <= i < calls.len() ==> match #[trigger] calls[i] {
            VmCall::SetContractMeta { meta, .. } => meta.admin is None,
            _ => true,
        },
        r is Ok ==> r == Ok::<Option<Vec<u8>>, V::Error>(None) && calls.len() == 2 && match calls[1] {
            VmCall::SetContractMeta { meta, result, .. } => result is Ok && meta.admin is None,
            _ => false,
        },
{
}

/// A bank send submessage moves exactly the submessage's coins to the
/// account its address parses to, and a burn burns exactly its coins;
/// either answers no data.
pub proof fn law_bank_submessages_move_exactly_their_coins<V: CosmwasmVm>(
    sender: Seq<char>,
    msg: BankMsg,
    calls: Seq<VmCall<V>>,
    r: Result<Option<Vec<u8>>, V::Error>,
)
    requires
        submessage_outcome::<V>(sender, CosmosMsg::Bank(msg), calls, r),
    ensures
        calls.len() <= 1,
        r is Ok ==> r == Ok::<Option<Vec<u8>>, V::Error>(None),
        forall|i: int| 0 <= i < calls.len() ==> match (msg, #[trigger] calls[i]) {
            (BankMsg::Send { to_address, amount }, VmCall::Transfer { to, funds, .. }) =>
                V::parsed_address(to_address@) == Some(to) && funds == amount@,
            (BankMsg::Burn { amount }, VmCall::Burn { funds, .. }) => funds == amount@,
            _ => false,
        },
{
}

/// Before an entry point runs, exactly the message's funds are moved from
/// the account its sender parses to, to the contract; then the entry point
/// is called with exactly the message; where an address does not parse, the
/// run fails without a call.
pub proof fn law_run_moves_exactly_the_message_funds<I: HasEvent, V: CosmwasmVm>(
    info: MessageInfo,
    env: Env,
    message: Seq<u8>,
    calls: Seq<VmCall<V>>,
    before: Seq<EventView>,
    after: Seq<EventView>,
    r: Result<Option<Vec<u8>>, V::Error>,
)
    requires
        run_outcome::<I, V>(info, env, message, calls, before, after, r),
    ensures
        calls.len() == 0 ==> r is Err,
        calls.len() > 0 ==> match calls[0] {
            VmCall::TransferFrom { from, to, funds, .. } => funds == info.funds@ && V::parsed_address(
                info.sender@,
            ) == Some(from) && V::parsed_address(env.contract.address@) == Some(to),
            _ => false,
        },
        calls.len() > 1 ==> match calls[1] {
            VmCall::Call { message: m, .. } => m == message,
            _ => false,
        },
{
}

/// Before a hook runs an entry point, exactly the message's funds were moved
/// from the account its sender parses to, to the contract.
pub proof fn law_hooked_run_moves_exactly_the_message_funds<I: HasEvent, V: CosmwasmVm>(
    start: V,
    entered: V,
    output: Result<crate::types::ContractResult<crate::types::Response<V::MessageCustom>>, V::Error>,
    left: V,
    end: V,
    before: Seq<EventView>,
    after: Seq<EventView>,
    r: Result<Option<Vec<u8>>, V::Error>,
)
    requires
        went_through_hook::<I, V>(start, entered, output, left, end, before, after, r),
    ensures
        entered.calls().len() == start.calls().len() + 1,
        match entered.calls().last() {
            VmCall::TransferFrom { from, to, funds, result } => result is Ok && funds
                == start.current_info().funds@ && V::parsed_address(start.current_info().sender@)
                == Some(from) && V::parsed_address(start.current_env().contract.address@) == Some(to),
            _ => false,
        },
{
}

/// A transaction is committed exactly where the work it wraps succeeded and
/// rolled back exactly where it failed; where ending it succeeded, the
/// work's result is given back, else the ending's error.
pub proof fn law_transaction_commits_exactly_success<V: CosmwasmVm, T>(
    result: Result<T, V::Error>,
    call: VmCall<V>,
    r: Result<T, V::Error>,
)
    requires
        closes_transaction::<V, T>(result, call, r),
    ensures
        call is TransactionCommit <==> result is Ok,
        call is TransactionRollback <==> result is Err,
        match call {
            VmCall::TransactionCommit { result: Ok(_) } => r == result,
            VmCall::TransactionRollback { result: Ok(_) } => r == result,
            VmCall::TransactionCommit { result: Err(e) } => r == Err::<T, V::Error>(e),
            VmCall::TransactionRollback { result: Err(e) } => r == Err::<T, V::Error>(e),
            _ => false,
        },
{
}

/// An entry point succeeds exactly where its run succeeded and was
/// committed, and then gives the run's data and exactly the run's events; a
/// failed run is rolled back and fails.
pub proof fn law_entry_point_result<V: CosmwasmVm>(
    run: Result<Option<Vec<u8>>, V::Error>,
    events: Seq<EventView>,
    call: VmCall<V>,
    r: Result<(Option<Vec<u8>>, Vec<Event>), V::Error>,
)
    requires
        entry_result::<V>(run, events, call, r),
    ensures
        r is Ok ==> call is TransactionCommit && run is Ok,
        run is Err ==> r is Err && call is TransactionRollback,
        match (run, r) {
            (Ok(d), Ok((data, evs))) => data == d && crate::types::events_view(evs@) == events,
            _ => true,
        },
        match (run, call) {
            (Ok(d), VmCall::TransactionCommit { result: Ok(_) }) => r is Ok,
            (Err(e), VmCall::TransactionRollback { result: Ok(_) }) => r == Err::<
                (Option<Vec<u8>>, Vec<Event>),
                V::Error,
            >(e),
            _ => true,
        },
{
}

/// A round of the fold over submessages opens a transaction first; its
/// transaction is committed exactly where dispatching the submessage
/// succeeded; a success is answered with a reply carrying exactly the
/// submessage's events and data where its policy is `Always` or `Success`,
/// and otherwise leaves the run's data as it was; a failure is answered with
/// a reply where its policy is `Always` or `Error`, and otherwise stops the
/// fold with the submessage's error.
pub proof fn law_round_follows_reply_policy<V: CosmwasmVm>(
    sender: Seq<char>,
    sub: SubMsg<V::MessageCustom>,
    chunk: Seq<VmCall<V>>,
    data_before: Option<Seq<u8>>,
    end_at: int,
    dispatched: Result<(Option<Vec<u8>>, Vec<Event>), V::Error>,
    next: Result<Option<Seq<u8>>, V::Error>,
)
    requires
        round_holds::<V>(sender, sub, chunk, data_before, end_at, dispatched, next),
        chunk[0] matches VmCall::TransactionBegin { result: Ok(_) },
    ensures
        1 <= end_at < chunk.len(),
        chunk[end_at] is TransactionCommit <==> dispatched is Ok,
        chunk[end_at] is TransactionRollback <==> dispatched is Err,
        match (chunk[end_at], dispatched) {
            (VmCall::TransactionCommit { result: Ok(_) }, Ok((data, events))) => if sub.reply_on
                == ReplyOn::Always || sub.reply_on == ReplyOn::Success {
                chunk.len() == end_at + 2 && match chunk[end_at + 1] {
                    VmCall::ContinueReply { reply, .. } => reply == Reply {
                        id: sub.id,
                        result: Ok(SubMsgResponse { events, data }),
                    },
                    _ => false,
                }
            } else {
                chunk.len() == end_at + 1 && next == Ok::<Option<Seq<u8>>, V::Error>(data_before)
            },
            (VmCall::TransactionRollback { result: Ok(_) }, Err(e)) => if sub.reply_on
                == ReplyOn::Always || sub.reply_on == ReplyOn::Error {
                chunk.len() == end_at + 2 && match chunk[end_at + 1] {
                    VmCall::ContinueReply { reply, .. } => reply.id == sub.id && reply.result is Err,
                    _ => false,
                }
            } else {
                chunk.len() == end_at + 1 && next == Err::<Option<Seq<u8>>, V::Error>(e)
            },
            _ => true,
        },
{
}

/// A custom submessage hands the VM exactly its message, and its result is
/// what the VM answered.
pub proof fn law_custom_submessage_hands_over_message<V: CosmwasmVm>(
    sender: Seq<char>,
    message: V::MessageCustom,
    calls: Seq<VmCall<V>>,
    r: Result<Option<Vec<u8>>, V::Error>,
)
    requires
        submessage_outcome::<V>(sender, CosmosMsg::Custom(message), calls, r),
    ensures
        calls.len() == 1,
        match calls[0] {
            VmCall::MessageCustom { message: m, result, .. } => m == message && result == r,
            _ => false,
        },
{
}

/// A query for a balance asks the VM about exactly the queried denomination
/// of the account the queried address parses to; a raw query reads exactly
/// the queried key of the contract the address parses to and answers the
/// value stored there, or nothing where none is; a smart query hands the
/// contract exactly the query's bytes and answers what it answered; a custom
/// query hands the VM exactly the query and answers what it answered. Each
/// asks the VM at most once.
pub proof fn law_queries_hand_over_the_request<V: CosmwasmVm>(
    request: QueryRequest<V::QueryCustom>,
    calls: Seq<VmCall<V>>,
    r: Result<SystemResult<CosmwasmQueryResult>, V::Error>,
)
    requires
        query_outcome::<V>(request, calls, r),
    ensures
        calls.len() <= 1,
        calls.len() == 0 ==> r is Err,
        forall|i: int| 0 <= i < calls.len() ==> match (request, #[trigger] calls[i]) {
            (
                QueryRequest::Bank(BankQuery::Balance { address, denom }),
                VmCall::Balance { account, denom: d, .. },
            ) => d == denom@ && V::parsed_address(address@) == Some(account),
            (
                QueryRequest::Bank(BankQuery::AllBalances { address }),
                VmCall::AllBalance { account, .. },
            ) => V::parsed_address(address@) == Some(account),
            (
                QueryRequest::Wasm(WasmQuery::Raw { contract_addr, key }),
                VmCall::QueryRaw { address, key: k, result },
            ) => k == key@ && V::parsed_address(contract_addr@) == Some(address) && match result {
                Ok(value) => match r {
                    Ok(Ok(Ok(v))) => v@ == match value {
                        Some(stored) => stored@,
                        None => Seq::<u8>::empty(),
                    },
                    _ => false,
                },
                Err(e) => r == Err::<SystemResult<CosmwasmQueryResult>, V::Error>(e),
            },
            (
                QueryRequest::Wasm(WasmQuery::Smart { contract_addr, msg }),
                VmCall::ContinueQuery { address, message, result },
            ) => message == msg@ && V::parsed_address(contract_addr@) == Some(address) && match result {
                Ok(output) => r == Ok::<SystemResult<CosmwasmQueryResult>, V::Error>(Ok(output)),
                Err(e) => r == Err::<SystemResult<CosmwasmQueryResult>, V::Error>(e),
            },
            (
                QueryRequest::Wasm(WasmQuery::ContractInfo { contract_addr }),
                VmCall::QueryInfo { address, .. },
            ) => V::parsed_address(contract_addr@) == Some(address),
            (QueryRequest::Custom(query), VmCall::QueryCustom { query: q, result }) => q == query
                && result == r,
            _ => false,
        },
{
}

/// Only a contract's admin passes the admin check: a contract without admin
/// is refused as immutable, and anyone but its admin is refused as not the
/// admin.
pub proof fn law_admin_check(sender: Seq<char>, admin: Option<Seq<char>>)
    ensures
        admin_check(sender, admin) is Ok <==> admin == Some(sender),
        admin is None ==> admin_check(sender, admin) == Err::<(), SystemError>(
            SystemError::ImmutableCantMigrate,
        ),
        admin is Some && admin != Some(sender) ==> admin_check(sender, admin) == Err::<(), SystemError>(
            SystemError::MustBeAdmin,
        ),
{
}

} // verus!
