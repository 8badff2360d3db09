//! Admin-only operations on contract metadata: changing the code of a
//! contract (migration) and changing its admin.
use vstd::prelude::*;
use crate::error::{CosmwasmCodeId, CosmwasmContractMeta, SystemError};
use crate::types::EventView;
use crate::vm::{
    call_events, calls_since, events_of, is_system_error, lemma_no_events, system_error, CosmwasmVm, VmCall,
};

verus! {

/// The texts of an optional string.
pub open spec fn opt_text(s: Option<String>) -> Option<Seq<char>> {
    match s {
        Some(t) => Some(t@),
        None => None,
    }
}

/// Whether `sender` may change a contract whose admin is `admin`: a contract
/// without admin is immutable, and only its admin may change any other.
pub open spec fn admin_check(sender: Seq<char>, admin: Option<Seq<char>>) -> Result<(), SystemError> {
    match admin {
        None => Err(SystemError::ImmutableCantMigrate),
        Some(a) => if a == sender {
            Ok(())
        } else {
            Err(SystemError::MustBeAdmin)
        },
    }
}

/// Checks that `sender` is the admin of a contract whose admin is
/// `contract_admin`.
pub fn ensure_admin(sender: &String, contract_admin: Option<String>) -> (r: Result<(), SystemError>)
    ensures
        r == admin_check(sender@, opt_text(contract_admin)),
{
    match contract_admin {
        None => Err(SystemError::ImmutableCantMigrate),
        Some(admin) => if admin == *sender {
            Ok(())
        } else {
            Err(SystemError::MustBeAdmin)
        },
    }
}

/// The text of an optional VM address.
pub open spec fn admin_text<V: CosmwasmVm>(admin: Option<V::Address>) -> Option<Seq<char>> {
    match admin {
        Some(a) => Some(a@),
        None => None,
    }
}

/// The metadata of a contract after `sender` migrates it to `new_code_id`:
/// the code id replaced, admin and label kept; or why `sender` may not.
pub open spec fn migrated_meta<V: CosmwasmVm>(
    sender: Seq<char>,
    meta: CosmwasmContractMeta<V::Address>,
    new_code_id: CosmwasmCodeId,
) -> Result<CosmwasmContractMeta<V::Address>, SystemError> {
    match admin_check(sender, admin_text::<V>(meta.admin)) {
        Err(e) => Err(e),
        Ok(_) => Ok(CosmwasmContractMeta { code_id: new_code_id, admin: meta.admin, label: meta.label }),
    }
}

/// The metadata of a contract after `sender` sets its admin to `new_admin`:
/// the admin replaced, code id and label kept; or why `sender` may not.
pub open spec fn admin_updated_meta<V: CosmwasmVm>(
    sender: Seq<char>,
    meta: CosmwasmContractMeta<V::Address>,
    new_admin: Option<V::Address>,
) -> Result<CosmwasmContractMeta<V::Address>, SystemError> {
    match admin_check(sender, admin_text::<V>(meta.admin)) {
        Err(e) => Err(e),
        Ok(_) => Ok(CosmwasmContractMeta { code_id: meta.code_id, admin: new_admin, label: meta.label }),
    }
}

/// The text of an optional VM address.
fn admin_address_text<V: CosmwasmVm>(admin: &Option<V::Address>) -> (r: Option<String>)
    ensures
        opt_text(r) == admin_text::<V>(*admin),
{
    match admin {
        Some(a) => Some(V::address_text(a)),
        None => None,
    }
}

/// The metadata a migration by `sender` writes, or why it is refused.
pub fn migrate_contract_meta<V: CosmwasmVm>(
    sender: &String,
    meta: CosmwasmContractMeta<V::Address>,
    new_code_id: CosmwasmCodeId,
) -> (r: Result<CosmwasmContractMeta<V::Address>, SystemError>)
    ensures
        r == migrated_meta::<V>(sender@, meta, new_code_id),
{
    let CosmwasmContractMeta { admin, label, .. } = meta;
    match ensure_admin(sender, admin_address_text::<V>(&admin)) {
        Err(e) => Err(e),
        Ok(()) => Ok(CosmwasmContractMeta { code_id: new_code_id, admin, label }),
    }
}

/// The metadata an admin change by `sender` writes, or why it is refused.
pub fn update_admin_contract_meta<V: CosmwasmVm>(
    sender: &String,
    meta: CosmwasmContractMeta<V::Address>,
    new_admin: Option<V::Address>,
) -> (r: Result<CosmwasmContractMeta<V::Address>, SystemError>)
    ensures
        r == admin_updated_meta::<V>(sender@, meta, new_admin),
{
    let CosmwasmContractMeta { code_id, admin, label } = meta;
    match ensure_admin(sender, admin_address_text::<V>(&admin)) {
        Err(e) => Err(e),
        Ok(()) => Ok(CosmwasmContractMeta { code_id, admin: new_admin, label }),
    }
}

/// The calls an admin operation on the contract at `address` makes, and its
/// result: it reads the contract's metadata; where the read fails, it fails
/// with the read's error; where `decide` refuses the metadata read, it fails
/// with the refusal; else it writes the metadata `decide` gives and answers
/// what the write answered.
pub open spec fn admin_call_outcome<V: CosmwasmVm>(
    calls: Seq<VmCall<V>>,
    address: Seq<char>,
    decide: spec_fn(CosmwasmContractMeta<V::Address>) -> Result<
        CosmwasmContractMeta<V::Address>,
        SystemError,
    >,
    r: Result<(), V::Error>,
) -> bool {
    &&& calls.len() >= 1
    &&& calls[0] matches VmCall::ContractMeta { address: a, result: read } && a == address && match read {
        Err(e) => calls.len() == 1 && r == Err::<(), V::Error>(e),
        Ok(m) => match decide(m) {
            Err(refusal) => calls.len() == 1 && (r matches Err(e) && is_system_error::<V>(e, refusal)),
            Ok(written) => calls.len() == 2 && calls[1] == VmCall::<V>::SetContractMeta {
                address,
                meta: written,
                result: r,
            },
        },
    }
}

/// Whether the metadata an admin operation read, where the read succeeded,
/// is what `metas` holds for the contract read.
pub open spec fn read_agrees<V: CosmwasmVm>(
    calls: Seq<VmCall<V>>,
    metas: Map<Seq<char>, CosmwasmContractMeta<V::Address>>,
) -> bool {
    calls.len() > 0 ==> match calls[0] {
        VmCall::ContractMeta { address, result: Ok(read) } => metas.contains_key(address) && read
            == metas[address],
        _ => true,
    }
}

/// An admin operation runs no contract code, so its calls push no events.
pub proof fn lemma_admin_calls_push_no_events<V: CosmwasmVm>(
    calls: Seq<VmCall<V>>,
    address: Seq<char>,
    decide: spec_fn(CosmwasmContractMeta<V::Address>) -> Result<
        CosmwasmContractMeta<V::Address>,
        SystemError,
    >,
    r: Result<(), V::Error>,
)
    requires
        admin_call_outcome::<V>(calls, address, decide, r),
    ensures
        events_of(calls) == Seq::<EventView>::empty(),
{
    assert forall|i: int| 0 <= i < calls.len() implies call_events(#[trigger] calls[i])
        == Seq::<EventView>::empty() by {
        if i == 0 {
        } else {
            assert(i == 1);
        }
    }
    lemma_no_events(calls);
}

/// Sets `new_code_id` as the code id of the contract `contract_addr`.
///
/// Reads the contract's metadata, and writes back the metadata that
/// [`migrate_contract_meta`] computes for `sender`; where that refuses, fails
/// with the refusal and writes nothing. Fails with the VM's error where
/// reading or writing fails; a failed migration changes no metadata.
pub fn migrate<V: CosmwasmVm>(
    vm: &mut V,
    sender: V::Address,
    contract_addr: V::Address,
    new_code_id: CosmwasmCodeId,
) -> (r: Result<(), V::Error>)
    ensures
        r is Ok ==> old(vm).contract_metas().contains_key(contract_addr@) && migrated_meta::<V>(
            sender@,
            old(vm).contract_metas()[contract_addr@],
            new_code_id,
        ) is Ok && final(vm).contract_metas() == old(vm).contract_metas().insert(
            contract_addr@,
            migrated_meta::<V>(
                sender@,
                old(vm).contract_metas()[contract_addr@],
                new_code_id,
            )->Ok_0,
        ),
        old(vm).contract_metas().contains_key(contract_addr@) && migrated_meta::<V>(
            sender@,
            old(vm).contract_metas()[contract_addr@],
            new_code_id,
        ) is Err ==> r is Err && final(vm).contract_metas() == old(vm).contract_metas(),
        r is Err ==> final(vm).contract_metas() == old(vm).contract_metas(),
        old(vm).calls().is_prefix_of(final(vm).calls()),
        read_agrees::<V>(calls_since(*old(vm), *final(vm)), old(vm).contract_metas()),
        admin_call_outcome::<V>(
            calls_since(*old(vm), *final(vm)),
            contract_addr@,
            |m: CosmwasmContractMeta<V::Address>| migrated_meta::<V>(sender@, m, new_code_id),
            r,
        ),
{
    let meta = vm.contract_meta(V::clone_address(&contract_addr))?;
    let sender_text = V::address_text(&sender);
    match migrate_contract_meta::<V>(&sender_text, meta, new_code_id) {
        Err(e) => Err(system_error::<V>(e)),
        Ok(new_meta) => {
            vm.set_contract_meta(contract_addr, new_meta)?;
            Ok(())
        },
    }
}

/// Sets `new_admin` as the new admin of the contract `contract_addr`.
///
/// Reads the contract's metadata, and writes back the metadata that
/// [`update_admin_contract_meta`] computes for `sender`; where that refuses,
/// fails with the refusal and writes nothing. Fails with the VM's error where
/// reading or writing fails; a failed operation changes no metadata.
pub fn update_admin<V: CosmwasmVm>(
    vm: &mut V,
    sender: &String,
    contract_addr: V::Address,
    new_admin: Option<V::Address>,
) -> (r: Result<(), V::Error>)
    ensures
        r is Ok ==> old(vm).contract_metas().contains_key(contract_addr@) && admin_updated_meta::<V>(
            sender@,
            old(vm).contract_metas()[contract_addr@],
            new_admin,
        ) is Ok && final(vm).contract_metas() == old(vm).contract_metas().insert(
            contract_addr@,
            admin_updated_meta::<V>(
                sender@,
                old(vm).contract_metas()[contract_addr@],
                new_admin,
            )->Ok_0,
        ),
        old(vm).contract_metas().contains_key(contract_addr@) && admin_updated_meta::<V>(
            sender@,
            old(vm).contract_metas()[contract_addr@],
            new_admin,
        ) is Err ==> r is Err && final(vm).contract_metas() == old(vm).contract_metas(),
        r is Err ==> final(vm).contract_metas() == old(vm).contract_metas(),
        old(vm).calls().is_prefix_of(final(vm).calls()),
        read_agrees::<V>(calls_since(*old(vm), *final(vm)), old(vm).contract_metas()),
        admin_call_outcome::<V>(
            calls_since(*old(vm), *final(vm)),
            contract_addr@,
            |m: CosmwasmContractMeta<V::Address>| admin_updated_meta::<V>(sender@, m, new_admin),
            r,
        ),
{
    let meta = vm.contract_meta(V::clone_address(&contract_addr))?;
    match update_admin_contract_meta::<V>(sender, meta, new_admin) {
        Err(e) => Err(system_error::<V>(e)),
        Ok(new_meta) => {
            vm.set_contract_meta(contract_addr, new_meta)?;
            Ok(())
        },
    }
}

} // verus!
