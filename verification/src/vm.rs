//! The virtual machine the system layer drives. A VM implementation provides
//! storage, transactions, gas accounting, the bank, and the execution of
//! contract code; the system layer decides what to ask of it and in which
//! order.
use vstd::prelude::*;
use vstd::std_specs::convert::FromSpec;
use crate::error::{CosmwasmContractMeta, SystemError};
use crate::events::HasEvent;
use crate::types::{
    events_view, Coin, ContractInfoResponse, ContractResult, CosmwasmQueryResult, Env, Event, EventView,
    MessageInfo, Reply, Response, SystemResult, VmGasCheckpoint,
};

verus! {

/// What the system layer needs from a CosmWasm virtual machine.
///
/// Implementations are written by the embedder. The contracts below are the
/// facts the system layer assumes of them, stated over the models the trait
/// declares: every method that changes the VM appends its call, with what was
/// handed to it and what it answered, to the log `calls`; metadata reads and
/// writes agree with `contract_metas`; parsing an address agrees with
/// `parsed_address`; the message information and environment are
/// `current_info` and `current_env`, which opening a transaction keeps; an
/// address's text and copy keep its view. What the VM answers is otherwise
/// taken as it comes.
///
/// The methods that run contract code get a fresh, empty event list and push
/// the events emitted meanwhile onto it; the system layer forwards them.
pub trait CosmwasmVm: Sized {
    /// Addresses of accounts and contracts; the view of an address is its
    /// canonical text.
    type Address: View<V = Seq<char>>;
    /// Errors of the VM; system errors convert into them.
    type Error: From<SystemError>;
    /// Custom messages that contracts may send.
    type MessageCustom;
    /// Custom queries that contracts may send.
    type QueryCustom;

    /// The text of an address is its view.
    fn address_text(a: &Self::Address) -> (r: String)
        ensures
            r@ == a@,
    ;

    /// The address a text parses to, by its view, where the text is one. An
    /// implementation verified with Verus defines it.
    closed spec fn parsed_address(text: Seq<char>) -> Option<Seq<char>> {
        arbitrary()
    }

    /// Parses an address from its text; fails on text that is no address.
    fn address_from_text(text: String) -> (r: Result<Self::Address, Self::Error>)
        ensures
            match r {
                Ok(a) => Self::parsed_address(text@) == Some(a@),
                Err(_) => Self::parsed_address(text@) is None,
            },
    ;

    /// A copy of an address.
    fn clone_address(a: &Self::Address) -> (r: Self::Address)
        ensures
            r@ == a@,
    ;

    /// The text by which an error is reported to a contract in a reply. An
    /// implementation verified with Verus defines it.
    closed spec fn reported_text(e: Self::Error) -> Seq<char> {
        arbitrary()
    }

    /// The text by which an error is reported to a contract in a reply.
    fn error_text(e: &Self::Error) -> (r: String)
        ensures
            r@ == Self::reported_text(*e),
    ;

    /// The sender and funds of the message being executed, as the VM holds
    /// them. An implementation verified with Verus defines it.
    closed spec fn current_info(&self) -> MessageInfo {
        arbitrary()
    }

    /// The environment of the running contract, as the VM holds it. An
    /// implementation verified with Verus defines it.
    closed spec fn current_env(&self) -> Env {
        arbitrary()
    }

    /// The sender and funds of the message being executed.
    fn message_info(&self) -> (r: MessageInfo)
        ensures
            r == self.current_info(),
    ;

    /// The environment of the running contract.
    fn env(&self) -> (r: Env)
        ensures
            r == self.current_env(),
    ;

    /// The calls the system layer has made on this VM, in order, each with
    /// what was handed to it and what it answered. An implementation verified
    /// with Verus defines it.
    closed spec fn calls(&self) -> Seq<VmCall<Self>> {
        arbitrary()
    }

    /// Runs the entry point `I` of the running contract on a message.
    fn cosmwasm_call<I: HasEvent>(&mut self, message: &[u8]) -> (r: Result<
        ContractResult<Response<Self::MessageCustom>>,
        Self::Error,
    >)
        ensures
            final(self).calls() == old(self).calls().push(
                VmCall::Call { message: message@, result: r },
            ),
    ;

    /// Opens a nested transaction; the message being executed and its
    /// environment stay as they were.
    fn transaction_begin(&mut self) -> (r: Result<(), Self::Error>)
        ensures
            final(self).current_info() == old(self).current_info(),
            final(self).current_env() == old(self).current_env(),
            final(self).calls() == old(self).calls().push(VmCall::TransactionBegin { result: r }),
    ;

    /// Commits the innermost transaction.
    fn transaction_commit(&mut self) -> (r: Result<(), Self::Error>)
        ensures
            final(self).calls() == old(self).calls().push(VmCall::TransactionCommit { result: r }),
    ;

    /// Rolls back the innermost transaction.
    fn transaction_rollback(&mut self) -> (r: Result<(), Self::Error>)
        ensures
            final(self).calls() == old(self).calls().push(
                VmCall::TransactionRollback { result: r },
            ),
    ;

    /// Starts accounting the gas of a submessage.
    fn gas_checkpoint_push(&mut self, checkpoint: VmGasCheckpoint) -> (r: Result<(), Self::Error>)
        ensures
            final(self).calls() == old(self).calls().push(
                VmCall::GasCheckpointPush { checkpoint, result: r },
            ),
    ;

    /// Ends accounting the gas of a submessage.
    fn gas_checkpoint_pop(&mut self) -> (r: Result<(), Self::Error>)
        ensures
            final(self).calls() == old(self).calls().push(VmCall::GasCheckpointPop { result: r }),
    ;

    /// The metadata of the running contract.
    fn running_contract_meta(&mut self) -> (r: Result<
        CosmwasmContractMeta<Self::Address>,
        Self::Error,
    >)
        ensures
            final(self).calls() == old(self).calls().push(
                VmCall::RunningContractMeta { result: r },
            ),
    ;

    /// The metadata the VM holds for each contract, by the text of its
    /// address. An implementation verified with Verus defines it.
    closed spec fn contract_metas(&self) -> Map<Seq<char>, CosmwasmContractMeta<Self::Address>> {
        arbitrary()
    }

    /// The metadata of a contract: what the VM holds for its address, where
    /// the read succeeds. Reading changes no metadata.
    fn contract_meta(&mut self, address: Self::Address) -> (r: Result<
        CosmwasmContractMeta<Self::Address>,
        Self::Error,
    >)
        ensures
            final(self).contract_metas() == old(self).contract_metas(),
            r matches Ok(m) ==> old(self).contract_metas().contains_key(address@) && m == old(
                self,
            ).contract_metas()[address@],
            final(self).calls() == old(self).calls().push(
                VmCall::ContractMeta { address: address@, result: r },
            ),
    ;

    /// Replaces the metadata of a contract; where the write succeeds, a later
    /// read gives back what was written, and a failed write changes nothing.
    fn set_contract_meta(
        &mut self,
        address: Self::Address,
        meta: CosmwasmContractMeta<Self::Address>,
    ) -> (r: Result<(), Self::Error>)
        ensures
            r is Ok ==> final(self).contract_metas() == old(self).contract_metas().insert(
                address@,
                meta,
            ),
            r is Err ==> final(self).contract_metas() == old(self).contract_metas(),
            final(self).calls() == old(self).calls().push(
                VmCall::SetContractMeta { address: address@, meta, result: r },
            ),
    ;

    /// Moves funds from one account to another before a contract runs.
    fn transfer_from(&mut self, from: &Self::Address, to: &Self::Address, funds: &[Coin]) -> (r:
        Result<(), Self::Error>)
        ensures
            final(self).calls() == old(self).calls().push(
                VmCall::TransferFrom { from: from@, to: to@, funds: funds@, result: r },
            ),
    ;

    /// Sends funds of the running contract to an account.
    fn transfer(&mut self, to: &Self::Address, funds: &[Coin]) -> (r: Result<(), Self::Error>)
        ensures
            final(self).calls() == old(self).calls().push(
                VmCall::Transfer { to: to@, funds: funds@, result: r },
            ),
    ;

    /// Burns funds of the running contract.
    fn burn(&mut self, funds: &[Coin]) -> (r: Result<(), Self::Error>)
        ensures
            final(self).calls() == old(self).calls().push(VmCall::Burn { funds: funds@, result: r }),
    ;

    /// Runs a custom message.
    fn message_custom(&mut self, message: Self::MessageCustom, events: &mut Vec<Event>) -> (r:
        Result<Option<Vec<u8>>, Self::Error>)
        ensures
            old(events)@.is_prefix_of(final(events)@),
            final(self).calls() == old(self).calls().push(
                VmCall::MessageCustom { message, emitted: events_view(final(events)@.skip(old(events)@.len() as int)), result: r },
            ),
    ;

    /// Executes another contract.
    fn continue_execute(
        &mut self,
        address: Self::Address,
        funds: Vec<Coin>,
        message: &[u8],
        events: &mut Vec<Event>,
    ) -> (r: Result<Option<Vec<u8>>, Self::Error>)
        ensures
            old(events)@.is_prefix_of(final(events)@),
            final(self).calls() == old(self).calls().push(
                VmCall::ContinueExecute {
                    address: address@,
                    funds: funds@,
                    message: message@,
                    emitted: events_view(final(events)@.skip(old(events)@.len() as int)),
                    result: r,
                },
            ),
    ;

    /// Instantiates a new contract; answers its address and data.
    fn continue_instantiate(
        &mut self,
        meta: CosmwasmContractMeta<Self::Address>,
        funds: Vec<Coin>,
        message: &[u8],
        events: &mut Vec<Event>,
    ) -> (r: Result<(Self::Address, Option<Vec<u8>>), Self::Error>)
        ensures
            old(events)@.is_prefix_of(final(events)@),
            final(self).calls() == old(self).calls().push(
                VmCall::ContinueInstantiate {
                    meta,
                    funds: funds@,
                    message: message@,
                    emitted: events_view(final(events)@.skip(old(events)@.len() as int)),
                    result: r,
                },
            ),
    ;

    /// Runs the `migrate` entry point of a contract.
    fn continue_migrate(&mut self, address: Self::Address, message: &[u8], events: &mut Vec<Event>) -> (r:
        Result<Option<Vec<u8>>, Self::Error>)
        ensures
            old(events)@.is_prefix_of(final(events)@),
            final(self).calls() == old(self).calls().push(
                VmCall::ContinueMigrate {
                    address: address@,
                    message: message@,
                    emitted: events_view(final(events)@.skip(old(events)@.len() as int)),
                    result: r,
                },
            ),
    ;

    /// Runs the `reply` entry point of the running contract.
    fn continue_reply(&mut self, reply: Reply, events: &mut Vec<Event>) -> (r: Result<
        Option<Vec<u8>>,
        Self::Error,
    >)
        ensures
            old(events)@.is_prefix_of(final(events)@),
            final(self).calls() == old(self).calls().push(
                VmCall::ContinueReply {
                    reply,
                    emitted: events_view(final(events)@.skip(old(events)@.len() as int)),
                    result: r,
                },
            ),
    ;

    /// Answers a custom query.
    fn query_custom(&mut self, query: Self::QueryCustom) -> (r: Result<
        SystemResult<CosmwasmQueryResult>,
        Self::Error,
    >)
        ensures
            final(self).calls() == old(self).calls().push(VmCall::QueryCustom { query, result: r }),
    ;

    /// The balance of an account in one denomination.
    fn balance(&mut self, account: &Self::Address, denom: String) -> (r: Result<Coin, Self::Error>)
        ensures
            final(self).calls() == old(self).calls().push(
                VmCall::Balance { account: account@, denom: denom@, result: r },
            ),
    ;

    /// The non-zero balances of an account.
    fn all_balance(&mut self, account: &Self::Address) -> (r: Result<Vec<Coin>, Self::Error>)
        ensures
            final(self).calls() == old(self).calls().push(
                VmCall::AllBalance { account: account@, result: r },
            ),
    ;

    /// Runs the `query` entry point of a contract.
    fn continue_query(&mut self, address: Self::Address, message: &[u8]) -> (r: Result<
        CosmwasmQueryResult,
        Self::Error,
    >)
        ensures
            final(self).calls() == old(self).calls().push(
                VmCall::ContinueQuery { address: address@, message: message@, result: r },
            ),
    ;

    /// Reads a raw key of a contract's storage.
    fn query_raw(&mut self, address: Self::Address, key: Vec<u8>) -> (r: Result<
        Option<Vec<u8>>,
        Self::Error,
    >)
        ensures
            final(self).calls() == old(self).calls().push(
                VmCall::QueryRaw { address: address@, key: key@, result: r },
            ),
    ;

    /// The public information about a contract.
    fn query_info(&mut self, address: Self::Address) -> (r: Result<ContractInfoResponse, Self::Error>)
        ensures
            final(self).calls() == old(self).calls().push(
                VmCall::QueryInfo { address: address@, result: r },
            ),
    ;
}

/// A call the system layer made on a VM: what was handed to it (addresses by
/// their text, byte and coin lists by their contents) and what it answered.
pub enum VmCall<V: CosmwasmVm> {
    Call { message: Seq<u8>, result: Result<ContractResult<Response<V::MessageCustom>>, V::Error> },
    TransactionBegin { result: Result<(), V::Error> },
    TransactionCommit { result: Result<(), V::Error> },
    TransactionRollback { result: Result<(), V::Error> },
    GasCheckpointPush { checkpoint: VmGasCheckpoint, result: Result<(), V::Error> },
    GasCheckpointPop { result: Result<(), V::Error> },
    RunningContractMeta { result: Result<CosmwasmContractMeta<V::Address>, V::Error> },
    ContractMeta { address: Seq<char>, result: Result<CosmwasmContractMeta<V::Address>, V::Error> },
    SetContractMeta {
        address: Seq<char>,
        meta: CosmwasmContractMeta<V::Address>,
        result: Result<(), V::Error>,
    },
    TransferFrom { from: Seq<char>, to: Seq<char>, funds: Seq<Coin>, result: Result<(), V::Error> },
    Transfer { to: Seq<char>, funds: Seq<Coin>, result: Result<(), V::Error> },
    Burn { funds: Seq<Coin>, result: Result<(), V::Error> },
    MessageCustom {
        message: V::MessageCustom,
        emitted: Seq<EventView>,
        result: Result<Option<Vec<u8>>, V::Error>,
    },
    ContinueExecute {
        address: Seq<char>,
        funds: Seq<Coin>,
        message: Seq<u8>,
        emitted: Seq<EventView>,
        result: Result<Option<Vec<u8>>, V::Error>,
    },
    ContinueInstantiate {
        meta: CosmwasmContractMeta<V::Address>,
        funds: Seq<Coin>,
        message: Seq<u8>,
        emitted: Seq<EventView>,
        result: Result<(V::Address, Option<Vec<u8>>), V::Error>,
    },
    ContinueMigrate {
        address: Seq<char>,
        message: Seq<u8>,
        emitted: Seq<EventView>,
        result: Result<Option<Vec<u8>>, V::Error>,
    },
    ContinueReply { reply: Reply, emitted: Seq<EventView>, result: Result<Option<Vec<u8>>, V::Error> },
    QueryCustom { query: V::QueryCustom, result: Result<SystemResult<CosmwasmQueryResult>, V::Error> },
    Balance { account: Seq<char>, denom: Seq<char>, result: Result<Coin, V::Error> },
    AllBalance { account: Seq<char>, result: Result<Vec<Coin>, V::Error> },
    ContinueQuery { address: Seq<char>, message: Seq<u8>, result: Result<CosmwasmQueryResult, V::Error> },
    QueryRaw { address: Seq<char>, key: Seq<u8>, result: Result<Option<Vec<u8>>, V::Error> },
    QueryInfo { address: Seq<char>, result: Result<ContractInfoResponse, V::Error> },
}

/// The calls made on `vm` since it was `before`.
pub open spec fn calls_since<V: CosmwasmVm>(before: V, vm: V) -> Seq<VmCall<V>> {
    vm.calls().skip(before.calls().len() as int)
}

/// The events a call pushed while contract code ran, in order; calls that
/// run no contract code push none.
pub open spec fn call_events<V: CosmwasmVm>(call: VmCall<V>) -> Seq<EventView> {
    match call {
        VmCall::MessageCustom { emitted, .. } => emitted,
        VmCall::ContinueExecute { emitted, .. } => emitted,
        VmCall::ContinueInstantiate { emitted, .. } => emitted,
        VmCall::ContinueMigrate { emitted, .. } => emitted,
        VmCall::ContinueReply { emitted, .. } => emitted,
        _ => Seq::empty(),
    }
}

/// The events a sequence of calls pushed, in order.
pub open spec fn events_of<V: CosmwasmVm>(calls: Seq<VmCall<V>>) -> Seq<EventView>
    decreases calls.len(),
{
    if calls.len() == 0 {
        Seq::empty()
    } else {
        events_of(calls.drop_last()) + call_events(calls.last())
    }
}

/// The events of calls made one after the other are those of the first,
/// then those of the second.
pub proof fn lemma_events_of_concat<V: CosmwasmVm>(a: Seq<VmCall<V>>, b: Seq<VmCall<V>>)
    ensures
        events_of(a + b) == events_of(a) + events_of(b),
    decreases b.len(),
{
    if b.len() == 0 {
        assert(a + b =~= a);
        assert(events_of(a) + events_of(b) =~= events_of(a));
    } else {
        lemma_events_of_concat(a, b.drop_last());
        assert((a + b).drop_last() =~= a + b.drop_last());
        assert((a + b).last() == b.last());
        assert(events_of(a + b) =~= events_of(a) + events_of(b));
    }
}

/// Calls none of which ran contract code push no events.
pub proof fn lemma_no_events<V: CosmwasmVm>(calls: Seq<VmCall<V>>)
    requires
        forall|i: int| 0 <= i < calls.len() ==> call_events(#[trigger] calls[i]) == Seq::<EventView>::empty(),
    ensures
        events_of(calls) == Seq::<EventView>::empty(),
    decreases calls.len(),
{
    if calls.len() > 0 {
        assert forall|i: int| 0 <= i < calls.drop_last().len() implies call_events(
            #[trigger] calls.drop_last()[i],
        ) == Seq::<EventView>::empty() by {
            assert(calls.drop_last()[i] == calls[i]);
        }
        lemma_no_events(calls.drop_last());
        assert(call_events(calls[calls.len() - 1]) == Seq::<EventView>::empty());
        assert(events_of(calls) =~= Seq::<EventView>::empty());
    }
}

/// The events of a single call are those it pushed.
pub proof fn lemma_events_of_one<V: CosmwasmVm>(c: VmCall<V>)
    ensures
        events_of(seq![c]) == call_events(c),
{
    let empty = Seq::<VmCall<V>>::empty();
    assert(seq![c].drop_last() =~= empty);
    assert(seq![c].last() == c);
    assert(events_of(empty) == Seq::<EventView>::empty());
    assert(events_of(seq![c]) == events_of(empty) + call_events(c));
    assert(events_of(seq![c]) =~= call_events(c));
}

/// The calls made from `a` to `c` are those from `a` to `b`, then those from
/// `b` to `c`, and so are their events.
pub proof fn lemma_calls_since_split<V: CosmwasmVm>(a: V, b: V, c: V)
    requires
        a.calls().is_prefix_of(b.calls()),
        b.calls().is_prefix_of(c.calls()),
    ensures
        calls_since(a, c) == calls_since(a, b) + calls_since(b, c),
        events_of(calls_since(a, c)) == events_of(calls_since(a, b)) + events_of(calls_since(b, c)),
{
    let n = a.calls().len() as int;
    let m = b.calls().len() as int;
    assert forall|i: int| 0 <= i < m - n implies calls_since(a, c)[i] == calls_since(a, b)[i] by {
        assert(c.calls().subrange(0, m)[n + i] == c.calls()[n + i]);
    }
    assert(calls_since(a, c) =~= calls_since(a, b) + calls_since(b, c));
    lemma_events_of_concat(calls_since(a, b), calls_since(b, c));
}

/// Where the one call `c` was made from `a` to `b`, the calls since are
/// that call, and their events are its events.
pub proof fn lemma_calls_since_one<V: CosmwasmVm>(a: V, b: V, c: VmCall<V>)
    requires
        b.calls() == a.calls().push(c),
    ensures
        calls_since(a, b) == seq![c],
        events_of(calls_since(a, b)) == call_events(c),
        a.calls().is_prefix_of(b.calls()),
{
    assert(calls_since(a, b) =~= seq![c]);
    assert(b.calls().subrange(0, a.calls().len() as int) =~= a.calls());
    lemma_events_of_one(c);
}

/// A list that extends another is it followed by what was added, by views.
pub proof fn lemma_events_extend(before: Seq<Event>, after: Seq<Event>)
    requires
        before.is_prefix_of(after),
    ensures
        events_view(after) == events_view(before) + events_view(after.skip(before.len() as int)),
{
    assert(events_view(after) =~= events_view(before) + events_view(after.skip(before.len() as int))) by {
        assert forall|i: int| 0 <= i < after.len() implies events_view(after)[i]
            == (events_view(before) + events_view(after.skip(before.len() as int)))[i] by {
            if i < before.len() {
                assert(after.subrange(0, before.len() as int)[i] == after[i]);
            } else {
                assert(after.skip(before.len() as int)[i - before.len()] == after[i]);
            }
        }
    }
}

/// A prefix of a prefix of a sequence is a prefix of it.
pub proof fn lemma_prefix_transitive<T>(a: Seq<T>, b: Seq<T>, c: Seq<T>)
    requires
        a.is_prefix_of(b),
        b.is_prefix_of(c),
    ensures
        a.is_prefix_of(c),
{
    assert(a =~= c.subrange(0, a.len() as int)) by {
        assert forall|i: int| 0 <= i < a.len() implies a[i] == c[i] by {
            assert(b.subrange(0, a.len() as int)[i] == b[i]);
            assert(c.subrange(0, b.len() as int)[i] == c[i]);
        }
    }
}

/// Whether `e` is the VM error that stands for the system error `s`, as far
/// as the VM's conversion from system errors is specified.
pub open spec fn is_system_error<V: CosmwasmVm>(e: V::Error, s: SystemError) -> bool {
    <V::Error as FromSpec<SystemError>>::obeys_from_spec() ==> e == <V::Error as FromSpec<
        SystemError,
    >>::from_spec(s)
}

/// The VM error that stands for a system error.
pub fn system_error<V: CosmwasmVm>(s: SystemError) -> (r: V::Error)
    ensures
        is_system_error::<V>(r, s),
{
    V::Error::from(s)
}

} // verus!
