use std::collections::BTreeMap;

use cosmwasm_system::admin::{ensure_admin, migrate, migrate_contract_meta, update_admin, update_admin_contract_meta};
use cosmwasm_system::error::{CosmwasmContractMeta, SystemError};
use cosmwasm_system::events::{ExecuteCall, HasEvent, InstantiateCall};
use cosmwasm_system::query::{
    all_balances_answer, balance_answer, contract_info_answer, cosmwasm_system_query, cosmwasm_system_query_raw,
    encode_query_answer, raw_value,
};
use cosmwasm_system::system::{
    close_transaction, contract_response, cosmwasm_system_handle_response,
    transaction_outcome, TransactionOutcome, cosmwasm_system_entrypoint, cosmwasm_system_entrypoint_hook,
    cosmwasm_system_run, dispatch_submessage, gas_checkpoint_for, reply_data, sub_call_continuation,
    SubCallContinuation,
};
use cosmwasm_system::types::{
    Attribute, BankMsg, BankQuery, Coin, ContractInfo, ContractInfoResponse, ContractResult,
    CosmosMsg, CosmwasmQueryResult, Env, Event, MessageInfo, QueryRequest, Reply, ReplyOn,
    Response, SubMsg, SubMsgResponse, SystemResult, VmGasCheckpoint, WasmMsg, WasmQuery,
};
use cosmwasm_system::vm::CosmwasmVm;

#[derive(Debug, Clone, PartialEq)]
enum MockError {
    System(SystemError),
    BadAddress(String),
    Failed(String),
}

impl From<SystemError> for MockError {
    fn from(e: SystemError) -> Self {
        MockError::System(e)
    }
}

type Answer = Result<Option<Vec<u8>>, MockError>;

struct MockVm {
    metas: BTreeMap<String, CosmwasmContractMeta<String>>,
    info: MessageInfo,
    env: Env,
    log: Vec<String>,
    response: Option<Result<ContractResult<Response<String>>, MockError>>,
    execute_answers: Vec<(Answer, Vec<Event>)>,
    reply_answers: Vec<(Answer, Vec<Event>)>,
    replies: Vec<Reply>,
    balances: BTreeMap<String, Vec<Coin>>,
    raw: BTreeMap<Vec<u8>, Vec<u8>>,
}

impl MockVm {
    fn new() -> Self {
        let mut metas = BTreeMap::new();
        metas.insert(
            "contract".to_string(),
            CosmwasmContractMeta { code_id: 1, admin: Some("admin".to_string()), label: "l".to_string() },
        );
        metas.insert(
            "frozen".to_string(),
            CosmwasmContractMeta { code_id: 2, admin: None, label: "f".to_string() },
        );
        MockVm {
            metas,
            info: MessageInfo {
                sender: "admin".to_string(),
                funds: vec![Coin { denom: "uatom".to_string(), amount: 5 }],
            },
            env: Env { contract: ContractInfo { address: "contract".to_string() } },
            log: vec![],
            response: None,
            execute_answers: vec![],
            reply_answers: vec![],
            replies: vec![],
            balances: BTreeMap::new(),
            raw: BTreeMap::new(),
        }
    }
}

impl CosmwasmVm for MockVm {
    type Address = String;
    type Error = MockError;
    type MessageCustom = String;
    type QueryCustom = String;

    fn address_text(a: &String) -> String {
        a.clone()
    }

    fn address_from_text(text: String) -> Result<String, MockError> {
        if text.is_empty() || text.contains(' ') {
            Err(MockError::BadAddress(text))
        } else {
            Ok(text)
        }
    }

    fn clone_address(a: &String) -> String {
        a.clone()
    }

    fn error_text(e: &MockError) -> String {
        format!("{e:?}")
    }

    fn message_info(&self) -> MessageInfo {
        self.info.clone()
    }

    fn env(&self) -> Env {
        self.env.clone()
    }

    fn cosmwasm_call<I: HasEvent>(
        &mut self,
        message: &[u8],
    ) -> Result<ContractResult<Response<String>>, MockError> {
        self.log.push(format!("call {}", String::from_utf8_lossy(message)));
        self.response.take().expect("a scripted response")
    }

    fn transaction_begin(&mut self) -> Result<(), MockError> {
        self.log.push("begin".to_string());
        Ok(())
    }

    fn transaction_commit(&mut self) -> Result<(), MockError> {
        self.log.push("commit".to_string());
        Ok(())
    }

    fn transaction_rollback(&mut self) -> Result<(), MockError> {
        self.log.push("rollback".to_string());
        Ok(())
    }

    fn gas_checkpoint_push(&mut self, checkpoint: VmGasCheckpoint) -> Result<(), MockError> {
        self.log.push(format!("gas push {checkpoint:?}"));
        Ok(())
    }

    fn gas_checkpoint_pop(&mut self) -> Result<(), MockError> {
        self.log.push("gas pop".to_string());
        Ok(())
    }

    fn running_contract_meta(&mut self) -> Result<CosmwasmContractMeta<String>, MockError> {
        let address = self.env.contract.address.clone();
        self.contract_meta(address)
    }

    fn contract_meta(&mut self, address: String) -> Result<CosmwasmContractMeta<String>, MockError> {
        self.metas.get(&address).cloned().ok_or(MockError::Failed(format!("no contract {address}")))
    }

    fn set_contract_meta(
        &mut self,
        address: String,
        meta: CosmwasmContractMeta<String>,
    ) -> Result<(), MockError> {
        self.log.push(format!("set meta {address}"));
        self.metas.insert(address, meta);
        Ok(())
    }

    fn transfer_from(&mut self, from: &String, to: &String, funds: &[Coin]) -> Result<(), MockError> {
        self.log.push(format!("transfer_from {from} {to} {}", funds.len()));
        Ok(())
    }

    fn transfer(&mut self, to: &String, funds: &[Coin]) -> Result<(), MockError> {
        self.log.push(format!("transfer {to} {}{}", funds[0].amount, funds[0].denom));
        Ok(())
    }

    fn burn(&mut self, funds: &[Coin]) -> Result<(), MockError> {
        self.log.push(format!("burn {}", funds.len()));
        Ok(())
    }

    fn message_custom(&mut self, message: String, events: &mut Vec<Event>) -> Answer {
        self.log.push(format!("custom {message}"));
        events.push(Event { ty: "custom".to_string(), attributes: vec![] });
        Ok(Some(message.into_bytes()))
    }

    fn continue_execute(
        &mut self,
        address: String,
        _funds: Vec<Coin>,
        _message: &[u8],
        events: &mut Vec<Event>,
    ) -> Answer {
        self.log.push(format!("execute {address}"));
        let (answer, emitted) = self.execute_answers.remove(0);
        events.extend(emitted);
        answer
    }

    fn continue_instantiate(
        &mut self,
        meta: CosmwasmContractMeta<String>,
        _funds: Vec<Coin>,
        _message: &[u8],
        _events: &mut Vec<Event>,
    ) -> Result<(String, Option<Vec<u8>>), MockError> {
        self.log.push(format!("instantiate {} {:?} {}", meta.code_id, meta.admin, meta.label));
        Ok(("new".to_string(), Some(b"init".to_vec())))
    }

    fn continue_migrate(&mut self, address: String, _message: &[u8], _events: &mut Vec<Event>) -> Answer {
        self.log.push(format!("migrate {address}"));
        Ok(None)
    }

    fn continue_reply(&mut self, reply: Reply, events: &mut Vec<Event>) -> Answer {
        self.log.push(format!("reply {}", reply.id));
        self.replies.push(reply);
        let (answer, emitted) = self.reply_answers.remove(0);
        events.extend(emitted);
        answer
    }

    fn query_custom(&mut self, query: String) -> Result<SystemResult<CosmwasmQueryResult>, MockError> {
        Ok(Ok(Ok(query.into_bytes())))
    }

    fn balance(&mut self, account: &String, denom: String) -> Result<Coin, MockError> {
        let amount = self
            .balances
            .get(account)
            .and_then(|coins| coins.iter().find(|c| c.denom == denom).map(|c| c.amount))
            .unwrap_or(0);
        Ok(Coin { denom, amount })
    }

    fn all_balance(&mut self, account: &String) -> Result<Vec<Coin>, MockError> {
        Ok(self.balances.get(account).cloned().unwrap_or_default())
    }

    fn continue_query(&mut self, address: String, message: &[u8]) -> Result<CosmwasmQueryResult, MockError> {
        if address == "contract" {
            Ok(Ok(message.to_vec()))
        } else {
            Ok(Err("unknown query".to_string()))
        }
    }

    fn query_raw(&mut self, _address: String, key: Vec<u8>) -> Result<Option<Vec<u8>>, MockError> {
        Ok(self.raw.get(&key).cloned())
    }

    fn query_info(&mut self, address: String) -> Result<ContractInfoResponse, MockError> {
        let meta = self.contract_meta(address)?;
        Ok(ContractInfoResponse {
            code_id: meta.code_id,
            creator: "creator".to_string(),
            admin: meta.admin,
            pinned: false,
            ibc_port: None,
        })
    }
}

fn attr(key: &str, value: &str) -> Attribute {
    Attribute { key: key.to_string(), value: value.to_string() }
}

fn event(ty: &str, attributes: Vec<Attribute>) -> Event {
    Event { ty: ty.to_string(), attributes }
}

fn response(messages: Vec<SubMsg<String>>, data: Option<&[u8]>) -> Response<String> {
    Response { messages, attributes: vec![], events: vec![], data: data.map(|d| d.to_vec()) }
}

fn execute_msg(id: u64, contract: &str, reply_on: ReplyOn) -> SubMsg<String> {
    SubMsg {
        id,
        msg: CosmosMsg::Wasm(WasmMsg::Execute {
            contract_addr: contract.to_string(),
            msg: b"{}".to_vec(),
            funds: vec![],
        }),
        gas_limit: None,
        reply_on,
    }
}

#[test]
fn admin_migrates_contract() {
    let mut vm = MockVm::new();
    assert_eq!(migrate(&mut vm, "admin".to_string(), "contract".to_string(), 9), Ok(()));
    assert_eq!(
        vm.metas["contract"],
        CosmwasmContractMeta { code_id: 9, admin: Some("admin".to_string()), label: "l".to_string() }
    );
}

#[test]
fn stranger_cannot_migrate() {
    let mut vm = MockVm::new();
    assert_eq!(
        migrate(&mut vm, "eve".to_string(), "contract".to_string(), 9),
        Err(MockError::System(SystemError::MustBeAdmin))
    );
    assert_eq!(vm.metas["contract"].code_id, 1);
    assert!(vm.log.is_empty());
}

#[test]
fn contract_without_admin_is_immutable() {
    let mut vm = MockVm::new();
    assert_eq!(
        migrate(&mut vm, "admin".to_string(), "frozen".to_string(), 9),
        Err(MockError::System(SystemError::ImmutableCantMigrate))
    );
    assert_eq!(
        update_admin(&mut vm, &"admin".to_string(), "frozen".to_string(), Some("x".to_string())),
        Err(MockError::System(SystemError::ImmutableCantMigrate))
    );
}

#[test]
fn missing_contract_fails_with_vm_error() {
    let mut vm = MockVm::new();
    assert_eq!(
        migrate(&mut vm, "admin".to_string(), "nowhere".to_string(), 9),
        Err(MockError::Failed("no contract nowhere".to_string()))
    );
}

#[test]
fn admin_hands_over_then_clears() {
    let mut vm = MockVm::new();
    let contract = "contract".to_string();
    assert_eq!(update_admin(&mut vm, &"admin".to_string(), contract.clone(), Some("bob".to_string())), Ok(()));
    assert_eq!(
        vm.metas["contract"],
        CosmwasmContractMeta { code_id: 1, admin: Some("bob".to_string()), label: "l".to_string() }
    );
    assert_eq!(
        update_admin(&mut vm, &"admin".to_string(), contract.clone(), None),
        Err(MockError::System(SystemError::MustBeAdmin))
    );
    assert_eq!(update_admin(&mut vm, &"bob".to_string(), contract.clone(), None), Ok(()));
    assert_eq!(
        migrate(&mut vm, "bob".to_string(), contract, 3),
        Err(MockError::System(SystemError::ImmutableCantMigrate))
    );
}

#[test]
fn bank_send_is_dispatched_under_gas_checkpoint() {
    let mut vm = MockVm::new();
    let info = vm.info.clone();
    let mut events = vec![];
    let msg = CosmosMsg::Bank(BankMsg::Send {
        to_address: "bob".to_string(),
        amount: vec![Coin { denom: "uatom".to_string(), amount: 3 }],
    });
    let r = dispatch_submessage(&mut vm, &info, msg, Some(1000), &mut events);
    assert_eq!(r, Ok((None, vec![])));
    assert_eq!(vm.log, vec!["gas push Limited(1000)", "transfer bob 3uatom", "gas pop"]);
}

#[test]
fn unsupported_messages_fail() {
    for msg in [
        CosmosMsg::Bank(BankMsg::Other),
        CosmosMsg::Wasm(WasmMsg::Other),
        CosmosMsg::<String>::Other,
    ] {
        let mut vm = MockVm::new();
        let info = vm.info.clone();
        let mut events = vec![];
        let r = dispatch_submessage(&mut vm, &info, msg, None, &mut events);
        assert_eq!(r, Err(MockError::System(SystemError::UnsupportedMessage)));
        assert_eq!(vm.log, vec!["gas push Unlimited", "gas pop"]);
    }
}

#[test]
fn submessage_events_go_to_both_lists() {
    let mut vm = MockVm::new();
    let info = vm.info.clone();
    let mut events = vec![event("earlier", vec![])];
    let r = dispatch_submessage(&mut vm, &info, CosmosMsg::Custom("hi".to_string()), None, &mut events);
    assert_eq!(r, Ok((Some(b"hi".to_vec()), vec![event("custom", vec![])])));
    assert_eq!(events, vec![event("earlier", vec![]), event("custom", vec![])]);
}

#[test]
fn failed_submessage_still_forwards_its_events() {
    let mut vm = MockVm::new();
    vm.execute_answers.push((Err(MockError::Failed("x".to_string())), vec![event("partial", vec![])]));
    let info = vm.info.clone();
    let mut events = vec![];
    let r = dispatch_submessage(&mut vm, &info, execute_msg(1, "other", ReplyOn::Never).msg, None, &mut events);
    assert_eq!(r, Err(MockError::Failed("x".to_string())));
    assert_eq!(events, vec![event("partial", vec![])]);
}

#[test]
fn instantiate_message_passes_metadata() {
    let mut vm = MockVm::new();
    let info = vm.info.clone();
    let mut events = vec![];
    let msg = CosmosMsg::Wasm(WasmMsg::Instantiate {
        admin: Some("adm".to_string()),
        code_id: 4,
        msg: vec![],
        funds: vec![],
        label: "lbl".to_string(),
    });
    let r = dispatch_submessage(&mut vm, &info, msg, None, &mut events);
    assert_eq!(r, Ok((Some(b"init".to_vec()), vec![])));
    assert!(vm.log.contains(&"instantiate 4 Some(\"adm\") lbl".to_string()));
}

#[test]
fn migrate_message_checks_sender() {
    let mut vm = MockVm::new();
    vm.info.sender = "eve".to_string();
    let info = vm.info.clone();
    let mut events = vec![];
    let msg = CosmosMsg::Wasm(WasmMsg::Migrate {
        contract_addr: "contract".to_string(),
        new_code_id: 5,
        msg: vec![],
    });
    let r = dispatch_submessage(&mut vm, &info, msg, None, &mut events);
    assert_eq!(r, Err(MockError::System(SystemError::MustBeAdmin)));
    assert_eq!(vm.metas["contract"].code_id, 1);
}

#[test]
fn invalid_address_is_refused() {
    let mut vm = MockVm::new();
    let info = vm.info.clone();
    let mut events = vec![];
    let msg = CosmosMsg::Wasm(WasmMsg::ClearAdmin { contract_addr: "not valid".to_string() });
    let r = dispatch_submessage(&mut vm, &info, msg, None, &mut events);
    assert_eq!(r, Err(MockError::BadAddress("not valid".to_string())));
}

#[test]
fn entrypoint_emits_events_and_commits() {
    let mut vm = MockVm::new();
    vm.response = Some(Ok(Ok(Response {
        messages: vec![],
        attributes: vec![attr(" k ", " v ")],
        events: vec![event(" ev ", vec![attr("a", "b")])],
        data: Some(b"result".to_vec()),
    })));
    let r = cosmwasm_system_entrypoint::<InstantiateCall, MockVm>(&mut vm, b"msg");
    assert_eq!(
        r,
        Ok((
            Some(b"result".to_vec()),
            vec![
                event("instantiate", vec![attr("_contract_address", "contract"), attr("code_id", "1")]),
                event("wasm", vec![attr("k", "v"), attr("_contract_address", "contract")]),
                event("wasm-ev", vec![attr("a", "b"), attr("_contract_address", "contract")]),
            ]
        ))
    );
    assert_eq!(vm.log, vec!["begin", "transfer_from admin contract 1", "call msg", "commit"]);
}

#[test]
fn contract_error_rolls_back() {
    let mut vm = MockVm::new();
    vm.response = Some(Ok(Err("boom".to_string())));
    let r = cosmwasm_system_entrypoint::<ExecuteCall, MockVm>(&mut vm, b"msg");
    assert_eq!(r, Err(MockError::System(SystemError::ContractExecutionFailure("boom".to_string()))));
    assert_eq!(vm.log, vec!["begin", "transfer_from admin contract 1", "call msg", "rollback"]);
}

#[test]
fn refused_event_fails_the_run() {
    let mut vm = MockVm::new();
    vm.response = Some(Ok(Ok(Response {
        messages: vec![],
        attributes: vec![],
        events: vec![event("x", vec![])],
        data: None,
    })));
    let mut events = vec![];
    let r = cosmwasm_system_run::<ExecuteCall, MockVm>(&mut vm, b"m", &mut events);
    assert_eq!(r, Err(MockError::System(SystemError::EventTypeIsTooShort)));
    assert_eq!(events, vec![event("execute", vec![attr("_contract_address", "contract")])]);
}

#[test]
fn submessage_data_without_reply_is_not_kept() {
    let mut vm = MockVm::new();
    vm.response = Some(Ok(Ok(response(
        vec![execute_msg(1, "other", ReplyOn::Never), execute_msg(2, "other", ReplyOn::Error)],
        Some(b"first"),
    ))));
    vm.execute_answers.push((Ok(Some(b"second".to_vec())), vec![]));
    vm.execute_answers.push((Ok(None), vec![]));
    let r = cosmwasm_system_entrypoint::<ExecuteCall, MockVm>(&mut vm, b"m");
    assert_eq!(r.map(|(data, _)| data), Ok(Some(b"first".to_vec())));
    assert_eq!(
        vm.log,
        vec![
            "begin",
            "transfer_from admin contract 1",
            "call m",
            "begin",
            "gas push Unlimited",
            "execute other",
            "gas pop",
            "commit",
            "begin",
            "gas push Unlimited",
            "execute other",
            "gas pop",
            "commit",
            "commit"
        ]
    );
}

#[test]
fn failed_submessage_without_reply_aborts() {
    let mut vm = MockVm::new();
    vm.response = Some(Ok(Ok(response(vec![execute_msg(1, "other", ReplyOn::Success)], None))));
    vm.execute_answers.push((Err(MockError::Failed("sub".to_string())), vec![]));
    let r = cosmwasm_system_entrypoint::<ExecuteCall, MockVm>(&mut vm, b"m");
    assert_eq!(r, Err(MockError::Failed("sub".to_string())));
    assert!(vm.replies.is_empty());
    assert_eq!(vm.log[vm.log.len() - 2..], ["rollback".to_string(), "rollback".to_string()]);
}

#[test]
fn failed_submessage_with_reply_is_reported() {
    let mut vm = MockVm::new();
    vm.response = Some(Ok(Ok(response(vec![execute_msg(7, "other", ReplyOn::Error)], Some(b"d")))));
    vm.execute_answers.push((Err(MockError::Failed("sub".to_string())), vec![]));
    vm.reply_answers.push((Ok(None), vec![event("wasm-replied", vec![])]));
    let r = cosmwasm_system_entrypoint::<ExecuteCall, MockVm>(&mut vm, b"m");
    let (data, events) = r.unwrap();
    assert_eq!(data, Some(b"d".to_vec()));
    assert_eq!(events.last(), Some(&event("wasm-replied", vec![])));
    assert_eq!(vm.replies.len(), 1);
    assert_eq!(vm.replies[0].id, 7);
    assert_eq!(vm.replies[0].result, Err("Failed(\"sub\")".to_string()));
    assert!(vm.log.contains(&"rollback".to_string()));
    assert_eq!(vm.log.last(), Some(&"commit".to_string()));
}

#[test]
fn successful_submessage_with_reply_passes_its_events_and_data() {
    let mut vm = MockVm::new();
    vm.response = Some(Ok(Ok(response(vec![execute_msg(3, "other", ReplyOn::Always)], None))));
    vm.execute_answers.push((Ok(Some(b"sub".to_vec())), vec![event("wasm-sub", vec![])]));
    vm.reply_answers.push((Ok(None), vec![]));
    let r = cosmwasm_system_entrypoint::<ExecuteCall, MockVm>(&mut vm, b"m");
    assert_eq!(r.clone().map(|(data, _)| data), Ok(None));
    assert_eq!(
        r.map(|(_, events)| events),
        Ok(vec![
            event("execute", vec![attr("_contract_address", "contract")]),
            event("wasm-sub", vec![]),
        ])
    );
    assert_eq!(
        vm.replies[0].result,
        Ok(SubMsgResponse { events: vec![event("wasm-sub", vec![])], data: Some(b"sub".to_vec()) })
    );
}

#[test]
fn reply_data_takes_precedence() {
    let mut vm = MockVm::new();
    vm.response = Some(Ok(Ok(response(vec![execute_msg(3, "other", ReplyOn::Success)], Some(b"a")))));
    vm.execute_answers.push((Ok(Some(b"sub".to_vec())), vec![]));
    vm.reply_answers.push((Ok(Some(b"reply".to_vec())), vec![]));
    let r = cosmwasm_system_entrypoint::<ExecuteCall, MockVm>(&mut vm, b"m");
    assert_eq!(r.map(|(data, _)| data), Ok(Some(b"reply".to_vec())));
}

#[test]
fn hook_replaces_the_contract_call() {
    let mut vm = MockVm::new();
    let r = cosmwasm_system_entrypoint_hook::<ExecuteCall, MockVm>(&mut vm, b"m", |vm: &mut MockVm, msg: &[u8]| {
        vm.log.push(format!("hook {}", msg.len()));
        Ok(Ok(response(vec![], Some(b"h"))))
    });
    assert_eq!(r.map(|(data, _)| data), Ok(Some(b"h".to_vec())));
    assert_eq!(vm.log, vec!["begin", "transfer_from admin contract 1", "hook 1", "commit"]);
}

#[test]
fn balance_query_is_json() {
    let mut vm = MockVm::new();
    vm.balances.insert("bob".to_string(), vec![Coin { denom: "uatom".to_string(), amount: 100 }]);
    let r = cosmwasm_system_query(
        &mut vm,
        QueryRequest::Bank(BankQuery::Balance { address: "bob".to_string(), denom: "uatom".to_string() }),
    );
    assert_eq!(r, Ok(Ok(Ok(br#"{"amount":{"denom":"uatom","amount":"100"}}"#.to_vec()))));
}

#[test]
fn all_balances_query_is_json() {
    let mut vm = MockVm::new();
    vm.balances.insert(
        "bob".to_string(),
        vec![Coin { denom: "a".to_string(), amount: 1 }, Coin { denom: "b".to_string(), amount: 2 }],
    );
    let r = cosmwasm_system_query(&mut vm, QueryRequest::Bank(BankQuery::AllBalances { address: "bob".to_string() }));
    assert_eq!(
        r,
        Ok(Ok(Ok(br#"{"amount":[{"denom":"a","amount":"1"},{"denom":"b","amount":"2"}]}"#.to_vec())))
    );
}

#[test]
fn contract_info_query_is_json() {
    let mut vm = MockVm::new();
    let r = cosmwasm_system_query(
        &mut vm,
        QueryRequest::Wasm(WasmQuery::ContractInfo { contract_addr: "contract".to_string() }),
    );
    assert_eq!(
        r,
        Ok(Ok(Ok(
            br#"{"code_id":1,"creator":"creator","admin":"admin","pinned":false,"ibc_port":null}"#.to_vec()
        )))
    );
}

#[test]
fn raw_query_of_missing_key_is_empty() {
    let mut vm = MockVm::new();
    vm.raw.insert(b"k".to_vec(), b"v".to_vec());
    let q = |key: &[u8]| QueryRequest::<String>::Wasm(WasmQuery::Raw {
        contract_addr: "contract".to_string(),
        key: key.to_vec(),
    });
    assert_eq!(cosmwasm_system_query(&mut vm, q(b"k")), Ok(Ok(Ok(b"v".to_vec()))));
    assert_eq!(cosmwasm_system_query(&mut vm, q(b"none")), Ok(Ok(Ok(vec![]))));
}

#[test]
fn smart_and_custom_queries_pass_through() {
    let mut vm = MockVm::new();
    let smart = QueryRequest::Wasm(WasmQuery::Smart { contract_addr: "contract".to_string(), msg: b"q".to_vec() });
    assert_eq!(cosmwasm_system_query(&mut vm, smart), Ok(Ok(Ok(b"q".to_vec()))));
    let custom = QueryRequest::Custom("c".to_string());
    assert_eq!(cosmwasm_system_query(&mut vm, custom), Ok(Ok(Ok(b"c".to_vec()))));
}

#[test]
fn unsupported_queries_fail() {
    for q in [QueryRequest::Bank(BankQuery::Other), QueryRequest::Wasm(WasmQuery::Other), QueryRequest::<String>::Other] {
        let mut vm = MockVm::new();
        assert_eq!(cosmwasm_system_query(&mut vm, q), Err(MockError::System(SystemError::UnsupportedMessage)));
    }
}

#[test]
fn raw_query_answer_is_json() {
    let mut vm = MockVm::new();
    let smart = QueryRequest::Wasm(WasmQuery::Smart { contract_addr: "contract".to_string(), msg: b"hi".to_vec() });
    assert_eq!(cosmwasm_system_query_raw(&mut vm, smart), Ok(br#"{"ok":{"ok":"aGk="}}"#.to_vec()));
    let failing = QueryRequest::Wasm(WasmQuery::Smart { contract_addr: "other".to_string(), msg: vec![] });
    assert_eq!(cosmwasm_system_query_raw(&mut vm, failing), Ok(br#"{"ok":{"error":"unknown query"}}"#.to_vec()));
}

fn meta(code_id: u64, admin: Option<&str>, label: &str) -> CosmwasmContractMeta<String> {
    CosmwasmContractMeta { code_id, admin: admin.map(|a| a.to_string()), label: label.to_string() }
}

#[test]
fn ensure_admin_outcomes() {
    let sender = "alice".to_string();
    assert_eq!(ensure_admin(&sender, Some("alice".to_string())), Ok(()));
    assert_eq!(ensure_admin(&sender, Some("bob".to_string())), Err(SystemError::MustBeAdmin));
    assert_eq!(ensure_admin(&sender, None), Err(SystemError::ImmutableCantMigrate));
}

#[test]
fn migration_keeps_admin_and_label() {
    let sender = "alice".to_string();
    let m = migrate_contract_meta::<MockVm>(&sender, meta(1, Some("alice"), "lbl"), 7);
    assert_eq!(m, Ok(meta(7, Some("alice"), "lbl")));
    // The admin can migrate again.
    assert_eq!(migrate_contract_meta::<MockVm>(&sender, m.unwrap(), 8), Ok(meta(8, Some("alice"), "lbl")));
    assert_eq!(
        migrate_contract_meta::<MockVm>(&"bob".to_string(), meta(1, Some("alice"), "lbl"), 7),
        Err(SystemError::MustBeAdmin)
    );
}

#[test]
fn admin_update_keeps_code_and_label() {
    let sender = "alice".to_string();
    let m = update_admin_contract_meta::<MockVm>(&sender, meta(3, Some("alice"), "x"), Some("bob".to_string()));
    assert_eq!(m, Ok(meta(3, Some("bob"), "x")));
    // Only the new admin may change it now.
    let m = m.unwrap();
    assert_eq!(migrate_contract_meta::<MockVm>(&sender, m.clone(), 4), Err(SystemError::MustBeAdmin));
    assert_eq!(migrate_contract_meta::<MockVm>(&"bob".to_string(), m, 4), Ok(meta(4, Some("bob"), "x")));
}

#[test]
fn cleared_admin_cannot_be_restored() {
    let sender = "alice".to_string();
    let m = update_admin_contract_meta::<MockVm>(&sender, meta(3, Some("alice"), "x"), None).unwrap();
    assert_eq!(m, meta(3, None, "x"));
    assert_eq!(
        update_admin_contract_meta::<MockVm>(&sender, m.clone(), Some("alice".to_string())),
        Err(SystemError::ImmutableCantMigrate)
    );
    assert_eq!(migrate_contract_meta::<MockVm>(&sender, m, 9), Err(SystemError::ImmutableCantMigrate));
}

#[test]
fn gas_checkpoints() {
    assert_eq!(gas_checkpoint_for(Some(5)), VmGasCheckpoint::Limited(5));
    assert_eq!(gas_checkpoint_for(None), VmGasCheckpoint::Unlimited);
}

#[test]
fn continuation_of_success() {
    let ok = || Ok((Some(b"d".to_vec()), vec![event("e", vec![])]));
    for reply_on in [ReplyOn::Never, ReplyOn::Error] {
        assert_eq!(sub_call_continuation::<MockVm>(ok(), reply_on), SubCallContinuation::Continue(Some(b"d".to_vec())));
    }
    for reply_on in [ReplyOn::Always, ReplyOn::Success] {
        assert_eq!(
            sub_call_continuation::<MockVm>(ok(), reply_on),
            SubCallContinuation::Reply(Ok(SubMsgResponse { events: vec![event("e", vec![])], data: Some(b"d".to_vec()) }))
        );
    }
}

#[test]
fn continuation_of_failure() {
    let err = || Err(MockError::Failed("f".to_string()));
    for reply_on in [ReplyOn::Never, ReplyOn::Success] {
        assert_eq!(
            sub_call_continuation::<MockVm>(err(), reply_on),
            SubCallContinuation::Abort(MockError::Failed("f".to_string()))
        );
    }
    for reply_on in [ReplyOn::Always, ReplyOn::Error] {
        assert_eq!(
            sub_call_continuation::<MockVm>(err(), reply_on),
            SubCallContinuation::Reply(Err("Failed(\"f\")".to_string()))
        );
    }
}

#[test]
fn data_precedence() {
    assert_eq!(reply_data(Some(vec![1]), Some(vec![2])), Some(vec![1]));
    assert_eq!(reply_data(None, Some(vec![2])), Some(vec![2]));
    assert_eq!(reply_data(None, None), None);
}

#[test]
fn raw_values() {
    assert_eq!(raw_value(Some(vec![1, 2])), vec![1, 2]);
    assert_eq!(raw_value(None), Vec::<u8>::new());
}

#[test]
fn query_answers_encode_as_json() {
    assert_eq!(encode_query_answer::<MockVm>(Ok(Ok(vec![1, 2, 3]))), Ok(br#"{"ok":{"ok":"AQID"}}"#.to_vec()));
    assert_eq!(encode_query_answer::<MockVm>(Ok(Err("no".to_string()))), Ok(br#"{"ok":{"error":"no"}}"#.to_vec()));
    assert_eq!(
        encode_query_answer::<MockVm>(Err(cosmwasm_std::SystemError::NoSuchContract { addr: "x".to_string() })),
        Ok(br#"{"error":{"no_such_contract":{"addr":"x"}}}"#.to_vec())
    );
}

#[test]
fn transactions_commit_only_success() {
    assert_eq!(transaction_outcome::<u8, u8>(&Ok(1)), TransactionOutcome::Commit);
    assert_eq!(transaction_outcome::<u8, u8>(&Err(1)), TransactionOutcome::Rollback);
}

#[test]
fn contract_responses() {
    let ok = contract_response::<MockVm>(Ok(Ok(response(vec![], Some(b"x")))));
    assert_eq!(ok, Ok(response(vec![], Some(b"x"))));
    assert_eq!(
        contract_response::<MockVm>(Ok(Err("bad".to_string()))),
        Err(MockError::System(SystemError::ContractExecutionFailure("bad".to_string())))
    );
    assert_eq!(
        contract_response::<MockVm>(Err(MockError::Failed("vm".to_string()))),
        Err(MockError::Failed("vm".to_string()))
    );
}

#[test]
fn closing_a_transaction_commits_success_and_rolls_back_failure() {
    let mut vm = MockVm::new();
    let ok: Result<u8, MockError> = Ok(7);
    assert_eq!(close_transaction(&mut vm, ok), Ok(7));
    let failed: Result<u8, MockError> = Err(MockError::Failed("x".to_string()));
    assert_eq!(close_transaction(&mut vm, failed), Err(MockError::Failed("x".to_string())));
    assert_eq!(vm.log, vec!["commit", "rollback"]);
}

#[test]
fn handled_response_emits_run_events_then_dispatches() {
    let mut vm = MockVm::new();
    vm.execute_answers.push((Ok(Some(b"sub".to_vec())), vec![]));
    let info = vm.info.clone();
    let mut events = vec![event("earlier", vec![])];
    let r = cosmwasm_system_handle_response::<InstantiateCall, MockVm>(
        &mut vm,
        &info,
        &"contract".to_string(),
        Response {
            messages: vec![execute_msg(1, "other", ReplyOn::Never)],
            attributes: vec![attr("k", "v")],
            events: vec![],
            data: Some(b"own".to_vec()),
        },
        &mut events,
    );
    assert_eq!(r, Ok(Some(b"own".to_vec())));
    assert_eq!(
        events[..3].to_vec(),
        vec![
            event("earlier", vec![]),
            event("instantiate", vec![attr("_contract_address", "contract"), attr("code_id", "1")]),
            event("wasm", vec![attr("k", "v"), attr("_contract_address", "contract")]),
        ]
    );
}

#[test]
fn handled_response_without_submessages_gives_its_data() {
    let mut vm = MockVm::new();
    let info = vm.info.clone();
    let mut events = vec![];
    let r = cosmwasm_system_handle_response::<ExecuteCall, MockVm>(
        &mut vm,
        &info,
        &"contract".to_string(),
        Response { messages: vec![], attributes: vec![], events: vec![], data: Some(b"own".to_vec()) },
        &mut events,
    );
    assert_eq!(r, Ok(Some(b"own".to_vec())));
    assert_eq!(events, vec![event("execute", vec![attr("_contract_address", "contract")])]);
}

#[test]
fn handled_response_fails_where_metadata_cannot_be_read() {
    let mut vm = MockVm::new();
    vm.env.contract.address = "nowhere".to_string();
    let info = vm.info.clone();
    let mut events = vec![];
    let r = cosmwasm_system_handle_response::<ExecuteCall, MockVm>(
        &mut vm,
        &info,
        &"nowhere".to_string(),
        Response { messages: vec![], attributes: vec![], events: vec![], data: None },
        &mut events,
    );
    assert_eq!(r, Err(MockError::Failed("no contract nowhere".to_string())));
    assert!(events.is_empty());
}

#[test]
fn answers_from_balances_and_contract_information() {
    let coin = Coin { denom: "uatom".to_string(), amount: 3 };
    assert_eq!(
        balance_answer::<MockVm>(&coin),
        Ok(Ok(Ok(br#"{"amount":{"denom":"uatom","amount":"3"}}"#.to_vec())))
    );
    assert_eq!(
        all_balances_answer::<MockVm>(&vec![coin]),
        Ok(Ok(Ok(br#"{"amount":[{"denom":"uatom","amount":"3"}]}"#.to_vec())))
    );
    let info = ContractInfoResponse {
        code_id: 4,
        creator: "alice".to_string(),
        admin: None,
        pinned: false,
        ibc_port: None,
    };
    assert_eq!(
        contract_info_answer::<MockVm>(&info),
        Ok(Ok(Ok(br#"{"code_id":4,"creator":"alice","admin":null,"pinned":false,"ibc_port":null}"#.to_vec())))
    );
}

#[test]
fn migrating_back_restores_the_metadata() {
    let mut vm = MockVm::new();
    let before = vm.metas.clone();
    assert_eq!(migrate(&mut vm, "admin".to_string(), "contract".to_string(), 9), Ok(()));
    assert_eq!(migrate(&mut vm, "admin".to_string(), "contract".to_string(), 1), Ok(()));
    assert_eq!(vm.metas, before);
}

#[test]
fn handing_the_admin_role_back_restores_the_metadata() {
    let mut vm = MockVm::new();
    let before = vm.metas.clone();
    let contract = "contract".to_string();
    assert_eq!(update_admin(&mut vm, &"admin".to_string(), contract.clone(), Some("bob".to_string())), Ok(()));
    assert_eq!(update_admin(&mut vm, &"bob".to_string(), contract, Some("admin".to_string())), Ok(()));
    assert_eq!(vm.metas, before);
}

#[test]
fn reply_without_data_keeps_the_data_set_before() {
    let mut vm = MockVm::new();
    vm.response = Some(Ok(Ok(response(vec![execute_msg(3, "other", ReplyOn::Success)], Some(b"cur")))));
    vm.execute_answers.push((Ok(Some(b"sub".to_vec())), vec![]));
    vm.reply_answers.push((Ok(None), vec![]));
    let r = cosmwasm_system_entrypoint::<ExecuteCall, MockVm>(&mut vm, b"m");
    assert_eq!(r.map(|(data, _)| data), Ok(Some(b"cur".to_vec())));
}

#[test]
fn submessage_and_reply_events_reach_the_entry_point_in_order() {
    let mut vm = MockVm::new();
    vm.response = Some(Ok(Ok(response(
        vec![execute_msg(1, "other", ReplyOn::Always), execute_msg(2, "other", ReplyOn::Never)],
        None,
    ))));
    vm.execute_answers.push((Ok(None), vec![event("wasm-first", vec![])]));
    vm.reply_answers.push((Ok(None), vec![event("wasm-reply", vec![])]));
    vm.execute_answers.push((Ok(None), vec![event("wasm-second", vec![])]));
    let r = cosmwasm_system_entrypoint::<ExecuteCall, MockVm>(&mut vm, b"m");
    assert_eq!(
        r.map(|(_, events)| events),
        Ok(vec![
            event("execute", vec![attr("_contract_address", "contract")]),
            event("wasm-first", vec![]),
            event("wasm-reply", vec![]),
            event("wasm-second", vec![]),
        ])
    );
}

#[test]
fn bank_submessage_emits_no_events() {
    let mut vm = MockVm::new();
    let info = vm.info.clone();
    let mut events = vec![];
    let r = dispatch_submessage(
        &mut vm,
        &info,
        CosmosMsg::Bank(BankMsg::Burn { amount: vec![Coin { denom: "uatom".to_string(), amount: 1 }] }),
        None,
        &mut events,
    );
    assert_eq!(r, Ok((None, vec![])));
    assert!(events.is_empty());
}
