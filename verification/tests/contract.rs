use nftx::contract::{
    apply_instantiate_reply, execute_receive, execute_receive_cw20, get_vault_array, get_vault_id,
    get_vtoken_address, handle_cw20_instantiate, instantiate, query, reply, QueryAnswer,
};
use nftx::error::{ContractError, StdError};
use nftx::msg::{
    CheckCreateVault, Cw20ReceiveMsg, Cw721ReceiveMsg, InstantiateMsg, NftDataTransfer, QueryMsg,
};
use nftx::response::{ExecuteCall, Reply, ReplyOn, Response, SubMsgResponse, SubMsgResult, WasmMsg};
use nftx::state::{ContractState, UserNftData, Vault};

const CONTRACT: &str = "contract0";

fn s(x: &str) -> String {
    x.to_string()
}

fn nft_msg(sender: &str, token_id: &str) -> Cw721ReceiveMsg {
    Cw721ReceiveMsg { sender: s(sender), token_id: s(token_id), msg: vec![] }
}

fn cw20_msg(sender: &str) -> Cw20ReceiveMsg {
    Cw20ReceiveMsg { sender: s(sender), amount: 1, msg: vec![] }
}

fn create_msg(name: &str, symbol: &str, nft_address: &str) -> CheckCreateVault {
    CheckCreateVault {
        message: s("Create Vault"),
        vault_id: None,
        vault_name: Some(s(name)),
        vault_symbol: Some(s(symbol)),
        nft_asset_address: Some(s(nft_address)),
    }
}

fn deposit_msg(vault_id: &str) -> CheckCreateVault {
    CheckCreateVault {
        message: s("Deposit"),
        vault_id: Some(s(vault_id)),
        vault_name: None,
        vault_symbol: None,
        nft_asset_address: None,
    }
}

/// The data of an instantiation's reply: field 1 holds the contract address.
fn instantiate_data(address: &str) -> Vec<u8> {
    let mut data = vec![0x0a, address.len() as u8];
    data.extend_from_slice(address.as_bytes());
    data
}

fn ok_reply(id: u64, address: &str) -> Reply {
    Reply { id, result: SubMsgResult::Success(SubMsgResponse { data: Some(instantiate_data(address)) }) }
}

fn method(r: &Response) -> String {
    assert_eq!(r.attributes.len(), 1);
    assert_eq!(r.attributes[0].key, "method");
    r.attributes[0].value.clone()
}

fn assert_mint(r: &Response, vtoken: &str, recipient: &str) {
    assert_eq!(method(r), "execute_mint");
    assert_eq!(r.messages.len(), 1);
    assert_eq!(r.messages[0].id, 2);
    assert_eq!(r.messages[0].reply_on, ReplyOn::Error);
    match &r.messages[0].msg {
        WasmMsg::Execute { contract_addr, msg: ExecuteCall::Mint { recipient: to, amount } } => {
            assert_eq!(contract_addr, vtoken);
            assert_eq!(to, recipient);
            assert_eq!(*amount, 1);
        }
        other => panic!("unexpected message {:?}", other),
    }
}

fn nft_ids(v: &Vault) -> Vec<String> {
    v.vault_user_nft_data.iter().map(|d| d.nft_id.clone()).collect()
}

/// A contract with one vault "1" created by alice with nft "a1", its vault token "vt1" registered.
fn one_vault() -> ContractState {
    let mut st = ContractState::new();
    instantiate(&mut st, s("owner"), "0.1.0", InstantiateMsg {}).unwrap();
    execute_receive(&mut st, &s(CONTRACT), &s("nft0"), nft_msg("alice", "a1"), create_msg("Apes", "APE", "nft0")).unwrap();
    reply(&mut st, ok_reply(1, "vt1")).unwrap();
    st
}

#[test]
fn instantiate_records_owner_and_version() {
    let mut st = ContractState::new();
    let r = instantiate(&mut st, s("owner"), "0.1.0", InstantiateMsg {}).unwrap();
    assert_eq!(method(&r), "instantiate");
    assert!(r.messages.is_empty());
    assert_eq!(st.state.as_ref().unwrap().contract_owner, "owner");
    let v = st.contract_version.as_ref().unwrap();
    assert_eq!(v.contract, "crates.io:cosmwasm-nftx");
    assert_eq!(v.version, "0.1.0");
}

#[test]
fn create_vault_instantiates_vault_token() {
    let mut st = ContractState::new();
    let r = execute_receive(&mut st, &s(CONTRACT), &s("nft0"), nft_msg("alice", "a1"), create_msg("Apes", "APE", "nft0"))
        .unwrap();
    assert_eq!(method(&r), "cw20_instantiate");
    assert_eq!(r.messages.len(), 1);
    assert_eq!(r.messages[0].id, 1);
    assert_eq!(r.messages[0].reply_on, ReplyOn::Success);
    match &r.messages[0].msg {
        WasmMsg::Instantiate { admin, code_id, msg, label } => {
            assert!(admin.is_none());
            assert_eq!(*code_id, 846);
            assert_eq!(label, "vtoken_created");
            assert_eq!(msg.name, "Apes");
            assert_eq!(msg.symbol, "APE");
            assert_eq!(msg.decimals, 18);
            assert!(msg.initial_balances.is_empty());
            assert!(msg.marketing.is_none());
            let mint = msg.mint.as_ref().unwrap();
            assert_eq!(mint.minter, CONTRACT);
            assert!(mint.cap.is_none());
        }
        other => panic!("unexpected message {:?}", other),
    }
    let vaults = st.vault_list.as_ref().unwrap();
    assert_eq!(vaults.len(), 1);
    assert_eq!(vaults[0].vault_id, "1");
    assert_eq!(vaults[0].vault_name, "Apes");
    assert_eq!(vaults[0].vault_symbol, "APE");
    assert_eq!(vaults[0].vault_owner, "alice");
    assert_eq!(vaults[0].vault_nft_address, "nft0");
    assert_eq!(nft_ids(&vaults[0]), vec![s("a1")]);
    assert_eq!(vaults[0].vault_user_nft_data[0].user_address, "alice");
    assert_eq!(st.user_vaults.get(&s("alice")).unwrap(), &vec![s("1")]);
    assert_eq!(st.user_address.as_deref(), Some("alice"));
}

#[test]
fn vault_ids_count_up_and_are_listed_per_owner() {
    let mut st = ContractState::new();
    for (who, tok) in [("alice", "a1"), ("bob", "b1"), ("alice", "a2")] {
        execute_receive(&mut st, &s(CONTRACT), &s("nft0"), nft_msg(who, tok), create_msg("N", "S", "nft0")).unwrap();
    }
    let ids: Vec<String> = st.vault_list.as_ref().unwrap().iter().map(|v| v.vault_id.clone()).collect();
    assert_eq!(ids, vec![s("1"), s("2"), s("3")]);
    assert_eq!(get_vault_id(&st, &s("alice")).unwrap().vault_id_response, vec![s("1"), s("3")]);
    assert_eq!(get_vault_id(&st, &s("bob")).unwrap().vault_id_response, vec![s("2")]);
    assert!(matches!(get_vault_id(&st, &s("carol")), Err(ContractError::NftTransferFailed {})));
}

#[test]
fn tenth_vault_gets_two_digit_id() {
    let mut st = ContractState::new();
    for i in 0..10 {
        execute_receive(&mut st, &s(CONTRACT), &s("nft0"), nft_msg("alice", &format!("t{}", i)), create_msg("N", "S", "nft0"))
            .unwrap();
    }
    assert_eq!(st.vault_list.as_ref().unwrap()[9].vault_id, "10");
}

#[test]
fn reply_registers_vault_token_and_mints_to_creator() {
    let mut st = ContractState::new();
    execute_receive(&mut st, &s(CONTRACT), &s("nft0"), nft_msg("alice", "a1"), create_msg("Apes", "APE", "nft0")).unwrap();
    let r = reply(&mut st, ok_reply(1, "vt1")).unwrap();
    assert_mint(&r, "vt1", "alice");
    assert_eq!(get_vtoken_address(&st, &s("1")).unwrap().vtoken_address, "vt1");
}

#[test]
fn reply_with_unknown_id_is_refused() {
    let mut st = one_vault();
    match reply(&mut st, ok_reply(7, "vt9")) {
        Err(ContractError::VTokenInstantiate { id }) => assert_eq!(id, 7),
        other => panic!("unexpected {:?}", other),
    }
    assert!(st.vault_vtoken.get(&s("1")).is_some());
    assert_eq!(st.vault_vtoken.len(), 1);
}

#[test]
fn reply_of_failed_instantiation_is_refused() {
    let mut st = one_vault();
    let failed = Reply { id: 1, result: SubMsgResult::Failure(s("out of gas")) };
    assert!(matches!(reply(&mut st, failed), Err(ContractError::VTokenInsError {})));
    let no_data = Reply { id: 1, result: SubMsgResult::Success(SubMsgResponse { data: None }) };
    assert!(matches!(handle_cw20_instantiate(&mut st, no_data), Err(ContractError::VTokenInsError {})));
    let bad = Reply { id: 1, result: SubMsgResult::Success(SubMsgResponse { data: Some(vec![0x12, 1, 0]) }) };
    assert!(matches!(handle_cw20_instantiate(&mut st, bad), Err(ContractError::VTokenInsError {})));
    assert_eq!(st.vault_vtoken.get(&s("1")).unwrap(), "vt1");
}

#[test]
fn reply_before_any_vault_is_refused() {
    let mut st = ContractState::new();
    assert!(matches!(reply(&mut st, ok_reply(1, "vt1")), Err(ContractError::VaultNotExist {})));
    assert_eq!(st.vault_vtoken.len(), 0);
}

#[test]
fn reply_without_creator_is_refused() {
    let mut st = ContractState::new();
    st.vault_list = Some(vec![]);
    assert!(matches!(apply_instantiate_reply(&mut st, Some(s("vt1"))), Err(ContractError::UserNotExist {})));
    assert_eq!(st.vault_vtoken.len(), 0);
    assert!(matches!(apply_instantiate_reply(&mut st, None), Err(ContractError::VTokenInsError {})));
}

#[test]
fn apply_reply_keys_token_by_number_of_vaults() {
    let mut st = ContractState::new();
    for tok in ["a1", "a2"] {
        execute_receive(&mut st, &s(CONTRACT), &s("nft0"), nft_msg("alice", tok), create_msg("N", "S", "nft0")).unwrap();
    }
    let r = apply_instantiate_reply(&mut st, Some(s("vt2"))).unwrap();
    assert_mint(&r, "vt2", "alice");
    assert_eq!(st.vault_vtoken.get(&s("2")).unwrap(), "vt2");
    assert!(st.vault_vtoken.get(&s("1")).is_none());
}

#[test]
fn deposit_without_vault_token_is_refused() {
    let mut st = ContractState::new();
    execute_receive(&mut st, &s(CONTRACT), &s("nft0"), nft_msg("alice", "a1"), create_msg("N", "S", "nft0")).unwrap();
    let r = execute_receive(&mut st, &s(CONTRACT), &s("nft0"), nft_msg("bob", "b1"), deposit_msg("1"));
    assert!(matches!(r, Err(ContractError::NftTransferFailed {})));
    assert_eq!(nft_ids(&st.vault_list.as_ref().unwrap()[0]), vec![s("a1")]);
}

#[test]
fn deposit_with_token_but_no_vault_list_is_refused() {
    let mut st = ContractState::new();
    st.vault_vtoken.insert(s("1"), s("vt1"));
    match execute_receive(&mut st, &s(CONTRACT), &s("nft0"), nft_msg("bob", "b1"), deposit_msg("1")) {
        Err(ContractError::Std(StdError::NotFound { kind })) => {
            assert_eq!(kind, "type: alloc::vec::Vec<nftx::state::Vault>; key: [76, 61, 75, 6C, 74, 5F, 6C, 69, 73, 74]")
        }
        other => panic!("unexpected {:?}", other),
    }
    assert!(st.vault_list.is_none());
}

#[test]
fn deposit_records_nft_and_mints_one_token() {
    let mut st = one_vault();
    let r = execute_receive(&mut st, &s(CONTRACT), &s("nft0"), nft_msg("bob", "b1"), deposit_msg("1")).unwrap();
    assert_mint(&r, "vt1", "bob");
    let v = &st.vault_list.as_ref().unwrap()[0];
    assert_eq!(nft_ids(v), vec![s("a1"), s("b1")]);
    assert_eq!(v.vault_user_nft_data[1].user_address, "bob");
}

#[test]
fn redeem_before_any_vault_is_refused() {
    let mut st = ContractState::new();
    let t = NftDataTransfer { vault_id: s("1"), nft_asset_address: s("nft0"), nft_id: s("a1") };
    match execute_receive_cw20(&mut st, &s("vt1"), cw20_msg("bob"), t) {
        Err(ContractError::Std(StdError::NotFound { kind })) => {
            assert_eq!(kind, "type: alloc::vec::Vec<nftx::state::Vault>; key: [76, 61, 75, 6C, 74, 5F, 6C, 69, 73, 74]")
        }
        other => panic!("unexpected {:?}", other),
    }
}

#[test]
fn queries_before_and_after_first_vault() {
    let st = ContractState::new();
    assert!(matches!(get_vault_array(&st), Err(ContractError::NftTransferFailed {})));
    assert!(matches!(get_vtoken_address(&st, &s("1")), Err(ContractError::NftTransferFailed {})));
    let st = one_vault();
    let all = get_vault_array(&st).unwrap().vault_array;
    assert_eq!(all.len(), 1);
    assert_eq!(all[0].vault_id, "1");
    match query(&st, QueryMsg::GetVTokenAddress { vault_id: s("1") }) {
        QueryAnswer::VTokenAddress(Ok(r)) => assert_eq!(r.vtoken_address, "vt1"),
        other => panic!("unexpected {:?}", other),
    }
    match query(&st, QueryMsg::GetVaultId { vault_owner: s("alice") }) {
        QueryAnswer::VaultId(Ok(r)) => assert_eq!(r.vault_id_response, vec![s("1")]),
        other => panic!("unexpected {:?}", other),
    }
    match query(&st, QueryMsg::GetVaultArray {}) {
        QueryAnswer::VaultArray(Ok(r)) => assert_eq!(r.vault_array.len(), 1),
        other => panic!("unexpected {:?}", other),
    }
    assert!(matches!(
        query(&st, QueryMsg::GetVaultId { vault_owner: s("bob") }),
        QueryAnswer::VaultId(Err(ContractError::NftTransferFailed {}))
    ));
}

#[test]
fn vault_clone_keeps_contents() {
    let v = Vault {
        vault_id: s("1"),
        vault_name: s("N"),
        vault_symbol: s("S"),
        vault_owner: s("o"),
        vault_nft_address: s("n"),
        vault_user_nft_data: vec![UserNftData { nft_id: s("x"), user_address: s("o") }],
    };
    let c = v.clone();
    assert_eq!(c.vault_id, "1");
    assert_eq!(nft_ids(&c), vec![s("x")]);
}

fn transfer(vault_id: &str, nft_address: &str, nft_id: &str) -> NftDataTransfer {
    NftDataTransfer { vault_id: s(vault_id), nft_asset_address: s(nft_address), nft_id: s(nft_id) }
}

fn assert_redeem(r: &Response, vtoken: &str, nft_address: &str, recipient: &str, nft_id: &str) {
    assert_eq!(method(r), "execute_nft_transfer");
    assert_eq!(r.messages.len(), 2);
    assert_eq!(r.messages[0].reply_on, ReplyOn::Never);
    match &r.messages[0].msg {
        WasmMsg::Execute { contract_addr, msg: ExecuteCall::Burn { amount } } => {
            assert_eq!(contract_addr, vtoken);
            assert_eq!(*amount, 1);
        }
        other => panic!("unexpected message {:?}", other),
    }
    assert_eq!(r.messages[1].id, 3);
    assert_eq!(r.messages[1].reply_on, ReplyOn::Error);
    match &r.messages[1].msg {
        WasmMsg::Execute { contract_addr, msg: ExecuteCall::TransferNft { recipient: to, token_id } } => {
            assert_eq!(contract_addr, nft_address);
            assert_eq!(to, recipient);
            assert_eq!(token_id, nft_id);
        }
        other => panic!("unexpected message {:?}", other),
    }
}

#[test]
fn redeem_removes_first_record_burns_and_transfers_nft() {
    let mut st = one_vault();
    for tok in ["b1", "b2"] {
        execute_receive(&mut st, &s(CONTRACT), &s("nft0"), nft_msg("bob", tok), deposit_msg("1")).unwrap();
    }
    let r = execute_receive_cw20(&mut st, &s("vt1"), cw20_msg("carol"), transfer("1", "nft0", "a1")).unwrap();
    assert_redeem(&r, "vt1", "nft0", "carol", "a1");
    assert_eq!(nft_ids(&st.vault_list.as_ref().unwrap()[0]), vec![s("b1"), s("b2")]);
}

#[test]
fn redeem_takes_out_the_last_record_too() {
    let mut st = one_vault();
    let r = execute_receive_cw20(&mut st, &s("vt1"), cw20_msg("carol"), transfer("1", "nft0", "a1")).unwrap();
    assert_redeem(&r, "vt1", "nft0", "carol", "a1");
    assert!(st.vault_list.as_ref().unwrap()[0].vault_user_nft_data.is_empty());
}

#[test]
fn deposit_then_redeem_restores_the_vault() {
    let mut st = one_vault();
    execute_receive(&mut st, &s(CONTRACT), &s("nft0"), nft_msg("bob", "b1"), deposit_msg("1")).unwrap();
    let r = execute_receive_cw20(&mut st, &s("vt1"), cw20_msg("bob"), transfer("1", "nft0", "b1")).unwrap();
    assert_redeem(&r, "vt1", "nft0", "bob", "b1");
    assert_eq!(nft_ids(&st.vault_list.as_ref().unwrap()[0]), vec![s("a1")]);
}

#[test]
fn redeem_of_nft_not_held_is_refused() {
    let mut st = one_vault();
    let r = execute_receive_cw20(&mut st, &s("vt1"), cw20_msg("bob"), transfer("1", "nft0", "zz"));
    assert!(matches!(r, Err(ContractError::NftTransferFailed {})));
    assert_eq!(nft_ids(&st.vault_list.as_ref().unwrap()[0]), vec![s("a1")]);
    execute_receive_cw20(&mut st, &s("vt1"), cw20_msg("bob"), transfer("1", "nft0", "a1")).unwrap();
    let r = execute_receive_cw20(&mut st, &s("vt1"), cw20_msg("bob"), transfer("1", "nft0", "a1"));
    assert!(matches!(r, Err(ContractError::NftTransferFailed {})));
}

#[test]
fn redeem_from_unknown_vault_is_refused() {
    let mut st = one_vault();
    let r = execute_receive_cw20(&mut st, &s("vt1"), cw20_msg("bob"), transfer("9", "nft0", "a1"));
    assert!(matches!(r, Err(ContractError::VaultNotFound {})));
    assert_eq!(nft_ids(&st.vault_list.as_ref().unwrap()[0]), vec![s("a1")]);
}

#[test]
fn redeem_with_other_token_is_refused() {
    let mut st = one_vault();
    let r = execute_receive_cw20(&mut st, &s("other"), cw20_msg("bob"), transfer("1", "nft0", "a1"));
    assert!(matches!(r, Err(ContractError::Unauthorized {})));
    assert_eq!(nft_ids(&st.vault_list.as_ref().unwrap()[0]), vec![s("a1")]);
}

#[test]
fn redeem_before_vault_token_is_refused() {
    let mut st = ContractState::new();
    execute_receive(&mut st, &s(CONTRACT), &s("nft0"), nft_msg("alice", "a1"), create_msg("N", "S", "nft0")).unwrap();
    let r = execute_receive_cw20(&mut st, &s("vt1"), cw20_msg("bob"), transfer("1", "nft0", "a1"));
    assert!(matches!(r, Err(ContractError::Unauthorized {})));
}

#[test]
fn redeem_with_wrong_amount_or_nft_contract_is_refused() {
    let mut st = one_vault();
    let two = Cw20ReceiveMsg { sender: s("bob"), amount: 2, msg: vec![] };
    let r = execute_receive_cw20(&mut st, &s("vt1"), two, transfer("1", "nft0", "a1"));
    assert!(matches!(r, Err(ContractError::NftTransferFailed {})));
    let r = execute_receive_cw20(&mut st, &s("vt1"), cw20_msg("bob"), transfer("1", "nftX", "a1"));
    assert!(matches!(r, Err(ContractError::NftTransferFailed {})));
    assert_eq!(nft_ids(&st.vault_list.as_ref().unwrap()[0]), vec![s("a1")]);
}

#[test]
fn create_from_other_nft_contract_is_refused() {
    let mut st = ContractState::new();
    let r = execute_receive(&mut st, &s(CONTRACT), &s("intruder"), nft_msg("alice", "a1"), create_msg("N", "S", "nft0"));
    assert!(matches!(r, Err(ContractError::Unauthorized {})));
    assert!(st.vault_list.is_none());
    assert_eq!(st.user_vaults.len(), 0);
}

#[test]
fn deposit_from_other_nft_contract_is_refused() {
    let mut st = one_vault();
    let r = execute_receive(&mut st, &s(CONTRACT), &s("intruder"), nft_msg("bob", "b1"), deposit_msg("1"));
    assert!(matches!(r, Err(ContractError::Unauthorized {})));
    assert_eq!(nft_ids(&st.vault_list.as_ref().unwrap()[0]), vec![s("a1")]);
}

#[test]
fn deposit_into_unknown_vault_is_refused() {
    let mut st = one_vault();
    st.vault_vtoken.insert(s("5"), s("vt5"));
    let r = execute_receive(&mut st, &s(CONTRACT), &s("nft0"), nft_msg("bob", "b1"), deposit_msg("5"));
    assert!(matches!(r, Err(ContractError::VaultNotFound {})));
}

