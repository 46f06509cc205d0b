//! The contract's entry points: instantiation, the two kinds of received
//! tokens, the reply of the vault token's instantiation, and the queries.
use vstd::prelude::*;
use crate::error::{ContractError, ContractErrorView, StdError};
use crate::model::{
    EXECUTE_MINT_ID, EXECUTE_TRANSFER_NFT, INSTANTIATE_CW20_REPLY_ID, VTOKEN_CODE_ID,
    create_response, create_step, create_vault_text, deposit_step, first_match, first_vault, ids_of, lemma_first_match, lemma_first_vault,
    instantiate_reply_step, instantiate_step, mint_response, new_vault, receive_cw20_step,
    receive_nft_step, redeem_response, vault_array_answer, vault_id_answer, vault_list_not_found,
    vaults_of, vtoken_address_answer, with_nfts,
};
use crate::msg::{
    CheckCreateVault, Cw20Instantiate, Cw20ReceiveMsg, Cw721ReceiveMsg, GetVTokenAddressResponse,
    GetVaultArrayResponse, GetVaultIdResponse, InstantiateMsg, MinterResponse, NftDataTransfer,
    QueryMsg,
};
use crate::numeral::{decimal, decimal_string};
use crate::response::{
    Attribute, ExecuteCall, Reply, ReplyOn, Response, ResponseView, SubMsg, SubMsgResult, WasmMsg, single_response,
};
use crate::state::{
    ContractState, ContractVersion, State, UserNftData, Vault, VaultView, clone_strings, clone_vaults,
    nfts_view, vaults_view,
};

verus! {

/// The model of an answer or an error.
pub open spec fn result_view(res: Result<Response, ContractError>) -> Result<ResponseView, ContractErrorView> {
    match res {
        Ok(r) => Ok(r@),
        Err(e) => Err(e@),
    }
}

fn vault_list_missing() -> (e: ContractError)
    ensures
        e@ == vault_list_not_found(),
{
    ContractError::Std(StdError::NotFound { kind: String::from_str("type: alloc::vec::Vec<nftx::state::Vault>; key: [76, 61, 75, 6C, 74, 5F, 6C, 69, 73, 74]") })
}

fn mint_message(vtoken: String, recipient: String) -> (r: Response)
    ensures
        r@ == mint_response(vtoken@, recipient@),
{
    let sub = SubMsg {
        id: EXECUTE_MINT_ID,
        msg: WasmMsg::Execute { contract_addr: vtoken, msg: ExecuteCall::Mint { recipient, amount: 1 } },
        reply_on: ReplyOn::Error,
    };
    single_response("execute_mint", sub)
}

/// Instantiates the contract: records its name and `contract_version`, and
/// `sender` as its owner.
pub fn instantiate(
    state: &mut ContractState,
    sender: String,
    contract_version: &str,
    _msg: InstantiateMsg,
) -> (res: Result<Response, ContractError>)
    ensures
        (final(state)@, result_view(res)) == instantiate_step(old(state)@, sender@, contract_version@),
{
    state.contract_version = Some(
        ContractVersion {
            contract: String::from_str("crates.io:cosmwasm-nftx"),
            version: String::from_str(contract_version),
        },
    );
    state.state = Some(State { contract_owner: sender });
    let mut attributes = Vec::new();
    attributes.push(
        crate::response::Attribute { key: String::from_str("method"), value: String::from_str("instantiate") },
    );
    let r = Response { attributes, messages: Vec::new() };
    assert(r@.attributes =~= seq![("method"@, "instantiate"@)]);
    assert(r@.messages =~= Seq::<crate::response::SubMsgView>::empty());
    Ok(r)
}

fn create_vault(
    state: &mut ContractState,
    contract_address: &String,
    nft_contract: &String,
    sender: String,
    token_id: String,
    check: CheckCreateVault,
) -> (res: Result<Response, ContractError>)
    requires
        check@.vault_name is Some,
        check@.vault_symbol is Some,
        check@.nft_asset_address is Some,
    ensures
        (final(state)@, result_view(res)) == create_step(
            old(state)@,
            contract_address@,
            nft_contract@,
            sender@,
            token_id@,
            check@,
        ),
{
    let nft_address = check.nft_asset_address.unwrap();
    if nft_address != *nft_contract {
        return Err(ContractError::Unauthorized {  });
    }
    let ghost s0 = state@;
    let count: usize = match &state.vault_list {
        Some(v) => v.len(),
        None => 0,
    };
    let id = decimal_string(count as u128 + 1);
    let name = check.vault_name.unwrap();
    let symbol = check.vault_symbol.unwrap();
    let mut nfts: Vec<UserNftData> = Vec::new();
    nfts.push(UserNftData { nft_id: token_id, user_address: sender.clone() });
    let vault = Vault {
        vault_id: id.clone(),
        vault_name: name.clone(),
        vault_symbol: symbol.clone(),
        vault_owner: sender.clone(),
        vault_nft_address: nft_address,
        vault_user_nft_data: nfts,
    };
    proof {
        assert(nfts_view(vault.vault_user_nft_data@) =~= seq![
            crate::state::UserNftDataView { nft_id: token_id@, user_address: sender@ },
        ]);
        assert(vault@ == new_vault(decimal(vaults_of(s0).len() + 1), sender@, token_id@, check@));
    }
    let mut ids = match state.user_vaults.get(&sender) {
        Some(v) => clone_strings(v),
        None => Vec::new(),
    };
    ids.push(id);
    proof {
        assert(ids.deep_view() =~= ids_of(s0, sender@).push(decimal(vaults_of(s0).len() + 1)));
    }
    state.user_vaults.insert(sender.clone(), ids);
    let mut vaults = match state.vault_list.take() {
        Some(v) => v,
        None => Vec::new(),
    };
    vaults.push(vault);
    proof {
        assert(vaults_view(vaults@) =~= vaults_of(s0).push(vault@));
    }
    state.vault_list = Some(vaults);
    state.user_address = Some(sender);
    let token = Cw20Instantiate {
        name,
        symbol,
        decimals: 18,
        initial_balances: Vec::new(),
        mint: Some(MinterResponse { minter: contract_address.clone(), cap: None }),
        marketing: None,
    };
    proof {
        assert(token@.initial_balances =~= Seq::<(Seq<char>, u128)>::empty());
    }
    let sub = SubMsg {
        id: INSTANTIATE_CW20_REPLY_ID,
        msg: WasmMsg::Instantiate {
            admin: None,
            code_id: VTOKEN_CODE_ID,
            msg: token,
            label: String::from_str("vtoken_created"),
        },
        reply_on: ReplyOn::Success,
    };
    Ok(single_response("cw20_instantiate", sub))
}

/// The position of the first vault whose id is `vault_id`.
fn find_vault(vaults: &Vec<Vault>, vault_id: &String) -> (r: Option<usize>)
    ensures
        match r {
            Some(k) => first_vault(vaults_view(vaults@), vault_id@, 0) == Some(k as int),
            None => first_vault(vaults_view(vaults@), vault_id@, 0) is None,
        },
{
    let ghost vs = vaults_view(vaults@);
    let mut i: usize = 0;
    while i < vaults.len()
        invariant
            vs == vaults_view(vaults@),
            i <= vaults@.len(),
            first_vault(vs, vault_id@, 0) == first_vault(vs, vault_id@, i as int),
        decreases vaults@.len() - i,
    {
        if vaults[i].vault_id == *vault_id {
            return Some(i);
        }
        assert(vs[i as int].vault_id != vault_id@);
        i = i + 1;
    }
    None
}

/// The position of the first NFT record whose id is `nft_id`.
fn find_nft(nfts: &Vec<UserNftData>, nft_id: &String) -> (r: Option<usize>)
    ensures
        match r {
            Some(j) => first_match(nfts_view(nfts@), nft_id@, 0) == Some(j as int),
            None => first_match(nfts_view(nfts@), nft_id@, 0) is None,
        },
{
    let ghost ns = nfts_view(nfts@);
    let mut i: usize = 0;
    while i < nfts.len()
        invariant
            ns == nfts_view(nfts@),
            i <= nfts@.len(),
            first_match(ns, nft_id@, 0) == first_match(ns, nft_id@, i as int),
        decreases nfts@.len() - i,
    {
        if nfts[i].nft_id == *nft_id {
            return Some(i);
        }
        assert(ns[i as int].nft_id != nft_id@);
        i = i + 1;
    }
    None
}

fn deposit(
    state: &mut ContractState,
    nft_contract: &String,
    sender: String,
    token_id: String,
    vault_id: String,
) -> (res: Result<Response, ContractError>)
    ensures
        (final(state)@, result_view(res)) == deposit_step(
            old(state)@,
            nft_contract@,
            sender@,
            token_id@,
            vault_id@,
        ),
{
    let ghost s0 = state@;
    let vtoken = match state.vault_vtoken.get(&vault_id) {
        Some(a) => a.clone(),
        None => {
            return Err(ContractError::NftTransferFailed {  });
        },
    };
    let k = match &state.vault_list {
        None => {
            return Err(vault_list_missing());
        },
        Some(vaults) => match find_vault(vaults, &vault_id) {
            None => {
                return Err(ContractError::VaultNotFound {  });
            },
            Some(k) => {
                proof {
                    lemma_first_vault(vaults_view(vaults@), vault_id@, 0);
                }
                if vaults[k].vault_nft_address != *nft_contract {
                    return Err(ContractError::Unauthorized {  });
                }
                k
            },
        },
    };
    let mut vaults = state.vault_list.take().unwrap();
    let ghost old_vaults = vaults@;
    let nft = UserNftData { nft_id: token_id, user_address: sender.clone() };
    vaults[k].vault_user_nft_data.push(nft);
    proof {
        let vs = vaults_view(old_vaults);
        let nv = crate::state::UserNftDataView { nft_id: token_id@, user_address: sender@ };
        assert(nfts_view(vaults@[k as int].vault_user_nft_data@) =~= nfts_view(
            old_vaults[k as int].vault_user_nft_data@,
        ).push(nv));
        assert(vaults_view(vaults@) =~= vs.update(
            k as int,
            with_nfts(vs[k as int], vs[k as int].vault_user_nft_data.push(nv)),
        ));
    }
    state.vault_list = Some(vaults);
    Ok(mint_message(vtoken, sender))
}

/// Handles an NFT received through the NFT contract `nft_contract`, whose
/// attached message decodes to `check`: creates a vault when the message is
/// "Create Vault", deposits into the vault `check.vault_id` otherwise.
/// `contract_address` is this contract's address.
pub fn execute_receive(
    state: &mut ContractState,
    contract_address: &String,
    nft_contract: &String,
    trigger: Cw721ReceiveMsg,
    check: CheckCreateVault,
) -> (res: Result<Response, ContractError>)
    requires
        check@.message == create_vault_text() ==> {
            &&& check@.vault_name is Some
            &&& check@.vault_symbol is Some
            &&& check@.nft_asset_address is Some
        },
        check@.message != create_vault_text() ==> check@.vault_id is Some,
    ensures
        (final(state)@, result_view(res)) == receive_nft_step(
            old(state)@,
            contract_address@,
            nft_contract@,
            trigger.sender@,
            trigger.token_id@,
            check@,
        ),
{
    if check.message == String::from_str("Create Vault") {
        create_vault(state, contract_address, nft_contract, trigger.sender, trigger.token_id, check)
    } else {
        let vault_id = check.vault_id.unwrap();
        deposit(state, nft_contract, trigger.sender, trigger.token_id, vault_id)
    }
}

fn redeem_message(
    vtoken: String,
    amount: u128,
    nft_contract: String,
    recipient: String,
    token_id: String,
) -> (r: Response)
    ensures
        r@ == redeem_response(vtoken@, amount, nft_contract@, recipient@, token_id@),
{
    let burn = SubMsg {
        id: 0,
        msg: WasmMsg::Execute { contract_addr: vtoken, msg: ExecuteCall::Burn { amount } },
        reply_on: ReplyOn::Never,
    };
    let transfer = SubMsg {
        id: EXECUTE_TRANSFER_NFT,
        msg: WasmMsg::Execute { contract_addr: nft_contract, msg: ExecuteCall::TransferNft { recipient, token_id } },
        reply_on: ReplyOn::Error,
    };
    let ghost bv = burn@;
    let ghost tv = transfer@;
    let mut attributes: Vec<Attribute> = Vec::new();
    attributes.push(Attribute { key: String::from_str("method"), value: String::from_str("execute_nft_transfer") });
    let mut messages: Vec<SubMsg> = Vec::new();
    messages.push(burn);
    messages.push(transfer);
    let r = Response { attributes, messages };
    assert(r@.attributes =~= seq![("method"@, "execute_nft_transfer"@)]);
    assert(r@.messages =~= seq![bv, tv]);
    r
}

/// Handles `trigger.amount` vault tokens received through the token contract
/// `token_contract`, whose attached message decodes to `transfer`: the first
/// record of the NFT `transfer.nft_id` leaves the vault `transfer.vault_id`,
/// the tokens are burned, and the NFT is transferred to the sender.
pub fn execute_receive_cw20(
    state: &mut ContractState,
    token_contract: &String,
    trigger: Cw20ReceiveMsg,
    transfer: NftDataTransfer,
) -> (res: Result<Response, ContractError>)
    ensures
        (final(state)@, result_view(res)) == receive_cw20_step(
            old(state)@,
            token_contract@,
            trigger.sender@,
            trigger.amount,
            transfer@,
        ),
{
    let (k, j) = match &state.vault_list {
        None => {
            return Err(vault_list_missing());
        },
        Some(vaults) => match find_vault(vaults, &transfer.vault_id) {
            None => {
                return Err(ContractError::VaultNotFound {  });
            },
            Some(k) => {
                proof {
                    lemma_first_vault(vaults_view(vaults@), transfer@.vault_id, 0);
                }
                match state.vault_vtoken.get(&transfer.vault_id) {
                    Some(vt) => {
                        if *vt != *token_contract {
                            return Err(ContractError::Unauthorized {  });
                        }
                    },
                    None => {
                        return Err(ContractError::Unauthorized {  });
                    },
                }
                if trigger.amount != 1 || vaults[k].vault_nft_address != transfer.nft_asset_address {
                    return Err(ContractError::NftTransferFailed {  });
                }
                match find_nft(&vaults[k].vault_user_nft_data, &transfer.nft_id) {
                    None => {
                        return Err(ContractError::NftTransferFailed {  });
                    },
                    Some(j) => {
                        proof {
                            lemma_first_match(nfts_view(vaults@[k as int].vault_user_nft_data@), transfer@.nft_id, 0);
                        }
                        (k, j)
                    },
                }
            },
        },
    };
    let mut vaults = state.vault_list.take().unwrap();
    let ghost old_vaults = vaults@;
    vaults[k].vault_user_nft_data.remove(j);
    proof {
        let vs = vaults_view(old_vaults);
        assert(nfts_view(vaults@[k as int].vault_user_nft_data@) =~= nfts_view(
            old_vaults[k as int].vault_user_nft_data@,
        ).remove(j as int));
        assert(vaults_view(vaults@) =~= vs.update(
            k as int,
            with_nfts(vs[k as int], vs[k as int].vault_user_nft_data.remove(j as int)),
        ));
    }
    state.vault_list = Some(vaults);
    Ok(
        redeem_message(
            token_contract.clone(),
            trigger.amount,
            transfer.nft_asset_address,
            trigger.sender,
            transfer.nft_id,
        ),
    )
}

/// The contract address that cw0's `parse_instantiate_response_data` decodes
/// from the protobuf-encoded data of an instantiation's reply, or `None` where
/// it rejects the data.
pub uninterp spec fn instantiate_response_address(data: Seq<u8>) -> Option<Seq<char>>;

/// The address that a reply reports for an instantiated contract: none for a
/// failed sub-message or a reply without data, else what the data decodes to.
pub open spec fn reply_address(reply: Reply) -> Option<Seq<char>> {
    match reply.result {
        SubMsgResult::Failure(_) => None,
        SubMsgResult::Success(r) => match r.data {
            None => None,
            Some(data) => instantiate_response_address(data@),
        },
    }
}

/// Calls cw0's `parse_reply_instantiate_data` and keeps the contract address of
/// its answer. Trusted: a failed sub-message and a reply without data are
/// rejected (both are the first lines of that function), and otherwise the
/// address is what `parse_instantiate_response_data` decodes from the data.
/// The events of the sub-message are not passed on: that function does not read them.
#[verifier::external_body]
fn parse_reply_instantiate_data(reply: &Reply) -> (r: Option<String>)
    ensures
        match reply.result {
            SubMsgResult::Failure(_) => r is None,
            SubMsgResult::Success(resp) => match resp.data {
                None => r is None,
                Some(data) => r.deep_view() == instantiate_response_address(data@),
            },
        },
{
    let result = match &reply.result {
        SubMsgResult::Success(resp) => cosmwasm_std::SubMsgResult::Ok(
            cosmwasm_std::SubMsgResponse { events: vec![], data: resp.data.clone().map(cosmwasm_std::Binary) },
        ),
        SubMsgResult::Failure(e) => cosmwasm_std::SubMsgResult::Err(e.clone()),
    };
    let reply = cosmwasm_std::Reply { id: reply.id, result };
    cw0::parse_reply_instantiate_data(reply).ok().map(|data| data.contract_address)
}

/// Records the vault token at `contract_address` (`None` when the reply could
/// not be read) as the token of the newest vault, and mints one token to the
/// vault's creator.
pub fn apply_instantiate_reply(state: &mut ContractState, contract_address: Option<String>) -> (res: Result<
    Response,
    ContractError,
>)
    ensures
        (final(state)@, result_view(res)) == instantiate_reply_step(
            old(state)@,
            contract_address.deep_view(),
        ),
{
    let address = match contract_address {
        Some(a) => a,
        None => {
            return Err(ContractError::VTokenInsError {  });
        },
    };
    let count: usize = match &state.vault_list {
        Some(v) => v.len(),
        None => {
            return Err(ContractError::VaultNotExist {  });
        },
    };
    let user = match &state.user_address {
        Some(u) => u.clone(),
        None => {
            return Err(ContractError::UserNotExist {  });
        },
    };
    state.vault_vtoken.insert(decimal_string(count as u128), address.clone());
    Ok(mint_message(address, user))
}

/// Handles the reply of the vault token's instantiation.
pub fn handle_cw20_instantiate(state: &mut ContractState, msg: Reply) -> (res: Result<
    Response,
    ContractError,
>)
    ensures
        (final(state)@, result_view(res)) == instantiate_reply_step(old(state)@, reply_address(msg)),
{
    let address = parse_reply_instantiate_data(&msg);
    apply_instantiate_reply(state, address)
}

/// Handles the report of a sub-message: only the vault token's instantiation is
/// expected; any other id is refused.
pub fn reply(state: &mut ContractState, msg: Reply) -> (res: Result<Response, ContractError>)
    ensures
        msg.id == INSTANTIATE_CW20_REPLY_ID ==> (final(state)@, result_view(res)) == instantiate_reply_step(
            old(state)@,
            reply_address(msg),
        ),
        msg.id != INSTANTIATE_CW20_REPLY_ID ==> final(state)@ == old(state)@ && result_view(res) == Err::<
            ResponseView,
            ContractErrorView,
        >(ContractErrorView::VTokenInstantiate { id: msg.id }),
{
    if msg.id == INSTANTIATE_CW20_REPLY_ID {
        handle_cw20_instantiate(state, msg)
    } else {
        Err(ContractError::VTokenInstantiate { id: msg.id })
    }
}

/// The answer to a query, before it is encoded.
#[derive(Debug)]
pub enum QueryAnswer {
    VaultId(Result<GetVaultIdResponse, ContractError>),
    VaultArray(Result<GetVaultArrayResponse, ContractError>),
    VTokenAddress(Result<GetVTokenAddressResponse, ContractError>),
}

/// All vaults; refused before the first vault exists.
pub fn get_vault_array(state: &ContractState) -> (res: Result<GetVaultArrayResponse, ContractError>)
    ensures
        match res {
            Ok(r) => vault_array_answer(state@) == Ok::<Seq<VaultView>, ContractErrorView>(r@),
            Err(e) => vault_array_answer(state@) == Err::<Seq<VaultView>, ContractErrorView>(e@),
        },
{
    match &state.vault_list {
        Some(v) => Ok(GetVaultArrayResponse { vault_array: clone_vaults(v) }),
        None => Err(ContractError::NftTransferFailed {  }),
    }
}

/// The ids of the vaults that `owner` created; refused when there are none.
pub fn get_vault_id(state: &ContractState, owner: &String) -> (res: Result<GetVaultIdResponse, ContractError>)
    ensures
        match res {
            Ok(r) => vault_id_answer(state@, owner@) == Ok::<Seq<Seq<char>>, ContractErrorView>(
                r.vault_id_response.deep_view(),
            ),
            Err(e) => vault_id_answer(state@, owner@) == Err::<Seq<Seq<char>>, ContractErrorView>(e@),
        },
{
    match state.user_vaults.get(owner) {
        Some(v) => Ok(GetVaultIdResponse { vault_id_response: clone_strings(v) }),
        None => Err(ContractError::NftTransferFailed {  }),
    }
}

/// The vault token of the vault `vault_id`; refused when it has none.
pub fn get_vtoken_address(state: &ContractState, vault_id: &String) -> (res: Result<
    GetVTokenAddressResponse,
    ContractError,
>)
    ensures
        match res {
            Ok(r) => vtoken_address_answer(state@, vault_id@) == Ok::<Seq<char>, ContractErrorView>(
                r.vtoken_address@,
            ),
            Err(e) => vtoken_address_answer(state@, vault_id@) == Err::<Seq<char>, ContractErrorView>(e@),
        },
{
    match state.vault_vtoken.get(vault_id) {
        Some(a) => Ok(GetVTokenAddressResponse { vtoken_address: a.clone() }),
        None => Err(ContractError::NftTransferFailed {  }),
    }
}

/// Answers a query.
pub fn query(state: &ContractState, msg: QueryMsg) -> (answer: QueryAnswer)
    ensures
        match msg {
            QueryMsg::GetVaultId { vault_owner } => match answer {
                QueryAnswer::VaultId(Ok(r)) => vault_id_answer(state@, vault_owner@) == Ok::<
                    Seq<Seq<char>>,
                    ContractErrorView,
                >(r.vault_id_response.deep_view()),
                QueryAnswer::VaultId(Err(e)) => vault_id_answer(state@, vault_owner@) == Err::<
                    Seq<Seq<char>>,
                    ContractErrorView,
                >(e@),
                _ => false,
            },
            QueryMsg::GetVaultArray {  } => match answer {
                QueryAnswer::VaultArray(Ok(r)) => vault_array_answer(state@) == Ok::<
                    Seq<VaultView>,
                    ContractErrorView,
                >(r@),
                QueryAnswer::VaultArray(Err(e)) => vault_array_answer(state@) == Err::<
                    Seq<VaultView>,
                    ContractErrorView,
                >(e@),
                _ => false,
            },
            QueryMsg::GetVTokenAddress { vault_id } => match answer {
                QueryAnswer::VTokenAddress(Ok(r)) => vtoken_address_answer(state@, vault_id@) == Ok::<
                    Seq<char>,
                    ContractErrorView,
                >(r.vtoken_address@),
                QueryAnswer::VTokenAddress(Err(e)) => vtoken_address_answer(state@, vault_id@) == Err::<
                    Seq<char>,
                    ContractErrorView,
                >(e@),
                _ => false,
            },
        },
{
    match msg {
        QueryMsg::GetVaultId { vault_owner } => QueryAnswer::VaultId(get_vault_id(state, &vault_owner)),
        QueryMsg::GetVaultArray {  } => QueryAnswer::VaultArray(get_vault_array(state)),
        QueryMsg::GetVTokenAddress { vault_id } => QueryAnswer::VTokenAddress(
            get_vtoken_address(state, &vault_id),
        ),
    }
}

} // verus!
