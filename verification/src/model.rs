//! The contract as a state machine over the model of its storage: for each
//! message, the next state and the answer. On an error the state is the one
//! before the message, as the chain discards what a failed message wrote.
use vstd::prelude::*;
use crate::error::{ContractErrorView, StdErrorView};
use crate::msg::{CheckCreateVaultView, Cw20InstantiateView, NftDataTransferView};
use crate::numeral::decimal;
use crate::response::{ExecuteCallView, ReplyOn, ResponseView, SubMsgView, WasmMsgView};
use crate::state::{ContractStateView, UserNftDataView, VaultView};

verus! {

/// What a message leads to: the next state, and the answer or the error.
pub type Outcome = (ContractStateView, Result<ResponseView, ContractErrorView>);

/// The name under which the contract records its version.
pub open spec fn contract_name() -> Seq<char> {
    "crates.io:cosmwasm-nftx"@
}

/// The message text that asks for a new vault.
pub open spec fn create_vault_text() -> Seq<char> {
    "Create Vault"@
}

/// What is reported as not found when the vault list is read before any vault
/// exists: its type and its storage key, the bytes of "vault_list" in hex.
pub open spec fn vault_list_kind() -> Seq<char> {
    "type: alloc::vec::Vec<nftx::state::Vault>; key: [76, 61, 75, 6C, 74, 5F, 6C, 69, 73, 74]"@
}

/// The id of the sub-message that instantiates a vault token.
pub const INSTANTIATE_CW20_REPLY_ID: u64 = 1;

/// The id of the sub-message that mints a vault token.
pub const EXECUTE_MINT_ID: u64 = 2;

/// The id of the sub-message that transfers an NFT out of a vault.
pub const EXECUTE_TRANSFER_NFT: u64 = 3;

/// The code id of the vault token contract.
pub const VTOKEN_CODE_ID: u64 = 846;

/// The vaults in the state; none before the first vault is created.
pub open spec fn vaults_of(s: ContractStateView) -> Seq<VaultView> {
    match s.vault_list {
        Some(v) => v,
        None => Seq::empty(),
    }
}

/// The ids of the vaults created by `owner`.
pub open spec fn ids_of(s: ContractStateView, owner: Seq<char>) -> Seq<Seq<char>> {
    if s.user_vaults.contains_key(owner) {
        s.user_vaults[owner]
    } else {
        Seq::empty()
    }
}

/// A response with the single attribute `("method", method)` and the single sub-message `sub`.
pub open spec fn single_response_view(method: Seq<char>, sub: SubMsgView) -> ResponseView {
    ResponseView { attributes: seq![("method"@, method)], messages: seq![sub] }
}

/// The state after instantiation by `sender`, recording `version`.
pub open spec fn instantiate_step(s: ContractStateView, sender: Seq<char>, version: Seq<char>) -> Outcome {
    (
        ContractStateView {
            contract_version: Some((contract_name(), version)),
            owner: Some(sender),
            ..s
        },
        Ok(ResponseView { attributes: seq![("method"@, "instantiate"@)], messages: seq![] }),
    )
}

/// The vault that `sender` creates with the NFT `token_id`, under the id `id`.
pub open spec fn new_vault(
    id: Seq<char>,
    sender: Seq<char>,
    token_id: Seq<char>,
    check: CheckCreateVaultView,
) -> VaultView {
    VaultView {
        vault_id: id,
        vault_name: check.vault_name->0,
        vault_symbol: check.vault_symbol->0,
        vault_owner: sender,
        vault_nft_address: check.nft_asset_address->0,
        vault_user_nft_data: seq![UserNftDataView { nft_id: token_id, user_address: sender }],
    }
}

/// The answer to a vault creation: instantiate the vault token, minted by the contract itself.
pub open spec fn create_response(contract_address: Seq<char>, check: CheckCreateVaultView) -> ResponseView {
    single_response_view(
        "cw20_instantiate"@,
        SubMsgView {
            id: INSTANTIATE_CW20_REPLY_ID,
            reply_on: ReplyOn::Success,
            msg: WasmMsgView::Instantiate {
                admin: None,
                code_id: VTOKEN_CODE_ID,
                label: "vtoken_created"@,
                msg: Cw20InstantiateView {
                    name: check.vault_name->0,
                    symbol: check.vault_symbol->0,
                    decimals: 18,
                    initial_balances: Seq::empty(),
                    mint: Some((contract_address, None)),
                    marketing: None,
                },
            },
        },
    )
}

/// The answer that mints one vault token of `vtoken` to `recipient`.
pub open spec fn mint_response(vtoken: Seq<char>, recipient: Seq<char>) -> ResponseView {
    single_response_view(
        "execute_mint"@,
        SubMsgView {
            id: EXECUTE_MINT_ID,
            reply_on: ReplyOn::Error,
            msg: WasmMsgView::Execute {
                contract_addr: vtoken,
                msg: ExecuteCallView::Mint { recipient, amount: 1 },
            },
        },
    )
}

/// The answer to a redemption: burn the `amount` vault tokens received on the
/// vault token `vtoken`, and transfer the NFT `token_id` of `nft_contract` to `recipient`.
pub open spec fn redeem_response(
    vtoken: Seq<char>,
    amount: u128,
    nft_contract: Seq<char>,
    recipient: Seq<char>,
    token_id: Seq<char>,
) -> ResponseView {
    ResponseView {
        attributes: seq![("method"@, "execute_nft_transfer"@)],
        messages: seq![
            SubMsgView {
                id: 0,
                reply_on: ReplyOn::Never,
                msg: WasmMsgView::Execute { contract_addr: vtoken, msg: ExecuteCallView::Burn { amount } },
            },
            SubMsgView {
                id: EXECUTE_TRANSFER_NFT,
                reply_on: ReplyOn::Error,
                msg: WasmMsgView::Execute {
                    contract_addr: nft_contract,
                    msg: ExecuteCallView::TransferNft { recipient, token_id },
                },
            },
        ],
    }
}

/// The error of reading the vault list before any vault exists.
pub open spec fn vault_list_not_found() -> ContractErrorView {
    ContractErrorView::Std(StdErrorView::NotFound { kind: vault_list_kind() })
}

/// Creating a vault: accepted only from the NFT contract the vault is for.
/// The vault gets the id one past the number of vaults, is appended to the
/// list, its id is appended to the sender's ids, and the sender is remembered
/// for the vault token's reply.
pub open spec fn create_step(
    s: ContractStateView,
    contract_address: Seq<char>,
    nft_contract: Seq<char>,
    sender: Seq<char>,
    token_id: Seq<char>,
    check: CheckCreateVaultView,
) -> Outcome {
    if check.nft_asset_address != Some(nft_contract) {
        (s, Err(ContractErrorView::Unauthorized))
    } else {
        let id = decimal(vaults_of(s).len() + 1);
        (
            ContractStateView {
                user_vaults: s.user_vaults.insert(sender, ids_of(s, sender).push(id)),
                vault_list: Some(vaults_of(s).push(new_vault(id, sender, token_id, check))),
                user_address: Some(sender),
                ..s
            },
            Ok(create_response(contract_address, check)),
        )
    }
}

/// The position of the first vault at or after `i` whose id is `vault_id`.
pub open spec fn first_vault(vaults: Seq<VaultView>, vault_id: Seq<char>, i: int) -> Option<int>
    decreases vaults.len() - i,
{
    if i < 0 || i >= vaults.len() {
        None
    } else if vaults[i].vault_id == vault_id {
        Some(i)
    } else {
        first_vault(vaults, vault_id, i + 1)
    }
}

/// The position of the first NFT record at or after `i` whose id is `nft_id`.
pub open spec fn first_match(nfts: Seq<UserNftDataView>, nft_id: Seq<char>, i: int) -> Option<int>
    decreases nfts.len() - i,
{
    if i < 0 || i >= nfts.len() {
        None
    } else if nfts[i].nft_id == nft_id {
        Some(i)
    } else {
        first_match(nfts, nft_id, i + 1)
    }
}

/// Where `first_vault` finds a vault, it lies at or after `i` and has the id,
/// and no vault between `i` and it has the id; where it finds none, no vault at
/// or after `i` has the id.
pub proof fn lemma_first_vault(vaults: Seq<VaultView>, vault_id: Seq<char>, i: int)
    requires
        0 <= i,
    ensures
        match first_vault(vaults, vault_id, i) {
            Some(k) => i <= k < vaults.len() && vaults[k].vault_id == vault_id && forall|m: int|
                i <= m < k ==> (#[trigger] vaults[m]).vault_id != vault_id,
            None => forall|m: int| i <= m < vaults.len() ==> (#[trigger] vaults[m]).vault_id != vault_id,
        },
    decreases vaults.len() - i,
{
    if i < vaults.len() && vaults[i].vault_id != vault_id {
        lemma_first_vault(vaults, vault_id, i + 1);
    }
}

/// Where `first_match` finds a record, it lies at or after `i` and has the id,
/// and no record between `i` and it has the id; where it finds none, no record
/// at or after `i` has the id.
pub proof fn lemma_first_match(nfts: Seq<UserNftDataView>, nft_id: Seq<char>, i: int)
    requires
        0 <= i,
    ensures
        match first_match(nfts, nft_id, i) {
            Some(j) => i <= j < nfts.len() && nfts[j].nft_id == nft_id && forall|m: int|
                i <= m < j ==> (#[trigger] nfts[m]).nft_id != nft_id,
            None => forall|m: int| i <= m < nfts.len() ==> (#[trigger] nfts[m]).nft_id != nft_id,
        },
    decreases nfts.len() - i,
{
    if i < nfts.len() && nfts[i].nft_id != nft_id {
        lemma_first_match(nfts, nft_id, i + 1);
    }
}

/// `vault` with `nfts` as its NFT records.
pub open spec fn with_nfts(vault: VaultView, nfts: Seq<UserNftDataView>) -> VaultView {
    VaultView { vault_user_nft_data: nfts, ..vault }
}

/// Depositing the NFT `token_id` of `nft_contract` into the vault `vault_id`:
/// refused when the vault has no vault token, when no vault has that id, or
/// when the NFT is not of the vault's NFT contract; otherwise the NFT's record
/// is appended to the vault's records and one vault token is minted to the sender.
pub open spec fn deposit_step(
    s: ContractStateView,
    nft_contract: Seq<char>,
    sender: Seq<char>,
    token_id: Seq<char>,
    vault_id: Seq<char>,
) -> Outcome {
    if !s.vault_vtoken.contains_key(vault_id) {
        (s, Err(ContractErrorView::NftTransferFailed))
    } else if s.vault_list is None {
        (s, Err(vault_list_not_found()))
    } else {
        let vaults = vaults_of(s);
        match first_vault(vaults, vault_id, 0) {
            None => (s, Err(ContractErrorView::VaultNotFound)),
            Some(k) => if vaults[k].vault_nft_address != nft_contract {
                (s, Err(ContractErrorView::Unauthorized))
            } else {
                let nft = UserNftDataView { nft_id: token_id, user_address: sender };
                (
                    ContractStateView {
                        vault_list: Some(
                            vaults.update(k, with_nfts(vaults[k], vaults[k].vault_user_nft_data.push(nft))),
                        ),
                        ..s
                    },
                    Ok(mint_response(s.vault_vtoken[vault_id], sender)),
                )
            },
        }
    }
}

/// A received NFT, notified by `nft_contract`: a vault creation when the
/// message says "Create Vault", a deposit otherwise.
pub open spec fn receive_nft_step(
    s: ContractStateView,
    contract_address: Seq<char>,
    nft_contract: Seq<char>,
    sender: Seq<char>,
    token_id: Seq<char>,
    check: CheckCreateVaultView,
) -> Outcome {
    if check.message == create_vault_text() {
        create_step(s, contract_address, nft_contract, sender, token_id, check)
    } else {
        deposit_step(s, nft_contract, sender, token_id, check.vault_id->0)
    }
}

/// Redeeming `amount` vault tokens, sent by the token contract `token_contract`,
/// for an NFT: refused before any vault exists, when no vault has the id, when
/// the tokens are not the vault's token, when the amount is not one, when the
/// NFT contract is not the vault's, or when the vault holds no record of the
/// NFT. Otherwise the first record of the NFT leaves the vault, the received
/// tokens are burned, and the NFT is transferred to the sender.
pub open spec fn receive_cw20_step(
    s: ContractStateView,
    token_contract: Seq<char>,
    sender: Seq<char>,
    amount: u128,
    transfer: NftDataTransferView,
) -> Outcome {
    match s.vault_list {
        None => (s, Err(vault_list_not_found())),
        Some(vaults) => match first_vault(vaults, transfer.vault_id, 0) {
            None => (s, Err(ContractErrorView::VaultNotFound)),
            Some(k) => if !s.vault_vtoken.contains_key(transfer.vault_id) || s.vault_vtoken[transfer.vault_id]
                != token_contract {
                (s, Err(ContractErrorView::Unauthorized))
            } else if amount != 1 || vaults[k].vault_nft_address != transfer.nft_asset_address {
                (s, Err(ContractErrorView::NftTransferFailed))
            } else {
                let nfts = vaults[k].vault_user_nft_data;
                match first_match(nfts, transfer.nft_id, 0) {
                    None => (s, Err(ContractErrorView::NftTransferFailed)),
                    Some(j) => (
                        ContractStateView {
                            vault_list: Some(vaults.update(k, with_nfts(vaults[k], nfts.remove(j)))),
                            ..s
                        },
                        Ok(
                            redeem_response(
                                token_contract,
                                amount,
                                transfer.nft_asset_address,
                                sender,
                                transfer.nft_id,
                            ),
                        ),
                    ),
                }
            },
        },
    }
}

/// The vault token at `address` was instantiated: it becomes the token of the
/// vault whose id is the number of vaults, and one token is minted to the last
/// vault creator. `address` is `None` when the reply could not be read.
pub open spec fn instantiate_reply_step(s: ContractStateView, address: Option<Seq<char>>) -> Outcome {
    match address {
        None => (s, Err(ContractErrorView::VTokenInsError)),
        Some(a) => match s.vault_list {
            None => (s, Err(ContractErrorView::VaultNotExist)),
            Some(vaults) => match s.user_address {
                None => (s, Err(ContractErrorView::UserNotExist)),
                Some(user) => (
                    ContractStateView {
                        vault_vtoken: s.vault_vtoken.insert(decimal(vaults.len()), a),
                        ..s
                    },
                    Ok(mint_response(a, user)),
                ),
            },
        },
    }
}

/// The answer to the query for all vaults.
pub open spec fn vault_array_answer(s: ContractStateView) -> Result<Seq<VaultView>, ContractErrorView> {
    match s.vault_list {
        Some(v) => Ok(v),
        None => Err(ContractErrorView::NftTransferFailed),
    }
}

/// The answer to the query for the vault ids of `owner`.
pub open spec fn vault_id_answer(s: ContractStateView, owner: Seq<char>) -> Result<
    Seq<Seq<char>>,
    ContractErrorView,
> {
    if s.user_vaults.contains_key(owner) {
        Ok(s.user_vaults[owner])
    } else {
        Err(ContractErrorView::NftTransferFailed)
    }
}

/// The answer to the query for the vault token of `vault_id`.
pub open spec fn vtoken_address_answer(s: ContractStateView, vault_id: Seq<char>) -> Result<
    Seq<char>,
    ContractErrorView,
> {
    if s.vault_vtoken.contains_key(vault_id) {
        Ok(s.vault_vtoken[vault_id])
    } else {
        Err(ContractErrorView::NftTransferFailed)
    }
}

} // verus!
