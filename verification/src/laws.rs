//! What holds of the contract across messages.
use vstd::prelude::*;
use crate::error::ContractErrorView;
use crate::model::{
    create_step, create_vault_text, deposit_step, first_match, first_vault, ids_of,
    instantiate_reply_step, instantiate_step, lemma_first_match, lemma_first_vault, mint_response,
    new_vault, receive_cw20_step, receive_nft_step, redeem_response, vault_array_answer,
    vault_id_answer, vaults_of, vtoken_address_answer, with_nfts,
};
use crate::msg::{CheckCreateVaultView, NftDataTransferView};
use crate::response::{ExecuteCallView, ReplyOn, ResponseView, WasmMsgView};
use crate::numeral::{decimal, lemma_decimal_injective};
use crate::state::{ContractStateView, UserNftDataView, VaultView, empty_state};

verus! {

/// The vault at position `k` has the id `k + 1`, written in decimal.
pub open spec fn ids_are_positions(vaults: Seq<VaultView>) -> bool {
    forall|k: int| 0 <= k < vaults.len() ==> (#[trigger] vaults[k]).vault_id == decimal((k + 1) as nat)
}

/// `id` is the id of a vault of `vaults` whose owner is `owner`.
pub open spec fn owns_vault(vaults: Seq<VaultView>, owner: Seq<char>, id: Seq<char>) -> bool {
    exists|k: int| 0 <= k < vaults.len() && id == decimal((k + 1) as nat) && #[trigger] vaults[k].vault_owner == owner
}

/// `id` is the id of a vault of `vaults`, given that vault ids are positions.
pub open spec fn is_vault_id(vaults: Seq<VaultView>, id: Seq<char>) -> bool {
    exists|k: int| 0 <= k < vaults.len() && id == #[trigger] decimal((k + 1) as nat)
}

/// Every id listed for an owner is the id of a vault with that owner.
pub open spec fn owner_ids_name_owned_vaults(s: ContractStateView) -> bool {
    forall|owner: Seq<char>, j: int|
        s.user_vaults.contains_key(owner) && 0 <= j < s.user_vaults[owner].len() ==> owns_vault(
            vaults_of(s),
            owner,
            #[trigger] s.user_vaults[owner][j],
        )
}

/// No id is listed twice for one owner.
pub open spec fn owner_ids_distinct(s: ContractStateView) -> bool {
    forall|owner: Seq<char>| #[trigger] s.user_vaults.contains_key(owner) ==> s.user_vaults[owner].no_duplicates()
}

/// Every vault token is registered under the id of an existing vault.
pub open spec fn vtokens_name_vaults(s: ContractStateView) -> bool {
    forall|key: Seq<char>| #[trigger] s.vault_vtoken.contains_key(key) ==> is_vault_id(vaults_of(s), key)
}

/// The invariant of every state the contract reaches: once stored the vault
/// list is not empty, vault ids are positions, the ids listed for each owner
/// name that owner's vaults and are distinct, and every vault token belongs to
/// an existing vault.
pub open spec fn contract_invariant(s: ContractStateView) -> bool {
    &&& s.vault_list is Some ==> vaults_of(s).len() >= 1
    &&& ids_are_positions(vaults_of(s))
    &&& owner_ids_name_owned_vaults(s)
    &&& owner_ids_distinct(s)
    &&& vtokens_name_vaults(s)
}

/// Replacing the records of one vault keeps every vault's id and owner.
proof fn lemma_update_keeps_ids(vaults: Seq<VaultView>, k: int, nfts: Seq<UserNftDataView>)
    requires
        0 <= k < vaults.len(),
    ensures
        ({
            let w = vaults.update(k, with_nfts(vaults[k], nfts));
            &&& w.len() == vaults.len()
            &&& forall|m: int| 0 <= m < w.len() ==> (#[trigger] w[m]).vault_id == vaults[m].vault_id
                && w[m].vault_owner == vaults[m].vault_owner
        }),
{
}

/// A contract with nothing stored satisfies the invariant.
pub proof fn lemma_invariant_initially()
    ensures
        contract_invariant(empty_state()),
{
}

/// Vault ids stay positions whatever a received NFT leads to.
pub proof fn lemma_receive_nft_keeps_ids(
    s: ContractStateView,
    contract_address: Seq<char>,
    nft_contract: Seq<char>,
    sender: Seq<char>,
    token_id: Seq<char>,
    check: CheckCreateVaultView,
)
    requires
        ids_are_positions(vaults_of(s)),
    ensures
        ids_are_positions(vaults_of(receive_nft_step(s, contract_address, nft_contract, sender, token_id, check).0)),
{
    let t = receive_nft_step(s, contract_address, nft_contract, sender, token_id, check).0;
    let old_vaults = vaults_of(s);
    let vaults = vaults_of(t);
    if check.message == create_vault_text() {
        assert forall|k: int| 0 <= k < vaults.len() implies (#[trigger] vaults[k]).vault_id == decimal((k + 1) as nat) by {
            if k < old_vaults.len() {
                assert(vaults[k] == old_vaults[k]);
            }
        }
    } else {
        let vault_id = check.vault_id->0;
        if s.vault_vtoken.contains_key(vault_id) && s.vault_list is Some {
            lemma_first_vault(old_vaults, vault_id, 0);
            if let Some(k) = first_vault(old_vaults, vault_id, 0) {
                let nft = UserNftDataView { nft_id: token_id, user_address: sender };
                lemma_update_keeps_ids(old_vaults, k, old_vaults[k].vault_user_nft_data.push(nft));
            }
        }
    }
}

/// Vault ids stay positions whatever a redemption leads to.
pub proof fn lemma_redemption_keeps_ids(
    s: ContractStateView,
    token_contract: Seq<char>,
    sender: Seq<char>,
    amount: u128,
    transfer: NftDataTransferView,
)
    requires
        ids_are_positions(vaults_of(s)),
    ensures
        ids_are_positions(vaults_of(receive_cw20_step(s, token_contract, sender, amount, transfer).0)),
{
    let vaults = vaults_of(s);
    if s.vault_list is Some {
        lemma_first_vault(vaults, transfer.vault_id, 0);
        if let Some(k) = first_vault(vaults, transfer.vault_id, 0) {
            if let Some(j) = first_match(vaults[k].vault_user_nft_data, transfer.nft_id, 0) {
                lemma_update_keeps_ids(vaults, k, vaults[k].vault_user_nft_data.remove(j));
            }
        }
    }
}

/// A received NFT keeps the ids listed for each owner naming that owner's
/// vaults, and distinct.
pub proof fn lemma_receive_nft_keeps_owner_ids(
    s: ContractStateView,
    contract_address: Seq<char>,
    nft_contract: Seq<char>,
    sender: Seq<char>,
    token_id: Seq<char>,
    check: CheckCreateVaultView,
)
    requires
        ids_are_positions(vaults_of(s)),
        owner_ids_name_owned_vaults(s),
        owner_ids_distinct(s),
    ensures
        ({
            let t = receive_nft_step(s, contract_address, nft_contract, sender, token_id, check).0;
            owner_ids_name_owned_vaults(t) && owner_ids_distinct(t)
        }),
{
    let t = receive_nft_step(s, contract_address, nft_contract, sender, token_id, check).0;
    let old_vaults = vaults_of(s);
    let vaults = vaults_of(t);
    let n = old_vaults.len();
    if t == s {
    } else if check.message == create_vault_text() {
        let id = decimal((n + 1) as nat);
        assert(vaults == old_vaults.push(new_vault(id, sender, token_id, check)));
        assert forall|owner: Seq<char>, j: int|
            t.user_vaults.contains_key(owner) && 0 <= j < t.user_vaults[owner].len() implies owns_vault(
                vaults,
                owner,
                #[trigger] t.user_vaults[owner][j],
            ) by {
            if owner == sender && j == ids_of(s, sender).len() {
                assert(t.user_vaults[owner][j] == id);
                assert(vaults[n as int].vault_owner == owner);
            } else {
                assert(s.user_vaults.contains_key(owner));
                assert(t.user_vaults[owner][j] == s.user_vaults[owner][j]);
                assert(owns_vault(old_vaults, owner, s.user_vaults[owner][j]));
                let k = choose|k: int|
                    0 <= k < old_vaults.len() && s.user_vaults[owner][j] == decimal((k + 1) as nat)
                        && #[trigger] old_vaults[k].vault_owner == owner;
                assert(vaults[k] == old_vaults[k]);
            }
        }
        assert forall|owner: Seq<char>| #[trigger] t.user_vaults.contains_key(owner) implies t.user_vaults[
            owner
        ].no_duplicates() by {
            if owner == sender {
                let ids = ids_of(s, sender);
                assert forall|a: int, b: int| 0 <= a < ids.len() + 1 && 0 <= b < ids.len() + 1 && a != b implies
                    ids.push(id)[a] != ids.push(id)[b] by {
                    if a < ids.len() && b < ids.len() {
                    } else {
                        let c = if a < ids.len() { a } else { b };
                        assert(owns_vault(old_vaults, owner, s.user_vaults[owner][c]));
                        let k = choose|k: int|
                            0 <= k < old_vaults.len() && s.user_vaults[owner][c] == decimal((k + 1) as nat)
                                && #[trigger] old_vaults[k].vault_owner == owner;
                        if ids[c] == id {
                            lemma_decimal_injective((k + 1) as nat, (n + 1) as nat);
                        }
                    }
                }
            }
        }
    } else {
        let vault_id = check.vault_id->0;
        let k = first_vault(old_vaults, vault_id, 0)->0;
        lemma_first_vault(old_vaults, vault_id, 0);
        let nft = UserNftDataView { nft_id: token_id, user_address: sender };
        lemma_update_keeps_ids(old_vaults, k, old_vaults[k].vault_user_nft_data.push(nft));
        assert forall|owner: Seq<char>, j: int|
            t.user_vaults.contains_key(owner) && 0 <= j < t.user_vaults[owner].len() implies owns_vault(
                vaults,
                owner,
                #[trigger] t.user_vaults[owner][j],
            ) by {
            assert(owns_vault(old_vaults, owner, s.user_vaults[owner][j]));
            let m = choose|m: int|
                0 <= m < old_vaults.len() && s.user_vaults[owner][j] == decimal((m + 1) as nat)
                    && #[trigger] old_vaults[m].vault_owner == owner;
            assert(vaults[m].vault_owner == owner);
        }
    }
}

/// A received NFT keeps the invariant.
pub proof fn lemma_receive_nft_keeps_invariant(
    s: ContractStateView,
    contract_address: Seq<char>,
    nft_contract: Seq<char>,
    sender: Seq<char>,
    token_id: Seq<char>,
    check: CheckCreateVaultView,
)
    requires
        contract_invariant(s),
    ensures
        contract_invariant(receive_nft_step(s, contract_address, nft_contract, sender, token_id, check).0),
{
    let t = receive_nft_step(s, contract_address, nft_contract, sender, token_id, check).0;
    lemma_receive_nft_keeps_ids(s, contract_address, nft_contract, sender, token_id, check);
    lemma_receive_nft_keeps_owner_ids(s, contract_address, nft_contract, sender, token_id, check);
    let old_vaults = vaults_of(s);
    let vaults = vaults_of(t);
    assert(vaults.len() >= old_vaults.len()) by {
        if check.message != create_vault_text() && t != s {
            let vault_id = check.vault_id->0;
            lemma_first_vault(old_vaults, vault_id, 0);
        }
    }
    assert forall|key: Seq<char>| #[trigger] t.vault_vtoken.contains_key(key) implies is_vault_id(vaults, key) by {
        assert(is_vault_id(old_vaults, key));
        let k = choose|k: int| 0 <= k < old_vaults.len() && key == #[trigger] decimal((k + 1) as nat);
        assert(key == decimal((k + 1) as nat));
    }
}

/// A redemption keeps the invariant.
pub proof fn lemma_redemption_keeps_invariant(
    s: ContractStateView,
    token_contract: Seq<char>,
    sender: Seq<char>,
    amount: u128,
    transfer: NftDataTransferView,
)
    requires
        contract_invariant(s),
    ensures
        contract_invariant(receive_cw20_step(s, token_contract, sender, amount, transfer).0),
{
    let t = receive_cw20_step(s, token_contract, sender, amount, transfer).0;
    lemma_redemption_keeps_ids(s, token_contract, sender, amount, transfer);
    let old_vaults = vaults_of(s);
    let vaults = vaults_of(t);
    if t != s {
        lemma_first_vault(old_vaults, transfer.vault_id, 0);
        let k = first_vault(old_vaults, transfer.vault_id, 0)->0;
        let j = first_match(old_vaults[k].vault_user_nft_data, transfer.nft_id, 0)->0;
        lemma_update_keeps_ids(old_vaults, k, old_vaults[k].vault_user_nft_data.remove(j));
        assert forall|owner: Seq<char>, i: int|
            t.user_vaults.contains_key(owner) && 0 <= i < t.user_vaults[owner].len() implies owns_vault(
                vaults,
                owner,
                #[trigger] t.user_vaults[owner][i],
            ) by {
            assert(owns_vault(old_vaults, owner, s.user_vaults[owner][i]));
            let m = choose|m: int|
                0 <= m < old_vaults.len() && s.user_vaults[owner][i] == decimal((m + 1) as nat)
                    && #[trigger] old_vaults[m].vault_owner == owner;
            assert(vaults[m].vault_owner == owner);
        }
        assert forall|key: Seq<char>| #[trigger] t.vault_vtoken.contains_key(key) implies is_vault_id(vaults, key) by {
            assert(is_vault_id(old_vaults, key));
        }
    }
}

/// Registering a vault token keeps the invariant.
pub proof fn lemma_reply_keeps_invariant(s: ContractStateView, address: Option<Seq<char>>)
    requires
        contract_invariant(s),
    ensures
        contract_invariant(instantiate_reply_step(s, address).0),
{
    let t = instantiate_reply_step(s, address).0;
    let vaults = vaults_of(s);
    assert(vaults_of(t) == vaults);
    if address is Some && s.vault_list is Some && s.user_address is Some {
        let n = vaults.len();
        assert forall|key: Seq<char>| #[trigger] t.vault_vtoken.contains_key(key) implies is_vault_id(vaults, key) by {
            if key == decimal(n) {
                assert(key == decimal(((n - 1) + 1) as nat));
            } else {
                assert(s.vault_vtoken.contains_key(key));
            }
        }
    }
}

/// Instantiation keeps the invariant.
pub proof fn lemma_instantiate_keeps_invariant(s: ContractStateView, sender: Seq<char>, version: Seq<char>)
    requires
        contract_invariant(s),
    ensures
        contract_invariant(instantiate_step(s, sender, version).0),
{
    assert(vaults_of(instantiate_step(s, sender, version).0) == vaults_of(s));
}

/// While vault ids are positions, no two vaults share an id.
pub proof fn lemma_vault_ids_distinct(vaults: Seq<VaultView>, i: int, j: int)
    requires
        ids_are_positions(vaults),
        0 <= i < vaults.len(),
        0 <= j < vaults.len(),
        i != j,
    ensures
        vaults[i].vault_id != vaults[j].vault_id,
{
    if vaults[i].vault_id == vaults[j].vault_id {
        lemma_decimal_injective((i + 1) as nat, (j + 1) as nat);
    }
}

/// While vault ids are positions, the vault with the id `k + 1` is the one at position `k`.
pub proof fn lemma_first_vault_is_position(vaults: Seq<VaultView>, k: int)
    requires
        ids_are_positions(vaults),
        0 <= k < vaults.len(),
    ensures
        first_vault(vaults, decimal((k + 1) as nat), 0) == Some(k),
{
    lemma_first_vault(vaults, decimal((k + 1) as nat), 0);
    match first_vault(vaults, decimal((k + 1) as nat), 0) {
        Some(m) => {
            if m != k {
                lemma_vault_ids_distinct(vaults, m, k);
            }
        },
        None => {
            assert(vaults[k].vault_id == decimal((k + 1) as nat));
        },
    }
}

/// A refused NFT changes nothing.
pub proof fn lemma_refused_nft_changes_nothing(
    s: ContractStateView,
    contract_address: Seq<char>,
    nft_contract: Seq<char>,
    sender: Seq<char>,
    token_id: Seq<char>,
    check: CheckCreateVaultView,
)
    ensures
        receive_nft_step(s, contract_address, nft_contract, sender, token_id, check).1 is Err
            ==> receive_nft_step(s, contract_address, nft_contract, sender, token_id, check).0 == s,
{
}

/// A refused redemption changes nothing.
pub proof fn lemma_refused_redemption_changes_nothing(
    s: ContractStateView,
    token_contract: Seq<char>,
    sender: Seq<char>,
    amount: u128,
    transfer: NftDataTransferView,
)
    ensures
        receive_cw20_step(s, token_contract, sender, amount, transfer).1 is Err ==> receive_cw20_step(
            s,
            token_contract,
            sender,
            amount,
            transfer,
        ).0 == s,
{
}

/// A refused reply changes nothing.
pub proof fn lemma_refused_reply_changes_nothing(s: ContractStateView, address: Option<Seq<char>>)
    ensures
        instantiate_reply_step(s, address).1 is Err ==> instantiate_reply_step(s, address).0 == s,
{
}

/// A vault is created only on the notice of the NFT contract it is for, and
/// an NFT is deposited only on the notice of its vault's NFT contract.
pub proof fn lemma_only_the_nft_contract_is_heard(
    s: ContractStateView,
    contract_address: Seq<char>,
    nft_contract: Seq<char>,
    sender: Seq<char>,
    token_id: Seq<char>,
    check: CheckCreateVaultView,
)
    ensures
        ({
            let out = receive_nft_step(s, contract_address, nft_contract, sender, token_id, check);
            out.1 is Ok ==> if check.message == create_vault_text() {
                check.nft_asset_address == Some(nft_contract)
            } else {
                let vaults = vaults_of(s);
                let k = first_vault(vaults, check.vault_id->0, 0);
                k is Some && vaults[k->0].vault_nft_address == nft_contract
            }
        }),
{
}

/// A redemption is accepted only for one token of the vault's own vault token,
/// naming the vault's NFT contract and an NFT the vault holds.
pub proof fn lemma_only_one_vault_token_redeems(
    s: ContractStateView,
    token_contract: Seq<char>,
    sender: Seq<char>,
    amount: u128,
    transfer: NftDataTransferView,
)
    ensures
        receive_cw20_step(s, token_contract, sender, amount, transfer).1 is Ok ==> {
            let vaults = vaults_of(s);
            let k = first_vault(vaults, transfer.vault_id, 0)->0;
            &&& first_vault(vaults, transfer.vault_id, 0) is Some
            &&& s.vault_vtoken.contains_key(transfer.vault_id)
            &&& s.vault_vtoken[transfer.vault_id] == token_contract
            &&& amount == 1
            &&& vaults[k].vault_nft_address == transfer.nft_asset_address
            &&& exists|j: int|
                0 <= j < vaults[k].vault_user_nft_data.len() && (#[trigger] vaults[k].vault_user_nft_data[j]).nft_id
                    == transfer.nft_id
        },
{
    let vaults = vaults_of(s);
    if receive_cw20_step(s, token_contract, sender, amount, transfer).1 is Ok {
        lemma_first_vault(vaults, transfer.vault_id, 0);
        let k = first_vault(vaults, transfer.vault_id, 0)->0;
        lemma_first_match(vaults[k].vault_user_nft_data, transfer.nft_id, 0);
        let j = first_match(vaults[k].vault_user_nft_data, transfer.nft_id, 0)->0;
        assert(vaults[k].vault_user_nft_data[j].nft_id == transfer.nft_id);
    }
}

/// Every accepted redemption takes exactly one record of the NFT out of its
/// vault, the first of them, leaves every other vault as it was, burns the one
/// received vault token and transfers the NFT to the sender.
pub proof fn lemma_redemption_removes_one_record(
    s: ContractStateView,
    token_contract: Seq<char>,
    sender: Seq<char>,
    amount: u128,
    transfer: NftDataTransferView,
)
    ensures
        ({
            let out = receive_cw20_step(s, token_contract, sender, amount, transfer);
            out.1 is Ok ==> {
                let vaults = vaults_of(s);
                let after = vaults_of(out.0);
                let k = first_vault(vaults, transfer.vault_id, 0)->0;
                let nfts = vaults[k].vault_user_nft_data;
                let j = first_match(nfts, transfer.nft_id, 0)->0;
                &&& out.1 == Ok::<_, ContractErrorView>(
                    redeem_response(token_contract, 1, transfer.nft_asset_address, sender, transfer.nft_id),
                )
                &&& 0 <= j < nfts.len()
                &&& nfts[j].nft_id == transfer.nft_id
                &&& forall|m: int| 0 <= m < j ==> (#[trigger] nfts[m]).nft_id != transfer.nft_id
                &&& after.len() == vaults.len()
                &&& after[k].vault_user_nft_data == nfts.remove(j)
                &&& after[k].vault_user_nft_data.len() == nfts.len() - 1
                &&& forall|i: int| 0 <= i < vaults.len() && i != k ==> #[trigger] after[i] == vaults[i]
                &&& out.0 == ContractStateView { vault_list: Some(after), ..s }
            }
        }),
{
    let out = receive_cw20_step(s, token_contract, sender, amount, transfer);
    if out.1 is Ok {
        let vaults = vaults_of(s);
        lemma_first_vault(vaults, transfer.vault_id, 0);
        let k = first_vault(vaults, transfer.vault_id, 0)->0;
        lemma_first_match(vaults[k].vault_user_nft_data, transfer.nft_id, 0);
    }
}

/// In every reachable state, a deposit into a vault that has a vault token,
/// sent by the vault's NFT contract, is accepted: exactly that vault, the one
/// at position `k` for the id `k + 1`, gains one record of the NFT, every other
/// vault is unchanged, and exactly one vault token is minted to the sender.
pub proof fn lemma_deposit_records_one_nft(
    s: ContractStateView,
    sender: Seq<char>,
    token_id: Seq<char>,
    k: int,
)
    requires
        contract_invariant(s),
        0 <= k < vaults_of(s).len(),
        s.vault_vtoken.contains_key(decimal((k + 1) as nat)),
    ensures
        ({
            let vault_id = decimal((k + 1) as nat);
            let nft_contract = vaults_of(s)[k].vault_nft_address;
            let out = deposit_step(s, nft_contract, sender, token_id, vault_id);
            let nft = UserNftDataView { nft_id: token_id, user_address: sender };
            &&& out.1 == Ok::<_, ContractErrorView>(mint_response(s.vault_vtoken[vault_id], sender))
            &&& vaults_of(out.0).len() == vaults_of(s).len()
            &&& vaults_of(out.0)[k].vault_user_nft_data == vaults_of(s)[k].vault_user_nft_data.push(nft)
            &&& forall|i: int| 0 <= i < vaults_of(s).len() && i != k ==> #[trigger] vaults_of(out.0)[i] == vaults_of(s)[i]
        }),
{
    lemma_first_vault_is_position(vaults_of(s), k);
}

/// The link between NFTs and vault tokens: depositing an NFT that a vault does
/// not hold mints one vault token, and redeeming one vault token for that NFT
/// right after burns it, transfers the NFT, and restores the state exactly.
pub proof fn lemma_deposit_then_redeem_restores(
    s: ContractStateView,
    depositor: Seq<char>,
    redeemer: Seq<char>,
    nft_id: Seq<char>,
    k: int,
)
    requires
        contract_invariant(s),
        0 <= k < vaults_of(s).len(),
        s.vault_vtoken.contains_key(decimal((k + 1) as nat)),
        forall|m: int|
            0 <= m < vaults_of(s)[k].vault_user_nft_data.len() ==> (#[trigger] vaults_of(
                s,
            )[k].vault_user_nft_data[m]).nft_id != nft_id,
    ensures
        ({
            let vault_id = decimal((k + 1) as nat);
            let vtoken = s.vault_vtoken[vault_id];
            let nft_contract = vaults_of(s)[k].vault_nft_address;
            let deposited = deposit_step(s, nft_contract, depositor, nft_id, vault_id);
            let transfer = NftDataTransferView { vault_id, nft_asset_address: nft_contract, nft_id };
            let redeemed = receive_cw20_step(deposited.0, vtoken, redeemer, 1, transfer);
            &&& deposited.1 == Ok::<_, ContractErrorView>(mint_response(vtoken, depositor))
            &&& redeemed.1 == Ok::<_, ContractErrorView>(
                redeem_response(vtoken, 1, nft_contract, redeemer, nft_id),
            )
            &&& redeemed.0 == s
        }),
{
    let vaults = vaults_of(s);
    let vault_id = decimal((k + 1) as nat);
    let vtoken = s.vault_vtoken[vault_id];
    let nft_contract = vaults[k].vault_nft_address;
    lemma_first_vault_is_position(vaults, k);
    let deposited = deposit_step(s, nft_contract, depositor, nft_id, vault_id);
    let nft = UserNftDataView { nft_id, user_address: depositor };
    let nfts = vaults[k].vault_user_nft_data;
    let mid = vaults.update(k, with_nfts(vaults[k], nfts.push(nft)));
    assert(vaults_of(deposited.0) == mid);
    lemma_update_keeps_ids(vaults, k, nfts.push(nft));
    assert(ids_are_positions(mid));
    lemma_first_vault_is_position(mid, k);
    lemma_first_match(nfts.push(nft), nft_id, 0);
    assert(nfts.push(nft)[nfts.len() as int].nft_id == nft_id);
    assert forall|m: int| 0 <= m < nfts.len() implies (#[trigger] nfts.push(nft)[m]).nft_id != nft_id by {
        assert(nfts.push(nft)[m] == nfts[m]);
    }
    assert(first_match(nfts.push(nft), nft_id, 0) == Some(nfts.len() as int));
    assert(nfts.push(nft).remove(nfts.len() as int) =~= nfts);
    assert(mid.update(k, with_nfts(mid[k], nfts)) =~= vaults);
}

/// Creating a vault and then registering its vault token: the new vault is the
/// last of the list, with the id one past the former number of vaults, owned by
/// the sender and holding the sender's NFT; the id is the last of the sender's
/// ids; the vault token is registered under that id; and one vault token is
/// minted to the sender.
pub proof fn lemma_create_then_register(
    s: ContractStateView,
    contract_address: Seq<char>,
    nft_contract: Seq<char>,
    sender: Seq<char>,
    token_id: Seq<char>,
    check: CheckCreateVaultView,
    vtoken: Seq<char>,
)
    requires
        check.message == create_vault_text(),
        check.nft_asset_address == Some(nft_contract),
    ensures
        ({
            let created = receive_nft_step(s, contract_address, nft_contract, sender, token_id, check);
            let registered = instantiate_reply_step(created.0, Some(vtoken));
            let id = decimal(vaults_of(s).len() + 1);
            &&& created.1 is Ok
            &&& registered.1 == Ok::<_, ContractErrorView>(mint_response(vtoken, sender))
            &&& vault_array_answer(registered.0) == Ok::<_, ContractErrorView>(
                vaults_of(s).push(new_vault(id, sender, token_id, check)),
            )
            &&& vault_id_answer(registered.0, sender) == Ok::<_, ContractErrorView>(ids_of(s, sender).push(id))
            &&& vtoken_address_answer(registered.0, id) == Ok::<_, ContractErrorView>(vtoken)
        }),
{
}

/// In every reachable state, one token of a vault's own vault token, naming
/// the vault's NFT contract and an NFT that the vault holds at any position, is
/// accepted: the first record of that NFT leaves the vault, and nothing else
/// changes; the answer burns the token on the vault token and transfers the
/// NFT to the sender.
pub proof fn lemma_redemption_of_held_nft_accepted(
    s: ContractStateView,
    sender: Seq<char>,
    k: int,
    j: int,
)
    requires
        contract_invariant(s),
        0 <= k < vaults_of(s).len(),
        s.vault_vtoken.contains_key(decimal((k + 1) as nat)),
        0 <= j < vaults_of(s)[k].vault_user_nft_data.len(),
    ensures
        ({
            let vaults = vaults_of(s);
            let vault_id = decimal((k + 1) as nat);
            let vtoken = s.vault_vtoken[vault_id];
            let nfts = vaults[k].vault_user_nft_data;
            let nft_id = nfts[j].nft_id;
            let nft_contract = vaults[k].vault_nft_address;
            let transfer = NftDataTransferView { vault_id, nft_asset_address: nft_contract, nft_id };
            let out = receive_cw20_step(s, vtoken, sender, 1, transfer);
            let after = vaults_of(out.0);
            &&& out.0.vault_list is Some
            &&& after.len() == vaults.len()
            &&& forall|i: int| 0 <= i < vaults.len() && i != k ==> #[trigger] after[i] == vaults[i]
            &&& after[k].vault_id == vaults[k].vault_id
            &&& after[k].vault_owner == vaults[k].vault_owner
            &&& after[k].vault_name == vaults[k].vault_name
            &&& after[k].vault_symbol == vaults[k].vault_symbol
            &&& after[k].vault_nft_address == nft_contract
            &&& exists|m: int|
                0 <= m <= j && (#[trigger] nfts[m]).nft_id == nft_id && (forall|i: int|
                    0 <= i < m ==> (#[trigger] nfts[i]).nft_id != nft_id) && after[k].vault_user_nft_data
                    == nfts.remove(m)
            &&& out.0.vault_vtoken == s.vault_vtoken
            &&& out.0.user_vaults == s.user_vaults
            &&& out.0.user_address == s.user_address
            &&& match out.1 {
                Ok(r) => {
                    &&& r.attributes == seq![("method"@, "execute_nft_transfer"@)]
                    &&& r.messages.len() == 2
                    &&& r.messages[0].reply_on == ReplyOn::Never
                    &&& r.messages[0].msg == WasmMsgView::Execute {
                        contract_addr: vtoken,
                        msg: ExecuteCallView::Burn { amount: 1 },
                    }
                    &&& r.messages[1].id == 3
                    &&& r.messages[1].reply_on == ReplyOn::Error
                    &&& r.messages[1].msg == WasmMsgView::Execute {
                        contract_addr: nft_contract,
                        msg: ExecuteCallView::TransferNft { recipient: sender, token_id: nft_id },
                    }
                },
                Err(_) => false,
            }
        }),
{
    let vaults = vaults_of(s);
    let vault_id = decimal((k + 1) as nat);
    let nfts = vaults[k].vault_user_nft_data;
    let nft_id = nfts[j].nft_id;
    lemma_first_vault_is_position(vaults, k);
    lemma_first_match(nfts, nft_id, 0);
    let m = first_match(nfts, nft_id, 0)->0;
    assert(0 <= m <= j);
    lemma_update_keeps_ids(vaults, k, nfts.remove(m));
}

/// A deposit of an NFT touches exactly one vault: the vault named by the
/// message, whose NFT contract sent the NFT, gains the NFT's record at the end;
/// every other vault, and everything else the contract stores, is unchanged.
pub proof fn lemma_deposit_touches_only_named_vault(
    s: ContractStateView,
    contract_address: Seq<char>,
    nft_contract: Seq<char>,
    sender: Seq<char>,
    token_id: Seq<char>,
    check: CheckCreateVaultView,
)
    requires
        check.message != create_vault_text(),
    ensures
        ({
            let out = receive_nft_step(s, contract_address, nft_contract, sender, token_id, check);
            let vaults = vaults_of(s);
            let after = vaults_of(out.0);
            out.1 is Ok ==> {
                &&& s.vault_list is Some
                &&& out.0.vault_list is Some
                &&& after.len() == vaults.len()
                &&& exists|k: int|
                    0 <= k < vaults.len() && (#[trigger] vaults[k]).vault_id == check.vault_id->0
                        && vaults[k].vault_nft_address == nft_contract && after[k].vault_id == vaults[k].vault_id
                        && after[k].vault_owner == vaults[k].vault_owner && after[k].vault_name
                        == vaults[k].vault_name && after[k].vault_symbol == vaults[k].vault_symbol
                        && after[k].vault_nft_address == vaults[k].vault_nft_address
                        && after[k].vault_user_nft_data == vaults[k].vault_user_nft_data.push(
                        UserNftDataView { nft_id: token_id, user_address: sender },
                    ) && forall|i: int| 0 <= i < vaults.len() && i != k ==> #[trigger] after[i] == vaults[i]
                &&& out.0.vault_vtoken == s.vault_vtoken
                &&& out.0.user_vaults == s.user_vaults
                &&& out.0.user_address == s.user_address
                &&& out.0.owner == s.owner
            }
        }),
{
    let out = receive_nft_step(s, contract_address, nft_contract, sender, token_id, check);
    if out.1 is Ok {
        let vaults = vaults_of(s);
        let vault_id = check.vault_id->0;
        lemma_first_vault(vaults, vault_id, 0);
        let k = first_vault(vaults, vault_id, 0)->0;
        let after = vaults_of(out.0);
        assert(after[k].vault_user_nft_data == vaults[k].vault_user_nft_data.push(
            UserNftDataView { nft_id: token_id, user_address: sender },
        ));
        assert(vaults[k].vault_id == vault_id);
    }
}

/// In every reachable state, an NFT sent by a vault's NFT contract with a
/// message naming that vault, which has a vault token, is accepted, and one
/// token of the vault's vault token is minted to the sender.
pub proof fn lemma_deposit_accepted(
    s: ContractStateView,
    contract_address: Seq<char>,
    sender: Seq<char>,
    token_id: Seq<char>,
    check: CheckCreateVaultView,
    k: int,
)
    requires
        contract_invariant(s),
        0 <= k < vaults_of(s).len(),
        s.vault_vtoken.contains_key(decimal((k + 1) as nat)),
        check.message != create_vault_text(),
        check.vault_id == Some(decimal((k + 1) as nat)),
    ensures
        ({
            let nft_contract = vaults_of(s)[k].vault_nft_address;
            let out = receive_nft_step(s, contract_address, nft_contract, sender, token_id, check);
            match out.1 {
                Ok(r) => {
                    &&& r.attributes == seq![("method"@, "execute_mint"@)]
                    &&& r.messages.len() == 1
                    &&& r.messages[0].id == 2
                    &&& r.messages[0].reply_on == ReplyOn::Error
                    &&& r.messages[0].msg == WasmMsgView::Execute {
                        contract_addr: s.vault_vtoken[decimal((k + 1) as nat)],
                        msg: ExecuteCallView::Mint { recipient: sender, amount: 1 },
                    }
                },
                Err(_) => false,
            }
        }),
{
    lemma_first_vault_is_position(vaults_of(s), k);
}

/// Creating a vault from the notice of the NFT contract it names is accepted;
/// the vault token instantiated has the name and symbol of the message, the new
/// vault is the last of the list with that same name and symbol and the next id,
/// and the vaults before it are unchanged.
pub proof fn lemma_vault_token_named_as_vault(
    s: ContractStateView,
    contract_address: Seq<char>,
    nft_contract: Seq<char>,
    sender: Seq<char>,
    token_id: Seq<char>,
    check: CheckCreateVaultView,
)
    requires
        check.message == create_vault_text(),
        check.vault_name is Some,
        check.vault_symbol is Some,
        check.nft_asset_address == Some(nft_contract),
    ensures
        ({
            let out = receive_nft_step(s, contract_address, nft_contract, sender, token_id, check);
            let vaults = vaults_of(s);
            let after = vaults_of(out.0);
            &&& after.len() == vaults.len() + 1
            &&& forall|i: int| 0 <= i < vaults.len() ==> #[trigger] after[i] == vaults[i]
            &&& after.last().vault_id == decimal(vaults.len() + 1)
            &&& after.last().vault_name == check.vault_name->0
            &&& after.last().vault_symbol == check.vault_symbol->0
            &&& after.last().vault_owner == sender
            &&& after.last().vault_nft_address == nft_contract
            &&& after.last().vault_user_nft_data == seq![UserNftDataView { nft_id: token_id, user_address: sender }]
            &&& vault_array_answer(out.0) == Ok::<_, ContractErrorView>(after)
            &&& out.0.user_address == Some(sender)
            &&& out.0.vault_vtoken == s.vault_vtoken
            &&& match out.1 {
                Ok(r) => {
                    &&& r.attributes == seq![("method"@, "cw20_instantiate"@)]
                    &&& r.messages.len() == 1
                    &&& r.messages[0].id == 1
                    &&& r.messages[0].reply_on == ReplyOn::Success
                    &&& match r.messages[0].msg {
                        WasmMsgView::Instantiate { admin, code_id, msg, label } => {
                            &&& admin is None
                            &&& code_id == 846
                            &&& label == "vtoken_created"@
                            &&& msg.decimals == 18
                            &&& msg.initial_balances.len() == 0
                            &&& msg.marketing is None
                            &&& msg.name == check.vault_name->0
                            &&& msg.symbol == check.vault_symbol->0
                            &&& msg.name == after.last().vault_name
                            &&& msg.symbol == after.last().vault_symbol
                            &&& msg.mint == Some((contract_address, None::<u128>))
                        },
                        _ => false,
                    }
                },
                Err(_) => false,
            }
        }),
{
}

/// The GetVTokenAddress answer for an id is the vault token registered under
/// that id, and is refused for an id without one.
pub proof fn lemma_vtoken_answer_is_registered_token(s: ContractStateView, vault_id: Seq<char>)
    ensures
        s.vault_vtoken.contains_key(vault_id) ==> vtoken_address_answer(s, vault_id) == Ok::<
            _,
            ContractErrorView,
        >(s.vault_vtoken[vault_id]),
        !s.vault_vtoken.contains_key(vault_id) ==> vtoken_address_answer(s, vault_id) is Err,
{
}

/// Registering a vault token changes the GetVTokenAddress answer only for the
/// newest vault's id, which then answers the new token; every other id answers
/// as before.
pub proof fn lemma_registering_changes_only_newest_answer(
    s: ContractStateView,
    address: Seq<char>,
    vault_id: Seq<char>,
)
    ensures
        ({
            let out = instantiate_reply_step(s, Some(address));
            out.1 is Ok ==> {
                &&& vault_id == decimal(vaults_of(s).len()) ==> vtoken_address_answer(out.0, vault_id) == Ok::<
                    _,
                    ContractErrorView,
                >(address)
                &&& vault_id != decimal(vaults_of(s).len()) ==> vtoken_address_answer(out.0, vault_id)
                    == vtoken_address_answer(s, vault_id)
            }
        }),
{
}

/// The GetVaultId answer for an owner is the owner's whole list of ids, and is
/// refused for an owner without one.
pub proof fn lemma_vault_id_answer_is_whole_list(s: ContractStateView, owner: Seq<char>)
    ensures
        s.user_vaults.contains_key(owner) ==> vault_id_answer(s, owner) == Ok::<_, ContractErrorView>(
            s.user_vaults[owner],
        ),
        !s.user_vaults.contains_key(owner) ==> vault_id_answer(s, owner) is Err,
{
}

/// Creating a vault extends the creator's GetVaultId answer by the new id and
/// leaves every other owner's answer as it was.
pub proof fn lemma_create_changes_only_creators_ids(
    s: ContractStateView,
    contract_address: Seq<char>,
    nft_contract: Seq<char>,
    sender: Seq<char>,
    token_id: Seq<char>,
    check: CheckCreateVaultView,
    owner: Seq<char>,
)
    requires
        check.message == create_vault_text(),
    ensures
        ({
            let out = receive_nft_step(s, contract_address, nft_contract, sender, token_id, check);
            let before = match vault_id_answer(s, sender) {
                Ok(ids) => ids,
                Err(_) => Seq::empty(),
            };
            out.1 is Ok ==> {
                &&& vault_id_answer(out.0, sender) == Ok::<_, ContractErrorView>(
                    before.push(decimal(vaults_of(s).len() + 1)),
                )
                &&& owner != sender ==> vault_id_answer(out.0, owner) == vault_id_answer(s, owner)
            }
        }),
{
}

/// Deposits, redemptions and registrations of vault tokens leave every
/// GetVaultId answer as it was.
pub proof fn lemma_only_creation_changes_vault_ids(
    s: ContractStateView,
    nft_contract: Seq<char>,
    token_contract: Seq<char>,
    sender: Seq<char>,
    token_id: Seq<char>,
    vault_id: Seq<char>,
    amount: u128,
    transfer: NftDataTransferView,
    address: Option<Seq<char>>,
    owner: Seq<char>,
)
    ensures
        vault_id_answer(deposit_step(s, nft_contract, sender, token_id, vault_id).0, owner) == vault_id_answer(
            s,
            owner,
        ),
        vault_id_answer(receive_cw20_step(s, token_contract, sender, amount, transfer).0, owner)
            == vault_id_answer(s, owner),
        vault_id_answer(instantiate_reply_step(s, address).0, owner) == vault_id_answer(s, owner),
{
}

/// A refused NFT notice is refused for the first of these reasons, with its
/// error: a creation not from the NFT contract it names (`Unauthorized`); a
/// deposit into a vault without a vault token (`NftTransferFailed`), before any
/// vault exists (not found), into an id that no vault has (`VaultNotFound`), or
/// not from the vault's NFT contract (`Unauthorized`).
pub proof fn lemma_nft_refusal_reasons(
    s: ContractStateView,
    contract_address: Seq<char>,
    nft_contract: Seq<char>,
    sender: Seq<char>,
    token_id: Seq<char>,
    check: CheckCreateVaultView,
)
    ensures
        ({
            let out = receive_nft_step(s, contract_address, nft_contract, sender, token_id, check);
            let vaults = vaults_of(s);
            let id = check.vault_id->0;
            if check.message == create_vault_text() {
                (out.1 is Err <==> check.nft_asset_address != Some(nft_contract)) && (out.1 is Err ==> out.1
                    == Err::<ResponseView, _>(ContractErrorView::Unauthorized))
            } else if !s.vault_vtoken.contains_key(id) {
                out.1 == Err::<ResponseView, _>(ContractErrorView::NftTransferFailed)
            } else if s.vault_list is None {
                out.1 == Err::<ResponseView, _>(
                    ContractErrorView::Std(crate::error::StdErrorView::NotFound { kind: crate::model::vault_list_kind() }),
                )
            } else if forall|i: int| 0 <= i < vaults.len() ==> (#[trigger] vaults[i]).vault_id != id {
                out.1 == Err::<ResponseView, _>(ContractErrorView::VaultNotFound)
            } else {
                out.1 is Err <==> exists|i: int|
                    0 <= i < vaults.len() && (#[trigger] vaults[i]).vault_id == id && (forall|m: int|
                        0 <= m < i ==> (#[trigger] vaults[m]).vault_id != id) && vaults[i].vault_nft_address
                        != nft_contract
            }
        }),
{
    let vaults = vaults_of(s);
    let id = check.vault_id->0;
    lemma_first_vault(vaults, id, 0);
    if check.message != create_vault_text() && s.vault_vtoken.contains_key(id) && s.vault_list is Some {
        if let Some(k) = first_vault(vaults, id, 0) {
            assert(vaults[k].vault_id == id);
            assert forall|i: int|
                0 <= i < vaults.len() && (#[trigger] vaults[i]).vault_id == id && (forall|m: int|
                    0 <= m < i ==> (#[trigger] vaults[m]).vault_id != id) implies i == k by {
                if i < k {
                } else if i > k {
                    assert(vaults[k].vault_id == id);
                }
            }
        }
    }
}

/// A refused redemption is refused for the first of these reasons, with its
/// error: before any vault exists (not found); an id that no vault has
/// (`VaultNotFound`); tokens that are not the vault's vault token
/// (`Unauthorized`); an amount other than one, another NFT contract than the
/// vault's, or an NFT that the vault does not hold (`NftTransferFailed`).
pub proof fn lemma_redemption_refusal_reasons(
    s: ContractStateView,
    token_contract: Seq<char>,
    sender: Seq<char>,
    amount: u128,
    transfer: NftDataTransferView,
)
    ensures
        ({
            let out = receive_cw20_step(s, token_contract, sender, amount, transfer);
            let vaults = vaults_of(s);
            let id = transfer.vault_id;
            let k = first_vault(vaults, id, 0)->0;
            if s.vault_list is None {
                out.1 == Err::<ResponseView, _>(
                    ContractErrorView::Std(crate::error::StdErrorView::NotFound { kind: crate::model::vault_list_kind() }),
                )
            } else if forall|i: int| 0 <= i < vaults.len() ==> (#[trigger] vaults[i]).vault_id != id {
                out.1 == Err::<ResponseView, _>(ContractErrorView::VaultNotFound)
            } else if !s.vault_vtoken.contains_key(id) || s.vault_vtoken[id] != token_contract {
                out.1 == Err::<ResponseView, _>(ContractErrorView::Unauthorized)
            } else if amount != 1 || vaults[k].vault_nft_address != transfer.nft_asset_address
                || forall|j: int|
                0 <= j < vaults[k].vault_user_nft_data.len()
                    ==> (#[trigger] vaults[k].vault_user_nft_data[j]).nft_id != transfer.nft_id {
                out.1 == Err::<ResponseView, _>(ContractErrorView::NftTransferFailed)
            } else {
                out.1 is Ok
            }
        }),
{
    let vaults = vaults_of(s);
    lemma_first_vault(vaults, transfer.vault_id, 0);
    if let Some(k) = first_vault(vaults, transfer.vault_id, 0) {
        lemma_first_match(vaults[k].vault_user_nft_data, transfer.nft_id, 0);
        if let Some(j) = first_match(vaults[k].vault_user_nft_data, transfer.nft_id, 0) {
            assert(vaults[k].vault_user_nft_data[j].nft_id == transfer.nft_id);
        }
    } else if s.vault_list is Some {
        assert forall|i: int| 0 <= i < vaults.len() implies (#[trigger] vaults[i]).vault_id != transfer.vault_id by {}
    }
}

/// The reply of a vault token's instantiation: refused when the reply carries
/// no address (`VTokenInsError`), before any vault exists (`VaultNotExist`) or
/// without a remembered creator (`UserNotExist`); otherwise the token is
/// registered under the id of the newest vault, nothing else changes, and one
/// token of it is minted to the last vault creator.
pub proof fn lemma_register_vault_token(s: ContractStateView, address: Option<Seq<char>>)
    ensures
        ({
            let out = instantiate_reply_step(s, address);
            &&& address is None ==> out.1 == Err::<ResponseView, _>(ContractErrorView::VTokenInsError)
            &&& address is Some && s.vault_list is None ==> out.1 == Err::<ResponseView, _>(
                ContractErrorView::VaultNotExist,
            )
            &&& address is Some && s.vault_list is Some && s.user_address is None ==> out.1 == Err::<
                ResponseView,
                _,
            >(ContractErrorView::UserNotExist)
            &&& address is Some && s.vault_list is Some && s.user_address is Some ==> {
                &&& out.0.vault_vtoken == s.vault_vtoken.insert(decimal(vaults_of(s).len()), address->0)
                &&& out.0.vault_list == s.vault_list
                &&& out.0.user_vaults == s.user_vaults
                &&& out.0.user_address == s.user_address
                &&& out.0.owner == s.owner
                &&& match out.1 {
                    Ok(r) => {
                        &&& r.attributes == seq![("method"@, "execute_mint"@)]
                        &&& r.messages.len() == 1
                        &&& r.messages[0].id == 2
                        &&& r.messages[0].reply_on == ReplyOn::Error
                        &&& r.messages[0].msg == WasmMsgView::Execute {
                            contract_addr: address->0,
                            msg: ExecuteCallView::Mint { recipient: s.user_address->0, amount: 1 },
                        }
                    },
                    Err(_) => false,
                }
            }
        }),
{
}

/// The GetVaultArray answer is the whole stored list of vaults, refused before
/// any vault exists.
pub proof fn lemma_vault_array_answer_is_list(s: ContractStateView)
    ensures
        s.vault_list is Some ==> vault_array_answer(s) == Ok::<_, ContractErrorView>(vaults_of(s)),
        s.vault_list is None ==> vault_array_answer(s) is Err,
{
}

/// Instantiation records the sender as owner and the contract's name and
/// version, changes nothing else, and answers with the single attribute
/// `("method", "instantiate")`.
pub proof fn lemma_instantiate_records_owner(s: ContractStateView, sender: Seq<char>, version: Seq<char>)
    ensures
        ({
            let out = instantiate_step(s, sender, version);
            &&& out.0.owner == Some(sender)
            &&& out.0.contract_version == Some(("crates.io:cosmwasm-nftx"@, version))
            &&& out.0.vault_list == s.vault_list
            &&& out.0.user_vaults == s.user_vaults
            &&& out.0.vault_vtoken == s.vault_vtoken
            &&& out.0.user_address == s.user_address
            &&& out.1 == Ok::<_, ContractErrorView>(
                ResponseView { attributes: seq![("method"@, "instantiate"@)], messages: Seq::empty() },
            )
        }),
{
}

} // verus!
