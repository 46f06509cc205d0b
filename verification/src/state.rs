//! What the contract keeps between messages.
use vstd::prelude::*;
use crate::str_map::StrMap;

verus! {

/// The contract's owner, set when the contract is instantiated.
#[derive(Debug)]
pub struct State {
    pub contract_owner: String,
}

/// The name and version that the contract records for migrations.
#[derive(Debug)]
pub struct ContractVersion {
    pub contract: String,
    pub version: String,
}

/// One NFT held by a vault, with the address that deposited it.
#[derive(Debug)]
pub struct UserNftData {
    pub nft_id: String,
    pub user_address: String,
}

/// The model of a [`UserNftData`].
pub struct UserNftDataView {
    pub nft_id: Seq<char>,
    pub user_address: Seq<char>,
}

impl View for UserNftData {
    type V = UserNftDataView;

    open spec fn view(&self) -> UserNftDataView {
        UserNftDataView { nft_id: self.nft_id@, user_address: self.user_address@ }
    }
}

impl Clone for UserNftData {
    fn clone(&self) -> (r: Self)
        ensures
            r@ == self@,
    {
        UserNftData { nft_id: self.nft_id.clone(), user_address: self.user_address.clone() }
    }
}

/// A vault: a collection of NFTs of one NFT contract, backed by a vault token.
#[derive(Debug)]
pub struct Vault {
    pub vault_id: String,
    pub vault_name: String,
    pub vault_symbol: String,
    pub vault_owner: String,
    pub vault_nft_address: String,
    pub vault_user_nft_data: Vec<UserNftData>,
}

/// The model of a [`Vault`].
pub struct VaultView {
    pub vault_id: Seq<char>,
    pub vault_name: Seq<char>,
    pub vault_symbol: Seq<char>,
    pub vault_owner: Seq<char>,
    pub vault_nft_address: Seq<char>,
    pub vault_user_nft_data: Seq<UserNftDataView>,
}

/// The models of a list of NFT records.
pub open spec fn nfts_view(nfts: Seq<UserNftData>) -> Seq<UserNftDataView> {
    nfts.map_values(|d: UserNftData| d@)
}

/// The models of a list of vaults.
pub open spec fn vaults_view(vaults: Seq<Vault>) -> Seq<VaultView> {
    vaults.map_values(|v: Vault| v@)
}

impl View for Vault {
    type V = VaultView;

    open spec fn view(&self) -> VaultView {
        VaultView {
            vault_id: self.vault_id@,
            vault_name: self.vault_name@,
            vault_symbol: self.vault_symbol@,
            vault_owner: self.vault_owner@,
            vault_nft_address: self.vault_nft_address@,
            vault_user_nft_data: nfts_view(self.vault_user_nft_data@),
        }
    }
}

/// A copy of a list of NFT records.
pub fn clone_nfts(nfts: &Vec<UserNftData>) -> (r: Vec<UserNftData>)
    ensures
        nfts_view(r@) == nfts_view(nfts@),
{
    let mut r: Vec<UserNftData> = Vec::new();
    let mut i: usize = 0;
    while i < nfts.len()
        invariant
            i <= nfts@.len(),
            r@.len() == i,
            nfts_view(r@) == nfts_view(nfts@.take(i as int)),
        decreases nfts@.len() - i,
    {
        let ghost prev = r@;
        r.push(nfts[i].clone());
        assert forall|k: int| 0 <= k < r@.len() implies #[trigger] r@[k]@ == nfts@[k]@ by {
            if k < i {
                assert(prev[k] == r@[k]);
                assert(nfts_view(prev)[k] == nfts_view(nfts@.take(i as int))[k]);
            }
        }
        assert(nfts_view(r@) =~= nfts_view(nfts@.take(i as int + 1)));
        i = i + 1;
    }
    assert(nfts@.take(i as int) =~= nfts@);
    r
}

impl Clone for Vault {
    fn clone(&self) -> (r: Self)
        ensures
            r@ == self@,
    {
        Vault {
            vault_id: self.vault_id.clone(),
            vault_name: self.vault_name.clone(),
            vault_symbol: self.vault_symbol.clone(),
            vault_owner: self.vault_owner.clone(),
            vault_nft_address: self.vault_nft_address.clone(),
            vault_user_nft_data: clone_nfts(&self.vault_user_nft_data),
        }
    }
}

/// A copy of a list of vaults.
pub fn clone_vaults(vaults: &Vec<Vault>) -> (r: Vec<Vault>)
    ensures
        vaults_view(r@) == vaults_view(vaults@),
{
    let mut r: Vec<Vault> = Vec::new();
    let mut i: usize = 0;
    while i < vaults.len()
        invariant
            i <= vaults@.len(),
            r@.len() == i,
            vaults_view(r@) == vaults_view(vaults@.take(i as int)),
        decreases vaults@.len() - i,
    {
        let ghost prev = r@;
        r.push(vaults[i].clone());
        assert forall|k: int| 0 <= k < r@.len() implies #[trigger] r@[k]@ == vaults@[k]@ by {
            if k < i {
                assert(prev[k] == r@[k]);
                assert(vaults_view(prev)[k] == vaults_view(vaults@.take(i as int))[k]);
            }
        }
        assert(vaults_view(r@) =~= vaults_view(vaults@.take(i as int + 1)));
        i = i + 1;
    }
    assert(vaults@.take(i as int) =~= vaults@);
    r
}

/// A copy of a list of strings.
pub fn clone_strings(v: &Vec<String>) -> (r: Vec<String>)
    ensures
        r.deep_view() == v.deep_view(),
{
    let mut r: Vec<String> = Vec::new();
    let mut i: usize = 0;
    while i < v.len()
        invariant
            i <= v@.len(),
            r@.len() == i,
            r.deep_view() == v.deep_view().take(i as int),
        decreases v@.len() - i,
    {
        let ghost prev = r.deep_view();
        r.push(v[i].clone());
        assert forall|k: int| 0 <= k < r@.len() implies #[trigger] r.deep_view()[k] == v.deep_view()[k] by {
            if k < i {
                assert(prev[k] == v.deep_view().take(i as int)[k]);
            }
        }
        assert(r.deep_view() =~= v.deep_view().take(i as int + 1));
        i = i + 1;
    }
    assert(v.deep_view().take(i as int) =~= v.deep_view());
    r
}

/// Everything the contract stores: the contract version, the owner, the vault
/// ids of each vault owner, the list of vaults, the vault token of each vault
/// id, and the address of the last vault creator.
pub struct ContractState {
    pub contract_version: Option<ContractVersion>,
    pub state: Option<State>,
    pub user_vaults: StrMap<Vec<String>>,
    pub vault_list: Option<Vec<Vault>>,
    pub vault_vtoken: StrMap<String>,
    pub user_address: Option<String>,
}

/// The model of a [`ContractState`].
pub struct ContractStateView {
    pub contract_version: Option<(Seq<char>, Seq<char>)>,
    pub owner: Option<Seq<char>>,
    pub user_vaults: Map<Seq<char>, Seq<Seq<char>>>,
    pub vault_list: Option<Seq<VaultView>>,
    pub vault_vtoken: Map<Seq<char>, Seq<char>>,
    pub user_address: Option<Seq<char>>,
}

impl View for ContractState {
    type V = ContractStateView;

    open spec fn view(&self) -> ContractStateView {
        ContractStateView {
            contract_version: match self.contract_version {
                Some(v) => Some((v.contract@, v.version@)),
                None => None,
            },
            owner: match self.state {
                Some(s) => Some(s.contract_owner@),
                None => None,
            },
            user_vaults: self.user_vaults@,
            vault_list: match self.vault_list {
                Some(v) => Some(vaults_view(v@)),
                None => None,
            },
            vault_vtoken: self.vault_vtoken@,
            user_address: match self.user_address {
                Some(a) => Some(a@),
                None => None,
            },
        }
    }
}

/// The model of a contract whose storage is empty.
pub open spec fn empty_state() -> ContractStateView {
    ContractStateView {
        contract_version: None,
        owner: None,
        user_vaults: Map::empty(),
        vault_list: None,
        vault_vtoken: Map::empty(),
        user_address: None,
    }
}

impl ContractState {
    /// A contract with nothing stored.
    pub fn new() -> (s: Self)
        ensures
            s@ == empty_state(),
    {
        ContractState {
            contract_version: None,
            state: None,
            user_vaults: StrMap::new(),
            vault_list: None,
            vault_vtoken: StrMap::new(),
            user_address: None,
        }
    }
}

} // verus!
