//! The messages the contract accepts and the answers it gives.
use vstd::prelude::*;
use crate::numeral::{decimal, decimal_string};
use crate::state::{Vault, VaultView, vaults_view};

verus! {

/// The message that instantiates the contract; it carries nothing.
#[derive(Debug)]
pub struct InstantiateMsg {}

/// A balance that a token starts with.
#[derive(Debug)]
pub struct Cw20Coin {
    pub address: String,
    pub amount: u128,
}

/// Who may mint a token, and up to which supply.
#[derive(Debug)]
pub struct MinterResponse {
    pub minter: String,
    pub cap: Option<u128>,
}

/// An image embedded in a token's marketing information.
#[derive(Debug)]
pub enum EmbeddedLogo {
    Svg(Vec<u8>),
    Png(Vec<u8>),
}

/// A token's logo: a link or an embedded image.
#[derive(Debug)]
pub enum Logo {
    Url(String),
    Embedded(EmbeddedLogo),
}

/// Marketing information of a new token.
#[derive(Debug)]
pub struct InstantiateMarketingInfo {
    pub project: Option<String>,
    pub description: Option<String>,
    pub marketing: Option<String>,
    pub logo: Option<Logo>,
}

/// The message that instantiates a vault token.
#[derive(Debug)]
pub struct Cw20Instantiate {
    pub name: String,
    pub symbol: String,
    pub decimals: u8,
    pub initial_balances: Vec<Cw20Coin>,
    pub mint: Option<MinterResponse>,
    pub marketing: Option<InstantiateMarketingInfo>,
}

/// The model of a [`Logo`].
pub enum LogoView {
    Url(Seq<char>),
    Svg(Seq<u8>),
    Png(Seq<u8>),
}

/// The model of an [`InstantiateMarketingInfo`].
pub struct MarketingInfoView {
    pub project: Option<Seq<char>>,
    pub description: Option<Seq<char>>,
    pub marketing: Option<Seq<char>>,
    pub logo: Option<LogoView>,
}

/// The model of a [`Cw20Instantiate`]: balances as (address, amount) pairs and
/// the minter as (minter, cap).
pub struct Cw20InstantiateView {
    pub name: Seq<char>,
    pub symbol: Seq<char>,
    pub decimals: u8,
    pub initial_balances: Seq<(Seq<char>, u128)>,
    pub mint: Option<(Seq<char>, Option<u128>)>,
    pub marketing: Option<MarketingInfoView>,
}

impl View for Logo {
    type V = LogoView;

    open spec fn view(&self) -> LogoView {
        match self {
            Logo::Url(u) => LogoView::Url(u@),
            Logo::Embedded(EmbeddedLogo::Svg(b)) => LogoView::Svg(b@),
            Logo::Embedded(EmbeddedLogo::Png(b)) => LogoView::Png(b@),
        }
    }
}

impl View for InstantiateMarketingInfo {
    type V = MarketingInfoView;

    open spec fn view(&self) -> MarketingInfoView {
        MarketingInfoView {
            project: self.project.deep_view(),
            description: self.description.deep_view(),
            marketing: self.marketing.deep_view(),
            logo: match self.logo {
                Some(l) => Some(l@),
                None => None,
            },
        }
    }
}

impl View for Cw20Instantiate {
    type V = Cw20InstantiateView;

    open spec fn view(&self) -> Cw20InstantiateView {
        Cw20InstantiateView {
            name: self.name@,
            symbol: self.symbol@,
            decimals: self.decimals,
            initial_balances: self.initial_balances@.map_values(|c: Cw20Coin| (c.address@, c.amount)),
            mint: match self.mint {
                Some(m) => Some((m.minter@, m.cap)),
                None => None,
            },
            marketing: match self.marketing {
                Some(m) => Some(m@),
                None => None,
            },
        }
    }
}

/// An NFT sent to the contract: who sent it, which token, and the attached message.
#[derive(Debug)]
pub struct Cw721ReceiveMsg {
    pub sender: String,
    pub token_id: String,
    pub msg: Vec<u8>,
}

/// Fungible tokens sent to the contract: who sent them, how many, and the attached message.
#[derive(Debug)]
pub struct Cw20ReceiveMsg {
    pub sender: String,
    pub amount: u128,
    pub msg: Vec<u8>,
}

/// The messages that change the contract's state.
#[derive(Debug)]
pub enum ExecuteMsg {
    ReceiveNft(Cw721ReceiveMsg),
    Receive(Cw20ReceiveMsg),
}

/// The message attached to a received NFT: either "Create Vault" with the new
/// vault's name, symbol and NFT contract, or a deposit into the vault `vault_id`.
#[derive(Debug)]
pub struct CheckCreateVault {
    pub message: String,
    pub vault_id: Option<String>,
    pub vault_name: Option<String>,
    pub vault_symbol: Option<String>,
    pub nft_asset_address: Option<String>,
}

/// The model of a [`CheckCreateVault`].
pub struct CheckCreateVaultView {
    pub message: Seq<char>,
    pub vault_id: Option<Seq<char>>,
    pub vault_name: Option<Seq<char>>,
    pub vault_symbol: Option<Seq<char>>,
    pub nft_asset_address: Option<Seq<char>>,
}

impl View for CheckCreateVault {
    type V = CheckCreateVaultView;

    open spec fn view(&self) -> CheckCreateVaultView {
        CheckCreateVaultView {
            message: self.message@,
            vault_id: self.vault_id.deep_view(),
            vault_name: self.vault_name.deep_view(),
            vault_symbol: self.vault_symbol.deep_view(),
            nft_asset_address: self.nft_asset_address.deep_view(),
        }
    }
}

/// The message attached to vault tokens sent to the contract: the NFT to take
/// out of the vault `vault_id`, and its NFT contract.
#[derive(Debug)]
pub struct NftDataTransfer {
    pub vault_id: String,
    pub nft_asset_address: String,
    pub nft_id: String,
}

/// The model of an [`NftDataTransfer`].
pub struct NftDataTransferView {
    pub vault_id: Seq<char>,
    pub nft_asset_address: Seq<char>,
    pub nft_id: Seq<char>,
}

impl View for NftDataTransfer {
    type V = NftDataTransferView;

    open spec fn view(&self) -> NftDataTransferView {
        NftDataTransferView {
            vault_id: self.vault_id@,
            nft_asset_address: self.nft_asset_address@,
            nft_id: self.nft_id@,
        }
    }
}

/// The queries the contract answers.
#[derive(Debug)]
pub enum QueryMsg {
    GetVaultId { vault_owner: String },
    GetVaultArray {},
    GetVTokenAddress { vault_id: String },
}

/// The ids of the vaults created by one address.
#[derive(Debug)]
pub struct GetVaultIdResponse {
    pub vault_id_response: Vec<String>,
}

/// All vaults.
#[derive(Debug)]
pub struct GetVaultArrayResponse {
    pub vault_array: Vec<Vault>,
}

/// The vault token of one vault.
#[derive(Debug)]
pub struct GetVTokenAddressResponse {
    pub vtoken_address: String,
}

impl View for GetVaultArrayResponse {
    type V = Seq<VaultView>;

    open spec fn view(&self) -> Seq<VaultView> {
        vaults_view(self.vault_array@)
    }
}

/// The character of the base64 digit `v` (`0 <= v < 64`): `A`-`Z`, `a`-`z`, `0`-`9`, `+`, `/`.
pub open spec fn base64_char(v: int) -> char {
    if v < 26 {
        (65 + v) as char
    } else if v < 52 {
        (97 + v - 26) as char
    } else if v < 62 {
        (48 + v - 52) as char
    } else if v == 62 {
        '+'
    } else {
        '/'
    }
}

/// The standard base64 encoding of `bytes`, with padding: each group of three
/// bytes gives four digits of six bits each; a last group of one or two bytes
/// is filled with zero bits and the encoding padded with `=` to four characters.
pub open spec fn base64_text(bytes: Seq<u8>) -> Seq<char>
    decreases bytes.len(),
{
    if bytes.len() == 0 {
        Seq::empty()
    } else if bytes.len() == 1 {
        let a = bytes[0] as int;
        seq![base64_char(a / 4), base64_char((a % 4) * 16), '=', '=']
    } else if bytes.len() == 2 {
        let a = bytes[0] as int;
        let b = bytes[1] as int;
        seq![base64_char(a / 4), base64_char((a % 4) * 16 + b / 16), base64_char((b % 16) * 4), '=']
    } else {
        let a = bytes[0] as int;
        let b = bytes[1] as int;
        let c = bytes[2] as int;
        seq![
            base64_char(a / 4),
            base64_char((a % 4) * 16 + b / 16),
            base64_char((b % 16) * 4 + c / 64),
            base64_char(c % 64),
        ] + base64_text(bytes.subrange(3, bytes.len() as int))
    }
}

/// Calls cosmwasm-std's `Binary::to_base64`, which encodes with the standard
/// alphabet and padding. Trusted: the text is `base64_text` of the bytes.
#[verifier::external_body]
fn binary_to_base64(bytes: &Vec<u8>) -> (s: String)
    ensures
        s@ == base64_text(bytes@),
{
    cosmwasm_std::Binary::from(bytes.as_slice()).to_base64()
}

impl Cw721ReceiveMsg {
    /// The text `sender:{sender} token_id:{token_id} msg:{encoded_msg}`.
    pub fn display_with(&self, encoded_msg: &str) -> (s: String)
        ensures
            s@ == "sender:"@ + self.sender@ + " token_id:"@ + self.token_id@ + " msg:"@ + encoded_msg@,
    {
        let mut s = String::from_str("sender:");
        s.append(self.sender.as_str());
        s.append(" token_id:");
        s.append(self.token_id.as_str());
        s.append(" msg:");
        s.append(encoded_msg);
        s
    }

    /// The message as text, its attached message in base64.
    pub fn to_display_string(&self) -> (s: String)
        ensures
            s@ == "sender:"@ + self.sender@ + " token_id:"@ + self.token_id@ + " msg:"@ + base64_text(self.msg@),
    {
        let encoded = binary_to_base64(&self.msg);
        self.display_with(encoded.as_str())
    }
}

impl Cw20ReceiveMsg {
    /// The text `sender:{sender} amount:{amount} msg:{encoded_msg}`, the amount in decimal.
    pub fn display_with(&self, encoded_msg: &str) -> (s: String)
        ensures
            s@ == "sender:"@ + self.sender@ + " amount:"@ + decimal(self.amount as nat) + " msg:"@ + encoded_msg@,
    {
        let mut s = String::from_str("sender:");
        s.append(self.sender.as_str());
        s.append(" amount:");
        let amount = decimal_string(self.amount);
        s.append(amount.as_str());
        s.append(" msg:");
        s.append(encoded_msg);
        s
    }

    /// The message as text, its attached message in base64.
    pub fn to_display_string(&self) -> (s: String)
        ensures
            s@ == "sender:"@ + self.sender@ + " amount:"@ + decimal(self.amount as nat) + " msg:"@ + base64_text(
                self.msg@,
            ),
    {
        let encoded = binary_to_base64(&self.msg);
        self.display_with(encoded.as_str())
    }
}

} // verus!
