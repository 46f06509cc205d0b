//! What the contract answers a message with: attributes that describe the
//! action, and sub-messages to other contracts.
use vstd::prelude::*;
use crate::msg::{Cw20Instantiate, Cw20InstantiateView};

verus! {

/// A key-value pair describing the action taken.
#[derive(Debug)]
pub struct Attribute {
    pub key: String,
    pub value: String,
}

impl View for Attribute {
    type V = (Seq<char>, Seq<char>);

    open spec fn view(&self) -> (Seq<char>, Seq<char>) {
        (self.key@, self.value@)
    }
}

/// When the chain reports the outcome of a sub-message back to the contract.
#[derive(Debug, Clone, Copy, PartialEq, Eq, Structural)]
pub enum ReplyOn {
    Always,
    Error,
    Success,
    Never,
}

/// The message executed on another contract. Both are encoded as JSON when sent.
#[derive(Debug)]
pub enum ExecuteCall {
    /// Mint `amount` vault tokens to `recipient` (a message of the fungible token standard).
    Mint { recipient: String, amount: u128 },
    /// Transfer the NFT `token_id` to `recipient` (a message of the NFT standard).
    TransferNft { recipient: String, token_id: String },
    /// Burn `amount` of the caller's tokens (a message of the fungible token standard).
    Burn { amount: u128 },
}

/// The model of an [`ExecuteCall`].
pub enum ExecuteCallView {
    Mint { recipient: Seq<char>, amount: u128 },
    TransferNft { recipient: Seq<char>, token_id: Seq<char> },
    Burn { amount: u128 },
}

impl View for ExecuteCall {
    type V = ExecuteCallView;

    open spec fn view(&self) -> ExecuteCallView {
        match self {
            ExecuteCall::Mint { recipient, amount } => ExecuteCallView::Mint {
                recipient: recipient@,
                amount: *amount,
            },
            ExecuteCall::TransferNft { recipient, token_id } => ExecuteCallView::TransferNft {
                recipient: recipient@,
                token_id: token_id@,
            },
            ExecuteCall::Burn { amount } => ExecuteCallView::Burn { amount: *amount },
        }
    }
}

/// A message to another contract. The contract attaches no funds to any.
#[derive(Debug)]
pub enum WasmMsg {
    /// Instantiate code `code_id` as a new vault token.
    Instantiate { admin: Option<String>, code_id: u64, msg: Cw20Instantiate, label: String },
    /// Execute `msg` on the contract at `contract_addr`.
    Execute { contract_addr: String, msg: ExecuteCall },
}

/// The model of a [`WasmMsg`].
pub enum WasmMsgView {
    Instantiate {
        admin: Option<Seq<char>>,
        code_id: u64,
        msg: Cw20InstantiateView,
        label: Seq<char>,
    },
    Execute { contract_addr: Seq<char>, msg: ExecuteCallView },
}

impl View for WasmMsg {
    type V = WasmMsgView;

    open spec fn view(&self) -> WasmMsgView {
        match self {
            WasmMsg::Instantiate { admin, code_id, msg, label } => WasmMsgView::Instantiate {
                admin: admin.deep_view(),
                code_id: *code_id,
                msg: msg@,
                label: label@,
            },
            WasmMsg::Execute { contract_addr, msg } => WasmMsgView::Execute {
                contract_addr: contract_addr@,
                msg: msg@,
            },
        }
    }
}

/// A message to another contract, with the id under which its outcome is reported back.
#[derive(Debug)]
pub struct SubMsg {
    pub id: u64,
    pub msg: WasmMsg,
    pub reply_on: ReplyOn,
}

/// The model of a [`SubMsg`].
pub struct SubMsgView {
    pub id: u64,
    pub msg: WasmMsgView,
    pub reply_on: ReplyOn,
}

impl View for SubMsg {
    type V = SubMsgView;

    open spec fn view(&self) -> SubMsgView {
        SubMsgView { id: self.id, msg: self.msg@, reply_on: self.reply_on }
    }
}

/// The answer to a message.
#[derive(Debug)]
pub struct Response {
    pub attributes: Vec<Attribute>,
    pub messages: Vec<SubMsg>,
}

/// The model of a [`Response`].
pub struct ResponseView {
    pub attributes: Seq<(Seq<char>, Seq<char>)>,
    pub messages: Seq<SubMsgView>,
}

impl View for Response {
    type V = ResponseView;

    open spec fn view(&self) -> ResponseView {
        ResponseView {
            attributes: self.attributes@.map_values(|a: Attribute| a@),
            messages: self.messages@.map_values(|m: SubMsg| m@),
        }
    }
}

/// The reported outcome of a sub-message: the data it returned, or its error.
#[derive(Debug)]
pub enum SubMsgResult {
    Success(SubMsgResponse),
    Failure(String),
}

/// What a sub-message that succeeded returned.
#[derive(Debug)]
pub struct SubMsgResponse {
    pub data: Option<Vec<u8>>,
}

/// The report of a sub-message's outcome, under the id the contract gave it.
#[derive(Debug)]
pub struct Reply {
    pub id: u64,
    pub result: SubMsgResult,
}

/// A response with one attribute `("method", method)` and one sub-message.
pub fn single_response(method: &str, sub: SubMsg) -> (r: Response)
    ensures
        r@ == (ResponseView { attributes: seq![("method"@, method@)], messages: seq![sub@] }),
{
    let mut attributes: Vec<Attribute> = Vec::new();
    attributes.push(Attribute { key: String::from_str("method"), value: String::from_str(method) });
    let mut messages: Vec<SubMsg> = Vec::new();
    messages.push(sub);
    let r = Response { attributes, messages };
    assert(r@.attributes =~= seq![("method"@, method@)]);
    assert(r@.messages =~= seq![sub@]);
    r
}

} // verus!
