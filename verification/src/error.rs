//! The errors the contract answers with.
use vstd::prelude::*;
use crate::msg::{CheckCreateVault, CheckCreateVaultView};

verus! {

/// Errors of the chain's standard library that the contract passes on.
#[derive(Debug)]
pub enum StdError {
    /// A stored item was read that is not there; `kind` names its type.
    NotFound { kind: String },
    /// A message could not be decoded into `target_type`.
    ParseErr { target_type: String, msg: String },
    /// A value of `source_type` could not be encoded.
    SerializeErr { source_type: String, msg: String },
    /// Any other failure.
    GenericErr { msg: String },
}

/// The contract's errors.
#[derive(Debug)]
pub enum ContractError {
    Std(StdError),
    Unauthorized {},
    UserVaultNotFound {},
    VaultNotFound {},
    NftTransferFailed {},
    VaultNotExist {},
    UserNotExist {},
    VTokenInstantiate { id: u64 },
    VTokenInsError {},
    MessageError { message: CheckCreateVault },
    MessageError2 { message: CheckCreateVault },
}

/// The model of a [`StdError`].
pub enum StdErrorView {
    NotFound { kind: Seq<char> },
    ParseErr { target_type: Seq<char>, msg: Seq<char> },
    SerializeErr { source_type: Seq<char>, msg: Seq<char> },
    GenericErr { msg: Seq<char> },
}

impl View for StdError {
    type V = StdErrorView;

    open spec fn view(&self) -> StdErrorView {
        match self {
            StdError::NotFound { kind } => StdErrorView::NotFound { kind: kind@ },
            StdError::ParseErr { target_type, msg } => StdErrorView::ParseErr {
                target_type: target_type@,
                msg: msg@,
            },
            StdError::SerializeErr { source_type, msg } => StdErrorView::SerializeErr {
                source_type: source_type@,
                msg: msg@,
            },
            StdError::GenericErr { msg } => StdErrorView::GenericErr { msg: msg@ },
        }
    }
}

/// The model of a [`ContractError`].
pub enum ContractErrorView {
    Std(StdErrorView),
    Unauthorized,
    UserVaultNotFound,
    VaultNotFound,
    NftTransferFailed,
    VaultNotExist,
    UserNotExist,
    VTokenInstantiate { id: u64 },
    VTokenInsError,
    MessageError { message: CheckCreateVaultView },
    MessageError2 { message: CheckCreateVaultView },
}

impl View for ContractError {
    type V = ContractErrorView;

    open spec fn view(&self) -> ContractErrorView {
        match self {
            ContractError::Std(e) => ContractErrorView::Std(e@),
            ContractError::Unauthorized {  } => ContractErrorView::Unauthorized,
            ContractError::UserVaultNotFound {  } => ContractErrorView::UserVaultNotFound,
            ContractError::VaultNotFound {  } => ContractErrorView::VaultNotFound,
            ContractError::NftTransferFailed {  } => ContractErrorView::NftTransferFailed,
            ContractError::VaultNotExist {  } => ContractErrorView::VaultNotExist,
            ContractError::UserNotExist {  } => ContractErrorView::UserNotExist,
            ContractError::VTokenInstantiate { id } => ContractErrorView::VTokenInstantiate { id: *id },
            ContractError::VTokenInsError {  } => ContractErrorView::VTokenInsError,
            ContractError::MessageError { message } => ContractErrorView::MessageError {
                message: message@,
            },
            ContractError::MessageError2 { message } => ContractErrorView::MessageError2 {
                message: message@,
            },
        }
    }
}

} // verus!
