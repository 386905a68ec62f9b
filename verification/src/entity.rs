//! Transactions as the endpoints read and return them.

use vstd::prelude::*;
use crate::kind::TransactionKind;

verus! {

/// A wrapper transaction: the transaction of a block that carries inner
/// transactions.
#[derive(Clone, Debug)]
pub struct WrapperTransaction {
    pub id: String,
    pub block_height: i32,
}

/// What a wrapper transaction holds.
pub struct WrapperTransactionView {
    pub id: Seq<char>,
    pub block_height: i32,
}

impl View for WrapperTransaction {
    type V = WrapperTransactionView;

    open spec fn view(&self) -> WrapperTransactionView {
        WrapperTransactionView { id: self.id@, block_height: self.block_height }
    }
}

/// An inner transaction of a wrapper; `data` holds its JSON payload.
#[derive(Clone, Debug)]
pub struct InnerTransaction {
    pub id: String,
    pub wrapper_id: String,
    pub kind: TransactionKind,
    pub data: Option<String>,
}

/// What an inner transaction holds.
pub struct InnerTransactionView {
    pub id: Seq<char>,
    pub wrapper_id: Seq<char>,
    pub kind: TransactionKind,
    pub data: Option<Seq<char>>,
}

impl View for InnerTransaction {
    type V = InnerTransactionView;

    open spec fn view(&self) -> InnerTransactionView {
        InnerTransactionView {
            id: self.id@,
            wrapper_id: self.wrapper_id@,
            kind: self.kind,
            data: match self.data {
                Some(d) => Some(d@),
                None => None,
            },
        }
    }
}

/// A wrapper transaction with the inner transactions that a response lists.
#[derive(Clone, Debug)]
pub struct WrapperTransactionResponse {
    pub wrapper: WrapperTransaction,
    pub inner_transactions: Vec<InnerTransaction>,
}

/// The views of a sequence of inner transactions.
pub open spec fn inner_views(v: Seq<InnerTransaction>) -> Seq<InnerTransactionView> {
    v.map_values(|t: InnerTransaction| t@)
}

impl View for WrapperTransactionResponse {
    type V = (WrapperTransactionView, Seq<InnerTransactionView>);

    open spec fn view(&self) -> (WrapperTransactionView, Seq<InnerTransactionView>) {
        (self.wrapper@, inner_views(self.inner_transactions@))
    }
}

impl WrapperTransactionResponse {
    /// The response of a wrapper transaction and its inner transactions.
    pub fn new(wrapper: WrapperTransaction, inner_transactions: Vec<InnerTransaction>) -> (response:
        Self)
        ensures
            response@ == (wrapper@, inner_views(inner_transactions@)),
    {
        WrapperTransactionResponse { wrapper, inner_transactions }
    }
}

/// The views of a sequence of responses.
pub open spec fn response_views(v: Seq<WrapperTransactionResponse>) -> Seq<
    (WrapperTransactionView, Seq<InnerTransactionView>),
> {
    v.map_values(|r: WrapperTransactionResponse| r@)
}

/// Why a transaction lookup failed.
#[derive(Debug)]
pub enum TransactionError {
    /// No wrapper transaction has this id.
    TxIdNotFound(String),
    /// The id is not a transaction hash.
    InvalidTxId,
    /// The database could not answer.
    Database(String),
}

} // verus!
