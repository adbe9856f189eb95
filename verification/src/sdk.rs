//! The parts of the development kit that decide anything: reading transactions, and handing out
//! the service provider.

use vstd::prelude::*;

use std::sync::Arc;

use crate::error::{SdkError, SdkErrorView};
use crate::ssp::graphql::ServiceProvider;
use crate::text::{decode_hex, hex_bytes, hex_fault, hex_round_trip, hex_text, is_hex};
use crate::transaction::{
    consensus_decoded, consensus_decoded_hex, decode_transaction, decode_transaction_hex,
    Transaction, TransactionView,
};

verus! {

/// A wallet: its connections `W`, and its service provider.
pub struct SparkWallet<W, C> {
    pub connections: W,
    pub service_provider: Arc<ServiceProvider<C>>,
}

impl<W, C> SparkWallet<W, C> {
    /// The service provider.
    pub fn service_provider(&self) -> (provider: Arc<ServiceProvider<C>>)
        ensures
            provider == self.service_provider,
    {
        self.service_provider.clone()
    }
}

/// The development kit on top of a wallet.
pub struct BreezSdk<W, C> {
    pub spark_wallet: Arc<SparkWallet<W, C>>,
}

/// A confirmed output of a single-use address, to claim with the wallet's signer.
#[derive(Debug, PartialEq, Eq)]
pub struct DepositToClaim {
    pub transaction: Transaction,
    pub output_index: u32,
}

/// A funding transaction and its output, for which the wallet fetches a quote.
#[derive(Debug, PartialEq, Eq)]
pub struct QuoteToFetch {
    pub transaction: Transaction,
    pub output_index: Option<u32>,
}

/// A funding transaction, with the quote and the plan under which the wallet claims it.
pub struct QuotedClaim<Q, P> {
    pub transaction: Transaction,
    pub quote: Q,
    pub plan: P,
}

/// The transaction that a hexadecimal text stands for: its bytes, decoded.
pub open spec fn read_transaction(text: Seq<char>) -> Result<TransactionView, SdkErrorView> {
    if !is_hex(text) {
        Err(SdkErrorView::Generic(hex_fault(text)))
    } else {
        match consensus_decoded(hex_bytes(text)) {
            Ok(transaction) => Ok(transaction),
            Err(message) => Err(SdkErrorView::Generic(message)),
        }
    }
}

/// The transaction that a hexadecimal text stands for, read in one go.
pub open spec fn read_funding_transaction(text: Seq<char>) -> Result<
    TransactionView,
    SdkErrorView,
> {
    match consensus_decoded_hex(text) {
        Ok(transaction) => Ok(transaction),
        Err(message) => Err(SdkErrorView::Generic(message)),
    }
}

fn funding_transaction(text: &str) -> (result: Result<Transaction, SdkError>)
    ensures
        crate::model::view_result(result) == read_funding_transaction(text@),
        match result {
            Ok(transaction) => consensus_decoded_hex(text@) == Ok::<TransactionView, Seq<char>>(
                transaction@,
            ),
            Err(SdkError::Generic(message)) => consensus_decoded_hex(text@) == Err::<
                TransactionView,
                Seq<char>,
            >(message@),
        },
{
    match decode_transaction_hex(text) {
        Ok(transaction) => Ok(transaction),
        Err(message) => Err(SdkError::Generic(message)),
    }
}

impl<W, C> BreezSdk<W, C> {
    /// Reads the transaction of a confirmed single-use output, which the wallet then claims.
    pub fn claim_single_use_deposit(&self, transaction_hex: &str, output_index: u32) -> (result:
        Result<DepositToClaim, SdkError>)
        ensures
            match result {
                Ok(claim) => {
                    &&& read_transaction(transaction_hex@) == Ok::<TransactionView, SdkErrorView>(
                        claim.transaction@,
                    )
                    &&& claim.output_index == output_index
                },
                Err(error) => read_transaction(transaction_hex@) == Err::<
                    TransactionView,
                    SdkErrorView,
                >(error@),
            },
            result is Ok <==> is_hex(transaction_hex@) && consensus_decoded(
                hex_bytes(transaction_hex@),
            ) is Ok,
            result matches Ok(claim) ==> claim.output_index == output_index && consensus_decoded(
                hex_bytes(transaction_hex@),
            ) == Ok::<TransactionView, Seq<char>>(claim.transaction@),
    {
        let bytes = match decode_hex(transaction_hex) {
            Ok(bytes) => bytes,
            Err(fault) => return Err(SdkError::Generic(fault)),
        };
        match decode_transaction(bytes.as_slice()) {
            Ok(transaction) => Ok(DepositToClaim { transaction, output_index }),
            Err(message) => Err(SdkError::Generic(message)),
        }
    }

    /// The wallet's service provider.
    pub fn service_provider(&self) -> (provider: Arc<ServiceProvider<C>>)
        ensures
            provider == self.spark_wallet.service_provider,
    {
        self.spark_wallet.service_provider()
    }

    /// Reads a funding transaction, for which the wallet then fetches a quote.
    pub fn get_instant_deposit_quote(&self, transaction_hex: &str, output_index: u32) -> (result:
        Result<QuoteToFetch, SdkError>)
        ensures
            match result {
                Ok(fetch) => {
                    &&& read_funding_transaction(transaction_hex@) == Ok::<
                        TransactionView,
                        SdkErrorView,
                    >(fetch.transaction@)
                    &&& fetch.output_index == Some(output_index)
                },
                Err(error) => read_funding_transaction(transaction_hex@) == Err::<
                    TransactionView,
                    SdkErrorView,
                >(error@),
            },
            result is Ok <==> consensus_decoded_hex(transaction_hex@) is Ok,
            result matches Ok(fetch) ==> consensus_decoded_hex(transaction_hex@) == Ok::<
                TransactionView,
                Seq<char>,
            >(fetch.transaction@),
    {
        match funding_transaction(transaction_hex) {
            Ok(transaction) => Ok(QuoteToFetch { transaction, output_index: Some(output_index) }),
            Err(error) => Err(error),
        }
    }

    /// Reads a funding transaction, which the wallet then claims under the quote and the plan.
    pub fn claim_instant_deposit<Q, P>(
        &self,
        transaction_hex: &str,
        quote: Q,
        plan: P,
    ) -> (result: Result<QuotedClaim<Q, P>, SdkError>)
        ensures
            match result {
                Ok(claim) => {
                    &&& read_funding_transaction(transaction_hex@) == Ok::<
                        TransactionView,
                        SdkErrorView,
                    >(claim.transaction@)
                    &&& claim.quote == quote
                    &&& claim.plan == plan
                },
                Err(error) => read_funding_transaction(transaction_hex@) == Err::<
                    TransactionView,
                    SdkErrorView,
                >(error@),
            },
            result is Ok <==> consensus_decoded_hex(transaction_hex@) is Ok,
            result matches Ok(claim) ==> consensus_decoded_hex(transaction_hex@) == Ok::<
                TransactionView,
                Seq<char>,
            >(claim.transaction@),
    {
        match funding_transaction(transaction_hex) {
            Ok(transaction) => Ok(QuotedClaim { transaction, quote, plan }),
            Err(error) => Err(error),
        }
    }
}

/// A transaction that was written out in hexadecimal reads back as what the written bytes encode,
/// and nothing but hexadecimal text is read.
pub proof fn written_transactions_read_back(text: Seq<char>, bytes: Seq<u8>)
    ensures
        hex_text(bytes) == text ==> (read_transaction(text) is Ok <==> consensus_decoded(
            bytes,
        ) is Ok),
        hex_text(bytes) == text ==> (consensus_decoded(bytes) matches Ok(transaction)
            ==> read_transaction(text) == Ok::<TransactionView, SdkErrorView>(transaction)),
        !is_hex(text) ==> read_transaction(text) is Err,
{
    hex_round_trip(bytes);
}

} // verus!
