//! Instant static deposits.

use vstd::prelude::*;

use crate::error::{ServiceProviderError, ServiceProviderErrorView};
use crate::model::views;
use crate::ssp::graphql::{
    lemma_mentions, mentions, number_variable, text_variable, GraphQuery, GraphQueryView,
    ServiceProvider, Variable, VariableView,
};
use crate::tagged::{TaggedField, TaggedFieldView, TaggedInput};
use crate::text::{
    decode_hex, encode_hex, hex_bytes, hex_fault, hex_text, is_hex, lowercase, lowercase_of,
};

verus! {

/// The operation that asks for a quote.
pub const QUOTE_OPERATION: &'static str = "CreateInstantStaticDepositQuote";

/// The document that asks for a quote.
pub const QUOTE_DOCUMENT: &'static str = r#"
mutation CreateInstantStaticDepositQuote($transaction_id:String!,$output_index:Int!,$network:BitcoinNetwork!) {
 create_instant_static_deposit_quote(input:{transaction_id:$transaction_id,output_index:$output_index,network:$network}) {
  quote { id network transaction_id output_index quote_signature deposit_amount { ...Amount } credit_amount { ...Amount } }
  fulfillment_plans { id amount { ...Amount } confirmations status transfer_spark_id }
 }
}
fragment Amount on CurrencyAmount { original_value original_unit preferred_currency_unit preferred_currency_value_rounded }
"#;

/// The operation that claims a deposit.
pub const CLAIM_OPERATION: &'static str = "ClaimInstantStaticDeposit";

/// The document that claims a deposit.
pub const CLAIM_DOCUMENT: &'static str = r#"
mutation ClaimInstantStaticDeposit($static_deposit_quote_id:ID!,$static_deposit_address_private_key_share:String!,$signature:String!) {
 create_claim_instant_static_deposit(input:{static_deposit_quote_id:$static_deposit_quote_id,static_deposit_address_private_key_share:$static_deposit_address_private_key_share,signature:$signature}) { claim_id }
}"#;

/// An amount of money, as far as the wallet's decisions look into it: its value in satoshis, or
/// why it has none.
#[derive(Debug, PartialEq, Eq)]
pub struct CurrencyAmount {
    pub sats: Result<u64, ServiceProviderError>,
}

/// The view of a `CurrencyAmount`.
pub open spec fn sats_view(sats: Result<u64, ServiceProviderError>) -> Result<
    u64,
    ServiceProviderErrorView,
> {
    match sats {
        Ok(value) => Ok(value),
        Err(error) => Err(error@),
    }
}

impl View for CurrencyAmount {
    type V = Result<u64, ServiceProviderErrorView>;

    open spec fn view(&self) -> Result<u64, ServiceProviderErrorView> {
        sats_view(self.sats)
    }
}

impl Clone for CurrencyAmount {
    fn clone(&self) -> (copy: Self)
        ensures
            copy@ == self@,
    {
        CurrencyAmount { sats: self.as_sats() }
    }
}

impl CurrencyAmount {
    /// The value in satoshis.
    pub fn as_sats(&self) -> (sats: Result<u64, ServiceProviderError>)
        ensures
            sats_view(sats) == self@,
            sats is Ok <==> self.sats is Ok,
            sats matches Ok(value) ==> self.sats == Ok::<u64, ServiceProviderError>(value),
    {
        match &self.sats {
            Ok(value) => Ok(*value),
            Err(error) => Err(error.clone()),
        }
    }
}

/// A quote for crediting a deposit before it is confirmed.
#[derive(Debug, Clone, PartialEq)]
pub struct InstantDepositQuote {
    pub id: String,
    pub network: String,
    pub transaction_id: String,
    pub output_index: u32,
    pub deposit_amount: CurrencyAmount,
    pub credit_amount: CurrencyAmount,
    pub quote_signature: String,
}

/// A way in which a quote is fulfilled.
#[derive(Debug, Clone, PartialEq)]
pub struct InstantDepositPlan {
    pub id: String,
    pub amount: CurrencyAmount,
    pub confirmations: u32,
    pub status: String,
    pub transfer_spark_id: Option<String>,
}

/// A quote, and the ways in which it is fulfilled.
#[derive(Debug, Clone, PartialEq)]
pub struct InstantDepositQuoteResponse {
    pub quote: InstantDepositQuote,
    pub fulfillment_plans: Vec<InstantDepositPlan>,
}

/// The claim of a deposit.
#[derive(Debug, Clone, PartialEq)]
pub struct InstantDepositClaimResponse {
    pub claim_id: String,
}

impl<C> ServiceProvider<C> {
    /// The question for a quote. The reply holds it under `create_instant_static_deposit_quote`.
    pub fn get_instant_deposit_quote(
        &self,
        transaction_id: &str,
        output_index: u32,
        network: &str,
    ) -> (query: GraphQuery)
        ensures
            query@ == (GraphQueryView {
                operation_name: QUOTE_OPERATION@,
                query: QUOTE_DOCUMENT@,
                variables: seq![
                    ("transaction_id"@, VariableView::Text(transaction_id@)),
                    ("output_index"@, VariableView::Number(output_index as nat)),
                    ("network"@, VariableView::Text(network@)),
                ],
            }),
            query.operation_name@ == "CreateInstantStaticDepositQuote"@,
            query.variables@.len() == 3,
            query.variables@[0].name@ == "transaction_id"@,
            query.variables@[0].value matches Variable::Text(text) && text@ == transaction_id@,
            query.variables@[1].name@ == "output_index"@,
            query.variables@[1].value == Variable::Number(output_index as u64),
            query.variables@[2].name@ == "network"@,
            query.variables@[2].value matches Variable::Text(text) && text@ == network@,
    {
        let ghost expected = seq![
            ("transaction_id"@, VariableView::Text(transaction_id@)),
            ("output_index"@, VariableView::Number(output_index as nat)),
            ("network"@, VariableView::Text(network@)),
        ];
        let variables = vec![
            text_variable("transaction_id", transaction_id),
            number_variable("output_index", output_index as u64),
            text_variable("network", network),
        ];
        assert(views(variables@) =~= expected);
        GraphQuery {
            operation_name: QUOTE_OPERATION.to_string(),
            query: QUOTE_DOCUMENT.to_string(),
            variables,
        }
    }

    /// The question that claims a deposit, with the key share and the signature in hexadecimal.
    /// The reply holds the claim under `create_claim_instant_static_deposit`.
    pub fn claim_instant_deposit(&self, quote_id: &str, key: &[u8], signature: &[u8]) -> (query:
        GraphQuery)
        ensures
            query@ == (GraphQueryView {
                operation_name: CLAIM_OPERATION@,
                query: CLAIM_DOCUMENT@,
                variables: seq![
                    ("static_deposit_quote_id"@, VariableView::Text(quote_id@)),
                    (
                        "static_deposit_address_private_key_share"@,
                        VariableView::Text(hex_text(key@)),
                    ),
                    ("signature"@, VariableView::Text(hex_text(signature@))),
                ],
            }),
            query.operation_name@ == "ClaimInstantStaticDeposit"@,
            query.variables@.len() == 3,
            query.variables@[0].name@ == "static_deposit_quote_id"@,
            query.variables@[0].value matches Variable::Text(text) && text@ == quote_id@,
            query.variables@[1].name@ == "static_deposit_address_private_key_share"@,
            query.variables@[1].value matches Variable::Text(text) && text@ == hex_text(key@),
            query.variables@[2].name@ == "signature"@,
            query.variables@[2].value matches Variable::Text(text) && text@ == hex_text(signature@),
    {
        let ghost expected = seq![
            ("static_deposit_quote_id"@, VariableView::Text(quote_id@)),
            ("static_deposit_address_private_key_share"@, VariableView::Text(hex_text(key@))),
            ("signature"@, VariableView::Text(hex_text(signature@))),
        ];
        let key_text = encode_hex(key);
        let signature_text = encode_hex(signature);
        let variables = vec![
            text_variable("static_deposit_quote_id", quote_id),
            text_variable("static_deposit_address_private_key_share", key_text.as_str()),
            text_variable("signature", signature_text.as_str()),
        ];
        assert(views(variables@) =~= expected);
        GraphQuery {
            operation_name: CLAIM_OPERATION.to_string(),
            query: CLAIM_DOCUMENT.to_string(),
            variables,
        }
    }
}

/// What the wallet signs to claim a quoted deposit at an address: the network in lower case, the
/// kind of the claim, the credit, its maximal fee, the address, the deposit and the quote's
/// signature.
pub open spec fn statement_fields(
    quote: InstantDepositQuote,
    address: Seq<char>,
) -> Result<Seq<TaggedFieldView>, ServiceProviderErrorView> {
    let signature = quote.quote_signature@;
    if !is_hex(signature) {
        Err(ServiceProviderErrorView::ParseError(hex_fault(signature)))
    } else {
        match (quote.credit_amount@, quote.deposit_amount@) {
            (Err(error), _) => Err(error),
            (Ok(_), Err(error)) => Err(error),
            (Ok(credit), Ok(deposit)) => Ok(
                seq![
                    TaggedFieldView::Text(lowercase_of(quote.network@)),
                    TaggedFieldView::U64(3),
                    TaggedFieldView::U64(credit),
                    TaggedFieldView::U64(0),
                    TaggedFieldView::Text(address),
                    TaggedFieldView::U64(deposit),
                    TaggedFieldView::Bytes(hex_bytes(signature)),
                ],
            ),
        }
    }
}

impl InstantDepositQuote {
    /// What goes into the message that the wallet signs to claim the quoted deposit.
    pub fn user_statement(&self, address: &str) -> (result: Result<
        TaggedInput,
        ServiceProviderError,
    >)
        ensures
            match result {
                Ok(input) => {
                    &&& input@.tags == seq!["spark"@, "claim_instant_static_deposit"@]
                    &&& statement_fields(*self, address@) == Ok::<
                        Seq<TaggedFieldView>,
                        ServiceProviderErrorView,
                    >(input@.fields)
                },
                Err(error) => statement_fields(*self, address@) == Err::<
                    Seq<TaggedFieldView>,
                    ServiceProviderErrorView,
                >(error@),
            },
            result is Ok <==> {
                &&& is_hex(self.quote_signature@)
                &&& self.credit_amount.sats is Ok
                &&& self.deposit_amount.sats is Ok
            },
            result matches Ok(input) ==> {
                let given = input.fields@;
                &&& input.tags@.len() == 2
                &&& input.tags@[0]@ == "spark"@
                &&& input.tags@[1]@ == "claim_instant_static_deposit"@
                &&& given.len() == 7
                &&& given[0] matches TaggedField::Text(network)
                &&& network@ == lowercase_of(self.network@)
                &&& given[1] == TaggedField::U64(3)
                &&& given[2] == TaggedField::U64(self.credit_amount.sats->Ok_0)
                &&& given[3] == TaggedField::U64(0)
                &&& given[4] matches TaggedField::Text(paid)
                &&& paid@ == address@
                &&& given[5] == TaggedField::U64(self.deposit_amount.sats->Ok_0)
                &&& given[6] matches TaggedField::Bytes(signature)
                &&& signature@ == hex_bytes(self.quote_signature@)
            },
    {
        let signature = match decode_hex(self.quote_signature.as_str()) {
            Ok(signature) => signature,
            Err(fault) => return Err(ServiceProviderError::ParseError(fault)),
        };
        let credit: u64 = match self.credit_amount.as_sats() {
            Ok(credit) => credit,
            Err(error) => return Err(error),
        };
        let deposit: u64 = match self.deposit_amount.as_sats() {
            Ok(deposit) => deposit,
            Err(error) => return Err(error),
        };
        let tags = vec!["spark".to_string(), "claim_instant_static_deposit".to_string()];
        let fields = vec![
            TaggedField::Text(lowercase(self.network.as_str())),
            TaggedField::U64(3),
            TaggedField::U64(credit),
            TaggedField::U64(0),
            TaggedField::Text(address.to_string()),
            TaggedField::U64(deposit),
            TaggedField::Bytes(signature),
        ];
        assert(views(tags@) =~= seq!["spark"@, "claim_instant_static_deposit"@]);
        assert(views(fields@) =~= statement_fields(*self, address@)->Ok_0);
        Ok(TaggedInput { tags, fields })
    }
}

/// The statement that a wallet signs binds it to all that the quote says: statements on quotes that
/// differ in the credit, the deposit, the bytes of the signature, the network or the address are
/// different. A quote without a readable signature or amount has none.
pub proof fn statements_bind_the_quote(
    quote: InstantDepositQuote,
    other: InstantDepositQuote,
    address: Seq<char>,
    other_address: Seq<char>,
)
    ensures
        statement_fields(quote, address) is Ok <==> is_hex(quote.quote_signature@)
            && quote.credit_amount.sats is Ok && quote.deposit_amount.sats is Ok,
        statement_fields(quote, address) is Ok && statement_fields(quote, address)
            == statement_fields(other, other_address) ==> {
            &&& address == other_address
            &&& quote.credit_amount.sats->Ok_0 == other.credit_amount.sats->Ok_0
            &&& quote.deposit_amount.sats->Ok_0 == other.deposit_amount.sats->Ok_0
            &&& hex_bytes(quote.quote_signature@) == hex_bytes(other.quote_signature@)
            &&& lowercase_of(quote.network@) == lowercase_of(other.network@)
        },
{
    if statement_fields(quote, address) is Ok && statement_fields(quote, address)
        == statement_fields(other, other_address) {
        let fields = statement_fields(quote, address)->Ok_0;
        let others = statement_fields(other, other_address)->Ok_0;
        assert(fields[0] == others[0]);
        assert(fields[2] == others[2]);
        assert(fields[4] == others[4]);
        assert(fields[5] == others[5]);
        assert(fields[6] == others[6]);
    }
}

/// The document that asks for a quote declares the operation, declares every variable that the
/// question gives, and asks by each of them.
pub proof fn quote_document_takes_its_variables()
    ensures
        mentions(QUOTE_DOCUMENT@, "mutation CreateInstantStaticDepositQuote("@),
        mentions(QUOTE_DOCUMENT@, "$transaction_id:String!"@),
        mentions(QUOTE_DOCUMENT@, "transaction_id:$transaction_id"@),
        mentions(QUOTE_DOCUMENT@, "$output_index:Int!"@),
        mentions(QUOTE_DOCUMENT@, "output_index:$output_index"@),
        mentions(QUOTE_DOCUMENT@, "$network:BitcoinNetwork!"@),
        mentions(QUOTE_DOCUMENT@, "network:$network"@),
{
    reveal_strlit(r#"
mutation CreateInstantStaticDepositQuote($transaction_id:String!,$output_index:Int!,$network:BitcoinNetwork!) {
 create_instant_static_deposit_quote(input:{transaction_id:$transaction_id,output_index:$output_index,network:$network}) {
  quote { id network transaction_id output_index quote_signature deposit_amount { ...Amount } credit_amount { ...Amount } }
  fulfillment_plans { id amount { ...Amount } confirmations status transfer_spark_id }
 }
}
fragment Amount on CurrencyAmount { original_value original_unit preferred_currency_unit preferred_currency_value_rounded }
"#);
    reveal_strlit("mutation CreateInstantStaticDepositQuote(");
    lemma_mentions(QUOTE_DOCUMENT@, "mutation CreateInstantStaticDepositQuote("@, 1);
    reveal_strlit("$transaction_id:String!");
    lemma_mentions(QUOTE_DOCUMENT@, "$transaction_id:String!"@, 42);
    reveal_strlit("transaction_id:$transaction_id");
    lemma_mentions(QUOTE_DOCUMENT@, "transaction_id:$transaction_id"@, 157);
    reveal_strlit("$output_index:Int!");
    lemma_mentions(QUOTE_DOCUMENT@, "$output_index:Int!"@, 66);
    reveal_strlit("output_index:$output_index");
    lemma_mentions(QUOTE_DOCUMENT@, "output_index:$output_index"@, 188);
    reveal_strlit("$network:BitcoinNetwork!");
    lemma_mentions(QUOTE_DOCUMENT@, "$network:BitcoinNetwork!"@, 85);
    reveal_strlit("network:$network");
    lemma_mentions(QUOTE_DOCUMENT@, "network:$network"@, 215);
}

/// The document that claims a deposit declares the operation, declares every variable that the
/// question gives, and claims by each of them.
pub proof fn claim_document_takes_its_variables()
    ensures
        mentions(CLAIM_DOCUMENT@, "mutation ClaimInstantStaticDeposit("@),
        mentions(CLAIM_DOCUMENT@, "$static_deposit_quote_id:ID!"@),
        mentions(CLAIM_DOCUMENT@, "static_deposit_quote_id:$static_deposit_quote_id"@),
        mentions(CLAIM_DOCUMENT@, "$static_deposit_address_private_key_share:String!"@),
        mentions(CLAIM_DOCUMENT@, "static_deposit_address_private_key_share:$static_deposit_address_private_key_share"@),
        mentions(CLAIM_DOCUMENT@, "$signature:String!"@),
        mentions(CLAIM_DOCUMENT@, "signature:$signature"@),
{
    reveal_strlit(r#"
mutation ClaimInstantStaticDeposit($static_deposit_quote_id:ID!,$static_deposit_address_private_key_share:String!,$signature:String!) {
 create_claim_instant_static_deposit(input:{static_deposit_quote_id:$static_deposit_quote_id,static_deposit_address_private_key_share:$static_deposit_address_private_key_share,signature:$signature}) { claim_id }
}"#);
    reveal_strlit("mutation ClaimInstantStaticDeposit(");
    lemma_mentions(CLAIM_DOCUMENT@, "mutation ClaimInstantStaticDeposit("@, 1);
    reveal_strlit("$static_deposit_quote_id:ID!");
    lemma_mentions(CLAIM_DOCUMENT@, "$static_deposit_quote_id:ID!"@, 36);
    reveal_strlit("static_deposit_quote_id:$static_deposit_quote_id");
    lemma_mentions(CLAIM_DOCUMENT@, "static_deposit_quote_id:$static_deposit_quote_id"@, 181);
    reveal_strlit("$static_deposit_address_private_key_share:String!");
    lemma_mentions(CLAIM_DOCUMENT@, "$static_deposit_address_private_key_share:String!"@, 65);
    reveal_strlit("static_deposit_address_private_key_share:$static_deposit_address_private_key_share");
    lemma_mentions(CLAIM_DOCUMENT@, "static_deposit_address_private_key_share:$static_deposit_address_private_key_share"@, 230);
    reveal_strlit("$signature:String!");
    lemma_mentions(CLAIM_DOCUMENT@, "$signature:String!"@, 115);
    reveal_strlit("signature:$signature");
    lemma_mentions(CLAIM_DOCUMENT@, "signature:$signature"@, 313);
}

} // verus!
