use std::sync::Arc;

use spark_wallet::error::{SdkError, ServiceProviderError};
use spark_wallet::sdk::{BreezSdk, SparkWallet};
use spark_wallet::ssp::graphql::{Json, Member, NamedVariable, ServiceProvider, Variable};
use spark_wallet::ssp::instant::{CurrencyAmount, InstantDepositQuote, CLAIM_DOCUMENT, QUOTE_DOCUMENT};
use spark_wallet::ssp::requests::{
    replied_offer, replied_page, replied_record, RequestHistoryFilter, HISTORY_DOCUMENT,
    OFFER_DOCUMENT, RECORD_DOCUMENT,
};
use spark_wallet::tagged::TaggedField;

fn provider() -> ServiceProvider<&'static str> {
    ServiceProvider { gql_client: Arc::new("client") }
}

fn text(name: &str, value: &str) -> NamedVariable {
    NamedVariable { name: name.to_string(), value: Variable::Text(value.to_string()) }
}

fn number(name: &str, value: u64) -> NamedVariable {
    NamedVariable { name: name.to_string(), value: Variable::Number(value) }
}

fn quote(credit: CurrencyAmount, deposit: CurrencyAmount, signature: &str) -> InstantDepositQuote {
    InstantDepositQuote {
        id: "quote".to_string(),
        network: "REGTEST".to_string(),
        transaction_id: "txid".to_string(),
        output_index: 1,
        deposit_amount: deposit,
        credit_amount: credit,
        quote_signature: signature.to_string(),
    }
}

fn sats(value: u64) -> CurrencyAmount {
    CurrencyAmount { sats: Ok(value) }
}

fn unreadable(text: &str) -> CurrencyAmount {
    CurrencyAmount { sats: Err(ServiceProviderError::Generic(text.to_string())) }
}

#[test]
fn a_quote_is_asked_for() {
    let query = provider().get_instant_deposit_quote("txid", 2, "REGTEST");
    assert_eq!(query.operation_name, "CreateInstantStaticDepositQuote");
    assert_eq!(query.query, QUOTE_DOCUMENT);
    assert!(query.query.starts_with("\nmutation CreateInstantStaticDepositQuote("));
    assert_eq!(
        query.variables,
        vec![text("transaction_id", "txid"), number("output_index", 2), text("network", "REGTEST")]
    );
}

#[test]
fn a_deposit_is_claimed_in_hexadecimal() {
    let query = provider().claim_instant_deposit("quote", &[0x0a, 0xff], &[0x30]);
    assert_eq!(query.operation_name, "ClaimInstantStaticDeposit");
    assert_eq!(query.query, CLAIM_DOCUMENT);
    assert_eq!(
        query.variables,
        vec![
            text("static_deposit_quote_id", "quote"),
            text("static_deposit_address_private_key_share", "0aff"),
            text("signature", "30"),
        ]
    );
}

#[test]
fn the_statement_names_the_quoted_amounts() {
    let input = quote(sats(90), sats(100), "0AfF").user_statement("bcrt1q").unwrap();
    assert_eq!(input.tags, vec!["spark", "claim_instant_static_deposit"]);
    assert_eq!(
        input.fields,
        vec![
            TaggedField::Text("regtest".to_string()),
            TaggedField::U64(3),
            TaggedField::U64(90),
            TaggedField::U64(0),
            TaggedField::Text("bcrt1q".to_string()),
            TaggedField::U64(100),
            TaggedField::Bytes(vec![0x0a, 0xff]),
        ]
    );
}

#[test]
fn hexadecimal_texts_are_read_back() {
    let bytes: Vec<u8> = (0..=255).collect();
    let query = provider().claim_instant_deposit("quote", &[], &bytes);
    let written = match &query.variables[2].value {
        Variable::Text(text) => text.clone(),
        other => panic!("expected a text, got {:?}", other),
    };
    assert_eq!(written, hex::encode(&bytes));
    let input = quote(sats(1), sats(2), &written).user_statement("bcrt1q").unwrap();
    assert_eq!(input.fields[6], TaggedField::Bytes(bytes));
}

#[test]
fn the_statement_reports_the_first_fault() {
    let fault = |quote: InstantDepositQuote| quote.user_statement("bcrt1q").unwrap_err();
    assert_eq!(
        fault(quote(unreadable("credit"), unreadable("deposit"), "0")),
        ServiceProviderError::ParseError("Odd number of digits".to_string())
    );
    assert_eq!(
        fault(quote(unreadable("credit"), unreadable("deposit"), "00")),
        ServiceProviderError::Generic("credit".to_string())
    );
    assert_eq!(
        fault(quote(sats(1), unreadable("deposit"), "00")),
        ServiceProviderError::Generic("deposit".to_string())
    );
}

#[test]
fn a_request_is_asked_for_by_id() {
    let query = provider().get_request_record("request");
    assert_eq!(query.operation_name, "UserRequest");
    assert_eq!(query.query, RECORD_DOCUMENT);
    assert_eq!(query.variables, vec![text("request_id", "request")]);
}

#[test]
fn pages_hold_one_to_a_hundred_requests() {
    let page = |first: u32| {
        provider().list_request_history(RequestHistoryFilter { first, ..Default::default() })
    };
    let refused = || {
        Err(ServiceProviderError::Generic("history page size must be 1 to 100".to_string()))
    };
    assert_eq!(page(0), refused());
    assert_eq!(page(101), refused());
    assert!(page(1).is_ok());
    let query = page(100).unwrap();
    assert_eq!(query.operation_name, "FetchCurrentUserToUserRequestsConnection");
    assert_eq!(query.query, HISTORY_DOCUMENT);
    let null = |name: &str| NamedVariable { name: name.to_string(), value: Variable::Null };
    assert_eq!(
        query.variables,
        vec![number("first", 100), null("after"), null("types"), null("statuses"), null("networks")]
    );
}

#[test]
fn the_default_filter_takes_the_first_hundred() {
    let filter = RequestHistoryFilter::default();
    assert_eq!(filter.first, 100);
    assert_eq!(filter.after, None);
    assert_eq!(filter.types, None);
    assert_eq!(filter.statuses, None);
    assert_eq!(filter.networks, None);
}

#[test]
fn filters_become_variables() {
    let query = provider()
        .list_request_history(RequestHistoryFilter {
            first: 5,
            after: Some("cursor".to_string()),
            types: Some(vec!["COOP_EXIT".to_string()]),
            statuses: Some(Vec::new()),
            networks: None,
        })
        .unwrap();
    let list = |name: &str, items: Vec<String>| NamedVariable {
        name: name.to_string(),
        value: Variable::TextList(items),
    };
    assert_eq!(
        query.variables,
        vec![
            number("first", 5),
            text("after", "cursor"),
            list("types", vec!["COOP_EXIT".to_string()]),
            list("statuses", Vec::new()),
            NamedVariable { name: "networks".to_string(), value: Variable::Null },
        ]
    );
}

#[test]
fn an_offer_is_asked_for() {
    let query = provider().request_bolt12_receive(1_500, "MAINNET", "coffee", 3_600);
    assert_eq!(query.operation_name, "RequestBolt12Receive");
    assert_eq!(query.query, OFFER_DOCUMENT);
    assert_eq!(
        query.variables,
        vec![
            number("amount_sats", 1_500),
            text("network", "MAINNET"),
            text("memo", "coffee"),
            number("expiry_secs", 3_600),
        ]
    );
}

fn object(members: Vec<(&str, Json<u32>)>) -> Json<u32> {
    Json::Object(
        members
            .into_iter()
            .map(|(name, value)| Member { name: name.to_string(), value })
            .collect(),
    )
}

#[test]
fn answers_are_found_in_replies() {
    let reply = object(vec![("other", Json::Bool(true)), ("user_request", Json::Number(1))]);
    assert_eq!(replied_record(&reply), Some(&Json::Number(1)));
    assert_eq!(replied_record(&Json::<u32>::List(Vec::new())), None);
    assert_eq!(replied_record(&object(Vec::new())), None);
    let reply = object(vec![(
        "current_user",
        object(vec![("user_requests", Json::Text("page".to_string()))]),
    )]);
    assert_eq!(replied_page(&reply), Some(&Json::Text("page".to_string())));
    assert_eq!(replied_page(&object(vec![("current_user", Json::Null)])), None);
    assert_eq!(replied_offer(&reply), None);
    let reply =
        object(vec![("request_lightning_receive", object(vec![("request", Json::Bool(false))]))]);
    assert_eq!(replied_offer(&reply), Some(&Json::Bool(false)));
    let nested = object(vec![("list", Json::List(vec![reply, Json::Number(7), Json::Null]))]);
    assert_eq!(nested.clone(), nested);
}

fn sdk() -> BreezSdk<(), &'static str> {
    BreezSdk {
        spark_wallet: Arc::new(SparkWallet {
            connections: (),
            service_provider: Arc::new(provider()),
        }),
    }
}

// The coinbase transaction of the first block.
const GENESIS: &str = "01000000010000000000000000000000000000000000000000000000000000000000000000ffffffff4d04ffff001d0104455468652054696d65732030332f4a616e2f32303039204368616e63656c6c6f72206f6e206272696e6b206f66207365636f6e64206261696c6f757420666f722062616e6b73ffffffff0100f2052a01000000434104678afdb0fe5548271967f1a67130b7105cd6a828e03909a67962e0ea1f61deb649f6bc3f4cef38c4f35504e51ec112de5c384df7ba0b8d578a4c702b6bf11d5fac00000000";

#[test]
fn the_wallet_hands_out_its_service_provider() {
    let sdk = sdk();
    let first = sdk.service_provider();
    assert!(Arc::ptr_eq(&first, &sdk.spark_wallet.service_provider));
    assert_eq!(*first.gql_client, "client");
}

#[test]
fn a_single_use_deposit_is_read() {
    let claim = sdk().claim_single_use_deposit(GENESIS, 3).unwrap();
    assert_eq!(claim.output_index, 3);
    assert_eq!(claim.transaction.version, 1);
    assert_eq!(claim.transaction.lock_time, 0);
    assert_eq!(claim.transaction.inputs.len(), 1);
    assert_eq!(claim.transaction.inputs[0].vout, u32::MAX);
    assert_eq!(claim.transaction.inputs[0].script_sig.len(), 77);
    assert_eq!(claim.transaction.outputs.len(), 1);
    assert_eq!(claim.transaction.outputs[0].value, 5_000_000_000);
    assert_eq!(
        sdk().claim_single_use_deposit("0", 0),
        Err(SdkError::Generic("Odd number of digits".to_string()))
    );
    let short = bitcoin::consensus::deserialize::<bitcoin::Transaction>(&[1]).unwrap_err();
    assert_eq!(
        sdk().claim_single_use_deposit("01", 0),
        Err(SdkError::Generic(short.to_string()))
    );
}

#[test]
fn a_funding_transaction_is_read() {
    let fetch = sdk().get_instant_deposit_quote(GENESIS, 4).unwrap();
    assert_eq!(fetch.output_index, Some(4));
    assert_eq!(fetch.transaction, sdk().claim_single_use_deposit(GENESIS, 0).unwrap().transaction);
    let claim = sdk().claim_instant_deposit(GENESIS, "quote", 7).ok().unwrap();
    assert_eq!((claim.quote, claim.plan), ("quote", 7));
    assert_eq!(claim.transaction, fetch.transaction);
    let fault =
        bitcoin::consensus::encode::deserialize_hex::<bitcoin::Transaction>("zz").unwrap_err();
    let refused = SdkError::Generic(fault.to_string());
    assert_eq!(sdk().get_instant_deposit_quote("zz", 0).err(), Some(refused));
    assert!(sdk().claim_instant_deposit("zz", (), ()).is_err());
}
