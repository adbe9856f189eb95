//! The history of requests to the service provider, and offers to be paid over Lightning.

use vstd::prelude::*;

use std::collections::BTreeMap;

use crate::error::{ServiceProviderError, ServiceProviderErrorView};
use crate::model::views;
use crate::ssp::graphql::{
    lemma_mentions, member_of, member_of_member, mentions, number_variable, referred, text_variable,
    GraphQuery, GraphQueryView, Json, NamedVariable, ServiceProvider, Variable, VariableView,
};

verus! {

/// The operation that asks for a request.
pub const RECORD_OPERATION: &'static str = "UserRequest";

/// The document that asks for a request.
pub const RECORD_DOCUMENT: &'static str = r#"query UserRequest($request_id:ID!) { user_request(request_id:$request_id) { id created_at updated_at network ... on ClaimStaticDeposit { status transaction_id output_index credit_amount { original_value original_unit preferred_currency_unit preferred_currency_value_rounded } deposit_amount { original_value original_unit preferred_currency_unit preferred_currency_value_rounded } max_fee { original_value original_unit preferred_currency_unit preferred_currency_value_rounded } transfer_spark_id } ... on LightningSendRequest { status encoded_invoice idempotency_key } ... on LightningReceiveRequest { status invoice { encoded_invoice payment_hash } } ... on LeavesSwapRequest { status } ... on CoopExitRequest { status coop_exit_txid } } }"#;

/// The operation that asks for a page of the history.
pub const HISTORY_OPERATION: &'static str = "FetchCurrentUserToUserRequestsConnection";

/// The document that asks for a page of the history.
pub const HISTORY_DOCUMENT: &'static str = r#"query FetchCurrentUserToUserRequestsConnection($first:Int!,$after:String,$types:[String!],$statuses:[String!],$networks:[BitcoinNetwork!]) { current_user { user_requests(first:$first,after:$after,types:$types,statuses:$statuses,networks:$networks) { entities { id created_at updated_at network ... on ClaimStaticDeposit { status transaction_id output_index transfer_spark_id } ... on LightningSendRequest { status encoded_invoice } ... on LightningReceiveRequest { status } ... on LeavesSwapRequest { status } ... on CoopExitRequest { status } } page_info { has_next_page end_cursor } } } }"#;

/// The operation that asks for an offer.
pub const OFFER_OPERATION: &'static str = "RequestBolt12Receive";

/// The document that asks for an offer.
pub const OFFER_DOCUMENT: &'static str = r#"mutation RequestBolt12Receive($amount_sats:Long!,$network:BitcoinNetwork!,$memo:String!,$expiry_secs:Int!) { request_lightning_receive: request_bolt12_receive(input:{amount_sats:$amount_sats,network:$network,memo:$memo,expiry_secs:$expiry_secs}) { request { id created_at updated_at network status invoice { encoded_invoice payment_hash } } } }"#;

/// The greatest number of requests on a page of the history.
pub const MAX_PAGE_SIZE: u32 = 100;

/// A request, with what all requests have, and the members that only its type has. Numbers are in
/// the form `N` in which they came.
#[derive(Debug, Clone, PartialEq)]
pub struct RequestRecord<N> {
    pub id: String,
    pub status: String,
    pub created_at: String,
    pub updated_at: String,
    pub network: String,
    pub details: BTreeMap<String, Json<N>>,
}

/// Which requests a page of the history holds, and where it starts.
#[derive(Debug, Clone, PartialEq)]
pub struct RequestHistoryFilter {
    pub first: u32,
    pub after: Option<String>,
    pub types: Option<Vec<String>>,
    pub statuses: Option<Vec<String>>,
    pub networks: Option<Vec<String>>,
}

impl Default for RequestHistoryFilter {
    fn default() -> (filter: Self)
        ensures
            filter.first == MAX_PAGE_SIZE,
            filter.first == 100,
            filter.after is None,
            filter.types is None,
            filter.statuses is None,
            filter.networks is None,
    {
        RequestHistoryFilter {
            first: MAX_PAGE_SIZE,
            after: None,
            types: None,
            statuses: None,
            networks: None,
        }
    }
}

/// A page of the history.
#[derive(Debug, Clone, PartialEq)]
pub struct RequestPage<N> {
    pub entities: Vec<RequestRecord<N>>,
    pub page_info: RequestPageInfo,
}

/// Where the page after a page starts, if there is one.
#[derive(Debug, Clone, PartialEq)]
pub struct RequestPageInfo {
    pub has_next_page: bool,
    pub end_cursor: Option<String>,
}

/// A text that may be missing, as a variable.
pub open spec fn text_or_null(text: Option<String>) -> VariableView {
    match text {
        Some(text) => VariableView::Text(text@),
        None => VariableView::Null,
    }
}

/// A list of texts that may be missing, as a variable.
pub open spec fn list_or_null(items: Option<Vec<String>>) -> VariableView {
    match items {
        Some(items) => VariableView::TextList(views(items@)),
        None => VariableView::Null,
    }
}

/// The variables of a filter.
pub open spec fn filter_variables(filter: RequestHistoryFilter) -> Seq<
    (Seq<char>, VariableView),
> {
    seq![
        ("first"@, VariableView::Number(filter.first as nat)),
        ("after"@, text_or_null(filter.after)),
        ("types"@, list_or_null(filter.types)),
        ("statuses"@, list_or_null(filter.statuses)),
        ("networks"@, list_or_null(filter.networks)),
    ]
}

fn optional_text(name: &str, text: Option<String>) -> (variable: NamedVariable)
    ensures
        variable@ == (name@, text_or_null(text)),
        variable.name@ == name@,
        match text {
            Some(held) => variable.value == Variable::Text(held),
            None => variable.value is Null,
        },
{
    let value = match text {
        Some(text) => Variable::Text(text),
        None => Variable::Null,
    };
    NamedVariable { name: name.to_string(), value }
}

fn optional_list(name: &str, items: Option<Vec<String>>) -> (variable: NamedVariable)
    ensures
        variable@ == (name@, list_or_null(items)),
        variable.name@ == name@,
        match items {
            Some(held) => variable.value == Variable::TextList(held),
            None => variable.value is Null,
        },
{
    let value = match items {
        Some(items) => Variable::TextList(items),
        None => Variable::Null,
    };
    NamedVariable { name: name.to_string(), value }
}

impl<C> ServiceProvider<C> {
    /// The question for a request.
    pub fn get_request_record(&self, id: &str) -> (query: GraphQuery)
        ensures
            query@ == (GraphQueryView {
                operation_name: RECORD_OPERATION@,
                query: RECORD_DOCUMENT@,
                variables: seq![("request_id"@, VariableView::Text(id@))],
            }),
            query.operation_name@ == "UserRequest"@,
            query.variables@.len() == 1,
            query.variables@[0].name@ == "request_id"@,
            query.variables@[0].value matches Variable::Text(text) && text@ == id@,
    {
        let variables = vec![text_variable("request_id", id)];
        assert(views(variables@) =~= seq![("request_id"@, VariableView::Text(id@))]);
        GraphQuery {
            operation_name: RECORD_OPERATION.to_string(),
            query: RECORD_DOCUMENT.to_string(),
            variables,
        }
    }

    /// The question for a page of the history, which holds one to a hundred requests.
    pub fn list_request_history(&self, filter: RequestHistoryFilter) -> (result: Result<
        GraphQuery,
        ServiceProviderError,
    >)
        ensures
            match result {
                Ok(query) => {
                    &&& 1 <= filter.first <= MAX_PAGE_SIZE
                    &&& query@ == (GraphQueryView {
                        operation_name: HISTORY_OPERATION@,
                        query: HISTORY_DOCUMENT@,
                        variables: filter_variables(filter),
                    })
                },
                Err(error) => {
                    &&& !(1 <= filter.first <= MAX_PAGE_SIZE)
                    &&& error@ == ServiceProviderErrorView::Generic(
                        "history page size must be 1 to 100"@,
                    )
                },
            },
            result is Ok <==> 1 <= filter.first <= 100,
            result matches Ok(query) ==> {
                let given = query.variables@;
                &&& query.operation_name@ == "FetchCurrentUserToUserRequestsConnection"@
                &&& given.len() == 5
                &&& given[0].name@ == "first"@ && given[0].value == Variable::Number(
                    filter.first as u64,
                )
                &&& given[1].name@ == "after"@ && given[1].value == match filter.after {
                    Some(after) => Variable::Text(after),
                    None => Variable::Null,
                }
                &&& given[2].name@ == "types"@ && given[2].value == match filter.types {
                    Some(types) => Variable::TextList(types),
                    None => Variable::Null,
                }
                &&& given[3].name@ == "statuses"@ && given[3].value == match filter.statuses {
                    Some(statuses) => Variable::TextList(statuses),
                    None => Variable::Null,
                }
                &&& given[4].name@ == "networks"@ && given[4].value == match filter.networks {
                    Some(networks) => Variable::TextList(networks),
                    None => Variable::Null,
                }
            },
    {
        if filter.first < 1 || filter.first > MAX_PAGE_SIZE {
            return Err(
                ServiceProviderError::Generic("history page size must be 1 to 100".to_string()),
            );
        }
        let variables = vec![
            number_variable("first", filter.first as u64),
            optional_text("after", filter.after),
            optional_list("types", filter.types),
            optional_list("statuses", filter.statuses),
            optional_list("networks", filter.networks),
        ];
        assert(views(variables@) =~= filter_variables(filter));
        Ok(
            GraphQuery {
                operation_name: HISTORY_OPERATION.to_string(),
                query: HISTORY_DOCUMENT.to_string(),
                variables,
            },
        )
    }

    /// The question for an offer to be paid over Lightning.
    pub fn request_bolt12_receive(
        &self,
        amount_sats: u64,
        network: &str,
        memo: &str,
        expiry_secs: u32,
    ) -> (query: GraphQuery)
        ensures
            query@ == (GraphQueryView {
                operation_name: OFFER_OPERATION@,
                query: OFFER_DOCUMENT@,
                variables: seq![
                    ("amount_sats"@, VariableView::Number(amount_sats as nat)),
                    ("network"@, VariableView::Text(network@)),
                    ("memo"@, VariableView::Text(memo@)),
                    ("expiry_secs"@, VariableView::Number(expiry_secs as nat)),
                ],
            }),
            query.operation_name@ == "RequestBolt12Receive"@,
            query.variables@.len() == 4,
            query.variables@[0].name@ == "amount_sats"@,
            query.variables@[0].value == Variable::Number(amount_sats),
            query.variables@[1].name@ == "network"@,
            query.variables@[1].value matches Variable::Text(text) && text@ == network@,
            query.variables@[2].name@ == "memo"@,
            query.variables@[2].value matches Variable::Text(text) && text@ == memo@,
            query.variables@[3].name@ == "expiry_secs"@,
            query.variables@[3].value == Variable::Number(expiry_secs as u64),
    {
        let ghost expected = seq![
            ("amount_sats"@, VariableView::Number(amount_sats as nat)),
            ("network"@, VariableView::Text(network@)),
            ("memo"@, VariableView::Text(memo@)),
            ("expiry_secs"@, VariableView::Number(expiry_secs as nat)),
        ];
        let variables = vec![
            number_variable("amount_sats", amount_sats),
            text_variable("network", network),
            text_variable("memo", memo),
            number_variable("expiry_secs", expiry_secs as u64),
        ];
        assert(views(variables@) =~= expected);
        GraphQuery {
            operation_name: OFFER_OPERATION.to_string(),
            query: OFFER_DOCUMENT.to_string(),
            variables,
        }
    }
}

/// Where the reply to `get_request_record` holds the request. A missing one is no request.
pub fn replied_record<N>(reply: &Json<N>) -> (record: Option<&Json<N>>)
    ensures
        referred(record) == member_of(*reply, "user_request"@),
{
    reply.member("user_request")
}

/// Where the reply to `list_request_history` holds the page.
pub fn replied_page<N>(reply: &Json<N>) -> (page: Option<&Json<N>>)
    ensures
        referred(page) == member_of_member(*reply, "current_user"@, "user_requests"@),
{
    reply.member_of_member("current_user", "user_requests")
}

/// Where the reply to `request_bolt12_receive` holds the request.
pub fn replied_offer<N>(reply: &Json<N>) -> (record: Option<&Json<N>>)
    ensures
        referred(record) == member_of_member(*reply, "request_lightning_receive"@, "request"@),
{
    reply.member_of_member("request_lightning_receive", "request")
}

/// The document that asks for a request declares the operation, declares the variable that the
/// question gives, and asks by it.
pub proof fn record_document_takes_its_variables()
    ensures
        mentions(RECORD_DOCUMENT@, "query UserRequest("@),
        mentions(RECORD_DOCUMENT@, "$request_id:ID!"@),
        mentions(RECORD_DOCUMENT@, "request_id:$request_id"@),
{
    reveal_strlit(r#"query UserRequest($request_id:ID!) { user_request(request_id:$request_id) { id created_at updated_at network ... on ClaimStaticDeposit { status transaction_id output_index credit_amount { original_value original_unit preferred_currency_unit preferred_currency_value_rounded } deposit_amount { original_value original_unit preferred_currency_unit preferred_currency_value_rounded } max_fee { original_value original_unit preferred_currency_unit preferred_currency_value_rounded } transfer_spark_id } ... on LightningSendRequest { status encoded_invoice idempotency_key } ... on LightningReceiveRequest { status invoice { encoded_invoice payment_hash } } ... on LeavesSwapRequest { status } ... on CoopExitRequest { status coop_exit_txid } } }"#);
    reveal_strlit("query UserRequest(");
    lemma_mentions(RECORD_DOCUMENT@, "query UserRequest("@, 0);
    reveal_strlit("$request_id:ID!");
    lemma_mentions(RECORD_DOCUMENT@, "$request_id:ID!"@, 18);
    reveal_strlit("request_id:$request_id");
    lemma_mentions(RECORD_DOCUMENT@, "request_id:$request_id"@, 50);
}

/// The document that asks for a page of the history declares the operation, declares every variable
/// that the question gives, and asks by each of them.
pub proof fn history_document_takes_its_variables()
    ensures
        mentions(HISTORY_DOCUMENT@, "query FetchCurrentUserToUserRequestsConnection("@),
        mentions(HISTORY_DOCUMENT@, "$first:Int!"@),
        mentions(HISTORY_DOCUMENT@, "first:$first"@),
        mentions(HISTORY_DOCUMENT@, "$after:String"@),
        mentions(HISTORY_DOCUMENT@, "after:$after"@),
        mentions(HISTORY_DOCUMENT@, "$types:[String!]"@),
        mentions(HISTORY_DOCUMENT@, "types:$types"@),
        mentions(HISTORY_DOCUMENT@, "$statuses:[String!]"@),
        mentions(HISTORY_DOCUMENT@, "statuses:$statuses"@),
        mentions(HISTORY_DOCUMENT@, "$networks:[BitcoinNetwork!]"@),
        mentions(HISTORY_DOCUMENT@, "networks:$networks"@),
{
    reveal_strlit(r#"query FetchCurrentUserToUserRequestsConnection($first:Int!,$after:String,$types:[String!],$statuses:[String!],$networks:[BitcoinNetwork!]) { current_user { user_requests(first:$first,after:$after,types:$types,statuses:$statuses,networks:$networks) { entities { id created_at updated_at network ... on ClaimStaticDeposit { status transaction_id output_index transfer_spark_id } ... on LightningSendRequest { status encoded_invoice } ... on LightningReceiveRequest { status } ... on LeavesSwapRequest { status } ... on CoopExitRequest { status } } page_info { has_next_page end_cursor } } } }"#);
    reveal_strlit("query FetchCurrentUserToUserRequestsConnection(");
    lemma_mentions(HISTORY_DOCUMENT@, "query FetchCurrentUserToUserRequestsConnection("@, 0);
    reveal_strlit("$first:Int!");
    lemma_mentions(HISTORY_DOCUMENT@, "$first:Int!"@, 47);
    reveal_strlit("first:$first");
    lemma_mentions(HISTORY_DOCUMENT@, "first:$first"@, 170);
    reveal_strlit("$after:String");
    lemma_mentions(HISTORY_DOCUMENT@, "$after:String"@, 59);
    reveal_strlit("after:$after");
    lemma_mentions(HISTORY_DOCUMENT@, "after:$after"@, 183);
    reveal_strlit("$types:[String!]");
    lemma_mentions(HISTORY_DOCUMENT@, "$types:[String!]"@, 73);
    reveal_strlit("types:$types");
    lemma_mentions(HISTORY_DOCUMENT@, "types:$types"@, 196);
    reveal_strlit("$statuses:[String!]");
    lemma_mentions(HISTORY_DOCUMENT@, "$statuses:[String!]"@, 90);
    reveal_strlit("statuses:$statuses");
    lemma_mentions(HISTORY_DOCUMENT@, "statuses:$statuses"@, 209);
    reveal_strlit("$networks:[BitcoinNetwork!]");
    lemma_mentions(HISTORY_DOCUMENT@, "$networks:[BitcoinNetwork!]"@, 110);
    reveal_strlit("networks:$networks");
    lemma_mentions(HISTORY_DOCUMENT@, "networks:$networks"@, 228);
}

/// The document that asks for an offer declares the operation, declares every variable that the
/// question gives, and asks by each of them.
pub proof fn offer_document_takes_its_variables()
    ensures
        mentions(OFFER_DOCUMENT@, "mutation RequestBolt12Receive("@),
        mentions(OFFER_DOCUMENT@, "$amount_sats:Long!"@),
        mentions(OFFER_DOCUMENT@, "amount_sats:$amount_sats"@),
        mentions(OFFER_DOCUMENT@, "$network:BitcoinNetwork!"@),
        mentions(OFFER_DOCUMENT@, "network:$network"@),
        mentions(OFFER_DOCUMENT@, "$memo:String!"@),
        mentions(OFFER_DOCUMENT@, "memo:$memo"@),
        mentions(OFFER_DOCUMENT@, "$expiry_secs:Int!"@),
        mentions(OFFER_DOCUMENT@, "expiry_secs:$expiry_secs"@),
{
    reveal_strlit(r#"mutation RequestBolt12Receive($amount_sats:Long!,$network:BitcoinNetwork!,$memo:String!,$expiry_secs:Int!) { request_lightning_receive: request_bolt12_receive(input:{amount_sats:$amount_sats,network:$network,memo:$memo,expiry_secs:$expiry_secs}) { request { id created_at updated_at network status invoice { encoded_invoice payment_hash } } } }"#);
    reveal_strlit("mutation RequestBolt12Receive(");
    lemma_mentions(OFFER_DOCUMENT@, "mutation RequestBolt12Receive("@, 0);
    reveal_strlit("$amount_sats:Long!");
    lemma_mentions(OFFER_DOCUMENT@, "$amount_sats:Long!"@, 30);
    reveal_strlit("amount_sats:$amount_sats");
    lemma_mentions(OFFER_DOCUMENT@, "amount_sats:$amount_sats"@, 166);
    reveal_strlit("$network:BitcoinNetwork!");
    lemma_mentions(OFFER_DOCUMENT@, "$network:BitcoinNetwork!"@, 49);
    reveal_strlit("network:$network");
    lemma_mentions(OFFER_DOCUMENT@, "network:$network"@, 191);
    reveal_strlit("$memo:String!");
    lemma_mentions(OFFER_DOCUMENT@, "$memo:String!"@, 74);
    reveal_strlit("memo:$memo");
    lemma_mentions(OFFER_DOCUMENT@, "memo:$memo"@, 208);
    reveal_strlit("$expiry_secs:Int!");
    lemma_mentions(OFFER_DOCUMENT@, "$expiry_secs:Int!"@, 88);
    reveal_strlit("expiry_secs:$expiry_secs");
    lemma_mentions(OFFER_DOCUMENT@, "expiry_secs:$expiry_secs"@, 219);
}

} // verus!
