//! Cards API v4 and Card Transactions API v4.

use crate::text::{
    append_query, concat3, decimal, opt_num_pair, opt_num_pair_holds_its_value, opt_pair,
    opt_pair_holds_its_value, pairs_view, present, push_opt, push_opt_num, with_query,
};
use vstd::seq_lib::lemma_seq_concat_contains_all_elements;
use vstd::prelude::*;
use vstd::string::*;

verus! {

/// Path on which card accounts of a company are created in bulk.
pub fn accounts_bulk_path(company_id: &str) -> (r: String)
    ensures
        r@ == "/cards/v4/companies/"@ + company_id@ + "/accounts/bulk"@,
{
    concat3("/cards/v4/companies/", company_id, "/accounts/bulk")
}

/// Path on which card transactions of a company are created in bulk.
pub fn transactions_bulk_path(company_id: &str) -> (r: String)
    ensures
        r@ == "/cards/v4/companies/"@ + company_id@ + "/transactions/bulk"@,
{
    concat3("/cards/v4/companies/", company_id, "/transactions/bulk")
}

/// Path of the details of a bulk request.
pub fn bulk_request_path(company_id: &str, request_id: &str) -> (r: String)
    ensures
        r@ == "/cards/v4/companies/"@ + company_id@ + "/bulkrequests/"@ + request_id@,
{
    let mut p = concat3("/cards/v4/companies/", company_id, "/bulkrequests/");
    p.append(request_id);
    p
}

/// Filters and paging of a user's card transactions.
#[derive(Debug, Clone, Default)]
pub struct TransactionQuery {
    pub status: Option<String>,
    pub transaction_date_from: Option<String>,
    pub transaction_date_to: Option<String>,
    pub page_size: Option<u32>,
    pub page_token: Option<String>,
    pub sort: Option<String>,
    pub order: Option<String>,
    pub include_addendum_for: Option<String>,
    pub include_addendum_details_for: Option<String>,
}

/// The query parameters of a transaction list, in order, present ones only.
pub open spec fn transaction_params(q: TransactionQuery) -> Seq<(Seq<char>, Seq<char>)> {
    opt_pair("status"@, q.status) + opt_pair("transactionDateFrom"@, q.transaction_date_from)
        + opt_pair("transactionDateTo"@, q.transaction_date_to) + opt_num_pair(
        "pageSize"@,
        q.page_size,
    ) + opt_pair("pageToken"@, q.page_token) + opt_pair("sort"@, q.sort) + opt_pair(
        "order"@,
        q.order,
    ) + opt_pair("includeAddendumFor"@, q.include_addendum_for) + opt_pair(
        "includeAddendumDetailsFor"@,
        q.include_addendum_details_for,
    )
}

/// Every filter and paging value that is set is sent under its own key, whatever the
/// other fields hold, and nothing else is sent: one parameter per field that is set.
pub proof fn transaction_query_sends_every_set_field(q: TransactionQuery)
    ensures
        transaction_params(q).len() == present(q.status) + present(q.transaction_date_from)
            + present(q.transaction_date_to) + present(q.page_size) + present(q.page_token)
            + present(q.sort) + present(q.order) + present(q.include_addendum_for) + present(
            q.include_addendum_details_for,
        ),
        q.status matches Some(v) ==> transaction_params(q).contains(("status"@, v@)),
        q.transaction_date_from matches Some(v) ==> transaction_params(q).contains(
            ("transactionDateFrom"@, v@),
        ),
        q.transaction_date_to matches Some(v) ==> transaction_params(q).contains(
            ("transactionDateTo"@, v@),
        ),
        q.page_size matches Some(n) ==> transaction_params(q).contains(
            ("pageSize"@, decimal(n as nat)),
        ),
        q.page_token matches Some(v) ==> transaction_params(q).contains(("pageToken"@, v@)),
        q.sort matches Some(v) ==> transaction_params(q).contains(("sort"@, v@)),
        q.order matches Some(v) ==> transaction_params(q).contains(("order"@, v@)),
        q.include_addendum_for matches Some(v) ==> transaction_params(q).contains(
            ("includeAddendumFor"@, v@),
        ),
        q.include_addendum_details_for matches Some(v) ==> transaction_params(q).contains(
            ("includeAddendumDetailsFor"@, v@),
        ),
{
    broadcast use lemma_seq_concat_contains_all_elements;

    opt_pair_holds_its_value("status"@, q.status);
    opt_pair_holds_its_value("transactionDateFrom"@, q.transaction_date_from);
    opt_pair_holds_its_value("transactionDateTo"@, q.transaction_date_to);
    opt_num_pair_holds_its_value("pageSize"@, q.page_size);
    opt_pair_holds_its_value("pageToken"@, q.page_token);
    opt_pair_holds_its_value("sort"@, q.sort);
    opt_pair_holds_its_value("order"@, q.order);
    opt_pair_holds_its_value("includeAddendumFor"@, q.include_addendum_for);
    opt_pair_holds_its_value("includeAddendumDetailsFor"@, q.include_addendum_details_for);
}

impl TransactionQuery {
    /// The query parameters, in order, present ones only.
    pub fn params(&self) -> (r: Vec<(String, String)>)
        ensures
            pairs_view(r@) == transaction_params(*self),
    {
        let mut p: Vec<(String, String)> = Vec::new();
        push_opt(&mut p, "status", &self.status);
        push_opt(&mut p, "transactionDateFrom", &self.transaction_date_from);
        push_opt(&mut p, "transactionDateTo", &self.transaction_date_to);
        push_opt_num(&mut p, "pageSize", self.page_size);
        push_opt(&mut p, "pageToken", &self.page_token);
        push_opt(&mut p, "sort", &self.sort);
        push_opt(&mut p, "order", &self.order);
        push_opt(&mut p, "includeAddendumFor", &self.include_addendum_for);
        push_opt(&mut p, "includeAddendumDetailsFor", &self.include_addendum_details_for);
        assert(pairs_view(p@) =~= transaction_params(*self));
        p
    }
}

/// Path of a user's card transactions, with the query.
pub fn user_transactions_path(user_id: &str, query: &TransactionQuery) -> (r: String)
    ensures
        r@ == with_query(
            "/cards/v4/users/"@ + user_id@ + "/transactions"@,
            transaction_params(*query),
        ),
{
    let mut p = concat3("/cards/v4/users/", user_id, "/transactions");
    append_query(&mut p, &query.params());
    p
}

/// The holder of a card account.
#[derive(Debug, Clone, Default)]
pub struct Cardholder {
    pub user_id: Option<String>,
    pub employee_id: Option<String>,
    pub email: Option<String>,
    pub first_name: Option<String>,
    pub last_name: Option<String>,
}

/// The provider of a card account.
#[derive(Debug, Clone, Default)]
pub struct CardProvider {
    pub country_code: String,
}

/// The account a card transaction belongs to.
#[derive(Debug, Clone, Default)]
pub struct TransactionAccountRef {
    pub external_id: String,
}

} // verus!
