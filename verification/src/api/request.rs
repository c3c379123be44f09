//! Travel Request API v4: requests, their workflow, expected expenses and allocations.

use crate::text::{
    append_query, append_user_id, concat2, decimal, opt_num_pair, opt_num_pair_holds_its_value,
    opt_pair, opt_pair_holds_its_value, opt_str_pair, opt_str_pair_holds_its_value, pairs_view,
    present, push_opt, push_opt_num, push_opt_str, with_query, with_user_id,
};
use vstd::seq_lib::lemma_seq_concat_contains_all_elements;
use vstd::prelude::*;
use vstd::string::*;

verus! {

/// Filters and paging of a request list.
#[derive(Debug, Clone, Default)]
pub struct RequestListQuery {
    pub view: Option<String>,
    pub user_id: Option<String>,
    pub start: Option<u32>,
    pub limit: Option<u32>,
    pub approved_before: Option<String>,
    pub approved_after: Option<String>,
    pub modified_before: Option<String>,
    pub modified_after: Option<String>,
    pub sort_field: Option<String>,
    pub sort_order: Option<String>,
}

/// The query parameters of a request list, in order, present ones only.
pub open spec fn request_list_params(q: RequestListQuery) -> Seq<(Seq<char>, Seq<char>)> {
    opt_pair("view"@, q.view) + opt_pair("userId"@, q.user_id) + opt_num_pair("start"@, q.start)
        + opt_num_pair("limit"@, q.limit) + opt_pair("approvedBefore"@, q.approved_before)
        + opt_pair("approvedAfter"@, q.approved_after) + opt_pair(
        "modifiedBefore"@,
        q.modified_before,
    ) + opt_pair("modifiedAfter"@, q.modified_after) + opt_pair("sortField"@, q.sort_field)
        + opt_pair("sortOrder"@, q.sort_order)
}

/// Every filter and paging value of a request list that is set is sent under its own key,
/// whatever the other fields hold, and nothing else is sent: one parameter per field that
/// is set.
pub proof fn request_list_query_sends_every_set_field(q: RequestListQuery)
    ensures
        ({
            let p = request_list_params(q);
            &&& p.len() == present(q.view) + present(q.user_id) + present(q.start)
                + present(q.limit) + present(q.approved_before) + present(q.approved_after)
                + present(q.modified_before) + present(q.modified_after) + present(q.sort_field)
                + present(q.sort_order)
            &&& q.view matches Some(v) ==> p.contains(("view"@, v@))
            &&& q.user_id matches Some(v) ==> p.contains(("userId"@, v@))
            &&& q.start matches Some(n) ==> p.contains(("start"@, decimal(n as nat)))
            &&& q.limit matches Some(n) ==> p.contains(("limit"@, decimal(n as nat)))
            &&& q.approved_before matches Some(v) ==> p.contains(("approvedBefore"@, v@))
            &&& q.approved_after matches Some(v) ==> p.contains(("approvedAfter"@, v@))
            &&& q.modified_before matches Some(v) ==> p.contains(("modifiedBefore"@, v@))
            &&& q.modified_after matches Some(v) ==> p.contains(("modifiedAfter"@, v@))
            &&& q.sort_field matches Some(v) ==> p.contains(("sortField"@, v@))
            &&& q.sort_order matches Some(v) ==> p.contains(("sortOrder"@, v@))
        }),
{
    broadcast use lemma_seq_concat_contains_all_elements;

    opt_pair_holds_its_value("view"@, q.view);
    opt_pair_holds_its_value("userId"@, q.user_id);
    opt_num_pair_holds_its_value("start"@, q.start);
    opt_num_pair_holds_its_value("limit"@, q.limit);
    opt_pair_holds_its_value("approvedBefore"@, q.approved_before);
    opt_pair_holds_its_value("approvedAfter"@, q.approved_after);
    opt_pair_holds_its_value("modifiedBefore"@, q.modified_before);
    opt_pair_holds_its_value("modifiedAfter"@, q.modified_after);
    opt_pair_holds_its_value("sortField"@, q.sort_field);
    opt_pair_holds_its_value("sortOrder"@, q.sort_order);
}

impl RequestListQuery {
    /// The query parameters, in order, present ones only.
    pub fn params(&self) -> (r: Vec<(String, String)>)
        ensures
            pairs_view(r@) == request_list_params(*self),
    {
        let mut p: Vec<(String, String)> = Vec::new();
        push_opt(&mut p, "view", &self.view);
        push_opt(&mut p, "userId", &self.user_id);
        push_opt_num(&mut p, "start", self.start);
        push_opt_num(&mut p, "limit", self.limit);
        push_opt(&mut p, "approvedBefore", &self.approved_before);
        push_opt(&mut p, "approvedAfter", &self.approved_after);
        push_opt(&mut p, "modifiedBefore", &self.modified_before);
        push_opt(&mut p, "modifiedAfter", &self.modified_after);
        push_opt(&mut p, "sortField", &self.sort_field);
        push_opt(&mut p, "sortOrder", &self.sort_order);
        assert(pairs_view(p@) =~= request_list_params(*self));
        p
    }
}

/// Path of the request list, with its query.
pub fn request_list_path(query: &RequestListQuery) -> (r: String)
    ensures
        r@ == with_query("/travelrequest/v4/requests"@, request_list_params(*query)),
{
    let mut path = String::from_str("/travelrequest/v4/requests");
    append_query(&mut path, &query.params());
    path
}

/// Path on which requests are created, acting for `user_id` when given.
pub fn requests_path(user_id: Option<&str>) -> (r: String)
    ensures
        r@ == with_user_id("/travelrequest/v4/requests"@, user_id),
{
    let mut path = String::from_str("/travelrequest/v4/requests");
    append_user_id(&mut path, user_id);
    path
}

/// Path of one request, acting for `user_id` when given.
pub fn request_path(request_uuid: &str, user_id: Option<&str>) -> (r: String)
    ensures
        r@ == with_user_id("/travelrequest/v4/requests/"@ + request_uuid@, user_id),
{
    let mut path = concat2("/travelrequest/v4/requests/", request_uuid);
    append_user_id(&mut path, user_id);
    path
}

/// The query parameters of a workflow action, in order, present ones only.
pub open spec fn workflow_action_params(
    comment: Option<&str>,
    user_id: Option<&str>,
    company_id: Option<&str>,
) -> Seq<(Seq<char>, Seq<char>)> {
    opt_str_pair("comment"@, comment) + opt_str_pair("userId"@, user_id) + opt_str_pair(
        "companyID"@,
        company_id,
    )
}

/// The comment, user and company of a workflow action are each sent under their own key
/// when given, whatever the others, and nothing else is sent.
pub proof fn workflow_action_sends_every_given_value(
    comment: Option<&str>,
    user_id: Option<&str>,
    company_id: Option<&str>,
)
    ensures
        ({
            let p = workflow_action_params(comment, user_id, company_id);
            &&& p.len() == present(comment) + present(user_id) + present(company_id)
            &&& comment matches Some(v) ==> p.contains(("comment"@, v@))
            &&& user_id matches Some(v) ==> p.contains(("userId"@, v@))
            &&& company_id matches Some(v) ==> p.contains(("companyID"@, v@))
        }),
{
    broadcast use lemma_seq_concat_contains_all_elements;

    opt_str_pair_holds_its_value("comment"@, comment);
    opt_str_pair_holds_its_value("userId"@, user_id);
    opt_str_pair_holds_its_value("companyID"@, company_id);
}

/// Path of a workflow action (submit, approve, recall, sendback, cancel, close, reopen)
/// on a request, with the comment, user and company as query parameters when given.
pub fn request_action_path(
    request_uuid: &str,
    action: &str,
    comment: Option<&str>,
    user_id: Option<&str>,
    company_id: Option<&str>,
) -> (r: String)
    ensures
        r@ == with_query(
            "/travelrequest/v4/requests/"@ + request_uuid@ + "/"@ + action@,
            workflow_action_params(comment, user_id, company_id),
        ),
{
    let mut path = concat2("/travelrequest/v4/requests/", request_uuid);
    path.append("/");
    path.append(action);
    let mut p: Vec<(String, String)> = Vec::new();
    push_opt_str(&mut p, "comment", comment);
    push_opt_str(&mut p, "userId", user_id);
    push_opt_str(&mut p, "companyID", company_id);
    assert(pairs_view(p@) =~= workflow_action_params(comment, user_id, company_id));
    append_query(&mut path, &p);
    path
}

/// Path of the expected expenses of a request, acting for `user_id` when given.
pub fn expected_expenses_path(request_uuid: &str, user_id: Option<&str>) -> (r: String)
    ensures
        r@ == with_user_id(
            "/travelrequest/v4/requests/"@ + request_uuid@ + "/expenses"@,
            user_id,
        ),
{
    let mut path = concat2("/travelrequest/v4/requests/", request_uuid);
    path.append("/expenses");
    append_user_id(&mut path, user_id);
    path
}

/// Path of one expected expense, acting for `user_id` when given.
pub fn expected_expense_path(expense_uuid: &str, user_id: Option<&str>) -> (r: String)
    ensures
        r@ == with_user_id("/travelrequest/v4/expenses/"@ + expense_uuid@, user_id),
{
    let mut path = concat2("/travelrequest/v4/expenses/", expense_uuid);
    append_user_id(&mut path, user_id);
    path
}

/// Path of an allocation of a request, acting for `user_id` when given.
pub fn allocation_path(request_uuid: &str, allocation_uuid: &str, user_id: Option<&str>) -> (r:
    String)
    ensures
        r@ == with_user_id(
            "/travelrequest/v4/requests/"@ + request_uuid@ + "/allocations/"@ + allocation_uuid@,
            user_id,
        ),
{
    let mut path = concat2("/travelrequest/v4/requests/", request_uuid);
    path.append("/allocations/");
    path.append(allocation_uuid);
    append_user_id(&mut path, user_id);
    path
}

} // verus!
