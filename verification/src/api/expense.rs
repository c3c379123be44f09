//! Expense APIs v4: reports, expenses (entries) and workflow.

use crate::models::CustomData;
use crate::text::{append_query, concat3, opt_str_pair, pairs_view, push_opt_str, with_query};
use vstd::prelude::*;
use vstd::string::*;

verus! {

/// Path of a user's reports in a context: `/expensereports/v4/users/{user}/context/{context}/reports`.
pub open spec fn spec_report_collection_path(user_id: Seq<char>, context: Seq<char>) -> Seq<char> {
    "/expensereports/v4/users/"@ + user_id + "/context/"@ + context + "/reports"@
}

/// Path of a user's reports in a context (Expense Reports API).
pub fn report_collection_path(user_id: &str, context: &str) -> (r: String)
    ensures
        r@ == spec_report_collection_path(user_id@, context@),
{
    let mut p = concat3("/expensereports/v4/users/", user_id, "/context/");
    p.append(context);
    p.append("/reports");
    p
}

/// Path of one report.
pub fn report_path(user_id: &str, context: &str, report_id: &str) -> (r: String)
    ensures
        r@ == spec_report_collection_path(user_id@, context@) + "/"@ + report_id@,
{
    let mut p = report_collection_path(user_id, context);
    p.append("/");
    p.append(report_id);
    p
}

/// Path of the configured form fields of a report, for a policy when given.
pub fn form_fields_path(report_id: &str, policy_id: Option<&str>) -> (r: String)
    ensures
        r@ == with_query(
            "/expensereports/v4/reports/"@ + report_id@ + "/formFields"@,
            opt_str_pair("policyId"@, policy_id),
        ),
{
    let mut p = concat3("/expensereports/v4/reports/", report_id, "/formFields");
    let mut q: Vec<(String, String)> = Vec::new();
    push_opt_str(&mut q, "policyId", policy_id);
    assert(pairs_view(q@) =~= opt_str_pair("policyId"@, policy_id));
    append_query(&mut p, &q);
    p
}

/// Path of the expenses on a report.
pub open spec fn spec_expense_collection_path(
    user_id: Seq<char>,
    context: Seq<char>,
    report_id: Seq<char>,
) -> Seq<char> {
    spec_report_collection_path(user_id, context) + "/"@ + report_id + "/expenses"@
}

/// Path of the expenses on a report (Expenses API).
pub fn expense_collection_path(user_id: &str, context: &str, report_id: &str) -> (r: String)
    ensures
        r@ == spec_expense_collection_path(user_id@, context@, report_id@),
{
    let mut p = report_path(user_id, context, report_id);
    p.append("/expenses");
    p
}

/// Path of one expense on a report.
pub fn expense_path(user_id: &str, context: &str, report_id: &str, expense_id: &str) -> (r: String)
    ensures
        r@ == spec_expense_collection_path(user_id@, context@, report_id@) + "/"@ + expense_id@,
{
    let mut p = expense_collection_path(user_id, context, report_id);
    p.append("/");
    p.append(expense_id);
    p
}

/// Path of the itemizations of an expense.
pub fn itemizations_path(user_id: &str, context: &str, report_id: &str, expense_id: &str) -> (r:
    String)
    ensures
        r@ == spec_expense_collection_path(user_id@, context@, report_id@) + "/"@ + expense_id@
            + "/itemizations"@,
{
    let mut p = expense_path(user_id, context, report_id, expense_id);
    p.append("/itemizations");
    p
}

/// A workflow action on a report.
#[derive(Debug, Clone, Copy)]
pub enum ReportAction {
    Approve,
    SendBack,
    Recall,
}

/// The path segment of a workflow action.
pub open spec fn action_segment(a: ReportAction) -> Seq<char> {
    match a {
        ReportAction::Approve => "approve"@,
        ReportAction::SendBack => "sendBack"@,
        ReportAction::Recall => "recall"@,
    }
}

impl ReportAction {
    /// The path segment of the action: `approve`, `sendBack` or `recall`.
    pub fn path(&self) -> (r: &'static str)
        ensures
            r@ == action_segment(*self),
    {
        match self {
            ReportAction::Approve => "approve",
            ReportAction::SendBack => "sendBack",
            ReportAction::Recall => "recall",
        }
    }
}

/// Path of a workflow action on a report: under the user and context when both are
/// given, else the report's short path.
pub fn report_action_path(
    report_id: &str,
    action: ReportAction,
    user_id: Option<&str>,
    context: Option<&str>,
) -> (r: String)
    ensures
        r@ == match (user_id, context) {
            (Some(u), Some(c)) => spec_report_collection_path(u@, c@) + "/"@ + report_id@ + "/"@
                + action_segment(action),
            _ => "/expensereports/v4/reports/"@ + report_id@ + "/"@ + action_segment(action),
        },
{
    match (user_id, context) {
        (Some(uid), Some(ctx)) => {
            let mut p = report_path(uid, ctx, report_id);
            p.append("/");
            p.append(action.path());
            p
        },
        _ => {
            let mut p = concat3("/expensereports/v4/reports/", report_id, "/");
            p.append(action.path());
            p
        },
    }
}

/// Path on which a user submits a report.
pub fn submit_path(user_id: &str, report_id: &str) -> (r: String)
    ensures
        r@ == "/expensereports/v4/users/"@ + user_id@ + "/reports/"@ + report_id@ + "/submit"@,
{
    let mut p = concat3("/expensereports/v4/users/", user_id, "/reports/");
    p.append(report_id);
    p.append("/submit");
    p
}

/// Path of the cost objects of a report for its approver.
pub fn cost_objects_path(user_id: &str, report_id: &str) -> (r: String)
    ensures
        r@ == "/expensereports/v4/users/"@ + user_id@ + "/reports/"@ + report_id@
            + "/costObjectsForApprover"@,
{
    let mut p = concat3("/expensereports/v4/users/", user_id, "/reports/");
    p.append(report_id);
    p.append("/costObjectsForApprover");
    p
}

/// The body of a workflow action.
#[derive(Debug, Clone, Default)]
pub struct WorkflowRequest {
    pub comment: Option<String>,
    pub expense_rejected_comment: Option<String>,
    pub expected_step_code: Option<String>,
    pub expected_step_sequence: Option<String>,
    pub status_id: Option<String>,
}

/// A new report, or the fields of a report to change.
#[derive(Debug, Clone, Default)]
pub struct CreateReport {
    pub name: Option<String>,
    pub business_purpose: Option<String>,
    pub comment: Option<String>,
    pub country_code: Option<String>,
    pub country_sub_division_code: Option<String>,
    pub policy_id: Option<String>,
    pub report_source: Option<String>,
    pub custom_data: Option<Vec<CustomData>>,
}

/// Where a created report lives.
#[derive(Debug, Clone)]
pub struct CreateReportResponse {
    pub uri: String,
}

/// Where a created expense lives.
#[derive(Debug, Clone)]
pub struct CreateExpenseResponse {
    pub uri: String,
}

/// A configured form field of a report.
#[derive(Debug, Clone)]
pub struct FormField {
    pub field_id: String,
    pub field_name: Option<String>,
    pub control_type: Option<String>,
    pub data_type: Option<String>,
    pub field_access: Option<String>,
    pub is_required: Option<bool>,
    pub list_id: Option<String>,
}

} // verus!
