use concur_api::api::cards::{
    accounts_bulk_path, bulk_request_path, transactions_bulk_path, user_transactions_path,
    TransactionQuery,
};
use concur_api::api::ess::{deletion_result, subscription_path};
use concur_api::api::expense::{
    cost_objects_path, expense_collection_path, expense_path, form_fields_path,
    itemizations_path, report_action_path, report_collection_path, report_path, submit_path,
    ReportAction,
};
use concur_api::api::identity::{user_path, users_list_path, SearchRequest, SEARCH_REQUEST_SCHEMA};
use concur_api::api::invoice::{payment_path, payments_path, PaymentQuery};
use concur_api::api::lists::{item_path, list_item_path, list_path, lists_path};
use concur_api::api::purchase_request::purchase_request_path;
use concur_api::api::receipts::{
    described_by_link, receipt_image_path, receipt_path, schemas_path, status_path,
    user_receipts_path,
};
use concur_api::api::request::{
    allocation_path, expected_expense_path, expected_expenses_path, request_action_path,
    request_list_path, request_path, requests_path, RequestListQuery,
};
use concur_api::text::{append_query, url_encode};

#[test]
fn expense_paths() {
    assert_eq!(report_collection_path("u1", "TRAVELER"), "/expensereports/v4/users/u1/context/TRAVELER/reports");
    assert_eq!(report_path("u1", "TRAVELER", "R9"), "/expensereports/v4/users/u1/context/TRAVELER/reports/R9");
    assert_eq!(
        expense_collection_path("u", "c", "r"),
        "/expensereports/v4/users/u/context/c/reports/r/expenses"
    );
    assert_eq!(expense_path("u", "c", "r", "e"), "/expensereports/v4/users/u/context/c/reports/r/expenses/e");
    assert_eq!(
        itemizations_path("u", "c", "r", "e"),
        "/expensereports/v4/users/u/context/c/reports/r/expenses/e/itemizations"
    );
    assert_eq!(form_fields_path("r", None), "/expensereports/v4/reports/r/formFields");
    assert_eq!(form_fields_path("r", Some("p 1")), "/expensereports/v4/reports/r/formFields?policyId=p%201");
    assert_eq!(submit_path("u", "r"), "/expensereports/v4/users/u/reports/r/submit");
    assert_eq!(cost_objects_path("u", "r"), "/expensereports/v4/users/u/reports/r/costObjectsForApprover");
}

#[test]
fn report_actions() {
    assert_eq!(ReportAction::Approve.path(), "approve");
    assert_eq!(ReportAction::SendBack.path(), "sendBack");
    assert_eq!(ReportAction::Recall.path(), "recall");
    assert_eq!(
        report_action_path("r", ReportAction::SendBack, Some("u"), Some("MANAGER")),
        "/expensereports/v4/users/u/context/MANAGER/reports/r/sendBack"
    );
    assert_eq!(report_action_path("r", ReportAction::Approve, Some("u"), None), "/expensereports/v4/reports/r/approve");
    assert_eq!(report_action_path("r", ReportAction::Recall, None, None), "/expensereports/v4/reports/r/recall");
}

#[test]
fn request_paths() {
    assert_eq!(request_list_path(&RequestListQuery::default()), "/travelrequest/v4/requests");
    let q = RequestListQuery {
        view: Some("ALL".to_string()),
        start: Some(20),
        limit: Some(5),
        sort_order: Some("DESC".to_string()),
        ..Default::default()
    };
    assert_eq!(request_list_path(&q), "/travelrequest/v4/requests?view=ALL&start=20&limit=5&sortOrder=DESC");
    assert_eq!(requests_path(None), "/travelrequest/v4/requests");
    assert_eq!(requests_path(Some("a@b.c")), "/travelrequest/v4/requests?userId=a%40b.c");
    assert_eq!(request_path("q1", None), "/travelrequest/v4/requests/q1");
    assert_eq!(request_path("q1", Some("u")), "/travelrequest/v4/requests/q1?userId=u");
    assert_eq!(request_action_path("q1", "submit", None, None, None), "/travelrequest/v4/requests/q1/submit");
    assert_eq!(
        request_action_path("q1", "approve", Some("ok & done"), Some("u"), Some("c")),
        "/travelrequest/v4/requests/q1/approve?comment=ok%20%26%20done&userId=u&companyID=c"
    );
    assert_eq!(expected_expenses_path("q1", None), "/travelrequest/v4/requests/q1/expenses");
    assert_eq!(expected_expense_path("e1", Some("u")), "/travelrequest/v4/expenses/e1?userId=u");
    assert_eq!(allocation_path("q1", "a1", None), "/travelrequest/v4/requests/q1/allocations/a1");
}

#[test]
fn card_paths() {
    assert_eq!(accounts_bulk_path("co"), "/cards/v4/companies/co/accounts/bulk");
    assert_eq!(transactions_bulk_path("co"), "/cards/v4/companies/co/transactions/bulk");
    assert_eq!(bulk_request_path("co", "b"), "/cards/v4/companies/co/bulkrequests/b");
    assert_eq!(user_transactions_path("u", &TransactionQuery::default()), "/cards/v4/users/u/transactions");
    let q = TransactionQuery {
        status: Some("UN".to_string()),
        page_size: Some(100),
        include_addendum_details_for: Some("a,b".to_string()),
        ..Default::default()
    };
    assert_eq!(
        user_transactions_path("u", &q),
        "/cards/v4/users/u/transactions?status=UN&pageSize=100&includeAddendumDetailsFor=a%2Cb"
    );
}

#[test]
fn invoice_paths() {
    assert_eq!(payments_path(&PaymentQuery::default()), "/invoice/provider-payment/v4/payments");
    let q = PaymentQuery {
        vendor_name: Some("Acme Ltd.".to_string()),
        payment_status: Some("PAID".to_string()),
        payment_id: Some("p/1".to_string()),
        ..Default::default()
    };
    assert_eq!(
        payments_path(&q),
        "/invoice/provider-payment/v4/payments?vendorName=Acme%20Ltd.&PaymentStatus=PAID&paymentId=p%2F1"
    );
    assert_eq!(payment_path("p1"), "/invoice/provider-payment/v4/payments/p1");
}

#[test]
fn list_paths() {
    assert_eq!(lists_path(None, None, None, None), "/list/v4/lists");
    assert_eq!(
        lists_path(Some(2), Some("name"), Some("asc"), Some(vec![("category", "x y"), ("isDeleted", "false")])),
        "/list/v4/lists?page=2&sortBy=name&sortDirection=asc&category=x%20y&isDeleted=false"
    );
    assert_eq!(lists_path(None, None, None, Some(vec![])), "/list/v4/lists");
    assert_eq!(list_path("L"), "/list/v4/lists/L");
    assert_eq!(item_path("I"), "/list/v4/items/I");
    assert_eq!(list_item_path("L", "I"), "/list/v4/lists/L/items/I");
}

#[test]
fn identity_paths() {
    assert_eq!(users_list_path(None, None), "/profile/identity/v4.1/Users");
    assert_eq!(users_list_path(Some(50), None), "/profile/identity/v4.1/Users?count=50");
    assert_eq!(users_list_path(None, Some("a+b")), "/profile/identity/v4.1/Users?cursor=a%2Bb");
    assert_eq!(users_list_path(Some(0), Some("x")), "/profile/identity/v4.1/Users?count=0&cursor=x");
    assert_eq!(user_path("id1"), "/profile/identity/v4.1/Users/id1");
    let s = SearchRequest::new("userName eq \"a\"", Some(vec!["id".to_string()]));
    assert_eq!(s.schemas, vec![SEARCH_REQUEST_SCHEMA.to_string()]);
    assert_eq!(s.filter, "userName eq \"a\"");
    assert_eq!(s.attributes, Some(vec!["id".to_string()]));
}

#[test]
fn ess_and_purchase_paths() {
    assert_eq!(subscription_path("s1"), "/events/v4/subscriptions/s1");
    assert_eq!(deletion_result("s1").message, "Subscription 's1' marked for deletion");
    assert_eq!(purchase_request_path("p"), "/purchaserequest/v4/purchaserequests/p");
}

#[test]
fn receipt_paths() {
    assert_eq!(schemas_path(None), "/receipts/schemas");
    assert_eq!(schemas_path(Some("s")), "/receipts/schemas/s");
    assert_eq!(status_path("r"), "/receipts/v4/status/r");
    assert_eq!(user_receipts_path("u"), "/receipts/v4/users/u");
    assert_eq!(receipt_path("r"), "/receipts/v4/r");
    assert_eq!(receipt_image_path("r"), "/receipts/v4/r/image");
    assert_eq!(described_by_link("https://s/x"), "<https://s/x>;rel=describedBy");
}

#[test]
fn percent_encoding() {
    assert_eq!(url_encode("AZaz09-._~"), "AZaz09-._~");
    assert_eq!(url_encode("a b&c=d?e#f/g+h"), "a%20b%26c%3Dd%3Fe%23f%2Fg%2Bh");
    assert_eq!(url_encode("é"), "%C3%A9");
    assert_eq!(url_encode(""), "");
    for s in ["&", "=", "?", "#", "/", "+", " ", "a&b=c"] {
        let e = url_encode(s);
        assert!(!e.contains(['&', '=', '?', '#', '/', '+', ' ']));
    }
}

#[test]
fn query_building() {
    let mut p = "/x".to_string();
    append_query(&mut p, &vec![]);
    assert_eq!(p, "/x");
    append_query(&mut p, &vec![("k".to_string(), "v v".to_string()), ("a b".to_string(), "1".to_string())]);
    assert_eq!(p, "/x?k=v%20v&a b=1");
}
