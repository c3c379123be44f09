//! Invoice Pay API v4.

use crate::text::{
    append_query, concat2, opt_pair, opt_pair_holds_its_value, pairs_view, present, push_opt,
    with_query,
};
use vstd::seq_lib::lemma_seq_concat_contains_all_elements;
use vstd::prelude::*;
use vstd::string::*;

verus! {

/// Path on which payments are updated in bulk.
pub const BULK_UPDATE_PATH: &'static str = "/invoice/provider-payment/v4/payments/bulkUpdate";

/// Filters of the pending payment list.
#[derive(Debug, Clone, Default)]
pub struct PaymentQuery {
    pub invoice_id: Option<String>,
    pub invoice_date: Option<String>,
    pub create_date: Option<String>,
    pub vendor_name: Option<String>,
    pub vendor_code: Option<String>,
    pub vendor_addr_code: Option<String>,
    pub payment_status: Option<String>,
    pub payment_group: Option<String>,
    pub invoice_number: Option<String>,
    pub payment_id: Option<String>,
}

/// The query parameters of a payment list, in order, present ones only.
pub open spec fn payment_params(q: PaymentQuery) -> Seq<(Seq<char>, Seq<char>)> {
    opt_pair("invoiceId"@, q.invoice_id) + opt_pair("invoiceDate"@, q.invoice_date) + opt_pair(
        "createDate"@,
        q.create_date,
    ) + opt_pair("vendorName"@, q.vendor_name) + opt_pair("vendorCode"@, q.vendor_code)
        + opt_pair("vendorAddrCode"@, q.vendor_addr_code) + opt_pair(
        "PaymentStatus"@,
        q.payment_status,
    ) + opt_pair("PaymentGroup"@, q.payment_group) + opt_pair(
        "invoiceNumber"@,
        q.invoice_number,
    ) + opt_pair("paymentId"@, q.payment_id)
}

/// Every payment filter that is set is sent under its own key, whatever the other fields
/// hold, and nothing else is sent: one parameter per field that is set.
pub proof fn payment_query_sends_every_set_field(q: PaymentQuery)
    ensures
        ({
            let p = payment_params(q);
            &&& p.len() == present(q.invoice_id) + present(q.invoice_date)
                + present(q.create_date) + present(q.vendor_name) + present(q.vendor_code)
                + present(q.vendor_addr_code) + present(q.payment_status)
                + present(q.payment_group) + present(q.invoice_number) + present(q.payment_id)
            &&& q.invoice_id matches Some(v) ==> p.contains(("invoiceId"@, v@))
            &&& q.invoice_date matches Some(v) ==> p.contains(("invoiceDate"@, v@))
            &&& q.create_date matches Some(v) ==> p.contains(("createDate"@, v@))
            &&& q.vendor_name matches Some(v) ==> p.contains(("vendorName"@, v@))
            &&& q.vendor_code matches Some(v) ==> p.contains(("vendorCode"@, v@))
            &&& q.vendor_addr_code matches Some(v) ==> p.contains(("vendorAddrCode"@, v@))
            &&& q.payment_status matches Some(v) ==> p.contains(("PaymentStatus"@, v@))
            &&& q.payment_group matches Some(v) ==> p.contains(("PaymentGroup"@, v@))
            &&& q.invoice_number matches Some(v) ==> p.contains(("invoiceNumber"@, v@))
            &&& q.payment_id matches Some(v) ==> p.contains(("paymentId"@, v@))
        }),
{
    broadcast use lemma_seq_concat_contains_all_elements;

    opt_pair_holds_its_value("invoiceId"@, q.invoice_id);
    opt_pair_holds_its_value("invoiceDate"@, q.invoice_date);
    opt_pair_holds_its_value("createDate"@, q.create_date);
    opt_pair_holds_its_value("vendorName"@, q.vendor_name);
    opt_pair_holds_its_value("vendorCode"@, q.vendor_code);
    opt_pair_holds_its_value("vendorAddrCode"@, q.vendor_addr_code);
    opt_pair_holds_its_value("PaymentStatus"@, q.payment_status);
    opt_pair_holds_its_value("PaymentGroup"@, q.payment_group);
    opt_pair_holds_its_value("invoiceNumber"@, q.invoice_number);
    opt_pair_holds_its_value("paymentId"@, q.payment_id);
}

impl PaymentQuery {
    /// The query parameters, in order, present ones only.
    pub fn params(&self) -> (r: Vec<(String, String)>)
        ensures
            pairs_view(r@) == payment_params(*self),
    {
        let mut p: Vec<(String, String)> = Vec::new();
        push_opt(&mut p, "invoiceId", &self.invoice_id);
        push_opt(&mut p, "invoiceDate", &self.invoice_date);
        push_opt(&mut p, "createDate", &self.create_date);
        push_opt(&mut p, "vendorName", &self.vendor_name);
        push_opt(&mut p, "vendorCode", &self.vendor_code);
        push_opt(&mut p, "vendorAddrCode", &self.vendor_addr_code);
        push_opt(&mut p, "PaymentStatus", &self.payment_status);
        push_opt(&mut p, "PaymentGroup", &self.payment_group);
        push_opt(&mut p, "invoiceNumber", &self.invoice_number);
        push_opt(&mut p, "paymentId", &self.payment_id);
        assert(pairs_view(p@) =~= payment_params(*self));
        p
    }
}

/// Path of the pending payments, with the query.
pub fn payments_path(query: &PaymentQuery) -> (r: String)
    ensures
        r@ == with_query("/invoice/provider-payment/v4/payments"@, payment_params(*query)),
{
    let mut p = String::from_str("/invoice/provider-payment/v4/payments");
    append_query(&mut p, &query.params());
    p
}

/// Path on which one payment's status is updated.
pub fn payment_path(payment_id: &str) -> (r: String)
    ensures
        r@ == "/invoice/provider-payment/v4/payments/"@ + payment_id@,
{
    concat2("/invoice/provider-payment/v4/payments/", payment_id)
}

/// The outcome of a payment update.
#[derive(Debug, Clone)]
pub struct PaymentUpdateResult {
    pub payment_id: String,
    pub status: String,
    pub status_message: Option<String>,
    pub status_date: Option<String>,
}

} // verus!
