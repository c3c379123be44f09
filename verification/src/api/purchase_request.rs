//! Purchase Request API v4.

use crate::text::concat2;
use vstd::prelude::*;
use vstd::string::*;

verus! {

/// Path of the purchase request collection, on which requests are created.
pub const PURCHASE_REQUESTS_PATH: &'static str = "/purchaserequest/v4/purchaserequests";

/// Path of one purchase request.
pub fn purchase_request_path(purchase_request_id: &str) -> (r: String)
    ensures
        r@ == "/purchaserequest/v4/purchaserequests/"@ + purchase_request_id@,
{
    concat2("/purchaserequest/v4/purchaserequests/", purchase_request_id)
}

/// Where a created purchase request lives.
#[derive(Debug, Clone)]
pub struct CreatePurchaseResponse {
    pub id: String,
    pub uri: String,
}

} // verus!
