//! Receipts API v4.

use crate::text::{concat2, concat3};
use vstd::prelude::*;
use vstd::string::*;

verus! {

/// Path of the service index.
pub const INDEX_PATH: &'static str = "/receipts/";

/// Path of the supported receipt schemas, or of one schema when given.
pub fn schemas_path(schema_id: Option<&str>) -> (r: String)
    ensures
        r@ == match schema_id {
            Some(id) => "/receipts/schemas/"@ + id@,
            None => "/receipts/schemas"@,
        },
{
    match schema_id {
        Some(id) => concat2("/receipts/schemas/", id),
        None => String::from_str("/receipts/schemas"),
    }
}

/// Path of the processing status of a receipt.
pub fn status_path(receipt_id: &str) -> (r: String)
    ensures
        r@ == "/receipts/v4/status/"@ + receipt_id@,
{
    concat2("/receipts/v4/status/", receipt_id)
}

/// Path of a user's receipts, on which receipts are also posted.
pub fn user_receipts_path(user_id: &str) -> (r: String)
    ensures
        r@ == "/receipts/v4/users/"@ + user_id@,
{
    concat2("/receipts/v4/users/", user_id)
}

/// Path of one receipt.
pub fn receipt_path(receipt_id: &str) -> (r: String)
    ensures
        r@ == "/receipts/v4/"@ + receipt_id@,
{
    concat2("/receipts/v4/", receipt_id)
}

/// Path of the image of a receipt.
pub fn receipt_image_path(receipt_id: &str) -> (r: String)
    ensures
        r@ == "/receipts/v4/"@ + receipt_id@ + "/image"@,
{
    concat3("/receipts/v4/", receipt_id, "/image")
}

/// The `link` header that names the schema of a posted receipt:
/// `<schema_url>;rel=describedBy`.
pub fn described_by_link(schema_url: &str) -> (r: String)
    ensures
        r@ == "<"@ + schema_url@ + ">;rel=describedBy"@,
{
    concat3("<", schema_url, ">;rel=describedBy")
}

/// The service index.
#[derive(Debug, Clone)]
pub struct ReceiptIndex {
    pub links: Vec<ReceiptLink>,
}

/// A link of the service index.
#[derive(Debug, Clone)]
pub struct ReceiptLink {
    pub rel: String,
    pub href: String,
    pub method: Option<String>,
}

/// The processing status of a receipt.
#[derive(Debug, Clone)]
pub struct ReceiptStatus {
    pub status: String,
    pub logs: Vec<ReceiptLog>,
}

/// One entry of a receipt's processing log.
#[derive(Debug, Clone)]
pub struct ReceiptLog {
    pub log_level: String,
    pub message: String,
    pub timestamp: String,
}

/// What posting a receipt returns: its `location` and `link` headers.
#[derive(Debug, Clone, Default)]
pub struct PostReceiptResponse {
    pub location: Option<String>,
    pub link: Option<String>,
}

} // verus!
