//! The SAP Concur APIs: their data model and the paths of their endpoints.

pub mod cards;
pub mod ess;
pub mod expense;
pub mod identity;
pub mod invoice;
pub mod lists;
pub mod purchase_request;
pub mod receipts;
pub mod request;
