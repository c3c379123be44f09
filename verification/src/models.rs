//! Shared data models used across SAP Concur APIs.

use vstd::prelude::*;

verus! {

/// A monetary amount with currency (naming used by some APIs).
#[derive(Debug, Clone, Default, PartialEq)]
pub struct Amount {
    pub amount: Option<String>,
    pub currency: Option<String>,
}

/// A generic link relation.
#[derive(Debug, Clone, PartialEq)]
pub struct Link {
    pub rel: String,
    pub href: String,
    pub method: Option<String>,
    pub is_templated: Option<bool>,
}

/// Pagination metadata returned by list endpoints.
#[derive(Debug, Clone, PartialEq)]
pub struct Page {
    pub size: u32,
    pub total_elements: u64,
    pub total_pages: u32,
    pub number: u32,
}

/// A named reference (id + name).
#[derive(Debug, Clone, PartialEq)]
pub struct NamedRef {
    pub id: String,
    pub name: String,
}

/// A generic paged response wrapper.
#[derive(Debug, Clone, PartialEq)]
pub struct PagedResponse<T> {
    pub links: Vec<Link>,
    pub content: Vec<T>,
    pub page: Page,
}

/// A custom data field value.
#[derive(Debug, Clone, PartialEq)]
pub struct CustomData {
    pub id: String,
    pub value: String,
    pub is_valid: Option<bool>,
    pub list_item_url: Option<String>,
}

/// Location reference.
#[derive(Debug, Clone, Default, PartialEq)]
pub struct Location {
    pub id: String,
    pub name: String,
    pub city: Option<String>,
    pub country_sub_division_code: Option<String>,
    pub country_code: Option<String>,
}

/// Expense type reference.
#[derive(Debug, Clone, PartialEq)]
pub struct ExpenseType {
    pub id: String,
    pub name: String,
    pub code: Option<String>,
    pub is_deleted: Option<bool>,
}

/// Payment type reference.
#[derive(Debug, Clone, PartialEq)]
pub struct PaymentType {
    pub id: String,
    pub name: String,
    pub code: String,
}

/// Vendor reference.
#[derive(Debug, Clone, Default, PartialEq)]
pub struct Vendor {
    pub id: Option<String>,
    pub name: Option<String>,
    pub description: Option<String>,
}

/// Status reference with code and name.
#[derive(Debug, Clone, PartialEq)]
pub struct StatusRef {
    pub code: String,
    pub name: String,
}

/// Owner / user reference.
#[derive(Debug, Clone, PartialEq)]
pub struct OwnerRef {
    pub id: String,
    pub first_name: Option<String>,
    pub last_name: Option<String>,
}

/// A SCIM-style user name.
#[derive(Debug, Clone, Default, PartialEq)]
pub struct UserName {
    pub formatted: Option<String>,
    pub family_name: Option<String>,
    pub given_name: Option<String>,
}

/// A SCIM email entry.
#[derive(Debug, Clone, Default, PartialEq)]
pub struct Email {
    pub value: String,
    pub type_: Option<String>,
    pub verified: Option<bool>,
    pub notifications: Option<bool>,
}

/// A SCIM address entry.
#[derive(Debug, Clone, Default, PartialEq)]
pub struct Address {
    pub type_: Option<String>,
    pub street_address: Option<String>,
    pub locality: Option<String>,
    pub region: Option<String>,
    pub postal_code: Option<String>,
    pub country: Option<String>,
}

} // verus!
