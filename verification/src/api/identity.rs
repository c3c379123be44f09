//! Identity API v4.1 (`profile/identity/v4.1/Users`).

use crate::text::{
    concat2, decimal, opt_num_pair, opt_str_pair, percent_encode, push_char,
    decimal_is_digits, digits_encode_as_themselves, query_text_joins_parameters, u32_to_string, url_encode, with_query,
};
use vstd::prelude::*;
use vstd::string::*;

verus! {

/// Path of the user collection, on which users are also created.
pub const USERS_PATH: &'static str = "/profile/identity/v4.1/Users";

/// Path on which users are searched.
pub const USER_SEARCH_PATH: &'static str = "/profile/identity/v4.1/Users/.search";

/// Schema of a user search request.
pub const SEARCH_REQUEST_SCHEMA: &'static str =
    "urn:ietf:params:scim:api:messages:concur:2.0:SearchRequest";

/// Schema of a user patch request.
pub const PATCH_OP_SCHEMA: &'static str = "urn:ietf:params:scim:api:messages:2.0:PatchOp";

/// The query of a user list: `count` in decimal, then the percent-encoded `cursor`,
/// present ones only.
pub open spec fn users_query(count: Option<u32>, cursor: Option<&str>) -> Seq<char> {
    match (count, cursor) {
        (None, None) => seq![],
        (Some(c), None) => seq!['?'] + "count="@ + decimal(c as nat),
        (None, Some(k)) => seq!['?'] + "cursor="@ + percent_encode(k@),
        (Some(c), Some(k)) => seq!['?'] + "count="@ + decimal(c as nat) + seq!['&'] + "cursor="@
            + percent_encode(k@),
    }
}

/// The user list's query is an ordinary query string: the page size under `count`, in
/// decimal, then the cursor under `cursor`, percent-encoded, each only when given.
pub proof fn users_query_is_a_query_string(path: Seq<char>, count: Option<u32>, cursor: Option<&str>)
    ensures
        path + users_query(count, cursor) == with_query(
            path,
            opt_num_pair("count"@, count) + opt_str_pair("cursor"@, cursor),
        ),
{
    let ps = opt_num_pair("count"@, count) + opt_str_pair("cursor"@, cursor);
    if let Some(c) = count {
        decimal_is_digits(c as nat);
        digits_encode_as_themselves(decimal(c as nat));
    }
    reveal_strlit("count");
    reveal_strlit("count=");
    reveal_strlit("cursor");
    reveal_strlit("cursor=");
    match (count, cursor) {
        (None, None) => {
            assert(ps.len() == 0);
            assert(path + users_query(count, cursor) =~= path);
        },
        (Some(c), None) => {
            assert(ps =~= seq![("count"@, decimal(c as nat))]);
            query_text_joins_parameters(ps, ps, ("count"@, decimal(c as nat)));
            assert(path + users_query(count, cursor) =~= with_query(path, ps));
        },
        (None, Some(k)) => {
            assert(ps =~= seq![("cursor"@, k@)]);
            query_text_joins_parameters(ps, ps, ("cursor"@, k@));
            assert(path + users_query(count, cursor) =~= with_query(path, ps));
        },
        (Some(c), Some(k)) => {
            let a = seq![("count"@, decimal(c as nat))];
            let b = seq![("cursor"@, k@)];
            assert(ps =~= a + b);
            query_text_joins_parameters(a, b, ("count"@, decimal(c as nat)));
            query_text_joins_parameters(a, b, ("cursor"@, k@));
            assert(path + users_query(count, cursor) =~= with_query(path, ps));
        },
    }
}

/// Path of the user list, with page size and cursor when given.
pub fn users_list_path(count: Option<u32>, cursor: Option<&str>) -> (r: String)
    ensures
        r@ == "/profile/identity/v4.1/Users"@ + users_query(count, cursor),
{
    let mut path = String::from_str("/profile/identity/v4.1/Users");
    let mut sep = '?';
    if let Some(c) = count {
        push_char(&mut path, sep);
        path.append("count=");
        let digits = u32_to_string(c);
        path.append(digits.as_str());
        sep = '&';
    }
    if let Some(k) = cursor {
        push_char(&mut path, sep);
        path.append("cursor=");
        let e = url_encode(k);
        path.append(e.as_str());
    }
    assert(path@ =~= "/profile/identity/v4.1/Users"@ + users_query(count, cursor));
    path
}

/// Path of one user.
pub fn user_path(id: &str) -> (r: String)
    ensures
        r@ == "/profile/identity/v4.1/Users/"@ + id@,
{
    concat2("/profile/identity/v4.1/Users/", id)
}

/// A user search request.
#[derive(Debug, Clone)]
pub struct SearchRequest {
    pub schemas: Vec<String>,
    pub filter: String,
    pub attributes: Option<Vec<String>>,
}

impl SearchRequest {
    /// A search with the given filter and attributes, under the search request schema.
    pub fn new(filter: &str, attributes: Option<Vec<String>>) -> (r: Self)
        ensures
            r.schemas@.len() == 1,
            r.schemas@[0]@ == SEARCH_REQUEST_SCHEMA@,
            r.filter@ == filter@,
            r.attributes == attributes,
    {
        let mut schemas: Vec<String> = Vec::new();
        schemas.push(String::from_str(SEARCH_REQUEST_SCHEMA));
        SearchRequest { schemas, filter: String::from_str(filter), attributes }
    }
}

} // verus!
