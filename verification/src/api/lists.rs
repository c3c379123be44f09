//! Lists API v4 and List Items API v4.

use crate::text::{
    append_query, concat2, concat3, decimal, opt_num_pair, opt_num_pair_holds_its_value,
    opt_str_pair, opt_str_pair_holds_its_value, pairs_view, present, push_opt_num, push_opt_str,
    push_pair, with_query,
};
use vstd::seq_lib::lemma_seq_concat_contains_all_elements;
use vstd::prelude::*;
use vstd::string::*;

verus! {

/// Path of the list collection, on which lists are also created.
pub const LISTS_PATH: &'static str = "/list/v4/lists";

/// Path of the list item collection, on which items are also created.
pub const ITEMS_PATH: &'static str = "/list/v4/items";

/// Borrowed key/value pairs viewed as pairs of texts.
pub open spec fn str_pairs_view(v: Seq<(&str, &str)>) -> Seq<(Seq<char>, Seq<char>)> {
    v.map_values(|p: (&str, &str)| (p.0@, p.1@))
}

/// The query parameters of the list collection, in order: page, sort field, sort
/// direction (present ones only), then the filters as given.
pub open spec fn list_params(
    page: Option<u32>,
    sort_by: Option<&str>,
    sort_direction: Option<&str>,
    filters: Option<Seq<(&str, &str)>>,
) -> Seq<(Seq<char>, Seq<char>)> {
    opt_num_pair("page"@, page) + opt_str_pair("sortBy"@, sort_by) + opt_str_pair(
        "sortDirection"@,
        sort_direction,
    ) + match filters {
        Some(f) => str_pairs_view(f),
        None => seq![],
    }
}

/// The page, sort field and sort direction are each sent under their own key when given,
/// whatever the others, and the filters follow them, every one as given and in order;
/// nothing else is sent.
pub proof fn list_query_sends_every_given_value(
    page: Option<u32>,
    sort_by: Option<&str>,
    sort_direction: Option<&str>,
    filters: Option<Seq<(&str, &str)>>,
)
    ensures
        ({
            let p = list_params(page, sort_by, sort_direction, filters);
            let n = match filters {
                Some(f) => f.len() as int,
                None => 0,
            };
            &&& p.len() == present(page) + present(sort_by) + present(sort_direction) + n
            &&& page matches Some(k) ==> p.contains(("page"@, decimal(k as nat)))
            &&& sort_by matches Some(v) ==> p.contains(("sortBy"@, v@))
            &&& sort_direction matches Some(v) ==> p.contains(("sortDirection"@, v@))
            &&& filters matches Some(f) ==> forall|i: int|
                0 <= i < f.len() ==> #[trigger] p[p.len() - f.len() + i] == (f[i].0@, f[i].1@)
        }),
{
    broadcast use lemma_seq_concat_contains_all_elements;

    opt_num_pair_holds_its_value("page"@, page);
    opt_str_pair_holds_its_value("sortBy"@, sort_by);
    opt_str_pair_holds_its_value("sortDirection"@, sort_direction);
    let head = opt_num_pair("page"@, page) + opt_str_pair("sortBy"@, sort_by) + opt_str_pair(
        "sortDirection"@,
        sort_direction,
    );
    let p = list_params(page, sort_by, sort_direction, filters);
    if let Some(f) = filters {
        assert(p =~= head + str_pairs_view(f));
        assert forall|i: int| 0 <= i < f.len() implies #[trigger] p[p.len() - f.len() + i] == (
            f[i].0@,
            f[i].1@,
        ) by {
            assert(p[head.len() + i] == str_pairs_view(f)[i]);
        }
    } else {
        assert(p =~= head);
    }
}

/// Path of the list collection with paging, sorting and filters.
pub fn lists_path(
    page: Option<u32>,
    sort_by: Option<&str>,
    sort_direction: Option<&str>,
    filters: Option<Vec<(&str, &str)>>,
) -> (r: String)
    ensures
        r@ == with_query(
            "/list/v4/lists"@,
            list_params(
                page,
                sort_by,
                sort_direction,
                match filters {
                    Some(f) => Some(f@),
                    None => None,
                },
            ),
        ),
{
    let mut p: Vec<(String, String)> = Vec::new();
    push_opt_num(&mut p, "page", page);
    push_opt_str(&mut p, "sortBy", sort_by);
    push_opt_str(&mut p, "sortDirection", sort_direction);
    let ghost head = pairs_view(p@);
    assert(head =~= opt_num_pair("page"@, page) + opt_str_pair("sortBy"@, sort_by) + opt_str_pair(
        "sortDirection"@,
        sort_direction,
    ));
    match filters {
        Some(f) => {
            let n = f.len();
            let mut i: usize = 0;
            while i < n
                invariant
                    n == f@.len(),
                    0 <= i <= n,
                    pairs_view(p@) == head + str_pairs_view(f@.take(i as int)),
                decreases n - i,
            {
                let (k, v) = f[i];
                push_pair(&mut p, k, String::from_str(v));
                assert(f@.take(i + 1) =~= f@.take(i as int).push((k, v)));
                assert(str_pairs_view(f@.take(i + 1)) =~= str_pairs_view(f@.take(i as int)).push(
                    (k@, v@),
                ));
                i = i + 1;
            }
            assert(f@.take(n as int) =~= f@);
        },
        None => {
            assert(head + seq![] =~= head);
        },
    }
    let mut path = String::from_str("/list/v4/lists");
    append_query(&mut path, &p);
    path
}

/// Path of one list.
pub fn list_path(list_id: &str) -> (r: String)
    ensures
        r@ == "/list/v4/lists/"@ + list_id@,
{
    concat2("/list/v4/lists/", list_id)
}

/// Path of one list item.
pub fn item_path(item_id: &str) -> (r: String)
    ensures
        r@ == "/list/v4/items/"@ + item_id@,
{
    concat2("/list/v4/items/", item_id)
}

/// Path of an item within one list.
pub fn list_item_path(list_id: &str, item_id: &str) -> (r: String)
    ensures
        r@ == "/list/v4/lists/"@ + list_id@ + "/items/"@ + item_id@,
{
    let mut p = concat3("/list/v4/lists/", list_id, "/items/");
    p.append(item_id);
    p
}

/// A list.
#[derive(Debug, Clone)]
pub struct List {
    pub id: String,
    pub value: String,
    pub level_count: i32,
    pub search_criteria: String,
    pub display_format: String,
    pub category: ListCategory,
    pub is_read_only: bool,
    pub is_deleted: bool,
    pub managed_by: Option<String>,
}

/// The category of a list.
#[derive(Debug, Clone)]
pub struct ListCategory {
    pub id: String,
    pub type_: String,
}

/// A new list, or the fields of a list to change.
#[derive(Debug, Clone, Default)]
pub struct CreateListRequest {
    pub value: String,
    pub search_criteria: String,
    pub display_format: String,
    pub category_id: Option<String>,
}

/// A list item.
#[derive(Debug, Clone)]
pub struct ListItem {
    pub id: String,
    pub code: String,
    pub short_code: String,
    pub value: String,
    pub parent_id: Option<String>,
    pub level: i32,
    pub is_deleted: bool,
    pub lists: Vec<ListItemListRef>,
}

/// A list that an item belongs to.
#[derive(Debug, Clone)]
pub struct ListItemListRef {
    pub id: String,
    pub has_children: bool,
}

/// A new list item, or the fields of an item to change.
#[derive(Debug, Clone, Default)]
pub struct CreateListItemRequest {
    pub list_id: String,
    pub short_code: String,
    pub value: String,
    pub parent_id: Option<String>,
    pub parent_code: Option<String>,
}

} // verus!
