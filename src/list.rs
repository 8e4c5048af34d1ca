//! Paginated list responses.

use vstd::prelude::*;

verus! {

/// A paginated list response from PAY.JP API.
#[derive(Debug, Clone)]
pub struct ListResponse<T> {
    /// The object type (always "list").
    pub object: String,
    /// The list of items.
    pub data: Vec<T>,
    /// Whether there are more items available.
    pub has_more: bool,
    /// The URL for this list endpoint.
    pub url: String,
    /// Total count of items.
    pub count: i64,
}


impl<T> Default for ListResponse<T> {
    fn default() -> (r: Self)
        ensures
            r.object@ == "list"@,
            r.data@.len() == 0,
            !r.has_more,
            r.url@.len() == 0,
            r.count == 0,
    {
        ListResponse {
            object: String::from_str("list"),
            data: Vec::new(),
            has_more: false,
            url: String::new(),
            count: 0,
        }
    }
}

} // verus!
