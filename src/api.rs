//! Envelopes of REST responses and the HTTP methods used by the API.
use vstd::prelude::*;

verus! {

/// A response whose payload is a list.
#[verifier::reject_recursive_types(T)]
#[derive(Clone, Debug, PartialEq, Eq)]
pub struct APIData<T> {
    pub code: String,
    pub data: Option<Vec<T>>,
    pub msg: Option<String>,
}

/// A response whose payload is one value.
#[verifier::reject_recursive_types(T)]
#[derive(Clone, Debug, PartialEq, Eq)]
pub struct APIDatum<T> {
    pub code: String,
    pub data: Option<T>,
    pub msg: Option<String>,
}

/// One page of a paginated listing.
#[verifier::reject_recursive_types(T)]
#[derive(Clone, Debug, PartialEq, Eq)]
pub struct Pagination<T> {
    pub current_page: i32,
    pub page_size: i32,
    pub total_num: i32,
    pub total_page: i32,
    pub items: Vec<T>,
}

/// HTTP method of a REST call.
#[derive(Copy, Clone, Debug, PartialEq, Eq, Structural)]
pub enum Method {
    GET,
    POST,
    PUT,
    DELETE,
}

impl Method {
    /// The method as it stands in a request line, in upper case.
    pub open spec fn name(self) -> Seq<char> {
        match self {
            Method::GET => "GET"@,
            Method::POST => "POST"@,
            Method::PUT => "PUT"@,
            Method::DELETE => "DELETE"@,
        }
    }

    pub fn as_str(&self) -> (r: &'static str)
        ensures
            r@ == self.name(),
    {
        match self {
            Method::GET => "GET",
            Method::POST => "POST",
            Method::PUT => "PUT",
            Method::DELETE => "DELETE",
        }
    }
}

} // verus!
