use crate::compose::{compose, compose_lookup, compose_spec, escape_spec, is_identifier};
use crate::error::Error;
use vstd::prelude::*;
use vstd::string::*;

verus! {

/// The path of the user collection.
pub open spec fn users_path() -> Seq<char> {
    seq!['u', 's', 'e', 'r', 's']
}

/// The path prefix under which one user is looked up by its identifier.
pub open spec fn user_prefix() -> Seq<char> {
    users_path() + seq!['/']
}

/// An optional `usize` as the `u64` it fits in.
pub open spec fn widen(o: Option<usize>) -> Option<u64> {
    match o {
        Some(x) => Some(x as u64),
        None => None,
    }
}

pub(crate) fn widen_exec(o: Option<usize>) -> (r: Option<u64>)
    ensures
        r == widen(o),
{
    match o {
        Some(x) => Some(x as u64),
        None => None,
    }
}

/// One registered user of the judge.
#[derive(Debug, Clone, PartialEq, Eq)]
pub struct User {
    pub id: String,
    pub name: String,
    pub affiliation: String,
}

/// Which slice of the user collection to ask for. A value left unset is left
/// out of the request, and the server's default applies.
#[derive(Debug, Clone, PartialEq, Eq)]
pub struct FindAllRequest {
    pub page: Option<usize>,
    pub size: Option<usize>,
}

impl FindAllRequest {
    /// A request with neither page nor size.
    pub fn new() -> (r: FindAllRequest)
        ensures
            r.page is None,
            r.size is None,
    {
        FindAllRequest { page: None, size: None }
    }

    /// The same request for the given page.
    pub fn set_page(self, page: usize) -> (r: FindAllRequest)
        ensures
            r.page == Some(page),
            r.size == self.size,
    {
        FindAllRequest { page: Some(page), size: self.size }
    }

    /// The same request with the given page size.
    pub fn set_size(self, size: usize) -> (r: FindAllRequest)
        ensures
            r.page == self.page,
            r.size == Some(size),
    {
        FindAllRequest { page: self.page, size: Some(size) }
    }
}

impl Default for FindAllRequest {
    fn default() -> (r: FindAllRequest)
        ensures
            r.page is None,
            r.size is None,
    {
        FindAllRequest::new()
    }
}

/// Builds the requests on the user collection of one endpoint.
pub struct UserClient {
    server_url: String,
}

impl UserClient {
    /// The endpoint that the requests go to.
    pub closed spec fn endpoint(&self) -> Seq<char> {
        self.server_url@
    }

    pub(crate) fn new(server_url: &str) -> (r: UserClient)
        ensures
            r.endpoint() == server_url@,
    {
        UserClient { server_url: String::from_str(server_url) }
    }

    /// The URL that lists the users: `users` under the endpoint, with the
    /// request's page and size as query.
    pub fn find_all_url(&self, request: &FindAllRequest) -> (r: String)
        ensures
            r@ == compose_spec(self.endpoint(), users_path(), widen(request.page), widen(request.size)),
    {
        proof {
            reveal_strlit("users");
        }
        compose(self.server_url.as_str(), "users", widen_exec(request.page), widen_exec(request.size))
    }

    /// The URL of one user: `users/` and the escaped identifier under the
    /// endpoint; `InvalidUrl` where the identifier cannot stand as a path segment.
    pub fn find_by_id_url(&self, user_id: &str) -> (r: Result<String, Error>)
        ensures
            r is Ok <==> is_identifier(user_id@),
            r is Ok ==> r->Ok_0@ == compose_spec(self.endpoint(), user_prefix() + escape_spec(user_id@), None, None),
            r is Err ==> r->Err_0 == Error::InvalidUrl,
    {
        proof {
            reveal_strlit("users/");
            assert("users/"@ =~= user_prefix());
        }
        compose_lookup(self.server_url.as_str(), "users/", user_id, None, None)
    }
}

} // verus!
