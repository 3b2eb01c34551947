pub mod compose;
pub mod endpoint;
pub mod error;
pub mod solution;
pub mod user;

use crate::compose::{compose_spec, is_endpoint};
use crate::endpoint::{endpoint_of, parse_endpoint};
use crate::error::Error;
use crate::solution::SolutionClient;
use crate::user::{users_path, widen, widen_exec, UserClient};
use vstd::prelude::*;
use vstd::string::*;

pub use crate::user::User;

verus! {

/// The service endpoint used where the caller names none, in the form that the
/// URL parser gives it.
pub const DEFAULT_SERVER_URL: &'static str = "https://judgeapi.u-aizu.ac.jp/";

/// Holds the validated service endpoint and hands out the clients of its
/// resource collections.
pub struct Client {
    server_url: String,
}

impl Client {
    /// The endpoint text: the URL parser's form of what the client was made
    /// from, with no query and no fragment.
    pub closed spec fn endpoint(&self) -> Seq<char> {
        self.server_url@
    }

    /// A client of the endpoint at `server_url`; `InvalidUrl` unless it is a
    /// well-formed absolute URL without query or fragment. Makes no request.
    pub fn new(server_url: &str) -> (r: Result<Client, Error>)
        ensures
            r is Ok <==> endpoint_of(server_url@) is Some,
            r is Ok ==> Some(r->Ok_0.endpoint()) == endpoint_of(server_url@),
            r is Ok ==> is_endpoint(r->Ok_0.endpoint()),
            r is Err ==> r->Err_0 == Error::InvalidUrl,
    {
        match parse_endpoint(server_url) {
            Ok(t) => Ok(Client { server_url: t }),
            Err(e) => Err(e),
        }
    }

    /// The endpoint text.
    pub fn server_url(&self) -> (r: &str)
        ensures
            r@ == self.endpoint(),
    {
        self.server_url.as_str()
    }

    /// The client of the user collection.
    pub fn users(&self) -> (r: UserClient)
        ensures
            r.endpoint() == self.endpoint(),
    {
        UserClient::new(self.server_url.as_str())
    }

    /// The client of the solution collection.
    pub fn solutions(&self) -> (r: SolutionClient)
        ensures
            r.endpoint() == self.endpoint(),
    {
        SolutionClient::new(self.server_url.as_str())
    }

    /// The URL that lists the users: `users` under the endpoint, with the
    /// request's page and size as query.
    pub fn find_users_url(&self, request: &FindUsersRequest) -> (r: String)
        ensures
            r@ == compose_spec(self.endpoint(), users_path(), widen(request.page), widen(request.size)),
    {
        proof {
            reveal_strlit("users");
        }
        crate::compose::compose(self.server_url.as_str(), "users", widen_exec(request.page), widen_exec(request.size))
    }
}

impl Default for Client {
    /// The client of the default endpoint. It cannot fail.
    fn default() -> (r: Client)
        ensures
            r.endpoint() == DEFAULT_SERVER_URL@,
            is_endpoint(r.endpoint()),
    {
        proof {
            reveal_strlit("https://judgeapi.u-aizu.ac.jp/");
        }
        Client { server_url: String::from_str(DEFAULT_SERVER_URL) }
    }
}

/// Which slice of the user collection to ask for. A value left unset is left
/// out of the request, and the server's default applies.
#[derive(Debug, Clone, PartialEq, Eq)]
pub struct FindUsersRequest {
    pub page: Option<usize>,
    pub size: Option<usize>,
}

impl FindUsersRequest {
    /// A request with neither page nor size.
    pub fn new() -> (r: FindUsersRequest)
        ensures
            r.page is None,
            r.size is None,
    {
        FindUsersRequest { page: None, size: None }
    }

    /// The same request for the given page.
    pub fn set_page(self, page: usize) -> (r: FindUsersRequest)
        ensures
            r.page == Some(page),
            r.size == self.size,
    {
        FindUsersRequest { page: Some(page), size: self.size }
    }

    /// The same request with the given page size.
    pub fn set_size(self, size: usize) -> (r: FindUsersRequest)
        ensures
            r.page == self.page,
            r.size == Some(size),
    {
        FindUsersRequest { page: self.page, size: Some(size) }
    }
}

impl Default for FindUsersRequest {
    fn default() -> (r: FindUsersRequest)
        ensures
            r.page is None,
            r.size is None,
    {
        FindUsersRequest::new()
    }
}

} // verus!
