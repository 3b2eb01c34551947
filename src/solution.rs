use crate::compose::{compose, compose_lookup, compose_spec, escape_spec, is_identifier};
use crate::error::Error;
use vstd::prelude::*;
use vstd::string::*;

verus! {

/// The path of the solution collection.
pub open spec fn solutions_path() -> Seq<char> {
    seq!['s', 'o', 'l', 'u', 't', 'i', 'o', 'n', 's']
}

/// The path prefix under which the solutions of one problem are listed.
pub open spec fn problem_prefix() -> Seq<char> {
    solutions_path() + seq!['/', 'p', 'r', 'o', 'b', 'l', 'e', 'm', 's', '/']
}

/// An optional `u32` as a `u64`.
pub open spec fn widen32(o: Option<u32>) -> Option<u64> {
    match o {
        Some(x) => Some(x as u64),
        None => None,
    }
}

fn widen32_exec(o: Option<u32>) -> (r: Option<u64>)
    ensures
        r == widen32(o),
{
    match o {
        Some(x) => Some(x as u64),
        None => None,
    }
}

/// An instant, as milliseconds since the Unix epoch, in UTC.
#[derive(Debug, Clone, Copy, PartialEq, Eq, PartialOrd, Ord, Hash)]
pub struct Timestamp {
    pub millis: i64,
}

/// One accepted solution, as the judge records it.
#[derive(Debug, Clone, PartialEq, Eq)]
pub struct Solution {
    pub judge_id: u64,
    pub user_id: String,
    pub problem_id: String,
    /// When it was submitted; absent where the server's schema leaves it out.
    pub submission_date: Option<Timestamp>,
}

/// Which slice of the solution collection to ask for. A value left unset is
/// left out of the request, and the server's default applies.
#[derive(Debug, Clone, PartialEq, Eq)]
pub struct FindAllRequest {
    pub page: Option<u32>,
    pub size: Option<u32>,
}

impl FindAllRequest {
    /// A request with neither page nor size.
    pub fn new() -> (r: FindAllRequest)
        ensures
            r.page is None,
            r.size is None,
    {
        FindAllRequest { page: None, size: None }
    }

    /// The same request for the given page.
    pub fn set_page(self, page: u32) -> (r: FindAllRequest)
        ensures
            r.page == Some(page),
            r.size == self.size,
    {
        FindAllRequest { page: Some(page), size: self.size }
    }

    /// The same request with the given page size.
    pub fn set_size(self, size: u32) -> (r: FindAllRequest)
        ensures
            r.page == self.page,
            r.size == Some(size),
    {
        FindAllRequest { page: self.page, size: Some(size) }
    }
}

impl Default for FindAllRequest {
    fn default() -> (r: FindAllRequest)
        ensures
            r.page is None,
            r.size is None,
    {
        FindAllRequest::new()
    }
}

/// The solutions of one problem, and which slice of them to ask for.
#[derive(Debug, Clone, PartialEq, Eq)]
pub struct FindByProblemIdRequest {
    pub problem_id: String,
    pub page: Option<u32>,
    pub size: Option<u32>,
}

impl FindByProblemIdRequest {
    /// A request for the solutions of `problem_id`, with neither page nor size.
    pub fn new(problem_id: String) -> (r: FindByProblemIdRequest)
        ensures
            r.problem_id == problem_id,
            r.page is None,
            r.size is None,
    {
        FindByProblemIdRequest { problem_id, page: None, size: None }
    }

    /// The same request for the given page.
    pub fn set_page(self, page: u32) -> (r: FindByProblemIdRequest)
        ensures
            r.problem_id == self.problem_id,
            r.page == Some(page),
            r.size == self.size,
    {
        FindByProblemIdRequest { problem_id: self.problem_id, page: Some(page), size: self.size }
    }

    /// The same request with the given page size.
    pub fn set_size(self, size: u32) -> (r: FindByProblemIdRequest)
        ensures
            r.problem_id == self.problem_id,
            r.page == self.page,
            r.size == Some(size),
    {
        FindByProblemIdRequest { problem_id: self.problem_id, page: self.page, size: Some(size) }
    }
}

/// Builds the requests on the solution collection of one endpoint.
pub struct SolutionClient {
    server_url: String,
}

impl SolutionClient {
    /// The endpoint that the requests go to.
    pub closed spec fn endpoint(&self) -> Seq<char> {
        self.server_url@
    }

    pub(crate) fn new(server_url: &str) -> (r: SolutionClient)
        ensures
            r.endpoint() == server_url@,
    {
        SolutionClient { server_url: String::from_str(server_url) }
    }

    /// The URL that lists the solutions: `solutions` under the endpoint, with
    /// the request's page and size as query.
    pub fn find_all_url(&self, request: &FindAllRequest) -> (r: String)
        ensures
            r@ == compose_spec(self.endpoint(), solutions_path(), widen32(request.page), widen32(request.size)),
    {
        proof {
            reveal_strlit("solutions");
        }
        compose(self.server_url.as_str(), "solutions", widen32_exec(request.page), widen32_exec(request.size))
    }

    /// The URL that lists the solutions of one problem: `solutions/problems/`
    /// and the escaped problem identifier under the endpoint, with the request's
    /// page and size as query; `InvalidUrl` where the identifier cannot stand as
    /// a path segment.
    pub fn find_by_problem_id_url(&self, request: &FindByProblemIdRequest) -> (r: Result<String, Error>)
        ensures
            r is Ok <==> is_identifier(request.problem_id@),
            r is Ok ==> r->Ok_0@ == compose_spec(
                self.endpoint(),
                problem_prefix() + escape_spec(request.problem_id@),
                widen32(request.page),
                widen32(request.size),
            ),
            r is Err ==> r->Err_0 == Error::InvalidUrl,
    {
        proof {
            reveal_strlit("solutions/problems/");
            assert("solutions/problems/"@ =~= problem_prefix());
        }
        compose_lookup(
            self.server_url.as_str(),
            "solutions/problems/",
            request.problem_id.as_str(),
            widen32_exec(request.page),
            widen32_exec(request.size),
        )
    }
}

} // verus!
