//! The router's dispatch decision: which handler a request reaches.

use vstd::prelude::*;

verus! {

/// The handlers a request can reach.
#[derive(Clone, Copy, Debug, PartialEq, Eq, Structural)]
pub enum Route {
    Hello,
    AddProblem,
    GetProblems,
    NotFound,
}

/// Where a request with the given method and path is dispatched: the
/// greeting at the root, the problem endpoints under the moderator API
/// prefix, and nothing anywhere else.
pub open spec fn route_of(method: Seq<char>, path: Seq<char>) -> Route {
    if method == "GET"@ && path == "/"@ {
        Route::Hello
    } else if method == "POST"@ && path == "/api/moderator/problem"@ {
        Route::AddProblem
    } else if method == "GET"@ && path == "/api/moderator/problem"@ {
        Route::GetProblems
    } else {
        Route::NotFound
    }
}

/// Whether two text values are equal character for character.
fn str_eq(a: &str, b: &str) -> (r: bool)
    ensures
        r == (a@ == b@),
{
    a.to_owned() == b.to_owned()
}

/// Dispatch a request by its method and path.
pub fn match_route(method: &str, path: &str) -> (r: Route)
    ensures
        r == route_of(method@, path@),
{
    let get = str_eq(method, "GET");
    if get && str_eq(path, "/") {
        Route::Hello
    } else if str_eq(method, "POST") && str_eq(path, "/api/moderator/problem") {
        Route::AddProblem
    } else if get && str_eq(path, "/api/moderator/problem") {
        Route::GetProblems
    } else {
        Route::NotFound
    }
}

} // verus!
