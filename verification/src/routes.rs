//! Route tables: the path-and-verb surface each module exposes, and
//! the merge that assembles one application from them.
//!
//! A merge fails loudly on a path-and-verb collision between two
//! modules; it never silently drops a route.

use vstd::prelude::*;
use crate::error::AppError;
use crate::text::str_eq;

verus! {

/// The request verbs the surface uses.
#[derive(Clone, Copy, PartialEq, Eq, Structural, Debug)]
pub enum Verb {
    Get,
    Post,
    Put,
    Delete,
}

/// The handler a route dispatches to.
#[derive(Clone, Copy, PartialEq, Eq, Structural, Debug)]
pub enum Endpoint {
    ListCompanies,
    CreateCompany,
    GetCompany,
    UpdateCompany,
    DuplicateCompany,
    ListWorkTypes,
    CreateWorkType,
}

/// One entry of a route table.
pub struct Route {
    pub path: String,
    pub verb: Verb,
    pub endpoint: Endpoint,
}

/// The mathematical value of a [`Route`].
pub ghost struct RouteV {
    pub path: Seq<char>,
    pub verb: Verb,
    pub endpoint: Endpoint,
}

impl View for Route {
    type V = RouteV;

    open spec fn view(&self) -> RouteV {
        RouteV { path: self.path@, verb: self.verb, endpoint: self.endpoint }
    }
}

impl Route {
    /// Copies a route entry value for value.
    pub fn clone_route(&self) -> (r: Route)
        ensures
            r@ == self@,
    {
        Route { path: self.path.clone(), verb: self.verb, endpoint: self.endpoint }
    }
}

/// Two routes that would both claim one path-and-verb pair.
pub open spec fn collides(a: RouteV, b: RouteV) -> bool {
    a.path == b.path && a.verb == b.verb
}

/// No route of `a` claims a pair a route of `b` claims.
pub open spec fn disjoint_routes(a: Seq<RouteV>, b: Seq<RouteV>) -> bool {
    forall|i: int, j: int|
        0 <= i < a.len() && 0 <= j < b.len() ==> !collides(a[i], b[j])
}

/// Whether one route of `a` and one of `b` claim the same pair.
fn routes_collide(a: &Vec<Route>, b: &Vec<Route>) -> (r: bool)
    ensures
        r == !disjoint_routes(
            a@.map_values(|x: Route| x@),
            b@.map_values(|x: Route| x@),
        ),
{
    let mut i: usize = 0;
    while i < a.len()
        invariant
            0 <= i <= a@.len(),
            forall|p: int, q: int|
                0 <= p < i && 0 <= q < b@.len() ==> !collides(a@[p]@, b@[q]@),
        decreases a@.len() - i,
    {
        let mut j: usize = 0;
        while j < b.len()
            invariant
                0 <= i < a@.len(),
                0 <= j <= b@.len(),
                forall|q: int| 0 <= q < j ==> !collides(a@[i as int]@, b@[q]@),
            decreases b@.len() - j,
        {
            if str_eq(a[i].path.as_str(), b[j].path.as_str()) && a[i].verb == b[j].verb {
                proof {
                    assert(collides(
                        a@.map_values(|x: Route| x@)[i as int],
                        b@.map_values(|x: Route| x@)[j as int],
                    ));
                }
                return true;
            }
            j = j + 1;
        }
        i = i + 1;
    }
    false
}

/// Merges two route tables: their concatenation when they are
/// disjoint, a loud configuration failure when any path-and-verb
/// pair is claimed twice.
pub fn merge_route_sets(a: &Vec<Route>, b: &Vec<Route>) -> (r: Result<Vec<Route>, AppError>)
    ensures
        (r is Ok) == disjoint_routes(
            a@.map_values(|x: Route| x@),
            b@.map_values(|x: Route| x@),
        ),
        (r matches Ok(m) ==> m@.map_values(|x: Route| x@) == a@.map_values(|x: Route| x@)
            + b@.map_values(|x: Route| x@)),
        (r matches Err(e) ==> e matches AppError::Internal(_)),
{
    if routes_collide(a, b) {
        return Err(
            AppError::Internal(
                String::from_str("route collision: two modules claim the same path and verb"),
            ),
        );
    }
    let mut merged: Vec<Route> = Vec::new();
    let mut i: usize = 0;
    while i < a.len()
        invariant
            0 <= i <= a@.len(),
            merged@.len() == i,
            forall|k: int| 0 <= k < i ==> merged@[k]@ == a@[k]@,
        decreases a@.len() - i,
    {
        merged.push(a[i].clone_route());
        i = i + 1;
    }
    let mut j: usize = 0;
    while j < b.len()
        invariant
            0 <= j <= b@.len(),
            merged@.len() == a@.len() + j,
            forall|k: int| 0 <= k < a@.len() ==> merged@[k]@ == a@[k]@,
            forall|k: int| 0 <= k < j ==> merged@[a@.len() + k]@ == b@[k]@,
        decreases b@.len() - j,
    {
        merged.push(b[j].clone_route());
        j = j + 1;
    }
    proof {
        assert(merged@.map_values(|x: Route| x@) =~= a@.map_values(|x: Route| x@)
            + b@.map_values(|x: Route| x@));
    }
    Ok(merged)
}

/// The route surface of the companies module.
pub open spec fn companies_routes_spec() -> Seq<RouteV> {
    seq![
        RouteV { path: "/companies"@, verb: Verb::Get, endpoint: Endpoint::ListCompanies },
        RouteV { path: "/companies"@, verb: Verb::Post, endpoint: Endpoint::CreateCompany },
        RouteV { path: "/companies/{id}"@, verb: Verb::Get, endpoint: Endpoint::GetCompany },
        RouteV { path: "/companies/{id}"@, verb: Verb::Put, endpoint: Endpoint::UpdateCompany },
        RouteV {
            path: "/companies/{id}/duplicate"@,
            verb: Verb::Post,
            endpoint: Endpoint::DuplicateCompany,
        },
    ]
}

/// The route surface of the work-types module.
pub open spec fn worktypes_routes_spec() -> Seq<RouteV> {
    seq![
        RouteV { path: "/worktypes"@, verb: Verb::Get, endpoint: Endpoint::ListWorkTypes },
        RouteV { path: "/worktypes"@, verb: Verb::Post, endpoint: Endpoint::CreateWorkType },
    ]
}

/// Builds the companies route table.
pub fn companies_route_table() -> (r: Vec<Route>)
    ensures
        r@.map_values(|x: Route| x@) == companies_routes_spec(),
{
    let mut r: Vec<Route> = Vec::new();
    r.push(
        Route {
            path: String::from_str("/companies"),
            verb: Verb::Get,
            endpoint: Endpoint::ListCompanies,
        },
    );
    r.push(
        Route {
            path: String::from_str("/companies"),
            verb: Verb::Post,
            endpoint: Endpoint::CreateCompany,
        },
    );
    r.push(
        Route {
            path: String::from_str("/companies/{id}"),
            verb: Verb::Get,
            endpoint: Endpoint::GetCompany,
        },
    );
    r.push(
        Route {
            path: String::from_str("/companies/{id}"),
            verb: Verb::Put,
            endpoint: Endpoint::UpdateCompany,
        },
    );
    r.push(
        Route {
            path: String::from_str("/companies/{id}/duplicate"),
            verb: Verb::Post,
            endpoint: Endpoint::DuplicateCompany,
        },
    );
    proof {
        assert(r@.map_values(|x: Route| x@) =~= companies_routes_spec());
    }
    r
}

/// Builds the work-types route table.
pub fn worktypes_route_table() -> (r: Vec<Route>)
    ensures
        r@.map_values(|x: Route| x@) == worktypes_routes_spec(),
{
    let mut r: Vec<Route> = Vec::new();
    r.push(
        Route {
            path: String::from_str("/worktypes"),
            verb: Verb::Get,
            endpoint: Endpoint::ListWorkTypes,
        },
    );
    r.push(
        Route {
            path: String::from_str("/worktypes"),
            verb: Verb::Post,
            endpoint: Endpoint::CreateWorkType,
        },
    );
    proof {
        assert(r@.map_values(|x: Route| x@) =~= worktypes_routes_spec());
    }
    r
}

/// The two module surfaces never claim one pair twice, so their
/// merge always succeeds.
pub proof fn lemma_module_routes_disjoint()
    ensures
        disjoint_routes(companies_routes_spec(), worktypes_routes_spec()),
{
    reveal_strlit("/companies");
    reveal_strlit("/companies/{id}");
    reveal_strlit("/companies/{id}/duplicate");
    reveal_strlit("/worktypes");
    assert("/companies"@.len() == 10);
    assert("/companies/{id}"@.len() == 15);
    assert("/companies/{id}/duplicate"@.len() == 25);
    assert("/worktypes"@.len() == 10);
    assert("/companies"@[1] == 'c');
    assert("/worktypes"@[1] == 'w');
}

} // verus!
