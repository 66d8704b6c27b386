//! The HTTP surface: which path leads to which read operation.

use vstd::prelude::*;

verus! {

/// An HTTP method. The service only reads, so there is one.
#[derive(Clone, Copy, Debug, PartialEq, Eq, Structural)]
pub enum Method {
    Get,
}

/// A read operation of the service.
#[derive(Clone, Copy, Debug, PartialEq, Eq, Structural)]
pub enum Endpoint {
    /// The health probe.
    HealthCheck,
    /// Search by name, with the query parameter `q`.
    SearchDrugs,
    /// Lookup by the identifier in the path.
    DrugById,
}

impl Endpoint {
    /// The path under which the operation is served.
    pub open spec fn path_of(&self) -> Seq<char> {
        match self {
            Endpoint::HealthCheck => "/"@,
            Endpoint::SearchDrugs => "/api/drugs/search"@,
            Endpoint::DrugById => "/api/drugs/:id"@,
        }
    }

    /// The method that the operation answers to: `GET`, for each of them.
    pub fn method(&self) -> (method: Method)
        ensures
            method == Method::Get,
    {
        Method::Get
    }

    /// The path under which the operation is served.
    pub fn path(&self) -> (path: &'static str)
        ensures
            path@ == self.path_of(),
    {
        match self {
            Endpoint::HealthCheck => "/",
            Endpoint::SearchDrugs => "/api/drugs/search",
            Endpoint::DrugById => "/api/drugs/:id",
        }
    }
}

/// The routing table: the three operations, each once, in the order in which
/// they are registered.
pub fn create_router() -> (routes: Vec<Endpoint>)
    ensures
        routes@ == seq![Endpoint::HealthCheck, Endpoint::SearchDrugs, Endpoint::DrugById],
{
    let mut routes: Vec<Endpoint> = Vec::new();
    routes.push(Endpoint::HealthCheck);
    routes.push(Endpoint::SearchDrugs);
    routes.push(Endpoint::DrugById);
    assert(routes@ =~= seq![Endpoint::HealthCheck, Endpoint::SearchDrugs, Endpoint::DrugById]);
    routes
}

} // verus!
