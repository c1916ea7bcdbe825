//! The route dispatcher: a static table from method and path to handler,
//! matched exactly.

use crate::failure::RoutingFailure;
use vstd::prelude::*;

verus! {

/// A handler of the route table.
#[derive(Clone, Copy, Debug, PartialEq, Eq, Structural)]
pub enum Handler {
    Root,
    About,
    User,
    LogIn,
}

/// One route: the handler that serves a method on a path.
#[derive(Clone, Debug, PartialEq, Eq)]
pub struct Route {
    pub method: String,
    pub path: String,
    pub handler: Handler,
}

/// The model of a route.
pub struct RouteModel {
    pub method: Seq<char>,
    pub path: Seq<char>,
    pub handler: Handler,
}

impl View for Route {
    type V = RouteModel;

    open spec fn view(&self) -> RouteModel {
        RouteModel { method: self.method@, path: self.path@, handler: self.handler }
    }
}

impl DeepView for Route {
    type V = RouteModel;

    open spec fn deep_view(&self) -> RouteModel {
        self@
    }
}

/// The route table. Where two routes have the same method and path, the one
/// declared first serves.
#[derive(Clone, Debug, PartialEq, Eq)]
pub struct RouteTable {
    pub routes: Vec<Route>,
}

impl View for RouteTable {
    type V = Seq<RouteModel>;

    open spec fn view(&self) -> Seq<RouteModel> {
        self.routes.deep_view()
    }
}

/// A route serves a request when method and path are both equal to its own.
pub open spec fn serves(route: RouteModel, method: Seq<char>, path: Seq<char>) -> bool {
    route.method == method && route.path == path
}

/// Some route has the path, whatever its method.
pub open spec fn has_path(routes: Seq<RouteModel>, path: Seq<char>) -> bool {
    exists|i: int| 0 <= i < routes.len() && (#[trigger] routes[i]).path == path
}

/// The position of the first route at or after `start` that serves the
/// request.
pub open spec fn first_serving_from(
    routes: Seq<RouteModel>,
    method: Seq<char>,
    path: Seq<char>,
    start: int,
) -> Option<int>
    decreases routes.len() - start,
{
    if start < 0 || start >= routes.len() {
        None
    } else if serves(routes[start], method, path) {
        Some(start)
    } else {
        first_serving_from(routes, method, path, start + 1)
    }
}

/// What the dispatcher answers: the handler of the first route that serves
/// the request; `MethodNotAllowed` where no route serves it but some route
/// has the path; `NotFound` where no route has the path.
pub open spec fn resolve(routes: Seq<RouteModel>, method: Seq<char>, path: Seq<char>) -> Result<
    Handler,
    RoutingFailure,
> {
    match first_serving_from(routes, method, path, 0) {
        Some(i) => Ok(routes[i].handler),
        None => if has_path(routes, path) {
            Err(RoutingFailure::MethodNotAllowed)
        } else {
            Err(RoutingFailure::NotFound)
        },
    }
}

/// No two routes have the same method and path.
pub open spec fn unambiguous(routes: Seq<RouteModel>) -> bool {
    forall|i: int, j: int|
        0 <= i < j < routes.len() ==> !serves(
            #[trigger] routes[i],
            (#[trigger] routes[j]).method,
            routes[j].path,
        )
}

/// `first_serving_from` finds the least position at or after `start` whose
/// route serves the request, and none exactly when there is none.
pub proof fn lemma_first_serving_from(
    routes: Seq<RouteModel>,
    method: Seq<char>,
    path: Seq<char>,
    start: int,
)
    requires
        0 <= start,
    ensures
        match first_serving_from(routes, method, path, start) {
            Some(i) => {
                &&& start <= i < routes.len()
                &&& serves(routes[i], method, path)
                &&& forall|j: int| start <= j < i ==> !serves(#[trigger] routes[j], method, path)
            },
            None => forall|j: int|
                start <= j < routes.len() ==> !serves(#[trigger] routes[j], method, path),
        },
    decreases routes.len() - start,
{
    if start < routes.len() && !serves(routes[start], method, path) {
        lemma_first_serving_from(routes, method, path, start + 1);
    }
}

/// The dispatcher selects a handler exactly when some route serves the
/// request, and then a handler of such a route; it answers
/// `MethodNotAllowed` exactly when no route serves the request but some
/// route has the path, and `NotFound` exactly when no route has the path.
pub proof fn lemma_resolve(routes: Seq<RouteModel>, method: Seq<char>, path: Seq<char>)
    ensures
        resolve(routes, method, path) is Ok <==> exists|i: int|
            0 <= i < routes.len() && serves(#[trigger] routes[i], method, path),
        resolve(routes, method, path) matches Ok(handler) ==> exists|i: int|
            0 <= i < routes.len() && serves(#[trigger] routes[i], method, path) && routes[i].handler
                == handler,
        resolve(routes, method, path) == Err::<Handler, RoutingFailure>(
            RoutingFailure::MethodNotAllowed,
        ) <==> has_path(routes, path) && !exists|i: int|
            0 <= i < routes.len() && serves(#[trigger] routes[i], method, path),
        resolve(routes, method, path) == Err::<Handler, RoutingFailure>(RoutingFailure::NotFound)
            <==> !has_path(routes, path),
{
    lemma_first_serving_from(routes, method, path, 0);
    if has_path(routes, path) {
    } else {
        assert forall|i: int| 0 <= i < routes.len() implies !serves(
            #[trigger] routes[i],
            method,
            path,
        ) by {
            assert(routes[i].path != path);
        }
    }
}

/// In a table without two routes of the same method and path, the handler
/// selected is that of the one route that serves the request.
pub proof fn lemma_resolve_unambiguous(
    routes: Seq<RouteModel>,
    method: Seq<char>,
    path: Seq<char>,
    i: int,
)
    requires
        unambiguous(routes),
        0 <= i < routes.len(),
        serves(routes[i], method, path),
    ensures
        resolve(routes, method, path) == Ok::<Handler, RoutingFailure>(routes[i].handler),
{
    lemma_first_serving_from(routes, method, path, 0);
    let first = first_serving_from(routes, method, path, 0);
    assert(first is Some);
    let k = first->0;
    if k < i {
        assert(serves(routes[k], routes[i].method, routes[i].path));
    }
}

impl RouteTable {
    /// A table without routes.
    pub fn new() -> (table: RouteTable)
        ensures
            table@ == Seq::<RouteModel>::empty(),
    {
        let table = RouteTable { routes: Vec::new() };
        assert(table@ =~= Seq::<RouteModel>::empty());
        table
    }

    /// Adds a route after those that the table holds.
    pub fn route(self, method: &str, path: &str, handler: Handler) -> (table: RouteTable)
        ensures
            table@ == self@.push(RouteModel { method: method@, path: path@, handler }),
    {
        let mut routes = self.routes;
        routes.push(Route { method: method.to_owned(), path: path.to_owned(), handler });
        let table = RouteTable { routes };
        assert(table@ =~= self@.push(RouteModel { method: method@, path: path@, handler }));
        table
    }

    /// Selects the handler of a request, or says why there is none. A
    /// handler is selected exactly when some route serves the request;
    /// `MethodNotAllowed` is answered exactly when none does but some route
    /// has the path; `NotFound` exactly when no route has the path.
    pub fn dispatch(&self, method: &str, path: &str) -> (found: Result<Handler, RoutingFailure>)
        ensures
            found == resolve(self@, method@, path@),
            found is Ok <==> exists|i: int|
                0 <= i < self@.len() && serves(#[trigger] self@[i], method@, path@),
            found == Err::<Handler, RoutingFailure>(RoutingFailure::MethodNotAllowed) <==> has_path(
                self@,
                path@,
            ) && !exists|i: int|
                0 <= i < self@.len() && serves(#[trigger] self@[i], method@, path@),
            found == Err::<Handler, RoutingFailure>(RoutingFailure::NotFound) <==> !has_path(
                self@,
                path@,
            ),
    {
        proof {
            lemma_resolve(self@, method@, path@);
        }
        let wanted_method = method.to_owned();
        let wanted_path = path.to_owned();
        let mut path_known = false;
        let mut i: usize = 0;
        while i < self.routes.len()
            invariant
                i <= self.routes.len(),
                wanted_method@ == method@,
                wanted_path@ == path@,
                first_serving_from(self@, method@, path@, 0) == first_serving_from(
                    self@,
                    method@,
                    path@,
                    i as int,
                ),
                path_known <==> exists|j: int| 0 <= j < i && (#[trigger] self@[j]).path == path@,
            decreases self.routes.len() - i,
        {
            let route = &self.routes[i];
            assert(route@ == self@[i as int]);
            if route.path == wanted_path {
                if route.method == wanted_method {
                    return Ok(route.handler);
                }
                path_known = true;
            }
            i += 1;
        }
        if path_known {
            Err(RoutingFailure::MethodNotAllowed)
        } else {
            Err(RoutingFailure::NotFound)
        }
    }
}

/// The routes of the service.
pub open spec fn service_routes() -> Seq<RouteModel> {
    seq![
        RouteModel { method: "GET"@, path: "/"@, handler: Handler::Root },
        RouteModel { method: "GET"@, path: "/about"@, handler: Handler::About },
        RouteModel { method: "GET"@, path: "/api/v1/user"@, handler: Handler::User },
        RouteModel { method: "POST"@, path: "/api/v1/session"@, handler: Handler::LogIn },
    ]
}

/// Builds the route table of the service. A server builds it once and hands
/// it to every request by reference.
pub fn get_router() -> (table: RouteTable)
    ensures
        table@ == service_routes(),
{
    let table = RouteTable::new()
        .route("GET", "/", Handler::Root)
        .route("GET", "/about", Handler::About)
        .route("GET", "/api/v1/user", Handler::User)
        .route("POST", "/api/v1/session", Handler::LogIn);
    assert(table@ =~= service_routes());
    table
}

/// What the table of the service selects, for every method and path: each
/// of its four paths is served with its one method and answers
/// `MethodNotAllowed` with any other; every other path is `NotFound`.
pub proof fn lemma_service_dispatch(method: Seq<char>, path: Seq<char>)
    ensures
        resolve(service_routes(), method, path) == if path == "/"@ {
            if method == "GET"@ {
                Ok::<Handler, RoutingFailure>(Handler::Root)
            } else {
                Err(RoutingFailure::MethodNotAllowed)
            }
        } else if path == "/about"@ {
            if method == "GET"@ {
                Ok(Handler::About)
            } else {
                Err(RoutingFailure::MethodNotAllowed)
            }
        } else if path == "/api/v1/user"@ {
            if method == "GET"@ {
                Ok(Handler::User)
            } else {
                Err(RoutingFailure::MethodNotAllowed)
            }
        } else if path == "/api/v1/session"@ {
            if method == "POST"@ {
                Ok(Handler::LogIn)
            } else {
                Err(RoutingFailure::MethodNotAllowed)
            }
        } else {
            Err(RoutingFailure::NotFound)
        },
{
    let routes = service_routes();
    lemma_service_paths_differ();
    lemma_service_routes_unambiguous();
    lemma_resolve(routes, method, path);
    let k: int = if path == "/"@ {
        0
    } else if path == "/about"@ {
        1
    } else if path == "/api/v1/user"@ {
        2
    } else if path == "/api/v1/session"@ {
        3
    } else {
        4
    };
    assert forall|i: int| 0 <= i < routes.len() && i != k implies (#[trigger] routes[i]).path
        != path by {
        assert(i == 0 || i == 1 || i == 2 || i == 3);
    }
    if k < 4 {
        assert(routes[k].path == path);
        if routes[k].method == method {
            lemma_resolve_unambiguous(routes, method, path, k);
        } else {
            assert forall|i: int| 0 <= i < routes.len() implies !serves(
                #[trigger] routes[i],
                method,
                path,
            ) by {}
        }
    }
}

/// The four paths of the service differ from each other.
pub proof fn lemma_service_paths_differ()
    ensures
        forall|i: int, j: int|
            0 <= i < j < service_routes().len() ==> (#[trigger] service_routes()[i]).path != (
            #[trigger] service_routes()[j]).path,
{
    reveal_strlit("/");
    reveal_strlit("/about");
    reveal_strlit("/api/v1/user");
    reveal_strlit("/api/v1/session");
    assert("/"@.len() == 1);
    assert("/about"@.len() == 6);
    assert("/api/v1/user"@.len() == 12);
    assert("/api/v1/session"@.len() == 15);
}

/// The four paths of the service differ, so no two of its routes serve the
/// same request.
pub proof fn lemma_service_routes_unambiguous()
    ensures
        unambiguous(service_routes()),
{
    lemma_service_paths_differ();
}

} // verus!
