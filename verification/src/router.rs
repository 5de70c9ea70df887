//! The dispatch table: routes bound to handlers by method and exact path,
//! and the one handler that answers everything else.

use crate::http::{Method, Request};
use crate::text::str_eq;
use vstd::prelude::*;

verus! {

/// What a route is found by: the name of a method and a path, compared
/// letter for letter.
pub type RouteKey = (Seq<char>, Seq<char>);

/// A handler bound to a method and a path.
pub struct HandlerRoute<H> {
    pub method: Method,
    pub path: String,
    pub handler: H,
}

/// The key of a route.
pub open spec fn key_of<H>(route: HandlerRoute<H>) -> RouteKey {
    (route.method@, route.path@)
}

/// No two of `routes` have the same key.
spec fn distinct_keys<H>(routes: Seq<HandlerRoute<H>>) -> bool {
    forall|i: int, j: int|
        0 <= i < j < routes.len() ==> key_of(#[trigger] routes[i]) != key_of(#[trigger] routes[j])
}

/// `routes[i]` is bound to `key`.
spec fn binds<H>(routes: Seq<HandlerRoute<H>>, key: RouteKey, i: int) -> bool {
    0 <= i < routes.len() && key_of(routes[i]) == key
}

/// The mapping that `routes` stand for: each key that occurs, to the handler
/// bound to it.
spec fn table_of<H>(routes: Seq<HandlerRoute<H>>) -> Map<RouteKey, H> {
    Map::new(
        |key: RouteKey| exists|i: int| binds(routes, key, i),
        |key: RouteKey| routes[choose|i: int| binds(routes, key, i)].handler,
    )
}

/// Among distinct keys, the handler of a key is that of the one route bound
/// to it.
proof fn lemma_table_at<H>(routes: Seq<HandlerRoute<H>>, i: int)
    requires
        distinct_keys(routes),
        0 <= i < routes.len(),
    ensures
        table_of(routes).contains_key(key_of(routes[i])),
        table_of(routes)[key_of(routes[i])] == routes[i].handler,
{
    let key = key_of(routes[i]);
    assert(binds(routes, key, i));
    let j = choose|j: int| binds(routes, key, j);
    assert(binds(routes, key, j));
    if j < i {
        assert(key_of(routes[j]) != key_of(routes[i]));
    } else if i < j {
        assert(key_of(routes[i]) != key_of(routes[j]));
    }
}

/// Binding a key that is not bound yet adds it to the mapping.
proof fn lemma_table_push<H>(routes: Seq<HandlerRoute<H>>, route: HandlerRoute<H>)
    requires
        distinct_keys(routes),
        !table_of(routes).contains_key(key_of(route)),
    ensures
        distinct_keys(routes.push(route)),
        table_of(routes.push(route)) == table_of(routes).insert(key_of(route), route.handler),
{
    let after = routes.push(route);
    assert forall|i: int, j: int| 0 <= i < j < after.len() implies key_of(#[trigger] after[i])
        != key_of(#[trigger] after[j]) by {
        if j == routes.len() {
            assert(binds(routes, key_of(routes[i]), i));
        }
    }
    assert forall|key: RouteKey| #[trigger]
        table_of(after).contains_key(key) == table_of(routes).insert(
            key_of(route),
            route.handler,
        ).contains_key(key) by {
        if table_of(after).contains_key(key) {
            let i = choose|i: int| binds(after, key, i);
            if i < routes.len() {
                assert(binds(routes, key, i));
            }
        }
        if key == key_of(route) {
            assert(binds(after, key, routes.len() as int));
        } else if table_of(routes).contains_key(key) {
            let i = choose|i: int| binds(routes, key, i);
            assert(binds(after, key, i));
        }
    }
    assert forall|key: RouteKey| #[trigger]
        table_of(after).contains_key(key) implies table_of(after)[key] == table_of(routes).insert(
        key_of(route),
        route.handler,
    )[key] by {
        let i = choose|i: int| binds(after, key, i);
        lemma_table_at(after, i);
        if i < routes.len() {
            lemma_table_at(routes, i);
        }
    }
    assert(table_of(after) =~= table_of(routes).insert(key_of(route), route.handler));
}

/// Binding a key anew replaces its handler and leaves the rest.
proof fn lemma_table_update<H>(routes: Seq<HandlerRoute<H>>, at: int, route: HandlerRoute<H>)
    requires
        distinct_keys(routes),
        0 <= at < routes.len(),
        key_of(routes[at]) == key_of(route),
    ensures
        distinct_keys(routes.update(at, route)),
        table_of(routes.update(at, route)) == table_of(routes).insert(
            key_of(route),
            route.handler,
        ),
{
    let after = routes.update(at, route);
    assert forall|i: int, j: int| 0 <= i < j < after.len() implies key_of(#[trigger] after[i])
        != key_of(#[trigger] after[j]) by {
        assert(key_of(after[i]) == key_of(routes[i]));
        assert(key_of(after[j]) == key_of(routes[j]));
    }
    assert forall|key: RouteKey| #[trigger]
        table_of(after).contains_key(key) == table_of(routes).insert(
            key_of(route),
            route.handler,
        ).contains_key(key) by {
        if table_of(after).contains_key(key) {
            let i = choose|i: int| binds(after, key, i);
            assert(key_of(after[i]) == key_of(routes[i]));
            assert(binds(routes, key, i));
        }
        if key == key_of(route) {
            assert(binds(after, key, at));
        } else if table_of(routes).contains_key(key) {
            let i = choose|i: int| binds(routes, key, i);
            assert(key_of(after[i]) == key_of(routes[i]));
            assert(binds(after, key, i));
        }
    }
    assert forall|key: RouteKey| #[trigger]
        table_of(after).contains_key(key) implies table_of(after)[key] == table_of(routes).insert(
        key_of(route),
        route.handler,
    )[key] by {
        let i = choose|i: int| binds(after, key, i);
        lemma_table_at(after, i);
        assert(key_of(after[i]) == key_of(routes[i]));
        if i != at {
            lemma_table_at(routes, i);
        }
    }
    assert(table_of(after) =~= table_of(routes).insert(key_of(route), route.handler));
}

/// A set of routes in which each key is bound once. The routes stand in a
/// vector and are found by comparing keys, name by name and path by path:
/// equality of keys is all that a lookup rests on.
pub struct RoutesCollection<H> {
    handlers: Vec<HandlerRoute<H>>,
}

impl<H> RoutesCollection<H> {
    #[verifier::type_invariant]
    spec fn well_formed(self) -> bool {
        distinct_keys(self.handlers@)
    }

    /// The mapping from keys to handlers.
    pub closed spec fn table(&self) -> Map<RouteKey, H> {
        table_of(self.handlers@)
    }

    /// No routes.
    pub fn new() -> (routes: Self)
        ensures
            routes.table() == Map::<RouteKey, H>::empty(),
    {
        let routes = RoutesCollection { handlers: Vec::new() };
        assert(routes.table() =~= Map::<RouteKey, H>::empty());
        routes
    }

    /// The number of keys that are bound.
    pub fn len(&self) -> (n: usize)
        ensures
            self.table().dom().finite(),
            n == self.table().dom().len(),
    {
        proof {
            use_type_invariant(self);
            lemma_table_size(self.handlers@);
        }
        self.handlers.len()
    }

    /// The place of the route bound to the key, if there is one.
    fn position(&self, method: &Method, path: &str) -> (found: Option<usize>)
        ensures
            match found {
                Some(i) => binds(self.handlers@, (method@, path@), i as int),
                None => !table_of(self.handlers@).contains_key((method@, path@)),
            },
    {
        let mut i: usize = 0;
        while i < self.handlers.len()
            invariant
                i <= self.handlers.len(),
                forall|k: int| 0 <= k < i ==> !binds(self.handlers@, (method@, path@), k),
            decreases self.handlers.len() - i,
        {
            if str_eq(self.handlers[i].method.as_str(), method.as_str()) && str_eq(
                self.handlers[i].path.as_str(),
                path,
            ) {
                return Some(i);
            }
            i += 1;
        }
        None
    }

    /// The handler bound to the key, if there is one.
    pub fn get(&self, method: &Method, path: &str) -> (found: Option<&H>)
        ensures
            match found {
                Some(handler) => self.table().contains_key((method@, path@)) && *handler
                    == self.table()[(method@, path@)],
                None => !self.table().contains_key((method@, path@)),
            },
    {
        proof {
            use_type_invariant(self);
        }
        match self.position(method, path) {
            Some(i) => {
                proof {
                    lemma_table_at(self.handlers@, i as int);
                }
                Some(&self.handlers[i].handler)
            },
            None => None,
        }
    }

    /// Binds the route's key to its handler. A handler that the key was
    /// bound to before is dropped.
    pub fn route(self, route: HandlerRoute<H>) -> (routes: Self)
        ensures
            routes.table() == self.table().insert(key_of(route), route.handler),
    {
        proof {
            use_type_invariant(&self);
        }
        let found = self.position(&route.method, route.path.as_str());
        let mut handlers = self.handlers;
        match found {
            Some(i) => {
                proof {
                    lemma_table_update(handlers@, i as int, route);
                }
                handlers.set(i, route);
            },
            None => {
                proof {
                    lemma_table_push(handlers@, route);
                }
                handlers.push(route);
            },
        }
        RoutesCollection { handlers }
    }
}

/// Taking the last of distinct routes away leaves distinct routes that do
/// not bind its key, and putting it back gives the mapping again.
proof fn lemma_table_drop_last<H>(routes: Seq<HandlerRoute<H>>)
    requires
        distinct_keys(routes),
        routes.len() > 0,
    ensures
        distinct_keys(routes.drop_last()),
        !table_of(routes.drop_last()).contains_key(key_of(routes.last())),
        table_of(routes) == table_of(routes.drop_last()).insert(
            key_of(routes.last()),
            routes.last().handler,
        ),
{
    let rest = routes.drop_last();
    assert forall|i: int, j: int| 0 <= i < j < rest.len() implies key_of(#[trigger] rest[i])
        != key_of(#[trigger] rest[j]) by {
        assert(rest[i] == routes[i] && rest[j] == routes[j]);
    }
    if table_of(rest).contains_key(key_of(routes.last())) {
        let i = choose|i: int| binds(rest, key_of(routes.last()), i);
        assert(rest[i] == routes[i]);
        assert(key_of(routes[i]) != key_of(routes[routes.len() - 1]));
    }
    lemma_table_push(rest, routes.last());
    assert(rest.push(routes.last()) =~= routes);
}

/// Distinct routes bind as many keys as there are routes.
proof fn lemma_table_size<H>(routes: Seq<HandlerRoute<H>>)
    requires
        distinct_keys(routes),
    ensures
        table_of(routes).dom().finite(),
        table_of(routes).dom().len() == routes.len(),
    decreases routes.len(),
{
    if routes.len() == 0 {
        assert(table_of(routes).dom() =~= Set::<RouteKey>::empty());
    } else {
        lemma_table_drop_last(routes);
        lemma_table_size(routes.drop_last());
        assert(table_of(routes).dom() =~= table_of(routes.drop_last()).dom().insert(
            key_of(routes.last()),
        ));
    }
}

impl<H> RoutesCollection<H> {
    /// Binds every key of `other` to the handler that it has there.
    pub fn merge(self, other: RoutesCollection<H>) -> (routes: Self)
        ensures
            routes.table() == self.table().union_prefer_right(other.table()),
    {
        proof {
            use_type_invariant(&other);
        }
        let mut merged = self;
        let mut rest = other.handlers;
        assert(merged.table().union_prefer_right(table_of(rest@)) =~= self.table().union_prefer_right(
            other.table(),
        ));
        while rest.len() > 0
            invariant
                distinct_keys(rest@),
                merged.table().union_prefer_right(table_of(rest@))
                    == self.table().union_prefer_right(other.table()),
            decreases rest.len(),
        {
            proof {
                lemma_table_drop_last(rest@);
            }
            let ghost before = merged.table();
            let ghost whole = rest@;
            let last = rest.pop();
            match last {
                Some(route) => {
                    merged = merged.route(route);
                    assert(merged.table().union_prefer_right(table_of(rest@))
                        =~= before.union_prefer_right(table_of(whole)));
                },
                None => {},
            }
        }
        assert(table_of(rest@) =~= Map::<RouteKey, H>::empty());
        assert(merged.table().union_prefer_right(table_of(rest@)) =~= merged.table());
        merged
    }
}

/// Why a router could not be built.
#[derive(Clone, Copy, Debug, PartialEq, Eq, Structural)]
pub enum RouterBuilderError {
    /// No handler was given for the requests that no route matches.
    FallbackHandlerMissing,
}

impl RouterBuilderError {
    /// The error in words.
    pub fn message(&self) -> (text: &'static str)
        ensures
            text@ == "handler for fallback case is not installed"@,
    {
        match self {
            RouterBuilderError::FallbackHandlerMissing => "handler for fallback case is not installed",
        }
    }
}

/// The handler that answers a request for `key`: the one bound to the key,
/// or `fallback` where the key is not bound.
pub open spec fn dispatch<H>(table: Map<RouteKey, H>, fallback: H, key: RouteKey) -> H {
    if table.contains_key(key) {
        table[key]
    } else {
        fallback
    }
}

/// Collects routes and the fallback handler of a router.
pub struct RouterBuilder<H> {
    handlers: RoutesCollection<H>,
    fallback_handler: Option<H>,
}

impl<H> RouterBuilder<H> {
    /// The routes collected so far.
    pub closed spec fn table(&self) -> Map<RouteKey, H> {
        self.handlers.table()
    }

    /// The fallback handler, once given.
    pub closed spec fn fallback(&self) -> Option<H> {
        self.fallback_handler
    }

    /// A builder without routes and without a fallback handler.
    pub fn new() -> (builder: Self)
        ensures
            builder.table() == Map::<RouteKey, H>::empty(),
            builder.fallback() is None,
    {
        RouterBuilder { handlers: RoutesCollection::new(), fallback_handler: None }
    }

    /// Sets the handler of the requests that no route matches. A handler set
    /// before is dropped.
    pub fn fallback_handler(self, fallback_handler: H) -> (builder: Self)
        ensures
            builder.table() == self.table(),
            builder.fallback() == Some(fallback_handler),
    {
        RouterBuilder { handlers: self.handlers, fallback_handler: Some(fallback_handler) }
    }

    /// Binds the route's key to its handler. A handler that the key was
    /// bound to before is dropped.
    pub fn route(self, route: HandlerRoute<H>) -> (builder: Self)
        ensures
            builder.table() == self.table().insert(key_of(route), route.handler),
            builder.fallback() == self.fallback(),
    {
        RouterBuilder {
            handlers: self.handlers.route(route),
            fallback_handler: self.fallback_handler,
        }
    }

    /// Binds every key of `routes` to the handler that it has there.
    pub fn routes(self, routes: RoutesCollection<H>) -> (builder: Self)
        ensures
            builder.table() == self.table().union_prefer_right(routes.table()),
            builder.fallback() == self.fallback(),
    {
        RouterBuilder {
            handlers: self.handlers.merge(routes),
            fallback_handler: self.fallback_handler,
        }
    }

    /// Makes the router. This fails if and only if no fallback handler was
    /// given.
    pub fn build(self) -> (result: Result<Router<H>, RouterBuilderError>)
        ensures
            match self.fallback() {
                Some(fallback) => result matches Ok(router) && router.table() == self.table()
                    && router.fallback() == fallback,
                None => result matches Err(RouterBuilderError::FallbackHandlerMissing),
            },
    {
        match self.fallback_handler {
            Some(fallback_handler) => Ok(Router { handlers: self.handlers, fallback_handler }),
            None => Err(RouterBuilderError::FallbackHandlerMissing),
        }
    }
}

impl<H> Default for RouterBuilder<H> {
    fn default() -> (builder: Self)
        ensures
            builder.table() == Map::<RouteKey, H>::empty(),
            builder.fallback() is None,
    {
        RouterBuilder::new()
    }
}

/// The dispatch table of a running service. It is made once and then only
/// read.
pub struct Router<H> {
    handlers: RoutesCollection<H>,
    fallback_handler: H,
}

impl<H> Router<H> {
    /// The routes.
    pub closed spec fn table(&self) -> Map<RouteKey, H> {
        self.handlers.table()
    }

    /// The handler of the requests that no route matches.
    pub closed spec fn fallback(&self) -> H {
        self.fallback_handler
    }

    /// The handler that answers a request with the given method and path.
    pub open spec fn target(&self, method: Seq<char>, path: Seq<char>) -> H {
        dispatch(self.table(), self.fallback(), (method, path))
    }

    /// Finds the handler that answers a request with the given method and
    /// path: the one bound to exactly this pair, else the fallback handler.
    pub fn resolve(&self, method: &Method, path: &str) -> (handler: &H)
        ensures
            *handler == self.target(method@, path@),
    {
        match self.handlers.get(method, path) {
            Some(handler) => handler,
            None => &self.fallback_handler,
        }
    }

    /// Answers a request: hands it to the handler that `resolve` finds and
    /// gives back what the handler returns.
    pub fn process<B, E, Rs>(&self, request: Request<B, E>) -> (response: Rs) where
        H: Fn(Request<B, E>) -> Rs,

        requires
            call_requires(self.target(request.http.method@, request.http.path@), (request,)),
        ensures
            call_ensures(self.target(request.http.method@, request.http.path@), (request,), response),
    {
        let handler = self.resolve(&request.http.method, request.http.path.as_str());
        handler(request)
    }
}

/// A request for a bound key goes to the handler bound to it, whatever the
/// fallback handler is.
pub proof fn law_bound_key_reaches_its_handler<H>(
    table: Map<RouteKey, H>,
    fallback: H,
    other_fallback: H,
    key: RouteKey,
)
    requires
        table.contains_key(key),
    ensures
        dispatch(table, fallback, key) == table[key],
        dispatch(table, fallback, key) == dispatch(table, other_fallback, key),
{
}

/// A request for a key that is not bound goes to the fallback handler,
/// whatever the routes are.
pub proof fn law_unbound_key_reaches_fallback<H>(table: Map<RouteKey, H>, fallback: H, key: RouteKey)
    requires
        !table.contains_key(key),
    ensures
        dispatch(table, fallback, key) == fallback,
{
}

/// Binding a key sends its requests to the new handler and changes the
/// answer to no other key.
pub proof fn law_binding_changes_one_key<H>(
    table: Map<RouteKey, H>,
    fallback: H,
    key: RouteKey,
    handler: H,
    other: RouteKey,
)
    ensures
        dispatch(table.insert(key, handler), fallback, key) == handler,
        other != key ==> dispatch(table.insert(key, handler), fallback, other) == dispatch(
            table,
            fallback,
            other,
        ),
{
}

/// Paths are matched whole: a path that begins with a bound path, or that a
/// bound path begins with, is another key.
pub proof fn law_no_prefix_matching<H>(
    fallback: H,
    handler: H,
    method: Seq<char>,
    path: Seq<char>,
    longer: Seq<char>,
)
    requires
        path.is_prefix_of(longer),
        path != longer,
    ensures
        dispatch(Map::<RouteKey, H>::empty().insert((method, path), handler), fallback, (method, longer))
            == fallback,
        dispatch(Map::<RouteKey, H>::empty().insert((method, longer), handler), fallback, (method, path))
            == fallback,
{
}

} // verus!
