//! The routes of the service: a fixed table from verb and path shape to
//! handler, and the resolution of a request line against it.

use crate::ident::{has_uuid_length, uuid_of_text, UserId, ValidationError};
use vstd::prelude::*;
use vstd::string::*;

verus! {

/// The verb of a request.
#[derive(Clone, Copy, Debug, PartialEq, Eq, Structural)]
pub enum Method {
    Get,
    Post,
    Put,
    Delete,
    /// Any verb that no route takes.
    Other,
}

/// The two shapes of path that the service knows: the collection, `/users`,
/// and one user, `/users/{id}`.
#[derive(Clone, Copy, Debug, PartialEq, Eq, Structural)]
pub enum Shape {
    Collection,
    Item,
}

/// The handlers that a route can lead to.
#[derive(Clone, Copy, Debug, PartialEq, Eq, Structural)]
pub enum Handler {
    CreateUser,
    GetUsers,
    GetUser,
    UpdateUser,
    DeleteUser,
}

/// One route: requests with this verb on a path of this shape go to this
/// handler.
#[derive(Clone, Copy, Debug, PartialEq, Eq, Structural)]
pub struct Route {
    pub method: Method,
    pub shape: Shape,
    pub handler: Handler,
}

/// What a request line resolves to.
#[derive(Clone, Copy, Debug, PartialEq, Eq, Structural)]
pub enum Resolution {
    /// A route takes the request. The identifier is the one in the path, on
    /// the routes whose path has one.
    Matched(Handler, Option<UserId>),
    /// A route takes the request, but what the path gives as identifier is
    /// none.
    Invalid(ValidationError),
    /// No route takes the request.
    NoRoute,
}

/// The routes of the service, in the order in which they are tried.
pub open spec fn route_table() -> Seq<Route> {
    seq![
        Route { method: Method::Post, shape: Shape::Collection, handler: Handler::CreateUser },
        Route { method: Method::Get, shape: Shape::Collection, handler: Handler::GetUsers },
        Route { method: Method::Get, shape: Shape::Item, handler: Handler::GetUser },
        Route { method: Method::Put, shape: Shape::Item, handler: Handler::UpdateUser },
        Route { method: Method::Delete, shape: Shape::Item, handler: Handler::DeleteUser },
    ]
}

/// The handler of the first route in `routes` that takes this verb on this
/// shape of path.
pub open spec fn handler_for(routes: Seq<Route>, method: Method, shape: Shape) -> Option<Handler>
    decreases routes.len(),
{
    if routes.len() == 0 {
        None
    } else if routes[0].method == method && routes[0].shape == shape {
        Some(routes[0].handler)
    } else {
        handler_for(routes.drop_first(), method, shape)
    }
}

/// The path of the collection.
pub open spec fn collection_path() -> Seq<char> {
    seq!['/', 'u', 's', 'e', 'r', 's']
}

/// The shape of a path: the collection's path itself, or that path, a slash
/// and one segment that is not empty and holds no slash.
pub open spec fn shape_of(path: Seq<char>) -> Option<Shape> {
    if path == collection_path() {
        Some(Shape::Collection)
    } else if path.len() > 7 && path.subrange(0, 6) == collection_path() && path[6] == '/'
        && !segment_of(path).contains('/') {
        Some(Shape::Item)
    } else {
        None
    }
}

/// The segment of a path that follows the collection's path and a slash.
pub open spec fn segment_of(path: Seq<char>) -> Seq<char> {
    path.subrange(7, path.len() as int)
}

/// What a verb and a path resolve to against a table of routes. The path's
/// shape and the verb pick the route; only then is the identifier read.
pub open spec fn resolution_of(routes: Seq<Route>, method: Method, path: Seq<char>) -> Resolution {
    match shape_of(path) {
        None => Resolution::NoRoute,
        Some(shape) => match handler_for(routes, method, shape) {
            None => Resolution::NoRoute,
            Some(handler) => match shape {
                Shape::Collection => Resolution::Matched(handler, None),
                Shape::Item => match uuid_of_text(segment_of(path)) {
                    Some(value) => Resolution::Matched(handler, Some(UserId { value })),
                    None => Resolution::Invalid(ValidationError::MalformedId),
                },
            },
        },
    }
}

/// The routes of the service.
pub fn user_routes() -> (routes: Vec<Route>)
    ensures
        routes@ == route_table(),
{
    let mut routes: Vec<Route> = Vec::new();
    routes.push(
        Route { method: Method::Post, shape: Shape::Collection, handler: Handler::CreateUser },
    );
    routes.push(
        Route { method: Method::Get, shape: Shape::Collection, handler: Handler::GetUsers },
    );
    routes.push(Route { method: Method::Get, shape: Shape::Item, handler: Handler::GetUser });
    routes.push(Route { method: Method::Put, shape: Shape::Item, handler: Handler::UpdateUser });
    routes.push(
        Route { method: Method::Delete, shape: Shape::Item, handler: Handler::DeleteUser },
    );
    assert(routes@ =~= route_table());
    routes
}

/// Finds the handler of the first route that takes this verb on this shape
/// of path.
pub fn find_handler(routes: &Vec<Route>, method: Method, shape: Shape) -> (handler: Option<
    Handler,
>)
    ensures
        handler == handler_for(routes@, method, shape),
{
    let mut i: usize = 0;
    assert(routes@.subrange(0, routes.len() as int) =~= routes@);
    while i < routes.len()
        invariant
            i <= routes.len(),
            handler_for(routes@, method, shape) == handler_for(
                routes@.subrange(i as int, routes.len() as int),
                method,
                shape,
            ),
        decreases routes.len() - i,
    {
        let ghost rest: Seq<Route> = routes@.subrange(i as int, routes.len() as int);
        assert(rest[0] == routes@[i as int]);
        assert(rest.drop_first() =~= routes@.subrange(i as int + 1, routes.len() as int));
        if routes[i].method == method && routes[i].shape == shape {
            return Some(routes[i].handler);
        }
        i += 1;
    }
    None
}

/// Tells the shape of a path.
pub fn path_shape(path: &str) -> (shape: Option<Shape>)
    ensures
        shape == shape_of(path@),
{
    let len: usize = path.unicode_len();
    if len < 6 {
        return None;
    }
    let stem: bool = path.get_char(0) == '/' && path.get_char(1) == 'u' && path.get_char(2) == 's'
        && path.get_char(3) == 'e' && path.get_char(4) == 'r' && path.get_char(5) == 's';
    assert(stem == (path@.subrange(0, 6) =~= collection_path()));
    if !stem {
        return None;
    }
    if len == 6 {
        assert(path@.subrange(0, 6) =~= path@);
        return Some(Shape::Collection);
    }
    if len == 7 || path.get_char(6) != '/' {
        return None;
    }
    let mut k: usize = 7;
    while k < len
        invariant
            7 <= k <= len,
            len == path@.len(),
            forall|j: int| 7 <= j < k ==> path@[j] != '/',
        decreases len - k,
    {
        if path.get_char(k) == '/' {
            assert(segment_of(path@)[k - 7] == '/');
            return None;
        }
        k += 1;
    }
    assert(!segment_of(path@).contains('/')) by {
        if segment_of(path@).contains('/') {
            let j = choose|j: int|
                0 <= j < segment_of(path@).len() && segment_of(path@)[j] == '/';
            assert(path@[j + 7] == '/');
        }
    }
    Some(Shape::Item)
}

/// Resolves a verb and a path against a table of routes. On a route that
/// takes an identifier, a segment that has not the length of a UUID is a
/// validation failure.
pub fn resolve(routes: &Vec<Route>, method: Method, path: &str) -> (resolution: Resolution)
    ensures
        resolution == resolution_of(routes@, method, path@),
        shape_of(path@) == Some(Shape::Item) && handler_for(routes@, method, Shape::Item) is Some
            && !has_uuid_length(segment_of(path@)) ==> resolution == Resolution::Invalid(
            ValidationError::MalformedId,
        ),
{
    let shape: Shape = match path_shape(path) {
        Some(shape) => shape,
        None => {
            return Resolution::NoRoute;
        },
    };
    let handler: Handler = match find_handler(routes, method, shape) {
        Some(handler) => handler,
        None => {
            return Resolution::NoRoute;
        },
    };
    match shape {
        Shape::Collection => Resolution::Matched(handler, None),
        Shape::Item => {
            let len: usize = path.unicode_len();
            let segment: &str = path.substring_char(7, len);
            match UserId::parse(segment) {
                Ok(id) => Resolution::Matched(handler, Some(id)),
                Err(error) => Resolution::Invalid(error),
            }
        },
    }
}

} // verus!
