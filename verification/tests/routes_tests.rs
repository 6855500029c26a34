use user_service::ident::{UserId, ValidationError};
use user_service::routes::{
    find_handler, path_shape, resolve, user_routes, Handler, Method, Resolution, Route, Shape,
};

const ID_TEXT: &str = "/users/550e8400-e29b-41d4-a716-446655440000";
const ID_VALUE: u128 = 0x550e8400e29b41d4a716446655440000;

#[test]
fn table_lists_the_five_routes() {
    assert_eq!(
        user_routes(),
        vec![
            Route { method: Method::Post, shape: Shape::Collection, handler: Handler::CreateUser },
            Route { method: Method::Get, shape: Shape::Collection, handler: Handler::GetUsers },
            Route { method: Method::Get, shape: Shape::Item, handler: Handler::GetUser },
            Route { method: Method::Put, shape: Shape::Item, handler: Handler::UpdateUser },
            Route { method: Method::Delete, shape: Shape::Item, handler: Handler::DeleteUser },
        ]
    );
}

#[test]
fn paths_have_two_shapes() {
    assert_eq!(path_shape("/users"), Some(Shape::Collection));
    assert_eq!(path_shape("/users/abc"), Some(Shape::Item));
    assert_eq!(path_shape(ID_TEXT), Some(Shape::Item));
    assert_eq!(path_shape("/users/"), None);
    assert_eq!(path_shape("/users/a/b"), None);
    assert_eq!(path_shape("/users/a/"), None);
    assert_eq!(path_shape("/userz"), None);
    assert_eq!(path_shape("/usersx"), None);
    assert_eq!(path_shape("/user"), None);
    assert_eq!(path_shape("users"), None);
    assert_eq!(path_shape(""), None);
    assert_eq!(path_shape("/"), None);
    assert_eq!(path_shape("/health"), None);
    assert_eq!(path_shape("/users/\u{e9}t\u{e9}"), Some(Shape::Item));
}

#[test]
fn first_matching_route_gives_the_handler() {
    let routes = user_routes();
    assert_eq!(find_handler(&routes, Method::Get, Shape::Item), Some(Handler::GetUser));
    assert_eq!(find_handler(&routes, Method::Post, Shape::Item), None);
    assert_eq!(find_handler(&routes, Method::Other, Shape::Collection), None);
    let doubled = vec![
        Route { method: Method::Get, shape: Shape::Item, handler: Handler::DeleteUser },
        Route { method: Method::Get, shape: Shape::Item, handler: Handler::GetUser },
    ];
    assert_eq!(find_handler(&doubled, Method::Get, Shape::Item), Some(Handler::DeleteUser));
    assert_eq!(find_handler(&vec![], Method::Get, Shape::Item), None);
}

#[test]
fn collection_routes_resolve() {
    let routes = user_routes();
    assert_eq!(
        resolve(&routes, Method::Post, "/users"),
        Resolution::Matched(Handler::CreateUser, None)
    );
    assert_eq!(
        resolve(&routes, Method::Get, "/users"),
        Resolution::Matched(Handler::GetUsers, None)
    );
    assert_eq!(resolve(&routes, Method::Put, "/users"), Resolution::NoRoute);
    assert_eq!(resolve(&routes, Method::Delete, "/users"), Resolution::NoRoute);
    assert_eq!(resolve(&routes, Method::Other, "/users"), Resolution::NoRoute);
}

#[test]
fn item_routes_resolve_with_the_identifier() {
    let routes = user_routes();
    let id = Some(UserId { value: ID_VALUE });
    assert_eq!(resolve(&routes, Method::Get, ID_TEXT), Resolution::Matched(Handler::GetUser, id));
    assert_eq!(
        resolve(&routes, Method::Put, ID_TEXT),
        Resolution::Matched(Handler::UpdateUser, id)
    );
    assert_eq!(
        resolve(&routes, Method::Delete, ID_TEXT),
        Resolution::Matched(Handler::DeleteUser, id)
    );
    assert_eq!(resolve(&routes, Method::Post, ID_TEXT), Resolution::NoRoute);
}

#[test]
fn malformed_identifier_is_a_validation_failure_on_each_route() {
    let routes = user_routes();
    let invalid = Resolution::Invalid(ValidationError::MalformedId);
    assert_eq!(resolve(&routes, Method::Get, "/users/not-an-id"), invalid);
    assert_eq!(resolve(&routes, Method::Put, "/users/not-an-id"), invalid);
    assert_eq!(resolve(&routes, Method::Delete, "/users/not-an-id"), invalid);
    assert_eq!(resolve(&routes, Method::Get, "/users/123"), invalid);
    assert_eq!(
        resolve(&routes, Method::Get, "/users/550e8400-e29b-41d4-a716-44665544000z"),
        invalid
    );
}

#[test]
fn unknown_paths_have_no_route() {
    let routes = user_routes();
    assert_eq!(resolve(&routes, Method::Get, "/"), Resolution::NoRoute);
    assert_eq!(resolve(&routes, Method::Get, "/users/"), Resolution::NoRoute);
    assert_eq!(resolve(&routes, Method::Get, "/users/a/b"), Resolution::NoRoute);
    assert_eq!(resolve(&routes, Method::Get, "/health"), Resolution::NoRoute);
    assert_eq!(resolve(&vec![], Method::Get, "/users"), Resolution::NoRoute);
}
