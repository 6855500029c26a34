use user_service::handlers::{
    create_user, delete_user, get_user, get_users, update_user, Body, Response, Status,
    StoreError,
};
use user_service::ident::UserId;
use user_service::models::{CreateUser, Pagination, PaginationResponse, UpdateUser, User};
use user_service::table::UserTable;

fn fields(name: &str, email: &str) -> CreateUser {
    CreateUser { name: name.to_string(), email: email.to_string() }
}

fn user(value: u128, name: &str, email: &str) -> User {
    User { id: Some(UserId { value }), name: name.to_string(), email: email.to_string() }
}

fn table_of(count: u128) -> UserTable {
    let mut table = UserTable::new();
    for value in 1..=count {
        let data = fields(&format!("user{}", value), &format!("user{}@x.com", value));
        assert_eq!(table.insert(UserId { value }, &data), Ok(1));
    }
    table
}

fn read_page(table: &UserTable, query: &Pagination) -> Result<Vec<User>, StoreError> {
    match query.offset() {
        Some(offset) => table.page(query.limit(), offset),
        None => Ok(Vec::new()),
    }
}

fn numbered(value: u128) -> User {
    user(value, &format!("user{}", value), &format!("user{}@x.com", value))
}

#[test]
fn new_table_is_empty() {
    let table = UserTable::new();
    assert_eq!(table.count(), 0);
    assert_eq!(table.find(UserId { value: 1 }), None);
    assert_eq!(table.page(10, 0), Ok(vec![]));
}

#[test]
fn created_user_is_found_with_its_fields() {
    let mut table = UserTable::new();
    let id = UserId::generate();
    let data = fields("A", "a@x.com");
    let stored = table.insert(id, &data);
    let created = create_user(id, &data, stored);
    assert_eq!(created.status, Status::Created);
    let returned = match created.body {
        Body::User(user) => user,
        _ => panic!("creation answers with the user"),
    };
    let found = get_user(Ok(table.find(returned.id.unwrap())));
    assert_eq!(found.status, Status::Success);
    assert_eq!(
        found.body,
        Body::User(User { id: Some(id), name: "A".to_string(), email: "a@x.com".to_string() })
    );
}

#[test]
fn deleted_user_is_not_found_again() {
    let mut table = table_of(3);
    let id = UserId { value: 2 };
    assert_eq!(delete_user(Ok(table.delete(id))).status, Status::NoContent);
    assert_eq!(get_user(Ok(table.find(id))), Response { status: Status::NotFound, body: Body::Empty });
    assert_eq!(delete_user(Ok(table.delete(id))).status, Status::NotFound);
    assert_eq!(table.count(), 2);
    assert_eq!(table.page(10, 0), Ok(vec![numbered(3), numbered(1)]));
}

#[test]
fn update_with_a_name_keeps_the_email() {
    let mut table = UserTable::new();
    let id = UserId { value: 11 };
    assert_eq!(table.insert(id, &fields("A", "a@x.com")), Ok(1));
    let changes = UpdateUser { name: Some("B".to_string()), email: None };
    assert_eq!(update_user(Ok(table.update(id, &changes))).status, Status::Success);
    assert_eq!(
        get_user(Ok(table.find(id))),
        Response { status: Status::Success, body: Body::User(user(11, "B", "a@x.com")) }
    );
}

#[test]
fn update_touches_no_other_user() {
    let mut table = table_of(3);
    let changes = UpdateUser { name: None, email: Some("new@x.com".to_string()) };
    assert_eq!(table.update(UserId { value: 2 }, &changes), 1);
    assert_eq!(table.find(UserId { value: 1 }), Some(numbered(1)));
    assert_eq!(table.find(UserId { value: 2 }), Some(user(2, "user2", "new@x.com")));
    assert_eq!(table.find(UserId { value: 3 }), Some(numbered(3)));
    assert_eq!(table.count(), 3);
}

#[test]
fn unknown_identifier_is_not_found() {
    let mut table = table_of(2);
    let id = UserId { value: 99 };
    let changes = UpdateUser { name: Some("B".to_string()), email: None };
    assert_eq!(
        update_user(Ok(table.update(id, &changes))),
        Response { status: Status::NotFound, body: Body::Empty }
    );
    assert_eq!(
        delete_user(Ok(table.delete(id))),
        Response { status: Status::NotFound, body: Body::Empty }
    );
    assert_eq!(get_user(Ok(table.find(id))).status, Status::NotFound);
    assert_eq!(table.count(), 2);
    assert_eq!(table.page(10, 0), Ok(vec![numbered(2), numbered(1)]));
}

#[test]
fn identifier_in_use_is_refused() {
    let mut table = table_of(1);
    let again = table.insert(UserId { value: 1 }, &fields("Z", "z@x.com"));
    assert!(again.is_err());
    assert_eq!(create_user(UserId { value: 1 }, &fields("Z", "z@x.com"), again).status,
        Status::InternalServerError);
    assert_eq!(table.count(), 1);
    assert_eq!(table.find(UserId { value: 1 }), Some(numbered(1)));
}

#[test]
fn pages_run_from_the_youngest() {
    let table = table_of(5);
    assert_eq!(table.page(2, 0), Ok(vec![numbered(5), numbered(4)]));
    assert_eq!(table.page(2, 2), Ok(vec![numbered(3), numbered(2)]));
    assert_eq!(table.page(2, 4), Ok(vec![numbered(1)]));
    assert_eq!(table.page(2, 5), Ok(vec![]));
    assert_eq!(table.page(2, i64::MAX), Ok(vec![]));
    assert_eq!(table.page(0, 0), Ok(vec![]));
    assert_eq!(table.page(100, 0).map(|rows| rows.len()), Ok(5));
}

#[test]
fn negative_window_is_a_storage_failure() {
    let table = table_of(2);
    assert!(table.page(-1, 0).is_err());
    assert!(table.page(1, -1).is_err());
}

#[test]
fn listing_twice_gives_the_same_page() {
    let table = table_of(7);
    let query = Pagination { page: Some(2), limit: Some(3) };
    let first = get_users(&query, read_page(&table, &query), Ok(Some(table.count())));
    let second = get_users(&query, read_page(&table, &query), Ok(Some(table.count())));
    assert_eq!(first, second);
    assert_eq!(
        first,
        Response {
            status: Status::Success,
            body: Body::Page(PaginationResponse {
                data: vec![numbered(4), numbered(3), numbered(2)],
                page: 2,
                limit: 3,
                total: 7,
                total_page: 3,
            }),
        }
    );
}

#[test]
fn listing_a_page_far_out_is_empty() {
    let table = table_of(3);
    let query = Pagination { page: Some(i64::MAX), limit: Some(100) };
    assert_eq!(query.offset(), None);
    let response = get_users(&query, read_page(&table, &query), Ok(Some(table.count())));
    assert_eq!(
        response.body,
        Body::Page(PaginationResponse {
            data: vec![],
            page: i64::MAX,
            limit: 100,
            total: 3,
            total_page: 1,
        })
    );
}
