//! The decisions of the request handlers: from what storage answered to the
//! response that is sent. Storage itself is asked by the caller, once per
//! request and twice for a listing, and never again after a failure.

use crate::ident::{UserId, ValidationError};
use crate::models::{
    views_of, CreateUser, PageView, Pagination, PaginationResponse, User, UserView,
};
use crate::pagination::{limit_of, page_of, pages_of};
use vstd::prelude::*;

verus! {

/// A failure of the storage call. What went wrong inside storage is not
/// carried on: it is never shown to the caller of the service.
#[derive(Clone, Copy, Debug, PartialEq, Eq, Structural)]
pub struct StoreError {}

/// The status of a response.
#[derive(Clone, Copy, Debug, PartialEq, Eq, Structural)]
pub enum Status {
    Success,
    Created,
    NoContent,
    BadRequest,
    NotFound,
    InternalServerError,
}

/// What a response carries.
#[derive(Clone, Debug, PartialEq, Eq)]
pub enum Body {
    Empty,
    User(User),
    Page(PaginationResponse<User>),
}

/// A response: its status and what it carries.
#[derive(Clone, Debug, PartialEq, Eq)]
pub struct Response {
    pub status: Status,
    pub body: Body,
}

/// What a response carries, as plain values.
pub enum BodyView {
    Empty,
    User(UserView),
    Page(PageView<UserView>),
}

/// A response, as plain values.
pub struct ResponseView {
    pub status: Status,
    pub body: BodyView,
}

impl View for Body {
    type V = BodyView;

    open spec fn view(&self) -> BodyView {
        match *self {
            Body::Empty => BodyView::Empty,
            Body::User(user) => BodyView::User(user@),
            Body::Page(page) => BodyView::Page(page@),
        }
    }
}

impl View for Response {
    type V = ResponseView;

    open spec fn view(&self) -> ResponseView {
        ResponseView { status: self.status, body: self.body@ }
    }
}

/// A response of the given status that carries nothing.
pub open spec fn bare(status: Status) -> ResponseView {
    ResponseView { status, body: BodyView::Empty }
}

impl Status {
    /// The status as an HTTP status code.
    pub open spec fn code_of(self) -> int {
        match self {
            Status::Success => 200,
            Status::Created => 201,
            Status::NoContent => 204,
            Status::BadRequest => 400,
            Status::NotFound => 404,
            Status::InternalServerError => 500,
        }
    }

    /// The HTTP status code.
    pub fn code(&self) -> (code: u16)
        ensures
            code == self.code_of(),
    {
        match self {
            Status::Success => 200,
            Status::Created => 201,
            Status::NoContent => 204,
            Status::BadRequest => 400,
            Status::NotFound => 404,
            Status::InternalServerError => 500,
        }
    }
}

impl Response {
    /// A response of the given status that carries nothing.
    pub fn empty(status: Status) -> (response: Response)
        ensures
            response@ == bare(status),
    {
        Response { status, body: Body::Empty }
    }
}

/// The response to a creation: the created user where storage took the row,
/// a server error where it failed.
pub open spec fn create_reply(
    id: UserId,
    name: Seq<char>,
    email: Seq<char>,
    stored: Result<u64, StoreError>,
) -> ResponseView {
    match stored {
        Ok(_) => ResponseView {
            status: Status::Created,
            body: BodyView::User(UserView { id: Some(id), name, email }),
        },
        Err(_) => bare(Status::InternalServerError),
    }
}

/// The response to a lookup: the user where one was found, not-found where
/// none was, a server error where storage failed.
pub open spec fn get_reply(found: Result<Option<UserView>, StoreError>) -> ResponseView {
    match found {
        Ok(Some(user)) => ResponseView { status: Status::Success, body: BodyView::User(user) },
        Ok(None) => bare(Status::NotFound),
        Err(_) => bare(Status::InternalServerError),
    }
}

/// The response to an update, by the number of rows it wrote: success for
/// exactly one, not-found for any other number, a server error where storage
/// failed.
pub open spec fn update_reply(written: Result<u64, StoreError>) -> ResponseView {
    match written {
        Ok(rows) => if rows == 1 {
            bare(Status::Success)
        } else {
            bare(Status::NotFound)
        },
        Err(_) => bare(Status::InternalServerError),
    }
}

/// The response to a deletion, by the number of rows it removed: no-content
/// for exactly one, not-found for any other number, a server error where
/// storage failed.
pub open spec fn delete_reply(removed: Result<u64, StoreError>) -> ResponseView {
    match removed {
        Ok(rows) => if rows == 1 {
            bare(Status::NoContent)
        } else {
            bare(Status::NotFound)
        },
        Err(_) => bare(Status::InternalServerError),
    }
}

/// The count that a listing reports: what storage counted, zero where it
/// gave no number.
pub open spec fn counted(total: Option<i64>) -> int {
    match total {
        Some(count) => count as int,
        None => 0,
    }
}

/// The response to a listing: the page with the window that was served and
/// the totals where both reads succeeded, a server error where either failed.
pub open spec fn list_reply(
    page: Option<i64>,
    limit: Option<i64>,
    rows: Result<Seq<UserView>, StoreError>,
    total: Result<Option<i64>, StoreError>,
) -> ResponseView {
    match (rows, total) {
        (Ok(data), Ok(count)) => ResponseView {
            status: Status::Success,
            body: BodyView::Page(
                PageView {
                    data,
                    page: page_of(page),
                    limit: limit_of(limit),
                    total: counted(count),
                    total_page: pages_of(counted(count), limit_of(limit)),
                },
            ),
        },
        _ => bare(Status::InternalServerError),
    }
}

/// The rows of a read, as plain values.
pub open spec fn rows_view(rows: Result<Vec<User>, StoreError>) -> Result<
    Seq<UserView>,
    StoreError,
> {
    match rows {
        Ok(users) => Ok(views_of(users@)),
        Err(error) => Err(error),
    }
}

/// What a lookup found, as plain values.
pub open spec fn found_view(found: Result<Option<User>, StoreError>) -> Result<
    Option<UserView>,
    StoreError,
> {
    match found {
        Ok(Some(user)) => Ok(Some(user@)),
        Ok(None) => Ok(None),
        Err(error) => Err(error),
    }
}

/// The response to a request that failed validation: a bad request,
/// whatever the failure, and nothing of it in the body.
pub fn reject(error: ValidationError) -> (response: Response)
    ensures
        response@ == bare(Status::BadRequest),
{
    match error {
        ValidationError::MalformedId => Response::empty(Status::BadRequest),
        ValidationError::MalformedBody => Response::empty(Status::BadRequest),
    }
}

/// Concludes a creation: `id` is the identifier drawn for the new user,
/// `data` the fields received, `stored` what storage answered to the insert.
pub fn create_user(id: UserId, data: &CreateUser, stored: Result<u64, StoreError>) -> (response:
    Response)
    ensures
        response@ == create_reply(id, data.name@, data.email@, stored),
{
    match stored {
        Ok(_) => Response { status: Status::Created, body: Body::User(data.into_user(id)) },
        Err(_) => Response::empty(Status::InternalServerError),
    }
}

/// Concludes a lookup by identifier: `found` is what storage answered.
pub fn get_user(found: Result<Option<User>, StoreError>) -> (response: Response)
    ensures
        response@ == get_reply(found_view(found)),
{
    match found {
        Ok(Some(user)) => Response { status: Status::Success, body: Body::User(user) },
        Ok(None) => Response::empty(Status::NotFound),
        Err(_) => Response::empty(Status::InternalServerError),
    }
}

/// Concludes an update: `written` is the number of rows that storage wrote.
pub fn update_user(written: Result<u64, StoreError>) -> (response: Response)
    ensures
        response@ == update_reply(written),
{
    match written {
        Ok(rows) => {
            if rows == 1 {
                Response::empty(Status::Success)
            } else {
                Response::empty(Status::NotFound)
            }
        },
        Err(_) => Response::empty(Status::InternalServerError),
    }
}

/// Concludes a deletion: `removed` is the number of rows that storage
/// removed.
pub fn delete_user(removed: Result<u64, StoreError>) -> (response: Response)
    ensures
        response@ == delete_reply(removed),
{
    match removed {
        Ok(rows) => {
            if rows == 1 {
                Response::empty(Status::NoContent)
            } else {
                Response::empty(Status::NotFound)
            }
        },
        Err(_) => Response::empty(Status::InternalServerError),
    }
}

/// Concludes a listing: `query` is the window that was asked for, `rows` the
/// page that storage read for it, `total` its count of all rows. The two
/// reads are independent: the count may be of a moment before or after the
/// page. Nothing of one read is sent where the other failed.
pub fn get_users(
    query: &Pagination,
    rows: Result<Vec<User>, StoreError>,
    total: Result<Option<i64>, StoreError>,
) -> (response: Response)
    ensures
        response@ == list_reply(query.page, query.limit, rows_view(rows), total),
{
    let page: i64 = query.page();
    let limit: i64 = query.limit();
    match (rows, total) {
        (Ok(data), Ok(count)) => {
            let total: i64 = match count {
                Some(n) => n,
                None => 0,
            };
            let total_page: i64 = crate::pagination::total_pages(total, limit);
            Response {
                status: Status::Success,
                body: Body::Page(PaginationResponse { data, page, limit, total, total_page }),
            }
        },
        _ => Response::empty(Status::InternalServerError),
    }
}

} // verus!
