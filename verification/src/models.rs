//! The user entity and the shapes in which requests and responses carry it.

use crate::ident::UserId;
use vstd::prelude::*;

verus! {

/// A stored user.
#[derive(Clone, Debug, PartialEq, Eq)]
pub struct User {
    pub id: Option<UserId>,
    pub name: String,
    pub email: String,
}

/// What a user is, as plain values.
pub struct UserView {
    pub id: Option<UserId>,
    pub name: Seq<char>,
    pub email: Seq<char>,
}

impl View for User {
    type V = UserView;

    open spec fn view(&self) -> UserView {
        UserView { id: self.id, name: self.name@, email: self.email@ }
    }
}

/// The fields from which a user is created.
#[derive(Clone, Debug, PartialEq, Eq)]
pub struct CreateUser {
    pub name: String,
    pub email: String,
}

/// The fields that an update may replace. An absent field keeps what is
/// stored.
#[derive(Clone, Debug, PartialEq, Eq)]
pub struct UpdateUser {
    pub name: Option<String>,
    pub email: Option<String>,
}

/// The page and limit that a listing asks for.
#[derive(Clone, Copy, Debug, PartialEq, Eq)]
pub struct Pagination {
    pub page: Option<i64>,
    pub limit: Option<i64>,
}

/// One page of a listing, with the window that was served and the totals.
#[derive(Clone, Debug, PartialEq, Eq)]
pub struct PaginationResponse<T> {
    pub data: Vec<T>,
    pub page: i64,
    pub limit: i64,
    pub total: i64,
    pub total_page: i64,
}

/// What a page of a listing is, as plain values.
pub struct PageView<V> {
    pub data: Seq<V>,
    pub page: int,
    pub limit: int,
    pub total: int,
    pub total_page: int,
}

impl<T: View> View for PaginationResponse<T> {
    type V = PageView<T::V>;

    open spec fn view(&self) -> PageView<T::V> {
        PageView {
            data: self.data@.map_values(|item: T| item@),
            page: self.page as int,
            limit: self.limit as int,
            total: self.total as int,
            total_page: self.total_page as int,
        }
    }
}

/// The views of a sequence of users, in the same order.
pub open spec fn views_of(users: Seq<User>) -> Seq<UserView> {
    users.map_values(|user: User| user@)
}

/// The stored value that an update leaves in a field: the new value where
/// one is given, else what was there.
pub open spec fn merged_field(given: Option<Seq<char>>, stored: Seq<char>) -> Seq<char> {
    match given {
        Some(value) => value,
        None => stored,
    }
}

/// The text of an optional field, as plain values.
pub open spec fn field_view(field: Option<String>) -> Option<Seq<char>> {
    match field {
        Some(text) => Some(text@),
        None => None,
    }
}

/// A user after an update with the given fields: the identifier is kept, and
/// each field is merged on its own.
pub open spec fn merged_user(
    stored: UserView,
    name: Option<Seq<char>>,
    email: Option<Seq<char>>,
) -> UserView {
    UserView {
        id: stored.id,
        name: merged_field(name, stored.name),
        email: merged_field(email, stored.email),
    }
}

impl User {
    /// A copy with the same identifier, name and email.
    pub fn duplicate(&self) -> (copy: User)
        ensures
            copy@ == self@,
    {
        User { id: self.id, name: self.name.clone(), email: self.email.clone() }
    }
}

impl CreateUser {
    /// The user that these fields make under the identifier `id`.
    pub fn into_user(&self, id: UserId) -> (user: User)
        ensures
            user@ == (UserView { id: Some(id), name: self.name@, email: self.email@ }),
    {
        User { id: Some(id), name: self.name.clone(), email: self.email.clone() }
    }
}

impl UpdateUser {
    /// Applies the update to a user: each field that is given replaces the
    /// stored one, each absent field leaves it.
    pub fn apply(&self, stored: &User) -> (updated: User)
        ensures
            updated@ == merged_user(stored@, field_view(self.name), field_view(self.email)),
    {
        let name: String = match &self.name {
            Some(value) => value.clone(),
            None => stored.name.clone(),
        };
        let email: String = match &self.email {
            Some(value) => value.clone(),
            None => stored.email.clone(),
        };
        User { id: stored.id, name, email }
    }
}

impl Pagination {
    /// The page that is served.
    pub fn page(&self) -> (page: i64)
        ensures
            page == crate::pagination::page_of(self.page),
    {
        crate::pagination::effective_page(self.page)
    }

    /// The limit that is served.
    pub fn limit(&self) -> (limit: i64)
        ensures
            limit == crate::pagination::limit_of(self.limit),
    {
        crate::pagination::effective_limit(self.limit)
    }

    /// The offset of the first row that is served, with which storage is
    /// asked for the page. There is none where the page lies beyond what
    /// storage can be asked for; such a page is empty.
    pub fn offset(&self) -> (offset: Option<i64>)
        ensures
            offset == crate::pagination::storage_offset_of(
                crate::pagination::page_of(self.page),
                crate::pagination::limit_of(self.limit),
            ),
            offset is Some ==> offset.unwrap() >= 0,
    {
        crate::pagination::page_offset(self.page(), self.limit())
    }
}

} // verus!
