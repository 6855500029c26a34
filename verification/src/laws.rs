//! What holds of the service as a whole: how the handlers' responses follow
//! from the table's operations, one after another.

use crate::handlers::{
    bare, create_reply, delete_reply, get_reply, update_reply, BodyView, ResponseView, Status,
};
use crate::ident::{uuid_of_text, UserId, ValidationError};
use crate::models::{merged_user, UserView};
use crate::pagination::{limit_of, offset_of, page_of, pages_of, storage_offset_of};
use crate::routes::{
    handler_for, resolution_of, route_table, segment_of, shape_of, Method, Resolution, Shape,
};
use crate::table::{
    accepts, deleted, found, holds, inserted, lemma_delete_keeps_order, lemma_insert_keeps_order,
    lemma_update_keeps_order, matching, page_rows, position, updated, well_formed,
};
use vstd::prelude::*;

verus! {

/// A user that was created is found under the identifier it was created
/// with, and with the name and email it was created with: the creation
/// answers with the user, and a lookup after it answers with the same user.
pub proof fn created_user_is_found(
    rows: Seq<UserView>,
    id: UserId,
    name: Seq<char>,
    email: Seq<char>,
)
    requires
        well_formed(rows),
        accepts(rows, id),
    ensures
        well_formed(inserted(rows, UserView { id: Some(id), name, email })),
        create_reply(id, name, email, Ok(1)) == (ResponseView {
            status: Status::Created,
            body: BodyView::User(UserView { id: Some(id), name, email }),
        }),
        get_reply(Ok(found(inserted(rows, UserView { id: Some(id), name, email }), id)))
            == (ResponseView {
            status: Status::Success,
            body: BodyView::User(UserView { id: Some(id), name, email }),
        }),
{
    let row = UserView { id: Some(id), name, email };
    let after = inserted(rows, row);
    lemma_insert_keeps_order(rows, row);
    assert(after[rows.len() as int] == row);
    assert(holds(after, id));
    let at = position(after, id);
    if at != rows.len() {
        assert(after[at] == rows[at]);
    }
}

/// After a deletion no user is found under the identifier: a lookup answers
/// not-found, and so does a second deletion.
pub proof fn deleted_user_is_not_found(rows: Seq<UserView>, id: UserId)
    requires
        well_formed(rows),
    ensures
        well_formed(deleted(rows, id)),
        get_reply(Ok(found(deleted(rows, id), id))) == bare(Status::NotFound),
        delete_reply(Ok(matching(deleted(rows, id), id))) == bare(Status::NotFound),
        holds(rows, id) ==> delete_reply(Ok(matching(rows, id))) == bare(Status::NoContent),
{
    lemma_delete_keeps_order(rows, id);
}

/// An update replaces the fields it gives and keeps the others: the user
/// found after it is the user found before it with each given field merged
/// in, under the same identifier, and every other user is found as before.
pub proof fn update_merges_fields(
    rows: Seq<UserView>,
    id: UserId,
    name: Option<Seq<char>>,
    email: Option<Seq<char>>,
)
    requires
        well_formed(rows),
        holds(rows, id),
    ensures
        update_reply(Ok(matching(rows, id))) == bare(Status::Success),
        found(updated(rows, id, name, email), id) == Some(
            merged_user(found(rows, id).unwrap(), name, email),
        ),
        name is None ==> found(updated(rows, id, name, email), id).unwrap().name == found(
            rows,
            id,
        ).unwrap().name,
        email is None ==> found(updated(rows, id, name, email), id).unwrap().email == found(
            rows,
            id,
        ).unwrap().email,
        forall|other: UserId|
            other != id ==> #[trigger] found(updated(rows, id, name, email), other) == found(
                rows,
                other,
            ),
{
    let after = updated(rows, id, name, email);
    lemma_update_keeps_order(rows, id, name, email);
    let at = position(rows, id);
    assert(after[at].id == Some(id));
    assert(holds(after, id));
    let at_after = position(after, id);
    if at_after != at {
        assert(after[at_after].id == rows[at_after].id);
    }
    assert forall|other: UserId| other != id implies #[trigger] found(after, other) == found(
        rows,
        other,
    ) by {
        if holds(rows, other) {
            let p = position(rows, other);
            assert(after[p].id == Some(other));
            assert(holds(after, other));
            let q = position(after, other);
            if q != p {
                assert(after[q].id == rows[q].id);
            }
            assert(after[p] == rows[p]);
        } else if holds(after, other) {
            let q = position(after, other);
            assert(after[q].id == rows[q].id);
        }
    }
}

/// An update or a deletion under an identifier that the table does not hold
/// answers not-found, never a server error, and leaves the table as it is; a
/// lookup under it answers not-found too.
pub proof fn unknown_user_is_not_found(
    rows: Seq<UserView>,
    id: UserId,
    name: Option<Seq<char>>,
    email: Option<Seq<char>>,
)
    requires
        well_formed(rows),
        !holds(rows, id),
    ensures
        update_reply(Ok(matching(rows, id))) == bare(Status::NotFound),
        delete_reply(Ok(matching(rows, id))) == bare(Status::NotFound),
        get_reply(Ok(found(rows, id))) == bare(Status::NotFound),
        updated(rows, id, name, email) == rows,
        deleted(rows, id) == rows,
{
    let after = updated(rows, id, name, email);
    assert forall|i: int| 0 <= i < rows.len() implies after[i] == rows[i] by {
        assert(rows[i].id != Some(id));
    }
    assert(after =~= rows);
}

/// The window that is served lies within the bounds whatever was asked: the
/// page is at least the first, the limit between one and a hundred. What was
/// asked within the bounds is served as asked, what was asked beyond them is
/// served at the nearest bound.
pub proof fn window_is_clamped(page: Option<i64>, limit: Option<i64>)
    ensures
        page_of(page) >= 1,
        1 <= limit_of(limit) <= 100,
        page is None ==> page_of(page) == 1,
        limit is None ==> limit_of(limit) == 10,
        page is Some && page.unwrap() >= 1 ==> page_of(page) == page.unwrap(),
        page is Some && page.unwrap() < 1 ==> page_of(page) == 1,
        limit is Some && 1 <= limit.unwrap() <= 100 ==> limit_of(limit) == limit.unwrap(),
        limit is Some && limit.unwrap() > 100 ==> limit_of(limit) == 100,
        limit is Some && limit.unwrap() < 1 ==> limit_of(limit) == 1,
{
}

/// The number of pages is the quotient of the rows by the limit, rounded up:
/// that many pages hold all rows, and one page fewer would not.
pub proof fn pages_cover_rows(total: int, limit: int)
    requires
        limit >= 1,
    ensures
        (pages_of(total, limit) - 1) * limit < total <= pages_of(total, limit) * limit,
{
    vstd::arithmetic::div_mod::lemma_fundamental_div_mod(total, limit);
    vstd::arithmetic::div_mod::lemma_mod_bound(total, limit);
    let q = total / limit;
    let r = total % limit;
    assert(limit * q == q * limit) by (nonlinear_arith);
    assert((q - 1) * limit == q * limit - limit) by (nonlinear_arith);
    assert((q + 1) * limit == q * limit + limit) by (nonlinear_arith);
}

/// A page for which there is no offset to ask storage with is empty: its
/// first row would lie behind every row that a table can hold. So the empty
/// page is served for it without a read.
pub proof fn far_page_is_empty(rows: Seq<UserView>, page: int, limit: int)
    requires
        well_formed(rows),
        storage_offset_of(page, limit) is None,
    ensures
        page_rows(rows, limit, offset_of(page, limit)) == Seq::<UserView>::empty(),
{
    assert(page_rows(rows, limit, offset_of(page, limit)) =~= Seq::<UserView>::empty());
}

/// Where there is an offset to ask storage with, it is the offset of the
/// page, exactly, and not below zero for a window that is served.
pub proof fn storage_offset_is_exact(page: Option<i64>, limit: Option<i64>)
    ensures
        match storage_offset_of(page_of(page), limit_of(limit)) {
            Some(offset) => offset == (page_of(page) - 1) * limit_of(limit) && offset >= 0,
            None => (page_of(page) - 1) * limit_of(limit) > i64::MAX,
        },
{
    let p = page_of(page);
    let l = limit_of(limit);
    assert(0 <= (p - 1) * l) by (nonlinear_arith)
        requires
            p >= 1,
            l >= 1,
    ;
}

/// A listing is in the order of creation, youngest first, and nothing else
/// decides it: the page that starts at the first row and has room for all is
/// the table read backwards.
pub proof fn full_page_is_youngest_first(rows: Seq<UserView>)
    ensures
        page_rows(rows, rows.len() as int, 0) == rows.reverse(),
{
    assert(page_rows(rows, rows.len() as int, 0) =~= rows.reverse());
}

/// Pages follow one another without a gap and without a row in two of them:
/// a page and the page after it are together the page of twice the limit at
/// the same offset.
pub proof fn pages_follow_one_another(rows: Seq<UserView>, limit: int, offset: int)
    requires
        limit >= 0,
        offset >= 0,
    ensures
        page_rows(rows, limit, offset) + page_rows(rows, limit, offset + limit) == page_rows(
            rows,
            2 * limit,
            offset,
        ),
{
    assert(page_rows(rows, limit, offset) + page_rows(rows, limit, offset + limit) =~= page_rows(
        rows,
        2 * limit,
        offset,
    ));
}

/// On every route that takes an identifier, a path whose identifier is
/// malformed resolves to a validation failure: no handler is reached and
/// storage is not asked.
pub proof fn malformed_id_is_rejected(method: Method, path: Seq<char>)
    requires
        shape_of(path) == Some(Shape::Item),
        handler_for(route_table(), method, Shape::Item) is Some,
        uuid_of_text(segment_of(path)) is None,
    ensures
        resolution_of(route_table(), method, path) == Resolution::Invalid(
            ValidationError::MalformedId,
        ),
{
}

/// The routes that take an identifier are those of the verbs GET, PUT and
/// DELETE on the path of one user; POST and GET are taken on the collection.
pub proof fn routes_by_verb(method: Method)
    ensures
        handler_for(route_table(), method, Shape::Item) is Some <==> method == Method::Get
            || method == Method::Put || method == Method::Delete,
        handler_for(route_table(), method, Shape::Collection) is Some <==> method == Method::Post
            || method == Method::Get,
{
    reveal_with_fuel(handler_for, 6);
    let t = route_table();
    assert(t.drop_first()[0] == t[1]);
    assert(t.drop_first().drop_first()[0] == t[2]);
    assert(t.drop_first().drop_first().drop_first()[0] == t[3]);
    assert(t.drop_first().drop_first().drop_first().drop_first()[0] == t[4]);
    assert(t.drop_first().drop_first().drop_first().drop_first().drop_first().len() == 0);
}

} // verus!
