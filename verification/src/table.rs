//! An in-memory table of users. It states what the storage operations of the
//! service mean: insert, select by identifier, select a page, count, update
//! by identifier and delete by identifier.

use crate::handlers::StoreError;
use crate::ident::UserId;
use crate::models::{field_view, merged_user, views_of, CreateUser, UpdateUser, User, UserView};
use vstd::prelude::*;

verus! {

/// Whether a table's rows are in order: each has an identifier, no identifier
/// occurs twice, and the count of rows fits the type that reports it.
pub open spec fn well_formed(rows: Seq<UserView>) -> bool {
    &&& rows.len() <= i64::MAX
    &&& forall|i: int| 0 <= i < rows.len() ==> (#[trigger] rows[i]).id is Some
    &&& forall|i: int, j: int|
        0 <= i < rows.len() && 0 <= j < rows.len() && i != j ==> (#[trigger] rows[i]).id != (
        #[trigger] rows[j]).id
}

/// Whether a row with this identifier is in the table.
pub open spec fn holds(rows: Seq<UserView>, id: UserId) -> bool {
    exists|i: int| 0 <= i < rows.len() && (#[trigger] rows[i]).id == Some(id)
}

/// The index of the row with this identifier, in a table that holds one.
pub open spec fn position(rows: Seq<UserView>, id: UserId) -> int {
    choose|i: int| 0 <= i < rows.len() && (#[trigger] rows[i]).id == Some(id)
}

/// The row with this identifier, if the table holds one.
pub open spec fn found(rows: Seq<UserView>, id: UserId) -> Option<UserView> {
    if holds(rows, id) {
        Some(rows[position(rows, id)])
    } else {
        None
    }
}

/// The number of rows with this identifier: one or none.
pub open spec fn matching(rows: Seq<UserView>, id: UserId) -> u64 {
    if holds(rows, id) {
        1
    } else {
        0
    }
}

/// Whether the table takes a new row under this identifier: it holds none
/// under it yet, and has room.
pub open spec fn accepts(rows: Seq<UserView>, id: UserId) -> bool {
    !holds(rows, id) && rows.len() < i64::MAX
}

/// The table after a row was added: the new row is the last, the youngest.
pub open spec fn inserted(rows: Seq<UserView>, row: UserView) -> Seq<UserView> {
    rows.push(row)
}

/// The table after an update by identifier: the row with this identifier has
/// each given field replaced, every other row is as it was.
pub open spec fn updated(
    rows: Seq<UserView>,
    id: UserId,
    name: Option<Seq<char>>,
    email: Option<Seq<char>>,
) -> Seq<UserView> {
    rows.map_values(
        |row: UserView|
            if row.id == Some(id) {
                merged_user(row, name, email)
            } else {
                row
            },
    )
}

/// The table after a deletion by identifier: the row with this identifier is
/// gone, the others keep their order.
pub open spec fn deleted(rows: Seq<UserView>, id: UserId) -> Seq<UserView> {
    if holds(rows, id) {
        rows.remove(position(rows, id))
    } else {
        rows
    }
}

/// The number of rows on the page that starts `offset` rows in and has at
/// most `limit` rows, in a table of `len` rows.
pub open spec fn page_len(len: int, limit: int, offset: int) -> int {
    if offset >= len || limit <= 0 {
        0
    } else if len - offset < limit {
        len - offset
    } else {
        limit
    }
}

/// The rows of a page, youngest first: the row at index `k` of the page is
/// the one that has `offset + k` younger rows in the table.
pub open spec fn page_rows(rows: Seq<UserView>, limit: int, offset: int) -> Seq<UserView> {
    Seq::new(
        page_len(rows.len() as int, limit, offset) as nat,
        |k: int| rows[rows.len() - 1 - offset - k],
    )
}

/// A table of users in the order of their creation, oldest first.
pub struct UserTable {
    rows: Vec<User>,
}

impl View for UserTable {
    type V = Seq<UserView>;

    closed spec fn view(&self) -> Seq<UserView> {
        views_of(self.rows@)
    }
}

impl UserTable {
    /// The invariant of a table: see `well_formed`.
    pub open spec fn wf(&self) -> bool {
        well_formed(self@)
    }

    /// A table without rows.
    pub fn new() -> (table: UserTable)
        ensures
            table.wf(),
            table@ == Seq::<UserView>::empty(),
    {
        let table = UserTable { rows: Vec::new() };
        assert(table@ =~= Seq::<UserView>::empty());
        table
    }

    /// The index of the row with this identifier.
    fn index_of(&self, id: UserId) -> (at: Option<usize>)
        requires
            self.wf(),
        ensures
            at is Some == holds(self@, id),
            at is Some ==> at.unwrap() == position(self@, id) && at.unwrap() < self.rows.len(),
    {
        let mut i: usize = 0;
        while i < self.rows.len()
            invariant
                i <= self.rows.len(),
                self.wf(),
                forall|k: int| 0 <= k < i ==> (#[trigger] self@[k]).id != Some(id),
            decreases self.rows.len() - i,
        {
            let here: bool = match self.rows[i].id {
                Some(other) => other.value == id.value,
                None => false,
            };
            assert(self@[i as int] == self.rows@[i as int]@);
            if here {
                assert(self@[i as int].id == Some(id));
                assert(holds(self@, id));
                return Some(i);
            }
            i += 1;
        }
        None
    }

    /// Counts all rows.
    pub fn count(&self) -> (total: i64)
        requires
            self.wf(),
        ensures
            total == self@.len(),
    {
        self.rows.len() as i64
    }

    /// Adds a row for a new user. A table that already holds the identifier,
    /// or has no room, refuses and stays as it is.
    pub fn insert(&mut self, id: UserId, data: &CreateUser) -> (stored: Result<u64, StoreError>)
        requires
            old(self).wf(),
        ensures
            final(self).wf(),
            accepts(old(self)@, id) ==> stored == Ok::<u64, StoreError>(1) && final(self)@
                == inserted(
                old(self)@,
                UserView { id: Some(id), name: data.name@, email: data.email@ },
            ),
            !accepts(old(self)@, id) ==> stored is Err && final(self)@ == old(self)@,
    {
        if self.rows.len() as u64 >= 0x7fff_ffff_ffff_ffffu64 {
            return Err(StoreError {  });
        }
        match self.index_of(id) {
            Some(_) => Err(StoreError {  }),
            None => {
                let row: User = data.into_user(id);
                let ghost before: Seq<UserView> = self@;
                self.rows.push(row);
                proof {
                    assert(self@ =~= before.push(row@));
                    lemma_insert_keeps_order(before, row@);
                }
                Ok(1)
            },
        }
    }

    /// Selects the row with this identifier.
    pub fn find(&self, id: UserId) -> (row: Option<User>)
        requires
            self.wf(),
        ensures
            match row {
                Some(user) => found(self@, id) == Some(user@),
                None => found(self@, id) is None,
            },
    {
        match self.index_of(id) {
            Some(at) => {
                assert(self@[at as int] == self.rows@[at as int]@);
                Some(self.rows[at].duplicate())
            },
            None => None,
        }
    }

    /// Selects a page of rows, youngest first. A negative limit or offset is
    /// an error, as it is to a database.
    pub fn page(&self, limit: i64, offset: i64) -> (rows: Result<Vec<User>, StoreError>)
        requires
            self.wf(),
        ensures
            limit < 0 || offset < 0 ==> rows is Err,
            limit >= 0 && offset >= 0 ==> rows is Ok && views_of(rows.unwrap()@) == page_rows(
                self@,
                limit as int,
                offset as int,
            ),
    {
        if limit < 0 || offset < 0 {
            return Err(StoreError {  });
        }
        let len: i64 = self.rows.len() as i64;
        let count: i64 = if offset >= len || limit == 0 {
            0
        } else if len - offset < limit {
            len - offset
        } else {
            limit
        };
        let mut out: Vec<User> = Vec::new();
        let mut k: i64 = 0;
        while k < count
            invariant
                self.wf(),
                len == self.rows.len(),
                offset >= 0,
                limit >= 0,
                count == page_len(len as int, limit as int, offset as int),
                0 <= k <= count,
                out.len() == k,
                forall|j: int|
                    0 <= j < k ==> (#[trigger] out@[j])@ == self@[len - 1 - offset - j],
            decreases count - k,
        {
            let at: usize = (len - 1 - offset - k) as usize;
            assert(self@[at as int] == self.rows@[at as int]@);
            out.push(self.rows[at].duplicate());
            k += 1;
        }
        assert(views_of(out@) =~= page_rows(self@, limit as int, offset as int));
        Ok(out)
    }

    /// Updates the row with this identifier: each field that `changes` gives
    /// replaces the stored one, each absent field is left. Returns the number
    /// of rows written.
    pub fn update(&mut self, id: UserId, changes: &UpdateUser) -> (written: u64)
        requires
            old(self).wf(),
        ensures
            final(self).wf(),
            written == matching(old(self)@, id),
            final(self)@ == updated(
                old(self)@,
                id,
                field_view(changes.name),
                field_view(changes.email),
            ),
    {
        let ghost before: Seq<UserView> = self@;
        let ghost name: Option<Seq<char>> = field_view(changes.name);
        let ghost email: Option<Seq<char>> = field_view(changes.email);
        match self.index_of(id) {
            Some(at) => {
                assert(before[at as int] == self.rows@[at as int]@);
                let row: User = changes.apply(&self.rows[at]);
                self.rows.set(at, row);
                proof {
                    assert forall|k: int| 0 <= k < before.len() implies #[trigger] self@[k]
                        == updated(before, id, name, email)[k] by {
                        if k != at {
                            assert(before[k].id != before[at as int].id);
                            assert(self@[k] == self.rows@[k]@);
                        }
                    }
                    assert(self@ =~= updated(before, id, name, email));
                    lemma_update_keeps_order(before, id, name, email);
                }
                1
            },
            None => {
                proof {
                    assert(self@ =~= updated(before, id, name, email));
                }
                0
            },
        }
    }

    /// Deletes the row with this identifier. Returns the number of rows
    /// removed.
    pub fn delete(&mut self, id: UserId) -> (removed: u64)
        requires
            old(self).wf(),
        ensures
            final(self).wf(),
            removed == matching(old(self)@, id),
            final(self)@ == deleted(old(self)@, id),
    {
        let ghost before: Seq<UserView> = self@;
        match self.index_of(id) {
            Some(at) => {
                let _ = self.rows.remove(at);
                proof {
                    assert(self@ =~= before.remove(at as int));
                    lemma_delete_keeps_order(before, id);
                }
                1
            },
            None => 0,
        }
    }
}

/// A well-formed table with a new row under an identifier it did not hold is
/// well formed.
pub proof fn lemma_insert_keeps_order(rows: Seq<UserView>, row: UserView)
    requires
        well_formed(rows),
        row.id is Some,
        accepts(rows, row.id.unwrap()),
    ensures
        well_formed(inserted(rows, row)),
{
    let after = inserted(rows, row);
    assert forall|i: int, j: int|
        0 <= i < after.len() && 0 <= j < after.len() && i != j implies (#[trigger] after[i]).id != (
    #[trigger] after[j]).id by {
        if i < rows.len() && j < rows.len() {
            assert(after[i] == rows[i] && after[j] == rows[j]);
        } else if i < rows.len() {
            assert(after[i] == rows[i]);
        } else {
            assert(after[j] == rows[j]);
        }
    }
    assert forall|i: int| 0 <= i < after.len() implies (#[trigger] after[i]).id is Some by {
        if i < rows.len() {
            assert(after[i] == rows[i]);
        }
    }
}

/// An update keeps every row's identifier, and so the table well formed.
pub proof fn lemma_update_keeps_order(
    rows: Seq<UserView>,
    id: UserId,
    name: Option<Seq<char>>,
    email: Option<Seq<char>>,
)
    requires
        well_formed(rows),
    ensures
        well_formed(updated(rows, id, name, email)),
        updated(rows, id, name, email).len() == rows.len(),
        forall|i: int|
            0 <= i < rows.len() ==> (#[trigger] updated(rows, id, name, email)[i]).id == rows[i].id,
{
    let after = updated(rows, id, name, email);
    assert forall|i: int| 0 <= i < rows.len() implies (#[trigger] after[i]).id == rows[i].id by {}
    assert forall|i: int, j: int|
        0 <= i < after.len() && 0 <= j < after.len() && i != j implies (#[trigger] after[i]).id != (
    #[trigger] after[j]).id by {
        assert(after[i].id == rows[i].id && after[j].id == rows[j].id);
    }
    assert forall|i: int| 0 <= i < after.len() implies (#[trigger] after[i]).id is Some by {
        assert(after[i].id == rows[i].id);
    }
}

/// A deletion leaves the table well formed and without the identifier.
pub proof fn lemma_delete_keeps_order(rows: Seq<UserView>, id: UserId)
    requires
        well_formed(rows),
    ensures
        well_formed(deleted(rows, id)),
        !holds(deleted(rows, id), id),
{
    let after = deleted(rows, id);
    if holds(rows, id) {
        let at = position(rows, id);
        assert forall|i: int| 0 <= i < after.len() implies (#[trigger] after[i]).id is Some
            && after[i].id != Some(id) by {
            if i < at {
                assert(after[i] == rows[i]);
            } else {
                assert(after[i] == rows[i + 1]);
            }
        }
        assert forall|i: int, j: int|
            0 <= i < after.len() && 0 <= j < after.len() && i != j implies (
        #[trigger] after[i]).id != (#[trigger] after[j]).id by {
            let si = if i < at { i } else { i + 1 };
            let sj = if j < at { j } else { j + 1 };
            assert(after[i] == rows[si] && after[j] == rows[sj]);
        }
    }
}

} // verus!
