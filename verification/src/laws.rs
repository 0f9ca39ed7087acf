//! What holds of every exchange between a request and the users table.

use crate::decimal::numeral_text;
use crate::handler::{exchange, plan_of, reply_of, StepView};
use crate::json::{decoded_user, user_json};
use crate::request::{body_of, id_of, read_request_names_its_id, route_of, Route};
use crate::response::Status;
use crate::store::{
    execute_keeps_wf, id_names_one_row, row_index, row_index_is_first, TableView,
};
use crate::text::is_space;
use crate::user::UserView;
use vstd::prelude::*;

verus! {

/// Every request leaves a well-formed table well formed.
pub proof fn exchange_keeps_wf(t: TableView, r: Seq<char>)
    requires
        t.wf(),
    ensures
        exchange(t, r).0.wf(),
{
    match plan_of(r) {
        StepView::Ask(command) => {
            execute_keeps_wf(t, command);
        },
        _ => {},
    }
}

/// Create, then read: where the body of `post` gives a user and the table
/// has an id left, the request is answered with "User created", the new row
/// gets an id that is positive and that no row had, and a request that
/// reads that id is answered with the user's JSON text: that id, and the
/// name and the email of the body.
pub proof fn created_user_is_read_back(t: TableView, post: Seq<char>, get: Seq<char>)
    requires
        t.wf(),
        t.has_room(),
        route_of(post) == Route::Create,
        decoded_user(body_of(post)) is Ok,
        route_of(get) == Route::Read,
        id_of(get) == Some(t.next_id as i32),
    ensures
        ({
            let sent = decoded_user(body_of(post))->Ok_0;
            let id = t.next_id as i32;
            let created = exchange(t, post);
            let read = exchange(created.0, get);
            &&& created.1 == reply_of(Status::Success, "User created"@)
            &&& id > 0
            &&& !t.has(id)
            &&& created.0.has(id)
            &&& read.0 == created.0
            &&& read.1 == reply_of(
                Status::Success,
                user_json(UserView { id: Some(id), name: sent.name, email: sent.email }),
            )
        }),
{
    let id = t.next_id as i32;
    let after = exchange(t, post).0;
    row_index_is_first(t.rows, id, 0);
    row_index_is_first(after.rows, id, 0);
    let k = row_index(t.rows, id, 0);
    if k < t.rows.len() {
        assert(t.rows[k].id->0 < t.next_id);
    }
    let n = t.rows.len() as int;
    assert(after.rows[n].id == Some(id));
    let m = row_index(after.rows, id, 0);
    if m < n {
        assert(after.rows[m] == t.rows[m]);
        assert(t.rows[m].id->0 < t.next_id);
    }
}

/// Reading all users of an empty table is answered with an empty JSON array.
pub proof fn empty_table_reads_as_empty_array(t: TableView, r: Seq<char>)
    requires
        route_of(r) == Route::ReadAll,
        t.rows.len() == 0,
    ensures
        exchange(t, r) == (t, reply_of(Status::Success, "[]"@)),
{
    reveal_strlit("[");
    reveal_strlit("]");
    reveal_strlit("[]");
    assert("["@ + Seq::<char>::empty() + "]"@ =~= "[]"@);
}

/// Reading an id that no row has is answered with "User not found", and the
/// table stays as it is.
pub proof fn missing_user_is_not_found(t: TableView, r: Seq<char>, id: i32)
    requires
        route_of(r) == Route::Read,
        id_of(r) == Some(id),
        !t.has(id),
    ensures
        exchange(t, r) == (t, reply_of(Status::NotFound, "User not found"@)),
{
}

/// Updating an id that no row has is answered with "User not found", and
/// the table stays as it is.
pub proof fn update_of_missing_user_is_not_found(t: TableView, r: Seq<char>, id: i32)
    requires
        route_of(r) == Route::Update,
        id_of(r) == Some(id),
        decoded_user(body_of(r)) is Ok,
        !t.has(id),
    ensures
        exchange(t, r) == (t, reply_of(Status::NotFound, "User not found"@)),
{
}

/// Updating an id that a row has is answered with "User updated". The row
/// with that id gets the name and the email of the body and keeps its id;
/// every other row, the number of rows and their order stay as they are.
pub proof fn update_changes_one_row(t: TableView, r: Seq<char>, id: i32)
    requires
        t.wf(),
        route_of(r) == Route::Update,
        id_of(r) == Some(id),
        decoded_user(body_of(r)) is Ok,
        t.has(id),
    ensures
        ({
            let sent = decoded_user(body_of(r))->Ok_0;
            let after = exchange(t, r).0;
            &&& exchange(t, r).1 == reply_of(Status::Success, "User updated"@)
            &&& after.next_id == t.next_id
            &&& after.rows.len() == t.rows.len()
            &&& forall|i: int|
                0 <= i < t.rows.len() ==> #[trigger] after.rows[i] == if t.rows[i].id == Some(id) {
                    UserView { id: Some(id), name: sent.name, email: sent.email }
                } else {
                    t.rows[i]
                }
        }),
{
    let after = exchange(t, r).0;
    let k = row_index(t.rows, id, 0);
    row_index_is_first(t.rows, id, 0);
    assert forall|i: int| 0 <= i < t.rows.len() && t.rows[i].id == Some(id) implies i == k by {
        id_names_one_row(t, i, k);
    }
}

/// Deleting an id that a row has is answered with "User deleted": that row
/// leaves the table, the others stay in their order, and a request that then
/// reads the id is answered with "User not found".
pub proof fn deleted_user_is_gone(t: TableView, delete: Seq<char>, get: Seq<char>, id: i32)
    requires
        t.wf(),
        route_of(delete) == Route::Delete,
        id_of(delete) == Some(id),
        t.has(id),
        route_of(get) == Route::Read,
        id_of(get) == Some(id),
    ensures
        ({
            let deleted = exchange(t, delete);
            let read = exchange(deleted.0, get);
            &&& deleted.1 == reply_of(Status::Success, "User deleted"@)
            &&& deleted.0.rows == t.rows.remove(row_index(t.rows, id, 0))
            &&& deleted.0.next_id == t.next_id
            &&& !deleted.0.has(id)
            &&& read == (deleted.0, reply_of(Status::NotFound, "User not found"@))
        }),
{
    let after = exchange(t, delete).0;
    let k = row_index(t.rows, id, 0);
    row_index_is_first(t.rows, id, 0);
    row_index_is_first(after.rows, id, 0);
    let m = row_index(after.rows, id, 0);
    if m < after.rows.len() {
        let a = if m < k {
            m
        } else {
            m + 1
        };
        assert(after.rows[m] == t.rows[a]);
        id_names_one_row(t, a, k);
    }
}

/// Deleting an id that no row has is answered with "User not found", and
/// the table stays as it is.
pub proof fn delete_of_missing_user_is_not_found(t: TableView, r: Seq<char>, id: i32)
    requires
        route_of(r) == Route::Delete,
        id_of(r) == Some(id),
        !t.has(id),
    ensures
        exchange(t, r) == (t, reply_of(Status::NotFound, "User not found"@)),
{
}

/// A request that begins with none of the five method-and-path prefixes is
/// answered with "NOT FOUND", whatever else it holds, and the table stays
/// as it is.
pub proof fn unrouted_request_is_not_found(t: TableView, r: Seq<char>)
    requires
        !"POST /users"@.is_prefix_of(r),
        !"GET /users/"@.is_prefix_of(r),
        !"GET /users"@.is_prefix_of(r),
        !"PUT /users/"@.is_prefix_of(r),
        !"DELETE /users"@.is_prefix_of(r),
    ensures
        exchange(t, r) == (t, reply_of(Status::NotFound, "NOT FOUND"@)),
{
}

/// Create, then read by the path of the new id: where the body of `post`
/// gives a user and the table has an id left, a request of the form
/// `GET /users/<id>` with the new id, ended there or followed by white space
/// and anything, is answered with the user's JSON text.
pub proof fn created_user_is_read_by_its_path(t: TableView, post: Seq<char>, tail: Seq<char>)
    requires
        t.wf(),
        t.has_room(),
        route_of(post) == Route::Create,
        decoded_user(body_of(post)) is Ok,
        tail.len() == 0 || is_space(tail[0]),
    ensures
        ({
            let sent = decoded_user(body_of(post))->Ok_0;
            let id = t.next_id as i32;
            let get = "GET /users/"@ + numeral_text(id as int) + tail;
            exchange(exchange(t, post).0, get).1 == reply_of(
                Status::Success,
                user_json(UserView { id: Some(id), name: sent.name, email: sent.email }),
            )
        }),
{
    let id = t.next_id as i32;
    let get = "GET /users/"@ + numeral_text(id as int) + tail;
    read_request_names_its_id(id, tail);
    created_user_is_read_back(t, post, get);
}

} // verus!
