//! The request handler: what each request asks of the users table, and the
//! response that each reply of the table gives.
//!
//! A request is handled in two steps with the table between them. `plan`
//! reads the request and either answers it at once or names the command for
//! the table; `respond` turns the table's reply into the response. Whoever
//! holds the table runs the command: `handle_request` does so on a table in
//! memory.

use crate::json::{
    decode_user, decoded_user, decoding_view, encode_user, encode_users, user_json, users_json,
    PayloadError,
};
use crate::request::{
    body_of, id_of, request_body, request_id, route, route_of, Route,
};
use crate::response::{rendered, Response, ResponseView, Status};
use crate::store::{
    StoreCommand, StoreCommandView, StoreReply, StoreReplyView, TableView, UserTable,
};
use crate::user::User;
use vstd::prelude::*;

verus! {

/// What to do with a request once it has been read.
#[derive(Debug, PartialEq, Eq)]
pub enum Step {
    /// Answer with this response; the table is not asked.
    Respond(Response),
    /// Send this command to the table and answer by its reply.
    Ask(StoreCommand),
}

/// A step as a mathematical value.
pub enum StepView {
    Respond(ResponseView),
    Ask(StoreCommandView),
}

impl View for Step {
    type V = StepView;

    open spec fn view(&self) -> StepView {
        match self {
            Step::Respond(r) => StepView::Respond(r@),
            Step::Ask(c) => StepView::Ask(c@),
        }
    }
}

/// The response with the status `status` and the body `body`.
pub open spec fn reply_of(status: Status, body: Seq<char>) -> ResponseView {
    ResponseView { status, body }
}

/// The step for a request that creates a user: insert the name and the email
/// of its body, or fail where the body gives no user.
pub open spec fn create_plan(r: Seq<char>) -> StepView {
    match decoded_user(body_of(r)) {
        Ok(user) => StepView::Ask(
            StoreCommandView::Insert { name: user.name, email: user.email },
        ),
        Err(_) => StepView::Respond(
            reply_of(Status::InternalServerError, "Error creating user"@),
        ),
    }
}

/// The step for a request that reads one user: select by the id of its path,
/// or fail where the path names none.
pub open spec fn read_plan(r: Seq<char>) -> StepView {
    match id_of(r) {
        Some(id) => StepView::Ask(StoreCommandView::SelectById(id)),
        None => StepView::Respond(reply_of(Status::InternalServerError, "Error getting user"@)),
    }
}

/// The step for a request that reads all users.
pub open spec fn read_all_plan(r: Seq<char>) -> StepView {
    StepView::Ask(StoreCommandView::SelectAll)
}

/// The step for a request that updates a user: give the row with the id of
/// its path the name and the email of its body, or fail where either is
/// missing.
pub open spec fn update_plan(r: Seq<char>) -> StepView {
    match (id_of(r), decoded_user(body_of(r))) {
        (Some(id), Ok(user)) => StepView::Ask(
            StoreCommandView::Update { id, name: user.name, email: user.email },
        ),
        _ => StepView::Respond(reply_of(Status::InternalServerError, "Error updating user"@)),
    }
}

/// The step for a request that deletes a user: delete by the id of its path,
/// or fail where the path names none.
pub open spec fn delete_plan(r: Seq<char>) -> StepView {
    match id_of(r) {
        Some(id) => StepView::Ask(StoreCommandView::Delete(id)),
        None => StepView::Respond(reply_of(Status::InternalServerError, "Error deleting user"@)),
    }
}

/// The step for the request text `r`, by its route.
pub open spec fn plan_of(r: Seq<char>) -> StepView {
    match route_of(r) {
        Route::Create => create_plan(r),
        Route::Read => read_plan(r),
        Route::ReadAll => read_all_plan(r),
        Route::Update => update_plan(r),
        Route::Delete => delete_plan(r),
        Route::NotFound => StepView::Respond(reply_of(Status::NotFound, "NOT FOUND"@)),
    }
}

/// The response to the reply `reply` that the table gave to `command`.
///
/// A command that changed or found no row is answered with 404, and so is an
/// update or a select that the table refused. Where the table could not be
/// reached, or the reply is of a kind that the command does not have, the
/// answer is 500 with the message of the operation.
pub open spec fn response_to(command: StoreCommandView, reply: StoreReplyView) -> ResponseView {
    match command {
        StoreCommandView::Insert { .. } => match reply {
            StoreReplyView::Affected(_) => reply_of(Status::Success, "User created"@),
            _ => reply_of(Status::InternalServerError, "Error creating user"@),
        },
        StoreCommandView::SelectById(_) => match reply {
            StoreReplyView::Rows(rows) => if rows.len() > 0 {
                reply_of(Status::Success, user_json(rows[0]))
            } else {
                reply_of(Status::NotFound, "User not found"@)
            },
            StoreReplyView::Failed => reply_of(Status::NotFound, "User not found"@),
            _ => reply_of(Status::InternalServerError, "Error getting user"@),
        },
        StoreCommandView::SelectAll => match reply {
            StoreReplyView::Rows(rows) => reply_of(Status::Success, users_json(rows)),
            _ => reply_of(Status::InternalServerError, "Error getting users"@),
        },
        StoreCommandView::Update { .. } => match reply {
            StoreReplyView::Affected(n) => if n > 0 {
                reply_of(Status::Success, "User updated"@)
            } else {
                reply_of(Status::NotFound, "User not found"@)
            },
            StoreReplyView::Failed => reply_of(Status::NotFound, "User not found"@),
            _ => reply_of(Status::InternalServerError, "Error updating user"@),
        },
        StoreCommandView::Delete(_) => match reply {
            StoreReplyView::Affected(n) => if n > 0 {
                reply_of(Status::Success, "User deleted"@)
            } else {
                reply_of(Status::NotFound, "User not found"@)
            },
            _ => reply_of(Status::InternalServerError, "Error deleting user"@),
        },
    }
}

/// The table after the step `step` and the response to it, on the table `t`.
pub open spec fn settle(t: TableView, step: StepView) -> (TableView, ResponseView) {
    match step {
        StepView::Respond(r) => (t, r),
        StepView::Ask(command) => {
            let (after, reply) = t.execute(command);
            (after, response_to(command, reply))
        },
    }
}

/// The table after the request text `r` and the response to it, on the
/// table `t`.
pub open spec fn exchange(t: TableView, r: Seq<char>) -> (TableView, ResponseView) {
    settle(t, plan_of(r))
}

/// The user that the body of a request gives.
pub fn get_user_request_body(request: &str) -> (r: Result<User, PayloadError>)
    ensures
        decoding_view(r) == decoded_user(body_of(request@)),
{
    decode_user(request_body(request))
}

/// The step for a request that creates a user.
pub fn plan_create(request: &str) -> (step: Step)
    ensures
        step@ == create_plan(request@),
{
    match get_user_request_body(request) {
        Ok(user) => Step::Ask(StoreCommand::Insert { name: user.name, email: user.email }),
        Err(_) => Step::Respond(Response::new(Status::InternalServerError, "Error creating user")),
    }
}

/// The step for a request that reads one user.
pub fn plan_read(request: &str) -> (step: Step)
    ensures
        step@ == read_plan(request@),
{
    match request_id(request) {
        Some(id) => Step::Ask(StoreCommand::SelectById(id)),
        None => Step::Respond(Response::new(Status::InternalServerError, "Error getting user")),
    }
}

/// The step for a request that reads all users.
pub fn plan_read_all(request: &str) -> (step: Step)
    ensures
        step@ == read_all_plan(request@),
{
    Step::Ask(StoreCommand::SelectAll)
}

/// The step for a request that updates a user.
pub fn plan_update(request: &str) -> (step: Step)
    ensures
        step@ == update_plan(request@),
{
    let id = request_id(request);
    let user = get_user_request_body(request);
    match (id, user) {
        (Some(id), Ok(user)) => Step::Ask(
            StoreCommand::Update { id, name: user.name, email: user.email },
        ),
        _ => Step::Respond(Response::new(Status::InternalServerError, "Error updating user")),
    }
}

/// The step for a request that deletes a user.
pub fn plan_delete(request: &str) -> (step: Step)
    ensures
        step@ == delete_plan(request@),
{
    match request_id(request) {
        Some(id) => Step::Ask(StoreCommand::Delete(id)),
        None => Step::Respond(Response::new(Status::InternalServerError, "Error deleting user")),
    }
}

/// Reads a request: routes it, and gives the step of its operation.
pub fn plan(request: &str) -> (step: Step)
    ensures
        step@ == plan_of(request@),
{
    match route(request) {
        Route::Create => plan_create(request),
        Route::Read => plan_read(request),
        Route::ReadAll => plan_read_all(request),
        Route::Update => plan_update(request),
        Route::Delete => plan_delete(request),
        Route::NotFound => Step::Respond(Response::new(Status::NotFound, "NOT FOUND")),
    }
}

/// The response to the reply that the table gave to `command`.
pub fn respond(command: &StoreCommand, reply: StoreReply) -> (response: Response)
    ensures
        response@ == response_to(command@, reply@),
{
    match command {
        StoreCommand::Insert { .. } => match reply {
            StoreReply::Affected(_) => Response::new(Status::Success, "User created"),
            _ => Response::new(Status::InternalServerError, "Error creating user"),
        },
        StoreCommand::SelectById(_) => match reply {
            StoreReply::Rows(rows) => {
                if rows.len() > 0 {
                    Response { status: Status::Success, body: encode_user(&rows[0]) }
                } else {
                    Response::new(Status::NotFound, "User not found")
                }
            },
            StoreReply::Failed => Response::new(Status::NotFound, "User not found"),
            _ => Response::new(Status::InternalServerError, "Error getting user"),
        },
        StoreCommand::SelectAll => match reply {
            StoreReply::Rows(rows) => Response {
                status: Status::Success,
                body: encode_users(&rows),
            },
            _ => Response::new(Status::InternalServerError, "Error getting users"),
        },
        StoreCommand::Update { .. } => match reply {
            StoreReply::Affected(n) => {
                if n > 0 {
                    Response::new(Status::Success, "User updated")
                } else {
                    Response::new(Status::NotFound, "User not found")
                }
            },
            StoreReply::Failed => Response::new(Status::NotFound, "User not found"),
            _ => Response::new(Status::InternalServerError, "Error updating user"),
        },
        StoreCommand::Delete(_) => match reply {
            StoreReply::Affected(n) => {
                if n > 0 {
                    Response::new(Status::Success, "User deleted")
                } else {
                    Response::new(Status::NotFound, "User not found")
                }
            },
            _ => Response::new(Status::InternalServerError, "Error deleting user"),
        },
    }
}

/// Carries out a step on the table `table`.
pub fn carry_out(table: &mut UserTable, step: Step) -> (response: Response)
    requires
        old(table).wf(),
    ensures
        final(table).wf(),
        (final(table)@, response@) == settle(old(table)@, step@),
{
    match step {
        Step::Respond(response) => response,
        Step::Ask(command) => {
            let reply = table.execute(&command);
            respond(&command, reply)
        },
    }
}

/// Handles a request that creates a user.
pub fn handle_post_request(table: &mut UserTable, request: &str) -> (response: Response)
    requires
        old(table).wf(),
    ensures
        final(table).wf(),
        (final(table)@, response@) == settle(old(table)@, create_plan(request@)),
{
    carry_out(table, plan_create(request))
}

/// Handles a request that reads one user.
pub fn handle_get_request(table: &mut UserTable, request: &str) -> (response: Response)
    requires
        old(table).wf(),
    ensures
        final(table).wf(),
        (final(table)@, response@) == settle(old(table)@, read_plan(request@)),
{
    carry_out(table, plan_read(request))
}

/// Handles a request that reads all users.
pub fn handle_get_all_request(table: &mut UserTable, request: &str) -> (response: Response)
    requires
        old(table).wf(),
    ensures
        final(table).wf(),
        (final(table)@, response@) == settle(old(table)@, read_all_plan(request@)),
{
    carry_out(table, plan_read_all(request))
}

/// Handles a request that updates a user.
pub fn handle_put_request(table: &mut UserTable, request: &str) -> (response: Response)
    requires
        old(table).wf(),
    ensures
        final(table).wf(),
        (final(table)@, response@) == settle(old(table)@, update_plan(request@)),
{
    carry_out(table, plan_update(request))
}

/// Handles a request that deletes a user.
pub fn handle_delete_request(table: &mut UserTable, request: &str) -> (response: Response)
    requires
        old(table).wf(),
    ensures
        final(table).wf(),
        (final(table)@, response@) == settle(old(table)@, delete_plan(request@)),
{
    carry_out(table, plan_delete(request))
}

/// Handles a request: routes it, runs its operation on `table`, and gives
/// the response.
pub fn handle_request(table: &mut UserTable, request: &str) -> (response: Response)
    requires
        old(table).wf(),
    ensures
        final(table).wf(),
        (final(table)@, response@) == exchange(old(table)@, request@),
{
    carry_out(table, plan(request))
}

/// Handles a request on `table` and gives the text that goes out for it:
/// the head of its response, then the body.
pub fn handle_client(table: &mut UserTable, request: &str) -> (text: String)
    requires
        old(table).wf(),
    ensures
        final(table).wf(),
        final(table)@ == exchange(old(table)@, request@).0,
        text@ == rendered(exchange(old(table)@, request@).1),
{
    handle_request(table, request).render()
}

} // verus!
