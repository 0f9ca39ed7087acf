use rust_crud_api::handler::{
    carry_out, get_user_request_body, handle_client, handle_delete_request, handle_get_all_request, handle_get_request,
    handle_post_request, handle_put_request, handle_request, plan, plan_create, plan_delete,
    plan_read, plan_read_all, plan_update, respond, Step,
};
use rust_crud_api::json::PayloadError;
use rust_crud_api::response::{Response, Status};
use rust_crud_api::store::{StoreCommand, StoreReply, UserTable};
use rust_crud_api::user::User;

fn post(name: &str, email: &str) -> String {
    format!(
        "POST /users HTTP/1.1\r\nContent-Type: application/json\r\n\r\n{{\"name\":\"{}\",\"email\":\"{}\"}}",
        name, email
    )
}

fn put(id: i32, name: &str, email: &str) -> String {
    format!(
        "PUT /users/{} HTTP/1.1\r\nContent-Type: application/json\r\n\r\n{{\"name\":\"{}\",\"email\":\"{}\"}}",
        id, name, email
    )
}

fn get(id: i32) -> String {
    format!("GET /users/{} HTTP/1.1\r\nHost: localhost\r\n\r\n", id)
}

fn delete(id: i32) -> String {
    format!("DELETE /users/{} HTTP/1.1\r\nHost: localhost\r\n\r\n", id)
}

const GET_ALL: &str = "GET /users HTTP/1.1\r\nHost: localhost\r\n\r\n";

fn ok(body: &str) -> Response {
    Response::new(Status::Success, body)
}

fn not_found(body: &str) -> Response {
    Response::new(Status::NotFound, body)
}

fn failure(body: &str) -> Response {
    Response::new(Status::InternalServerError, body)
}

#[test]
fn create_then_list_gives_the_one_user() {
    let mut table = UserTable::new();
    let created = handle_request(
        &mut table,
        "POST /users HTTP/1.1\r\n\r\n{\"name\":\"Alice\",\"email\":\"a@x.com\"}",
    );
    assert_eq!(created, ok("User created"));
    let listed = handle_request(&mut table, "GET /users HTTP/1.1\r\n\r\n");
    assert_eq!(listed, ok("[{\"id\":1,\"name\":\"Alice\",\"email\":\"a@x.com\"}]"));
    assert_eq!(
        listed.render(),
        "HTTP/1.1 200 OK\r\nContent-Type: application/json\r\n\r\n[{\"id\":1,\"name\":\"Alice\",\"email\":\"a@x.com\"}]"
    );
}

#[test]
fn created_user_is_read_back_with_a_new_positive_id() {
    let mut table = UserTable::new();
    for (k, (name, email)) in [("Alice", "a@x.com"), ("Bob", "b@x.com"), ("Alice", "a@x.com")]
        .into_iter()
        .enumerate()
    {
        let id = k as i32 + 1;
        assert_eq!(handle_request(&mut table, &get(id)), not_found("User not found"));
        assert_eq!(handle_request(&mut table, &post(name, email)), ok("User created"));
        assert_eq!(
            handle_request(&mut table, &get(id)),
            ok(&format!("{{\"id\":{},\"name\":\"{}\",\"email\":\"{}\"}}", id, name, email))
        );
    }
}

#[test]
fn read_all_of_an_empty_table_is_an_empty_array() {
    let mut table = UserTable::new();
    assert_eq!(handle_request(&mut table, GET_ALL), ok("[]"));
    assert_eq!(handle_request(&mut table, "GET /users"), ok("[]"));
}

#[test]
fn read_of_a_missing_id_is_not_found() {
    let mut table = UserTable::new();
    assert_eq!(handle_request(&mut table, &get(1)), not_found("User not found"));
    handle_request(&mut table, &post("a", "a@x"));
    assert_eq!(handle_request(&mut table, &get(2)), not_found("User not found"));
    assert_eq!(handle_request(&mut table, &get(0)), not_found("User not found"));
    assert_eq!(handle_request(&mut table, &get(-1)), not_found("User not found"));
}

#[test]
fn update_of_a_missing_id_is_not_found_and_changes_nothing() {
    let mut table = UserTable::new();
    handle_request(&mut table, &post("a", "a@x"));
    assert_eq!(handle_request(&mut table, &put(2, "z", "z@z")), not_found("User not found"));
    assert_eq!(
        handle_request(&mut table, GET_ALL),
        ok("[{\"id\":1,\"name\":\"a\",\"email\":\"a@x\"}]")
    );
}

#[test]
fn update_changes_exactly_the_named_row() {
    let mut table = UserTable::new();
    handle_request(&mut table, &post("a", "a@x"));
    handle_request(&mut table, &post("b", "b@x"));
    handle_request(&mut table, &post("c", "c@x"));
    assert_eq!(handle_request(&mut table, &put(2, "B", "B@y")), ok("User updated"));
    assert_eq!(
        handle_request(&mut table, GET_ALL),
        ok("[{\"id\":1,\"name\":\"a\",\"email\":\"a@x\"},{\"id\":2,\"name\":\"B\",\"email\":\"B@y\"},{\"id\":3,\"name\":\"c\",\"email\":\"c@x\"}]")
    );
    assert_eq!(
        handle_request(&mut table, &get(2)),
        ok("{\"id\":2,\"name\":\"B\",\"email\":\"B@y\"}")
    );
}

#[test]
fn update_takes_the_id_of_the_path_not_of_the_body() {
    let mut table = UserTable::new();
    handle_request(&mut table, &post("a", "a@x"));
    handle_request(&mut table, &post("b", "b@x"));
    let request = "PUT /users/1 HTTP/1.1\r\n\r\n{\"id\":2,\"name\":\"A\",\"email\":\"A@y\"}";
    assert_eq!(handle_request(&mut table, request), ok("User updated"));
    assert_eq!(
        handle_request(&mut table, GET_ALL),
        ok("[{\"id\":1,\"name\":\"A\",\"email\":\"A@y\"},{\"id\":2,\"name\":\"b\",\"email\":\"b@x\"}]")
    );
}

#[test]
fn delete_then_read_is_not_found() {
    let mut table = UserTable::new();
    handle_request(&mut table, &post("a", "a@x"));
    handle_request(&mut table, &post("b", "b@x"));
    assert_eq!(handle_request(&mut table, &delete(1)), ok("User deleted"));
    assert_eq!(handle_request(&mut table, &get(1)), not_found("User not found"));
    assert_eq!(
        handle_request(&mut table, GET_ALL),
        ok("[{\"id\":2,\"name\":\"b\",\"email\":\"b@x\"}]")
    );
}

#[test]
fn delete_of_a_missing_id_is_not_found() {
    let mut table = UserTable::new();
    assert_eq!(handle_request(&mut table, &delete(1)), not_found("User not found"));
    handle_request(&mut table, &post("a", "a@x"));
    assert_eq!(handle_request(&mut table, &delete(2)), not_found("User not found"));
    assert_eq!(handle_request(&mut table, &delete(1)), ok("User deleted"));
    assert_eq!(handle_request(&mut table, &delete(1)), not_found("User not found"));
}

#[test]
fn unrouted_requests_are_not_found_whatever_the_body() {
    let mut table = UserTable::new();
    handle_request(&mut table, &post("a", "a@x"));
    for request in [
        "",
        "GET / HTTP/1.1\r\n\r\n",
        "GET /user/1 HTTP/1.1\r\n\r\n",
        "get /users HTTP/1.1\r\n\r\n",
        "PATCH /users/1 HTTP/1.1\r\n\r\n{\"name\":\"n\",\"email\":\"e\"}",
        "PUT /users HTTP/1.1\r\n\r\n{\"name\":\"n\",\"email\":\"e\"}",
        "POST /posts HTTP/1.1\r\n\r\n{\"name\":\"n\",\"email\":\"e\"}",
        "HEAD /users/1 HTTP/1.1\r\n\r\nDELETE /users/1",
        " POST /users HTTP/1.1\r\n\r\n{\"name\":\"n\",\"email\":\"e\"}",
        "\u{fffd}\u{fffd}\u{fffd}",
    ] {
        assert_eq!(handle_request(&mut table, request), not_found("NOT FOUND"), "{:?}", request);
        assert_eq!(plan(request), Step::Respond(not_found("NOT FOUND")), "{:?}", request);
    }
    assert_eq!(
        handle_request(&mut table, GET_ALL),
        ok("[{\"id\":1,\"name\":\"a\",\"email\":\"a@x\"}]")
    );
    assert_eq!(not_found("NOT FOUND").render(), "HTTP/1.1 404 NOT FOUND\r\n\r\nNOT FOUND");
}

#[test]
fn malformed_id_is_an_internal_error() {
    let mut table = UserTable::new();
    handle_request(&mut table, &post("a", "a@x"));
    assert_eq!(
        handle_request(&mut table, "GET /users/abc HTTP/1.1\r\n\r\n"),
        failure("Error getting user")
    );
    assert_eq!(
        handle_request(&mut table, "GET /users/ HTTP/1.1\r\n\r\n"),
        failure("Error getting user")
    );
    assert_eq!(
        handle_request(&mut table, "GET /users/99999999999 HTTP/1.1\r\n\r\n"),
        failure("Error getting user")
    );
    assert_eq!(
        handle_request(
            &mut table,
            "PUT /users/x HTTP/1.1\r\n\r\n{\"name\":\"n\",\"email\":\"e\"}"
        ),
        failure("Error updating user")
    );
    assert_eq!(
        handle_request(&mut table, "DELETE /users/1.0 HTTP/1.1\r\n\r\n"),
        failure("Error deleting user")
    );
    assert_eq!(
        handle_request(&mut table, "DELETE /users HTTP/1.1\r\n\r\n"),
        failure("Error deleting user")
    );
    assert_eq!(
        handle_request(&mut table, GET_ALL),
        ok("[{\"id\":1,\"name\":\"a\",\"email\":\"a@x\"}]")
    );
}

#[test]
fn malformed_body_is_an_internal_error() {
    let mut table = UserTable::new();
    handle_request(&mut table, &post("a", "a@x"));
    for body in ["", "{", "not json", "{\"name\":\"n\"}", "{\"name\":1,\"email\":\"e\"}", "[]"] {
        let request = format!("POST /users HTTP/1.1\r\n\r\n{}", body);
        assert_eq!(handle_request(&mut table, &request), failure("Error creating user"));
        let request = format!("PUT /users/1 HTTP/1.1\r\n\r\n{}", body);
        assert_eq!(handle_request(&mut table, &request), failure("Error updating user"));
    }
    assert_eq!(
        handle_request(&mut table, "POST /users"),
        failure("Error creating user")
    );
    assert_eq!(
        handle_request(&mut table, GET_ALL),
        ok("[{\"id\":1,\"name\":\"a\",\"email\":\"a@x\"}]")
    );
}

#[test]
fn body_is_what_follows_the_last_blank_line() {
    let mut table = UserTable::new();
    let request =
        "POST /users HTTP/1.1\r\n\r\n{\"name\":\"x\",\"email\":\"x\"}\r\n\r\n{\"name\":\"n\",\"email\":\"e\"}";
    assert_eq!(handle_request(&mut table, request), ok("User created"));
    assert_eq!(
        handle_request(&mut table, GET_ALL),
        ok("[{\"id\":1,\"name\":\"n\",\"email\":\"e\"}]")
    );
}

#[test]
fn text_is_escaped_on_the_way_out() {
    let mut table = UserTable::new();
    let request = "POST /users HTTP/1.1\r\n\r\n{\"name\":\"a\\\"b\",\"email\":\"tab\\there\"}";
    assert_eq!(handle_request(&mut table, request), ok("User created"));
    assert_eq!(
        handle_request(&mut table, &get(1)),
        ok("{\"id\":1,\"name\":\"a\\\"b\",\"email\":\"tab\\there\"}")
    );
}

#[test]
fn handlers_of_one_route_do_not_route() {
    let mut table = UserTable::new();
    assert_eq!(
        handle_post_request(&mut table, "x\r\n\r\n{\"name\":\"a\",\"email\":\"a@x\"}"),
        ok("User created")
    );
    assert_eq!(
        handle_get_request(&mut table, "x /y/1 z"),
        ok("{\"id\":1,\"name\":\"a\",\"email\":\"a@x\"}")
    );
    assert_eq!(
        handle_put_request(&mut table, "x /y/1 z\r\n\r\n{\"name\":\"A\",\"email\":\"A@x\"}"),
        ok("User updated")
    );
    assert_eq!(
        handle_get_all_request(&mut table, ""),
        ok("[{\"id\":1,\"name\":\"A\",\"email\":\"A@x\"}]")
    );
    assert_eq!(handle_delete_request(&mut table, "x /y/1 z"), ok("User deleted"));
    assert_eq!(handle_get_all_request(&mut table, ""), ok("[]"));
}

#[test]
fn plan_names_the_command() {
    assert_eq!(
        plan(&post("n", "e")),
        Step::Ask(StoreCommand::Insert { name: "n".to_string(), email: "e".to_string() })
    );
    assert_eq!(plan(&get(5)), Step::Ask(StoreCommand::SelectById(5)));
    assert_eq!(plan(GET_ALL), Step::Ask(StoreCommand::SelectAll));
    assert_eq!(
        plan(&put(5, "n", "e")),
        Step::Ask(StoreCommand::Update { id: 5, name: "n".to_string(), email: "e".to_string() })
    );
    assert_eq!(plan(&delete(5)), Step::Ask(StoreCommand::Delete(5)));
    assert_eq!(plan_create(&post("n", "e")), plan(&post("n", "e")));
    assert_eq!(plan_read(&get(5)), plan(&get(5)));
    assert_eq!(plan_read_all(GET_ALL), plan(GET_ALL));
    assert_eq!(plan_update(&put(5, "n", "e")), plan(&put(5, "n", "e")));
    assert_eq!(plan_delete(&delete(5)), plan(&delete(5)));
}

#[test]
fn plan_answers_at_once_what_cannot_be_asked() {
    assert_eq!(plan("POST /users\r\n\r\n{"), Step::Respond(failure("Error creating user")));
    assert_eq!(plan("GET /users/x"), Step::Respond(failure("Error getting user")));
    assert_eq!(
        plan("PUT /users/1\r\n\r\n{"),
        Step::Respond(failure("Error updating user"))
    );
    assert_eq!(
        plan("PUT /users/x\r\n\r\n{\"name\":\"n\",\"email\":\"e\"}"),
        Step::Respond(failure("Error updating user"))
    );
    assert_eq!(plan("DELETE /users/x"), Step::Respond(failure("Error deleting user")));
    assert_eq!(plan("TRACE /"), Step::Respond(not_found("NOT FOUND")));
}

#[test]
fn respond_to_an_insert() {
    let c = StoreCommand::Insert { name: "n".to_string(), email: "e".to_string() };
    assert_eq!(respond(&c, StoreReply::Affected(1)), ok("User created"));
    assert_eq!(respond(&c, StoreReply::Affected(0)), ok("User created"));
    assert_eq!(respond(&c, StoreReply::Unreachable), failure("Error creating user"));
    assert_eq!(respond(&c, StoreReply::Failed), failure("Error creating user"));
    assert_eq!(respond(&c, StoreReply::Rows(vec![])), failure("Error creating user"));
}

#[test]
fn respond_to_a_select_by_id() {
    let c = StoreCommand::SelectById(4);
    let a = User::new(Some(4), "a", "a@x");
    let b = User::new(Some(5), "b", "b@x");
    assert_eq!(
        respond(&c, StoreReply::Rows(vec![a.clone()])),
        ok("{\"id\":4,\"name\":\"a\",\"email\":\"a@x\"}")
    );
    assert_eq!(
        respond(&c, StoreReply::Rows(vec![a, b])),
        ok("{\"id\":4,\"name\":\"a\",\"email\":\"a@x\"}")
    );
    assert_eq!(respond(&c, StoreReply::Rows(vec![])), not_found("User not found"));
    assert_eq!(respond(&c, StoreReply::Failed), not_found("User not found"));
    assert_eq!(respond(&c, StoreReply::Unreachable), failure("Error getting user"));
    assert_eq!(respond(&c, StoreReply::Affected(1)), failure("Error getting user"));
}

#[test]
fn respond_to_a_select_all() {
    let c = StoreCommand::SelectAll;
    let a = User::new(Some(4), "a", "a@x");
    assert_eq!(respond(&c, StoreReply::Rows(vec![])), ok("[]"));
    assert_eq!(
        respond(&c, StoreReply::Rows(vec![a])),
        ok("[{\"id\":4,\"name\":\"a\",\"email\":\"a@x\"}]")
    );
    assert_eq!(respond(&c, StoreReply::Unreachable), failure("Error getting users"));
    assert_eq!(respond(&c, StoreReply::Failed), failure("Error getting users"));
    assert_eq!(respond(&c, StoreReply::Affected(1)), failure("Error getting users"));
}

#[test]
fn respond_to_an_update() {
    let c = StoreCommand::Update { id: 1, name: "n".to_string(), email: "e".to_string() };
    assert_eq!(respond(&c, StoreReply::Affected(1)), ok("User updated"));
    assert_eq!(respond(&c, StoreReply::Affected(2)), ok("User updated"));
    assert_eq!(respond(&c, StoreReply::Affected(0)), not_found("User not found"));
    assert_eq!(respond(&c, StoreReply::Failed), not_found("User not found"));
    assert_eq!(respond(&c, StoreReply::Unreachable), failure("Error updating user"));
    assert_eq!(respond(&c, StoreReply::Rows(vec![])), failure("Error updating user"));
}

#[test]
fn respond_to_a_delete() {
    let c = StoreCommand::Delete(1);
    assert_eq!(respond(&c, StoreReply::Affected(1)), ok("User deleted"));
    assert_eq!(respond(&c, StoreReply::Affected(3)), ok("User deleted"));
    assert_eq!(respond(&c, StoreReply::Affected(0)), not_found("User not found"));
    assert_eq!(respond(&c, StoreReply::Unreachable), failure("Error deleting user"));
    assert_eq!(respond(&c, StoreReply::Failed), failure("Error deleting user"));
    assert_eq!(respond(&c, StoreReply::Rows(vec![])), failure("Error deleting user"));
}

#[test]
fn carry_out_runs_the_step_on_the_table() {
    let mut table = UserTable::new();
    assert_eq!(carry_out(&mut table, Step::Respond(not_found("x"))), not_found("x"));
    assert_eq!(table.len(), 0);
    let insert = StoreCommand::Insert { name: "n".to_string(), email: "e".to_string() };
    assert_eq!(carry_out(&mut table, Step::Ask(insert)), ok("User created"));
    assert_eq!(table.len(), 1);
}

#[test]
fn get_user_request_body_reads_the_user_of_the_body() {
    assert_eq!(
        get_user_request_body(&post("n", "e")),
        Ok(User::new(None, "n", "e"))
    );
    assert_eq!(get_user_request_body("POST /users\r\n\r\n{"), Err(PayloadError::Syntax));
    assert_eq!(get_user_request_body("POST /users\r\n\r\n{}"), Err(PayloadError::Shape));
    assert_eq!(get_user_request_body(GET_ALL), Err(PayloadError::Syntax));
}

#[test]
fn handle_client_gives_the_text_that_goes_out() {
    let mut table = UserTable::new();
    assert_eq!(
        handle_client(&mut table, &post("Alice", "a@x.com")),
        "HTTP/1.1 200 OK\r\nContent-Type: application/json\r\n\r\nUser created"
    );
    assert_eq!(
        handle_client(&mut table, &get(1)),
        "HTTP/1.1 200 OK\r\nContent-Type: application/json\r\n\r\n{\"id\":1,\"name\":\"Alice\",\"email\":\"a@x.com\"}"
    );
    assert_eq!(
        handle_client(&mut table, &get(2)),
        "HTTP/1.1 404 NOT FOUND\r\n\r\nUser not found"
    );
    assert_eq!(
        handle_client(&mut table, "GET /users/two HTTP/1.1\r\n\r\n"),
        "HTTP/1.1 500 INTERNAL SERVER ERROR\r\n\r\nError getting user"
    );
    assert_eq!(handle_client(&mut table, "GET /"), "HTTP/1.1 404 NOT FOUND\r\n\r\nNOT FOUND");
}
