use users_service::handlers::{create_user, delete_user, get_user, get_users, not_found, BodyKind};
use users_service::json::{push_digits, push_i32, user_to_json, users_to_json};
use users_service::router::{parse_id, route, Method, Route};
use users_service::store::{lookup, user_from_rows, Param, Statement, StoreError};
use users_service::user::{CreateUserParams, User};

fn user(id: i32, name: &str) -> User {
    User::new(id, name.to_string(), name.to_string(), name.to_string())
}

fn text_of(p: &Param) -> String {
    match p {
        Param::Text(s) => s.clone(),
        Param::Int(i) => panic!("expected a text parameter, got {}", i),
    }
}

#[test]
fn list_of_two_users_in_key_order() {
    let r = get_users(Ok(vec![user(1, "foo_1"), user(2, "foo_2")]));
    assert_eq!(r.status, 200);
    assert_eq!(r.kind, BodyKind::Json);
    assert_eq!(
        r.body,
        "[{\"id\":1,\"username\":\"foo_1\",\"password\":\"foo_1\",\"email\":\"foo_1\"},{\"id\":2,\"username\":\"foo_2\",\"password\":\"foo_2\",\"email\":\"foo_2\"}]"
    );
}

#[test]
fn list_of_empty_table_is_empty_array() {
    let r = get_users(Ok(vec![]));
    assert_eq!(r.status, 200);
    assert_eq!(r.kind, BodyKind::Json);
    assert_eq!(r.body, "[]");
}

#[test]
fn list_failure_is_bad_request() {
    let r = get_users(Err(StoreError::Database));
    assert_eq!(r.status, 400);
    assert_eq!(r.body, "Error trying to read all users from database");
}

#[test]
fn get_one_user() {
    let r = get_user(Ok(vec![user(1, "foo_1")]));
    assert_eq!(r.status, 200);
    assert_eq!(r.kind, BodyKind::Json);
    assert_eq!(r.body, "{\"id\":1,\"username\":\"foo_1\",\"password\":\"foo_1\",\"email\":\"foo_1\"}");
}

#[test]
fn get_missing_user_is_bad_request() {
    let r = get_user(Ok(vec![]));
    assert_eq!(r.status, 400);
    assert_eq!(r.kind, BodyKind::Text);
    assert_eq!(r.body, "User not found");
    let r = get_user(Err(StoreError::Database));
    assert_eq!(r.status, 400);
    assert_eq!(r.body, "User not found");
}

#[test]
fn get_with_two_matching_rows_is_bad_request() {
    let r = get_user(Ok(vec![user(1, "a"), user(1, "b")]));
    assert_eq!(r.status, 400);
    assert_eq!(r.body, "User not found");
}

#[test]
fn lookup_errors() {
    assert!(matches!(user_from_rows(vec![]), Err(StoreError::NotFound)));
    assert!(matches!(user_from_rows(vec![user(3, "x"), user(3, "y")]), Err(StoreError::Ambiguous)));
    match user_from_rows(vec![user(3, "x")]) {
        Ok(u) => {
            assert_eq!(u.id, 3);
            assert_eq!(u.username, "x");
        }
        Err(e) => panic!("unexpected {:?}", e),
    }
    assert!(matches!(lookup(Err(StoreError::Database)), Err(StoreError::Database)));
}

#[test]
fn create_returns_the_inserted_row() {
    let r = create_user(Ok(vec![user(1, "foo_5")]));
    assert_eq!(r.status, 200);
    assert_eq!(r.kind, BodyKind::Json);
    assert_eq!(r.body, "{\"id\":1,\"username\":\"foo_5\",\"password\":\"foo_5\",\"email\":\"foo_5\"}");
}

#[test]
fn create_failure_is_bad_request() {
    let r = create_user(Err(StoreError::Database));
    assert_eq!(r.status, 400);
    assert_eq!(r.body, "Error trying to create a new user.");
}

#[test]
fn create_then_get_give_the_same_body() {
    let created = create_user(Ok(vec![user(42, "someone")]));
    let fetched = get_user(Ok(vec![user(42, "someone")]));
    assert_eq!(created.status, 200);
    assert_eq!(created.body, fetched.body);
}

#[test]
fn delete_one_row() {
    let r = delete_user(Ok(1));
    assert_eq!(r.status, 200);
    assert_eq!(r.kind, BodyKind::Text);
    assert_eq!(r.body, "Successfully deleted 1 user(s)");
    let after = get_user(Ok(vec![]));
    assert_eq!(after.status, 400);
}

#[test]
fn delete_counts_in_decimal() {
    assert_eq!(delete_user(Ok(12)).body, "Successfully deleted 12 user(s)");
    assert_eq!(delete_user(Ok(u64::MAX)).body, "Successfully deleted 18446744073709551615 user(s)");
}

#[test]
fn delete_nothing_is_bad_request() {
    let r = delete_user(Ok(0));
    assert_eq!(r.status, 400);
    assert_eq!(r.body, "User not found");
    let r = delete_user(Err(StoreError::Database));
    assert_eq!(r.status, 400);
    assert_eq!(r.body, "User not found");
}

#[test]
fn unknown_route_is_404_with_empty_body() {
    let r = not_found();
    assert_eq!(r.status, 404);
    assert_eq!(r.kind, BodyKind::Empty);
    assert_eq!(r.body, "");
}

#[test]
fn routes_of_the_users_resource() {
    assert_eq!(route(Method::Get, "/users"), Route::ListUsers);
    assert_eq!(route(Method::Post, "/users"), Route::CreateUser);
    assert_eq!(route(Method::Get, "/users/1"), Route::GetUser(1));
    assert_eq!(route(Method::Delete, "/users/17"), Route::DeleteUser(17));
    assert_eq!(route(Method::Get, "/users/-3"), Route::GetUser(-3));
}

#[test]
fn other_paths_and_methods_are_unknown() {
    for p in ["/", "", "/user", "/users/", "/userss", "/users/abc", "/users/1/2", "/users/1x", "/api/users", "/users/99999999999", "/Users"] {
        assert_eq!(route(Method::Get, p), Route::Unknown, "path {}", p);
    }
    assert_eq!(route(Method::Delete, "/users"), Route::Unknown);
    assert_eq!(route(Method::Other, "/users"), Route::Unknown);
    assert_eq!(route(Method::Post, "/users/1"), Route::Unknown);
    assert_eq!(route(Method::Other, "/users/1"), Route::Unknown);
}

#[test]
fn parse_ids() {
    assert_eq!(parse_id("0"), Some(0));
    assert_eq!(parse_id("+5"), Some(5));
    assert_eq!(parse_id("-0"), Some(0));
    assert_eq!(parse_id("007"), Some(7));
    assert_eq!(parse_id("2147483647"), Some(i32::MAX));
    assert_eq!(parse_id("-2147483648"), Some(i32::MIN));
    assert_eq!(parse_id("2147483648"), None);
    assert_eq!(parse_id("-2147483649"), None);
    assert_eq!(parse_id("123456789012345678901234567890"), None);
    assert_eq!(parse_id(""), None);
    assert_eq!(parse_id("-"), None);
    assert_eq!(parse_id("+"), None);
    assert_eq!(parse_id("+-1"), None);
    assert_eq!(parse_id(" 1"), None);
    assert_eq!(parse_id("1a"), None);
}

#[test]
fn decimal_text() {
    let mut s = String::from("x=");
    push_i32(&mut s, i32::MIN);
    assert_eq!(s, "x=-2147483648");
    let mut s = String::new();
    push_i32(&mut s, 0);
    assert_eq!(s, "0");
    let mut s = String::new();
    push_i32(&mut s, i32::MAX);
    assert_eq!(s, "2147483647");
    let mut s = String::new();
    push_digits(&mut s, 1000);
    assert_eq!(s, "1000");
}

#[test]
fn strings_are_escaped_in_json() {
    let u = User::new(-7, "a\"b\\c".to_string(), "line\nbreak\ttab".to_string(), "\u{1}\u{8}\u{c}\r\u{1f}é/".to_string());
    assert_eq!(
        user_to_json(&u),
        "{\"id\":-7,\"username\":\"a\\\"b\\\\c\",\"password\":\"line\\nbreak\\ttab\",\"email\":\"\\u0001\\b\\f\\r\\u001fé/\"}"
    );
}

#[test]
fn empty_users_array() {
    assert_eq!(users_to_json(&vec![]), "[]");
    assert_eq!(users_to_json(&vec![user(5, "")]), "[{\"id\":5,\"username\":\"\",\"password\":\"\",\"email\":\"\"}]");
}

#[test]
fn injected_text_is_bound_verbatim() {
    let evil = "foo'; DROP TABLE users;--";
    let stmt = Statement::Insert(CreateUserParams {
        username: evil.to_string(),
        password: "pw".to_string(),
        email: "e@x".to_string(),
    });
    let plain = Statement::Insert(CreateUserParams {
        username: "foo".to_string(),
        password: "pw".to_string(),
        email: "e@x".to_string(),
    });
    assert_eq!(stmt.sql(), plain.sql());
    assert_eq!(stmt.sql(), "INSERT INTO users (username, password, email) VALUES ($1, $2, $3) RETURNING *");
    let params = stmt.params();
    assert_eq!(params.len(), 3);
    assert_eq!(text_of(&params[0]), evil);
    assert_eq!(text_of(&params[1]), "pw");
    assert_eq!(text_of(&params[2]), "e@x");
    let back = create_user(Ok(vec![User::new(1, evil.to_string(), "pw".to_string(), "e@x".to_string())]));
    assert_eq!(back.body, "{\"id\":1,\"username\":\"foo'; DROP TABLE users;--\",\"password\":\"pw\",\"email\":\"e@x\"}");
}

#[test]
fn statements_by_id() {
    assert_eq!(Statement::SelectAll.sql(), "SELECT * FROM users");
    assert!(Statement::SelectAll.params().is_empty());
    let s = Statement::SelectById(9);
    assert_eq!(s.sql(), "SELECT * FROM users WHERE id = $1");
    assert!(matches!(s.params().as_slice(), [Param::Int(9)]));
    let d = Statement::DeleteById(-4);
    assert_eq!(d.sql(), "DELETE FROM users WHERE id = $1");
    assert!(matches!(d.params().as_slice(), [Param::Int(-4)]));
}
