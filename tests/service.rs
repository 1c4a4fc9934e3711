use user_service::{
    dispatch, get_id, get_user_request_body, handle_delete_request, handle_get_all_users_request,
    handle_get_request, handle_post_request, handle_put_request, not_found_response, parse_id,
    prepare_update, route, stored_password, user_to_json, users_to_json, Action, RequestError,
    Response, Route, Status, StoreError, User, INTERNAL_SERVER_ERROR, NOT_FOUND, OK_RESPONSE,
};

fn user(id: Option<i32>, name: &str, email: &str, password: &str) -> User {
    User::new(id, name.to_string(), email.to_string(), password.to_string())
}

fn check(r: &Response, status: Status, body: &str) {
    assert_eq!(r.status, status);
    assert_eq!(r.body, body);
}

#[test]
fn route_list_all() {
    assert_eq!(route("GET /users HTTP/1.1\r\n\r\n"), Route::ListAll);
    assert_eq!(route("GET /users"), Route::ListAll);
}

#[test]
fn route_get_by_id_not_shadowed_by_list() {
    assert_eq!(route("GET /users/1 HTTP/1.1\r\n\r\n"), Route::GetById);
}

#[test]
fn route_write_routes() {
    assert_eq!(route("POST /users HTTP/1.1\r\n\r\n{}"), Route::Create);
    assert_eq!(route("PUT /users/3 HTTP/1.1\r\n\r\n{}"), Route::Update);
    assert_eq!(route("DELETE /users/3 HTTP/1.1\r\n\r\n"), Route::Delete);
}

#[test]
fn route_unmatched_is_not_found() {
    assert_eq!(route("PATCH /users/1 HTTP/1.1"), Route::NotFound);
    assert_eq!(route("GET /other HTTP/1.1"), Route::NotFound);
    assert_eq!(route("PUT /users HTTP/1.1"), Route::NotFound);
    assert_eq!(route("DELETE /users HTTP/1.1"), Route::NotFound);
    assert_eq!(route("get /users HTTP/1.1"), Route::NotFound);
    assert_eq!(route(""), Route::NotFound);
}

#[test]
fn unmatched_request_answers_not_found() {
    match dispatch("HEAD /anything at all\r\n\r\nbody") {
        Action::Respond(r) => {
            check(&r, Status::NotFound, "Not Found");
            assert_eq!(r.to_text(), format!("{}Not Found", NOT_FOUND));
        }
        _ => panic!("expected an immediate response"),
    }
    check(&not_found_response(), Status::NotFound, "Not Found");
}

#[test]
fn get_id_takes_segment_after_users() {
    assert_eq!(get_id("GET /users/42 HTTP/1.1\r\nHost: x\r\n\r\n"), "42");
    assert_eq!(get_id("DELETE /users/abc HTTP/1.1"), "abc");
    assert_eq!(get_id("GET /users/ HTTP/1.1"), "HTTP");
    assert_eq!(get_id("GET /users HTTP/1.1"), "1.1");
    assert_eq!(get_id("GET /users"), "");
    assert_eq!(get_id("no slash"), "");
    assert_eq!(get_id("a/b/"), "");
}

#[test]
fn parse_id_reads_i32() {
    assert_eq!(parse_id("42"), Some(42));
    assert_eq!(parse_id("-7"), Some(-7));
    assert_eq!(parse_id("+5"), Some(5));
    assert_eq!(parse_id("007"), Some(7));
    assert_eq!(parse_id("2147483647"), Some(i32::MAX));
    assert_eq!(parse_id("-2147483648"), Some(i32::MIN));
}

#[test]
fn parse_id_rejects_non_integers() {
    assert_eq!(parse_id(""), None);
    assert_eq!(parse_id("-"), None);
    assert_eq!(parse_id("+"), None);
    assert_eq!(parse_id("abc"), None);
    assert_eq!(parse_id("12a"), None);
    assert_eq!(parse_id("1.5"), None);
    assert_eq!(parse_id("2147483648"), None);
    assert_eq!(parse_id("-2147483649"), None);
    assert_eq!(parse_id("99999999999999999999x"), None);
    for s in ["42", "-1", "x", "", "2147483648", "+0"] {
        assert_eq!(parse_id(s), s.parse::<i32>().ok());
    }
}

#[test]
fn body_is_last_blank_line_part() {
    let req = "POST /users HTTP/1.1\r\nHost: x\r\n\r\n{\"name\":\"Ann\"}";
    assert_eq!(get_user_request_body(req), "{\"name\":\"Ann\"}");
    assert_eq!(get_user_request_body("no separator"), "no separator");
    assert_eq!(get_user_request_body("a\r\n\r\nb\r\n\r\nc"), "c");
    assert_eq!(get_user_request_body("\r\n\r\n\r\n"), "\r\n");
    assert_eq!(get_user_request_body("head\r\n\r\n"), "");
}

#[test]
fn user_json_has_fields_in_order() {
    let u = user(Some(1), "Ann", "a@x.com", "pw");
    assert_eq!(
        user_to_json(&u),
        "{\"id\":1,\"name\":\"Ann\",\"email\":\"a@x.com\",\"password\":\"pw\"}"
    );
    let v = user(None, "B", "b", "c");
    assert_eq!(user_to_json(&v), "{\"id\":null,\"name\":\"B\",\"email\":\"b\",\"password\":\"c\"}");
}

#[test]
fn user_json_escapes_and_negative_ids() {
    let u = user(Some(-12), "a\"b\\", "line\nbreak", "");
    assert_eq!(
        user_to_json(&u),
        "{\"id\":-12,\"name\":\"a\\\"b\\\\\",\"email\":\"line\\nbreak\",\"password\":\"\"}"
    );
}

#[test]
fn user_json_escapes_controls() {
    let u = user(Some(0), "\u{1}\u{1f}\t\r\u{8}\u{c}", "é/x", "\u{7f}");
    assert_eq!(
        user_to_json(&u),
        "{\"id\":0,\"name\":\"\\u0001\\u001f\\t\\r\\b\\f\",\"email\":\"é/x\",\"password\":\"\u{7f}\"}"
    );
}

#[test]
fn users_json_is_array() {
    assert_eq!(users_to_json(&vec![]), "[]");
    let us = vec![user(Some(1), "A", "a", "p"), user(Some(2), "B", "b", "q")];
    assert_eq!(
        users_to_json(&us),
        "[{\"id\":1,\"name\":\"A\",\"email\":\"a\",\"password\":\"p\"},\
         {\"id\":2,\"name\":\"B\",\"email\":\"b\",\"password\":\"q\"}]"
    );
}

#[test]
fn list_has_one_element_per_row() {
    let us = vec![
        user(Some(1), "A", "a", "p"),
        user(Some(2), "B", "b", "q"),
        user(Some(5), "C", "c", "r"),
    ];
    let r = handle_get_all_users_request(Ok(us));
    assert_eq!(r.status, Status::Success);
    let v: serde_json::Value = serde_json::from_str(&r.body).unwrap();
    assert_eq!(v.as_array().unwrap().len(), 3);
    check(&handle_get_all_users_request(Ok(vec![])), Status::Success, "[]");
    check(
        &handle_get_all_users_request(Err(StoreError::Connection)),
        Status::ServerError,
        "Error",
    );
}

#[test]
fn get_outcomes() {
    let u = user(Some(4), "Ann", "a@x.com", "pw");
    check(
        &handle_get_request(Ok(Some(u))),
        Status::Success,
        "{\"id\":4,\"name\":\"Ann\",\"email\":\"a@x.com\",\"password\":\"pw\"}",
    );
    check(&handle_get_request(Ok(None)), Status::NotFound, "User not found");
    check(&handle_get_request(Err(StoreError::Query)), Status::ServerError, "Error");
}

#[test]
fn get_non_integer_id_cannot_be_served() {
    assert!(matches!(dispatch("GET /users/abc HTTP/1.1\r\n\r\n"), Action::InvalidId));
    assert!(matches!(dispatch("PUT /users/x HTTP/1.1\r\n\r\n{}"), Action::InvalidId));
    assert!(matches!(dispatch("DELETE /users/ HTTP/1.1\r\n\r\n"), Action::InvalidId));
}

#[test]
fn dispatch_actions() {
    assert!(matches!(dispatch("GET /users HTTP/1.1\r\n\r\n"), Action::ListUsers));
    assert!(matches!(dispatch("GET /users/17 HTTP/1.1\r\n\r\n"), Action::GetUser(17)));
    assert!(matches!(dispatch("DELETE /users/9 HTTP/1.1\r\n\r\n"), Action::DeleteUser(9)));
    match dispatch("PUT /users/3 HTTP/1.1\r\nHost: h\r\n\r\n{\"name\":\"N\"}") {
        Action::UpdateUser(id, body) => {
            assert_eq!(id, 3);
            assert_eq!(body, "{\"name\":\"N\"}");
        }
        _ => panic!("expected an update"),
    }
}

#[test]
fn create_scenario() {
    let body = "{\"name\":\"Ann\",\"email\":\"a@x.com\",\"password\":\"pw\"}";
    let req = format!("POST /users HTTP/1.1\r\nContent-Type: application/json\r\n\r\n{}", body);
    match dispatch(&req) {
        Action::CreateUser(b) => assert_eq!(b, body),
        _ => panic!("expected a create"),
    }
    let created = user(Some(1), "Ann", "a@x.com", "pw");
    let r = handle_post_request(Ok(created));
    check(&r, Status::Success, "{\"id\":1,\"name\":\"Ann\",\"email\":\"a@x.com\",\"password\":\"pw\"}");
    assert_eq!(r.to_text(), format!("{}{}", OK_RESPONSE, r.body));
    check(&handle_post_request(Err(RequestError::Decode)), Status::ServerError, "Error creating user");
    check(
        &handle_post_request(Err(RequestError::Store(StoreError::Connection))),
        Status::ServerError,
        "Error creating user",
    );
}

#[test]
fn put_outcomes() {
    check(&handle_put_request(Ok(1)), Status::Success, "User updated");
    check(&handle_put_request(Ok(0)), Status::Success, "User updated");
    check(&handle_put_request(Err(RequestError::Hash)), Status::ServerError, "Error updating user");
    let r = handle_put_request(Err(RequestError::Decode));
    assert_eq!(r.to_text(), format!("{}Error updating user", INTERNAL_SERVER_ERROR));
}

#[test]
fn delete_outcomes() {
    check(&handle_delete_request(Ok(0)), Status::NotFound, "User not found");
    check(&handle_delete_request(Ok(1)), Status::Success, "User deleted");
    check(
        &handle_delete_request(Err(StoreError::Connection)),
        Status::ServerError,
        "Error deleting user",
    );
}

#[test]
fn short_password_is_hashed() {
    let h = stored_password("pw").unwrap();
    assert_ne!(h, "pw");
    assert_eq!(h.len(), 60);
    assert!(bcrypt::verify("pw", &h).unwrap());
    let h19 = stored_password("abcdefghijklmnopqrs").unwrap();
    assert_ne!(h19, "abcdefghijklmnopqrs");
    assert!(bcrypt::verify("abcdefghijklmnopqrs", &h19).unwrap());
}

#[test]
fn long_password_is_kept() {
    assert_eq!(stored_password("abcdefghijklmnopqrst").unwrap(), "abcdefghijklmnopqrst");
    let long = "plain text that is long enough";
    assert_eq!(stored_password(long).unwrap(), long);
    let twenty = "éééééééééééééééééééé";
    assert_eq!(stored_password(twenty).unwrap(), twenty);
}

#[test]
fn short_password_counts_characters_not_bytes() {
    // ten characters, twenty UTF-8 bytes
    let h = stored_password("éééééééééé").unwrap();
    assert_ne!(h, "éééééééééé");
    assert_eq!(h.len(), 60);
    assert!(bcrypt::verify("éééééééééé", &h).unwrap());
}

#[test]
fn update_hashes_short_password_and_keeps_fields() {
    let u = prepare_update(user(Some(8), "Ann", "a@x.com", "pw")).unwrap();
    assert_eq!(u.id, Some(8));
    assert_eq!(u.name, "Ann");
    assert_eq!(u.email, "a@x.com");
    assert_ne!(u.password, "pw");
    assert!(bcrypt::verify("pw", &u.password).unwrap());
    let kept = prepare_update(user(None, "B", "b", "01234567890123456789")).unwrap();
    assert_eq!(kept.password, "01234567890123456789");
}

#[test]
fn status_lines() {
    assert_eq!(OK_RESPONSE, "HTTP/1.1 200 OK\r\nContent-Type: application/json\r\n\r\n");
    let r = Response::new(Status::NotFound, "User not found");
    assert_eq!(r.status_line(), NOT_FOUND);
    assert_eq!(r.to_text(), format!("{}User not found", NOT_FOUND));
}
