use bookkeeper::auth::{
    begin_login_callback, login_redirect_response, IdentityOutcome, LoginAction, LoginEvent,
    LoginState,
};
use bookkeeper::body::BodyReader;
use bookkeeper::conflict::{creation_error, Resource, StoreFailure};
use bookkeeper::error::{ClientError, Error, InternalError};
use bookkeeper::form::{check_form_content_type, decode_form_body, parse_query, required_field};
use bookkeeper::http::{Header, Request};
use bookkeeper::number::{parse_i64, parse_usize, IntErrorKind};
use bookkeeper::pages;
use bookkeeper::records::CalendarDate;
use bookkeeper::request::{get_header, parse_cookies, validate_get_content_len};
use bookkeeper::respond::PageKind;
use bookkeeper::route::{route, Lookup, Outcome, Page};

fn request(method: &str, path: &str, headers: &[(&str, &[u8])]) -> Request {
    Request {
        method: method.to_string(),
        path: path.to_string(),
        query: None,
        headers: headers
            .iter()
            .map(|(n, v)| Header { name: n.to_string(), value: v.to_vec() })
            .collect(),
    }
}

fn with_query(mut req: Request, q: &str) -> Request {
    req.query = Some(q.to_string());
    req
}

fn content_length_message(e: Error) -> String {
    match e {
        Error::ClientError(ClientError::InvalidContentLength(m)) => m,
        _ => panic!("expected an invalid content length"),
    }
}

// Routing

#[test]
fn root_without_slash_redirects() {
    let plan = route(&request("GET", "", &[]));
    assert!(plan.lookups.is_empty());
    assert!(matches!(plan.outcome, Outcome::Redirect(ref l) if l == "/"));
}

#[test]
fn directory_without_slash_redirects_after_lookups() {
    let req = request("GET", "/bookkeepings/5/groupings/7", &[("cookie", b"session=abc")]);
    let plan = route(&req);
    assert_eq!(plan.lookups.len(), 3);
    assert!(matches!(plan.lookups[0], Lookup::Session(ref s) if s == "abc"));
    assert!(matches!(plan.lookups[1], Lookup::Bookkeeping(5)));
    assert!(matches!(plan.lookups[2], Lookup::Grouping(7)));
    assert!(matches!(plan.outcome, Outcome::Redirect(ref l) if l == "/bookkeepings/5/groupings/7/"));
}

#[test]
fn bookkeepings_without_slash_redirects() {
    let plan = route(&request("GET", "/bookkeepings", &[("cookie", b"session=abc")]));
    assert!(matches!(plan.outcome, Outcome::Redirect(ref l) if l == "/bookkeepings/"));
}

#[test]
fn leaf_pages_are_served() {
    let plan = route(&request("GET", "/", &[]));
    assert!(matches!(plan.outcome, Outcome::Serve(Page::Index)));
    let plan = route(&request("GET", "/styles.css", &[]));
    assert!(matches!(plan.outcome, Outcome::Serve(Page::Styles)));
    let plan = route(&request("GET", "/post-login", &[]));
    assert!(matches!(plan.outcome, Outcome::Serve(Page::PostLogin)));
    let req = request(
        "POST",
        "/bookkeepings/1/groupings/2/transactions/3/account-changes/",
        &[("cookie", b"session=s")],
    );
    let plan = route(&req);
    assert_eq!(plan.lookups.len(), 4);
    assert!(matches!(plan.lookups[3], Lookup::Transaction(3)));
    assert!(matches!(plan.outcome, Outcome::Serve(Page::NewAccountChange)));
}

#[test]
fn wrong_method_is_method_not_found() {
    let plan = route(&request("POST", "/", &[]));
    match plan.outcome {
        Outcome::Fail(Error::ClientError(ClientError::MethodNotFound { method, path })) => {
            assert_eq!(method, "POST");
            assert_eq!(path, "/");
        },
        _ => panic!("expected method not found"),
    }
}

#[test]
fn trailing_segments_are_not_found() {
    let plan = route(&request("GET", "/styles.css/", &[]));
    assert!(matches!(plan.outcome,
        Outcome::Fail(Error::ClientError(ClientError::PathNotFound(ref p))) if p == "/styles.css/"));
    let plan = route(&request("GET", "/nowhere/", &[]));
    assert!(matches!(plan.outcome,
        Outcome::Fail(Error::ClientError(ClientError::PathNotFound(_)))));
}

#[test]
fn data_before_root_is_rejected() {
    let plan = route(&request("GET", "wrong/path", &[]));
    assert!(matches!(plan.outcome,
        Outcome::Fail(Error::ClientError(ClientError::PathDataBeforeRoot(ref d))) if d == "wrong"));
}

#[test]
fn non_numeric_index_is_rejected() {
    let plan = route(&request("GET", "/bookkeepings/abc/", &[("cookie", b"session=s")]));
    assert!(matches!(plan.outcome,
        Outcome::Fail(Error::ClientError(ClientError::InvalidIndexPath(ref m)))
            if m == "invalid digit found in string"));
}

#[test]
fn missing_entity_is_not_found() {
    let req = request("GET", "/bookkeepings/4/", &[("cookie", b"session=s")]);
    let plan = route(&req);
    let outcome = plan.settle(&req, Some(1));
    assert!(matches!(outcome,
        Outcome::Fail(Error::ClientError(ClientError::PathNotFound(ref p))) if p == "/bookkeepings/4/"));
}

// Sessions and login

#[test]
fn no_session_cookie_starts_login() {
    let plan = route(&request("GET", "/bookkeepings/", &[]));
    assert!(plan.lookups.is_empty());
    assert!(matches!(plan.outcome, Outcome::StartLogin));
    let plan = route(&request("GET", "/bookkeepings/", &[("cookie", b"theme=dark")]));
    assert!(matches!(plan.outcome, Outcome::StartLogin));
}

#[test]
fn unknown_session_starts_login() {
    let req = request("GET", "/bookkeepings/", &[("cookie", b"session=stale")]);
    let plan = route(&req);
    assert!(matches!(plan.lookups[0], Lookup::Session(ref s) if s == "stale"));
    assert!(matches!(plan.settle(&req, Some(0)), Outcome::StartLogin));
}

#[test]
fn login_redirect_is_unauthorized_and_uncached() {
    let page = "<a href=\"https://idp.example/auth?x=1\">log in</a>".to_string();
    let r = login_redirect_response(page.clone());
    assert_eq!(r.status, 401);
    assert_eq!(r.body, page);
    assert!(r.headers.iter().any(|(n, v)| n == "Cache-Control" && v == "no-store"));
}

#[test]
fn callback_reads_code_and_state() {
    let req = with_query(request("GET", "/post-login", &[]), "code=c%20d&state=st");
    let (state, action) = begin_login_callback(&req);
    assert!(matches!(state, LoginState::AwaitingNonce { ref code } if code == "c d"));
    assert!(matches!(action, LoginAction::FetchNonce { ref state } if state == "st"));
}

#[test]
fn callback_without_state_fails() {
    let req = with_query(request("GET", "/post-login", &[]), "code=c");
    let (_, action) = begin_login_callback(&req);
    assert!(matches!(action,
        LoginAction::Fail(Error::ClientError(ClientError::InvalidUrlEncoding(ref m)))
            if m == "missing field `state`"));
}

#[test]
fn unknown_login_state_fails_without_session() {
    let s = LoginState::AwaitingNonce { code: "c".to_string() };
    let (next, action) = s.step(LoginEvent::Nonce(None));
    assert!(matches!(action, LoginAction::Fail(Error::ClientError(ClientError::UnknownOIDCProcess))));
    assert!(matches!(next, LoginState::Done));
}

#[test]
fn successful_login_creates_session_and_cookie() {
    let req = with_query(request("GET", "/post-login", &[]), "state=st&code=cc");
    let (s0, a0) = begin_login_callback(&req);
    assert!(matches!(a0, LoginAction::FetchNonce { ref state } if state == "st"));
    let (s1, a1) = s0.step(LoginEvent::Nonce(Some("n".to_string())));
    assert!(matches!(a1, LoginAction::ExchangeCode { ref code, ref nonce } if code == "cc" && nonce == "n"));
    let (s2, a2) = s1.step(LoginEvent::Identity(IdentityOutcome::Verified {
        email: Some("a@b.c".to_string()),
    }));
    assert!(matches!(a2, LoginAction::FindUser { ref email } if email == "a@b.c"));
    let (s3, a3) = s2.step(LoginEvent::User(Some(42)));
    let id = match a3 {
        LoginAction::CreateSession { session_id, user_id } => {
            assert_eq!(user_id, 42);
            session_id
        },
        _ => panic!("expected a session to be created"),
    };
    assert_eq!(id.chars().count(), 32);
    assert!(id.chars().all(|c| c.is_ascii_alphanumeric() || c == '_' || c == '-'));
    let (_, a4) = s3.step(LoginEvent::SessionStored);
    match a4 {
        LoginAction::Finish(r) => {
            assert_eq!(r.status, 200);
            let cookie = format!("session={}; Secure; HttpOnly; SameSite=Strict", id);
            assert!(r.headers.iter().any(|(n, v)| n == "Set-Cookie" && *v == cookie));
            assert!(r.headers.iter().any(|(n, v)| n == "Cache-Control" && v == "no-store"));
            assert!(r.body.contains("history.back();"));
        },
        _ => panic!("expected the login to finish"),
    }
}

#[test]
fn identity_failures_map_to_errors() {
    let (_, a) = LoginState::AwaitingIdentity.step(LoginEvent::Identity(IdentityOutcome::NoToken));
    assert!(matches!(a, LoginAction::Fail(Error::ClientError(ClientError::OIDCGaveNoToken))));
    let (_, a) = LoginState::AwaitingIdentity
        .step(LoginEvent::Identity(IdentityOutcome::ClaimsRejected("bad".to_string())));
    assert!(matches!(a, LoginAction::Fail(Error::InternalError(InternalError::TamperedOIDCLogin(_)))));
    let (_, a) = LoginState::AwaitingIdentity
        .step(LoginEvent::Identity(IdentityOutcome::Verified { email: None }));
    assert!(matches!(a, LoginAction::Fail(Error::ClientError(ClientError::OIDCGaveNoEmail))));
    let (_, a) = LoginState::AwaitingUser { email: "x@y.z".to_string() }.step(LoginEvent::User(None));
    assert!(matches!(a,
        LoginAction::Fail(Error::ClientError(ClientError::UserNotFound(ref e))) if e == "x@y.z"));
}

// Headers and lengths

#[test]
fn header_lookup_ignores_case() {
    let req = request("GET", "/", &[("content-type", b"text/plain")]);
    assert_eq!(get_header(&req, "Content-Type").ok().unwrap(), Some("text/plain".to_string()));
    assert_eq!(get_header(&req, "Accept").ok().unwrap(), None);
}

#[test]
fn unreadable_header_is_named() {
    let req = request("GET", "/", &[("x-thing", &[b'a', 1u8])]);
    match get_header(&req, "X-Thing") {
        Err(Error::ClientError(ClientError::UnreadableHeader(m))) => {
            assert_eq!(m, "Error reading header X-Thing: failed to convert header to a str");
        },
        _ => panic!("expected an unreadable header"),
    }
}

#[test]
fn content_length_errors() {
    let req = request("POST", "/", &[]);
    assert_eq!(content_length_message(validate_get_content_len(&req, 10).err().unwrap()),
        "No content length given");
    let req = request("POST", "/", &[("content-length", b"1x")]);
    assert_eq!(content_length_message(validate_get_content_len(&req, 10).err().unwrap()),
        "Invalid unsigned int: invalid digit found in string");
    let req = request("POST", "/", &[("content-length", b"7")]);
    assert_eq!(validate_get_content_len(&req, 10).ok(), Some(7));
}

#[test]
fn oversized_body_fails_before_reading() {
    let req = request("POST", "/", &[("content-length", b"11")]);
    match BodyReader::start(&req, 10) {
        Err(e) => assert_eq!(content_length_message(e), "Too large. Maximum allowed is 10, received 11"),
        Ok(_) => panic!("expected the declared length to be refused"),
    }
}

#[test]
fn body_overrun_is_mismatch() {
    let req = request("POST", "/", &[("content-length", b"5")]);
    let mut reader = BodyReader::start(&req, 100).ok().unwrap();
    assert!(reader.push_frame(b"abc", 0).is_ok());
    let e = reader.push_frame(b"defg", 3).err().unwrap();
    assert_eq!(content_length_message(e), "Mismatch. Header is 5, received  at least 10");
}

#[test]
fn body_underrun_is_mismatch() {
    let req = request("POST", "/", &[("content-length", b"5")]);
    let mut reader = BodyReader::start(&req, 100).ok().unwrap();
    assert!(reader.push_frame(b"abc", 0).is_ok());
    let e = reader.finish().err().unwrap();
    assert_eq!(content_length_message(e), "Mismatch. Header is 5, received  3");
}

#[test]
fn exact_body_is_accepted() {
    let req = request("POST", "/", &[("content-length", b"6")]);
    let mut reader = BodyReader::start(&req, 6).ok().unwrap();
    assert!(reader.push_frame(b"abc", 3).is_ok());
    assert!(reader.push_frame(b"def", 0).is_ok());
    assert_eq!(reader.finish().ok().unwrap(), b"abcdef".to_vec());
}

// Cookies

#[test]
fn duplicate_cookie_fails() {
    let req = request("GET", "/", &[("cookie", b"a=1; b=2; a=3")]);
    match parse_cookies(&req) {
        Err(Error::ClientError(ClientError::DuplicateCookies { name, value, old_value })) => {
            assert_eq!(name, "a");
            assert_eq!(value, "3");
            assert_eq!(old_value, "1");
        },
        _ => panic!("expected duplicate cookies"),
    }
}

#[test]
fn distinct_cookies_are_all_kept() {
    let req = request("GET", "/", &[("cookie", b"a=1; b=x=y;c=")]);
    let cookies = parse_cookies(&req).ok().unwrap();
    assert_eq!(cookies.len(), 3);
    assert_eq!(cookies[1], ("b".to_string(), "x=y".to_string()));
    assert_eq!(cookies[2], ("c".to_string(), "".to_string()));
}

#[test]
fn missing_cookie_header_is_empty() {
    let cookies = parse_cookies(&request("GET", "/", &[])).ok().unwrap();
    assert!(cookies.is_empty());
}

#[test]
fn cookie_without_equals_is_unparseable() {
    let req = request("GET", "/", &[("cookie", b"a=1; junk")]);
    assert!(matches!(parse_cookies(&req),
        Err(Error::ClientError(ClientError::UnparseableCookie(ref raw))) if raw == "a=1; junk"));
}

// Forms

#[test]
fn query_is_decoded() {
    let req = with_query(request("GET", "/", &[]), "a=1+2&b=%C3%A9");
    let pairs = parse_query(&req).ok().unwrap();
    assert_eq!(pairs, vec![("a".to_string(), "1 2".to_string()), ("b".to_string(), "é".to_string())]);
    assert!(parse_query(&request("GET", "/", &[])).ok().unwrap().is_empty());
}

#[test]
fn form_content_type_is_checked() {
    let req = request("POST", "/", &[("content-type", b"text/plain")]);
    assert!(matches!(check_form_content_type(&req),
        Err(Error::ClientError(ClientError::InvalidContentType(ref m)))
            if m == "Expected application/x-www-form-urlencoded, received text/plain"));
    let req = request("POST", "/", &[("content-type", b"application/x-www-form-urlencoded")]);
    assert!(check_form_content_type(&req).is_ok());
}

#[test]
fn form_fields_are_read() {
    let pairs = decode_form_body(b"name=Cash&name=Bank").ok().unwrap();
    assert!(matches!(required_field(&pairs, "name"),
        Err(Error::ClientError(ClientError::InvalidUrlEncoding(ref m))) if m == "duplicate field `name`"));
    let pairs = decode_form_body(b"name=Cash").ok().unwrap();
    assert_eq!(required_field(&pairs, "name").ok().unwrap(), "Cash");
}

#[test]
fn created_marks_are_read() {
    let pairs = decode_form_body(b"new_account=12").ok().unwrap();
    let c = pages::bookkeeping::Created::from_query(&pairs).ok().unwrap();
    assert!(c.equals_account(&12));
    assert!(!c.equals_account(&13));
    assert!(!c.equals_grouping(&12));
    let pairs = decode_form_body(b"new_transaction=x").ok().unwrap();
    assert!(pages::grouping::Created::from_query(&pairs).is_err());
    let pairs = decode_form_body(b"new_account_change=-3").ok().unwrap();
    let c = pages::transaction::Created::from_query(&pairs).ok().unwrap();
    assert!(c.equals_account_change(&-3));
    let c = pages::grouping::Created::from_query(&Vec::new()).ok().unwrap();
    assert!(!c.equals_transaction(&0));
}

#[test]
fn integers_parse_as_std_does() {
    assert_eq!(parse_usize("+42"), Ok(42));
    assert_eq!(parse_usize(""), Err(IntErrorKind::Empty));
    assert_eq!(parse_usize("-1"), Err(IntErrorKind::InvalidDigit));
    assert_eq!(parse_usize("99999999999999999999"), Err(IntErrorKind::PosOverflow));
    assert_eq!(parse_i64("-9223372036854775808"), Ok(i64::MIN));
    assert_eq!(parse_i64("-9223372036854775809"), Err(IntErrorKind::NegOverflow));
    assert_eq!(parse_i64("9223372036854775807"), Ok(i64::MAX));
    assert_eq!(parse_i64("+"), Err(IntErrorKind::InvalidDigit));
}

// Errors and pages

#[test]
fn duplicate_name_is_conflict_naming_it() {
    let e = creation_error(Resource::Account, "Cash", StoreFailure::UniqueViolation("dup".to_string()));
    let page = e.error_page();
    assert_eq!(page.status, 409);
    assert!(page.kind == PageKind::Input);
    assert_eq!(page.message, "An account by name Cash already exists in this bookkeeping.");
    let e = creation_error(Resource::Bookkeeping, "Home", StoreFailure::UniqueViolation("d".to_string()));
    assert_eq!(e.error_page().message, "A Bookkeeping by name Home already exists.");
    let e = creation_error(Resource::Grouping, "Q1", StoreFailure::UniqueViolation("d".to_string()));
    assert_eq!(e.error_page().message, "A grouping by name Q1 already exists in this bookkeeping.");
}

#[test]
fn other_store_failures() {
    let e = creation_error(Resource::Bookkeeping, "", StoreFailure::CheckViolation("c".to_string()));
    assert!(matches!(e, Error::ClientError(ClientError::InvalidData(_))));
    let e = creation_error(Resource::Account, "", StoreFailure::CheckViolation("c".to_string()));
    assert!(matches!(e, Error::InternalError(InternalError::Db(ref d)) if d == "c"));
}

#[test]
fn error_pages_by_kind() {
    let p = Error::InternalError(InternalError::Db("secret".to_string())).error_page();
    assert_eq!(p.status, 500);
    assert_eq!(p.message, "Internal server error. Please try again in a few minutes.");
    let p = ClientError::PathNotFound("/x".to_string()).error_page();
    assert_eq!((p.status, p.message.as_str()), (404, "Path /x not found."));
    let p = ClientError::Forbidden.error_page();
    assert_eq!((p.status, p.message.as_str()), (403, "Operation forbidden!"));
    let p = ClientError::UserNotFound("a@b".to_string()).error_page();
    assert_eq!(p.status, 403);
    assert_eq!(p.message, "No account exists for gmail a@b. Contact admins to create one.");
    let p = ClientError::MethodNotFound { method: "PUT".to_string(), path: "/".to_string() }.error_page();
    assert_eq!((p.status, p.message.as_str()), (405, "Method PUT not valid for path /."));
}

#[test]
fn other_client_errors_dump_json() {
    let p = ClientError::DuplicateCookies {
        name: "a".to_string(),
        value: "b\"".to_string(),
        old_value: "c".to_string(),
    }
    .error_page();
    assert_eq!(p.status, 400);
    assert_eq!(
        p.message,
        "Bad request. Your browser is misbehaving. Error: {\"DuplicateCookies\":{\"name\":\"a\",\"value\":\"b\\\"\",\"old_value\":\"c\"}}"
    );
    assert_eq!(ClientError::OIDCGaveNoToken.to_json(), "\"OIDCGaveNoToken\"");
    assert_eq!(ClientError::InvalidJson("x".to_string()).to_json(), "{\"InvalidJson\":\"x\"}");
}

#[test]
fn failed_render_falls_back() {
    let page = ClientError::Forbidden.error_page();
    let r = page.into_response(None);
    assert_eq!(r.status, 500);
    assert!(r.body.contains("Server is on proverbial fire."));
    let page = ClientError::Forbidden.error_page();
    let r = page.into_response(Some("<p>no</p>".to_string()));
    assert_eq!(r.status, 403);
    assert_eq!(r.body, "<p>no</p>");
}

#[test]
fn error_constructors() {
    assert!(matches!(Error::forbidden(), Error::ClientError(ClientError::Forbidden)));
    let e = Error::content_length_mismatch(3, 5);
    assert_eq!(content_length_message(e), "Mismatch. Header is 5, received  3");
    assert!(matches!(Error::invalid_content_type("a", "b"),
        Error::ClientError(ClientError::InvalidContentType(ref m)) if m == "Expected a, received b"));
    assert!(matches!(Error::unparseable_cookie("x"),
        Error::ClientError(ClientError::UnparseableCookie(ref m)) if m == "x"));
    assert!(matches!(Error::path_data_before_root("d".to_string()),
        Error::ClientError(ClientError::PathDataBeforeRoot(ref m)) if m == "d"));
}

#[test]
fn calendar_dates_are_checked() {
    assert!(CalendarDate::from_parts(2024, 2, 29).is_some());
    assert!(CalendarDate::from_parts(2023, 2, 29).is_none());
    assert!(CalendarDate::from_parts(2000, 2, 29).is_some());
    assert!(CalendarDate::from_parts(1900, 2, 29).is_none());
    assert!(CalendarDate::from_parts(2024, 13, 1).is_none());
}

#[test]
fn keys_are_grouped_in_order() {
    let keys: Vec<String> = ["asset", "debt", "asset", "income", "debt"].iter().map(|s| s.to_string()).collect();
    let groups = bookkeeper::grouping::group_by_key(&keys);
    assert_eq!(
        groups,
        vec![
            ("asset".to_string(), vec![0, 2]),
            ("debt".to_string(), vec![1, 4]),
            ("income".to_string(), vec![3]),
        ]
    );
    assert!(bookkeeper::grouping::group_by_key(&Vec::new()).is_empty());
}

#[test]
fn transaction_form_reads_date() {
    let pairs = decode_form_body(b"name=Rent&date=2024-02-29").ok().unwrap();
    let t = bookkeeper::submission::NewTransaction::from_form(&pairs).ok().unwrap();
    assert_eq!(t.name, "Rent");
    assert_eq!(t.date, CalendarDate { year: 2024, month: 2, day: 29 });
    let pairs = decode_form_body(b"name=Rent&date=2023-02-29").ok().unwrap();
    assert!(matches!(bookkeeper::submission::NewTransaction::from_form(&pairs),
        Err(Error::ClientError(ClientError::InvalidUrlEncoding(_)))));
}

#[test]
fn account_change_form_reads_amount() {
    let pairs = decode_form_body(b"account=4&date=2024-01-31&message=Coffee&amount=-12.50").ok().unwrap();
    let c = bookkeeper::submission::NewAccountChange::from_form(&pairs).ok().unwrap();
    assert_eq!(c.account, 4);
    assert_eq!(c.date, CalendarDate { year: 2024, month: 1, day: 31 });
    assert_eq!(c.message, "Coffee");
    assert_eq!(c.amount, bookkeeper::records::Amount { mantissa: -1250, scale: 2 });
    let pairs = decode_form_body(b"account=x&date=2024-01-31&message=m&amount=1").ok().unwrap();
    assert!(matches!(bookkeeper::submission::NewAccountChange::from_form(&pairs),
        Err(Error::ClientError(ClientError::InvalidUrlEncoding(ref m))) if m == "invalid digit found in string"));
    let pairs = decode_form_body(b"account=1&date=2024-01-31&message=m&amount=abc").ok().unwrap();
    assert!(bookkeeper::submission::NewAccountChange::from_form(&pairs).is_err());
}

#[test]
fn account_form_needs_type() {
    let pairs = decode_form_body(b"name=Cash").ok().unwrap();
    assert!(matches!(bookkeeper::submission::NewAccount::from_form(&pairs),
        Err(Error::ClientError(ClientError::InvalidUrlEncoding(ref m))) if m == "missing field `type`"));
    let pairs = decode_form_body(b"name=Cash&type=asset").ok().unwrap();
    let a = bookkeeper::submission::NewAccount::from_form(&pairs).ok().unwrap();
    assert_eq!((a.name.as_str(), a.kind.as_str()), ("Cash", "asset"));
}

#[test]
fn json_escapes_control_characters() {
    let e = ClientError::InvalidJson("a\u{1}\n\\\u{1f}é".to_string());
    assert_eq!(e.to_json(), "{\"InvalidJson\":\"a\\u0001\\n\\\\\\u001fé\"}");
}

#[test]
fn distinct_cookie_values_are_kept_by_name() {
    let req = request("GET", "/", &[("cookie", b"session=ab=c; theme=dark")]);
    let cookies = parse_cookies(&req).ok().unwrap();
    assert_eq!(
        cookies,
        vec![("session".to_string(), "ab=c".to_string()), ("theme".to_string(), "dark".to_string())]
    );
}

#[test]
fn malformed_escapes_still_decode() {
    let pairs = decode_form_body(b"a=%zz&b").ok().unwrap();
    assert_eq!(pairs, vec![("a".to_string(), "%zz".to_string()), ("b".to_string(), "".to_string())]);
}
