use vertex::errors::Error;
use vertex::login::{
    credentials_supported, dashboard_url, deletion_outcome, login_answer, login_page_url,
    login_start, logintoken_from_page, logout_answer, logout_start, logout_url, relogin_outcome, saves_password,
    sesskey_from_page, stored_credentials, stored_username, Deletion, LoginStart, LogoutStart,
};
use vertex::types::{LoginPayload, Service};

fn login_page(token_input: &str) -> String {
    format!(
        "<html><body><form action=\"/login/index.php\" method=\"post\">{}<input name=\"username\"></form></body></html>",
        token_input
    )
}

#[test]
fn base_urls() {
    assert_eq!(Service::LMS.base_url(), "https://lms.vit.ac.in");
    assert_eq!(Service::Vitol.base_url(), "https://vitolcc.vit.ac.in");
}

#[test]
fn login_form_fields() {
    let p = LoginPayload::new("22BCE1234".to_string(), "hunter2".to_string());
    assert_eq!(p.username, "22BCE1234");
    assert_eq!(p.password, "hunter2");
    let form = p.add_token("tok123".to_string());
    assert_eq!(
        form,
        vec![
            ("logintoken".to_string(), "tok123".to_string()),
            ("username".to_string(), "22BCE1234".to_string()),
            ("password".to_string(), "hunter2".to_string()),
        ]
    );
}

#[test]
fn urls_of_a_service() {
    assert_eq!(login_page_url(&Service::LMS), "https://lms.vit.ac.in/login/index.php");
    assert_eq!(dashboard_url(&Service::LMS), "https://lms.vit.ac.in/my/");
    assert_eq!(
        logout_url(&Service::Vitol, "abc"),
        "https://vitolcc.vit.ac.in/login/logout.php?sesskey=abc"
    );
}

#[test]
fn logintoken_is_read_from_hidden_input() {
    let page = login_page("<input type=\"hidden\" name=\"logintoken\" value=\"Xy9Zq\">");
    assert_eq!(logintoken_from_page(&page).unwrap(), "Xy9Zq");
}

#[test]
fn logintoken_takes_the_first_input() {
    let page = login_page(
        "<input type=\"hidden\" name=\"logintoken\" value=\"first\"><input type=\"hidden\" name=\"logintoken\" value=\"second\">",
    );
    assert_eq!(logintoken_from_page(&page).unwrap(), "first");
}

#[test]
fn logintoken_when_logged_in() {
    let page = "<div class=\"logininfo\">You are logged in as <a href=\"#\">A B</a></div>";
    match logintoken_from_page(page) {
        Err(Error::InvalidRequestError(m)) => assert_eq!(m, "User is already logged in"),
        _ => panic!("expected the logged-in error"),
    }
}

#[test]
fn logintoken_missing_input() {
    match logintoken_from_page(&login_page("")) {
        Err(Error::InvalidFormat(m)) => assert_eq!(m, "no hidden input present for logintoken"),
        _ => panic!("expected a format error"),
    }
}

#[test]
fn logintoken_without_value() {
    let page = login_page("<input type=\"hidden\" name=\"logintoken\">");
    match logintoken_from_page(&page) {
        Err(Error::InvalidFormat(m)) => assert_eq!(m, "no attribute value for logintoken"),
        _ => panic!("expected a format error"),
    }
}

#[test]
fn login_start_cases() {
    match login_start(Ok("t".to_string())) {
        LoginStart::Submit(t) => assert_eq!(t, "t"),
        _ => panic!("expected to submit"),
    }
    match login_start(Err(Error::InvalidRequestError("x".to_string()))) {
        LoginStart::Finished(Ok(m)) => assert_eq!(m, "user is already logged in"),
        _ => panic!("expected success"),
    }
    match login_start(Err(Error::NetworkError("down".to_string()))) {
        LoginStart::Finished(Err(Error::NetworkError(m))) => assert_eq!(m, "down"),
        _ => panic!("expected the network error"),
    }
}

#[test]
fn login_answer_reads_user_info() {
    let page = "<html><body><div class=\"logininfo\">You are logged in as <a href=\"/user/profile.php\">JOHN <b>DOE</b></a> (<a href=\"/login/logout.php\">Log out</a>)</div></body></html>";
    assert_eq!(login_answer(page).unwrap(), Some("JOHN  DOE".to_string()));
}

#[test]
fn login_answer_refused() {
    match login_answer("<html><body>Invalid login, please try again</body></html>") {
        Err(Error::AuthError(m)) => assert_eq!(m, "login credentials invalid"),
        _ => panic!("expected an auth error"),
    }
}

#[test]
fn login_answer_without_info_link() {
    assert_eq!(login_answer("<p>You are logged in as nobody</p>").unwrap(), None);
}

#[test]
fn password_is_saved_only_when_missing() {
    assert!(saves_password(false));
    assert!(!saves_password(true));
}

#[test]
fn sesskey_cases() {
    let page = "<form><input type=\"hidden\" name=\"sesskey\" value=\"k3y\"></form>";
    assert_eq!(sesskey_from_page(page).unwrap(), "k3y");
    match sesskey_from_page("<form></form>") {
        Err(Error::InvalidRequestError(m)) => {
            assert_eq!(m, "failed to find session key in document")
        }
        _ => panic!("expected a request error"),
    }
    match sesskey_from_page("<input name=\"sesskey\">") {
        Err(Error::InvalidFormat(m)) => assert_eq!(m, "no attribute value for sesskey"),
        _ => panic!("expected a format error"),
    }
}

#[test]
fn logout_cases() {
    match logout_start(&Service::LMS, Ok("k".to_string())) {
        LogoutStart::Request(u) => {
            assert_eq!(u, "https://lms.vit.ac.in/login/logout.php?sesskey=k")
        }
        _ => panic!("expected a request"),
    }
    match logout_start(&Service::LMS, Err(Error::InvalidRequestError("no".to_string()))) {
        LogoutStart::Finished(Ok(m)) => assert_eq!(m, "already logged out"),
        _ => panic!("expected success"),
    }
    match logout_start(&Service::LMS, Err(Error::StoreError)) {
        LogoutStart::Finished(Err(Error::StoreError)) => {}
        _ => panic!("expected the store error"),
    }
    assert_eq!(
        logout_answer("<p>You are not logged in.</p>").unwrap(),
        "successfully logged out"
    );
    match logout_answer("<p>still here</p>") {
        Err(Error::AuthError(m)) => assert_eq!(m, "logout failed due to unknown reasons"),
        _ => panic!("expected an auth error"),
    }
}

#[test]
fn relogin_cases() {
    assert!(relogin_outcome(Ok("u".to_string())).is_ok());
    assert!(relogin_outcome(Err(Error::InvalidRequestError("x".to_string()))).is_ok());
    match relogin_outcome(Err(Error::AuthError("bad".to_string()))) {
        Err(Error::AuthError(m)) => assert_eq!(m, "bad"),
        _ => panic!("expected the auth error"),
    }
}

#[test]
fn credential_cases() {
    assert!(credentials_supported(&Service::LMS).is_ok());
    match credentials_supported(&Service::Vitol) {
        Err(Error::InvalidFormat(m)) => assert_eq!(m, "not implemented yet"),
        _ => panic!("expected a format error"),
    }
    assert_eq!(stored_username(Some("me".to_string())).unwrap(), "me");
    assert!(matches!(stored_username(None), Err(Error::StoreError)));
    let c = stored_credentials("me".to_string(), Some("pw".to_string())).unwrap();
    assert_eq!(c.username, "me");
    assert_eq!(c.password, "pw");
    match stored_credentials("me".to_string(), None) {
        Err(Error::CredentialsError(m)) => {
            assert_eq!(m, "password not found in credential manager")
        }
        _ => panic!("expected a credentials error"),
    }
    assert!(deletion_outcome(Deletion::Deleted).is_ok());
    assert!(deletion_outcome(Deletion::NoEntry).is_ok());
    match deletion_outcome(Deletion::Failed) {
        Err(Error::CredentialsError(m)) => {
            assert_eq!(m, "credentials are not present to be deleted")
        }
        _ => panic!("expected a credentials error"),
    }
}

#[test]
fn error_messages_and_kinds() {
    let cases = vec![
        (Error::AuthError("x".to_string()), "invalid login: x", "authError"),
        (Error::InvalidJSONFormat("bad json".to_string()), "bad json", "invalidJSONFormat"),
        (Error::NetworkError("timeout".to_string()), "timeout", "networkError"),
        (Error::StoreError, "encountered a store error", "storeError"),
        (Error::InvalidFormat("y".to_string()), "invalid format received: y", "invalidFormat"),
        (
            Error::CredentialsError("z".to_string()),
            "error fetching credentials: z",
            "credentialsError",
        ),
        (
            Error::InvalidRequestError("w".to_string()),
            "invalid request error: w",
            "invalidRequestError",
        ),
    ];
    for (e, message, kind) in cases {
        assert_eq!(e.message(), message);
        assert_eq!(e.kind(), kind);
    }
}

#[test]
fn check_logintoken() {
    let page = "<html><body><form class=\"login-form\" action=\"https://lms.vit.ac.in/login/index.php\" method=\"post\" id=\"login\">\
        <input id=\"anchor\" type=\"hidden\" name=\"anchor\" value=\"\">\
        <input type=\"hidden\" name=\"logintoken\" value=\"q8QW8JTE2rHnBQvRy2M6HkOEUYbpZUtb\">\
        <input type=\"text\" name=\"username\" id=\"username\"></form></body></html>";
    match logintoken_from_page(page) {
        Ok(token) => assert!(!token.is_empty(), "Token should not be empty"),
        Err(Error::AuthError(s)) => panic!("Auth Error: {}", s),
        Err(e) => panic!("Failed to fetch login token: {}", e.message()),
    }
}

#[test]
fn logged_in_page_finishes_login_at_once() {
    let page = "<div class=\"logininfo\">You are logged in as <a href=\"#\">X</a></div>";
    match login_start(logintoken_from_page(page)) {
        LoginStart::Finished(Ok(m)) => assert_eq!(m, "user is already logged in"),
        _ => panic!("expected success"),
    }
    let page = login_page("<input type=\"hidden\" name=\"logintoken\">");
    assert!(matches!(login_start(logintoken_from_page(&page)), LoginStart::Finished(Err(_))));
}

#[test]
fn dashboard_without_session_key_means_logged_out() {
    match logout_start(&Service::LMS, sesskey_from_page("<html><body>Log in</body></html>")) {
        LogoutStart::Finished(Ok(m)) => assert_eq!(m, "already logged out"),
        _ => panic!("expected success"),
    }
}

#[test]
fn urls_start_with_the_base_url() {
    for s in [Service::LMS, Service::Vitol] {
        assert!(login_page_url(&s).starts_with(s.base_url()));
        assert!(dashboard_url(&s).starts_with(s.base_url()));
        assert!(logout_url(&s, "k").starts_with(s.base_url()));
    }
    assert_ne!(Service::LMS.base_url(), Service::Vitol.base_url());
}
