use vstd::prelude::*;
use vstd::string::StringExecFns;
use crate::errors::{Error, ErrorModel, text_result, unit_result};
use crate::html::{Element, ElementModel, elements_view, select_elements, scraped};
use crate::text::{contains, spec_contains, join_strings, join_with};
use crate::types::{Service, LoginPayload, spec_base_url};

verus! {

/// The text Moodle shows on a page to a user who is logged in.
pub const LOGGED_IN_MARKER: &'static str = "You are logged in as";

/// The text Moodle shows on a page to a visitor who is not logged in.
pub const LOGGED_OUT_MARKER: &'static str = "You are not logged in.";

/// The hidden input of the login form that holds the login token.
pub const LOGINTOKEN_SELECTOR: &'static str = "input[name=\"logintoken\"]";

/// The hidden input that holds the session key.
pub const SESSKEY_SELECTOR: &'static str = "input[name=\"sesskey\"]";

/// The link that shows who is logged in.
pub const LOGININFO_SELECTOR: &'static str = ".logininfo a";

/// The text of the error given where scraper refuses one of the library's selectors.
pub const SELECTOR_REFUSED: &'static str = "selector refused by the HTML parser";

/// The address of `path` on a service.
pub open spec fn spec_service_url(service: Service, path: Seq<char>) -> Seq<char> {
    spec_base_url(service) + path
}

/// The address of `path` on a service.
pub fn service_url(service: &Service, path: &str) -> (url: String)
    ensures
        url@ == spec_service_url(*service, path@),
{
    String::from_str(service.base_url()).concat(path)
}

/// The login page of a service.
pub fn login_page_url(service: &Service) -> (url: String)
    ensures
        url@ == spec_service_url(*service, "/login/index.php"@),
{
    service_url(service, "/login/index.php")
}

/// The dashboard of a service, which carries the session key.
pub fn dashboard_url(service: &Service) -> (url: String)
    ensures
        url@ == spec_service_url(*service, "/my/"@),
{
    service_url(service, "/my/")
}

/// The address that ends the session with the given session key.
pub fn logout_url(service: &Service, sesskey: &str) -> (url: String)
    ensures
        url@ == spec_service_url(*service, "/login/logout.php?sesskey="@ + sesskey@),
{
    service_url(service, "/login/logout.php?sesskey=").concat(sesskey)
}

/// An optional list of matched elements, each taken as a model.
pub open spec fn matches_view(found: Option<Vec<Element>>) -> Option<Seq<ElementModel>> {
    match found {
        Some(v) => Some(elements_view(v@)),
        None => None,
    }
}

/// The value of the first of the matched hidden inputs: `missing` where there is none,
/// `no_value` where it has no value.
pub open spec fn spec_hidden_value(
    found: Option<Seq<ElementModel>>,
    missing: ErrorModel,
    no_value: ErrorModel,
) -> Result<Seq<char>, ErrorModel> {
    match found {
        None => Err(ErrorModel::InvalidFormat(SELECTOR_REFUSED@)),
        Some(found) => if found.len() == 0 {
            Err(missing)
        } else {
            match found[0].0 {
                Some(v) => Ok(v),
                None => Err(no_value),
            }
        },
    }
}

fn hidden_value(found: Option<Vec<Element>>, missing: Error, no_value: Error) -> (r: Result<
    String,
    Error,
>)
    ensures
        text_result(r) == spec_hidden_value(matches_view(found), missing@, no_value@),
{
    match found {
        None => Err(Error::InvalidFormat(String::from_str(SELECTOR_REFUSED))),
        Some(found) => {
            if found.len() == 0 {
                Err(missing)
            } else {
                assert(elements_view(found@)[0] == found@[0]@);
                match &found[0].attribute {
                    Some(v) => Ok(v.clone()),
                    None => Err(no_value),
                }
            }
        },
    }
}

/// The login token among the hidden inputs matched on the login page.
pub open spec fn spec_logintoken_matches(found: Option<Seq<ElementModel>>) -> Result<
    Seq<char>,
    ErrorModel,
> {
    spec_hidden_value(
        found,
        ErrorModel::InvalidFormat("no hidden input present for logintoken"@),
        ErrorModel::InvalidFormat("no attribute value for logintoken"@),
    )
}

/// What the login page gives: the login token, or why there is none.
pub open spec fn spec_logintoken(page: Seq<char>) -> Result<Seq<char>, ErrorModel> {
    if spec_contains(page, LOGGED_IN_MARKER@) {
        Err(ErrorModel::InvalidRequestError("User is already logged in"@))
    } else {
        spec_logintoken_matches(scraped(page, LOGINTOKEN_SELECTOR@, "value"@))
    }
}

/// Reads the login token from the login-token inputs found on the login page (with their
/// `value` attributes).
pub fn logintoken_from_matches(found: Option<Vec<Element>>) -> (r: Result<String, Error>)
    ensures
        text_result(r) == spec_logintoken_matches(matches_view(found)),
{
    hidden_value(
        found,
        Error::InvalidFormat(String::from_str("no hidden input present for logintoken")),
        Error::InvalidFormat(String::from_str("no attribute value for logintoken")),
    )
}

/// Reads the login token from the login page of a Moodle site.
pub fn logintoken_from_page(page: &str) -> (r: Result<String, Error>)
    ensures
        text_result(r) == spec_logintoken(page@),
{
    if contains(page, LOGGED_IN_MARKER) {
        return Err(Error::InvalidRequestError(String::from_str("User is already logged in")));
    }
    logintoken_from_matches(select_elements(page, LOGINTOKEN_SELECTOR, "value"))
}

/// The first step of a login, decided by what the login page gave.
pub enum LoginStart {
    /// Send the login form with this token.
    Submit(String),
    /// The login is over with this result.
    Finished(Result<String, Error>),
}

/// The first step of a login or a logout, with its texts taken as sequences of characters.
pub enum StepModel {
    /// Go on with this text (the login token, or the logout address).
    Proceed(Seq<char>),
    /// It is over with this result.
    Finished(Result<Seq<char>, ErrorModel>),
}

impl View for LoginStart {
    type V = StepModel;

    open spec fn view(&self) -> StepModel {
        match self {
            LoginStart::Submit(t) => StepModel::Proceed(t@),
            LoginStart::Finished(r) => StepModel::Finished(text_result(*r)),
        }
    }
}

/// The first step of a login: a user who is already logged in is told so, another error
/// ends the login, a token goes into the login form.
pub open spec fn spec_login_start(token: Result<Seq<char>, ErrorModel>) -> StepModel {
    match token {
        Ok(t) => StepModel::Proceed(t),
        Err(ErrorModel::InvalidRequestError(_)) => StepModel::Finished(Ok("user is already logged in"@)),
        Err(e) => StepModel::Finished(Err(e)),
    }
}

/// Decides the first step of a login from what the login page gave.
pub fn login_start(token: Result<String, Error>) -> (s: LoginStart)
    ensures
        s@ == spec_login_start(text_result(token)),
{
    match token {
        Ok(t) => LoginStart::Submit(t),
        Err(Error::InvalidRequestError(_)) => LoginStart::Finished(
            Ok(String::from_str("user is already logged in")),
        ),
        Err(e) => LoginStart::Finished(Err(e)),
    }
}

/// The name of the user, from the text nodes of the first login-info link, joined by
/// spaces; `None` where there is no such link (or scraper refuses the selector).
pub open spec fn spec_userinfo_matches(found: Option<Seq<ElementModel>>) -> Option<Seq<char>> {
    match found {
        None => None,
        Some(found) => if found.len() == 0 {
            None
        } else {
            Some(join_with(found[0].1, " "@))
        },
    }
}

/// What the page that answers the login form gives: the name of the user, `None` where the
/// page says the user is logged in but holds no login-info link to read the name from, or
/// why the login failed.
pub open spec fn spec_login_answer(page: Seq<char>) -> Result<Option<Seq<char>>, ErrorModel> {
    if !spec_contains(page, LOGGED_IN_MARKER@) {
        Err(ErrorModel::AuthError("login credentials invalid"@))
    } else {
        Ok(spec_userinfo_matches(scraped(page, LOGININFO_SELECTOR@, "href"@)))
    }
}

/// A read login answer, with its texts taken as sequences of characters.
pub open spec fn answer_view(r: Result<Option<String>, Error>) -> Result<Option<Seq<char>>, ErrorModel> {
    match r {
        Ok(Some(s)) => Ok(Some(s@)),
        Ok(None) => Ok(None),
        Err(e) => Err(e@),
    }
}

/// Reads the user information from the login-info links found on a page.
pub fn userinfo_from_matches(found: Option<Vec<Element>>) -> (r: Option<String>)
    ensures
        r.deep_view() == spec_userinfo_matches(matches_view(found)),
{
    match found {
        None => None,
        Some(found) => {
            if found.len() == 0 {
                None
            } else {
                assert(elements_view(found@)[0] == found@[0]@);
                Some(join_strings(&found[0].texts, " "))
            }
        },
    }
}

/// Reads the answer to the login form: the user information text, or why the login failed.
/// `Ok(None)` is a page that says the user is logged in but names nobody: the login cannot
/// report the user, and its caller stops there.
pub fn login_answer(page: &str) -> (r: Result<Option<String>, Error>)
    ensures
        answer_view(r) == spec_login_answer(page@),
{
    if !contains(page, LOGGED_IN_MARKER) {
        return Err(Error::AuthError(String::from_str("login credentials invalid")));
    }
    Ok(userinfo_from_matches(select_elements(page, LOGININFO_SELECTOR, "href")))
}

/// The session key among the hidden inputs matched on the dashboard.
pub open spec fn spec_sesskey_matches(found: Option<Seq<ElementModel>>) -> Result<
    Seq<char>,
    ErrorModel,
> {
    spec_hidden_value(
        found,
        ErrorModel::InvalidRequestError("failed to find session key in document"@),
        ErrorModel::InvalidFormat("no attribute value for sesskey"@),
    )
}

/// What the dashboard gives: the session key, or why there is none.
pub open spec fn spec_sesskey(page: Seq<char>) -> Result<Seq<char>, ErrorModel> {
    spec_sesskey_matches(scraped(page, SESSKEY_SELECTOR@, "value"@))
}

/// Reads the session key from the session-key inputs found on the dashboard.
pub fn sesskey_from_matches(found: Option<Vec<Element>>) -> (r: Result<String, Error>)
    ensures
        text_result(r) == spec_sesskey_matches(matches_view(found)),
{
    hidden_value(
        found,
        Error::InvalidRequestError(String::from_str("failed to find session key in document")),
        Error::InvalidFormat(String::from_str("no attribute value for sesskey")),
    )
}

/// Reads the session key from the dashboard page.
pub fn sesskey_from_page(page: &str) -> (r: Result<String, Error>)
    ensures
        text_result(r) == spec_sesskey(page@),
{
    sesskey_from_matches(select_elements(page, SESSKEY_SELECTOR, "value"))
}

/// The first step of a logout, decided by what the dashboard gave.
pub enum LogoutStart {
    /// Open this address to end the session.
    Request(String),
    /// The logout is over with this result.
    Finished(Result<String, Error>),
}

impl View for LogoutStart {
    type V = StepModel;

    open spec fn view(&self) -> StepModel {
        match self {
            LogoutStart::Request(u) => StepModel::Proceed(u@),
            LogoutStart::Finished(r) => StepModel::Finished(text_result(*r)),
        }
    }
}

/// The first step of a logout: without a session there is nothing to end, another error
/// ends the logout, a session key gives the logout address.
pub open spec fn spec_logout_start(service: Service, sesskey: Result<Seq<char>, ErrorModel>) -> StepModel {
    match sesskey {
        Ok(k) => StepModel::Proceed(spec_service_url(service, "/login/logout.php?sesskey="@ + k)),
        Err(ErrorModel::InvalidRequestError(_)) => StepModel::Finished(Ok("already logged out"@)),
        Err(e) => StepModel::Finished(Err(e)),
    }
}

/// Decides the first step of a logout from what the dashboard gave.
pub fn logout_start(service: &Service, sesskey: Result<String, Error>) -> (s: LogoutStart)
    ensures
        s@ == spec_logout_start(*service, text_result(sesskey)),
{
    match sesskey {
        Ok(k) => LogoutStart::Request(logout_url(service, k.as_str())),
        Err(Error::InvalidRequestError(_)) => LogoutStart::Finished(
            Ok(String::from_str("already logged out")),
        ),
        Err(e) => LogoutStart::Finished(Err(e)),
    }
}

/// Reads the page that answers a logout. `Ok` means the session is over: the stored
/// credentials are then to be deleted, and the message is what the user is told.
pub fn logout_answer(page: &str) -> (r: Result<String, Error>)
    ensures
        spec_contains(page@, LOGGED_OUT_MARKER@) ==> text_result(r) == Ok::<Seq<char>, ErrorModel>(
            "successfully logged out"@,
        ),
        !spec_contains(page@, LOGGED_OUT_MARKER@) ==> text_result(r) == Err::<Seq<char>, ErrorModel>(
            ErrorModel::AuthError("logout failed due to unknown reasons"@),
        ),
{
    if contains(page, LOGGED_OUT_MARKER) {
        Ok(String::from_str("successfully logged out"))
    } else {
        Err(Error::AuthError(String::from_str("logout failed due to unknown reasons")))
    }
}

/// The result of logging in again: a user who was already logged in is fine, other
/// errors stand.
pub open spec fn spec_relogin(login: Result<Seq<char>, ErrorModel>) -> Result<(), ErrorModel> {
    match login {
        Err(ErrorModel::InvalidRequestError(_)) => Ok(()),
        Err(e) => Err(e),
        Ok(_) => Ok(()),
    }
}

/// Decides the result of logging in again from the result of the login.
pub fn relogin_outcome(login: Result<String, Error>) -> (r: Result<(), Error>)
    ensures
        unit_result(r) == spec_relogin(text_result(login)),
{
    match login {
        Err(Error::InvalidRequestError(_)) => Ok(()),
        Err(e) => Err(e),
        Ok(_) => Ok(()),
    }
}

/// Whether credentials can be looked up for a service: only the LMS keeps them.
pub fn credentials_supported(service: &Service) -> (r: Result<(), Error>)
    ensures
        *service == Service::LMS ==> r is Ok,
        *service == Service::Vitol ==> unit_result(r) == Err::<(), ErrorModel>(
            ErrorModel::InvalidFormat("not implemented yet"@),
        ),
{
    match service {
        Service::LMS => Ok(()),
        Service::Vitol => Err(Error::InvalidFormat(String::from_str("not implemented yet"))),
    }
}

/// The user name found in the application store, or the store error where there is none.
pub fn stored_username(username: Option<String>) -> (r: Result<String, Error>)
    ensures
        match username {
            Some(u) => text_result(r) == Ok::<Seq<char>, ErrorModel>(u@),
            None => text_result(r) == Err::<Seq<char>, ErrorModel>(ErrorModel::StoreError),
        },
{
    match username {
        Some(u) => Ok(u),
        None => Err(Error::StoreError),
    }
}

/// The credentials of a user, from the user name and the password that the credential
/// manager holds for it.
pub fn stored_credentials(username: String, password: Option<String>) -> (r: Result<
    LoginPayload,
    Error,
>)
    ensures
        match password {
            Some(p) => r matches Ok(c) && c.username@ == username@ && c.password@ == p@,
            None => r matches Err(e) && e@ == ErrorModel::CredentialsError(
                "password not found in credential manager"@,
            ),
        },
{
    match password {
        Some(p) => Ok(LoginPayload::new(username, p)),
        None => Err(Error::CredentialsError(String::from_str("password not found in credential manager"))),
    }
}

/// Whether a password is saved in the credential manager when credentials are stored:
/// only where looking up the stored password failed, so that a stored password is kept.
pub fn saves_password(lookup_succeeded: bool) -> (save: bool)
    ensures
        save == !lookup_succeeded,
{
    !lookup_succeeded
}

/// What the credential manager answered when asked to delete a password.
pub enum Deletion {
    Deleted,
    NoEntry,
    Failed,
}

/// Decides the result of deleting the stored password: a password that was not there is
/// no error.
pub fn deletion_outcome(d: Deletion) -> (r: Result<(), Error>)
    ensures
        (d is Deleted || d is NoEntry) ==> r is Ok,
        d is Failed ==> unit_result(r) == Err::<(), ErrorModel>(
            ErrorModel::CredentialsError("credentials are not present to be deleted"@),
        ),
{
    match d {
        Deletion::Deleted => Ok(()),
        Deletion::NoEntry => Ok(()),
        Deletion::Failed => Err(Error::CredentialsError(String::from_str("credentials are not present to be deleted"))),
    }
}

/// A login ends at once with success exactly when the login page shows that the user is
/// already logged in, and it then reports "user is already logged in".
pub proof fn login_finishes_early_only_when_logged_in(page: Seq<char>)
    ensures
        (spec_login_start(spec_logintoken(page)) matches StepModel::Finished(Ok(_))) <==> spec_contains(
            page,
            LOGGED_IN_MARKER@,
        ),
        spec_contains(page, LOGGED_IN_MARKER@) ==> spec_login_start(spec_logintoken(page))
            == StepModel::Finished(Ok("user is already logged in"@)),
{
}

/// Logging in again succeeds when the login succeeds or finds the user already logged in,
/// and fails with the login's own error otherwise; it never fails because the user was
/// already logged in.
pub proof fn relogin_accepts_a_live_session(login: Result<Seq<char>, ErrorModel>)
    ensures
        !(spec_relogin(login) matches Err(ErrorModel::InvalidRequestError(_))),
        spec_relogin(login) is Ok <==> (login is Ok || login matches Err(
            ErrorModel::InvalidRequestError(_),
        )),
        forall|e: ErrorModel|
            login == Err::<Seq<char>, ErrorModel>(e) && !(e is InvalidRequestError) ==> spec_relogin(
                login,
            ) == Err::<(), ErrorModel>(e),
{
}

/// A dashboard that holds no session key means there is no session: the logout ends at
/// once with "already logged out".
pub proof fn logout_without_session_succeeds(service: Service, page: Seq<char>)
    requires
        scraped(page, SESSKEY_SELECTOR@, "value"@) == Some(Seq::<ElementModel>::empty()),
    ensures
        spec_logout_start(service, spec_sesskey(page)) == StepModel::Finished(
            Ok("already logged out"@),
        ),
{
}

/// Every address that the library builds for a service starts with the base address of
/// that service.
pub proof fn service_urls_stay_on_service(service: Service, path: Seq<char>)
    ensures
        spec_base_url(service).is_prefix_of(spec_service_url(service, path)),
{
    assert(spec_service_url(service, path).take(spec_base_url(service).len() as int) =~= spec_base_url(
        service,
    ));
}

/// With a session key, the logout goes to the base address of the service followed by
/// `/login/logout.php?sesskey=` and the key itself, unchanged: the address ends with the key.
pub proof fn logout_address_carries_the_key(service: Service, k: Seq<char>)
    ensures
        spec_logout_start(service, Ok(k)) == StepModel::Proceed(
            spec_base_url(service) + "/login/logout.php?sesskey="@ + k,
        ),
        spec_logout_start(service, Ok(k)) matches StepModel::Proceed(u) && k.is_suffix_of(u),
{
    let u = spec_base_url(service) + "/login/logout.php?sesskey="@ + k;
    assert(spec_service_url(service, "/login/logout.php?sesskey="@ + k) =~= u);
    assert(u.subrange(u.len() - k.len(), u.len() as int) =~= k);
}

/// Different session keys give different logout addresses.
pub proof fn logout_addresses_differ_by_key(service: Service, k1: Seq<char>, k2: Seq<char>)
    requires
        k1 != k2,
    ensures
        spec_logout_start(service, Ok(k1)) != spec_logout_start(service, Ok(k2)),
{
    logout_address_carries_the_key(service, k1);
    logout_address_carries_the_key(service, k2);
    let p = spec_base_url(service) + "/login/logout.php?sesskey="@;
    let u1 = p + k1;
    let u2 = p + k2;
    if u1 == u2 {
        assert(u1.subrange(p.len() as int, u1.len() as int) =~= k1);
        assert(u2.subrange(p.len() as int, u2.len() as int) =~= k2);
    }
}

/// A login token is read only from a login page that does not show the user as logged in,
/// and it is the value of the first login-token input that scraper finds there.
pub proof fn logintoken_is_the_first_input_value(page: Seq<char>, v: Seq<char>)
    ensures
        spec_logintoken(page) == Ok::<Seq<char>, ErrorModel>(v) <==> (!spec_contains(
            page,
            LOGGED_IN_MARKER@,
        ) && (scraped(page, LOGINTOKEN_SELECTOR@, "value"@) matches Some(found) && found.len() > 0
            && found[0].0 == Some(v))),
{
}

/// A session key is the value of the first session-key input that scraper finds on the
/// dashboard.
pub proof fn sesskey_is_the_first_input_value(page: Seq<char>, v: Seq<char>)
    ensures
        spec_sesskey(page) == Ok::<Seq<char>, ErrorModel>(v) <==> (scraped(
            page,
            SESSKEY_SELECTOR@,
            "value"@,
        ) matches Some(found) && found.len() > 0 && found[0].0 == Some(v)),
{
}

/// The user information is read only from an answer that shows the user as logged in, and
/// it is the text of the first login-info link, its pieces joined by single spaces.
pub proof fn userinfo_is_the_first_link_text(page: Seq<char>, v: Seq<char>)
    ensures
        spec_login_answer(page) == Ok::<Option<Seq<char>>, ErrorModel>(Some(v)) <==> (spec_contains(
            page,
            LOGGED_IN_MARKER@,
        ) && (scraped(page, LOGININFO_SELECTOR@, "href"@) matches Some(found) && found.len() > 0
            && v == join_with(found[0].1, " "@))),
{
}

} // verus!
