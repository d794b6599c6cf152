use vstd::prelude::*;
use vstd::string::StringExecFns;

verus! {

/// The learning services the application can talk to.
#[derive(Clone, Copy, Debug, PartialEq, Eq, Structural)]
pub enum Service {
    Vitol,
    LMS,
}

/// The base address of a service, without a trailing slash.
pub open spec fn spec_base_url(service: Service) -> Seq<char> {
    match service {
        Service::Vitol => "https://vitolcc.vit.ac.in"@,
        Service::LMS => "https://lms.vit.ac.in"@,
    }
}

impl Service {
    /// The base address of the service.
    pub fn base_url(&self) -> (url: &'static str)
        ensures
            url@ == spec_base_url(*self),
    {
        match self {
            Service::Vitol => "https://vitolcc.vit.ac.in",
            Service::LMS => "https://lms.vit.ac.in",
        }
    }
}

/// Credentials of a user of a service.
pub struct LoginPayload {
    pub username: String,
    pub password: String,
}

/// The login form of a Moodle site, as (field name, value) pairs.
pub open spec fn spec_login_form(token: Seq<char>, username: Seq<char>, password: Seq<char>) -> Seq<
    (Seq<char>, Seq<char>),
> {
    seq![("logintoken"@, token), ("username"@, username), ("password"@, password)]
}

impl LoginPayload {
    pub fn new(username: String, password: String) -> (p: LoginPayload)
        ensures
            p.username@ == username@,
            p.password@ == password@,
    {
        LoginPayload { username, password }
    }

    /// The fields of the login form: the login token and the credentials.
    pub fn add_token(&self, logintoken: String) -> (form: Vec<(String, String)>)
        ensures
            form.deep_view() == spec_login_form(logintoken@, self.username@, self.password@),
    {
        let mut form: Vec<(String, String)> = Vec::new();
        form.push((String::from_str("logintoken"), logintoken));
        form.push((String::from_str("username"), self.username.clone()));
        form.push((String::from_str("password"), self.password.clone()));
        assert(form.deep_view() =~= spec_login_form(logintoken@, self.username@, self.password@));
        form
    }
}

/// The two services live at different addresses.
pub proof fn base_urls_differ()
    ensures
        spec_base_url(Service::Vitol) != spec_base_url(Service::LMS),
{
    reveal_strlit("https://vitolcc.vit.ac.in");
    reveal_strlit("https://lms.vit.ac.in");
    assert("https://vitolcc.vit.ac.in"@.len() != "https://lms.vit.ac.in"@.len());
}

/// The login form has three fields with different names, and the token, the user name and
/// the password each stand under their own name.
pub proof fn login_form_fields(token: Seq<char>, username: Seq<char>, password: Seq<char>)
    ensures
        spec_login_form(token, username, password).len() == 3,
        forall|i: int, j: int|
            0 <= i < 3 && 0 <= j < 3 && i != j ==> #[trigger] spec_login_form(token, username, password)[i].0
                != #[trigger] spec_login_form(token, username, password)[j].0,
        spec_login_form(token, username, password)[0] == ("logintoken"@, token),
        spec_login_form(token, username, password)[1] == ("username"@, username),
        spec_login_form(token, username, password)[2] == ("password"@, password),
{
    reveal_strlit("logintoken");
    reveal_strlit("username");
    reveal_strlit("password");
    let f = spec_login_form(token, username, password);
    assert("logintoken"@.len() != "username"@.len());
    assert("logintoken"@.len() != "password"@.len());
    assert("username"@[0] != "password"@[0]);
    assert(f[0].0 != f[1].0);
    assert(f[0].0 != f[2].0);
    assert(f[1].0 != f[2].0);
}

} // verus!
