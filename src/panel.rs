use vstd::prelude::*;
use vstd::string::{StrSliceExecFns, StringExecFns, StringSliceAdditionalSpecFns};

use crate::env;
use crate::launcher::{XunleiLauncher, entries_view, backend_env};

verus! {

/// What the server keeps about a signed-in browser.
#[derive(PartialEq, Eq, Structural, Debug, Clone, Copy)]
pub struct Session {}

/// What a request is answered with, before any outside program runs.
#[derive(PartialEq, Eq, Structural, Debug, Clone, Copy)]
pub enum Route {
    /// `POST /login`: the submitted form decides.
    Login,
    /// The static sign-in page.
    LoginPage,
    /// The client-side hashing script.
    HashScript,
    /// 303 to `/login`.
    RedirectToLogin,
    /// The fixed token payload of `GET /webman/login.cgi`.
    CompatToken,
    /// 307 to the web UI root.
    RedirectToRoot,
    /// Handed to the CGI program.
    Proxy,
}

/// The answer to a submitted sign-in form.
#[derive(PartialEq, Eq, Debug)]
pub enum LoginReply {
    /// A redirect with this status code to this location.
    Redirect { status: u16, location: String },
    /// A page with status 200 and this HTML body.
    Page(String),
}

/// The panel's settings.
pub struct XunleiPanelServer {
    pub auth_user: Option<String>,
    pub auth_password: Option<String>,
    pub host: String,
    pub port: u16,
    pub envs: Vec<(String, String)>,
    pub debug: bool,
    pub uid: u32,
    pub gid: u32,
    /// The path under which requests go to the CGI program.
    pub web_ui_home: Vec<u8>,
}

pub open spec fn bytes_of(s: Seq<char>) -> Seq<u8> {
    s.map_values(|c: char| c as u8)
}

/// `needle` occurs in `hay`.
pub open spec fn occurs_in(hay: Seq<u8>, needle: Seq<u8>) -> bool {
    exists|i: int| 0 <= i <= hay.len() - needle.len() && #[trigger] hay.subrange(i, i + needle.len()) == needle
}

/// Sign-in is required only where both halves of the account are set.
pub open spec fn auth_enabled(user: Option<String>, password: Option<String>) -> bool {
    user is Some && password is Some
}

/// A submitted pair passes: sign-in is disabled, or both digests equal the
/// configured ones.
pub open spec fn credentials_match(
    user: Option<String>,
    password: Option<String>,
    sub_user: Seq<char>,
    sub_password: Seq<char>,
) -> bool {
    !auth_enabled(user, password) || (sub_user == user->0@ && sub_password == password->0@)
}

/// How a request is routed, once it is known whether it has a session.
pub open spec fn route_of(has_session: bool, method: Seq<u8>, url: Seq<u8>, raw_url: Seq<u8>, home: Seq<u8>) -> Route {
    if method == bytes_of("POST"@) && url == bytes_of("/login"@) {
        Route::Login
    } else if has_session {
        if method == bytes_of("GET"@) && url == bytes_of("/webman/login.cgi"@) {
            Route::CompatToken
        } else if !occurs_in(raw_url, home) {
            Route::RedirectToRoot
        } else {
            Route::Proxy
        }
    } else if method == bytes_of("GET"@) && url == bytes_of("/login"@) {
        Route::LoginPage
    } else if method == bytes_of("GET"@) && url == bytes_of("/js/sha3.min.js"@) {
        Route::HashScript
    } else {
        Route::RedirectToLogin
    }
}

fn bytes_eq(a: &[u8], b: &str) -> (r: bool)
    ensures
        r == (a@ == bytes_of(b@)),
{
    let n = b.unicode_len();
    if a.len() != n {
        return false;
    }
    let mut i: usize = 0;
    while i < n
        invariant
            n == b@.len() == a@.len(),
            i <= n,
            forall|k: int| 0 <= k < i ==> a@[k] == b@[k] as u8,
        decreases n - i,
    {
        if a[i] != b.get_char(i) as u8 {
            return false;
        }
        i = i + 1;
    }
    assert(a@ =~= bytes_of(b@));
    true
}

fn occurs(hay: &[u8], needle: &[u8]) -> (r: bool)
    ensures
        r == occurs_in(hay@, needle@),
{
    if needle.len() > hay.len() {
        return false;
    }
    let mut i: usize = 0;
    while i <= hay.len() - needle.len()
        invariant
            needle@.len() <= hay@.len(),
            i <= hay@.len() - needle@.len() + 1,
            forall|k: int| 0 <= k < i ==> #[trigger] hay@.subrange(k, k + needle@.len()) != needle@,
        decreases hay.len() - needle.len() + 1 - i,
    {
        let mut j: usize = 0;
        while j < needle.len()
            invariant
                i + needle.len() <= hay.len(),
                j <= needle.len(),
                forall|k: int| 0 <= k < j ==> hay@[i + k] == needle@[k],
            ensures
                j <= needle.len(),
                forall|k: int| 0 <= k < j ==> hay@[i + k] == needle@[k],
                j < needle.len() ==> hay@[i + j] != needle@[j as int],
            decreases needle.len() - j,
        {
            if hay[i + j] != needle[j] {
                break;
            }
            j = j + 1;
        }
        if j == needle.len() {
            assert(hay@.subrange(i as int, i + needle@.len()) =~= needle@);
            return true;
        }
        assert(hay@.subrange(i as int, i + needle@.len())[j as int] != needle@[j as int]);
        i = i + 1;
    }
    false
}

impl XunleiPanelServer {
    pub fn from(launcher: XunleiLauncher) -> (r: Self)
        ensures
            r.auth_user == launcher.auth_user,
            r.auth_password == launcher.auth_password,
            r.host == launcher.host,
            r.port == launcher.port,
            entries_view(r.envs@) == backend_env(launcher.config_path@, launcher.mount_bind_download_path@),
            r.debug == launcher.debug,
            r.uid == launcher.uid,
            r.gid == launcher.gid,
            r.web_ui_home@ == env::SYNOPKG_WEB_UI_HOME.spec_bytes(),
    {
        let envs = launcher.envs();
        let home = vstd::slice::slice_to_vec(env::SYNOPKG_WEB_UI_HOME.as_bytes());
        XunleiPanelServer {
            auth_user: launcher.auth_user,
            auth_password: launcher.auth_password,
            host: launcher.host,
            port: launcher.port,
            envs,
            debug: launcher.debug,
            uid: launcher.uid,
            gid: launcher.gid,
            web_ui_home: home,
        }
    }

    /// Whether the submitted digests pass: every pair passes where no
    /// account is configured; otherwise both must equal the configured ones.
    pub fn authentication(&self, auth_user: String, auth_password: String) -> (r: bool)
        ensures
            r == credentials_match(self.auth_user, self.auth_password, auth_user@, auth_password@),
            !auth_enabled(self.auth_user, self.auth_password) ==> r,
    {
        match (&self.auth_user, &self.auth_password) {
            (Some(u), Some(p)) => auth_user == *u && auth_password == *p,
            _ => true,
        }
    }

    /// Routes a request. Where sign-in is not required a session is made
    /// first; otherwise the session is left as it is.
    pub fn handle_route(&self, method: &[u8], url: &[u8], raw_url: &[u8], session_data: &mut Option<Session>) -> (r: Route)
        ensures
            !auth_enabled(self.auth_user, self.auth_password) ==> *final(session_data) == Some(Session {}),
            auth_enabled(self.auth_user, self.auth_password) ==> *final(session_data) == *old(session_data),
            r == route_of(*final(session_data) is Some, method@, url@, raw_url@, self.web_ui_home@),
    {
        if self.auth_user.is_none() || self.auth_password.is_none() {
            *session_data = Some(Session {});
        }
        if bytes_eq(method, "POST") && bytes_eq(url, "/login") {
            return Route::Login;
        }
        if session_data.is_some() {
            if bytes_eq(method, "GET") && bytes_eq(url, "/webman/login.cgi") {
                Route::CompatToken
            } else if !occurs(raw_url, self.web_ui_home.as_slice()) {
                Route::RedirectToRoot
            } else {
                Route::Proxy
            }
        } else if bytes_eq(method, "GET") && bytes_eq(url, "/login") {
            Route::LoginPage
        } else if bytes_eq(method, "GET") && bytes_eq(url, "/js/sha3.min.js") {
            Route::HashScript
        } else {
            Route::RedirectToLogin
        }
    }

    /// Checks a submitted sign-in form: on a match the session is set and
    /// the browser is sent to `/` with a 303; otherwise the session is left
    /// as it is and a page says the pair was wrong.
    pub fn login(&self, auth_user: String, auth_password: String, session_data: &mut Option<Session>) -> (r: LoginReply)
        ensures
            credentials_match(self.auth_user, self.auth_password, auth_user@, auth_password@) ==> (
                *final(session_data) == Some(Session {})
                && (r matches LoginReply::Redirect { status, location } && status == 303 && location@ == "/"@)),
            !credentials_match(self.auth_user, self.auth_password, auth_user@, auth_password@) ==> (
                *final(session_data) == *old(session_data)
                && (r matches LoginReply::Page(body) && body@ == "Wrong login/password"@)),
    {
        if self.authentication(auth_user, auth_password) {
            *session_data = Some(Session {});
            LoginReply::Redirect { status: 303, location: String::from_str("/") }
        } else {
            LoginReply::Page(String::from_str("Wrong login/password"))
        }
    }
}

/// Where an account is configured, a submitted pair passes exactly when both
/// digests equal the configured ones; where it is not, every pair passes.
pub proof fn lemma_decide_exact(user: Option<String>, password: Option<String>, sub_user: Seq<char>, sub_password: Seq<char>)
    ensures
        auth_enabled(user, password) ==> (credentials_match(user, password, sub_user, sub_password) <==> (
        sub_user == user->0@ && sub_password == password->0@)),
        !auth_enabled(user, password) ==> credentials_match(user, password, sub_user, sub_password),
{
}

/// With a session, a request other than sign-in and the token probe goes to
/// the CGI program exactly when its raw URL holds the web UI root, and is
/// redirected to that root otherwise.
pub proof fn lemma_root_gate(method: Seq<u8>, url: Seq<u8>, raw_url: Seq<u8>, home: Seq<u8>)
    requires
        !(method == bytes_of("POST"@) && url == bytes_of("/login"@)),
        !(method == bytes_of("GET"@) && url == bytes_of("/webman/login.cgi"@)),
    ensures
        occurs_in(raw_url, home) ==> route_of(true, method, url, raw_url, home) == Route::Proxy,
        !occurs_in(raw_url, home) ==> route_of(true, method, url, raw_url, home) == Route::RedirectToRoot,
{
}

} // verus!
