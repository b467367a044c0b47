use xunlei::gateway::CgiRequest;
use xunlei::launcher::{Config, XunleiLauncher};
use xunlei::panel::{LoginReply, Route, Session, XunleiPanelServer};
use xunlei::session::SessionStore;

const ADMIN_DIGEST: &str = "5a38afb1a18d408e6cd367f9db91e2ab9bce834cdad3da24183cc174956c20ce35dd39c2bd36aae907111ae3d6ada353f7697a5f1a8fc567aae9e4ca41a9d19d";

fn panel(user: Option<&str>, password: Option<&str>) -> XunleiPanelServer {
    XunleiPanelServer {
        auth_user: user.map(String::from),
        auth_password: password.map(String::from),
        host: String::from("0.0.0.0"),
        port: 5055,
        envs: vec![(String::from("HOME"), String::from("/cfg"))],
        debug: false,
        uid: 0,
        gid: 0,
        web_ui_home: b"/webman".to_vec(),
    }
}

fn config(user: Option<&str>, password: Option<&str>) -> Config {
    Config {
        auth_user: user.map(String::from),
        auth_password: password.map(String::from),
        host: String::from("0.0.0.0"),
        port: 5055,
        uid: Some(1000),
        gid: Some(100),
        config_path: String::from("/cfg"),
        download_path: String::from("/downloads"),
        mount_bind_download_path: String::from("/bind"),
    }
}

#[test]
fn decide_requires_both_digests_to_match() {
    let p = panel(Some("uh"), Some("ph"));
    assert!(p.authentication(String::from("uh"), String::from("ph")));
    assert!(!p.authentication(String::from("uh"), String::from("px")));
    assert!(!p.authentication(String::from("ux"), String::from("ph")));
    assert!(!p.authentication(String::new(), String::new()));
}

#[test]
fn decide_passes_every_pair_when_unset() {
    for p in [panel(None, None), panel(Some("uh"), None), panel(None, Some("ph"))] {
        assert!(p.authentication(String::from("x"), String::from("y")));
        assert!(p.authentication(String::new(), String::new()));
        let mut session = None;
        let reply = p.login(String::from("x"), String::from("y"), &mut session);
        assert_eq!(reply, LoginReply::Redirect { status: 303, location: String::from("/") });
        assert_eq!(session, Some(Session {}));
    }
}

#[test]
fn unset_credentials_authenticate_every_request() {
    for p in [panel(None, None), panel(Some("uh"), None), panel(None, Some("ph"))] {
        let mut session = None;
        let r = p.handle_route(b"GET", b"/webman/index.cgi", b"/webman/index.cgi", &mut session);
        assert_eq!(session, Some(Session {}));
        assert_eq!(r, Route::Proxy);
    }
}

#[test]
fn outside_root_redirects_to_root() {
    let p = panel(Some("uh"), Some("ph"));
    let mut session = Some(Session {});
    assert_eq!(p.handle_route(b"GET", b"/other", b"/other", &mut session), Route::RedirectToRoot);
    assert_eq!(p.handle_route(b"GET", b"/webman/index.cgi", b"/webman/index.cgi?a=1", &mut session), Route::Proxy);
    assert_eq!(p.handle_route(b"GET", b"/webman/login.cgi", b"/webman/login.cgi", &mut session), Route::CompatToken);
}

#[test]
fn routes_without_session() {
    let p = panel(Some("uh"), Some("ph"));
    let mut session = None;
    assert_eq!(p.handle_route(b"GET", b"/login", b"/login", &mut session), Route::LoginPage);
    assert_eq!(p.handle_route(b"GET", b"/js/sha3.min.js", b"/js/sha3.min.js", &mut session), Route::HashScript);
    assert_eq!(p.handle_route(b"GET", b"/webman/index.cgi", b"/webman/index.cgi", &mut session), Route::RedirectToLogin);
    assert_eq!(p.handle_route(b"POST", b"/login", b"/login", &mut session), Route::Login);
    assert_eq!(session, None);
}

#[test]
fn login_with_right_and_wrong_digests() {
    let p = panel(Some("uh"), Some("ph"));
    let mut session = None;
    let wrong = p.login(String::from("uh"), String::from("bad"), &mut session);
    assert_eq!(wrong, LoginReply::Page(String::from("Wrong login/password")));
    assert_eq!(session, None);
    let right = p.login(String::from("uh"), String::from("ph"), &mut session);
    assert_eq!(right, LoginReply::Redirect { status: 303, location: String::from("/") });
    assert_eq!(session, Some(Session {}));
}

#[test]
fn session_store_put_get_remove() {
    let mut store = SessionStore::new();
    let a = String::from("a");
    let b = String::from("b");
    assert_eq!(store.get(&a), None);
    store.put(a.clone(), Session {});
    assert_eq!(store.get(&a), Some(Session {}));
    assert_eq!(store.get(&b), None);
    store.put(b.clone(), Session {});
    store.put(a.clone(), Session {});
    store.remove(&a);
    assert_eq!(store.get(&a), None);
    assert_eq!(store.get(&b), Some(Session {}));
    store.remove(&a);
    assert_eq!(store.get(&b), Some(Session {}));
}

#[test]
fn session_settle_keeps_or_drops() {
    let mut store = SessionStore::new();
    let a = String::from("a");
    store.settle(a.clone(), false, Some(Session {}));
    assert_eq!(store.get(&a), Some(Session {}));
    store.settle(a.clone(), false, None);
    assert_eq!(store.get(&a), Some(Session {}));
    store.settle(a.clone(), true, None);
    assert_eq!(store.get(&a), None);
}

#[test]
fn launcher_hashes_configured_secrets() {
    let l = XunleiLauncher::from((true, config(Some("admin"), None)));
    assert_eq!(l.auth_user.as_deref(), Some(ADMIN_DIGEST));
    assert_eq!(ADMIN_DIGEST.len(), 128);
    assert_eq!(l.auth_password, None);
    assert!(l.debug);
    assert_eq!(l.uid, 1000);
    assert_eq!(l.gid, 100);
    assert_eq!(l.port, 5055);
}

#[test]
fn backend_environment_is_fixed() {
    let l = XunleiLauncher::from((false, config(None, None)));
    let envs = l.envs();
    assert_eq!(envs.len(), 18);
    assert_eq!(envs[1], (String::from("OS_VERSION"), String::from("dsm 7.2-64570")));
    assert_eq!(envs[2], (String::from("HOME"), String::from("/cfg")));
    assert_eq!(envs[4], (String::from("DownloadPATH"), String::from("/bind")));
    assert_eq!(envs[17], (String::from("GIN_MODE"), String::from("release")));
}

#[test]
fn cgi_environment_from_request() {
    let p = panel(None, None);
    let req = CgiRequest {
        method: String::from("POST"),
        raw_query_string: String::from("a=1"),
        raw_url: String::from("/webman/x?a=1"),
        url: String::from("/webman/x"),
        remote_addr: String::from("10.0.0.2:4000"),
        server_port: String::from("5055"),
        headers: vec![
            (String::from("Proxy"), String::from("evil")),
            (String::from("accept"), String::from("text/html")),
            (String::from("content-type"), String::from("a/b")),
            (String::from("Content-Length"), String::from("4")),
            (String::from("X-Empty"), String::new()),
        ],
    };
    let env = p.cgi_envs(&req);
    let has = |k: &str, v: &str| env.iter().any(|(a, b)| a == k && b == v);
    assert_eq!(env[0], (String::from("HOME"), String::from("/cfg")));
    assert!(has("GATEWAY_INTERFACE", "CGI/1.1"));
    assert!(has("REQUEST_METHOD", "POST"));
    assert!(has("PATH_INFO", "/webman/x"));
    assert!(has("SCRIPT_FILENAME", "/webman/x"));
    assert!(has("SERVER_PORT", "5055"));
    assert!(has("HTTP_ACCEPT", "text/html"));
    assert!(has("HTTP_CONTENT-TYPE", "a/b"));
    assert!(has("CONTENT_TYPE", "a/b"));
    assert!(has("CONTENT_LENGTH", "4"));
    assert!(!env.iter().any(|(a, _)| a == "HTTP_PROXY" || a == "HTTP_X-EMPTY"));
    assert_eq!(env.len(), 1 + 13 + 3 + 2);
}
