use vstd::prelude::*;
use vstd::string::{StrSliceExecFns, StringExecFns};
use sha3::Digest;

use crate::env;

verus! {

/// The lower-case hexadecimal text of the SHA3-512 digest of `s`'s UTF-8 bytes.
pub uninterp spec fn sha3_512_hex(s: Seq<char>) -> Seq<char>;

/// A lower-case hexadecimal digit.
pub open spec fn is_lower_hex(c: char) -> bool {
    ('0' <= c <= '9') || ('a' <= c <= 'f')
}

/// Relies on sha3::Sha3_512 and the `{:x}` formatting of its 64-byte digest:
/// the text depends on the input alone, and is 128 lower-case hex digits.
#[verifier::external_body]
fn hasher_auth_message(s: &str) -> (r: String)
    ensures
        r@ == sha3_512_hex(s@),
        r@.len() == 128,
        forall|i: int| 0 <= i < r@.len() ==> is_lower_hex(#[trigger] r@[i]),
{
    let mut hasher = sha3::Sha3_512::new();
    hasher.update(s);
    format!("{:x}", hasher.finalize())
}

/// Relies on nix::unistd::getuid: the real user id of this process.
#[verifier::external_body]
fn current_uid() -> (r: u32) {
    nix::unistd::getuid().as_raw()
}

/// Relies on nix::unistd::getgid: the real group id of this process.
#[verifier::external_body]
fn current_gid() -> (r: u32) {
    nix::unistd::getgid().as_raw()
}

/// The settings the launcher is started with, as plain values.
pub struct Config {
    pub auth_user: Option<String>,
    pub auth_password: Option<String>,
    pub host: String,
    pub port: u16,
    pub uid: Option<u32>,
    pub gid: Option<u32>,
    pub config_path: String,
    pub download_path: String,
    pub mount_bind_download_path: String,
}

/// The launcher's resolved settings: secrets replaced by their digests and
/// the service identity filled in.
pub struct XunleiLauncher {
    pub auth_user: Option<String>,
    pub auth_password: Option<String>,
    pub host: String,
    pub port: u16,
    pub debug: bool,
    pub download_path: String,
    pub config_path: String,
    pub mount_bind_download_path: String,
    pub uid: u32,
    pub gid: u32,
}

/// `hashed` is the digest of `raw` where `raw` is set, and unset where it is not.
pub open spec fn digest_of(raw: Option<String>, hashed: Option<String>) -> bool {
    match raw {
        Some(s) => hashed is Some && hashed->0@ == sha3_512_hex(s@),
        None => hashed is None,
    }
}

/// One environment entry, as text.
pub open spec fn entry_view(p: (String, String)) -> (Seq<char>, Seq<char>) {
    (p.0@, p.1@)
}

pub open spec fn entries_view(v: Seq<(String, String)>) -> Seq<(Seq<char>, Seq<char>)> {
    v.map_values(|p: (String, String)| entry_view(p))
}

/// The platform version the daemon is told it runs on.
pub open spec fn os_version() -> Seq<char> {
    "dsm "@ + env::SYNOPKG_DSM_VERSION_MAJOR@ + "."@ + env::SYNOPKG_DSM_VERSION_MINOR@ + "-"@
        + env::SYNOPKG_DSM_VERSION_BUILD@
}

/// The environment the backend daemon and the CGI program receive, for the
/// given configuration directory and bind target.
pub open spec fn backend_env(config_path: Seq<char>, bind_path: Seq<char>) -> Seq<(Seq<char>, Seq<char>)> {
    seq![
        ("DriveListen"@, env::SOCK_FILE@),
        ("OS_VERSION"@, os_version()),
        ("HOME"@, config_path),
        ("ConfigPath"@, config_path),
        ("DownloadPATH"@, bind_path),
        ("SYNOPKG_DSM_VERSION_MAJOR"@, env::SYNOPKG_DSM_VERSION_MAJOR@),
        ("SYNOPKG_DSM_VERSION_MINOR"@, env::SYNOPKG_DSM_VERSION_MINOR@),
        ("SYNOPKG_DSM_VERSION_BUILD"@, env::SYNOPKG_DSM_VERSION_BUILD@),
        ("SYNOPKG_PKGDEST"@, env::SYNOPKG_PKGDEST@),
        ("SYNOPKG_PKGNAME"@, env::SYNOPKG_PKGNAME@),
        ("SVC_CWD"@, env::SYNOPKG_PKGDEST@),
        ("PID_FILE"@, env::PID_FILE@),
        ("ENV_FILE"@, env::ENV_FILE@),
        ("LOG_FILE"@, env::LOG_FILE@),
        ("LAUNCH_LOG_FILE"@, env::LAUNCH_LOG_FILE@),
        ("LAUNCH_PID_FILE"@, env::LAUNCH_PID_FILE@),
        ("INST_LOG"@, env::INST_LOG@),
        ("GIN_MODE"@, "release"@),
    ]
}

fn push_entry(out: &mut Vec<(String, String)>, k: &str, v: &str)
    ensures
        entries_view(final(out)@) == entries_view(old(out)@).push((k@, v@)),
{
    push_owned(out, k, String::from_str(v));
}

fn push_owned(out: &mut Vec<(String, String)>, k: &str, v: String)
    ensures
        entries_view(final(out)@) == entries_view(old(out)@).push((k@, v@)),
{
    let e = (String::from_str(k), v);
    out.push(e);
    proof {
        assert(entries_view(final(out)@) =~= entries_view(old(out)@).push((k@, v@)));
    }
}

impl XunleiLauncher {
    /// Resolves a configuration: each configured secret becomes its digest,
    /// and an unset user or group id becomes this process's own.
    pub fn from(value: (bool, Config)) -> (r: Self)
        ensures
            digest_of(value.1.auth_user, r.auth_user),
            digest_of(value.1.auth_password, r.auth_password),
            r.host == value.1.host,
            r.port == value.1.port,
            r.debug == value.0,
            r.download_path == value.1.download_path,
            r.config_path == value.1.config_path,
            r.mount_bind_download_path == value.1.mount_bind_download_path,
            value.1.uid is Some ==> r.uid == value.1.uid->0,
            value.1.gid is Some ==> r.gid == value.1.gid->0,
    {
        let (debug, config) = value;
        let auth_user = match &config.auth_user {
            Some(u) => Some(hasher_auth_message(u.as_str())),
            None => None,
        };
        let auth_password = match &config.auth_password {
            Some(p) => Some(hasher_auth_message(p.as_str())),
            None => None,
        };
        let uid = match config.uid {
            Some(u) => u,
            None => current_uid(),
        };
        let gid = match config.gid {
            Some(g) => g,
            None => current_gid(),
        };
        XunleiLauncher {
            auth_user,
            auth_password,
            host: config.host,
            port: config.port,
            debug,
            download_path: config.download_path,
            config_path: config.config_path,
            mount_bind_download_path: config.mount_bind_download_path,
            uid,
            gid,
        }
    }

    /// The environment handed to the backend daemon and to the CGI program,
    /// one entry per variable, in a fixed order.
    pub fn envs(&self) -> (r: Vec<(String, String)>)
        ensures
            entries_view(r@) == backend_env(self.config_path@, self.mount_bind_download_path@),
    {
        let mut out: Vec<(String, String)> = Vec::new();
        push_entry(&mut out, "DriveListen", env::SOCK_FILE);
        let mut os = String::from_str("dsm ");
        os.append(env::SYNOPKG_DSM_VERSION_MAJOR);
        os.append(".");
        os.append(env::SYNOPKG_DSM_VERSION_MINOR);
        os.append("-");
        os.append(env::SYNOPKG_DSM_VERSION_BUILD);
        push_owned(&mut out, "OS_VERSION", os);
        push_entry(&mut out, "HOME", self.config_path.as_str());
        push_entry(&mut out, "ConfigPath", self.config_path.as_str());
        push_entry(&mut out, "DownloadPATH", self.mount_bind_download_path.as_str());
        push_entry(&mut out, "SYNOPKG_DSM_VERSION_MAJOR", env::SYNOPKG_DSM_VERSION_MAJOR);
        push_entry(&mut out, "SYNOPKG_DSM_VERSION_MINOR", env::SYNOPKG_DSM_VERSION_MINOR);
        push_entry(&mut out, "SYNOPKG_DSM_VERSION_BUILD", env::SYNOPKG_DSM_VERSION_BUILD);
        push_entry(&mut out, "SYNOPKG_PKGDEST", env::SYNOPKG_PKGDEST);
        push_entry(&mut out, "SYNOPKG_PKGNAME", env::SYNOPKG_PKGNAME);
        push_entry(&mut out, "SVC_CWD", env::SYNOPKG_PKGDEST);
        push_entry(&mut out, "PID_FILE", env::PID_FILE);
        push_entry(&mut out, "ENV_FILE", env::ENV_FILE);
        push_entry(&mut out, "LOG_FILE", env::LOG_FILE);
        push_entry(&mut out, "LAUNCH_LOG_FILE", env::LAUNCH_LOG_FILE);
        push_entry(&mut out, "LAUNCH_PID_FILE", env::LAUNCH_PID_FILE);
        push_entry(&mut out, "INST_LOG", env::INST_LOG);
        push_entry(&mut out, "GIN_MODE", "release");
        assert(entries_view(out@) =~= backend_env(self.config_path@, self.mount_bind_download_path@));
        out
    }
}

} // verus!
