use vstd::prelude::*;

verus! {

pub const SYNOPKG_DSM_VERSION_MAJOR: &'static str = "7";
pub const SYNOPKG_DSM_VERSION_MINOR: &'static str = "2";
pub const SYNOPKG_DSM_VERSION_BUILD: &'static str = "64570";
pub const SYNOPKG_PKGNAME: &'static str = "pan-xunlei-com";
pub const SYNOPKG_PKGBASE: &'static str = "/var/packages/pan-xunlei-com";
pub const SYNOPKG_PKGDEST: &'static str = "/var/packages/pan-xunlei-com/target";
pub const SYNOPKG_VAR: &'static str = "/var/packages/pan-xunlei-com/target/var";
pub const SYNOPKG_WEB_UI_HOME: &'static str = "/webman/3rdparty/pan-xunlei-com/index.cgi";
pub const SYNOPKG_CLI_WEB: &'static str = "/var/packages/pan-xunlei-com/target/xunlei-pan-cli-web";
pub const LAUNCHER_EXE: &'static str = "/var/packages/pan-xunlei-com/target/xunlei-pan-cli-launcher";
pub const SOCK_FILE: &'static str = "unix:///var/packages/pan-xunlei-com/target/var/pan-xunlei-com.sock";
pub const LAUNCHER_SOCK: &'static str = "unix:///var/packages/pan-xunlei-com/target/var/pan-xunlei-com-launcher.sock";
pub const PID_FILE: &'static str = "/var/packages/pan-xunlei-com/target/var/pan-xunlei-com.pid";
pub const ENV_FILE: &'static str = "/var/packages/pan-xunlei-com/target/var/pan-xunlei-com.env";
pub const LOG_FILE: &'static str = "/var/packages/pan-xunlei-com/target/var/pan-xunlei-com.log";
pub const LAUNCH_LOG_FILE: &'static str = "/var/packages/pan-xunlei-com/target/var/pan-xunlei-com-launcher.log";
pub const LAUNCH_PID_FILE: &'static str = "/var/packages/pan-xunlei-com/target/var/pan-xunlei-com-launcher.pid";
pub const INST_LOG: &'static str = "/var/packages/pan-xunlei-com/target/var/pan-xunlei-com-install.log";
pub const DEFAULT_CONFIG_PATH: &'static str = "/var/packages/pan-xunlei-com/config";
pub const DEFAULT_DOWNLOAD_PATH: &'static str = "/xunlei/downloads";
pub const DEFAULT_BIND_DOWNLOAD_PATH: &'static str = "/xunlei";

} // verus!
