//! Well-known system and user path names.
use vstd::prelude::*;

verus! {

/// Name used for application data directories (e.g. `~/.local/share/<app>`).
pub const APPLICATIONS_DIR_NAME: &'static str = "applications";
/// User systemd unit directory name (under config).
pub const SYSTEMD_DIR_NAME: &'static str = "systemd";
/// Icon directories name.
pub const ICONS_DIR_NAME: &'static str = "icons";
/// Default user-local binary directory name.
pub const BIN_DIR_NAME: &'static str = "bin";

// System-wide paths

// system directories
pub const PATH_SYSTEM_ROOT_DIR: &'static str = "/";
pub const PATH_SYSTEM_ROOT_HOME_DIR: &'static str = "/root";
pub const PATH_SYSTEM_HOME_DIR: &'static str = "/home";
pub const PATH_SYSTEM_BIN_DIR: &'static str = "/usr/bin";
pub const PATH_SYSTEM_LOCAL_BIN_DIR: &'static str = "/usr/local/bin";
pub const PATH_SYSTEM_LIB_DIR: &'static str = "/usr/lib";
pub const PATH_SYSTEM_LIBEXEC_DIR: &'static str = "/usr/libexec";
pub const PATH_SYSTEM_DATA_DIR: &'static str = "/usr/share";
pub const PATH_SYSTEM_CONFIG_DIR: &'static str = "/etc";
pub const PATH_SYSTEM_STATE_DIR: &'static str = "/var/lib";
pub const PATH_SYSTEM_CACHE_DIR: &'static str = "/var/cache";
pub const PATH_SYSTEM_LOG_DIR: &'static str = "/var/log";
pub const PATH_SYSTEM_RUNTIME_DIR: &'static str = "/run";
pub const PATH_SYSTEM_MAN1_DIR: &'static str = "/usr/share/man/man1";
pub const PATH_SYSTEM_DOC_DIR: &'static str = "/usr/share/doc";
pub const PATH_SYSTEM_APPLICATIONS_DIR: &'static str = "/usr/share/applications";
pub const PATH_SYSTEM_ICONS_DIR: &'static str = "/usr/share/icons";
pub const PATH_SYSTEM_FONTS_DIR: &'static str = "/usr/share/fonts";
pub const PATH_SYSTEM_SUDOERS_DIR: &'static str = "/etc/sudoers.d";

// System files
pub const PATH_SYSTEM_GROUPS_FILE: &'static str = "/etc/group";
pub const PATH_SYSTEM_PASSWD_FILE: &'static str = "/etc/passwd";
pub const PATH_SYSTEM_SUBUID_FILE: &'static str = "/etc/subuid";
pub const PATH_SYSTEM_SUBGID_FILE: &'static str = "/etc/subgid";
pub const PATH_SYSTEM_SUDOERS_FILE: &'static str = "/etc/sudoers";

pub const PATH_SYSTEMD_UNIT_DIR: &'static str = "/etc/systemd/system";

// User/XDG paths

pub const USER_HOME_ENV: &'static str = "HOME";
pub const XDG_CONFIG_DIR_ENV: &'static str = "XDG_CONFIG_HOME";
pub const XDG_STATE_DIR_ENV: &'static str = "XDG_STATE_HOME";
pub const XDG_CACHE_DIR_ENV: &'static str = "XDG_CACHE_HOME";
pub const XDG_DATA_DIR_ENV: &'static str = "XDG_DATA_HOME";
pub const XDG_RUNTIME_DIR_ENV: &'static str = "XDG_RUNTIME_DIR";

// User-level defaults
pub const USER_HOME_DIR: &'static str = "~";
pub const USER_CONFIG_DIR: &'static str = ".config";
pub const USER_STATE_DIR: &'static str = ".local/state";
pub const USER_CACHE_DIR: &'static str = ".cache";
pub const USER_DATA_DIR: &'static str = ".local/share";
pub const USER_BIN_DIR: &'static str = ".local/bin";
pub const USER_APPLICATIONS_DIR: &'static str = ".local/share/applications";
pub const USER_ICONS_DIR: &'static str = ".local/share/icons";
pub const USER_SYSTEMD_UNIT_DIR: &'static str = ".config/systemd/user";

// File extensions
pub const EXT_SEPERATOR: &'static str = ".";
pub const APPLICATION_DESKTOP_EXT: &'static str = "desktop";
pub const SYSTEMD_UNIT_EXT: &'static str = "service";
pub const MAN_PAGE_EXT: &'static str = "1.gz";

pub const SUBID_SEPARATOR: &'static str = ":";
pub const SUDO_UID_ENV: &'static str = "SUDO_UID";

} // verus!
