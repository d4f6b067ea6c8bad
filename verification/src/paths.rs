//! Path helpers under their original top-level module name.
pub use crate::os::paths::{
    app_cache_dir, app_config_dir, app_data_dir, app_runtime_dir, app_state_dir,
    resolve_config_path, resolve_new_config_path, system_bin_path, system_cache_dir,
    system_config_dir, system_config_path, system_data_dir, system_desktop_entry_path,
    system_doc_dir, system_icon_dir, system_lib_dir, system_libexec_dir, system_local_bin_path,
    system_log_dir, system_man1_path, system_runtime_dir, system_state_dir, systemd_unit_name,
    systemd_unit_path, user_bin_dir, user_bin_path, user_cache_dir, user_config_dir,
    user_config_path, user_data_dir, user_desktop_entry_path, user_icon_dir, user_log_dir,
    user_runtime_dir, user_state_dir, user_systemd_unit_dir, user_systemd_unit_path, PathEnv,
};
pub use crate::os::paths::constants::{
    PATH_SYSTEMD_UNIT_DIR, PATH_SYSTEM_APPLICATIONS_DIR, PATH_SYSTEM_CACHE_DIR,
    PATH_SYSTEM_CONFIG_DIR, PATH_SYSTEM_DATA_DIR, PATH_SYSTEM_DOC_DIR, PATH_SYSTEM_ICONS_DIR,
    PATH_SYSTEM_LIBEXEC_DIR, PATH_SYSTEM_LIB_DIR, PATH_SYSTEM_LOG_DIR, PATH_SYSTEM_MAN1_DIR,
    PATH_SYSTEM_RUNTIME_DIR, PATH_SYSTEM_STATE_DIR, USER_HOME_ENV, XDG_CACHE_DIR_ENV,
    XDG_CONFIG_DIR_ENV, XDG_DATA_DIR_ENV, XDG_RUNTIME_DIR_ENV, XDG_STATE_DIR_ENV,
};
