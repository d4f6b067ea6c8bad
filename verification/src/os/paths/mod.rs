//! Path helpers: well-known system paths, and per-user paths resolved from
//! the XDG environment variables and `$HOME`.
//!
//! Paths are handled as Unix path text (`String`), joined the way
//! `PathBuf::join` joins them. The environment is passed in as a
//! [`PathEnv`] snapshot, so that every resolution is a function of its inputs.
pub mod constants;

use vstd::prelude::*;

use crate::error::{Result, VeltrixError};
use crate::text::{
    chars_of, extend_str, has_prefix, is_absolute, join_chars, join_path, path_join, slice_chars,
    string_of,
};

use self::constants::{
    APPLICATION_DESKTOP_EXT, EXT_SEPERATOR, MAN_PAGE_EXT, PATH_SYSTEMD_UNIT_DIR,
    PATH_SYSTEM_APPLICATIONS_DIR, PATH_SYSTEM_BIN_DIR, PATH_SYSTEM_CACHE_DIR, PATH_SYSTEM_CONFIG_DIR,
    PATH_SYSTEM_DATA_DIR, PATH_SYSTEM_DOC_DIR, PATH_SYSTEM_ICONS_DIR, PATH_SYSTEM_LIBEXEC_DIR,
    PATH_SYSTEM_LIB_DIR, PATH_SYSTEM_LOCAL_BIN_DIR, PATH_SYSTEM_LOG_DIR, PATH_SYSTEM_MAN1_DIR,
    PATH_SYSTEM_RUNTIME_DIR, PATH_SYSTEM_STATE_DIR, SYSTEMD_UNIT_EXT, USER_HOME_ENV, USER_CONFIG_DIR,
    USER_STATE_DIR, USER_CACHE_DIR, USER_DATA_DIR, XDG_RUNTIME_DIR_ENV, BIN_DIR_NAME, SYSTEMD_DIR_NAME,
    APPLICATIONS_DIR_NAME, ICONS_DIR_NAME,
};

verus! {

/// The environment variables that per-user path resolution reads.
/// `None` means the variable is not set.
#[derive(Debug, Clone)]
pub struct PathEnv {
    /// `$HOME`
    pub home: Option<String>,
    /// `$XDG_CONFIG_HOME`
    pub xdg_config_home: Option<String>,
    /// `$XDG_STATE_HOME`
    pub xdg_state_home: Option<String>,
    /// `$XDG_CACHE_HOME`
    pub xdg_cache_home: Option<String>,
    /// `$XDG_DATA_HOME`
    pub xdg_data_home: Option<String>,
    /// `$XDG_RUNTIME_DIR`
    pub xdg_runtime_dir: Option<String>,
}

/// The text of an optional string.
pub open spec fn opt_view(o: Option<String>) -> Option<Seq<char>> {
    match o {
        Some(s) => Some(s@),
        None => None,
    }
}

/// Why a per-user path could not be resolved.
pub enum PathFailure {
    /// The named variable is not set.
    Missing(Seq<char>),
    /// The named variable is set to an unusable value, for the given reason.
    Invalid(Seq<char>, Seq<char>),
}

/// The executable result `r` is the specified path result `s`.
pub open spec fn path_result(r: Result<String>, s: std::result::Result<Seq<char>, PathFailure>) -> bool {
    match s {
        Ok(p) => r matches Ok(x) && x@ == p,
        Err(PathFailure::Missing(n)) => r matches Err(VeltrixError::EnvMissing { name }) && name@ == n,
        Err(PathFailure::Invalid(n, why)) => r matches Err(VeltrixError::EnvInvalid { name, reason })
            && name@ == n && reason@ == why,
    }
}

/// A successful resolution joined with one more component.
pub open spec fn then_join(
    s: std::result::Result<Seq<char>, PathFailure>,
    part: Seq<char>,
) -> std::result::Result<Seq<char>, PathFailure> {
    match s {
        Ok(p) => Ok(path_join(p, part)),
        Err(e) => Err(e),
    }
}

/// `$HOME`, which must be set and absolute.
pub open spec fn home_spec(env: PathEnv) -> std::result::Result<Seq<char>, PathFailure> {
    match opt_view(env.home) {
        None => Err(PathFailure::Missing("HOME"@)),
        Some(h) => if is_absolute(h) {
            Ok(h)
        } else {
            Err(PathFailure::Invalid("HOME"@, "must be absolute"@))
        },
    }
}

/// Components joined left to right onto `base`.
pub open spec fn join_all(base: Seq<char>, parts: Seq<Seq<char>>) -> Seq<char>
    decreases parts.len(),
{
    if parts.len() == 0 {
        base
    } else {
        path_join(join_all(base, parts.drop_last()), parts.last())
    }
}

/// The XDG rule: the variable's value joined with `app_dir` when it is set
/// and absolute, otherwise `$HOME` joined with the fallback components and
/// then `app_dir`.
pub open spec fn xdg_spec(
    var: Option<Seq<char>>,
    env: PathEnv,
    fallback: Seq<Seq<char>>,
    app_dir: Seq<char>,
) -> std::result::Result<Seq<char>, PathFailure> {
    if var is Some && is_absolute(var->0) {
        Ok(path_join(var->0, app_dir))
    } else {
        match home_spec(env) {
            Ok(h) => Ok(path_join(join_all(h, fallback), app_dir)),
            Err(e) => Err(e),
        }
    }
}

/// The texts of a slice of string slices.
pub open spec fn strs_view(v: Seq<&str>) -> Seq<Seq<char>> {
    Seq::new(v.len(), |i: int| v[i]@)
}

fn home_failure(env: &PathEnv) -> (r: Result<String>)
    ensures
        path_result(r, home_spec(*env)),
{
    match &env.home {
        None => Err(VeltrixError::env_missing(USER_HOME_ENV)),
        Some(h) => {
            let hs = chars_of(h.as_str());
            if hs.len() > 0 && hs[0] == '/' {
                Ok(h.clone())
            } else {
                Err(VeltrixError::env_invalid(USER_HOME_ENV, "must be absolute"))
            }
        },
    }
}

/// `$HOME`, which must be set and absolute.
pub fn home_dir(env: &PathEnv) -> (r: Result<String>)
    ensures
        path_result(r, home_spec(*env)),
{
    home_failure(env)
}

/// Resolve an XDG base directory: the variable's value (when set and
/// absolute) joined with `app_dir`, otherwise `$HOME`, the `fallback`
/// components, then `app_dir`.
pub fn xdg_dir(env_value: &Option<String>, env: &PathEnv, fallback: &[&str], app_dir: &str) -> (r:
    Result<String>)
    ensures
        path_result(r, xdg_spec(opt_view(*env_value), *env, strs_view(fallback@), app_dir@)),
{
    if let Some(value) = env_value {
        let vs = chars_of(value.as_str());
        if vs.len() > 0 && vs[0] == '/' {
            return Ok(join_path(value.as_str(), app_dir));
        }
    }
    let home = home_dir(env)?;
    let mut acc = chars_of(home.as_str());
    let mut i: usize = 0;
    assert(strs_view(fallback@).take(0) =~= Seq::<Seq<char>>::empty());
    while i < fallback.len()
        invariant
            i <= fallback.len(),
            home_spec(*env) == Ok::<Seq<char>, PathFailure>(home@),
            acc@ == join_all(home@, strs_view(fallback@).take(i as int)),
        decreases fallback.len() - i,
    {
        let part = chars_of(fallback[i]);
        assert(strs_view(fallback@).take(i + 1).drop_last() =~= strs_view(fallback@).take(i as int));
        acc = join_chars(acc.as_slice(), part.as_slice());
        i = i + 1;
    }
    assert(strs_view(fallback@).take(fallback@.len() as int) =~= strs_view(fallback@));
    let app = chars_of(app_dir);
    let r = join_chars(acc.as_slice(), app.as_slice());
    Ok(string_of(r.as_slice()))
}

fn join_result(r: Result<String>, part: &str) -> (out: Result<String>)
    ensures
        forall|s: std::result::Result<Seq<char>, PathFailure>| path_result(r, s) ==> path_result(out, then_join(s, part@)),
{
    match r {
        Ok(p) => Ok(join_path(p.as_str(), part)),
        Err(e) => Err(e),
    }
}

/// `/usr/bin` joined with `bin_name`.
pub fn system_bin_path(bin_name: &str) -> (p: String)
    ensures
        p@ == path_join("/usr/bin"@, bin_name@),
{
    join_path(PATH_SYSTEM_BIN_DIR, bin_name)
}

/// `/usr/local/bin` joined with `bin_name`.
pub fn system_local_bin_path(bin_name: &str) -> (p: String)
    ensures
        p@ == path_join("/usr/local/bin"@, bin_name@),
{
    join_path(PATH_SYSTEM_LOCAL_BIN_DIR, bin_name)
}

/// `/etc` joined with `app_name`.
pub fn system_config_dir(app_name: &str) -> (p: String)
    ensures
        p@ == path_join("/etc"@, app_name@),
{
    join_path(PATH_SYSTEM_CONFIG_DIR, app_name)
}

/// `/var/lib` joined with `app_name`.
pub fn system_state_dir(app_name: &str) -> (p: String)
    ensures
        p@ == path_join("/var/lib"@, app_name@),
{
    join_path(PATH_SYSTEM_STATE_DIR, app_name)
}

/// `/var/cache` joined with `app_name`.
pub fn system_cache_dir(app_name: &str) -> (p: String)
    ensures
        p@ == path_join("/var/cache"@, app_name@),
{
    join_path(PATH_SYSTEM_CACHE_DIR, app_name)
}

/// `/var/log` joined with `app_name`.
pub fn system_log_dir(app_name: &str) -> (p: String)
    ensures
        p@ == path_join("/var/log"@, app_name@),
{
    join_path(PATH_SYSTEM_LOG_DIR, app_name)
}

/// `/run` joined with `app_name`.
pub fn system_runtime_dir(app_name: &str) -> (p: String)
    ensures
        p@ == path_join("/run"@, app_name@),
{
    join_path(PATH_SYSTEM_RUNTIME_DIR, app_name)
}

/// `/usr/share` joined with `app_name`.
pub fn system_data_dir(app_name: &str) -> (p: String)
    ensures
        p@ == path_join("/usr/share"@, app_name@),
{
    join_path(PATH_SYSTEM_DATA_DIR, app_name)
}

/// `/usr/lib` joined with `app_name`.
pub fn system_lib_dir(app_name: &str) -> (p: String)
    ensures
        p@ == path_join("/usr/lib"@, app_name@),
{
    join_path(PATH_SYSTEM_LIB_DIR, app_name)
}

/// `/usr/libexec` joined with `app_name`.
pub fn system_libexec_dir(app_name: &str) -> (p: String)
    ensures
        p@ == path_join("/usr/libexec"@, app_name@),
{
    join_path(PATH_SYSTEM_LIBEXEC_DIR, app_name)
}

/// `/usr/share/doc` joined with `app_name`.
pub fn system_doc_dir(app_name: &str) -> (p: String)
    ensures
        p@ == path_join("/usr/share/doc"@, app_name@),
{
    join_path(PATH_SYSTEM_DOC_DIR, app_name)
}

/// `/usr/share/icons` joined with `app_name`.
pub fn system_icon_dir(app_name: &str) -> (p: String)
    ensures
        p@ == path_join("/usr/share/icons"@, app_name@),
{
    join_path(PATH_SYSTEM_ICONS_DIR, app_name)
}



/// Per-user config directory: `$XDG_CONFIG_HOME/{app}` or `~/.config/{app}`.
pub open spec fn user_config_dir_spec(app: Seq<char>, env: PathEnv) -> std::result::Result<Seq<char>, PathFailure> {
    xdg_spec(opt_view(env.xdg_config_home), env, seq![".config"@], app)
}

/// Per-user state directory: `$XDG_STATE_HOME/{app}` or `~/.local/state/{app}`.
pub open spec fn user_state_dir_spec(app: Seq<char>, env: PathEnv) -> std::result::Result<Seq<char>, PathFailure> {
    xdg_spec(opt_view(env.xdg_state_home), env, seq![".local/state"@], app)
}

/// Per-user cache directory: `$XDG_CACHE_HOME/{app}` or `~/.cache/{app}`.
pub open spec fn user_cache_dir_spec(app: Seq<char>, env: PathEnv) -> std::result::Result<Seq<char>, PathFailure> {
    xdg_spec(opt_view(env.xdg_cache_home), env, seq![".cache"@], app)
}

/// Per-user data directory: `$XDG_DATA_HOME/{app}` or `~/.local/share/{app}`.
pub open spec fn user_data_dir_spec(app: Seq<char>, env: PathEnv) -> std::result::Result<Seq<char>, PathFailure> {
    xdg_spec(opt_view(env.xdg_data_home), env, seq![".local/share"@], app)
}

/// Per-user runtime directory: `$XDG_RUNTIME_DIR/{app}`; the variable must be
/// set and absolute.
pub open spec fn user_runtime_dir_spec(app: Seq<char>, env: PathEnv) -> std::result::Result<Seq<char>, PathFailure> {
    match opt_view(env.xdg_runtime_dir) {
        None => Err(PathFailure::Missing("XDG_RUNTIME_DIR"@)),
        Some(d) => if is_absolute(d) {
            Ok(path_join(d, app))
        } else {
            Err(PathFailure::Invalid("XDG_RUNTIME_DIR"@, "must be absolute"@))
        },
    }
}

proof fn lemma_one_fallback(f: Seq<&str>, lit: &str)
    requires
        f.len() == 1,
        f[0]@ == lit@,
    ensures
        strs_view(f) == seq![lit@],
{
    assert(strs_view(f) =~= seq![lit@]);
}

/// Resolve the user's configuration directory for `app_name`.
///
/// This consults `$XDG_CONFIG_HOME` and falls back to `~/.config`.
pub fn user_config_dir(app_name: &str, env: &PathEnv) -> (r: Result<String>)
    ensures
        path_result(r, user_config_dir_spec(app_name@, *env)),
{
    let fallback: [&str; 1] = [USER_CONFIG_DIR];
    let fb = fallback.as_slice();
    proof {
        lemma_one_fallback(fb@, ".config");
    }
    xdg_dir(&env.xdg_config_home, env, fb, app_name)
}

/// `config_file_name` inside [`user_config_dir`].
pub fn user_config_path(app_name: &str, config_file_name: &str, env: &PathEnv) -> (r: Result<String>)
    ensures
        path_result(r, then_join(user_config_dir_spec(app_name@, *env), config_file_name@)),
{
    join_result(user_config_dir(app_name, env), config_file_name)
}

/// Resolve the user's state directory (`$XDG_STATE_HOME` or `~/.local/state`).
pub fn user_state_dir(app_name: &str, env: &PathEnv) -> (r: Result<String>)
    ensures
        path_result(r, user_state_dir_spec(app_name@, *env)),
{
    let fallback: [&str; 1] = [USER_STATE_DIR];
    let fb = fallback.as_slice();
    proof {
        lemma_one_fallback(fb@, ".local/state");
    }
    xdg_dir(&env.xdg_state_home, env, fb, app_name)
}

/// Resolve the user's cache directory (`$XDG_CACHE_HOME` or `~/.cache`).
pub fn user_cache_dir(app_name: &str, env: &PathEnv) -> (r: Result<String>)
    ensures
        path_result(r, user_cache_dir_spec(app_name@, *env)),
{
    let fallback: [&str; 1] = [USER_CACHE_DIR];
    let fb = fallback.as_slice();
    proof {
        lemma_one_fallback(fb@, ".cache");
    }
    xdg_dir(&env.xdg_cache_home, env, fb, app_name)
}

/// Resolve the user's data directory (`$XDG_DATA_HOME` or `~/.local/share`).
pub fn user_data_dir(app_name: &str, env: &PathEnv) -> (r: Result<String>)
    ensures
        path_result(r, user_data_dir_spec(app_name@, *env)),
{
    let fallback: [&str; 1] = [USER_DATA_DIR];
    let fb = fallback.as_slice();
    proof {
        lemma_one_fallback(fb@, ".local/share");
    }
    xdg_dir(&env.xdg_data_home, env, fb, app_name)
}

/// Resolve the user's runtime directory (`$XDG_RUNTIME_DIR`, which must be
/// set and absolute).
pub fn user_runtime_dir(app_name: &str, env: &PathEnv) -> (r: Result<String>)
    ensures
        path_result(r, user_runtime_dir_spec(app_name@, *env)),
{
    match &env.xdg_runtime_dir {
        None => Err(VeltrixError::env_missing(XDG_RUNTIME_DIR_ENV)),
        Some(d) => {
            let ds = chars_of(d.as_str());
            if ds.len() > 0 && ds[0] == '/' {
                Ok(join_path(d.as_str(), app_name))
            } else {
                Err(VeltrixError::env_invalid(XDG_RUNTIME_DIR_ENV, "must be absolute"))
            }
        },
    }
}

/// `logs` inside [`user_state_dir`].
pub fn user_log_dir(app_name: &str, env: &PathEnv) -> (r: Result<String>)
    ensures
        path_result(r, then_join(user_state_dir_spec(app_name@, *env), "logs"@)),
{
    join_result(user_state_dir(app_name, env), "logs")
}

/// Resolve the user's local `bin` directory, `~/.local/bin`.
pub fn user_bin_dir(env: &PathEnv) -> (r: Result<String>)
    ensures
        path_result(r, then_join(then_join(home_spec(*env), ".local"@), "bin"@)),
{
    join_result(join_result(home_dir(env), ".local"), BIN_DIR_NAME)
}

/// `bin_name` inside [`user_bin_dir`].
pub fn user_bin_path(bin_name: &str, env: &PathEnv) -> (r: Result<String>)
    ensures
        path_result(
            r,
            then_join(then_join(then_join(home_spec(*env), ".local"@), "bin"@), bin_name@),
        ),
{
    join_result(user_bin_dir(env), bin_name)
}

/// Resolve the user's systemd unit directory (e.g. `~/.config/systemd/user`).
pub fn user_systemd_unit_dir(env: &PathEnv) -> (r: Result<String>)
    ensures
        path_result(r, then_join(user_config_dir_spec("systemd"@, *env), "user"@)),
{
    join_result(user_config_dir(SYSTEMD_DIR_NAME, env), "user")
}

/// The unit file `{app_name}.service` inside [`user_systemd_unit_dir`].
pub fn user_systemd_unit_path(app_name: &str, env: &PathEnv) -> (r: Result<String>)
    ensures
        path_result(
            r,
            then_join(
                then_join(user_config_dir_spec("systemd"@, *env), "user"@),
                app_name@ + ".service"@,
            ),
        ),
{
    let n = systemd_unit_name(app_name);
    join_result(user_systemd_unit_dir(env), n.as_str())
}

/// The desktop entry `{app_name}.desktop` in the user's `applications` data directory.
pub fn user_desktop_entry_path(app_name: &str, env: &PathEnv) -> (r: Result<String>)
    ensures
        path_result(
            r,
            then_join(user_data_dir_spec("applications"@, *env), app_name@ + ".desktop"@),
        ),
{
    let f = with_suffix(app_name, APPLICATION_DESKTOP_EXT);
    proof {
        reveal_strlit(".");
        reveal_strlit("desktop");
        reveal_strlit(".desktop");
        assert(f@ =~= app_name@ + ".desktop"@);
    }
    join_result(user_data_dir(APPLICATIONS_DIR_NAME, env), f.as_str())
}

/// `app_name` in the user's `icons` data directory.
pub fn user_icon_dir(app_name: &str, env: &PathEnv) -> (r: Result<String>)
    ensures
        path_result(r, then_join(user_data_dir_spec("icons"@, *env), app_name@)),
{
    join_result(user_data_dir(ICONS_DIR_NAME, env), app_name)
}

/// Pick the config file to read: the explicit path when one is given;
/// otherwise the per-user config path if it exists, else the system config
/// path if it exists, else the per-user config path.
///
/// `user_path_exists` and `system_path_exists` report whether
/// [`user_config_path`] and [`system_config_path`] name existing files.
pub fn resolve_config_path(
    app_name: &str,
    config_file_name: &str,
    explicit_config_path: Option<&str>,
    env: &PathEnv,
    user_path_exists: bool,
    system_path_exists: bool,
) -> (r: Result<String>)
    ensures
        match explicit_config_path {
            Some(p) => r matches Ok(x) && x@ == p@,
            None => {
                let user = then_join(user_config_dir_spec(app_name@, *env), config_file_name@);
                match user {
                    Ok(u) => if !user_path_exists && system_path_exists {
                        r matches Ok(x) && x@ == path_join(
                            path_join("/etc"@, app_name@),
                            config_file_name@,
                        )
                    } else {
                        r matches Ok(x) && x@ == u
                    },
                    Err(_) => path_result(r, user),
                }
            },
        },
{
    if let Some(path) = explicit_config_path {
        return Ok(path.to_owned());
    }
    let user_path = user_config_path(app_name, config_file_name, env)?;
    if user_path_exists {
        return Ok(user_path);
    }
    let system_path = system_config_path(app_name, config_file_name);
    if system_path_exists {
        return Ok(system_path);
    }
    Ok(user_path)
}

/// Resolve the canonical new config path: the system config path when
/// `system` is true, otherwise the per-user config path.
pub fn resolve_new_config_path(
    app_name: &str,
    config_file_name: &str,
    system: bool,
    env: &PathEnv,
) -> (r: Result<String>)
    ensures
        system ==> (r matches Ok(x) && x@ == path_join(
            path_join("/etc"@, app_name@),
            config_file_name@,
        )),
        !system ==> path_result(
            r,
            then_join(user_config_dir_spec(app_name@, *env), config_file_name@),
        ),
{
    if system {
        Ok(system_config_path(app_name, config_file_name))
    } else {
        user_config_path(app_name, config_file_name, env)
    }
}

/// The application's config directory ([`user_config_dir`]).
pub fn app_config_dir(app_name: &str, env: &PathEnv) -> (r: Result<String>)
    ensures
        path_result(r, user_config_dir_spec(app_name@, *env)),
{
    user_config_dir(app_name, env)
}

/// The application's state directory ([`user_state_dir`]).
pub fn app_state_dir(app_name: &str, env: &PathEnv) -> (r: Result<String>)
    ensures
        path_result(r, user_state_dir_spec(app_name@, *env)),
{
    user_state_dir(app_name, env)
}

/// The application's cache directory ([`user_cache_dir`]).
pub fn app_cache_dir(app_name: &str, env: &PathEnv) -> (r: Result<String>)
    ensures
        path_result(r, user_cache_dir_spec(app_name@, *env)),
{
    user_cache_dir(app_name, env)
}

/// The application's data directory ([`user_data_dir`]).
pub fn app_data_dir(app_name: &str, env: &PathEnv) -> (r: Result<String>)
    ensures
        path_result(r, user_data_dir_spec(app_name@, *env)),
{
    user_data_dir(app_name, env)
}

/// The application's runtime directory ([`user_runtime_dir`]).
pub fn app_runtime_dir(app_name: &str, env: &PathEnv) -> (r: Result<String>)
    ensures
        path_result(r, user_runtime_dir_spec(app_name@, *env)),
{
    user_runtime_dir(app_name, env)
}

/// `s` without all of its leading `'~'` characters (`trim_start_matches('~')`).
pub open spec fn strip_tildes(s: Seq<char>) -> Seq<char>
    decreases s.len(),
{
    if s.len() > 0 && s[0] == '~' {
        strip_tildes(s.drop_first())
    } else {
        s
    }
}

/// Expand a leading `~`: when `path` starts with `~`, `$HOME` joined with
/// `path` stripped of all its leading `~` characters; otherwise `path`.
pub fn expand_user_path(path: &str, env: &PathEnv) -> (r: Result<String>)
    ensures
        path@.len() > 0 && path@[0] == '~' ==> path_result(
            r,
            then_join(home_spec(*env), strip_tildes(path@)),
        ),
        !(path@.len() > 0 && path@[0] == '~') ==> (r matches Ok(x) && x@ == path@),
{
    let cs = chars_of(path);
    if cs.len() > 0 && cs[0] == '~' {
        let home = home_dir(env)?;
        let mut i: usize = 0;
        assert(cs@.subrange(0, cs@.len() as int) =~= cs@);
        while i < cs.len() && cs[i] == '~'
            invariant
                i <= cs.len(),
                cs@ == path@,
                forall|j: int| 0 <= j < i ==> cs@[j] == '~',
                strip_tildes(path@) == strip_tildes(cs@.subrange(i as int, cs@.len() as int)),
            decreases cs.len() - i,
        {
            assert(cs@.subrange(i as int, cs@.len() as int).drop_first() =~= cs@.subrange(
                i + 1,
                cs@.len() as int,
            ));
            i = i + 1;
        }
        let rest = slice_chars(cs.as_slice(), i, cs.len());
        let h = chars_of(home.as_str());
        let r = join_chars(h.as_slice(), rest.as_slice());
        Ok(string_of(r.as_slice()))
    } else {
        Ok(path.to_owned())
    }
}

/// `{app_name}/{config_file_name}` under `/etc`.
pub fn system_config_path(app_name: &str, config_file_name: &str) -> (p: String)
    ensures
        p@ == path_join(path_join("/etc"@, app_name@), config_file_name@),
{
    let d = system_config_dir(app_name);
    join_path(d.as_str(), config_file_name)
}

fn with_suffix(name: &str, ext: &str) -> (s: String)
    ensures
        s@ == name@ + "."@ + ext@,
{
    let mut v: Vec<char> = Vec::new();
    extend_str(&mut v, name);
    extend_str(&mut v, EXT_SEPERATOR);
    extend_str(&mut v, ext);
    string_of(v.as_slice())
}

/// The manual page `{bin_name}.1.gz` under `/usr/share/man/man1`.
pub fn system_man1_path(bin_name: &str) -> (p: String)
    ensures
        p@ == path_join("/usr/share/man/man1"@, bin_name@ + ".1.gz"@),
{
    let f = with_suffix(bin_name, MAN_PAGE_EXT);
    proof {
        reveal_strlit(".");
        reveal_strlit("1.gz");
        reveal_strlit(".1.gz");
        assert(f@ =~= bin_name@ + ".1.gz"@);
    }
    join_path(PATH_SYSTEM_MAN1_DIR, f.as_str())
}

/// The desktop entry `{app_name}.desktop` under `/usr/share/applications`.
pub fn system_desktop_entry_path(app_name: &str) -> (p: String)
    ensures
        p@ == path_join("/usr/share/applications"@, app_name@ + ".desktop"@),
{
    let f = with_suffix(app_name, APPLICATION_DESKTOP_EXT);
    proof {
        reveal_strlit(".");
        reveal_strlit("desktop");
        reveal_strlit(".desktop");
        assert(f@ =~= app_name@ + ".desktop"@);
    }
    join_path(PATH_SYSTEM_APPLICATIONS_DIR, f.as_str())
}

/// The unit file name `{app_name}.service`.
pub fn systemd_unit_name(app_name: &str) -> (s: String)
    ensures
        s@ == app_name@ + ".service"@,
{
    let f = with_suffix(app_name, SYSTEMD_UNIT_EXT);
    proof {
        reveal_strlit(".");
        reveal_strlit("service");
        reveal_strlit(".service");
        assert(f@ =~= app_name@ + ".service"@);
    }
    f
}

/// The system unit path `{app_name}.service` under `/etc/systemd/system`.
pub fn systemd_unit_path(app_name: &str) -> (p: String)
    ensures
        p@ == path_join("/etc/systemd/system"@, app_name@ + ".service"@),
{
    let n = systemd_unit_name(app_name);
    join_path(PATH_SYSTEMD_UNIT_DIR, n.as_str())
}


/// When the XDG variable is set to an absolute path `p`, the directory is
/// `p` joined with `app_dir`, whatever `$HOME` and the fallback components
/// are: two environments that differ in everything else resolve the same.
pub proof fn absolute_xdg_variable_wins(
    p: Seq<char>,
    env: PathEnv,
    other_env: PathEnv,
    fallback: Seq<Seq<char>>,
    other_fallback: Seq<Seq<char>>,
    app_dir: Seq<char>,
)
    requires
        is_absolute(p),
    ensures
        xdg_spec(Some(p), env, fallback, app_dir) == Ok::<Seq<char>, PathFailure>(path_join(p, app_dir)),
        xdg_spec(Some(p), env, fallback, app_dir) == xdg_spec(Some(p), other_env, other_fallback, app_dir),
        opt_view(env.xdg_config_home) == Some(p) ==> user_config_dir_spec(app_dir, env) == Ok::<Seq<char>, PathFailure>(path_join(p, app_dir)),
{
}

} // verus!
