//! XDG Base Directory resolution.
//!
//! Pure functions from an environment snapshot to base directories, following
//! the XDG Base Directory rules: a variable is honoured when it is set,
//! non-empty and an absolute path; otherwise a fixed default under the home
//! directory applies.  List variables are colon-separated; relative entries
//! are dropped.
//!
//! The caller reads the process environment once and passes the observed
//! values in an [`Env`], so every function here is deterministic and fully
//! specified.

use vstd::prelude::*;

verus! {

/// A snapshot of the environment variables the library consults.
///
/// A field is `None` when the variable is unset (or not valid Unicode), and
/// `Some` of its value otherwise.
pub struct Env {
    pub home: Option<String>,
    pub xdg_cache_home: Option<String>,
    pub xdg_config_home: Option<String>,
    pub xdg_config_dirs: Option<String>,
    pub xdg_data_home: Option<String>,
    pub xdg_data_dirs: Option<String>,
    pub xdg_state_home: Option<String>,
    pub xdg_runtime_dir: Option<String>,
    pub ovos_distribution_config: Option<String>,
    pub mycroft_system_config: Option<String>,
    pub mycroft_web_cache: Option<String>,
}

impl Env {
    /// An environment with every variable unset.
    pub fn unset() -> (r: Env)
        ensures
            r.home is None,
            r.xdg_cache_home is None,
            r.xdg_config_home is None,
            r.xdg_config_dirs is None,
            r.xdg_data_home is None,
            r.xdg_data_dirs is None,
            r.xdg_state_home is None,
            r.xdg_runtime_dir is None,
            r.ovos_distribution_config is None,
            r.mycroft_system_config is None,
            r.mycroft_web_cache is None,
    {
        Env {
            home: None,
            xdg_cache_home: None,
            xdg_config_home: None,
            xdg_config_dirs: None,
            xdg_data_home: None,
            xdg_data_dirs: None,
            xdg_state_home: None,
            xdg_runtime_dir: None,
            ovos_distribution_config: None,
            mycroft_system_config: None,
            mycroft_web_cache: None,
        }
    }
}

/// A path is absolute when it has a root, which on Unix means it starts
/// with a separator.
pub open spec fn is_abs_path(p: Seq<char>) -> bool {
    p.len() > 0 && p[0] == '/'
}

/// Whether `path` is a non-empty absolute path.
pub fn is_absolute(path: &str) -> (r: bool)
    ensures
        r == is_abs_path(path@),
{
    let n = path.unicode_len();
    if n == 0 {
        false
    } else {
        path.get_char(0) == '/'
    }
}

/// Path join, mirroring `PathBuf::join` for the shapes the library builds:
/// an absolute child replaces the base, otherwise the child is appended
/// behind a single separator.
pub open spec fn spec_join(base: Seq<char>, child: Seq<char>) -> Seq<char> {
    if is_abs_path(child) {
        child
    } else if base.len() == 0 {
        child
    } else if base[base.len() - 1] == '/' {
        base + child
    } else {
        base + seq!['/'] + child
    }
}

/// Joins `child` onto `base` as `PathBuf::join` would.
pub fn path_join(base: &str, child: &str) -> (r: String)
    ensures
        r@ == spec_join(base@, child@),
{
    if is_absolute(child) {
        return String::from_str(child);
    }
    let n = base.unicode_len();
    if n == 0 {
        return String::from_str(child);
    }
    let mut out = String::from_str(base);
    if base.get_char(n - 1) != '/' {
        out.append("/");
        proof {
            reveal_strlit("/");
            assert(out@ =~= base@ + seq!['/']);
        }
    }
    out.append(child);
    proof {
        if base@[base@.len() - 1] != '/' {
            assert(out@ =~= base@ + seq!['/'] + child@);
        }
    }
    out
}

/// The home directory: `HOME` when set and non-empty, the root path
/// otherwise.
pub open spec fn spec_home_dir(env: Env) -> Seq<char> {
    match env.home {
        Some(h) => if h@.len() > 0 {
            h@
        } else {
            "/"@
        },
        None => "/"@,
    }
}

/// Resolves the home directory from the snapshot: the `HOME` value when set
/// and non-empty, `/` as the degenerate fallback.
pub fn home_dir(env: &Env) -> (r: String)
    ensures
        r@ == spec_home_dir(*env),
{
    match &env.home {
        Some(h) => {
            if h.as_str().unicode_len() > 0 {
                h.clone()
            } else {
                String::from_str("/")
            }
        },
        None => String::from_str("/"),
    }
}

/// Splitting a colon-separated list, written with an accumulator for the
/// piece under construction so that it mirrors a single left-to-right scan.
pub open spec fn split_acc(s: Seq<char>, cur: Seq<char>) -> Seq<Seq<char>>
    decreases s.len(),
{
    if s.len() == 0 {
        seq![cur]
    } else if s[0] == ':' {
        seq![cur] + split_acc(s.skip(1), Seq::empty())
    } else {
        split_acc(s.skip(1), cur.push(s[0]))
    }
}

/// The pieces of `s` between colons, in order; `n` colons give `n + 1`
/// pieces, and empty pieces are kept.
pub open spec fn spec_split_colon(s: Seq<char>) -> Seq<Seq<char>> {
    split_acc(s, Seq::empty())
}

/// Splits `s` on `:` into its pieces, in order.
pub fn split_colon(s: &str) -> (r: Vec<String>)
    ensures
        r.deep_view() == spec_split_colon(s@),
{
    let n = s.unicode_len();
    let mut out: Vec<String> = Vec::new();
    let mut start: usize = 0;
    let mut i: usize = 0;
    proof {
        assert(s@.skip(0) =~= s@);
        assert(s@.subrange(0, 0) =~= Seq::<char>::empty());
    }
    while i < n
        invariant
            n == s@.len(),
            start <= i <= n,
            spec_split_colon(s@) == out.deep_view() + split_acc(
                s@.skip(i as int),
                s@.subrange(start as int, i as int),
            ),
        decreases n - i,
    {
        let ghost cur = s@.subrange(start as int, i as int);
        proof {
            assert(s@.skip(i as int)[0] == s@[i as int]);
            assert(s@.skip(i as int).skip(1) =~= s@.skip(i as int + 1));
        }
        if s.get_char(i) == ':' {
            let piece = String::from_str(s.substring_char(start, i));
            let ghost prev = out.deep_view();
            out.push(piece);
            proof {
                assert(out.deep_view() =~~= prev.push(cur));
                assert(split_acc(s@.skip(i as int), cur) == seq![cur] + split_acc(
                    s@.skip(i as int + 1),
                    Seq::empty(),
                ));
                assert(prev + (seq![cur] + split_acc(s@.skip(i as int + 1), Seq::empty()))
                    =~~= prev.push(cur) + split_acc(s@.skip(i as int + 1), Seq::empty()));
                assert(s@.subrange(i as int + 1, i as int + 1) =~= Seq::<char>::empty());
            }
            start = i + 1;
        } else {
            proof {
                assert(split_acc(s@.skip(i as int), cur) == split_acc(
                    s@.skip(i as int + 1),
                    cur.push(s@[i as int]),
                ));
                assert(cur.push(s@[i as int]) =~= s@.subrange(start as int, i as int + 1));
            }
        }
        i += 1;
    }
    proof {
        assert(s@.skip(n as int) =~= Seq::<char>::empty());
        assert(split_acc(s@.skip(n as int), s@.subrange(start as int, n as int)) == seq![
            s@.subrange(start as int, n as int),
        ]);
    }
    let last = String::from_str(s.substring_char(start, n));
    let ghost prev = out.deep_view();
    out.push(last);
    proof {
        assert(out.deep_view() =~~= prev.push(s@.subrange(start as int, n as int)));
        assert(prev + seq![s@.subrange(start as int, n as int)] =~~= prev.push(
            s@.subrange(start as int, n as int),
        ));
    }
    out
}

/// The subsequence of `parts` made of its absolute entries, in order.
pub open spec fn keep_absolute(parts: Seq<Seq<char>>) -> Seq<Seq<char>> {
    parts.filter(|p: Seq<char>| is_abs_path(p))
}

/// Appending one entry extends the kept subsequence exactly when the entry
/// is absolute.
pub proof fn lemma_keep_absolute_push(parts: Seq<Seq<char>>, x: Seq<char>)
    ensures
        keep_absolute(parts.push(x)) == if is_abs_path(x) {
            keep_absolute(parts).push(x)
        } else {
            keep_absolute(parts)
        },
{
    reveal(Seq::filter);
    assert(parts.push(x).drop_last() =~= parts);
    assert(parts.push(x).last() == x);
}

/// A list variable: the absolute entries of its colon-split value when any
/// remain, the given default otherwise.
pub open spec fn spec_paths_from_env(value: Option<String>, default: Seq<Seq<char>>) -> Seq<
    Seq<char>,
> {
    match value {
        Some(s) => {
            let kept = keep_absolute(spec_split_colon(s@));
            if kept.len() > 0 {
                kept
            } else {
                default
            }
        },
        None => default,
    }
}

/// Resolves one list-valued variable: splits on colons, drops empty and
/// relative entries, and falls back to `default` when nothing remains.
pub fn paths_from_env(value: &Option<String>, default: Vec<String>) -> (r: Vec<String>)
    ensures
        r.deep_view() == spec_paths_from_env(*value, default.deep_view()),
{
    match value {
        Some(s) => {
            let parts = split_colon(s.as_str());
            let mut kept: Vec<String> = Vec::new();
            proof {
                assert(parts.deep_view().take(0) =~= Seq::<Seq<char>>::empty());
                assert(keep_absolute(Seq::<Seq<char>>::empty()) == Seq::<Seq<char>>::empty())
                    by {
                    reveal(Seq::filter);
                }
            }
            let mut i: usize = 0;
            while i < parts.len()
                invariant
                    i <= parts.len(),
                    parts.deep_view() == spec_split_colon(s@),
                    kept.deep_view() == keep_absolute(parts.deep_view().take(i as int)),
                decreases parts.len() - i,
            {
                let ghost taken = parts.deep_view().take(i as int);
                proof {
                    lemma_keep_absolute_push(taken, parts.deep_view()[i as int]);
                    assert(taken.push(parts.deep_view()[i as int]) =~= parts.deep_view().take(
                        i as int + 1,
                    ));
                }
                if is_absolute(parts[i].as_str()) {
                    let ghost prev = kept.deep_view();
                    kept.push(parts[i].clone());
                    proof {
                        assert(kept.deep_view() =~~= prev.push(parts.deep_view()[i as int]));
                    }
                }
                i += 1;
            }
            proof {
                assert(parts.deep_view().take(parts.len() as int) =~= parts.deep_view());
            }
            if kept.len() > 0 {
                kept
            } else {
                default
            }
        },
        None => default,
    }
}

/// A single-path variable: its value when set, non-empty and absolute, the
/// given default otherwise.
pub open spec fn spec_path_from_env(value: Option<String>, default: Seq<char>) -> Seq<char> {
    match value {
        Some(s) => if is_abs_path(s@) {
            s@
        } else {
            default
        },
        None => default,
    }
}

/// Resolves one path-valued variable, falling back to `default` when the
/// value is unset, empty or relative.
pub fn path_from_env(value: &Option<String>, default: String) -> (r: String)
    ensures
        r@ == spec_path_from_env(*value, default@),
{
    match value {
        Some(s) => {
            if is_absolute(s.as_str()) {
                s.clone()
            } else {
                default
            }
        },
        None => default,
    }
}

/// The cache home: `XDG_CACHE_HOME` when absolute, else `home/.cache`.
pub open spec fn spec_xdg_cache_home(env: Env) -> Seq<char> {
    spec_path_from_env(env.xdg_cache_home, spec_join(spec_home_dir(env), ".cache"@))
}

/// Returns the XDG cache home directory.
pub fn xdg_cache_home(env: &Env) -> (r: String)
    ensures
        r@ == spec_xdg_cache_home(*env),
{
    let home = home_dir(env);
    path_from_env(&env.xdg_cache_home, path_join(home.as_str(), ".cache"))
}

/// The config home: `XDG_CONFIG_HOME` when absolute, else `home/.config`.
pub open spec fn spec_xdg_config_home(env: Env) -> Seq<char> {
    spec_path_from_env(env.xdg_config_home, spec_join(spec_home_dir(env), ".config"@))
}

/// Returns the XDG config home directory.
pub fn xdg_config_home(env: &Env) -> (r: String)
    ensures
        r@ == spec_xdg_config_home(*env),
{
    let home = home_dir(env);
    path_from_env(&env.xdg_config_home, path_join(home.as_str(), ".config"))
}

/// The data home: `XDG_DATA_HOME` when absolute, else `home/.local/share`.
pub open spec fn spec_xdg_data_home(env: Env) -> Seq<char> {
    spec_path_from_env(
        env.xdg_data_home,
        spec_join(spec_join(spec_home_dir(env), ".local"@), "share"@),
    )
}

/// Returns the XDG data home directory.
pub fn xdg_data_home(env: &Env) -> (r: String)
    ensures
        r@ == spec_xdg_data_home(*env),
{
    let home = home_dir(env);
    let local = path_join(home.as_str(), ".local");
    path_from_env(&env.xdg_data_home, path_join(local.as_str(), "share"))
}

/// The state home: `XDG_STATE_HOME` when absolute, else `home/.local/state`.
pub open spec fn spec_xdg_state_home(env: Env) -> Seq<char> {
    spec_path_from_env(
        env.xdg_state_home,
        spec_join(spec_join(spec_home_dir(env), ".local"@), "state"@),
    )
}

/// Returns the XDG state home directory.
pub fn xdg_state_home(env: &Env) -> (r: String)
    ensures
        r@ == spec_xdg_state_home(*env),
{
    let home = home_dir(env);
    let local = path_join(home.as_str(), ".local");
    path_from_env(&env.xdg_state_home, path_join(local.as_str(), "state"))
}

/// The config directory list: the absolute entries of `XDG_CONFIG_DIRS`,
/// else `/etc/xdg`.
pub open spec fn spec_xdg_config_dirs(env: Env) -> Seq<Seq<char>> {
    spec_paths_from_env(env.xdg_config_dirs, seq!["/etc/xdg"@])
}

/// Returns the list of XDG config directories.
pub fn xdg_config_dirs(env: &Env) -> (r: Vec<String>)
    ensures
        r.deep_view() == spec_xdg_config_dirs(*env),
{
    let mut default: Vec<String> = Vec::new();
    default.push(String::from_str("/etc/xdg"));
    proof {
        assert(default.deep_view() =~~= seq!["/etc/xdg"@]);
    }
    paths_from_env(&env.xdg_config_dirs, default)
}

/// The data directory list: the absolute entries of `XDG_DATA_DIRS`, else
/// `/usr/local/share` and `/usr/share`.
pub open spec fn spec_xdg_data_dirs(env: Env) -> Seq<Seq<char>> {
    spec_paths_from_env(env.xdg_data_dirs, seq!["/usr/local/share"@, "/usr/share"@])
}

/// Returns the list of XDG data directories.
pub fn xdg_data_dirs(env: &Env) -> (r: Vec<String>)
    ensures
        r.deep_view() == spec_xdg_data_dirs(*env),
{
    let mut default: Vec<String> = Vec::new();
    default.push(String::from_str("/usr/local/share"));
    default.push(String::from_str("/usr/share"));
    proof {
        assert(default.deep_view() =~~= seq!["/usr/local/share"@, "/usr/share"@]);
    }
    paths_from_env(&env.xdg_data_dirs, default)
}

/// The runtime directory: `XDG_RUNTIME_DIR` when absolute, and nothing
/// otherwise — absence is meaningful and no default applies.
pub open spec fn spec_xdg_runtime_dir(env: Env) -> Option<Seq<char>> {
    match env.xdg_runtime_dir {
        Some(s) => if is_abs_path(s@) {
            Some(s@)
        } else {
            None
        },
        None => None,
    }
}

/// Returns the XDG runtime directory, or nothing when the variable is
/// unset, empty or relative.
pub fn xdg_runtime_dir(env: &Env) -> (r: Option<String>)
    ensures
        r.deep_view() == spec_xdg_runtime_dir(*env),
{
    match &env.xdg_runtime_dir {
        Some(s) => {
            if is_absolute(s.as_str()) {
                Some(s.clone())
            } else {
                None
            }
        },
        None => None,
    }
}

/// Joining a relative or empty child onto an absolute base stays absolute,
/// and an absolute child is returned as it is.
pub proof fn lemma_join_absolute(base: Seq<char>, child: Seq<char>)
    requires
        is_abs_path(base) || is_abs_path(child),
    ensures
        is_abs_path(spec_join(base, child)),
{
}

/// For every environment, the config home falls back to `home/.config`
/// exactly when `XDG_CONFIG_HOME` is unset, empty or relative; and it is an
/// absolute path whenever the home directory is absolute.  (`HOME` set to a
/// relative path is the one degenerate case in which the fallback is
/// relative.)
pub proof fn lemma_xdg_config_home_law(env: Env)
    ensures
        (match env.xdg_config_home {
            Some(s) => !is_abs_path(s@),
            None => true,
        }) ==> spec_xdg_config_home(env) == spec_join(spec_home_dir(env), ".config"@),
        is_abs_path(spec_home_dir(env)) ==> is_abs_path(spec_xdg_config_home(env)),
{
    if is_abs_path(spec_home_dir(env)) {
        lemma_join_absolute(spec_home_dir(env), ".config"@);
    }
}

/// The home-derived defaults of the four single-path resolvers are absolute
/// whenever the home directory is absolute, which holds in particular when
/// `HOME` is unset or empty.
pub proof fn lemma_xdg_home_paths_absolute(env: Env)
    requires
        is_abs_path(spec_home_dir(env)) || env.home is None || spec_home_dir(env) == "/"@,
    ensures
        is_abs_path(spec_xdg_cache_home(env)),
        is_abs_path(spec_xdg_config_home(env)),
        is_abs_path(spec_xdg_data_home(env)),
        is_abs_path(spec_xdg_state_home(env)),
{
    reveal_strlit("/");
    assert(is_abs_path(spec_home_dir(env)));
    lemma_join_absolute(spec_home_dir(env), ".cache"@);
    lemma_join_absolute(spec_home_dir(env), ".config"@);
    lemma_join_absolute(spec_home_dir(env), ".local"@);
    lemma_join_absolute(spec_join(spec_home_dir(env), ".local"@), "share"@);
    lemma_join_absolute(spec_join(spec_home_dir(env), ".local"@), "state"@);
}

/// Only absolute entries of `XDG_CONFIG_DIRS` appear in the resolved list,
/// in their original relative order; when no absolute entry remains (or the
/// variable is unset) the fixed default `/etc/xdg` is returned.
pub proof fn lemma_xdg_config_dirs_law(env: Env)
    ensures
        forall|i: int|
            0 <= i < spec_xdg_config_dirs(env).len() ==> is_abs_path(
                #[trigger] spec_xdg_config_dirs(env)[i],
            ),
        (match env.xdg_config_dirs {
            Some(s) => keep_absolute(spec_split_colon(s@)).len() == 0,
            None => true,
        }) ==> spec_xdg_config_dirs(env) == seq!["/etc/xdg"@],
        (match env.xdg_config_dirs {
            Some(s) => keep_absolute(spec_split_colon(s@)).len() > 0 ==> spec_xdg_config_dirs(env)
                == keep_absolute(spec_split_colon(s@)),
            None => true,
        }),
{
    broadcast use vstd::seq_lib::group_filter_ensures;

    reveal_strlit("/etc/xdg");
    assert(is_abs_path("/etc/xdg"@));
}

} // verus!
