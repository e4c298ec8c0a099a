//! The layered configuration store.
//!
//! A [`LocalConf`] owns an optional backing path, an in-memory
//! [`ConfigDict`] and a staleness marker (the file modification time
//! captured at the last successful load of the bound path).  Loading merges
//! freshly parsed file contents over the dictionary, key by key; storing
//! serializes the whole dictionary; the format follows the path's extension
//! (`.yml`/`.yaml` is YAML, everything else JSON with `//` and `/*..*/`
//! comments stripped first).
//!
//! The file system itself stays with the caller: it reads the file and its
//! modification time and hands both in, and it writes the serialized text
//! back out.  Every decision in between — format choice, parsing, merging,
//! staleness, the read-only policy — is made and verified here.

use vstd::prelude::*;

use crate::codec::{
    json_object_of, parse_json_object, parse_yaml_object, strip_json_comments, stripped_of,
    yaml_object_of,
};
use crate::dict::{pairs_map, ConfigDict};
use crate::locations::{
    default_config_path, distribution_config_path, spec_default_config_path,
    spec_distribution_config_path, spec_system_config_path, spec_user_config_path,
    system_config_path, user_config_path,
};
use crate::str_eq;
use crate::xdg::Env;

verus! {

/// The on-disk format of a configuration file.
#[derive(Clone, Copy, Debug, PartialEq, Eq, Structural)]
pub enum FileFormat {
    Json,
    Yaml,
}

/// The errors a configuration operation can report.  A policy violation is
/// distinct from the I/O-flavoured cases so that callers can branch on
/// "not allowed" against "failed".
#[derive(Clone, Copy, Debug, PartialEq, Eq, Structural)]
pub enum ConfError {
    /// The layer is read-only and may not be modified at runtime.
    ReadOnly,
    /// The layer has no backing path and no override was given.
    NoSaveLocation,
    /// The file contents could not be parsed in the selected format.
    ParseError,
}

/// Whether the path carries a `.yml` or `.yaml` extension: the suffix
/// matches and the final component has a non-empty stem before the dot.
/// (A component-initial dot marks a hidden file, not an extension, and a
/// path with a trailing separator has no extension here.)
pub open spec fn spec_is_yaml_path(p: Seq<char>) -> bool {
    let n = p.len();
    (n >= 5 && p[n - 4] == '.' && p[n - 3] == 'y' && p[n - 2] == 'm' && p[n - 1] == 'l' && p[n - 5]
        != '/') || (n >= 6 && p[n - 5] == '.' && p[n - 4] == 'y' && p[n - 3] == 'a' && p[n - 2]
        == 'm' && p[n - 1] == 'l' && p[n - 6] != '/')
}

/// Whether `path` names a YAML file by its extension.
pub fn is_yaml_path(path: &str) -> (r: bool)
    ensures
        r == spec_is_yaml_path(path@),
{
    let n = path.unicode_len();
    let yml = n >= 5 && path.get_char(n - 4) == '.' && path.get_char(n - 3) == 'y' && path.get_char(
        n - 2,
    ) == 'm' && path.get_char(n - 1) == 'l' && path.get_char(n - 5) != '/';
    let yaml = n >= 6 && path.get_char(n - 5) == '.' && path.get_char(n - 4) == 'y'
        && path.get_char(n - 3) == 'a' && path.get_char(n - 2) == 'm' && path.get_char(n - 1)
        == 'l' && path.get_char(n - 6) != '/';
    yml || yaml
}

/// The format a path selects.
pub open spec fn spec_file_format(p: Seq<char>) -> FileFormat {
    if spec_is_yaml_path(p) {
        FileFormat::Yaml
    } else {
        FileFormat::Json
    }
}

/// What loading text through the format of `format_path` yields: the YAML
/// mapping, or the JSON object of the comment-stripped text.
pub open spec fn spec_parse_model(format_path: Seq<char>, text: Seq<char>) -> Option<
    Map<Seq<char>, serde_json::Value>,
> {
    if spec_is_yaml_path(format_path) {
        yaml_object_of(text)
    } else {
        json_object_of(stripped_of(text))
    }
}

/// Parses JSON text after stripping `//` line comments and `/*..*/` block
/// comments.
pub fn parse_commented_json(text: &str) -> (r: Option<ConfigDict>)
    ensures
        r is Some <==> json_object_of(stripped_of(text@)) is Some,
        r matches Some(d) ==> d.wf() && Some(d@) == json_object_of(stripped_of(text@)),
{
    let stripped = strip_json_comments(text);
    match parse_json_object(stripped.as_str()) {
        Some(pairs) => {
            let mut d = ConfigDict::new();
            d.merge_pairs(&pairs);
            proof {
                assert(Map::<Seq<char>, serde_json::Value>::empty().union_prefer_right(
                    pairs_map(pairs@),
                ) =~= pairs_map(pairs@));
            }
            Some(d)
        },
        None => None,
    }
}

/// One configuration layer: an optional backing path, the in-memory
/// dictionary, and the staleness marker.
pub struct LocalConf {
    path: Option<String>,
    data: ConfigDict,
    last_loaded: Option<u128>,
}

impl LocalConf {
    /// The dictionary's keys are pairwise distinct.
    pub closed spec fn wf(&self) -> bool {
        self.data.wf()
    }

    /// The bound path, as a character sequence.
    pub closed spec fn spec_path(&self) -> Option<Seq<char>> {
        match self.path {
            Some(p) => Some(p@),
            None => None,
        }
    }

    /// The in-memory dictionary's mapping.
    pub closed spec fn dict(&self) -> Map<Seq<char>, serde_json::Value> {
        self.data@
    }

    /// The staleness marker: the modification time (in nanoseconds) of the
    /// bound path when it was last loaded, if it ever was.
    pub closed spec fn spec_last_loaded(&self) -> Option<u128> {
        self.last_loaded
    }

    /// A layer bound to `path` (or purely in-memory), with an empty
    /// dictionary and no staleness marker.  Construction never fails; the
    /// caller loads the file, if any, afterwards.
    pub fn new(path: Option<String>) -> (r: LocalConf)
        ensures
            r.wf(),
            r.spec_path() == (match path {
                Some(p) => Some(p@),
                None => None::<Seq<char>>,
            }),
            r.dict() == Map::<Seq<char>, serde_json::Value>::empty(),
            r.spec_last_loaded() is None,
    {
        LocalConf { path, data: ConfigDict::new(), last_loaded: None }
    }

    /// The bound path, if any.
    pub fn path(&self) -> (r: Option<&String>)
        ensures
            match r {
                Some(p) => self.spec_path() == Some(p@),
                None => self.spec_path() is None,
            },
    {
        self.path.as_ref()
    }

    /// The staleness marker, if a load of the bound path recorded one.
    pub fn last_loaded(&self) -> (r: Option<u128>)
        ensures
            r == self.spec_last_loaded(),
    {
        self.last_loaded
    }

    /// Looks a key up in the in-memory dictionary.
    pub fn get(&self, key: &str) -> (r: Option<&serde_json::Value>)
        requires
            self.wf(),
        ensures
            match r {
                Some(v) => self.dict().contains_key(key@) && *v == self.dict()[key@],
                None => !self.dict().contains_key(key@),
            },
    {
        self.data.get(key)
    }

    /// The number of keys in the in-memory dictionary.
    pub fn len(&self) -> (r: usize)
        requires
            self.wf(),
        ensures
            r == self.dict().dom().len(),
    {
        self.data.len()
    }

    /// The format the layer would use for `path`: the override when given,
    /// else the bound path, else JSON.
    pub fn get_file_format(&self, path: Option<&str>) -> (r: FileFormat)
        ensures
            r == (match path {
                Some(p) => spec_file_format(p@),
                None => match self.spec_path() {
                    Some(p) => spec_file_format(p),
                    None => FileFormat::Json,
                },
            }),
    {
        proof {
            reveal_strlit("");
        }
        let chosen: &str = match path {
            Some(p) => p,
            None => match &self.path {
                Some(p) => p.as_str(),
                None => "",
            },
        };
        if is_yaml_path(chosen) {
            FileFormat::Yaml
        } else {
            FileFormat::Json
        }
    }

    /// Merges freshly read file contents into the layer.
    ///
    /// `path` is the override the caller read from (the bound path applies
    /// when it is `None`), `text` the file's contents, and `modified` the
    /// file's modification time if the caller could observe one.  The text
    /// is parsed in the format of the effective path and merged over the
    /// dictionary, new values overwriting existing keys; the staleness
    /// marker is captured only when the effective path is the bound path.
    /// With no effective path at all the call is a no-op.  Unparseable text
    /// is reported and leaves the layer unchanged.
    pub fn load_text(&mut self, path: Option<&str>, text: &str, modified: Option<u128>) -> (r:
        Result<(), ConfError>)
        requires
            old(self).wf(),
        ensures
            final(self).wf(),
            final(self).spec_path() == old(self).spec_path(),
            ({
                let eff = match path {
                    Some(p) => Some(p@),
                    None => old(self).spec_path(),
                };
                match eff {
                    None => r is Ok && final(self).dict() == old(self).dict() && final(self).spec_last_loaded() == old(self).spec_last_loaded(),
                    Some(p) => match spec_parse_model(p, text@) {
                        Some(d) => r is Ok
                            && final(self).dict() == old(self).dict().union_prefer_right(d)
                            && final(self).spec_last_loaded() == (if old(self).spec_path() == Some(p) && modified is Some {
                                modified
                            } else {
                                old(self).spec_last_loaded()
                            }),
                        None => r == Err::<(), ConfError>(ConfError::ParseError)
                            && final(self).dict() == old(self).dict()
                            && final(self).spec_last_loaded() == old(self).spec_last_loaded(),
                    },
                }
            }),
    {
        let eff: Option<String> = match path {
            Some(p) => Some(String::from_str(p)),
            None => match &self.path {
                Some(p) => Some(p.clone()),
                None => None,
            },
        };
        match eff {
            None => Ok(()),
            Some(p) => {
                let parsed = if is_yaml_path(p.as_str()) {
                    parse_yaml_object(text)
                } else {
                    let stripped = strip_json_comments(text);
                    parse_json_object(stripped.as_str())
                };
                match parsed {
                    None => Err(ConfError::ParseError),
                    Some(pairs) => {
                        self.data.merge_pairs(&pairs);
                        let at_bound_path = match &self.path {
                            Some(bp) => str_eq(bp.as_str(), p.as_str()),
                            None => false,
                        };
                        if at_bound_path {
                            if let Some(m) = modified {
                                self.last_loaded = Some(m);
                            }
                        }
                        Ok(())
                    },
                }
            },
        }
    }

    /// Whether a reload is due: true when no load was recorded yet, or when
    /// the file is newer than the marker.  The caller observes the bound
    /// path's current modification time and passes it in; when this returns
    /// false the file need not be read or parsed again.
    pub fn should_reload(&self, modified: u128) -> (r: bool)
        ensures
            r == (match self.spec_last_loaded() {
                None => true,
                Some(last) => last < modified,
            }),
    {
        match self.last_loaded {
            None => true,
            Some(last) => last < modified,
        }
    }

    /// Serializes the whole dictionary for the effective path's format and
    /// returns the text to write there, or reports that the layer has no
    /// save location.  Nothing is written here; the caller owns the file.
    pub fn store_string(&self, path: Option<&str>) -> (r: Result<String, ConfError>)
        requires
            self.wf(),
        ensures
            ({
                let eff = match path {
                    Some(p) => Some(p@),
                    None => self.spec_path(),
                };
                match eff {
                    None => r == Err::<String, ConfError>(ConfError::NoSaveLocation),
                    Some(p) => r matches Ok(s) && (if spec_is_yaml_path(p) {
                        yaml_object_of(s@) == Some(self.dict())
                    } else {
                        json_object_of(s@) == Some(self.dict())
                    }),
                }
            }),
    {
        let eff: Option<String> = match path {
            Some(p) => Some(String::from_str(p)),
            None => match &self.path {
                Some(p) => Some(p.clone()),
                None => None,
            },
        };
        match eff {
            None => Err(ConfError::NoSaveLocation),
            Some(p) => {
                if is_yaml_path(p.as_str()) {
                    Ok(self.data.to_yaml())
                } else {
                    Ok(self.data.to_json())
                }
            },
        }
    }

    /// Merges a dictionary over the in-memory one, overwriting by key; no
    /// disk interaction is implied.
    pub fn merge(&mut self, conf: &ConfigDict)
        requires
            old(self).wf(),
            conf.wf(),
        ensures
            final(self).wf(),
            final(self).dict() == old(self).dict().union_prefer_right(conf@),
            final(self).spec_path() == old(self).spec_path(),
            final(self).spec_last_loaded() == old(self).spec_last_loaded(),
    {
        self.data.merge_from(conf);
    }

    /// Repoints the layer to another backing path (or unbinds it).  The
    /// dictionary and the staleness marker are untouched; the caller
    /// reloads when it wants the new file's contents.
    pub fn set_path(&mut self, path: Option<String>)
        requires
            old(self).wf(),
        ensures
            final(self).wf(),
            final(self).spec_path() == (match path {
                Some(p) => Some(p@),
                None => None::<Seq<char>>,
            }),
            final(self).dict() == old(self).dict(),
            final(self).spec_last_loaded() == old(self).spec_last_loaded(),
    {
        self.path = path;
    }
}

/// A configuration layer under a mutation policy: `set`, `merge` and
/// `store_string` fail with [`ConfError::ReadOnly`] unless the layer was
/// constructed with `allow_overwrite`.  Reloading from disk is always
/// permitted — a reload reads the file, not caller-supplied data — and
/// leaves the policy flag as it was.
pub struct ReadOnlyConfig {
    inner: LocalConf,
    allow_overwrite: bool,
}

impl ReadOnlyConfig {
    /// The inner dictionary's keys are pairwise distinct.
    pub closed spec fn wf(&self) -> bool {
        self.inner.wf()
    }

    /// Whether runtime mutation is allowed.
    pub closed spec fn spec_allow_overwrite(&self) -> bool {
        self.allow_overwrite
    }

    /// The bound path.
    pub closed spec fn spec_path(&self) -> Option<Seq<char>> {
        self.inner.spec_path()
    }

    /// The in-memory dictionary's mapping.
    pub closed spec fn dict(&self) -> Map<Seq<char>, serde_json::Value> {
        self.inner.dict()
    }

    /// The staleness marker.
    pub closed spec fn spec_last_loaded(&self) -> Option<u128> {
        self.inner.spec_last_loaded()
    }

    /// A policy-wrapped layer bound to `path`, with an empty dictionary.
    /// The caller loads the file afterwards, through [`Self::reload_from`].
    pub fn new(path: String, allow_overwrite: bool) -> (r: ReadOnlyConfig)
        ensures
            r.wf(),
            r.spec_path() == Some(path@),
            r.spec_allow_overwrite() == allow_overwrite,
            r.dict() == Map::<Seq<char>, serde_json::Value>::empty(),
            r.spec_last_loaded() is None,
    {
        ReadOnlyConfig { inner: LocalConf::new(Some(path)), allow_overwrite }
    }

    /// Whether runtime mutation is allowed.
    pub fn allows_overwrite(&self) -> (r: bool)
        ensures
            r == self.spec_allow_overwrite(),
    {
        self.allow_overwrite
    }

    /// The bound path, if any.
    pub fn path(&self) -> (r: Option<&String>)
        ensures
            match r {
                Some(p) => self.spec_path() == Some(p@),
                None => self.spec_path() is None,
            },
    {
        self.inner.path()
    }

    /// Looks a key up in the in-memory dictionary.
    pub fn get(&self, key: &str) -> (r: Option<&serde_json::Value>)
        requires
            self.wf(),
        ensures
            match r {
                Some(v) => self.dict().contains_key(key@) && *v == self.dict()[key@],
                None => !self.dict().contains_key(key@),
            },
    {
        self.inner.get(key)
    }

    /// Whether a reload is due for the given current modification time.
    pub fn should_reload(&self, modified: u128) -> (r: bool)
        ensures
            r == (match self.spec_last_loaded() {
                None => true,
                Some(last) => last < modified,
            }),
    {
        self.inner.should_reload(modified)
    }

    /// Merges freshly read contents of the bound path into the layer,
    /// regardless of the policy flag: the restriction is lifted for the
    /// duration of a reload, and the flag afterwards is the flag before.
    pub fn reload_from(&mut self, text: &str, modified: u128) -> (r: Result<(), ConfError>)
        requires
            old(self).wf(),
        ensures
            final(self).wf(),
            final(self).spec_allow_overwrite() == old(self).spec_allow_overwrite(),
            final(self).spec_path() == old(self).spec_path(),
            match old(self).spec_path() {
                None => r is Ok && final(self).dict() == old(self).dict()
                    && final(self).spec_last_loaded() == old(self).spec_last_loaded(),
                Some(p) => match spec_parse_model(p, text@) {
                    Some(d) => r is Ok
                        && final(self).dict() == old(self).dict().union_prefer_right(d)
                        && final(self).spec_last_loaded() == Some(modified),
                    None => r == Err::<(), ConfError>(ConfError::ParseError)
                        && final(self).dict() == old(self).dict()
                        && final(self).spec_last_loaded() == old(self).spec_last_loaded(),
                },
            },
    {
        self.inner.load_text(None, text, Some(modified))
    }

    /// Binds `key` to `value` when the policy allows it; a read-only layer
    /// reports the policy error and stays unchanged.
    pub fn set(&mut self, key: &str, value: serde_json::Value) -> (r: Result<(), ConfError>)
        requires
            old(self).wf(),
        ensures
            final(self).wf(),
            final(self).spec_allow_overwrite() == old(self).spec_allow_overwrite(),
            final(self).spec_path() == old(self).spec_path(),
            final(self).spec_last_loaded() == old(self).spec_last_loaded(),
            !old(self).spec_allow_overwrite() ==> r == Err::<(), ConfError>(ConfError::ReadOnly)
                && final(self).dict() == old(self).dict(),
            old(self).spec_allow_overwrite() ==> r is Ok && final(self).dict() == old(
                self,
            ).dict().insert(key@, value),
    {
        if !self.allow_overwrite {
            Err(ConfError::ReadOnly)
        } else {
            self.inner.data.insert(String::from_str(key), value);
            Ok(())
        }
    }

    /// Merges a dictionary in when the policy allows it; a read-only layer
    /// reports the policy error and stays unchanged.
    pub fn merge(&mut self, conf: &ConfigDict) -> (r: Result<(), ConfError>)
        requires
            old(self).wf(),
            conf.wf(),
        ensures
            final(self).wf(),
            final(self).spec_allow_overwrite() == old(self).spec_allow_overwrite(),
            final(self).spec_path() == old(self).spec_path(),
            final(self).spec_last_loaded() == old(self).spec_last_loaded(),
            !old(self).spec_allow_overwrite() ==> r == Err::<(), ConfError>(ConfError::ReadOnly)
                && final(self).dict() == old(self).dict(),
            old(self).spec_allow_overwrite() ==> r is Ok && final(self).dict() == old(
                self,
            ).dict().union_prefer_right(conf@),
    {
        if !self.allow_overwrite {
            Err(ConfError::ReadOnly)
        } else {
            self.inner.merge(conf);
            Ok(())
        }
    }

    /// Serializes the dictionary for the effective path when the policy
    /// allows it; a read-only layer reports the policy error.
    pub fn store_string(&self, path: Option<&str>) -> (r: Result<String, ConfError>)
        requires
            self.wf(),
        ensures
            !self.spec_allow_overwrite() ==> r == Err::<String, ConfError>(ConfError::ReadOnly),
            self.spec_allow_overwrite() ==> ({
                let eff = match path {
                    Some(p) => Some(p@),
                    None => self.spec_path(),
                };
                match eff {
                    None => r == Err::<String, ConfError>(ConfError::NoSaveLocation),
                    Some(p) => r matches Ok(s) && (if spec_is_yaml_path(p) {
                        yaml_object_of(s@) == Some(self.dict())
                    } else {
                        json_object_of(s@) == Some(self.dict())
                    }),
                }
            }),
    {
        if !self.allow_overwrite {
            Err(ConfError::ReadOnly)
        } else {
            self.inner.store_string(path)
        }
    }
}

/// The default configuration layer, bound to the fixed default path and
/// never writable at runtime.  It can be repointed at an
/// application-supplied root config file.
pub struct MycroftDefaultConfig(pub ReadOnlyConfig);

impl MycroftDefaultConfig {
    /// The default layer: read-only, bound to the fixed default path.
    pub fn new() -> (r: MycroftDefaultConfig)
        ensures
            r.0.wf(),
            r.0.spec_path() == Some(spec_default_config_path()),
            !r.0.spec_allow_overwrite(),
            r.0.dict() == Map::<Seq<char>, serde_json::Value>::empty(),
    {
        MycroftDefaultConfig(ReadOnlyConfig::new(default_config_path(), false))
    }

    /// Repoints the layer at an application-supplied root config file.
    /// The caller reloads immediately afterwards, as the layer still holds
    /// the previous file's data.
    pub fn set_root_config_path(&mut self, root_config: String)
        requires
            old(self).0.wf(),
        ensures
            final(self).0.wf(),
            final(self).0.spec_path() == Some(root_config@),
            final(self).0.spec_allow_overwrite() == old(self).0.spec_allow_overwrite(),
            final(self).0.dict() == old(self).0.dict(),
            final(self).0.spec_last_loaded() == old(self).0.spec_last_loaded(),
    {
        self.0.inner.set_path(Some(root_config));
    }
}

/// The distribution configuration layer, bound to the (environment
/// overridable) distribution path; deployments choose whether it may be
/// overwritten at runtime.
pub struct OvosDistributionConfig(pub ReadOnlyConfig);

impl OvosDistributionConfig {
    /// The distribution layer, at the path the environment selects.
    pub fn new(allow_overwrite: bool, env: &Env) -> (r: OvosDistributionConfig)
        ensures
            r.0.wf(),
            r.0.spec_path() == Some(spec_distribution_config_path(*env)),
            r.0.spec_allow_overwrite() == allow_overwrite,
            r.0.dict() == Map::<Seq<char>, serde_json::Value>::empty(),
    {
        OvosDistributionConfig(ReadOnlyConfig::new(distribution_config_path(env), allow_overwrite))
    }
}

/// The system configuration layer, bound to the (environment overridable)
/// system path.
pub struct MycroftSystemConfig(pub ReadOnlyConfig);

impl MycroftSystemConfig {
    /// The system layer, at the path the environment selects.
    pub fn new(allow_overwrite: bool, env: &Env) -> (r: MycroftSystemConfig)
        ensures
            r.0.wf(),
            r.0.spec_path() == Some(spec_system_config_path(*env)),
            r.0.spec_allow_overwrite() == allow_overwrite,
            r.0.dict() == Map::<Seq<char>, serde_json::Value>::empty(),
    {
        MycroftSystemConfig(ReadOnlyConfig::new(system_config_path(env), allow_overwrite))
    }
}

/// The mutable user configuration layer, bound to the XDG-resolved save
/// path and never wrapped in the read-only policy.
pub struct MycroftUserConfig(pub LocalConf);

impl MycroftUserConfig {
    /// The user layer, at the XDG-resolved user config path.
    pub fn new(env: &Env) -> (r: MycroftUserConfig)
        ensures
            r.0.wf(),
            r.0.spec_path() == Some(spec_user_config_path(*env)),
            r.0.dict() == Map::<Seq<char>, serde_json::Value>::empty(),
    {
        MycroftUserConfig(LocalConf::new(Some(user_config_path(env))))
    }
}

/// The user layer is the XDG-resolved one.
pub type MycroftXDGConfig = MycroftUserConfig;

/// Loading the same file twice without a change in between leaves the
/// dictionary exactly as one load does: merging a parsed mapping in is
/// idempotent.
pub proof fn lemma_load_idempotent(
    m: Map<Seq<char>, serde_json::Value>,
    p: Seq<char>,
    text: Seq<char>,
)
    requires
        spec_parse_model(p, text) is Some,
    ensures
        ({
            let d = spec_parse_model(p, text).unwrap();
            m.union_prefer_right(d).union_prefer_right(d) == m.union_prefer_right(d)
        }),
{
    let d = spec_parse_model(p, text).unwrap();
    assert(m.union_prefer_right(d).union_prefer_right(d) =~= m.union_prefer_right(d));
}

/// Store/load round trip for a JSON-formatted path: text whose JSON object
/// is the stored dictionary — which `store_string` ensures — loads into a
/// fresh (empty) layer as exactly that dictionary, provided the comment
/// stripper leaves the text unchanged.  (The stripper pays no regard to
/// string literals, so a value whose serialization contains `//` or `/*`
/// defeats the round trip; such inputs are excluded here.)
pub proof fn lemma_json_round_trip(
    p: Seq<char>,
    out: Seq<char>,
    d: Map<Seq<char>, serde_json::Value>,
)
    requires
        !spec_is_yaml_path(p),
        json_object_of(out) == Some(d),
        stripped_of(out) == out,
    ensures
        spec_parse_model(p, out) == Some(d),
        Map::<Seq<char>, serde_json::Value>::empty().union_prefer_right(d) == d,
{
    assert(Map::<Seq<char>, serde_json::Value>::empty().union_prefer_right(d) =~= d);
}

/// Store/load round trip for a YAML-formatted path: text whose YAML
/// mapping is the stored dictionary — which `store_string` ensures — loads
/// into a fresh (empty) layer as exactly that dictionary.
pub proof fn lemma_yaml_round_trip(
    p: Seq<char>,
    out: Seq<char>,
    d: Map<Seq<char>, serde_json::Value>,
)
    requires
        spec_is_yaml_path(p),
        yaml_object_of(out) == Some(d),
    ensures
        spec_parse_model(p, out) == Some(d),
        Map::<Seq<char>, serde_json::Value>::empty().union_prefer_right(d) == d,
{
    assert(Map::<Seq<char>, serde_json::Value>::empty().union_prefer_right(d) =~= d);
}

} // verus!
