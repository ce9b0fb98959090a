//! App identifiers and their resolution.
//!
//! An app can be named by a backend app id, a backend app-version id, a
//! `namespace/name` pair, or a bare alias.  Classifying a bare string as a
//! backend global id (and finding which kind of node it names) is the job of
//! the backend API layer; this module takes that classification as an input
//! and carries out the rest of the decision exactly.

use vstd::prelude::*;

verus! {

/// App identifier.
///
/// Can be either a namespace/name, a plain name, or an app id.
#[derive(Debug, Clone, PartialEq, Eq)]
pub enum AppIdent {
    /// Backend app id like "da_xxysw34234".
    AppId(String),
    /// Backend app VERSION id like "dav_xxysw34234".
    AppVersionId(String),
    /// An owner namespace together with an app name.
    NamespacedName(String, String),
    /// A bare app alias.
    Alias(String),
}

/// What the backend API layer found a bare (slash-free) identifier string to
/// be: a prefixed global id of some node kind, or no global id at all.
#[derive(Debug, Clone, Copy, PartialEq, Eq, Structural)]
pub enum GlobalIdKind {
    /// A global id naming an app.
    DeployApp,
    /// A global id naming one version of an app.
    DeployAppVersion,
    /// A well-formed global id of some other node kind.
    OtherKind,
    /// Not a global id; the string is a plain alias.
    NotAnId,
}

/// Why an identifier string was rejected.
#[derive(Debug, Clone, Copy, PartialEq, Eq, Structural)]
pub enum AppIdentError {
    /// The string has the form `/...`: the namespace can not be empty.
    EmptyNamespace,
    /// The string has the form `.../`: the name can not be empty.
    EmptyName,
    /// The string is a global id, but of a node kind that is not an app.
    NotAnAppId,
    /// No identifier was given and no local app configuration exists.
    NoLocalConfig,
}

/// The position of the first `/` in `cs` at or after `from`, or `cs.len()`
/// when there is none.
pub open spec fn spec_first_slash(cs: Seq<char>, from: int) -> int
    decreases cs.len() - from,
    when 0 <= from <= cs.len()
{
    if from >= cs.len() {
        cs.len() as int
    } else if cs[from] == '/' {
        from
    } else {
        spec_first_slash(cs, from + 1)
    }
}

/// Finds the position of the first `/` in `s`, or the length of `s` when
/// there is none.
fn find_first_slash(s: &str) -> (k: usize)
    ensures
        k as int == spec_first_slash(s@, 0),
        k <= s@.len(),
{
    let n = s.unicode_len();
    let mut k: usize = 0;
    while k < n
        invariant
            n == s@.len(),
            0 <= k <= n,
            spec_first_slash(s@, 0) == spec_first_slash(s@, k as int),
        decreases n - k,
    {
        if s.get_char(k) == '/' {
            return k;
        }
        assert(spec_first_slash(s@, k as int) == spec_first_slash(s@, k as int + 1));
        k = k + 1;
    }
    k
}

impl AppIdent {
    /// An identical copy of this identifier.
    pub fn duplicate(&self) -> (r: AppIdent)
        ensures
            r == *self,
    {
        match self {
            AppIdent::AppId(s) => AppIdent::AppId(s.clone()),
            AppIdent::AppVersionId(s) => AppIdent::AppVersionId(s.clone()),
            AppIdent::NamespacedName(ns, name) => AppIdent::NamespacedName(ns.clone(), name.clone()),
            AppIdent::Alias(s) => AppIdent::Alias(s.clone()),
        }
    }

    /// Reads an app identifier from a string.
    ///
    /// A string containing a `/` splits at its first `/` into a namespace
    /// and a name, both of which must be non-empty.  A slash-free string is
    /// an app id, an app-version id, or a plain alias according to what the
    /// backend API layer classified it as, which the caller passes in
    /// `id_kind`; a global id of any other node kind is rejected.
    pub fn parse(s: &str, id_kind: GlobalIdKind) -> (r: Result<AppIdent, AppIdentError>)
        ensures
            ({
                let cs = s@;
                let i = spec_first_slash(cs, 0);
                if i < cs.len() {
                    if i == 0 {
                        r == Err::<AppIdent, AppIdentError>(AppIdentError::EmptyNamespace)
                    } else if i == cs.len() - 1 {
                        r == Err::<AppIdent, AppIdentError>(AppIdentError::EmptyName)
                    } else {
                        r matches Ok(AppIdent::NamespacedName(ns, name)) && ns@ == cs.subrange(
                            0,
                            i,
                        ) && name@ == cs.subrange(i + 1, cs.len() as int)
                    }
                } else {
                    match id_kind {
                        GlobalIdKind::DeployApp => r matches Ok(AppIdent::AppId(t)) && t@ == cs,
                        GlobalIdKind::DeployAppVersion => r matches Ok(AppIdent::AppVersionId(t))
                            && t@ == cs,
                        GlobalIdKind::OtherKind => r == Err::<AppIdent, AppIdentError>(
                            AppIdentError::NotAnAppId,
                        ),
                        GlobalIdKind::NotAnId => r matches Ok(AppIdent::Alias(t)) && t@ == cs,
                    }
                }
            }),
    {
        let n = s.unicode_len();
        let k = find_first_slash(s);
        if k < n {
            if k == 0 {
                Err(AppIdentError::EmptyNamespace)
            } else if k == n - 1 {
                Err(AppIdentError::EmptyName)
            } else {
                let ns = s.substring_char(0, k).to_owned();
                let name = s.substring_char(k + 1, n).to_owned();
                Ok(AppIdent::NamespacedName(ns, name))
            }
        } else {
            match id_kind {
                GlobalIdKind::DeployApp => Ok(AppIdent::AppId(s.to_owned())),
                GlobalIdKind::DeployAppVersion => Ok(AppIdent::AppVersionId(s.to_owned())),
                GlobalIdKind::OtherKind => Err(AppIdentError::NotAnAppId),
                GlobalIdKind::NotAnId => Ok(AppIdent::Alias(s.to_owned())),
            }
        }
    }
}

/// What this library reads from a local app configuration file: the app
/// name, the optional recorded app id, and where the file lies.
#[derive(Debug, Clone, PartialEq, Eq)]
pub struct LocalAppConfig {
    /// The app's name.
    pub name: String,
    /// The backend app id recorded in the configuration, if any.
    pub app_id: Option<String>,
    /// The path of the configuration file.
    pub path: String,
}

/// Options for identifying an app.
///
/// Provides convenience methods for resolving an app identifier or choosing
/// it from a local app configuration.
#[derive(Debug, Clone)]
pub struct AppIdentOpts {
    /// Identifier of the application.
    ///
    /// If not specified, the identifier is taken from the app configuration
    /// found in the current directory.
    pub app_ident: Option<AppIdent>,
}

/// An app identifier, together with the local configuration it was taken
/// from when none was given directly.
#[derive(Debug, Clone)]
pub enum ResolvedAppIdent {
    /// An identifier that was given directly.
    Ident(AppIdent),
    /// An identifier chosen from a local app configuration.
    Config { ident: AppIdent, config: LocalAppConfig },
}

impl ResolvedAppIdent {
    /// The resolved app identifier itself.
    pub fn ident(&self) -> (r: &AppIdent)
        ensures
            *r == (match self {
                ResolvedAppIdent::Ident(ident) => *ident,
                ResolvedAppIdent::Config { ident, .. } => *ident,
            }),
    {
        match self {
            ResolvedAppIdent::Ident(ident) => ident,
            ResolvedAppIdent::Config { ident, .. } => ident,
        }
    }
}

impl AppIdentOpts {
    /// Resolves the app identifier without consulting the backend: the one
    /// given directly if any, else the one the local app configuration
    /// determines — its recorded app id when present, the app's name as an
    /// alias otherwise.  With neither an identifier nor a local
    /// configuration the resolution fails.
    pub fn resolve_static(&self, local: Option<LocalAppConfig>) -> (r: Result<
        ResolvedAppIdent,
        AppIdentError,
    >)
        ensures
            self.app_ident matches Some(id) ==> (r matches Ok(ResolvedAppIdent::Ident(i)) && i
                == id),
            self.app_ident is None && local is None ==> r == Err::<ResolvedAppIdent, AppIdentError>(
                AppIdentError::NoLocalConfig,
            ),
            local matches Some(cfg) ==> (self.app_ident is None ==> (r matches Ok(
                ResolvedAppIdent::Config { ident, config },
            ) && config == cfg && (match cfg.app_id {
                Some(id) => ident matches AppIdent::AppId(t) && t == id,
                None => ident matches AppIdent::Alias(t) && t == cfg.name,
            }))),
    {
        if let Some(id) = &self.app_ident {
            return Ok(ResolvedAppIdent::Ident(id.duplicate()));
        }
        match local {
            None => Err(AppIdentError::NoLocalConfig),
            Some(config) => {
                let ident = match &config.app_id {
                    Some(id) => AppIdent::AppId(id.clone()),
                    None => AppIdent::Alias(config.name.clone()),
                };
                Ok(ResolvedAppIdent::Config { ident, config })
            },
        }
    }
}

} // verus!
