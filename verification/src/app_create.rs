//! Creating a new app: the decisions behind the interactive flow.
//!
//! Actually creating an app means talking to a registry, prompting the
//! user, downloading and unpacking a template — all outside work.  What this
//! module owns are the decisions that drive that flow: which creation path
//! the given options select, where the app's name and owner come from, the
//! configuration a new app starts from, and the rule that turns a template
//! repository URL path into the archive path to download.

use vstd::prelude::*;

verus! {

/// Create a new app.
pub struct CmdAppCreate {
    /// A reference to the template to use: either a URL to a repository or
    /// the name of a template to search for in the registry.
    pub template: Option<String>,
    /// Name of the package to use.
    pub package: Option<String>,
    /// Whether or not to search (and use) a local manifest.
    pub use_local_manifest: bool,
    /// Whether or not to deploy the application once it is created.
    pub deploy_app: bool,
    /// Skip local schema validation.
    pub no_validate: bool,
    /// Do not prompt for user input.
    pub non_interactive: bool,
    /// Do not interact with any APIs.
    pub offline: bool,
    /// The owner of the app.
    pub owner: Option<String>,
    /// The name of the app (can be changed later).
    pub app_name: Option<String>,
    /// The path to the directory where the config file for the application
    /// will be written to.
    pub app_dir_path: Option<String>,
    /// Do not wait for the app to become reachable if deployed.
    pub no_wait: bool,
    /// Name to use when creating a new package from a template.
    pub new_package_name: Option<String>,
    /// Don't print any message.
    pub quiet: bool,
}

/// The configuration a freshly created app starts from.  Every field not
/// listed here starts empty.
#[derive(Debug, Clone, PartialEq, Eq)]
pub struct AppConfig {
    /// The app's name.
    pub name: String,
    /// The app's owner.
    pub owner: String,
    /// The package the app runs.
    pub package: String,
    /// The backend app id; a new configuration has none yet.
    pub app_id: Option<String>,
}

/// Where a value that the creation flow needs comes from: it was given as
/// an option, it is missing and the flow must fail because no prompt is
/// possible, or the user is prompted for it.
#[derive(Debug, Clone, PartialEq, Eq)]
pub enum ValueSource {
    /// The value was given on the command line.
    Given(String),
    /// The value is missing and the flow is non-interactive: fail.
    RequiredFlagMissing,
    /// Prompt the user, offering the contained default if any.
    Prompt { default: Option<String> },
}

/// The creation path that the given options and probe results select.
#[derive(Debug, Clone, Copy, PartialEq, Eq, Structural)]
pub enum CreationPlan {
    /// Use the package manifest found next to the app.
    FromLocalManifest,
    /// A local manifest was demanded but none was found: fail.
    MissingLocalManifest,
    /// Create from the selected template.
    FromTemplate,
    /// Create from the selected package.
    FromPackage,
    /// Ask the user whether to start from a template or from a package.
    AskTemplateOrPackage,
    /// Nothing can be created: only warn that no local change was made.
    NothingToDo,
}

impl CmdAppCreate {
    /// The configuration a new app named `name`, owned by `owner` and
    /// running `package` starts from.
    pub fn get_app_config(&self, owner: &str, name: &str, package: &str) -> (c: AppConfig)
        ensures
            c.name@ == name@,
            c.owner@ == owner@,
            c.package@ == package@,
            c.app_id is None,
    {
        AppConfig {
            name: name.to_owned(),
            owner: owner.to_owned(),
            package: package.to_owned(),
            app_id: None,
        }
    }

    /// Where the new app's name comes from: the `--name` option when given;
    /// otherwise a prompt whose default is the name of the target directory
    /// (which the caller supplies), unless the flow is non-interactive, in
    /// which case the name is missing and the flow fails.
    pub fn app_name_source(&self, dir_name: Option<String>) -> (r: ValueSource)
        ensures
            self.app_name matches Some(n) ==> (r matches ValueSource::Given(g) && g == n),
            self.app_name is None && self.non_interactive ==> r
                is RequiredFlagMissing,
            self.app_name is None && !self.non_interactive ==> (r matches ValueSource::Prompt {
                default,
            } && default == dir_name),
    {
        match &self.app_name {
            Some(name) => ValueSource::Given(name.clone()),
            None => {
                if self.non_interactive {
                    ValueSource::RequiredFlagMissing
                } else {
                    ValueSource::Prompt { default: dir_name }
                }
            },
        }
    }

    /// Where the new app's owner comes from: the `--owner` option when
    /// given; otherwise a prompt with no default, unless the flow is
    /// non-interactive, in which case the owner is missing and the flow
    /// fails.
    pub fn owner_source(&self) -> (r: ValueSource)
        ensures
            self.owner matches Some(o) ==> (r matches ValueSource::Given(g) && g == o),
            self.owner is None && self.non_interactive ==> r is RequiredFlagMissing,
            self.owner is None && !self.non_interactive ==> r == (ValueSource::Prompt {
                default: None,
            }),
    {
        match &self.owner {
            Some(owner) => ValueSource::Given(owner.clone()),
            None => {
                if self.non_interactive {
                    ValueSource::RequiredFlagMissing
                } else {
                    ValueSource::Prompt { default: None }
                }
            },
        }
    }

    /// Whether the local-manifest path is considered at all: it is skipped
    /// when a template or package was selected explicitly, and when the
    /// flow is non-interactive without `--use_local_manifest`.
    pub open spec fn spec_considers_local_manifest(&self) -> bool {
        !((!self.use_local_manifest && self.non_interactive) || self.template is Some
            || self.package is Some)
    }

    /// The creation path that the options select.
    ///
    /// `local_manifest_found` says whether a package manifest was found in
    /// the target directory, and `local_manifest_confirmed` whether the
    /// user, when asked, chose to use it; both probes are only consulted
    /// when the decision needs them.  The paths are tried in order: the
    /// local manifest, then an explicit template or package, then the
    /// interactive choice between the two (creation from a package when
    /// offline), and failing everything there is nothing to do.
    pub fn creation_plan(&self, local_manifest_found: bool, local_manifest_confirmed: bool) -> (p:
        CreationPlan)
        ensures
            p == (if self.spec_considers_local_manifest() && local_manifest_found && (
            self.use_local_manifest || local_manifest_confirmed) {
                CreationPlan::FromLocalManifest
            } else if self.spec_considers_local_manifest() && !local_manifest_found
                && self.use_local_manifest {
                CreationPlan::MissingLocalManifest
            } else if self.template is Some {
                CreationPlan::FromTemplate
            } else if self.package is Some {
                CreationPlan::FromPackage
            } else if !self.non_interactive && self.offline {
                CreationPlan::FromPackage
            } else if !self.non_interactive {
                CreationPlan::AskTemplateOrPackage
            } else {
                CreationPlan::NothingToDo
            }),
    {
        let considers_local = !((!self.use_local_manifest && self.non_interactive)
            || self.template.is_some() || self.package.is_some());
        if considers_local && local_manifest_found && (self.use_local_manifest
            || local_manifest_confirmed) {
            CreationPlan::FromLocalManifest
        } else if considers_local && !local_manifest_found && self.use_local_manifest {
            CreationPlan::MissingLocalManifest
        } else if self.template.is_some() {
            CreationPlan::FromTemplate
        } else if self.package.is_some() {
            CreationPlan::FromPackage
        } else if !self.non_interactive && self.offline {
            CreationPlan::FromPackage
        } else if !self.non_interactive {
            CreationPlan::AskTemplateOrPackage
        } else {
            CreationPlan::NothingToDo
        }
    }

    /// Whether the freshly created app is deployed right away: always under
    /// `--deploy`, and otherwise exactly when the flow is interactive and
    /// the user confirmed the deployment prompt.
    pub fn should_deploy(&self, confirmed: bool) -> (b: bool)
        ensures
            b == (self.deploy_app || (!self.non_interactive && confirmed)),
    {
        self.deploy_app || (!self.non_interactive && confirmed)
    }
}

/// Whether `needle` occurs contiguously somewhere in `hay`.
pub open spec fn spec_contains(hay: Seq<char>, needle: Seq<char>) -> bool {
    exists|i: int|
        0 <= i <= hay.len() - needle.len() && #[trigger] hay.subrange(i, i + needle.len() as int)
            == needle
}

/// Decides whether `needle` occurs in `hay` starting at position `i`.
fn match_at(hay: &str, needle: &str, i: usize) -> (b: bool)
    requires
        i + needle@.len() <= hay@.len(),
    ensures
        b == (hay@.subrange(i as int, i + needle@.len() as int) == needle@),
{
    let n = hay.unicode_len();
    let m = needle.unicode_len();
    let mut j: usize = 0;
    while j < m
        invariant
            n == hay@.len(),
            m == needle@.len(),
            i + m <= n,
            0 <= j <= m,
            forall|j2: int| 0 <= j2 < j ==> hay@[i + j2] == needle@[j2],
        decreases m - j,
    {
        if hay.get_char(i + j) != needle.get_char(j) {
            assert(hay@.subrange(i as int, i + needle@.len() as int) != needle@) by {
                assert(hay@.subrange(i as int, i + needle@.len() as int)[j as int] == hay@[i + j]);
            }
            return false;
        }
        j = j + 1;
    }
    assert(hay@.subrange(i as int, i + needle@.len() as int) =~= needle@);
    true
}

/// Decides whether `needle` occurs contiguously somewhere in `hay`.
pub fn str_contains(hay: &str, needle: &str) -> (b: bool)
    ensures
        b == spec_contains(hay@, needle@),
{
    let n = hay.unicode_len();
    let m = needle.unicode_len();
    if m == 0 {
        assert(hay@.subrange(0, 0 + needle@.len() as int) =~= needle@);
        return true;
    }
    if m > n {
        assert(!spec_contains(hay@, needle@));
        return false;
    }
    let mut i: usize = 0;
    while n - i >= m
        invariant
            n == hay@.len(),
            m == needle@.len(),
            1 <= m <= n,
            0 <= i <= n - m + 1,
            forall|i2: int|
                0 <= i2 < i ==> #[trigger] hay@.subrange(i2, i2 + needle@.len() as int)
                    != needle@,
        decreases n - i,
    {
        if match_at(hay, needle, i) {
            return true;
        }
        i = i + 1;
    }
    false
}

/// Whether an entry of an unpacked template archive is left out of the new
/// app: everything whose path mentions `.github` is.
pub fn skip_template_entry(path: &str) -> (b: bool)
    ensures
        b == spec_contains(path@, ".github"@),
{
    str_contains(path, ".github")
}

/// The path under which a template repository's downloadable archive lies:
/// a path that already points into an archive — it mentions
/// `archive/refs/heads` or `/zipball/` — is kept as it is, and any other
/// path gets `/zipball/main` appended.
pub fn template_zipball_path(path: &str) -> (r: String)
    ensures
        spec_contains(path@, "archive/refs/heads"@) || spec_contains(path@, "/zipball/"@) ==> r@
            == path@,
        !(spec_contains(path@, "archive/refs/heads"@) || spec_contains(path@, "/zipball/"@)) ==> r@
            == path@ + "/zipball/main"@,
{
    if str_contains(path, "archive/refs/heads") || str_contains(path, "/zipball/") {
        path.to_owned()
    } else {
        let mut out = path.to_owned();
        out.append("/zipball/main");
        out
    }
}

} // verus!
