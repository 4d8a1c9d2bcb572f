use vstd::prelude::*;
use vstd::string::*;

verus! {

/// The kinds of layout the tool can run with.
#[derive(Debug, Clone, Copy, PartialEq, Eq, Structural)]
pub enum LayoutType {
    Native,
    DotHome,
    Temp,
}

/// Why a layout could not be set up.
#[derive(Debug)]
pub enum SystemError {
    GenericError(String),
}

/// `base` with the relative path `segment` appended, as `Path::join` does on
/// Unix.
pub open spec fn join_path(base: Seq<char>, segment: Seq<char>) -> Seq<char> {
    if base.len() == 0 || base.last() == '/' {
        base + segment
    } else {
        base + "/"@ + segment
    }
}

/// Appends a relative path to a directory.
pub fn join(base: &str, segment: &str) -> (r: String)
    ensures
        r@ == join_path(base@, segment@),
{
    let mut out = base.to_owned();
    let n = base.unicode_len();
    if n > 0 && base.get_char(n - 1) != '/' {
        out.append("/");
    }
    out.append(segment);
    out
}

/// Where the tool keeps its configuration and its caches.
pub trait SystemLayout {
    spec fn configs_path(&self) -> Seq<char>;

    spec fn cache_path(&self) -> Seq<char>;

    fn configs_dir(&self) -> (r: String)
        ensures
            r@ == self.configs_path(),
    ;

    fn cache_dir(&self) -> (r: String)
        ensures
            r@ == self.cache_path(),
    ;

    fn catalog_cache_dir(&self) -> (r: String)
        ensures
            r@ == join_path(self.cache_path(), "catalogs"@),
    {
        join(self.cache_dir().as_str(), "catalogs")
    }

    fn git_cache_dir(&self) -> (r: String)
        ensures
            r@ == join_path(self.cache_path(), "git"@),
    {
        join(self.cache_dir().as_str(), "git")
    }

    fn http_cache_dir(&self) -> (r: String)
        ensures
            r@ == join_path(self.cache_path(), "http"@),
    {
        join(self.cache_dir().as_str(), "http")
    }

    fn answers_config(&self) -> (r: String)
        ensures
            r@ == join_path(self.configs_path(), "answers.yml"@),
    {
        join(self.configs_dir().as_str(), "answers.yml")
    }

    fn catalog(&self) -> (r: String)
        ensures
            r@ == join_path(self.configs_path(), "catalog.yml"@),
    {
        join(self.configs_dir().as_str(), "catalog.yml")
    }
}

/// One line of a layout's summary: `label: path`.
pub open spec fn summary_line(label: Seq<char>, path: Seq<char>) -> Seq<char> {
    label + ": "@ + path + "\n"@
}

fn push_line(out: &mut String, label: &str, path: &str)
    ensures
        final(out)@ == old(out)@ + summary_line(label@, path@),
{
    out.append(label);
    out.append(": ");
    out.append(path);
    out.append("\n");
}

/// A summary of where a layout keeps things, one `label: path` line each.
pub fn describe_layout<L: SystemLayout>(layout: &L) -> (r: String)
    ensures
        r@ == summary_line("Configs Directory"@, layout.configs_path()) + summary_line(
            "User Answers"@,
            join_path(layout.configs_path(), "answers.yml"@),
        ) + summary_line("User Catalog"@, join_path(layout.configs_path(), "catalog.yml"@))
            + summary_line("Git Cache"@, join_path(layout.cache_path(), "git"@)) + summary_line(
            "Catalog Cache"@,
            join_path(layout.cache_path(), "catalogs"@),
        ),
{
    let mut out = String::new();
    push_line(&mut out, "Configs Directory", layout.configs_dir().as_str());
    push_line(&mut out, "User Answers", layout.answers_config().as_str());
    push_line(&mut out, "User Catalog", layout.catalog().as_str());
    push_line(&mut out, "Git Cache", layout.git_cache_dir().as_str());
    push_line(&mut out, "Catalog Cache", layout.catalog_cache_dir().as_str());
    assert(out@ =~= summary_line("Configs Directory"@, layout.configs_path()) + summary_line(
            "User Answers"@,
            join_path(layout.configs_path(), "answers.yml"@),
        ) + summary_line("User Catalog"@, join_path(layout.configs_path(), "catalog.yml"@))
            + summary_line("Git Cache"@, join_path(layout.cache_path(), "git"@)) + summary_line(
            "Catalog Cache"@,
            join_path(layout.cache_path(), "catalogs"@),
        ));
    out
}

/// A layout with everything under one directory: `etc` for configuration, `var`
/// for caches.
#[derive(Debug)]
pub struct RootedSystemLayout {
    directory: String,
}

impl RootedSystemLayout {
    pub closed spec fn root(&self) -> Seq<char> {
        self.directory@
    }

    /// A layout rooted at `directory`.
    pub fn new(directory: &str) -> (r: RootedSystemLayout)
        ensures
            r.root() == directory@,
            r.configs_path() == join_path(directory@, "etc"@),
            r.cache_path() == join_path(directory@, "var"@),
    {
        RootedSystemLayout { directory: directory.to_owned() }
    }

    /// The rename that moves an answers file written as `answers.yaml` to
    /// `answers.yml`: due where the second does not exist and the first does.
    pub fn answers_migration(&self, yml_exists: bool, yaml_exists: bool) -> (r: Option<
        (String, String),
    >)
        ensures
            !yml_exists && yaml_exists ==> (r matches Some((from, to)) && from@ == join_path(
                self.configs_path(),
                "answers.yaml"@,
            ) && to@ == join_path(self.configs_path(), "answers.yml"@)),
            yml_exists || !yaml_exists ==> r is None,
    {
        if !yml_exists && yaml_exists {
            let configs = self.configs_dir();
            Some((join(configs.as_str(), "answers.yaml"), self.answers_config()))
        } else {
            None
        }
    }
}

impl SystemLayout for RootedSystemLayout {
    closed spec fn configs_path(&self) -> Seq<char> {
        join_path(self.directory@, "etc"@)
    }

    closed spec fn cache_path(&self) -> Seq<char> {
        join_path(self.directory@, "var"@)
    }

    fn configs_dir(&self) -> (r: String) {
        join(self.directory.as_str(), "etc")
    }

    fn cache_dir(&self) -> (r: String) {
        join(self.directory.as_str(), "var")
    }
}

/// A layout in the system's own places for the application's configuration
/// and caches.
#[derive(Debug)]
pub struct NativeSystemLayout {
    configs: String,
    cache: String,
}

/// Relies on `directories::ProjectDirs::from` and its `config_dir` and
/// `cache_dir`: the system's directories for an application, where a home
/// directory is known. They depend on the environment, so nothing is stated of
/// them.
#[verifier::external_body]
fn project_dirs(application: &str) -> (r: Option<(String, String)>) {
    directories::ProjectDirs::from("", "", application).map(
        |p| (p.config_dir().to_string_lossy().into_owned(), p.cache_dir().to_string_lossy().into_owned()),
    )
}

/// Relies on `directories::UserDirs::new` and `home_dir`: the user's home
/// directory, where one is known. It depends on the environment, so nothing is
/// stated of it.
#[verifier::external_body]
fn home_dir() -> (r: Option<String>) {
    directories::UserDirs::new().map(|u| u.home_dir().to_string_lossy().into_owned())
}

pub open spec fn no_home_message() -> Seq<char> {
    "No home directory detected for the current user."@
}

fn no_home() -> (r: SystemError)
    ensures
        r matches SystemError::GenericError(m) && m@ == no_home_message(),
{
    SystemError::GenericError("No home directory detected for the current user.".to_owned())
}

impl NativeSystemLayout {
    /// The system's directories for this tool, or an error where the user has no
    /// home directory.
    pub fn new() -> (r: Result<NativeSystemLayout, SystemError>)
        ensures
            r matches Err(SystemError::GenericError(m)) ==> m@ == no_home_message(),
    {
        NativeSystemLayout::from_dirs(project_dirs("archetect"))
    }

    /// The layout of the given configuration and cache directories, or an error
    /// where there are none.
    pub fn from_dirs(dirs: Option<(String, String)>) -> (r: Result<NativeSystemLayout, SystemError>)
        ensures
            match dirs {
                Some((c, k)) => r matches Ok(l) && l.configs_path() == c@ && l.cache_path() == k@,
                None => r matches Err(SystemError::GenericError(m)) && m@ == no_home_message(),
            },
    {
        match dirs {
            Some((configs, cache)) => Ok(NativeSystemLayout { configs, cache }),
            None => Err(no_home()),
        }
    }
}

impl SystemLayout for NativeSystemLayout {
    closed spec fn configs_path(&self) -> Seq<char> {
        self.configs@
    }

    closed spec fn cache_path(&self) -> Seq<char> {
        self.cache@
    }

    fn configs_dir(&self) -> (r: String) {
        self.configs.clone()
    }

    fn cache_dir(&self) -> (r: String) {
        self.cache.clone()
    }
}

/// The layout rooted at `.archetect` in the given home directory, or an error
/// where there is none.
pub fn dot_home_in(home: Option<String>) -> (r: Result<RootedSystemLayout, SystemError>)
    ensures
        match home {
            Some(h) => r matches Ok(l) && l.root() == join_path(h@, ".archetect"@),
            None => r matches Err(SystemError::GenericError(m)) && m@ == no_home_message(),
        },
{
    match home {
        Some(h) => Ok(RootedSystemLayout::new(join(h.as_str(), ".archetect").as_str())),
        None => Err(no_home()),
    }
}

/// The layout rooted at `.archetect` in the user's home directory.
pub fn dot_home_layout() -> (r: Result<RootedSystemLayout, SystemError>)
    ensures
        r matches Err(SystemError::GenericError(m)) ==> m@ == no_home_message(),
{
    dot_home_in(home_dir())
}

} // verus!
