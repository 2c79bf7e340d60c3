use vstd::prelude::*;
use vstd::string::*;

verus! {

/// The kind of project a repository holds; it selects the default build steps.
#[derive(Debug, Clone, Copy, PartialEq, Eq, Structural)]
pub enum ProjectType {
    Rust,
    Python,
    Node,
    Generic,
}

/// The textual label of a project type, as shown to viewers.
pub open spec fn project_label(t: ProjectType) -> Seq<char> {
    match t {
        ProjectType::Rust => "Rust"@,
        ProjectType::Python => "Python"@,
        ProjectType::Node => "Node"@,
        ProjectType::Generic => "Generic"@,
    }
}

/// The build steps that a repository of the given kind runs unless configured otherwise.
pub open spec fn default_commands_of(t: ProjectType) -> Seq<Seq<char>> {
    match t {
        ProjectType::Rust => seq!["cargo check"@, "cargo test"@, "cargo clippy -- -D warnings"@],
        ProjectType::Python => seq![
            "python -m py_compile $(find . -name '*.py' | head -10)"@,
            "python -m pytest"@,
            "python -m flake8 --max-line-length=88"@,
        ],
        ProjectType::Node => seq!["npm ci"@, "npm test"@, "npm run lint"@],
        ProjectType::Generic => seq!["echo 'Generic project - no default commands'"@],
    }
}

/// The character sequences held by a sequence of strings.
pub open spec fn strings_view(v: Seq<String>) -> Seq<Seq<char>> {
    v.map_values(|s: String| s@)
}

impl ProjectType {
    /// The label of this project type.
    pub fn label(&self) -> (r: String)
        ensures
            r@ == project_label(*self),
    {
        match self {
            ProjectType::Rust => String::from_str("Rust"),
            ProjectType::Python => String::from_str("Python"),
            ProjectType::Node => String::from_str("Node"),
            ProjectType::Generic => String::from_str("Generic"),
        }
    }
}

/// A repository to monitor, as configured; read-only to the monitoring core.
#[derive(Debug)]
pub struct Repository {
    pub id: u128,
    pub name: String,
    pub path: String,
    pub project_type: ProjectType,
    /// The build steps, run in this order.
    pub commands: Vec<String>,
    pub enabled: bool,
}

impl Clone for Repository {
    fn clone(&self) -> (r: Self)
        ensures
            r.id == self.id,
            r.name == self.name,
            r.path == self.path,
            r.project_type == self.project_type,
            r.commands@ == self.commands@,
            r.enabled == self.enabled,
    {
        Repository {
            id: self.id,
            name: self.name.clone(),
            path: self.path.clone(),
            project_type: self.project_type,
            commands: copy_strings(&self.commands),
            enabled: self.enabled,
        }
    }
}

/// A copy of a list of strings, element by element.
pub fn copy_strings(v: &Vec<String>) -> (r: Vec<String>)
    ensures
        r@ == v@,
{
    let mut r: Vec<String> = Vec::new();
    let mut i: usize = 0;
    while i < v.len()
        invariant
            i <= v@.len(),
            r@ == v@.subrange(0, i as int),
        decreases v@.len() - i,
    {
        r.push(v[i].clone());
        i = i + 1;
    }
    assert(r@ =~= v@);
    r
}

/// TCP port the status interface listens on unless another is given.
pub const DEFAULT_WEB_PORT: u16 = 3030;

/// Seconds between two polls of a repository.
pub const POLL_INTERVAL_SECS: u64 = 30;

/// `name` inside directory `base`.
pub open spec fn join_path_spec(base: Seq<char>, name: Seq<char>) -> Seq<char> {
    if base.len() == 0 {
        name
    } else if base.last() == '/' {
        base + name
    } else {
        base + "/"@ + name
    }
}

/// The directory this program keeps its files in, inside the user's configuration
/// directory `d`, or inside the working directory where that is unknown.
pub open spec fn app_dir_of(d: Option<Seq<char>>) -> Seq<char> {
    let base = match d {
        Some(x) => x,
        None => "."@,
    };
    join_path_spec(base, "turbulent-ci"@)
}

/// The repository list's file inside the directory `dir`.
pub open spec fn config_file_in(dir: Seq<char>) -> Seq<char> {
    join_path_spec(dir, "repositories.json"@)
}

/// The name given to a repository at `path` unless one is chosen: the last component of
/// the path, or `unknown`.
pub open spec fn default_name_of(path: Seq<char>) -> Seq<char> {
    match file_name_of(path) {
        Some(n) => n,
        None => "unknown"@,
    }
}

/// The last component of a path, as `std::path::Path::file_name` gives it.
pub uninterp spec fn file_name_of(path: Seq<char>) -> Option<Seq<char>>;

/// Relies on `std::path::Path::file_name`: the final component of the path, if it has one;
/// it is a function of the path's text.
#[verifier::external_body]
fn file_name(path: &str) -> (r: Option<String>)
    ensures
        match r {
            Some(n) => file_name_of(path@) == Some(n@),
            None => file_name_of(path@) is None,
        },
{
    match std::path::Path::new(path).file_name() {
        Some(n) => Some(n.to_string_lossy().into_owned()),
        None => None,
    }
}

/// Relies on `dirs::config_dir`: the user's configuration directory, which depends on the
/// platform and the environment, so nothing is stated of it.
#[verifier::external_body]
fn user_config_dir() -> (r: Option<String>) {
    match dirs::config_dir() {
        Some(p) => Some(p.to_string_lossy().into_owned()),
        None => None,
    }
}

/// Relies on `uuid::Uuid::new_v4`: a random identifier, so nothing is stated of it.
#[verifier::external_body]
fn fresh_id() -> (r: u128) {
    uuid::Uuid::new_v4().as_u128()
}

/// `name` inside directory `base`.
pub fn join_path(base: &str, name: &str) -> (r: String)
    ensures
        r@ == join_path_spec(base@, name@),
{
    let n = base.unicode_len();
    if n == 0 {
        return String::from_str(name);
    }
    let mut r = String::from_str(base);
    if base.get_char(n - 1) != '/' {
        r.append("/");
    }
    r.append(name);
    r
}

/// The directory this program keeps its files in: `turbulent-ci` inside the user's
/// configuration directory, or inside the working directory where that is unknown.
pub fn default_config_dir() -> (r: String)
    ensures
        exists|d: Option<Seq<char>>| r@ == app_dir_of(d),
{
    let d = user_config_dir();
    let r = match &d {
        Some(x) => join_path(x.as_str(), "turbulent-ci"),
        None => join_path(".", "turbulent-ci"),
    };
    let ghost dv: Option<Seq<char>> = match d {
        Some(x) => Some(x@),
        None => None,
    };
    assert(r@ == app_dir_of(dv));
    r
}

/// Settings of the daemon.
#[derive(Debug, Clone)]
pub struct Config {
    pub web_port: u16,
    /// Where the list of repositories is kept.
    pub config_file: String,
    /// Seconds between two polls of a repository.
    pub poll_interval: u64,
}

impl Config {
    /// Settings whose repository list, unless one is given, lies in directory `dir`.
    pub fn in_directory(port: u16, config_file: Option<String>, dir: &str) -> (r: Self)
        ensures
            r.web_port == port,
            r.poll_interval == POLL_INTERVAL_SECS,
            match config_file {
                Some(f) => r.config_file == f,
                None => r.config_file@ == config_file_in(dir@),
            },
    {
        let config_file = match config_file {
            Some(f) => f,
            None => join_path(dir, "repositories.json"),
        };
        Config { web_port: port, config_file, poll_interval: POLL_INTERVAL_SECS }
    }

    /// Settings whose repository list, unless one is given, lies in the default directory.
    pub fn new(port: u16, config_file: Option<String>) -> (r: Self)
        ensures
            r.web_port == port,
            r.poll_interval == POLL_INTERVAL_SECS,
            match config_file {
                Some(f) => r.config_file == f,
                None => exists|d: Option<Seq<char>>| r.config_file@ == config_file_in(app_dir_of(d)),
            },
    {
        let dir = default_config_dir();
        Self::in_directory(port, config_file, dir.as_str())
    }

    pub fn default() -> (r: Self)
        ensures
            r.web_port == DEFAULT_WEB_PORT,
            r.poll_interval == POLL_INTERVAL_SECS,
            exists|d: Option<Seq<char>>| r.config_file@ == config_file_in(app_dir_of(d)),
    {
        Self::new(DEFAULT_WEB_PORT, None)
    }
}

impl Repository {
    /// A new repository configuration at `path`, of the given kind, with a fresh random id,
    /// its kind's default steps, enabled, and named `name` or else after its path.
    pub fn new(path: String, name: Option<String>, project_type: ProjectType) -> (r: Self)
        ensures
            r.path == path,
            r.project_type == project_type,
            strings_view(r.commands@) == default_commands_of(project_type),
            r.enabled,
            match name {
                Some(n) => r.name == n,
                None => r.name@ == default_name_of(path@),
            },
    {
        let repo_name = match name {
            Some(n) => n,
            None => match file_name(path.as_str()) {
                Some(n) => n,
                None => String::from_str("unknown"),
            },
        };
        let commands = Self::get_default_commands(&project_type);
        Repository { id: fresh_id(), name: repo_name, path, project_type, commands, enabled: true }
    }

    /// The default build steps of a project type.
    pub fn get_default_commands(project_type: &ProjectType) -> (r: Vec<String>)
        ensures
            strings_view(r@) == default_commands_of(*project_type),
    {
        let mut v: Vec<String> = Vec::new();
        match project_type {
            ProjectType::Rust => {
                v.push(String::from_str("cargo check"));
                v.push(String::from_str("cargo test"));
                v.push(String::from_str("cargo clippy -- -D warnings"));
            },
            ProjectType::Python => {
                v.push(String::from_str("python -m py_compile $(find . -name '*.py' | head -10)"));
                v.push(String::from_str("python -m pytest"));
                v.push(String::from_str("python -m flake8 --max-line-length=88"));
            },
            ProjectType::Node => {
                v.push(String::from_str("npm ci"));
                v.push(String::from_str("npm test"));
                v.push(String::from_str("npm run lint"));
            },
            ProjectType::Generic => {
                v.push(String::from_str("echo 'Generic project - no default commands'"));
            },
        }
        assert(strings_view(v@) =~= default_commands_of(*project_type));
        v
    }
}

} // verus!
