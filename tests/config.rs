use turbulent_ci::config::{copy_strings, join_path, Config, ProjectType, Repository, DEFAULT_WEB_PORT};
use turbulent_ci::project_detector::ProjectDetector;
use turbulent_ci::repository_manager::{RegistryError, RepositoryManager};

fn names(v: &[&str]) -> Vec<String> {
    v.iter().map(|s| s.to_string()).collect()
}

#[test]
fn default_commands_per_type() {
    assert_eq!(
        Repository::get_default_commands(&ProjectType::Rust),
        names(&["cargo check", "cargo test", "cargo clippy -- -D warnings"])
    );
    assert_eq!(
        Repository::get_default_commands(&ProjectType::Node),
        names(&["npm ci", "npm test", "npm run lint"])
    );
    assert_eq!(Repository::get_default_commands(&ProjectType::Python).len(), 3);
    assert_eq!(
        Repository::get_default_commands(&ProjectType::Generic),
        names(&["echo 'Generic project - no default commands'"])
    );
    assert_eq!(ProjectType::Python.label(), "Python");
}

#[test]
fn detects_project_types() {
    let d = ProjectDetector::new();
    assert_eq!(d.detect_project_type(&names(&["src", "Cargo.toml", "setup.py"])), ProjectType::Rust);
    assert_eq!(d.detect_project_type(&names(&["package.json", "tox.ini"])), ProjectType::Python);
    assert_eq!(d.detect_project_type(&names(&["main.py"])), ProjectType::Python);
    assert_eq!(d.detect_project_type(&names(&[".py", "package.json"])), ProjectType::Node);
    assert_eq!(d.detect_project_type(&names(&["README.md"])), ProjectType::Generic);
    assert_eq!(d.detect_project_type(&Vec::new()), ProjectType::Generic);
}

#[test]
fn config_paths() {
    assert_eq!(join_path("/home/u/.config", "turbulent-ci"), "/home/u/.config/turbulent-ci");
    assert_eq!(join_path("/x/", "y"), "/x/y");
    assert_eq!(join_path("", "y"), "y");
    let c = Config::in_directory(8080, None, "/etc/ci");
    assert_eq!(c.config_file, "/etc/ci/repositories.json");
    assert_eq!(c.web_port, 8080);
    assert_eq!(c.poll_interval, 30);
    let c = Config::in_directory(1, Some("mine.json".to_string()), "/etc/ci");
    assert_eq!(c.config_file, "mine.json");
    let c = Config::default();
    assert_eq!(c.web_port, DEFAULT_WEB_PORT);
    assert!(c.config_file.ends_with("turbulent-ci/repositories.json"));
    assert_eq!(copy_strings(&names(&["a", "b"])), names(&["a", "b"]));
}

#[test]
fn new_repository_names() {
    let r = Repository::new("/home/u/projects/widget".to_string(), None, ProjectType::Node);
    assert_eq!(r.name, "widget");
    assert_eq!(r.commands, names(&["npm ci", "npm test", "npm run lint"]));
    assert!(r.enabled);
    let s = Repository::new("/home/u/projects/widget".to_string(), Some("w".to_string()), ProjectType::Rust);
    assert_eq!(s.name, "w");
    assert_ne!(r.id, s.id);
    let t = Repository::new("/".to_string(), None, ProjectType::Generic);
    assert_eq!(t.name, "unknown");
}

#[test]
fn manager_add_and_remove() {
    let mut m = RepositoryManager::new();
    let a = m.add_repository("/p/a".to_string(), None, ProjectType::Rust).unwrap();
    assert_eq!(a.name, "a");
    match m.add_repository("/p/a".to_string(), Some("again".to_string()), ProjectType::Rust) {
        Err(RegistryError::DuplicatePath(p)) => assert_eq!(p, "/p/a"),
        Ok(_) => panic!("duplicate path accepted"),
    }
    m.add_repository("/q/b".to_string(), None, ProjectType::Generic).unwrap();
    assert_eq!(m.get_repositories().len(), 2);
    assert!(m.remove_repository("a"));
    assert!(!m.remove_repository("a"));
    let left = m.get_repositories();
    assert_eq!(left.len(), 1);
    assert_eq!(left[0].path, "/q/b");
    let m2 = RepositoryManager::from_repositories(left);
    assert_eq!(m2.get_repositories()[0].name, "b");
}
