use vstd::prelude::*;
use vstd::string::*;
use crate::config::{ProjectType, strings_view};

verus! {

/// A file whose presence marks a Python project.
pub open spec fn is_python_marker(n: Seq<char>) -> bool {
    n == "requirements.txt"@ || n == "setup.py"@ || n == "pyproject.toml"@ || n == "Pipfile"@
        || n == "poetry.lock"@ || n == "pytest.ini"@ || n == "tox.ini"@
}

/// A file name whose extension is `py`: it ends in `.py` and has a non-empty stem.
pub open spec fn is_python_source(n: Seq<char>) -> bool {
    n.len() >= 4 && n.subrange(n.len() - 3, n.len() as int) == ".py"@
}

/// Some entry of the directory listing indicates Python.
pub open spec fn python_indicated(names: Seq<Seq<char>>) -> bool {
    exists|i: int| 0 <= i < names.len() && (is_python_marker(#[trigger] names[i]) || is_python_source(names[i]))
}

/// The project type of a directory whose entries have the given names.
pub open spec fn project_type_of(names: Seq<Seq<char>>) -> ProjectType {
    if names.contains("Cargo.toml"@) {
        ProjectType::Rust
    } else if python_indicated(names) {
        ProjectType::Python
    } else if names.contains("package.json"@) {
        ProjectType::Node
    } else {
        ProjectType::Generic
    }
}

fn is_named(s: &String, lit: &str) -> (r: bool)
    ensures
        r == (s@ == lit@),
{
    let t = String::from_str(lit);
    *s == t
}

fn has_py_extension(s: &String) -> (r: bool)
    ensures
        r == is_python_source(s@),
{
    let t = s.as_str();
    let n = t.unicode_len();
    if n < 4 {
        return false;
    }
    let a = t.get_char(n - 3);
    let b = t.get_char(n - 2);
    let c = t.get_char(n - 1);
    proof {
        reveal_strlit(".py");
        if is_python_source(s@) {
            let tail = s@.subrange(n - 3, n as int);
            assert(tail[0] == a && tail[1] == b && tail[2] == c);
        }
    }
    let r = a == '.' && b == 'p' && c == 'y';
    proof {
        if r {
            assert(s@.subrange(n - 3, n as int) =~= ".py"@);
        }
    }
    r
}

fn contains_named(entries: &Vec<String>, lit: &str) -> (r: bool)
    ensures
        r == strings_view(entries@).contains(lit@),
{
    let mut i: usize = 0;
    while i < entries.len()
        invariant
            i <= entries@.len(),
            forall|j: int| 0 <= j < i ==> entries@[j]@ != lit@,
        decreases entries@.len() - i,
    {
        if is_named(&entries[i], lit) {
            assert(strings_view(entries@)[i as int] == lit@);
            return true;
        }
        i = i + 1;
    }
    proof {
        if strings_view(entries@).contains(lit@) {
            let k = choose|k: int| 0 <= k < entries@.len() && strings_view(entries@)[k] == lit@;
            assert(entries@[k]@ == lit@);
        }
    }
    false
}

/// Decides a repository's project type from the names of its top-level entries.
pub struct ProjectDetector;

impl ProjectDetector {
    pub fn new() -> Self {
        ProjectDetector
    }

    /// The project type of a directory holding the given entry names: Rust where a
    /// `Cargo.toml` is present, else Python where a Python marker file or a `.py` file is,
    /// else Node where a `package.json` is, else Generic.
    pub fn detect_project_type(&self, entries: &Vec<String>) -> (r: ProjectType)
        ensures
            r == project_type_of(strings_view(entries@)),
    {
        if contains_named(entries, "Cargo.toml") {
            return ProjectType::Rust;
        }
        if self.has_python_indicators(entries) {
            return ProjectType::Python;
        }
        if contains_named(entries, "package.json") {
            return ProjectType::Node;
        }
        ProjectType::Generic
    }

    fn has_python_indicators(&self, entries: &Vec<String>) -> (r: bool)
        ensures
            r == python_indicated(strings_view(entries@)),
    {
        let mut i: usize = 0;
        while i < entries.len()
            invariant
                i <= entries@.len(),
                forall|j: int| 0 <= j < i ==> !is_python_marker(#[trigger] entries@[j]@) && !is_python_source(entries@[j]@),
            decreases entries@.len() - i,
        {
            let e = &entries[i];
            let marker = is_named(e, "requirements.txt") || is_named(e, "setup.py") || is_named(
                e,
                "pyproject.toml",
            ) || is_named(e, "Pipfile") || is_named(e, "poetry.lock") || is_named(e, "pytest.ini")
                || is_named(e, "tox.ini");
            if marker || has_py_extension(e) {
                assert(strings_view(entries@)[i as int] == e@);
                return true;
            }
            i = i + 1;
        }
        proof {
            if python_indicated(strings_view(entries@)) {
                let k = choose|k: int|
                    0 <= k < entries@.len() && (is_python_marker(#[trigger] strings_view(entries@)[k])
                        || is_python_source(strings_view(entries@)[k]));
                assert(strings_view(entries@)[k] == entries@[k]@);
            }
        }
        false
    }
}

} // verus!
