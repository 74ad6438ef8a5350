//! The project snapshot a plan is computed from, and the plan itself.
use vstd::prelude::*;

verus! {

#[verifier::external_type_specification]
#[verifier::external_body]
pub struct ExValue(serde_json::Value);

/// The `workspaces` field of a manifest: a list of globs, or any other
/// JSON value kept as it was written.
#[derive(Debug)]
pub enum Workspaces {
    Array(Vec<String>),
    Unknown(serde_json::Value),
}

/// A parsed `package.json`. Maps are kept as lists of (key, value) pairs.
/// Keys need not be unique: every lookup reads the first pair with the key
/// (`lookup`), and a name counts as present when any pair has it (`has_key`).
#[derive(Debug)]
pub struct PackageJson {
    pub name: Option<String>,
    pub scripts: Option<Vec<(String, String)>>,
    pub engines: Option<Vec<(String, String)>>,
    pub main: Option<String>,
    pub dependencies: Option<Vec<(String, String)>>,
    pub dev_dependencies: Option<Vec<(String, String)>>,
    pub project_type: Option<String>,
    pub workspaces: Option<Workspaces>,
}

impl Default for PackageJson {
    fn default() -> (r: PackageJson)
        ensures
            r.name is None,
            r.scripts is None,
            r.engines is None,
            r.main is None,
            r.dependencies is None,
            r.dev_dependencies is None,
            r.project_type is None,
            r.workspaces is None,
    {
        PackageJson {
            name: None,
            scripts: None,
            engines: None,
            main: None,
            dependencies: None,
            dev_dependencies: None,
            project_type: None,
            workspaces: None,
        }
    }
}

/// The settings of `.yarnrc.yml` that a plan reads.
#[derive(Debug)]
pub struct Yarnrc {
    pub yarn_path: Option<String>,
}

impl Default for Yarnrc {
    fn default() -> (r: Yarnrc)
        ensures
            r.yarn_path is None,
    {
        Yarnrc { yarn_path: None }
    }
}

/// One file of the project, by its path relative to the root with `/`
/// between segments. A file named `package.json` carries its parsed form,
/// or `None` when it is not a well-formed manifest.
#[derive(Debug)]
pub struct SourceFile {
    pub path: String,
    pub contents: String,
    pub manifest: Option<PackageJson>,
}

/// A snapshot of a project tree. Files are listed in the order a walk of
/// the tree yields them.
#[derive(Debug)]
pub struct App {
    pub files: Vec<SourceFile>,
    pub yarnrc: Yarnrc,
}

/// Configuration variables given for a build, first entry wins.
#[derive(Debug)]
pub struct Environment {
    pub variables: Vec<(String, String)>,
}

/// Why a plan could not be made.
#[derive(Debug)]
pub enum NodeError {
    /// A `package.json` that had to be read is not well formed.
    MalformedManifest { path: String },
    /// A monorepo tool reported a failure.
    Orchestrator { message: String },
}

/// What one monorepo tool found in the project: whether it applies, and the
/// build and start commands it computed.
#[derive(Debug)]
pub struct DelegateReport {
    pub applicable: bool,
    pub build_cmd: Result<Option<String>, NodeError>,
    pub start_cmd: Result<Option<String>, NodeError>,
}

/// The monorepo tools, in the order they are consulted.
#[derive(Debug)]
pub struct Orchestrators {
    pub nx: DelegateReport,
    pub turborepo: DelegateReport,
}

/// Index of the first file at or after `i` whose path is `p`, or -1.
pub open spec fn find_file_from(files: Seq<SourceFile>, p: Seq<char>, i: int) -> int
    decreases files.len() - i,
{
    if 0 <= i < files.len() {
        if files[i].path@ == p {
            i
        } else {
            find_file_from(files, p, i + 1)
        }
    } else {
        -1
    }
}

pub proof fn lemma_find_file_from(files: Seq<SourceFile>, p: Seq<char>, i: int)
    requires
        0 <= i,
    ensures
        find_file_from(files, p, i) == -1 || (i <= find_file_from(files, p, i) < files.len()
            && files[find_file_from(files, p, i)].path@ == p),
    decreases files.len() - i,
{
    if 0 <= i < files.len() && files[i].path@ != p {
        lemma_find_file_from(files, p, i + 1);
    }
}

pub open spec fn file_index(app: App, p: Seq<char>) -> int {
    find_file_from(app.files@, p, 0)
}

/// The project has a file at path `p`.
pub open spec fn has_file(app: App, p: Seq<char>) -> bool {
    file_index(app, p) >= 0
}

/// Text of the file at `p`; empty when there is none.
pub open spec fn file_text(app: App, p: Seq<char>) -> Seq<char> {
    if has_file(app, p) {
        app.files@[file_index(app, p)].contents@
    } else {
        Seq::empty()
    }
}

/// Value of the first pair whose key is `k`, at or after `i`.
pub open spec fn lookup_from(pairs: Seq<(String, String)>, k: Seq<char>, i: int) -> Option<Seq<char>>
    decreases pairs.len() - i,
{
    if 0 <= i < pairs.len() {
        if pairs[i].0@ == k {
            Some(pairs[i].1@)
        } else {
            lookup_from(pairs, k, i + 1)
        }
    } else {
        None
    }
}

pub open spec fn lookup(pairs: Seq<(String, String)>, k: Seq<char>) -> Option<Seq<char>> {
    lookup_from(pairs, k, 0)
}

/// Value of the configuration variable `name` (given as `NIXPACKS_<name>`).
pub open spec fn config_variable(env: Environment, name: Seq<char>) -> Option<Seq<char>> {
    lookup(env.variables@, "NIXPACKS_"@ + name)
}

/// Value of the first pair whose key is `k`.
pub fn lookup_pairs(pairs: &Vec<(String, String)>, k: &String) -> (r: Option<String>)
    ensures
        r matches Some(v) ==> lookup(pairs@, k@) == Some(v@),
        r is None ==> lookup(pairs@, k@) is None,
{
    let mut i: usize = 0;
    while i < pairs.len()
        invariant
            i <= pairs@.len(),
            lookup(pairs@, k@) == lookup_from(pairs@, k@, i as int),
        decreases pairs@.len() - i,
    {
        if pairs[i].0 == *k {
            return Some(pairs[i].1.clone());
        }
        i = i + 1;
    }
    None
}

impl App {
    /// Position of the file at path `p`.
    pub fn find_file(&self, p: &str) -> (r: Option<usize>)
        ensures
            r matches Some(i) ==> i as int == file_index(*self, p@) && i < self.files@.len()
                && self.files@[i as int].path@ == p@,
            r is None ==> !has_file(*self, p@),
    {
        let key = String::from_str(p);
        let mut i: usize = 0;
        while i < self.files.len()
            invariant
                i <= self.files@.len(),
                key@ == p@,
                file_index(*self, p@) == find_file_from(self.files@, p@, i as int),
            decreases self.files@.len() - i,
        {
            if self.files[i].path == key {
                return Some(i);
            }
            i = i + 1;
        }
        None
    }

    /// Whether the project has a file at path `p`.
    pub fn includes_file(&self, p: &str) -> (r: bool)
        ensures
            r == has_file(*self, p@),
    {
        proof {
            lemma_find_file_from(self.files@, p@, 0);
        }
        self.find_file(p).is_some()
    }

    /// Text of the file at `p`, empty when there is none.
    pub fn read_file(&self, p: &str) -> (r: String)
        ensures
            r@ == file_text(*self, p@),
    {
        match self.find_file(p) {
            Some(i) => self.files[i].contents.clone(),
            None => String::new(),
        }
    }
}

impl Default for Environment {
    fn default() -> (r: Environment)
        ensures
            r.variables@.len() == 0,
    {
        Environment { variables: Vec::new() }
    }
}

impl DelegateReport {
    /// The report of a tool that does not apply to the project.
    pub fn not_applicable() -> (r: DelegateReport)
        ensures
            !r.applicable,
            r.build_cmd matches Ok(c) && c is None,
            r.start_cmd matches Ok(c) && c is None,
    {
        DelegateReport { applicable: false, build_cmd: Ok(None), start_cmd: Ok(None) }
    }
}

impl Default for Orchestrators {
    fn default() -> (r: Orchestrators)
        ensures
            !r.nx.applicable,
            !r.turborepo.applicable,
    {
        Orchestrators {
            nx: DelegateReport::not_applicable(),
            turborepo: DelegateReport::not_applicable(),
        }
    }
}

impl SourceFile {
    /// A file that is not a manifest.
    pub fn text(path: &str, contents: &str) -> (r: SourceFile)
        ensures
            r.path@ == path@,
            r.contents@ == contents@,
            r.manifest is None,
    {
        SourceFile {
            path: String::from_str(path),
            contents: String::from_str(contents),
            manifest: None,
        }
    }
}

impl App {
    pub fn new(files: Vec<SourceFile>, yarnrc: Yarnrc) -> (r: App)
        ensures
            r.files@ == files@,
            r.yarnrc == yarnrc,
    {
        App { files, yarnrc }
    }
}

impl Environment {
    pub fn new(variables: Vec<(String, String)>) -> (r: Environment)
        ensures
            r.variables@ == variables@,
    {
        Environment { variables }
    }

    /// Value of the variable `NIXPACKS_<name>`.
    pub fn get_config_variable(&self, name: &str) -> (r: Option<String>)
        ensures
            r matches Some(v) ==> config_variable(*self, name@) == Some(v@),
            r is None ==> config_variable(*self, name@) is None,
    {
        let mut key = String::from_str("NIXPACKS_");
        key.append(name);
        lookup_pairs(&self.variables, &key)
    }
}

} // verus!
