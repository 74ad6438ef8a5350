//! The Node.js provider: detection, package manager, commands and the plan.
use vstd::prelude::*;

use crate::model::{
    config_variable, file_index, file_text, has_file, lookup, lookup_pairs, App, Environment,
    NodeError, Orchestrators, PackageJson, SourceFile,
};
use crate::plan::{BuildPlan, Phase, Pkg, StartPhase};
use crate::text::{
    chars_occur_at, chars_of, contains_seq, is_ascii_digit, occurs_at, starts_with_seq,
    str_contains, str_starts_with, trim, trimmed,
};
use crate::version::{default_pkg_name, pkg_for_constraint, pkg_name_for_constraint};

verus! {

/// Overlay the package-manager packages are taken from.
pub const NODE_OVERLAY: &'static str =
    "https://github.com/railwayapp/nix-npm-overlay/archive/main.tar.gz";

/// The package manager that owns a project.
#[derive(Debug, Clone, Copy, PartialEq, Eq, Structural)]
pub enum PackageManager {
    Npm,
    Yarn,
    Pnpm,
    Bun,
}

/// The provider for Node.js projects.
#[derive(Debug)]
pub struct NodeProvider {}

/// First lockfile found wins: pnpm, then yarn, then bun; npm otherwise.
pub open spec fn package_manager_of(app: App) -> PackageManager {
    if has_file(app, "pnpm-lock.yaml"@) {
        PackageManager::Pnpm
    } else if has_file(app, "yarn.lock"@) {
        PackageManager::Yarn
    } else if has_file(app, "bun.lockb"@) {
        PackageManager::Bun
    } else {
        PackageManager::Npm
    }
}

pub open spec fn pm_name(pm: PackageManager) -> Seq<char> {
    match pm {
        PackageManager::Npm => "npm"@,
        PackageManager::Yarn => "yarn"@,
        PackageManager::Pnpm => "pnpm"@,
        PackageManager::Bun => "bun"@,
    }
}

pub open spec fn dlx_name(pm: PackageManager) -> Seq<char> {
    match pm {
        PackageManager::Pnpm => "pnpx"@,
        PackageManager::Yarn => "yarn"@,
        _ => "npx"@,
    }
}

pub open spec fn cache_dir_of(pm: PackageManager) -> Seq<char> {
    match pm {
        PackageManager::Yarn => "/usr/local/share/.cache/yarn/v6"@,
        PackageManager::Pnpm => "/root/.cache/pnpm"@,
        PackageManager::Bun => "/root/.bun"@,
        PackageManager::Npm => "/root/.npm"@,
    }
}

/// Binary that runs a script: bun's own runtime under bun, node otherwise.
pub open spec fn executor_of(pm: PackageManager) -> Seq<char> {
    if pm == PackageManager::Bun {
        "bun"@
    } else {
        "node"@
    }
}

/// The install command: `None` without a root manifest.
pub open spec fn install_command_of(app: App) -> Option<Seq<char>> {
    if !has_file(app, "package.json"@) {
        None
    } else {
        let pm = package_manager_of(app);
        Some(
            if pm == PackageManager::Pnpm {
                "pnpm i --frozen-lockfile"@
            } else if pm == PackageManager::Yarn {
                if has_file(app, ".yarnrc.yml"@) {
                    match app.yarnrc.yarn_path {
                        Some(p) => "yarn set version ./"@ + p@ + " && yarn install --check-cache"@,
                        None => "yarn set version berry && yarn install --check-cache"@,
                    }
                } else {
                    "yarn install --frozen-lockfile"@
                }
            } else if pm == PackageManager::Bun {
                "bun i --no-save"@
            } else if has_file(app, "package-lock.json"@) {
                "npm ci"@
            } else {
                "npm i"@
            },
        )
    }
}

/// The root manifest, when present and well formed.
pub open spec fn root_manifest(app: App) -> Option<PackageJson> {
    if has_file(app, "package.json"@) {
        app.files@[file_index(app, "package.json"@)].manifest
    } else {
        None
    }
}

/// The root manifest is present but not well formed.
pub open spec fn root_manifest_malformed(app: App) -> bool {
    has_file(app, "package.json"@) && root_manifest(app) is None
}

pub open spec fn has_key(pairs: Seq<(String, String)>, k: Seq<char>) -> bool {
    exists|i: int| 0 <= i < pairs.len() && pairs[i].0@ == k
}

pub open spec fn manifest_has_script(pj: PackageJson, name: Seq<char>) -> bool {
    match pj.scripts {
        Some(s) => has_key(s@, name),
        None => false,
    }
}

/// The root manifest declares a script called `name`.
pub open spec fn app_has_script(app: App, name: Seq<char>) -> bool {
    match root_manifest(app) {
        Some(pj) => manifest_has_script(pj, name),
        None => false,
    }
}

/// Whether some pair has key `k`.
pub fn pairs_have_key(pairs: &Vec<(String, String)>, k: &str) -> (r: bool)
    ensures
        r == has_key(pairs@, k@),
{
    let key = String::from_str(k);
    let mut i: usize = 0;
    while i < pairs.len()
        invariant
            i <= pairs@.len(),
            key@ == k@,
            forall|j: int| 0 <= j < i ==> pairs@[j].0@ != k@,
        decreases pairs@.len() - i,
    {
        if pairs[i].0 == key {
            return true;
        }
        i = i + 1;
    }
    false
}

/// Concatenation of `a` and `b`.
pub fn join(a: &str, b: &str) -> (r: String)
    ensures
        r@ == a@ + b@,
{
    let mut r = String::from_str(a);
    r.append(b);
    r
}

/// The command a monorepo tool offers: only when it applies and computed one.
pub open spec fn delegate_cmd(applicable: bool, r: Result<Option<String>, NodeError>) -> Option<Seq<char>> {
    if applicable {
        match r {
            Ok(Some(c)) => Some(c@),
            _ => None,
        }
    } else {
        None
    }
}

/// Build command: nx, then turborepo, then the manifest's `build` script.
pub open spec fn build_command_of(app: App, o: Orchestrators) -> Option<Seq<char>> {
    if delegate_cmd(o.nx.applicable, o.nx.build_cmd) is Some {
        delegate_cmd(o.nx.applicable, o.nx.build_cmd)
    } else if delegate_cmd(o.turborepo.applicable, o.turborepo.build_cmd) is Some {
        delegate_cmd(o.turborepo.applicable, o.turborepo.build_cmd)
    } else if app_has_script(app, "build"@) {
        Some(pm_name(package_manager_of(app)) + " run build"@)
    } else {
        None
    }
}

/// `main` of the root manifest.
pub open spec fn root_main(app: App) -> Option<Seq<char>> {
    match root_manifest(app) {
        Some(pj) => match pj.main {
            Some(m) => Some(m@),
            None => None,
        },
        None => None,
    }
}

/// Start command: nx, turborepo, the `start` script, the manifest's `main`
/// file, `index.js`, and under bun `index.ts`.
pub open spec fn start_command_of(app: App, o: Orchestrators) -> Option<Seq<char>> {
    let pm = package_manager_of(app);
    if delegate_cmd(o.nx.applicable, o.nx.start_cmd) is Some {
        delegate_cmd(o.nx.applicable, o.nx.start_cmd)
    } else if delegate_cmd(o.turborepo.applicable, o.turborepo.start_cmd) is Some {
        delegate_cmd(o.turborepo.applicable, o.turborepo.start_cmd)
    } else if app_has_script(app, "start"@) {
        Some(pm_name(pm) + " run start"@)
    } else if root_main(app) is Some && has_file(app, root_main(app)->0) {
        Some(executor_of(pm) + " "@ + root_main(app)->0)
    } else if has_file(app, "index.js"@) {
        Some(executor_of(pm) + " index.js"@)
    } else if has_file(app, "index.ts"@) && pm == PackageManager::Bun {
        Some("bun index.ts"@)
    } else {
        None
    }
}

/// nx failed while computing the start command.
pub open spec fn start_command_fails(o: Orchestrators) -> bool {
    o.nx.applicable && o.nx.start_cmd is Err
}

pub open spec fn same_error(a: NodeError, b: NodeError) -> bool {
    match (a, b) {
        (NodeError::MalformedManifest { path: p }, NodeError::MalformedManifest { path: q }) => p@
            == q@,
        (NodeError::Orchestrator { message: m }, NodeError::Orchestrator { message: n }) => m@
            == n@,
        _ => false,
    }
}

impl NodeError {
    /// An error equal to this one.
    pub fn duplicate(&self) -> (r: NodeError)
        ensures
            same_error(r, *self),
    {
        match self {
            NodeError::MalformedManifest { path } => NodeError::MalformedManifest {
                path: path.clone(),
            },
            NodeError::Orchestrator { message } => NodeError::Orchestrator {
                message: message.clone(),
            },
        }
    }
}

/// The command a monorepo tool offers, if it applies and computed one.
fn offered_command(applicable: bool, r: &Result<Option<String>, NodeError>) -> (c: Option<String>)
    ensures
        c matches Some(x) ==> delegate_cmd(applicable, *r) == Some(x@),
        c is None ==> delegate_cmd(applicable, *r) is None,
{
    if applicable {
        match r {
            Ok(Some(c)) => Some(c.clone()),
            _ => None,
        }
    } else {
        None
    }
}

pub open spec fn ends_with_seq(h: Seq<char>, n: Seq<char>) -> bool {
    n.len() <= h.len() && occurs_at(h, n, h.len() - n.len())
}

/// A path a `**/package.json` search finds.
pub open spec fn is_manifest_path(p: Seq<char>) -> bool {
    p == "package.json"@ || ends_with_seq(p, "/package.json"@)
}

/// A manifest of the project itself: not one inside an install directory.
pub open spec fn is_scanned(f: SourceFile) -> bool {
    is_manifest_path(f.path@) && !contains_seq(f.path@, "node_modules"@)
}

/// Some scanned manifest is not well formed.
pub open spec fn scan_fails(files: Seq<SourceFile>) -> bool {
    exists|i: int| 0 <= i < files.len() && is_scanned(files[i]) && files[i].manifest is None
}

/// `pj` lists `k` among its dependencies or dev dependencies.
pub open spec fn declares_dep(pj: PackageJson, k: Seq<char>) -> bool {
    (match pj.dependencies {
        Some(d) => has_key(d@, k),
        None => false,
    }) || (match pj.dev_dependencies {
        Some(d) => has_key(d@, k),
        None => false,
    })
}

/// Some scanned manifest among the first `n` files declares `k`.
pub open spec fn declared_before(files: Seq<SourceFile>, n: int, k: Seq<char>) -> bool {
    exists|i: int|
        0 <= i < n && is_scanned(#[trigger] files[i]) && (files[i].manifest matches Some(pj)
            && declares_dep(pj, k))
}

/// Some manifest of the project declares `k`.
pub open spec fn app_declares_dep(app: App, k: Seq<char>) -> bool {
    declared_before(app.files@, app.files@.len() as int, k)
}

pub open spec fn in_strs(v: Seq<String>, k: Seq<char>) -> bool {
    exists|i: int| 0 <= i < v.len() && v[i]@ == k
}

pub open spec fn distinct_strs(v: Seq<String>) -> bool {
    forall|i: int, j: int| 0 <= i < j < v.len() ==> v[i]@ != v[j]@
}

pub open spec fn strs(v: Seq<String>) -> Seq<Seq<char>> {
    v.map_values(|s: String| s@)
}

/// Directory of a manifest, relative to the root; empty for the root one.
pub open spec fn manifest_dir(p: Seq<char>) -> Seq<char> {
    if p == "package.json"@ {
        Seq::empty()
    } else {
        p.subrange(0, p.len() - "/package.json"@.len())
    }
}

/// Directories of the scanned manifests among the first `n` files that
/// depend on `next`, in order.
pub open spec fn next_dirs_upto(files: Seq<SourceFile>, n: int) -> Seq<Seq<char>>
    decreases n,
{
    if n <= 0 {
        Seq::empty()
    } else {
        let prev = next_dirs_upto(files, n - 1);
        let f = files[n - 1];
        if is_scanned(f) && (f.manifest matches Some(pj) && declares_dep(pj, "next"@)) {
            prev.push(manifest_dir(f.path@))
        } else {
            prev
        }
    }
}

pub open spec fn next_dirs_of(app: App) -> Seq<Seq<char>> {
    next_dirs_upto(app.files@, app.files@.len() as int)
}

/// The files whose text is searched for a dependency name.
pub open spec fn dependency_files() -> Seq<Seq<char>> {
    seq!["package.json"@, "package-lock.json"@, "yarn.lock"@, "pnpm-lock.yaml"@]
}

/// Some manifest or lockfile at the root mentions `dep`.
pub open spec fn mentions_dependency(app: App, dep: Seq<char>) -> bool {
    exists|i: int|
        0 <= i < dependency_files().len() && contains_seq(
            file_text(app, #[trigger] dependency_files()[i]),
            dep,
        )
}

/// Whether `v` holds a string equal to `k`.
pub fn strs_contain(v: &Vec<String>, k: &String) -> (r: bool)
    ensures
        r == in_strs(v@, k@),
{
    let mut i: usize = 0;
    while i < v.len()
        invariant
            i <= v@.len(),
            forall|j: int| 0 <= j < i ==> v@[j]@ != k@,
        decreases v@.len() - i,
    {
        if v[i] == *k {
            return true;
        }
        i = i + 1;
    }
    false
}

/// Adds the keys of `pairs` that `v` does not hold yet.
fn add_keys(v: &mut Vec<String>, pairs: &Vec<(String, String)>)
    requires
        distinct_strs(old(v)@),
    ensures
        distinct_strs(final(v)@),
        forall|k: Seq<char>| #[trigger]
            in_strs(final(v)@, k) <==> in_strs(old(v)@, k) || has_key(pairs@, k),
{
    let mut i: usize = 0;
    while i < pairs.len()
        invariant
            i <= pairs@.len(),
            distinct_strs(v@),
            forall|k: Seq<char>| #[trigger]
                in_strs(v@, k) <==> in_strs(old(v)@, k) || exists|j: int|
                    0 <= j < i && pairs@[j].0@ == k,
        decreases pairs@.len() - i,
    {
        let ghost before = v@;
        if !strs_contain(v, &pairs[i].0) {
            v.push(pairs[i].0.clone());
            proof {
                assert forall|k: Seq<char>| #[trigger] in_strs(v@, k) <==> in_strs(before, k) || k
                    == pairs@[i as int].0@ by {
                    if in_strs(before, k) {
                        let w = choose|w: int| 0 <= w < before.len() && before[w]@ == k;
                        assert(v@[w] == before[w]);
                    }
                    if k == pairs@[i as int].0@ {
                        assert(v@[before.len() as int]@ == k);
                    }
                }
            }
        }
        i = i + 1;
    }
}

/// Adds the dependency names of `pj` that `v` does not hold yet.
fn add_manifest_deps(v: &mut Vec<String>, pj: &PackageJson)
    requires
        distinct_strs(old(v)@),
    ensures
        distinct_strs(final(v)@),
        forall|k: Seq<char>| #[trigger]
            in_strs(final(v)@, k) <==> in_strs(old(v)@, k) || declares_dep(*pj, k),
{
    if let Some(d) = &pj.dependencies {
        add_keys(v, d);
    }
    if let Some(d) = &pj.dev_dependencies {
        add_keys(v, d);
    }
}

fn is_manifest(path: &String) -> (r: bool)
    ensures
        r == is_manifest_path(path@),
{
    let root = String::from_str("package.json");
    if *path == root {
        return true;
    }
    let pc = chars_of(path.as_str());
    let sc = chars_of("/package.json");
    pc.len() >= sc.len() && chars_occur_at(&pc, &sc, pc.len() - sc.len())
}

fn scanned(f: &SourceFile) -> (r: bool)
    ensures
        r == is_scanned(*f),
{
    is_manifest(&f.path) && !str_contains(f.path.as_str(), "node_modules")
}

/// Directory of the manifest at `path`.
fn manifest_directory(path: &String) -> (r: String)
    requires
        is_manifest_path(path@),
    ensures
        r@ == manifest_dir(path@),
{
    let root = String::from_str("package.json");
    if *path == root {
        return String::new();
    }
    let n = path.as_str().unicode_len();
    let suffix = chars_of("/package.json");
    String::from_str(path.as_str().substring_char(0, n - suffix.len()))
}

pub open spec fn node_overlay() -> Seq<char> {
    "https://github.com/railwayapp/nix-npm-overlay/archive/main.tar.gz"@
}

/// The `node` entry of a manifest's `engines`.
pub open spec fn engine_node(pj: PackageJson) -> Option<Seq<char>> {
    match pj.engines {
        Some(e) => lookup(e@, "node"@),
        None => None,
    }
}

/// The `node` engine of the root manifest.
pub open spec fn root_engine_node(app: App) -> Option<Seq<char>> {
    match root_manifest(app) {
        Some(pj) => engine_node(pj),
        None => None,
    }
}

/// A pinned version as written in a pin file: trimmed, and without one
/// leading character that is not a digit (`v18`, `^18`).
pub open spec fn pin_version(text: Seq<char>) -> Seq<char> {
    let t = trimmed(text);
    if t.len() > 0 && !is_ascii_digit(t[0]) {
        t.drop_first()
    } else {
        t
    }
}

/// The version pinned in `.nvmrc`.
pub open spec fn nvmrc_hint(app: App) -> Option<Seq<char>> {
    if has_file(app, ".nvmrc"@) {
        Some(pin_version(file_text(app, ".nvmrc"@)))
    } else {
        None
    }
}

/// The version hint that counts: the `NODE_VERSION` setting, else the
/// manifest's engine, else `.nvmrc`.
pub open spec fn version_hint(engine: Option<Seq<char>>, app: App, env: Environment) -> Option<
    Seq<char>,
> {
    if config_variable(env, "NODE_VERSION"@) is Some {
        config_variable(env, "NODE_VERSION"@)
    } else if engine is Some {
        engine
    } else {
        nvmrc_hint(app)
    }
}

/// Name of the Node.js package for the given hints.
pub open spec fn node_pkg_name(engine: Option<Seq<char>>, app: App, env: Environment) -> Seq<
    char,
> {
    match version_hint(engine, app, env) {
        Some(v) => pkg_name_for_constraint(v),
        None => default_pkg_name(),
    }
}

/// Name of the package-manager package, by lockfile format where it matters.
pub open spec fn pm_pkg_name(app: App) -> Seq<char> {
    match package_manager_of(app) {
        PackageManager::Pnpm => if starts_with_seq(
            file_text(app, "pnpm-lock.yaml"@),
            "lockfileVersion: 5.3"@,
        ) {
            "pnpm-6_x"@
        } else {
            "pnpm-7_x"@
        },
        PackageManager::Yarn => "yarn-1_x"@,
        PackageManager::Bun => "bun"@,
        PackageManager::Npm => if contains_seq(
            file_text(app, "package-lock.json"@),
            "\"lockfileVersion\": 1"@,
        ) {
            "npm-6_x"@
        } else {
            "npm-8_x"@
        },
    }
}

pub open spec fn is_pm_pkg(p: Pkg, app: App) -> bool {
    p.name@ == pm_pkg_name(app) && (p.overlay matches Some(o) && o@ == node_overlay())
}

/// `text` as a pinned version: trimmed, without one leading non-digit.
pub fn strip_pin_prefix(text: &str) -> (r: String)
    ensures
        r@ == pin_version(text@),
{
    let t = trim(text);
    let n = t.as_str().unicode_len();
    if n > 0 {
        let c = t.as_str().get_char(0);
        if !('0' <= c && c <= '9') {
            let rest = t.as_str().substring_char(1, n);
            assert(rest@ =~= t@.drop_first());
            return String::from_str(rest);
        }
    }
    t
}

/// The setup packages: Node.js (not under bun), then the package manager.
pub open spec fn nix_pkgs_ok(v: Seq<Pkg>, app: App, env: Environment) -> bool {
    if package_manager_of(app) == PackageManager::Bun {
        v.len() == 1 && is_pm_pkg(v[0], app)
    } else {
        v.len() == 2 && v[0].name@ == node_pkg_name(root_engine_node(app), app, env)
            && v[0].overlay is None && is_pm_pkg(v[1], app)
    }
}

/// System libraries a headless browser needs.
pub open spec fn puppeteer_libs() -> Seq<Seq<char>> {
    seq![
        "libnss3"@,
        "libatk1.0-0"@,
        "libatk-bridge2.0-0"@,
        "libcups2"@,
        "libgbm1"@,
        "libasound2"@,
        "libpangocairo-1.0-0"@,
        "libxss1"@,
        "libgtk-3-0"@,
        "libxshmfence1"@,
        "libglu1"@,
    ]
}

/// Nix libraries the native canvas binding needs.
pub open spec fn canvas_libs() -> Seq<Seq<char>> {
    seq!["libuuid"@, "libGL"@]
}

/// Variables set for every phase.
pub open spec fn node_env_vars() -> Seq<(Seq<char>, Seq<char>)> {
    seq![("NODE_ENV"@, "production"@), ("NPM_CONFIG_PRODUCTION"@, "false"@), ("CI"@, "true"@)]
}

pub open spec fn pair_views(v: Seq<(String, String)>) -> Seq<(Seq<char>, Seq<char>)> {
    v.map_values(|p: (String, String)| (p.0@, p.1@))
}

/// Cache of the `next` framework for a manifest in directory `d`.
pub open spec fn next_cache_dir(d: Seq<char>) -> Seq<char> {
    if d.len() == 0 {
        ".next/cache"@
    } else {
        d + "/"@ + ".next/cache"@
    }
}

pub open spec fn opt_cmds(c: Option<Seq<char>>) -> Seq<Seq<char>> {
    match c {
        Some(x) => seq![x],
        None => Seq::empty(),
    }
}

/// Caches of the install phase: the package manager's, and Cypress's when
/// some manifest depends on it.
pub open spec fn install_caches(app: App) -> Seq<Seq<char>> {
    seq![cache_dir_of(package_manager_of(app))] + if app_declares_dep(app, "cypress"@) {
        seq!["/root/.cache/Cypress"@]
    } else {
        Seq::empty()
    }
}

/// Caches of the build phase: one per `next` manifest, then node_modules' cache.
pub open spec fn build_caches(app: App) -> Seq<Seq<char>> {
    next_dirs_of(app).map_values(|d: Seq<char>| next_cache_dir(d)).push("node_modules/.cache"@)
}

/// A plan cannot be made: a manifest that must be read is malformed, or nx
/// failed on the start command.
pub open spec fn build_plan_fails(app: App, o: Orchestrators) -> bool {
    root_manifest_malformed(app) || scan_fails(app.files@) || start_command_fails(o)
}

pub open spec fn setup_ok(ph: Phase, app: App, env: Environment) -> bool {
    let puppeteer = mentions_dependency(app, "puppeteer"@);
    &&& ph.name@ == "setup"@
    &&& ph.cmds@.len() == 0
    &&& nix_pkgs_ok(ph.nix_pkgs@, app, env)
    &&& strs(ph.apt_pkgs@) == if puppeteer {
        puppeteer_libs()
    } else {
        Seq::empty()
    }
    &&& strs(ph.nix_libs@) == if !puppeteer && mentions_dependency(app, "canvas"@) {
        canvas_libs()
    } else {
        Seq::empty()
    }
    &&& ph.cache_directories@.len() == 0
    &&& ph.paths@.len() == 0
}

pub open spec fn install_ok(ph: Phase, app: App) -> bool {
    &&& ph.name@ == "install"@
    &&& strs(ph.cmds@) == opt_cmds(install_command_of(app))
    &&& ph.nix_pkgs@.len() == 0
    &&& ph.nix_libs@.len() == 0
    &&& ph.apt_pkgs@.len() == 0
    &&& strs(ph.cache_directories@) == install_caches(app)
    &&& strs(ph.paths@) == seq!["/app/node_modules/.bin"@]
}

pub open spec fn build_ok(ph: Phase, app: App, o: Orchestrators) -> bool {
    &&& ph.name@ == "build"@
    &&& strs(ph.cmds@) == opt_cmds(build_command_of(app, o))
    &&& ph.nix_pkgs@.len() == 0
    &&& ph.nix_libs@.len() == 0
    &&& ph.apt_pkgs@.len() == 0
    &&& strs(ph.cache_directories@) == build_caches(app)
    &&& ph.paths@.len() == 0
}

pub open spec fn start_ok(sp: Option<StartPhase>, app: App, o: Orchestrators) -> bool {
    match start_command_of(app, o) {
        Some(c) => sp matches Some(p) && (p.cmd matches Some(x) && x@ == c),
        None => sp is None,
    }
}

/// The plan for `app`: setup, install and build phases, the start command
/// when there is one, and the Node.js variables.
pub open spec fn plan_ok(p: BuildPlan, app: App, env: Environment, o: Orchestrators) -> bool {
    &&& p.phases@.len() == 3
    &&& setup_ok(p.phases@[0], app, env)
    &&& install_ok(p.phases@[1], app)
    &&& build_ok(p.phases@[2], app, o)
    &&& start_ok(p.start_phase, app, o)
    &&& pair_views(p.variables@) == node_env_vars()
}

fn strings(items: &[&str]) -> (r: Vec<String>)
    ensures
        strs(r@) == items@.map_values(|s: &str| s@),
{
    let mut r: Vec<String> = Vec::new();
    let mut i: usize = 0;
    while i < items.len()
        invariant
            i <= items@.len(),
            r@.len() == i,
            strs(r@) == items@.subrange(0, i as int).map_values(|s: &str| s@),
        decreases items@.len() - i,
    {
        let ghost prev = r@;
        r.push(String::from_str(items[i]));
        proof {
            let target = items@.subrange(0, i + 1).map_values(|s: &str| s@);
            assert forall|j: int| 0 <= j < i + 1 implies strs(r@)[j] == target[j] by {
                if j < i {
                    assert(r@[j] == prev[j]);
                    assert(strs(prev)[j] == items@.subrange(0, i as int).map_values(
                        |s: &str| s@,
                    )[j]);
                }
            }
            assert(strs(r@) =~= target);
        }
        i = i + 1;
    }
    proof {
        assert(items@.subrange(0, items@.len() as int) =~= items@);
    }
    r
}

impl NodeProvider {
    pub fn name(&self) -> (r: &'static str)
        ensures
            r@ == "node"@,
    {
        "node"
    }

    /// A project is a Node.js project when it has a root `package.json`.
    pub fn detect(&self, app: &App) -> (r: bool)
        ensures
            r == has_file(*app, "package.json"@),
    {
        app.includes_file("package.json")
    }

    /// The root manifest, when present and well formed.
    pub fn root_manifest(app: &App) -> (r: Option<&PackageJson>)
        ensures
            r matches Some(pj) ==> root_manifest(*app) == Some(*pj),
            r is None ==> root_manifest(*app) is None,
    {
        match app.find_file("package.json") {
            Some(i) => match &app.files[i].manifest {
                Some(pj) => Some(pj),
                None => None,
            },
            None => None,
        }
    }

    pub fn detect_package_manager(app: &App) -> (r: PackageManager)
        ensures
            r == package_manager_of(*app),
    {
        if app.includes_file("pnpm-lock.yaml") {
            PackageManager::Pnpm
        } else if app.includes_file("yarn.lock") {
            PackageManager::Yarn
        } else if app.includes_file("bun.lockb") {
            PackageManager::Bun
        } else {
            PackageManager::Npm
        }
    }

    pub fn package_manager_name(pm: PackageManager) -> (r: &'static str)
        ensures
            r@ == pm_name(pm),
    {
        match pm {
            PackageManager::Npm => "npm",
            PackageManager::Yarn => "yarn",
            PackageManager::Pnpm => "pnpm",
            PackageManager::Bun => "bun",
        }
    }

    pub fn get_package_manager(app: &App) -> (r: String)
        ensures
            r@ == pm_name(package_manager_of(*app)),
    {
        String::from_str(NodeProvider::package_manager_name(NodeProvider::detect_package_manager(app)))
    }

    pub fn get_package_manager_dlx_command(app: &App) -> (r: String)
        ensures
            r@ == dlx_name(package_manager_of(*app)),
    {
        match NodeProvider::detect_package_manager(app) {
            PackageManager::Pnpm => String::from_str("pnpx"),
            PackageManager::Yarn => String::from_str("yarn"),
            _ => String::from_str("npx"),
        }
    }

    pub fn get_install_command(app: &App) -> (r: Option<String>)
        ensures
            r matches Some(c) ==> install_command_of(*app) == Some(c@),
            r is None ==> install_command_of(*app) is None,
    {
        if !app.includes_file("package.json") {
            return None;
        }
        let pm = NodeProvider::detect_package_manager(app);
        let cmd = if pm == PackageManager::Pnpm {
            String::from_str("pnpm i --frozen-lockfile")
        } else if pm == PackageManager::Yarn {
            if app.includes_file(".yarnrc.yml") {
                match &app.yarnrc.yarn_path {
                    Some(p) => {
                        let mut c = join("yarn set version ./", p.as_str());
                        c.append(" && yarn install --check-cache");
                        c
                    },
                    None => String::from_str("yarn set version berry && yarn install --check-cache"),
                }
            } else {
                String::from_str("yarn install --frozen-lockfile")
            }
        } else if pm == PackageManager::Bun {
            String::from_str("bun i --no-save")
        } else if app.includes_file("package-lock.json") {
            String::from_str("npm ci")
        } else {
            String::from_str("npm i")
        };
        Some(cmd)
    }

    pub fn get_package_manager_cache_dir(app: &App) -> (r: String)
        ensures
            r@ == cache_dir_of(package_manager_of(*app)),
    {
        match NodeProvider::detect_package_manager(app) {
            PackageManager::Yarn => String::from_str("/usr/local/share/.cache/yarn/v6"),
            PackageManager::Pnpm => String::from_str("/root/.cache/pnpm"),
            PackageManager::Bun => String::from_str("/root/.bun"),
            PackageManager::Npm => String::from_str("/root/.npm"),
        }
    }

    pub fn get_executor(app: &App) -> (r: String)
        ensures
            r@ == executor_of(package_manager_of(*app)),
    {
        if NodeProvider::detect_package_manager(app) == PackageManager::Bun {
            String::from_str("bun")
        } else {
            String::from_str("node")
        }
    }

    /// Whether the root manifest declares a script called `script`; a
    /// missing or malformed manifest declares none.
    pub fn has_script(app: &App, script: &str) -> (r: Result<bool, NodeError>)
        ensures
            r matches Ok(b) && b == app_has_script(*app, script@),
    {
        match NodeProvider::root_manifest(app) {
            Some(pj) => match &pj.scripts {
                Some(s) => Ok(pairs_have_key(s, script)),
                None => Ok(false),
            },
            None => Ok(false),
        }
    }

    pub fn get_build_cmd(app: &App, orchestrators: &Orchestrators) -> (r: Result<
        Option<String>,
        NodeError,
    >)
        ensures
            r matches Ok(c) && (c matches Some(x) ==> build_command_of(*app, *orchestrators)
                == Some(x@)) && (c is None ==> build_command_of(*app, *orchestrators) is None),
    {
        let nx = &orchestrators.nx;
        if let Some(c) = offered_command(nx.applicable, &nx.build_cmd) {
            return Ok(Some(c));
        }
        let turbo = &orchestrators.turborepo;
        if let Some(c) = offered_command(turbo.applicable, &turbo.build_cmd) {
            return Ok(Some(c));
        }
        let has_build = match NodeProvider::has_script(app, "build") {
            Ok(b) => b,
            Err(e) => {
                return Err(e);
            },
        };
        if has_build {
            let pm = NodeProvider::get_package_manager(app);
            Ok(Some(join(pm.as_str(), " run build")))
        } else {
            Ok(None)
        }
    }

    pub fn get_start_cmd(app: &App, orchestrators: &Orchestrators) -> (r: Result<
        Option<String>,
        NodeError,
    >)
        ensures
            r is Err <==> start_command_fails(*orchestrators),
            r matches Err(e) ==> orchestrators.nx.start_cmd matches Err(f) && same_error(e, f),
            r matches Ok(c) ==> (c matches Some(x) ==> start_command_of(*app, *orchestrators)
                == Some(x@)) && (c is None ==> start_command_of(*app, *orchestrators) is None),
    {
        let executor = NodeProvider::get_executor(app);
        let nx = &orchestrators.nx;
        if nx.applicable {
            match &nx.start_cmd {
                Err(e) => {
                    return Err(e.duplicate());
                },
                Ok(Some(c)) => {
                    return Ok(Some(c.clone()));
                },
                Ok(None) => {},
            }
        }
        let turbo = &orchestrators.turborepo;
        if let Some(c) = offered_command(turbo.applicable, &turbo.start_cmd) {
            return Ok(Some(c));
        }
        let pm = NodeProvider::detect_package_manager(app);
        let has_start = match NodeProvider::has_script(app, "start") {
            Ok(b) => b,
            Err(e) => {
                return Err(e);
            },
        };
        if has_start {
            return Ok(Some(join(NodeProvider::package_manager_name(pm), " run start")));
        }
        if let Some(pj) = NodeProvider::root_manifest(app) {
            if let Some(main) = &pj.main {
                if app.includes_file(main.as_str()) {
                    let mut c = join(executor.as_str(), " ");
                    c.append(main.as_str());
                    return Ok(Some(c));
                }
            }
        }
        if app.includes_file("index.js") {
            return Ok(Some(join(executor.as_str(), " index.js")));
        } else if app.includes_file("index.ts") && pm == PackageManager::Bun {
            return Ok(Some(String::from_str("bun index.ts")));
        }
        Ok(None)
    }

    /// Names of the dependencies and dev dependencies of `json`, each once.
    pub fn get_deps_from_package_json(json: &PackageJson) -> (r: Vec<String>)
        ensures
            distinct_strs(r@),
            forall|k: Seq<char>| #[trigger] in_strs(r@, k) <==> declares_dep(*json, k),
    {
        let mut r: Vec<String> = Vec::new();
        add_manifest_deps(&mut r, json);
        r
    }

    /// Whether a root manifest or lockfile mentions `dependency`.
    pub fn uses_node_dependency(app: &App, dependency: &str) -> (r: bool)
        ensures
            r == mentions_dependency(*app, dependency@),
    {
        let files = ["package.json", "package-lock.json", "yarn.lock", "pnpm-lock.yaml"];
        proof {
            assert(files@.map_values(|f: &str| f@) =~= dependency_files());
        }
        let mut i: usize = 0;
        while i < 4
            invariant
                i <= 4,
                files@.map_values(|f: &str| f@) == dependency_files(),
                forall|j: int| 0 <= j < i ==> !contains_seq(
                    file_text(*app, dependency_files()[j]),
                    dependency@,
                ),
            decreases 4 - i,
        {
            assert(files@.map_values(|f: &str| f@)[i as int] == files[i as int]@);
            let text = app.read_file(files[i]);
            if str_contains(text.as_str(), dependency) {
                return true;
            }
            i = i + 1;
        }
        false
    }

    /// Every dependency declared by a manifest of the project, each once.
    /// Manifests inside `node_modules` are not the project's and are skipped.
    pub fn get_all_deps(app: &App) -> (r: Result<Vec<String>, NodeError>)
        ensures
            r is Err <==> scan_fails(app.files@),
            r matches Ok(v) ==> distinct_strs(v@) && forall|k: Seq<char>| #[trigger]
                in_strs(v@, k) <==> app_declares_dep(*app, k),
    {
        let mut all: Vec<String> = Vec::new();
        let mut i: usize = 0;
        while i < app.files.len()
            invariant
                i <= app.files@.len(),
                distinct_strs(all@),
                forall|j: int|
                    0 <= j < i && is_scanned(#[trigger] app.files@[j]) ==> app.files@[j].manifest
                        is Some,
                forall|k: Seq<char>| #[trigger]
                    in_strs(all@, k) <==> declared_before(app.files@, i as int, k),
            decreases app.files@.len() - i,
        {
            let f = &app.files[i];
            if scanned(f) {
                match &f.manifest {
                    None => {
                        return Err(NodeError::MalformedManifest { path: f.path.clone() });
                    },
                    Some(pj) => {
                        let ghost before = all@;
                        add_manifest_deps(&mut all, pj);
                        proof {
                            assert forall|x: Seq<char>| #[trigger]
                                in_strs(all@, x) <==> declared_before(
                                    app.files@,
                                    i + 1,
                                    x,
                                ) by {
                                if declares_dep(*pj, x) {
                                    assert(declared_before(app.files@, i + 1, x));
                                }
                                if declared_before(app.files@, i + 1, x) && !declared_before(
                                    app.files@,
                                    i as int,
                                    x,
                                ) {
                                    let w = choose|w: int|
                                        0 <= w < i + 1 && is_scanned(#[trigger] app.files@[w])
                                            && (app.files@[w].manifest matches Some(q)
                                            && declares_dep(q, x));
                                    assert(w == i);
                                }
                            }
                        }
                    },
                }
            } else {
                proof {
                    assert forall|x: Seq<char>| #[trigger]
                        in_strs(all@, x) <==> declared_before(app.files@, i + 1, x) by {
                        if declared_before(app.files@, i + 1, x) {
                            let w = choose|w: int|
                                0 <= w < i + 1 && is_scanned(#[trigger] app.files@[w])
                                    && (app.files@[w].manifest matches Some(q) && declares_dep(
                                    q,
                                    x,
                                ));
                            assert(w != i);
                        }
                    }
                }
            }
            i = i + 1;
        }
        Ok(all)
    }

    /// Directories, relative to the root and `/`-separated, of the project's
    /// manifests that depend on `next`; the root's is the empty string.
    pub fn find_next_packages(app: &App) -> (r: Result<Vec<String>, NodeError>)
        ensures
            r is Err <==> scan_fails(app.files@),
            r matches Ok(v) ==> strs(v@) == next_dirs_of(*app),
    {
        let mut dirs: Vec<String> = Vec::new();
        let next = String::from_str("next");
        let mut i: usize = 0;
        while i < app.files.len()
            invariant
                i <= app.files@.len(),
                next@ == "next"@,
                forall|j: int|
                    0 <= j < i && is_scanned(#[trigger] app.files@[j]) ==> app.files@[j].manifest
                        is Some,
                strs(dirs@) == next_dirs_upto(app.files@, i as int),
            decreases app.files@.len() - i,
        {
            let f = &app.files[i];
            if scanned(f) {
                match &f.manifest {
                    None => {
                        return Err(NodeError::MalformedManifest { path: f.path.clone() });
                    },
                    Some(pj) => {
                        let deps = NodeProvider::get_deps_from_package_json(pj);
                        if strs_contain(&deps, &next) {
                            let dir = manifest_directory(&f.path);
                            let ghost before = dirs@;
                            dirs.push(dir);
                            proof {
                                assert(strs(dirs@) =~= strs(before).push(dir@));
                            }
                        }
                    },
                }
            }
            i = i + 1;
        }
        Ok(dirs)
    }

    /// The Node.js package for the version hints of `package_json`, `app`
    /// and `environment`.
    pub fn get_nix_node_pkg(package_json: &PackageJson, app: &App, environment: &Environment) -> (r:
        Result<Pkg, NodeError>)
        ensures
            r matches Ok(p) && p.name@ == node_pkg_name(engine_node(*package_json), *app, *environment)
                && p.overlay is None,
    {
        let hint = match environment.get_config_variable("NODE_VERSION") {
            Some(v) => Some(v),
            None => {
                let engine = match &package_json.engines {
                    Some(e) => lookup_pairs(e, &String::from_str("node")),
                    None => None,
                };
                match engine {
                    Some(v) => Some(v),
                    None => if app.includes_file(".nvmrc") {
                        let text = app.read_file(".nvmrc");
                        Some(strip_pin_prefix(text.as_str()))
                    } else {
                        None
                    },
                }
            },
        };
        match hint {
            Some(v) => Ok(Pkg::new(pkg_for_constraint(v.as_str()).as_str())),
            None => Ok(Pkg::new("nodejs-16_x")),
        }
    }

    /// The Node.js package and the package manager's package.
    pub fn get_nix_packages(app: &App, env: &Environment) -> (r: Result<Vec<Pkg>, NodeError>)
        ensures
            r is Err <==> root_manifest_malformed(*app),
            r matches Ok(v) ==> nix_pkgs_ok(v@, *app, *env),
    {
        let default_manifest = PackageJson::default();
        let package_json = if app.includes_file("package.json") {
            match NodeProvider::root_manifest(app) {
                Some(pj) => pj,
                None => {
                    return Err(
                        NodeError::MalformedManifest { path: String::from_str("package.json") },
                    );
                },
            }
        } else {
            &default_manifest
        };
        let node_pkg = match NodeProvider::get_nix_node_pkg(package_json, app, env) {
            Ok(p) => p,
            Err(e) => {
                return Err(e);
            },
        };
        let pm = NodeProvider::detect_package_manager(app);
        let mut pkgs: Vec<Pkg> = Vec::new();
        if pm != PackageManager::Bun {
            pkgs.push(node_pkg);
        }
        let pm_pkg = if pm == PackageManager::Pnpm {
            let lockfile = app.read_file("pnpm-lock.yaml");
            if str_starts_with(lockfile.as_str(), "lockfileVersion: 5.3") {
                Pkg::new("pnpm-6_x")
            } else {
                Pkg::new("pnpm-7_x")
            }
        } else if pm == PackageManager::Yarn {
            Pkg::new("yarn-1_x")
        } else if pm == PackageManager::Bun {
            Pkg::new("bun")
        } else {
            let lockfile = app.read_file("package-lock.json");
            if str_contains(lockfile.as_str(), "\"lockfileVersion\": 1") {
                Pkg::new("npm-6_x")
            } else {
                Pkg::new("npm-8_x")
            }
        };
        pkgs.push(pm_pkg.from_overlay("https://github.com/railwayapp/nix-npm-overlay/archive/main.tar.gz"));
        Ok(pkgs)
    }

    /// Variables set for every phase of a Node.js build.
    pub fn get_node_environment_variables() -> (r: Vec<(String, String)>)
        ensures
            pair_views(r@) == node_env_vars(),
    {
        let mut r: Vec<(String, String)> = Vec::new();
        r.push((String::from_str("NODE_ENV"), String::from_str("production")));
        r.push((String::from_str("NPM_CONFIG_PRODUCTION"), String::from_str("false")));
        r.push((String::from_str("CI"), String::from_str("true")));
        proof {
            assert(pair_views(r@) =~= node_env_vars());
        }
        r
    }

    /// The build plan for `app`. `orchestrators` holds what the monorepo
    /// tools found in the same project.
    pub fn get_build_plan(app: &App, env: &Environment, orchestrators: &Orchestrators) -> (r:
        Result<Option<BuildPlan>, NodeError>)
        ensures
            r is Err <==> build_plan_fails(*app, *orchestrators),
            r matches Ok(p) ==> (p matches Some(plan) && plan_ok(plan, *app, *env, *orchestrators)),
    {
        // Setup
        let pkgs = match NodeProvider::get_nix_packages(app, env) {
            Ok(p) => p,
            Err(e) => {
                return Err(e);
            },
        };
        let mut setup = Phase::setup(Some(pkgs));
        let puppeteer = NodeProvider::uses_node_dependency(app, "puppeteer");
        if puppeteer {
            let libs = strings(
                &[
                    "libnss3",
                    "libatk1.0-0",
                    "libatk-bridge2.0-0",
                    "libcups2",
                    "libgbm1",
                    "libasound2",
                    "libpangocairo-1.0-0",
                    "libxss1",
                    "libgtk-3-0",
                    "libxshmfence1",
                    "libglu1",
                ],
            );
            setup.add_apt_pkgs(libs);
        } else if NodeProvider::uses_node_dependency(app, "canvas") {
            setup.add_pkgs_libs(strings(&["libuuid", "libGL"]));
        }
        proof {
            assert(strs(setup.apt_pkgs@) =~= if puppeteer {
                puppeteer_libs()
            } else {
                Seq::empty()
            });
            assert(strs(setup.nix_libs@) =~= if !puppeteer && mentions_dependency(
                *app,
                "canvas"@,
            ) {
                canvas_libs()
            } else {
                Seq::empty()
            });
        }

        // Install
        let mut install = Phase::install(NodeProvider::get_install_command(app));
        install.add_cache_directory(NodeProvider::get_package_manager_cache_dir(app));
        install.add_path(String::from_str("/app/node_modules/.bin"));
        let all_deps = match NodeProvider::get_all_deps(app) {
            Ok(d) => d,
            Err(e) => {
                return Err(e);
            },
        };
        let cypress = String::from_str("cypress");
        if strs_contain(&all_deps, &cypress) {
            install.add_cache_directory(String::from_str("/root/.cache/Cypress"));
        }
        proof {
            assert(strs(install.cmds@) =~= opt_cmds(install_command_of(*app)));
            assert(strs(install.cache_directories@) =~= install_caches(*app));
            assert(strs(install.paths@) =~= seq!["/app/node_modules/.bin"@]);
        }

        // Build
        let build_cmd = match NodeProvider::get_build_cmd(app, orchestrators) {
            Ok(c) => c,
            Err(e) => {
                return Err(e);
            },
        };
        let mut build = Phase::build(build_cmd);
        let next_dirs = match NodeProvider::find_next_packages(app) {
            Ok(d) => d,
            Err(e) => {
                return Err(e);
            },
        };
        let ghost dirs = strs(next_dirs@);
        let mut i: usize = 0;
        while i < next_dirs.len()
            invariant
                i <= next_dirs@.len(),
                dirs == strs(next_dirs@),
                build.name@ == "build"@,
                strs(build.cmds@) == opt_cmds(build_command_of(*app, *orchestrators)),
                build.nix_pkgs@.len() == 0,
                build.nix_libs@.len() == 0,
                build.apt_pkgs@.len() == 0,
                build.paths@.len() == 0,
                strs(build.cache_directories@) == dirs.subrange(0, i as int).map_values(
                    |d: Seq<char>| next_cache_dir(d),
                ),
            decreases next_dirs@.len() - i,
        {
            let dir = &next_dirs[i];
            let c = if dir.as_str().unicode_len() == 0 {
                String::from_str(".next/cache")
            } else {
                let mut c = join(dir.as_str(), "/");
                c.append(".next/cache");
                c
            };
            let ghost before = build.cache_directories@;
            build.add_cache_directory(c);
            proof {
                assert(dirs[i as int] == dir@);
                assert(strs(build.cache_directories@) =~= strs(before).push(c@));
                assert(dirs.subrange(0, i + 1).map_values(|d: Seq<char>| next_cache_dir(d))
                    =~= dirs.subrange(0, i as int).map_values(|d: Seq<char>| next_cache_dir(d)).push(
                    next_cache_dir(dir@),
                ));
            }
            i = i + 1;
        }
        let ghost before = build.cache_directories@;
        build.add_cache_directory(String::from_str("node_modules/.cache"));
        proof {
            assert(dirs.subrange(0, dirs.len() as int) =~= dirs);
            assert(strs(build.cache_directories@) =~= build_caches(*app));
        }

        // Start
        let start = match NodeProvider::get_start_cmd(app, orchestrators) {
            Ok(Some(c)) => Some(StartPhase::new(c)),
            Ok(None) => None,
            Err(e) => {
                return Err(e);
            },
        };

        let mut phases: Vec<Phase> = Vec::new();
        phases.push(setup);
        phases.push(install);
        phases.push(build);
        let mut plan = BuildPlan::new(phases, start);
        plan.add_variables(NodeProvider::get_node_environment_variables());
        Ok(Some(plan))
    }
}

} // verus!
