//! Properties of the provider's decisions, proved over its specifications.
use vstd::prelude::*;

use crate::model::{config_variable, has_file, App, Environment, Orchestrators, SourceFile};
use crate::plan::{BuildPlan, Phase, Pkg};
use crate::provider::{
    app_declares_dep, declared_before, declares_dep, is_scanned, next_dirs_of, next_dirs_upto,
    scan_fails, manifest_dir, next_cache_dir, node_pkg_name, nvmrc_hint, package_manager_of,
    plan_ok, strs, PackageManager,
};
use crate::text::{contains_seq, is_ascii_digit};
use crate::version::{
    constraint_major, default_pkg_name, digit_run_end, digits_value, is_supported_major,
    pkg_name_for_constraint, pkg_name_for_major,
};

verus! {

/// The version hints are taken in a fixed order: the `NODE_VERSION`
/// setting, then the manifest's engine, then `.nvmrc`, then the default.
/// A hint is used whenever every hint above it is absent.
pub proof fn lemma_version_precedence(engine: Option<Seq<char>>, app: App, env: Environment)
    ensures
        config_variable(env, "NODE_VERSION"@) matches Some(v) ==> node_pkg_name(engine, app, env)
            == pkg_name_for_constraint(v),
        config_variable(env, "NODE_VERSION"@) is None ==> (engine matches Some(v) ==> node_pkg_name(
            engine,
            app,
            env,
        ) == pkg_name_for_constraint(v)),
        config_variable(env, "NODE_VERSION"@) is None && engine is None ==> (nvmrc_hint(
            app,
        ) matches Some(v) ==> node_pkg_name(engine, app, env) == pkg_name_for_constraint(v)),
        config_variable(env, "NODE_VERSION"@) is None && engine is None && nvmrc_hint(app) is None
            ==> node_pkg_name(engine, app, env) == default_pkg_name(),
{
}

/// The wildcard constraint `*` always gives the default package.
pub proof fn lemma_wildcard_is_default()
    ensures
        pkg_name_for_constraint("*"@) == default_pkg_name(),
{
}

pub open spec fn all_digits(d: Seq<char>) -> bool {
    forall|i: int| 0 <= i < d.len() ==> is_ascii_digit(#[trigger] d[i])
}

pub open spec fn starts_with_digit(s: Seq<char>) -> bool {
    s.len() > 0 && is_ascii_digit(s[0])
}

proof fn lemma_digit_run(s: Seq<char>, start: int, end: int, i: int)
    requires
        0 <= start <= i <= end <= s.len(),
        forall|j: int| start <= j < end ==> is_ascii_digit(#[trigger] s[j]),
        end == s.len() || !is_ascii_digit(s[end]),
    ensures
        digit_run_end(s, i) == end,
    decreases end - i,
{
    if i < end {
        lemma_digit_run(s, start, end, i + 1);
    }
}

/// A constraint that starts with a number asks for that major version,
/// whatever follows it (`18`, `18.x`, `18.x.x`, `18.4.2`, `14.X`).
pub proof fn lemma_leading_major(d: Seq<char>, rest: Seq<char>)
    requires
        d.len() > 0,
        all_digits(d),
        !starts_with_digit(rest),
    ensures
        constraint_major(d + rest) == Some(digits_value(d)),
        pkg_name_for_constraint(d + rest) == pkg_name_for_major(digits_value(d)),
{
    let s = d + rest;
    assert forall|j: int| 0 <= j < d.len() implies is_ascii_digit(#[trigger] s[j]) by {
        assert(s[j] == d[j]);
    }
    lemma_digit_run(s, 0, d.len() as int, 0);
    assert(s.subrange(0, d.len() as int) =~= d);
    reveal_strlit("*");
    assert(s[0] == d[0]);
    assert(s != "*"@);
}

/// A range `>=<number>...` asks for its lower bound; any upper bound is
/// not read (`>=14.10.3 <16` asks for 14).
pub proof fn lemma_range_lower_major(d: Seq<char>, rest: Seq<char>)
    requires
        d.len() > 0,
        all_digits(d),
        !starts_with_digit(rest),
    ensures
        constraint_major(seq!['>', '='] + d + rest) == Some(digits_value(d)),
        pkg_name_for_constraint(seq!['>', '='] + d + rest) == pkg_name_for_major(digits_value(d)),
{
    let s = seq!['>', '='] + d + rest;
    assert forall|j: int| 2 <= j < 2 + d.len() implies is_ascii_digit(#[trigger] s[j]) by {
        assert(s[j] == d[j - 2]);
    }
    let e = 2 + d.len() as int;
    assert(e == s.len() || s[e] == rest[0]);
    lemma_digit_run(s, 2, e, 2);
    assert(s.subrange(2, e) =~= d);
    assert(digit_run_end(s, 0) == 0);
    reveal_strlit("*");
    assert(s.len() != 1);
}

/// A major version without a package of its own gives the default package.
pub proof fn lemma_unsupported_major_is_default(n: nat)
    requires
        !is_supported_major(n),
    ensures
        pkg_name_for_major(n) == default_pkg_name(),
{
}

/// A pnpm lockfile decides the package manager, whatever other lockfiles
/// the project has.
pub proof fn lemma_pnpm_lockfile_wins(app: App)
    requires
        has_file(app, "pnpm-lock.yaml"@),
    ensures
        package_manager_of(app) == PackageManager::Pnpm,
{
}

/// A manifest whose path runs through `node_modules` is never scanned.
pub proof fn lemma_install_dir_not_scanned(app: App, i: int)
    requires
        0 <= i < app.files@.len(),
        contains_seq(app.files@[i].path@, "node_modules"@),
    ensures
        !is_scanned(app.files@[i]),
{
}

pub open spec fn scanned_pred() -> spec_fn(SourceFile) -> bool {
    |f: SourceFile| is_scanned(f)
}

/// The project's own manifests, in order: the files a scan reads.
pub open spec fn project_manifests(files: Seq<SourceFile>) -> Seq<SourceFile> {
    files.filter(scanned_pred())
}

proof fn lemma_from_project_manifests(files: Seq<SourceFile>, x: SourceFile)
    requires
        project_manifests(files).contains(x),
    ensures
        is_scanned(x),
        exists|i: int| 0 <= i < files.len() && files[i] == x,
    decreases files.len(),
{
    reveal(Seq::filter);
    if files.len() > 0 {
        let d = files.drop_last();
        if is_scanned(files.last()) && x == files.last() {
            assert(files[files.len() - 1] == x);
        } else {
            if is_scanned(files.last()) {
                let j = choose|j: int| 0 <= j < project_manifests(files).len() && project_manifests(files)[j] == x;
                assert(project_manifests(files) == project_manifests(d).push(files.last()));
                assert(j < project_manifests(d).len());
                assert(project_manifests(d)[j] == x);
            } else {
                assert(project_manifests(files) == project_manifests(d));
            }
            lemma_from_project_manifests(d, x);
            let i = choose|i: int| 0 <= i < d.len() && d[i] == x;
            assert(files[i] == x);
        }
    }
}

proof fn lemma_into_project_manifests(files: Seq<SourceFile>, i: int)
    requires
        0 <= i < files.len(),
        is_scanned(files[i]),
    ensures
        project_manifests(files).contains(files[i]),
{
    broadcast use vstd::seq_lib::group_filter_ensures;

    assert(scanned_pred()(files[i]));
}

proof fn lemma_scan_transfers(a: Seq<SourceFile>, b: Seq<SourceFile>)
    requires
        project_manifests(a) == project_manifests(b),
    ensures
        scan_fails(a) ==> scan_fails(b),
        forall|k: Seq<char>|
            declared_before(a, a.len() as int, k) ==> #[trigger] declared_before(b, b.len() as int, k),
{
    if scan_fails(a) {
        let i = choose|i: int| 0 <= i < a.len() && is_scanned(a[i]) && a[i].manifest is None;
        lemma_into_project_manifests(a, i);
        lemma_from_project_manifests(b, a[i]);
        let j = choose|j: int| 0 <= j < b.len() && b[j] == a[i];
        assert(is_scanned(b[j]) && b[j].manifest is None);
    }
    assert forall|k: Seq<char>|
        declared_before(a, a.len() as int, k) implies #[trigger] declared_before(b, b.len() as int, k) by {
        let i = choose|i: int|
            0 <= i < a.len() && is_scanned(#[trigger] a[i]) && (a[i].manifest matches Some(pj)
                && declares_dep(pj, k));
        lemma_into_project_manifests(a, i);
        lemma_from_project_manifests(b, a[i]);
        let j = choose|j: int| 0 <= j < b.len() && b[j] == a[i];
        assert(is_scanned(b[j]));
    }
}

proof fn lemma_next_dirs_prefix(s: Seq<SourceFile>, t: Seq<SourceFile>, n: int)
    requires
        0 <= n <= s.len(),
        n <= t.len(),
        s.subrange(0, n) == t.subrange(0, n),
    ensures
        next_dirs_upto(s, n) == next_dirs_upto(t, n),
    decreases n,
{
    if n > 0 {
        assert(s[n - 1] == s.subrange(0, n)[n - 1]);
        assert(t[n - 1] == t.subrange(0, n)[n - 1]);
        assert(s.subrange(0, n - 1) =~= s.subrange(0, n).subrange(0, n - 1));
        assert(t.subrange(0, n - 1) =~= t.subrange(0, n).subrange(0, n - 1));
        lemma_next_dirs_prefix(s, t, n - 1);
    }
}

proof fn lemma_next_dirs_filtered(files: Seq<SourceFile>)
    ensures
        next_dirs_upto(files, files.len() as int) == next_dirs_upto(
            project_manifests(files),
            project_manifests(files).len() as int,
        ),
    decreases files.len(),
{
    reveal(Seq::filter);
    if files.len() > 0 {
        let d = files.drop_last();
        let n = files.len() as int;
        lemma_next_dirs_filtered(d);
        assert(files.subrange(0, n - 1) =~= d.subrange(0, n - 1));
        lemma_next_dirs_prefix(files, d, n - 1);
        let fd = project_manifests(d);
        if is_scanned(files.last()) {
            let f = project_manifests(files);
            assert(f == fd.push(files.last()));
            assert(f.subrange(0, fd.len() as int) =~= fd.subrange(0, fd.len() as int));
            lemma_next_dirs_prefix(f, fd, fd.len() as int);
            assert(f[f.len() - 1] == files[n - 1]);
        } else {
            assert(project_manifests(files) == fd);
        }
    }
}

/// Files that are not the project's own manifests (those under
/// `node_modules`, and any other file) change neither whether a scan fails,
/// nor the dependencies found, nor the framework cache directories.
pub proof fn lemma_install_dirs_change_nothing(a: App, b: App)
    requires
        project_manifests(a.files@) == project_manifests(b.files@),
    ensures
        scan_fails(a.files@) == scan_fails(b.files@),
        forall|k: Seq<char>| #[trigger] app_declares_dep(a, k) == app_declares_dep(b, k),
        next_dirs_of(a) == next_dirs_of(b),
{
    lemma_scan_transfers(a.files@, b.files@);
    lemma_scan_transfers(b.files@, a.files@);
    assert forall|k: Seq<char>| #[trigger] app_declares_dep(a, k) == app_declares_dep(b, k) by {
        if app_declares_dep(a, k) {
            assert(declared_before(b.files@, b.files@.len() as int, k));
        }
        if app_declares_dep(b, k) {
            assert(declared_before(a.files@, a.files@.len() as int, k));
        }
    }
    lemma_next_dirs_filtered(a.files@);
    lemma_next_dirs_filtered(b.files@);
}

/// The root manifest's framework cache is the bare `.next/cache`; a
/// manifest in directory `d` gives `d/.next/cache`.
pub proof fn lemma_next_cache_dirs(d: Seq<char>)
    requires
        d.len() > 0,
    ensures
        next_cache_dir(manifest_dir("package.json"@)) == ".next/cache"@,
        manifest_dir(d + "/package.json"@) == d,
        next_cache_dir(manifest_dir(d + "/package.json"@)) == d + "/"@ + ".next/cache"@,
{
    let p = d + "/package.json"@;
    reveal_strlit("package.json");
    reveal_strlit("/package.json");
    assert(p.len() != "package.json"@.len() || p != "package.json"@) by {
        if p.len() == "package.json"@.len() {
            assert(p[d.len() as int] == '/');
            assert("package.json"@[d.len() as int] != '/');
        }
    }
    assert(p.subrange(0, p.len() - "/package.json"@.len()) =~= d);
}

pub open spec fn pkg_view(p: Pkg) -> (Seq<char>, Option<Seq<char>>) {
    (
        p.name@,
        match p.overlay {
            Some(o) => Some(o@),
            None => None,
        },
    )
}

pub open spec fn phase_view(ph: Phase) -> (
    Seq<char>,
    Seq<Seq<char>>,
    Seq<(Seq<char>, Option<Seq<char>>)>,
    Seq<Seq<char>>,
    Seq<Seq<char>>,
    Seq<Seq<char>>,
    Seq<Seq<char>>,
) {
    (
        ph.name@,
        strs(ph.cmds@),
        ph.nix_pkgs@.map_values(|p: Pkg| pkg_view(p)),
        strs(ph.nix_libs@),
        strs(ph.apt_pkgs@),
        strs(ph.cache_directories@),
        strs(ph.paths@),
    )
}

/// Everything a plan says, as text.
pub open spec fn plan_view(p: BuildPlan) -> (
    Seq<
        (
            Seq<char>,
            Seq<Seq<char>>,
            Seq<(Seq<char>, Option<Seq<char>>)>,
            Seq<Seq<char>>,
            Seq<Seq<char>>,
            Seq<Seq<char>>,
            Seq<Seq<char>>,
        ),
    >,
    Option<Option<Seq<char>>>,
    Seq<(Seq<char>, Seq<char>)>,
) {
    (
        p.phases@.map_values(|ph: Phase| phase_view(ph)),
        match p.start_phase {
            Some(s) => Some(
                match s.cmd {
                    Some(c) => Some(c@),
                    None => None,
                },
            ),
            None => None,
        },
        p.variables@.map_values(|v: (String, String)| (v.0@, v.1@)),
    )
}

/// Two plans made for the same project, settings and monorepo findings
/// say the same thing.
pub proof fn lemma_plan_deterministic(
    p1: BuildPlan,
    p2: BuildPlan,
    app: App,
    env: Environment,
    o: Orchestrators,
)
    requires
        plan_ok(p1, app, env, o),
        plan_ok(p2, app, env, o),
    ensures
        plan_view(p1) == plan_view(p2),
{
    let a = p1.phases@;
    let b = p2.phases@;
    assert(a[0].nix_pkgs@.map_values(|p: Pkg| pkg_view(p)) =~= b[0].nix_pkgs@.map_values(
        |p: Pkg| pkg_view(p),
    ));
    assert(strs(a[0].cmds@) =~= strs(b[0].cmds@));
    assert(strs(a[0].cache_directories@) =~= strs(b[0].cache_directories@));
    assert(strs(a[0].paths@) =~= strs(b[0].paths@));
    assert(strs(a[1].apt_pkgs@) =~= strs(b[1].apt_pkgs@));
    assert(strs(a[1].nix_libs@) =~= strs(b[1].nix_libs@));
    assert(a[1].nix_pkgs@.map_values(|p: Pkg| pkg_view(p)) =~= b[1].nix_pkgs@.map_values(
        |p: Pkg| pkg_view(p),
    ));
    assert(strs(a[2].apt_pkgs@) =~= strs(b[2].apt_pkgs@));
    assert(strs(a[2].nix_libs@) =~= strs(b[2].nix_libs@));
    assert(strs(a[2].paths@) =~= strs(b[2].paths@));
    assert(a[2].nix_pkgs@.map_values(|p: Pkg| pkg_view(p)) =~= b[2].nix_pkgs@.map_values(
        |p: Pkg| pkg_view(p),
    ));
    assert(phase_view(a[0]) == phase_view(b[0]));
    assert(phase_view(a[1]) == phase_view(b[1]));
    assert(phase_view(a[2]) == phase_view(b[2]));
    assert(a.map_values(|ph: Phase| phase_view(ph)) =~= b.map_values(|ph: Phase| phase_view(ph)));
    assert(p1.variables@.map_values(|v: (String, String)| (v.0@, v.1@)) =~= p2.variables@.map_values(
        |v: (String, String)| (v.0@, v.1@),
    ));
}

} // verus!
