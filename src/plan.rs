//! Build plans: ordered phases with their commands, packages and caches.
use vstd::prelude::*;

verus! {

/// A Nix package, optionally taken from an overlay.
#[derive(Debug, PartialEq, Eq)]
pub struct Pkg {
    pub name: String,
    pub overlay: Option<String>,
}

impl Pkg {
    pub fn new(name: &str) -> (r: Pkg)
        ensures
            r.name@ == name@,
            r.overlay is None,
    {
        Pkg { name: String::from_str(name), overlay: None }
    }

    /// The same package, taken from the overlay at `overlay`.
    pub fn from_overlay(self, overlay: &str) -> (r: Pkg)
        ensures
            r.name == self.name,
            r.overlay matches Some(o) && o@ == overlay@,
    {
        Pkg { name: self.name, overlay: Some(String::from_str(overlay)) }
    }
}

/// One stage of a build.
#[derive(Debug)]
pub struct Phase {
    pub name: String,
    pub cmds: Vec<String>,
    pub nix_pkgs: Vec<Pkg>,
    pub nix_libs: Vec<String>,
    pub apt_pkgs: Vec<String>,
    pub cache_directories: Vec<String>,
    pub paths: Vec<String>,
}

impl Phase {
    fn named(name: &str, cmd: Option<String>) -> (r: Phase)
        ensures
            r.name@ == name@,
            cmd matches Some(c) ==> r.cmds@ == seq![c],
            cmd is None ==> r.cmds@ == Seq::<String>::empty(),
            r.nix_pkgs@.len() == 0,
            r.nix_libs@.len() == 0,
            r.apt_pkgs@.len() == 0,
            r.cache_directories@.len() == 0,
            r.paths@.len() == 0,
    {
        let mut cmds: Vec<String> = Vec::new();
        match cmd {
            Some(c) => {
                cmds.push(c);
            },
            None => {},
        }
        Phase {
            name: String::from_str(name),
            cmds,
            nix_pkgs: Vec::new(),
            nix_libs: Vec::new(),
            apt_pkgs: Vec::new(),
            cache_directories: Vec::new(),
            paths: Vec::new(),
        }
    }

    /// The setup phase, installing `pkgs`.
    pub fn setup(pkgs: Option<Vec<Pkg>>) -> (r: Phase)
        ensures
            r.name@ == "setup"@,
            r.cmds@.len() == 0,
            pkgs matches Some(p) ==> r.nix_pkgs@ == p@,
            pkgs is None ==> r.nix_pkgs@.len() == 0,
            r.nix_libs@.len() == 0,
            r.apt_pkgs@.len() == 0,
            r.cache_directories@.len() == 0,
            r.paths@.len() == 0,
    {
        let mut phase = Phase::named("setup", None);
        match pkgs {
            Some(p) => {
                phase.nix_pkgs = p;
            },
            None => {},
        }
        phase
    }

    /// The install phase, running `cmd` when there is one.
    pub fn install(cmd: Option<String>) -> (r: Phase)
        ensures
            r.name@ == "install"@,
            cmd matches Some(c) ==> r.cmds@ == seq![c],
            cmd is None ==> r.cmds@.len() == 0,
            r.nix_pkgs@.len() == 0,
            r.nix_libs@.len() == 0,
            r.apt_pkgs@.len() == 0,
            r.cache_directories@.len() == 0,
            r.paths@.len() == 0,
    {
        Phase::named("install", cmd)
    }

    /// The build phase, running `cmd` when there is one.
    pub fn build(cmd: Option<String>) -> (r: Phase)
        ensures
            r.name@ == "build"@,
            cmd matches Some(c) ==> r.cmds@ == seq![c],
            cmd is None ==> r.cmds@.len() == 0,
            r.nix_pkgs@.len() == 0,
            r.nix_libs@.len() == 0,
            r.apt_pkgs@.len() == 0,
            r.cache_directories@.len() == 0,
            r.paths@.len() == 0,
    {
        Phase::named("build", cmd)
    }

    pub fn add_apt_pkgs(&mut self, pkgs: Vec<String>)
        ensures
            final(self).apt_pkgs@ == old(self).apt_pkgs@ + pkgs@,
            final(self).name == old(self).name,
            final(self).cmds == old(self).cmds,
            final(self).nix_pkgs == old(self).nix_pkgs,
            final(self).nix_libs == old(self).nix_libs,
            final(self).cache_directories == old(self).cache_directories,
            final(self).paths == old(self).paths,
    {
        let mut pkgs = pkgs;
        self.apt_pkgs.append(&mut pkgs);
    }

    pub fn add_pkgs_libs(&mut self, libs: Vec<String>)
        ensures
            final(self).nix_libs@ == old(self).nix_libs@ + libs@,
            final(self).name == old(self).name,
            final(self).cmds == old(self).cmds,
            final(self).nix_pkgs == old(self).nix_pkgs,
            final(self).apt_pkgs == old(self).apt_pkgs,
            final(self).cache_directories == old(self).cache_directories,
            final(self).paths == old(self).paths,
    {
        let mut libs = libs;
        self.nix_libs.append(&mut libs);
    }

    pub fn add_cache_directory(&mut self, dir: String)
        ensures
            final(self).cache_directories@ == old(self).cache_directories@.push(dir),
            final(self).name == old(self).name,
            final(self).cmds == old(self).cmds,
            final(self).nix_pkgs == old(self).nix_pkgs,
            final(self).nix_libs == old(self).nix_libs,
            final(self).apt_pkgs == old(self).apt_pkgs,
            final(self).paths == old(self).paths,
    {
        self.cache_directories.push(dir);
    }

    pub fn add_path(&mut self, path: String)
        ensures
            final(self).paths@ == old(self).paths@.push(path),
            final(self).name == old(self).name,
            final(self).cmds == old(self).cmds,
            final(self).nix_pkgs == old(self).nix_pkgs,
            final(self).nix_libs == old(self).nix_libs,
            final(self).apt_pkgs == old(self).apt_pkgs,
            final(self).cache_directories == old(self).cache_directories,
    {
        self.paths.push(path);
    }
}

/// The command that runs the built project.
#[derive(Debug)]
pub struct StartPhase {
    pub cmd: Option<String>,
}

impl StartPhase {
    pub fn new(cmd: String) -> (r: StartPhase)
        ensures
            r.cmd == Some(cmd),
    {
        StartPhase { cmd: Some(cmd) }
    }
}

/// Phases in order, the start command, and variables set for every phase.
#[derive(Debug)]
pub struct BuildPlan {
    pub phases: Vec<Phase>,
    pub start_phase: Option<StartPhase>,
    pub variables: Vec<(String, String)>,
}

impl BuildPlan {
    pub fn new(phases: Vec<Phase>, start_phase: Option<StartPhase>) -> (r: BuildPlan)
        ensures
            r.phases@ == phases@,
            r.start_phase == start_phase,
            r.variables@.len() == 0,
    {
        BuildPlan { phases, start_phase, variables: Vec::new() }
    }

    pub fn add_variables(&mut self, variables: Vec<(String, String)>)
        ensures
            final(self).variables@ == old(self).variables@ + variables@,
            final(self).phases == old(self).phases,
            final(self).start_phase == old(self).start_phase,
    {
        let mut variables = variables;
        self.variables.append(&mut variables);
    }
}

} // verus!
