use nixpacks_node::model::{
    App, DelegateReport, Environment, NodeError, Orchestrators, PackageJson, SourceFile, Yarnrc,
};
use nixpacks_node::provider::{NodeProvider, PackageManager};

fn pairs(items: &[(&str, &str)]) -> Vec<(String, String)> {
    items.iter().map(|(k, v)| (k.to_string(), v.to_string())).collect()
}

fn manifest_file(path: &str, manifest: PackageJson) -> SourceFile {
    SourceFile {
        path: path.to_string(),
        contents: "{}".to_string(),
        manifest: Some(manifest),
    }
}

fn with_deps(deps: &[(&str, &str)]) -> PackageJson {
    PackageJson {
        dependencies: Some(pairs(deps)),
        ..Default::default()
    }
}

fn app(files: Vec<SourceFile>) -> App {
    App::new(files, Yarnrc::default())
}

fn monorepo() -> App {
    app(vec![
        manifest_file(
            "package.json",
            PackageJson {
                name: Some("node-monorepo".to_string()),
                dev_dependencies: Some(pairs(&[("typescript", "^4.7.4")])),
                ..Default::default()
            },
        ),
        manifest_file(
            "packages/client/package.json",
            with_deps(&[("next", "12.2.0"), ("react", "18.2.0")]),
        ),
        manifest_file("packages/server/package.json", with_deps(&[("express", "^4.18.1")])),
    ])
}

#[test]
fn test_find_next_packages() -> Result<(), NodeError> {
    assert_eq!(
        NodeProvider::find_next_packages(&monorepo())?,
        vec!["packages/client".to_string()]
    );
    assert_eq!(
        NodeProvider::find_next_packages(&app(vec![manifest_file(
            "package.json",
            with_deps(&[("next", "12.2.0"), ("react", "18.2.0")]),
        )]))?,
        vec![String::new()]
    );

    Ok(())
}

#[test]
fn pnpm_lockfile_beats_yarn_lockfile() {
    let a = app(vec![
        manifest_file("package.json", PackageJson::default()),
        SourceFile::text("yarn.lock", ""),
        SourceFile::text("pnpm-lock.yaml", "lockfileVersion: 5.4\n"),
    ]);
    assert_eq!(NodeProvider::detect_package_manager(&a), PackageManager::Pnpm);
    assert_eq!(NodeProvider::get_package_manager(&a), "pnpm");
    assert_eq!(NodeProvider::get_package_manager_dlx_command(&a), "pnpx");
    assert_eq!(NodeProvider::get_package_manager_cache_dir(&a), "/root/.cache/pnpm");
    assert_eq!(
        NodeProvider::get_install_command(&a),
        Some("pnpm i --frozen-lockfile".to_string())
    );
}

#[test]
fn package_manager_facts() {
    let yarn = app(vec![
        manifest_file("package.json", PackageJson::default()),
        SourceFile::text("yarn.lock", ""),
    ]);
    assert_eq!(NodeProvider::get_package_manager(&yarn), "yarn");
    assert_eq!(NodeProvider::get_package_manager_dlx_command(&yarn), "yarn");
    assert_eq!(
        NodeProvider::get_install_command(&yarn),
        Some("yarn install --frozen-lockfile".to_string())
    );
    assert_eq!(
        NodeProvider::get_package_manager_cache_dir(&yarn),
        "/usr/local/share/.cache/yarn/v6"
    );

    let bun = app(vec![
        manifest_file("package.json", PackageJson::default()),
        SourceFile::text("bun.lockb", ""),
    ]);
    assert_eq!(NodeProvider::get_package_manager(&bun), "bun");
    assert_eq!(NodeProvider::get_executor(&bun), "bun");
    assert_eq!(NodeProvider::get_package_manager_dlx_command(&bun), "npx");
    assert_eq!(NodeProvider::get_install_command(&bun), Some("bun i --no-save".to_string()));
    assert_eq!(NodeProvider::get_package_manager_cache_dir(&bun), "/root/.bun");

    let npm = app(vec![
        manifest_file("package.json", PackageJson::default()),
        SourceFile::text("package-lock.json", "{}"),
    ]);
    assert_eq!(NodeProvider::get_package_manager(&npm), "npm");
    assert_eq!(NodeProvider::get_executor(&npm), "node");
    assert_eq!(NodeProvider::get_install_command(&npm), Some("npm ci".to_string()));
    assert_eq!(NodeProvider::get_package_manager_cache_dir(&npm), "/root/.npm");

    assert_eq!(NodeProvider::get_install_command(&app(vec![])), None);
}

#[test]
fn yarn_berry_install() {
    let files = || {
        vec![
            manifest_file("package.json", PackageJson::default()),
            SourceFile::text("yarn.lock", ""),
            SourceFile::text(".yarnrc.yml", "yarnPath: .yarn/releases/yarn-3.2.1.cjs\n"),
        ]
    };
    let pinned = App::new(
        files(),
        Yarnrc {
            yarn_path: Some(".yarn/releases/yarn-3.2.1.cjs".to_string()),
        },
    );
    assert_eq!(
        NodeProvider::get_install_command(&pinned),
        Some(
            "yarn set version ./.yarn/releases/yarn-3.2.1.cjs && yarn install --check-cache"
                .to_string()
        )
    );
    let berry = App::new(files(), Yarnrc::default());
    assert_eq!(
        NodeProvider::get_install_command(&berry),
        Some("yarn set version berry && yarn install --check-cache".to_string())
    );
}

#[test]
fn dependency_scan_skips_install_dirs() -> Result<(), NodeError> {
    let a = app(vec![
        manifest_file("package.json", with_deps(&[("react", "18.2.0")])),
        manifest_file("node_modules/cypress/package.json", with_deps(&[("cypress", "1")])),
        SourceFile {
            path: "node_modules/broken/package.json".to_string(),
            contents: "{".to_string(),
            manifest: None,
        },
        manifest_file(
            "web/package.json",
            PackageJson {
                dev_dependencies: Some(pairs(&[("react", "18"), ("vite", "3")])),
                ..Default::default()
            },
        ),
    ]);
    let mut deps = NodeProvider::get_all_deps(&a)?;
    deps.sort();
    assert_eq!(deps, vec!["react".to_string(), "vite".to_string()]);
    Ok(())
}

#[test]
fn malformed_manifest_is_an_error() {
    let a = app(vec![SourceFile {
        path: "package.json".to_string(),
        contents: "{".to_string(),
        manifest: None,
    }]);
    assert!(matches!(
        NodeProvider::get_all_deps(&a),
        Err(NodeError::MalformedManifest { .. })
    ));
    assert!(NodeProvider::find_next_packages(&a).is_err());
    assert!(NodeProvider::get_nix_packages(&a, &Environment::default()).is_err());
    assert!(NodeProvider::get_build_plan(&a, &Environment::default(), &Orchestrators::default())
        .is_err());
    assert_eq!(NodeProvider::has_script(&a, "build").unwrap(), false);
}

#[test]
fn dependencies_listed_once() {
    let pj = PackageJson {
        dependencies: Some(pairs(&[("a", "1"), ("b", "1")])),
        dev_dependencies: Some(pairs(&[("b", "2"), ("c", "1")])),
        ..Default::default()
    };
    let mut deps = NodeProvider::get_deps_from_package_json(&pj);
    deps.sort();
    assert_eq!(deps, vec!["a".to_string(), "b".to_string(), "c".to_string()]);
    assert!(NodeProvider::get_deps_from_package_json(&PackageJson::default()).is_empty());
}

#[test]
fn next_cache_dirs_in_plan() -> Result<(), NodeError> {
    let plan = NodeProvider::get_build_plan(
        &monorepo(),
        &Environment::default(),
        &Orchestrators::default(),
    )?
    .unwrap();
    assert_eq!(
        plan.phases[2].cache_directories,
        vec!["packages/client/.next/cache".to_string(), "node_modules/.cache".to_string()]
    );
    let root = app(vec![manifest_file("package.json", with_deps(&[("next", "12")]))]);
    let plan =
        NodeProvider::get_build_plan(&root, &Environment::default(), &Orchestrators::default())?
            .unwrap();
    assert_eq!(
        plan.phases[2].cache_directories,
        vec![".next/cache".to_string(), "node_modules/.cache".to_string()]
    );
    Ok(())
}

#[test]
fn plan_is_deterministic() -> Result<(), NodeError> {
    let a = monorepo();
    let env = Environment::new(vec![("NIXPACKS_NODE_VERSION".to_string(), "18".to_string())]);
    let first = NodeProvider::get_build_plan(&a, &env, &Orchestrators::default())?;
    let second = NodeProvider::get_build_plan(&a, &env, &Orchestrators::default())?;
    assert_eq!(format!("{:?}", first), format!("{:?}", second));
    Ok(())
}

#[test]
fn build_script_only_project() -> Result<(), NodeError> {
    let a = app(vec![manifest_file(
        "package.json",
        PackageJson {
            scripts: Some(pairs(&[("build", "tsc")])),
            ..Default::default()
        },
    )]);
    let plan =
        NodeProvider::get_build_plan(&a, &Environment::default(), &Orchestrators::default())?
            .unwrap();
    assert_eq!(plan.phases.len(), 3);
    let setup = &plan.phases[0];
    assert_eq!(setup.name, "setup");
    assert_eq!(setup.nix_pkgs.len(), 2);
    assert_eq!(setup.nix_pkgs[0].name, "nodejs-16_x");
    assert_eq!(setup.nix_pkgs[0].overlay, None);
    assert_eq!(setup.nix_pkgs[1].name, "npm-8_x");
    assert_eq!(
        setup.nix_pkgs[1].overlay.as_deref(),
        Some("https://github.com/railwayapp/nix-npm-overlay/archive/main.tar.gz")
    );
    assert!(setup.apt_pkgs.is_empty());
    assert!(setup.nix_libs.is_empty());
    let install = &plan.phases[1];
    assert_eq!(install.cmds, vec!["npm i".to_string()]);
    assert_eq!(install.cache_directories, vec!["/root/.npm".to_string()]);
    assert_eq!(install.paths, vec!["/app/node_modules/.bin".to_string()]);
    let build = &plan.phases[2];
    assert_eq!(build.cmds, vec!["npm run build".to_string()]);
    assert_eq!(build.cache_directories, vec!["node_modules/.cache".to_string()]);
    assert!(plan.start_phase.is_none());
    assert_eq!(
        plan.variables,
        pairs(&[("NODE_ENV", "production"), ("NPM_CONFIG_PRODUCTION", "false"), ("CI", "true")])
    );
    Ok(())
}

#[test]
fn start_command_sources() -> Result<(), NodeError> {
    let none = Orchestrators::default();
    let scripted = app(vec![
        manifest_file(
            "package.json",
            PackageJson {
                scripts: Some(pairs(&[("start", "node server.js")])),
                main: Some("server.js".to_string()),
                ..Default::default()
            },
        ),
        SourceFile::text("server.js", ""),
        SourceFile::text("yarn.lock", ""),
    ]);
    assert_eq!(
        NodeProvider::get_start_cmd(&scripted, &none)?,
        Some("yarn run start".to_string())
    );
    let main = app(vec![
        manifest_file(
            "package.json",
            PackageJson {
                main: Some("server.js".to_string()),
                ..Default::default()
            },
        ),
        SourceFile::text("server.js", ""),
        SourceFile::text("index.js", ""),
    ]);
    assert_eq!(NodeProvider::get_start_cmd(&main, &none)?, Some("node server.js".to_string()));
    let missing_main = app(vec![
        manifest_file(
            "package.json",
            PackageJson {
                main: Some("dist/server.js".to_string()),
                ..Default::default()
            },
        ),
        SourceFile::text("index.js", ""),
    ]);
    assert_eq!(
        NodeProvider::get_start_cmd(&missing_main, &none)?,
        Some("node index.js".to_string())
    );
    let bun = app(vec![
        manifest_file("package.json", PackageJson::default()),
        SourceFile::text("bun.lockb", ""),
        SourceFile::text("index.ts", ""),
    ]);
    assert_eq!(NodeProvider::get_start_cmd(&bun, &none)?, Some("bun index.ts".to_string()));
    let ts_npm = app(vec![
        manifest_file("package.json", PackageJson::default()),
        SourceFile::text("index.ts", ""),
    ]);
    assert_eq!(NodeProvider::get_start_cmd(&ts_npm, &none)?, None);
    Ok(())
}

#[test]
fn monorepo_tools_come_first() -> Result<(), NodeError> {
    let a = app(vec![manifest_file(
        "package.json",
        PackageJson {
            scripts: Some(pairs(&[("build", "tsc"), ("start", "node .")])),
            ..Default::default()
        },
    )]);
    let turbo = Orchestrators {
        nx: DelegateReport::not_applicable(),
        turborepo: DelegateReport {
            applicable: true,
            build_cmd: Ok(Some("npx turbo run build".to_string())),
            start_cmd: Err(NodeError::Orchestrator {
                message: "no start pipeline".to_string(),
            }),
        },
    };
    assert_eq!(
        NodeProvider::get_build_cmd(&a, &turbo)?,
        Some("npx turbo run build".to_string())
    );
    assert_eq!(NodeProvider::get_start_cmd(&a, &turbo)?, Some("npm run start".to_string()));

    let nx = Orchestrators {
        nx: DelegateReport {
            applicable: true,
            build_cmd: Ok(Some("npx nx run app:build".to_string())),
            start_cmd: Err(NodeError::Orchestrator {
                message: "bad project.json".to_string(),
            }),
        },
        turborepo: DelegateReport::not_applicable(),
    };
    assert_eq!(
        NodeProvider::get_build_cmd(&a, &nx)?,
        Some("npx nx run app:build".to_string())
    );
    assert!(matches!(
        NodeProvider::get_start_cmd(&a, &nx),
        Err(NodeError::Orchestrator { message }) if message == "bad project.json"
    ));
    assert!(NodeProvider::get_build_plan(&a, &Environment::default(), &nx).is_err());

    let idle = Orchestrators {
        nx: DelegateReport {
            applicable: false,
            build_cmd: Ok(Some("npx nx run app:build".to_string())),
            start_cmd: Ok(Some("npx nx run app:serve".to_string())),
        },
        turborepo: DelegateReport::not_applicable(),
    };
    assert_eq!(NodeProvider::get_build_cmd(&a, &idle)?, Some("npm run build".to_string()));
    Ok(())
}

#[test]
fn dependency_triggered_packages() -> Result<(), NodeError> {
    let puppeteer = app(vec![manifest_file(
        "package.json",
        with_deps(&[("puppeteer", "15"), ("cypress", "10")]),
    )]);
    let puppeteer = App {
        files: {
            let mut f = puppeteer.files;
            f[0].contents = "{\"dependencies\": {\"puppeteer\": \"15\", \"cypress\": \"10\"}}".to_string();
            f
        },
        yarnrc: Yarnrc::default(),
    };
    assert!(NodeProvider::uses_node_dependency(&puppeteer, "puppeteer"));
    assert!(!NodeProvider::uses_node_dependency(&puppeteer, "canvas"));
    let plan =
        NodeProvider::get_build_plan(&puppeteer, &Environment::default(), &Orchestrators::default())?
            .unwrap();
    assert_eq!(plan.phases[0].apt_pkgs.len(), 11);
    assert_eq!(plan.phases[0].apt_pkgs[0], "libnss3");
    assert!(plan.phases[0].nix_libs.is_empty());
    assert_eq!(
        plan.phases[1].cache_directories,
        vec!["/root/.npm".to_string(), "/root/.cache/Cypress".to_string()]
    );

    let canvas = app(vec![
        manifest_file("package.json", PackageJson::default()),
        SourceFile::text("yarn.lock", "canvas@^2.9.3:\n  version \"2.9.3\"\n"),
    ]);
    let plan =
        NodeProvider::get_build_plan(&canvas, &Environment::default(), &Orchestrators::default())?
            .unwrap();
    assert!(plan.phases[0].apt_pkgs.is_empty());
    assert_eq!(plan.phases[0].nix_libs, vec!["libuuid".to_string(), "libGL".to_string()]);
    assert_eq!(plan.phases[0].nix_pkgs[1].name, "yarn-1_x");
    Ok(())
}

#[test]
fn lockfile_versions_pick_manager_packages() -> Result<(), NodeError> {
    let env = Environment::default();
    let pnpm6 = app(vec![SourceFile::text("pnpm-lock.yaml", "lockfileVersion: 5.3\n")]);
    let pkgs = NodeProvider::get_nix_packages(&pnpm6, &env)?;
    assert_eq!(pkgs[1].name, "pnpm-6_x");
    let pnpm7 = app(vec![SourceFile::text("pnpm-lock.yaml", "lockfileVersion: 5.4\n")]);
    assert_eq!(NodeProvider::get_nix_packages(&pnpm7, &env)?[1].name, "pnpm-7_x");
    let npm6 = app(vec![SourceFile::text(
        "package-lock.json",
        "{\n  \"lockfileVersion\": 1,\n}",
    )]);
    assert_eq!(NodeProvider::get_nix_packages(&npm6, &env)?[1].name, "npm-6_x");
    let bun = app(vec![SourceFile::text("bun.lockb", "")]);
    let pkgs = NodeProvider::get_nix_packages(&bun, &env)?;
    assert_eq!(pkgs.len(), 1);
    assert_eq!(pkgs[0].name, "bun");
    Ok(())
}

#[test]
fn detects_node_projects() {
    let provider = NodeProvider {};
    assert_eq!(provider.name(), "node");
    assert!(provider.detect(&monorepo()));
    assert!(!provider.detect(&app(vec![SourceFile::text("main.py", "")])));
    assert!(NodeProvider::has_script(
        &app(vec![manifest_file(
            "package.json",
            PackageJson {
                scripts: Some(pairs(&[("build", "tsc")])),
                ..Default::default()
            }
        )]),
        "build"
    )
    .unwrap());
}

#[test]
fn bun_install_ignores_npm_lockfile() {
    let a = app(vec![
        manifest_file("package.json", PackageJson::default()),
        SourceFile::text("bun.lockb", ""),
        SourceFile::text("package-lock.json", "{}"),
    ]);
    assert_eq!(NodeProvider::get_package_manager(&a), "bun");
    assert_eq!(NodeProvider::get_install_command(&a), Some("bun i --no-save".to_string()));
}

#[test]
fn install_dir_manifests_change_nothing() -> Result<(), NodeError> {
    let base = monorepo();
    let mut files = monorepo().files;
    files.push(manifest_file(
        "node_modules/next/package.json",
        with_deps(&[("next", "12"), ("cypress", "10")]),
    ));
    files.push(SourceFile {
        path: "packages/client/node_modules/x/package.json".to_string(),
        contents: "{".to_string(),
        manifest: None,
    });
    let noisy = App::new(files, Yarnrc::default());
    assert_eq!(
        NodeProvider::find_next_packages(&noisy)?,
        NodeProvider::find_next_packages(&base)?
    );
    let mut d1 = NodeProvider::get_all_deps(&noisy)?;
    let mut d2 = NodeProvider::get_all_deps(&base)?;
    d1.sort();
    d2.sort();
    assert_eq!(d1, d2);
    Ok(())
}
