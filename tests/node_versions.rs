use std::collections::BTreeMap;

use nixpacks_node::model::{App, Environment, NodeError, PackageJson, SourceFile, Yarnrc};
use nixpacks_node::plan::Pkg;
use nixpacks_node::provider::NodeProvider;
use nixpacks_node::version::DEFAULT_NODE_PKG_NAME;

fn engines_node(version: &str) -> Vec<(String, String)> {
    vec![("node".to_string(), version.to_string())]
}

fn manifest(name: &str) -> PackageJson {
    PackageJson {
        name: Some(name.to_string()),
        main: Some("index.js".to_string()),
        ..Default::default()
    }
}

/// The `examples/node` project: a manifest and an entry file.
fn node_example() -> App {
    App::new(
        vec![
            SourceFile::text("index.js", "console.log(\"Hello from Node\");\n"),
            SourceFile {
                path: "package.json".to_string(),
                contents: "{\"name\": \"node\", \"main\": \"index.js\"}".to_string(),
                manifest: Some(manifest("node")),
            },
        ],
        Yarnrc::default(),
    )
}

/// The `examples/node-nvmrc` project: as above, with an `.nvmrc`.
fn node_nvmrc_example() -> App {
    App::new(
        vec![
            SourceFile::text(".nvmrc", "v14\n"),
            SourceFile::text("index.js", "console.log(\"Hello from Node\");\n"),
            SourceFile {
                path: "package.json".to_string(),
                contents: "{\"name\": \"node-nvmrc\", \"main\": \"index.js\"}".to_string(),
                manifest: Some(manifest("node-nvmrc")),
            },
        ],
        Yarnrc::default(),
    )
}

fn pkg_for_engine(version: &str) -> Result<Pkg, NodeError> {
    NodeProvider::get_nix_node_pkg(
        &PackageJson {
            name: Some(String::default()),
            engines: Some(engines_node(version)),
            ..Default::default()
        },
        &node_example(),
        &Environment::default(),
    )
}

#[test]
fn test_no_engines() -> Result<(), NodeError> {
    assert_eq!(
        NodeProvider::get_nix_node_pkg(
            &PackageJson {
                name: Some(String::default()),
                ..Default::default()
            },
            &node_example(),
            &Environment::default()
        )?,
        Pkg::new(DEFAULT_NODE_PKG_NAME)
    );

    Ok(())
}

#[test]
fn test_star_engine() -> Result<(), NodeError> {
    assert_eq!(pkg_for_engine("*")?, Pkg::new(DEFAULT_NODE_PKG_NAME));

    Ok(())
}

#[test]
fn test_simple_engine() -> Result<(), NodeError> {
    assert_eq!(pkg_for_engine("14")?, Pkg::new("nodejs-14_x"));

    Ok(())
}

#[test]
fn test_simple_engine_x() -> Result<(), NodeError> {
    assert_eq!(pkg_for_engine("18.x")?, Pkg::new("nodejs-18_x"));
    assert_eq!(pkg_for_engine("14.X")?, Pkg::new("nodejs-14_x"));

    Ok(())
}

#[test]
fn test_advanced_engine_x() -> Result<(), NodeError> {
    assert_eq!(pkg_for_engine("18.x.x")?, Pkg::new("nodejs-18_x"));
    assert_eq!(pkg_for_engine("14.X.x")?, Pkg::new("nodejs-14_x"));

    Ok(())
}

#[test]
fn test_advanced_engine_number() -> Result<(), NodeError> {
    assert_eq!(pkg_for_engine("18.4.2")?, Pkg::new("nodejs-18_x"));
    assert_eq!(pkg_for_engine("14.8.x")?, Pkg::new("nodejs-14_x"));
    assert_eq!(pkg_for_engine("14.x.8")?, Pkg::new("nodejs-14_x"));

    Ok(())
}

#[test]
fn test_engine_range() -> Result<(), NodeError> {
    assert_eq!(pkg_for_engine(">=14.10.3 <16")?, Pkg::new("nodejs-14_x"));

    Ok(())
}

#[test]
fn test_version_from_environment_variable() -> Result<(), NodeError> {
    assert_eq!(
        NodeProvider::get_nix_node_pkg(
            &PackageJson {
                name: Some(String::default()),
                ..Default::default()
            },
            &node_example(),
            &Environment::new(
                BTreeMap::from([("NIXPACKS_NODE_VERSION".to_string(), "14".to_string())])
                    .into_iter()
                    .collect()
            )
        )?,
        Pkg::new("nodejs-14_x")
    );

    Ok(())
}

#[test]
fn test_version_from_nvmrc() -> Result<(), NodeError> {
    assert_eq!(
        NodeProvider::get_nix_node_pkg(
            &PackageJson {
                name: Some(String::default()),
                ..Default::default()
            },
            &node_nvmrc_example(),
            &Environment::default()
        )?,
        Pkg::new("nodejs-14_x")
    );

    Ok(())
}

#[test]
fn test_engine_invalid_version() -> Result<(), NodeError> {
    // an unsupported major falls back to the default package
    assert_eq!(pkg_for_engine("15")?.name, DEFAULT_NODE_PKG_NAME);

    Ok(())
}

#[test]
fn override_beats_engine() -> Result<(), NodeError> {
    let pkg = NodeProvider::get_nix_node_pkg(
        &PackageJson {
            engines: Some(engines_node("18.x")),
            ..Default::default()
        },
        &node_nvmrc_example(),
        &Environment::new(vec![("NIXPACKS_NODE_VERSION".to_string(), "14".to_string())]),
    )?;
    assert_eq!(pkg.name, "nodejs-14_x");
    Ok(())
}

#[test]
fn engine_beats_nvmrc() -> Result<(), NodeError> {
    let pkg = NodeProvider::get_nix_node_pkg(
        &PackageJson {
            engines: Some(engines_node("18")),
            ..Default::default()
        },
        &node_nvmrc_example(),
        &Environment::default(),
    )?;
    assert_eq!(pkg.name, "nodejs-18_x");
    Ok(())
}

#[test]
fn other_variables_are_ignored() -> Result<(), NodeError> {
    let pkg = NodeProvider::get_nix_node_pkg(
        &PackageJson::default(),
        &node_example(),
        &Environment::new(vec![("NODE_VERSION".to_string(), "14".to_string())]),
    )?;
    assert_eq!(pkg.name, DEFAULT_NODE_PKG_NAME);
    Ok(())
}

#[test]
fn unreadable_constraints_give_default() -> Result<(), NodeError> {
    assert_eq!(pkg_for_engine("lts/*")?.name, DEFAULT_NODE_PKG_NAME);
    assert_eq!(pkg_for_engine("")?.name, DEFAULT_NODE_PKG_NAME);
    assert_eq!(pkg_for_engine(">= 14")?.name, DEFAULT_NODE_PKG_NAME);
    assert_eq!(pkg_for_engine("99999999999999")?.name, DEFAULT_NODE_PKG_NAME);
    assert_eq!(pkg_for_engine(">=16")?.name, "nodejs-16_x");
    Ok(())
}

fn with_nvmrc(text: &str) -> App {
    App::new(
        vec![
            SourceFile::text(".nvmrc", text),
            SourceFile {
                path: "package.json".to_string(),
                contents: "{}".to_string(),
                manifest: Some(PackageJson::default()),
            },
        ],
        Yarnrc::default(),
    )
}

#[test]
fn pin_file_prefix_is_stripped() -> Result<(), NodeError> {
    let env = Environment::default();
    let pj = PackageJson::default();
    let pkg = |text: &str| NodeProvider::get_nix_node_pkg(&pj, &with_nvmrc(text), &env);
    assert_eq!(pkg("v18.12.0\n")?.name, "nodejs-18_x");
    assert_eq!(pkg("^18")?.name, "nodejs-18_x");
    assert_eq!(pkg("  14.x  \n")?.name, "nodejs-14_x");
    assert_eq!(pkg("vv18")?.name, DEFAULT_NODE_PKG_NAME);
    assert_eq!(pkg("\n")?.name, DEFAULT_NODE_PKG_NAME);
    Ok(())
}
