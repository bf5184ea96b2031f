use xargo::config::{ConfigDocument, ConfigValue};
use xargo::errors::Error;
use xargo::home::SysrootHome;
use xargo::invoke::{build_outcome, plan_build};
use xargo::locks::LockMode;
use xargo::paths::AbsPath;
use xargo::resolver::{
    ancestors, config_file_name, declared_src, find_and_parse, nearest_candidate,
    resolve_external_source, split_slashes, ConfigResolution, SourceResolution,
};

fn table(pairs: Vec<(&str, ConfigValue)>) -> ConfigValue {
    ConfigValue::Table(pairs.into_iter().map(|(k, v)| (k.to_string(), v)).collect())
}

fn sample_doc() -> ConfigDocument {
    ConfigDocument {
        root: table(vec![
            ("dependencies", table(vec![("alloc", ConfigValue::Other)])),
            (
                "target",
                table(vec![(
                    "x86_64-foo",
                    table(vec![("dependencies", table(vec![("core", ConfigValue::Other)]))]),
                )]),
            ),
            ("patch", table(vec![])),
        ]),
    }
}

fn segs(p: &AbsPath) -> Vec<String> {
    p.segments.clone()
}

#[test]
fn target_dependencies_exact_and_absent() {
    let doc = sample_doc();
    match doc.target_dependencies("x86_64-foo") {
        Some(ConfigValue::Table(pairs)) => {
            assert_eq!(pairs.len(), 1);
            assert_eq!(pairs[0].0, "core");
        }
        _ => panic!("expected the nested dependencies table"),
    }
    assert!(doc.target_dependencies("x86_64-bar").is_none());
    // The other recognised lookups are unaffected.
    match doc.dependencies() {
        Some(ConfigValue::Table(pairs)) => assert_eq!(pairs[0].0, "alloc"),
        _ => panic!("expected the top-level dependencies table"),
    }
    assert!(matches!(doc.patch(), Some(ConfigValue::Table(_))));
    assert!(doc.package().is_none());
}

#[test]
fn missing_keys_do_not_fail_the_document() {
    let doc = ConfigDocument { root: table(vec![]) };
    assert!(doc.dependencies().is_none());
    assert!(doc.target_dependencies("x86_64-foo").is_none());
    assert!(doc.patch().is_none());
    assert!(doc.package().is_none());
    assert!(doc.rust_src().is_none());
}

#[test]
fn rust_src_needs_a_string() {
    let with_string = ConfigDocument {
        root: table(vec![(
            "package",
            table(vec![("rust-src", ConfigValue::Str("a/b/c".to_string()))]),
        )]),
    };
    assert_eq!(with_string.rust_src().expect("declared string"), "a/b/c");
    let with_other = ConfigDocument {
        root: table(vec![("package", table(vec![("rust-src", ConfigValue::Other)]))]),
    };
    assert!(with_other.rust_src().is_none());
}

#[test]
fn split_keeps_every_component() {
    assert_eq!(split_slashes("a/b/c"), vec!["a", "b", "c"]);
    assert_eq!(split_slashes(""), vec![""]);
    assert_eq!(split_slashes("a//b"), vec!["a", "", "b"]);
    assert_eq!(split_slashes("/abs/p"), vec!["", "abs", "p"]);
    assert_eq!(split_slashes("plain"), vec!["plain"]);
    // Re-joining with the separator restores the declared string.
    assert_eq!(split_slashes("a/b/c").join("/"), "a/b/c");
    assert_eq!(split_slashes("/a//b/").join("/"), "/a//b/");
}

#[test]
fn external_source_applied_missing_or_absent() {
    let declared = ConfigResolution::Parsed {
        dir: AbsPath::from_segments(vec!["proj".to_string()]),
        doc: ConfigDocument {
            root: table(vec![(
                "package",
                table(vec![("rust-src", ConfigValue::Str("a/b/c".to_string()))]),
            )]),
        },
    };
    assert_eq!(declared_src(&declared).expect("declared"), "a/b/c");
    // The declared components, rejoined natively by the shell, resolved to
    // an existing directory:
    let canonical = AbsPath::from_segments(vec![
        "proj".to_string(),
        "a".to_string(),
        "b".to_string(),
        "c".to_string(),
    ]);
    match resolve_external_source(&declared, Some(canonical)) {
        Ok(SourceResolution::Applied(src)) => {
            assert_eq!(segs(&src.path), vec!["proj", "a", "b", "c"]);
        }
        _ => panic!("expected the override to apply"),
    }
    // The directory does not exist: dropped, with exactly one warning state.
    let mut warnings = 0;
    match resolve_external_source(&declared, None) {
        Ok(SourceResolution::MissingDirectory) => warnings += 1,
        _ => panic!("expected the missing-directory outcome"),
    }
    assert_eq!(warnings, 1);
    // Nothing declared: silently absent.
    let undeclared = ConfigResolution::Parsed {
        dir: AbsPath::from_segments(vec!["proj".to_string()]),
        doc: ConfigDocument { root: table(vec![]) },
    };
    assert!(matches!(
        resolve_external_source(&undeclared, None),
        Ok(SourceResolution::NotDeclared)
    ));
}

#[test]
fn malformed_file_is_fatal() {
    let res = ConfigResolution::Malformed {
        dir: AbsPath::from_segments(vec!["proj".to_string()]),
        message: "expected a table".to_string(),
    };
    match resolve_external_source(&res, None) {
        Err(Error::ConfigParseError { dir, message }) => {
            assert_eq!(segs(&dir), vec!["proj"]);
            assert_eq!(message, "expected a table");
        }
        _ => panic!("expected a parse error"),
    }
}

#[test]
fn ancestors_walk_upward() {
    let root = AbsPath::from_segments(vec!["a".to_string(), "b".to_string(), "c".to_string()]);
    let walk = ancestors(&root);
    let views: Vec<Vec<String>> = walk.iter().map(segs).collect();
    assert_eq!(
        views,
        vec![
            vec!["a".to_string(), "b".to_string(), "c".to_string()],
            vec!["a".to_string(), "b".to_string()],
            vec!["a".to_string()],
            Vec::<String>::new(),
        ]
    );
}

#[test]
fn nearest_match_wins_the_search() {
    assert_eq!(config_file_name(), "Xargo.toml");
    // Candidates are ordered from the project root upward: the first hit
    // is the closest directory.
    assert_eq!(nearest_candidate(&vec![false, true, true]), Some(1));
    assert_eq!(nearest_candidate(&vec![true, false, true]), Some(0));
    assert_eq!(nearest_candidate(&vec![false, false, false]), None);
    assert_eq!(nearest_candidate(&Vec::new()), None);
}

#[test]
fn no_config_file_is_not_an_error() {
    // No Xargo.toml anywhere above the project root: resolution reports
    // absence, the override is silently absent, and the build still plans.
    let res = find_and_parse(None);
    assert!(matches!(res, ConfigResolution::NoFile));
    assert!(matches!(
        resolve_external_source(&res, None),
        Ok(SourceResolution::NotDeclared)
    ));
    let home = SysrootHome::resolve(
        Some(AbsPath::from_segments(vec!["home".to_string(), "me".to_string()])),
        None,
        false,
    )
    .expect("home resolves without configuration");
    let plan = plan_build(
        &vec!["build".to_string()],
        false,
        "--sysroot /home/me".to_string(),
        String::new(),
        &home,
        "host",
        "target",
        false,
    );
    assert_eq!(plan.env.len(), 1);
    assert_eq!(plan.env[0].0, "RUSTFLAGS");
    assert_eq!(plan.env[0].1, "--sysroot /home/me");
    assert_eq!(plan.args, vec!["build"]);
}

#[test]
fn plan_injects_doc_flags_only_for_doc_subcommand() {
    let home = SysrootHome::resolve(
        Some(AbsPath::from_segments(vec!["home".to_string(), "me".to_string()])),
        None,
        false,
    )
    .expect("home resolves");
    let plan = plan_build(
        &vec!["doc".to_string(), "--no-deps".to_string()],
        true,
        "flags".to_string(),
        "doc-flags".to_string(),
        &home,
        "host",
        "target",
        true,
    );
    assert_eq!(plan.args, vec!["doc", "--no-deps"]);
    assert!(plan.echo_flags);
    assert_eq!(plan.env.len(), 2);
    assert_eq!(plan.env[0], ("RUSTDOCFLAGS".to_string(), "doc-flags".to_string()));
    assert_eq!(plan.env[1], ("RUSTFLAGS".to_string(), "flags".to_string()));
    assert_eq!(plan.locks.len(), 2);
    assert_eq!(plan.locks[0].triple, "host");
    assert_eq!(plan.locks[0].mode, LockMode::Shared);
    assert_eq!(
        segs(&plan.locks[0].sentinel),
        vec!["home", "me", "lib", "rustlib", "host", ".sentinel"]
    );
    assert_eq!(plan.locks[1].triple, "target");
    assert_eq!(plan.locks[1].mode, LockMode::Shared);
    assert_eq!(
        segs(&plan.locks[1].sentinel),
        vec!["home", "me", "lib", "rustlib", "target", ".sentinel"]
    );
}

#[test]
fn build_outcome_distinguishes_launch_failure() {
    assert_eq!(build_outcome(Some(0)).ok(), Some(0));
    // A non-zero exit status is a normal, reportable outcome.
    assert_eq!(build_outcome(Some(101)).ok(), Some(101));
    assert!(matches!(build_outcome(None), Err(Error::BuildLaunchError)));
}
