use proto_detect::detect::detect_version;
use proto_detect::detect::detect_version_first_available;
use proto_detect::detect::detect_version_only_prototools;
use proto_detect::detect::detect_version_prefer_prototools;
use proto_detect::detect::resume_detect_version;
use proto_detect::detect::resume_first_available;
use proto_detect::detect::ConfigSource;
use proto_detect::detect::DetectError;
use proto_detect::detect::DetectOutcome;
use proto_detect::detect::DetectStep;
use proto_detect::detect::DetectStrategy;
use proto_detect::detect::ToolContext;
use proto_detect::detect::VersionSource;
use version_spec::UnresolvedVersionSpec;

fn node() -> ToolContext {
    ToolContext {
        id: "node".to_string(),
        name: "node".to_string(),
        env_prefix: "PROTO_NODE".to_string(),
    }
}

fn spec(s: &str) -> UnresolvedVersionSpec {
    UnresolvedVersionSpec::parse(s).unwrap()
}

fn source(path: &str, dir: &str, entries: Option<Vec<(&str, &str)>>) -> ConfigSource {
    ConfigSource {
        path: path.to_string(),
        dir: dir.to_string(),
        versions: entries.map(|es| {
            es.into_iter()
                .map(|(id, v)| (id.to_string(), spec(v)))
                .collect()
        }),
    }
}

fn hierarchy_with_near_eco_and_far_config() -> Vec<ConfigSource> {
    vec![
        source("/work/app/.prototools", "/work/app", None),
        source(
            "/work/.prototools",
            "/work",
            Some(vec![("node", "9.9.9")]),
        ),
    ]
}

fn all_strategies() -> Vec<DetectStrategy> {
    vec![
        DetectStrategy::FirstAvailable,
        DetectStrategy::PreferPrototools,
        DetectStrategy::OnlyPrototools,
    ]
}

#[test]
fn override_always_wins() {
    for strategy in all_strategies() {
        let r = detect_version(
            &node(),
            Some(spec("1.0.0")),
            Some("2.0.0".to_string()),
            strategy,
            &hierarchy_with_near_eco_and_far_config(),
        );
        match r {
            DetectOutcome::Resolved(d) => {
                assert_eq!(d.version, spec("1.0.0"));
                assert_eq!(d.source, VersionSource::CommandLine);
            }
            _ => panic!("override must resolve at once"),
        }
    }
}

#[test]
fn env_wins_over_file_sources() {
    for strategy in all_strategies() {
        let r = detect_version(
            &node(),
            None,
            Some("4.5.6".to_string()),
            strategy,
            &hierarchy_with_near_eco_and_far_config(),
        );
        match r {
            DetectOutcome::Resolved(d) => {
                assert_eq!(d.version, spec("4.5.6"));
                assert_eq!(d.source, VersionSource::Environment);
            }
            _ => panic!("a non-empty environment value must resolve at once"),
        }
    }
}

#[test]
fn empty_env_falls_through() {
    let files = vec![source(
        "/work/.prototools",
        "/work",
        Some(vec![("node", "3.3.3")]),
    )];
    let r = detect_version(
        &node(),
        None,
        Some(String::new()),
        DetectStrategy::OnlyPrototools,
        &files,
    );
    match r {
        DetectOutcome::Resolved(d) => {
            assert_eq!(d.version, spec("3.3.3"));
            assert_eq!(
                d.source,
                VersionSource::ConfigEntry {
                    path: "/work/.prototools".to_string()
                }
            );
        }
        _ => panic!("an empty environment value must not end the search"),
    }
}

#[test]
fn env_parse_error_is_fatal() {
    let files = vec![source(
        "/work/.prototools",
        "/work",
        Some(vec![("node", "3.3.3")]),
    )];
    let r = detect_version(
        &node(),
        None,
        Some("not-a-version!!".to_string()),
        DetectStrategy::FirstAvailable,
        &files,
    );
    match r {
        DetectOutcome::Failed(DetectError::Semver { version, error: _ }) => {
            assert_eq!(version, "not-a-version!!");
        }
        _ => panic!("an unparsable environment value must fail, never fall through"),
    }
}

#[test]
fn only_prototools_never_probes() {
    // a probe stub that must never be called: under only-prototools the
    // engine never returns a probe request, so the stub stays untouched
    let mut probe_calls: usize = 0;
    let files = vec![source("/work/app/.prototools", "/work/app", None)];
    let step = detect_version_only_prototools(&node(), &files);
    if let DetectStep::Probe { .. } = step {
        probe_calls += 1;
    }
    assert_eq!(probe_calls, 0);
    assert_eq!(step, DetectStep::NotFound);

    let r = detect_version(&node(), None, None, DetectStrategy::OnlyPrototools, &files);
    match r {
        DetectOutcome::Failed(DetectError::VersionDetectFailed { tool }) => {
            assert_eq!(tool, "node");
        }
        DetectOutcome::Probe { .. } => panic!("only-prototools must never probe"),
        _ => panic!("nothing was configured, so detection must fail"),
    }
}

#[test]
fn first_available_nearer_ecosystem_wins() {
    let files = hierarchy_with_near_eco_and_far_config();
    let r = detect_version(&node(), None, None, DetectStrategy::FirstAvailable, &files);
    let (index, dir) = match r {
        DetectOutcome::Probe { index, dir } => (index, dir),
        _ => panic!("the nearer source has no entry, so its directory is probed first"),
    };
    assert_eq!(index, 0);
    assert_eq!(dir, "/work/app");
    // the probe finds a pinned version in an ecosystem file
    let r = resume_detect_version(
        &node(),
        &files,
        DetectStrategy::FirstAvailable,
        index,
        Some((spec("1.2.3"), "/work/app/.nvmrc".to_string())),
    );
    match r {
        DetectOutcome::Resolved(d) => {
            assert_eq!(d.version, spec("1.2.3"));
            assert_eq!(
                d.source,
                VersionSource::Ecosystem {
                    path: "/work/app/.nvmrc".to_string()
                }
            );
        }
        _ => panic!("the nearer ecosystem hit must win over the farther config entry"),
    }
}

#[test]
fn prefer_prototools_farther_config_wins() {
    let files = hierarchy_with_near_eco_and_far_config();
    let r = detect_version(
        &node(),
        None,
        None,
        DetectStrategy::PreferPrototools,
        &files,
    );
    match r {
        DetectOutcome::Resolved(d) => {
            assert_eq!(d.version, spec("9.9.9"));
            assert_eq!(
                d.source,
                VersionSource::ConfigEntry {
                    path: "/work/.prototools".to_string()
                }
            );
        }
        DetectOutcome::Probe { .. } => {
            panic!("the full config pass must run before any ecosystem probe")
        }
        _ => panic!("the farther config entry must be found"),
    }
}

#[test]
fn config_entry_beats_ecosystem_at_same_level() {
    let files = vec![source(
        "/work/.prototools",
        "/work",
        Some(vec![("node", "7.0.0")]),
    )];
    let step = detect_version_first_available(&node(), &files);
    match step {
        DetectStep::Found(d) => {
            assert_eq!(d.version, spec("7.0.0"));
            assert_eq!(
                d.source,
                VersionSource::ConfigEntry {
                    path: "/work/.prototools".to_string()
                }
            );
        }
        _ => panic!("a config entry at a level must win without probing that level"),
    }
}

#[test]
fn first_available_moves_on_after_empty_probe() {
    let files = hierarchy_with_near_eco_and_far_config();
    let step = resume_first_available(&node(), &files, 0, None);
    match step {
        DetectStep::Found(d) => {
            assert_eq!(d.version, spec("9.9.9"));
            assert_eq!(
                d.source,
                VersionSource::ConfigEntry {
                    path: "/work/.prototools".to_string()
                }
            );
        }
        _ => panic!("after an empty probe the next source's entry must be taken"),
    }
}

#[test]
fn prefer_prototools_probes_all_dirs_in_order() {
    let files = vec![
        source("/work/app/.prototools", "/work/app", None),
        source("/work/.prototools", "/work", None),
    ];
    let step = detect_version_prefer_prototools(&node(), &files);
    assert_eq!(
        step,
        DetectStep::Probe {
            index: 0,
            dir: "/work/app".to_string()
        }
    );
    let r = resume_detect_version(&node(), &files, DetectStrategy::PreferPrototools, 0, None);
    let (index, dir) = match r {
        DetectOutcome::Probe { index, dir } => (index, dir),
        _ => panic!("the ecosystem pass continues with the next directory"),
    };
    assert_eq!((index, dir.as_str()), (1, "/work"));
    let r = resume_detect_version(&node(), &files, DetectStrategy::PreferPrototools, 1, None);
    match r {
        DetectOutcome::Failed(DetectError::VersionDetectFailed { tool }) => {
            assert_eq!(tool, "node");
        }
        _ => panic!("an exhausted ecosystem pass must fail naming the tool"),
    }
}

#[test]
fn empty_hierarchy_fails_naming_the_tool() {
    for strategy in all_strategies() {
        let r = detect_version(&node(), None, None, strategy, &Vec::new());
        match r {
            DetectOutcome::Failed(DetectError::VersionDetectFailed { tool }) => {
                assert_eq!(tool, "node");
            }
            _ => panic!("an empty hierarchy with no override or env must fail"),
        }
    }
}

#[test]
fn version_env_var_name() {
    assert_eq!(node().version_env_var(), "PROTO_NODE_VERSION");
}

#[test]
fn entry_of_another_tool_is_ignored() {
    let files = vec![source(
        "/work/.prototools",
        "/work",
        Some(vec![("deno", "1.40.0"), ("node", "20.0.0")]),
    )];
    let step = detect_version_only_prototools(&node(), &files);
    match step {
        DetectStep::Found(d) => assert_eq!(d.version, spec("20.0.0")),
        _ => panic!("the entry keyed by the tool's id must be found"),
    }
}
