use build_meta::{
    BinaryListState, BuildPlatforms, BuildPlatformsSummary, BuildPlatformsTarget,
    HostPlatformSummary, PathMapper, Platform, PlatformSummary, RustBuildMeta,
    RustBuildMetaParseError, RustBuildMetaSummary, TargetPlatformSummary,
};
use nextest_metadata::{RustNonTestBinaryKind, RustNonTestBinarySummary};
use std::collections::BTreeSet;

fn host_platform() -> Platform {
    Platform::current().expect("should detect the host platform successfully")
}

fn platform(triple: &str) -> Platform {
    Platform::parse(triple).expect("creating a platform from a known triple should succeed")
}

fn not_host_platform() -> Platform {
    if host_platform().triple_str() == "x86_64-pc-windows-msvc" {
        platform("x86_64-unknown-linux-gnu")
    } else {
        platform("x86_64-pc-windows-msvc")
    }
}

fn default_meta(build_platforms: BuildPlatforms) -> RustBuildMeta<BinaryListState> {
    RustBuildMeta::new(String::new(), build_platforms)
}

#[test]
fn test_from_summary_no_target_platforms() {
    let summary = RustBuildMetaSummary::default();
    let expected = default_meta(BuildPlatforms {
        host: host_platform(),
        host_libdir: None,
        target: None,
    });
    let actual = RustBuildMeta::<BinaryListState>::from_summary(summary)
        .expect("RustBuildMeta should deserialize from summary with success.");
    assert_eq!(actual, expected);
}

#[test]
fn test_from_summary_only_target_platform_field() {
    let summary = RustBuildMetaSummary {
        target_platform: Some("x86_64-unknown-linux-gnu".to_owned()),
        ..Default::default()
    };
    let expected = default_meta(BuildPlatforms {
        host: host_platform(),
        host_libdir: None,
        target: Some(BuildPlatformsTarget {
            triple: platform("x86_64-unknown-linux-gnu"),
            libdir: None,
        }),
    });
    let actual = RustBuildMeta::<BinaryListState>::from_summary(summary)
        .expect("RustBuildMeta should deserialize from summary with success.");
    assert_eq!(actual, expected);
}

#[test]
fn test_from_summary_target_platform_and_target_platforms_field() {
    let summary = RustBuildMetaSummary {
        target_platform: Some("x86_64-unknown-linux-gnu".to_owned()),
        target_platforms: vec![PlatformSummary::new("x86_64-pc-windows-msvc")],
        ..Default::default()
    };
    let expected = default_meta(BuildPlatforms {
        host: host_platform(),
        host_libdir: None,
        target: Some(BuildPlatformsTarget {
            triple: platform("x86_64-pc-windows-msvc"),
            libdir: None,
        }),
    });
    let actual = RustBuildMeta::<BinaryListState>::from_summary(summary)
        .expect("RustBuildMeta should deserialize from summary with success.");
    assert_eq!(actual, expected);
}

#[test]
fn test_from_summary_target_platform_and_target_platforms_and_platforms_field() {
    let summary = RustBuildMetaSummary {
        target_platform: Some("x86_64-unknown-linux-gnu".to_owned()),
        target_platforms: vec![PlatformSummary::new("x86_64-pc-windows-msvc")],
        platforms: Some(BuildPlatformsSummary {
            host: HostPlatformSummary {
                platform: not_host_platform().to_summary(),
                libdir: Some("/fake/test/libdir/281".to_owned()),
            },
            targets: vec![TargetPlatformSummary {
                platform: PlatformSummary::new("aarch64-unknown-linux-gnu"),
                libdir: Some("/fake/test/libdir/837".to_owned()),
            }],
        }),
        ..Default::default()
    };
    let expected = default_meta(BuildPlatforms {
        host: not_host_platform(),
        host_libdir: Some("/fake/test/libdir/281".to_owned()),
        target: Some(BuildPlatformsTarget {
            triple: platform("aarch64-unknown-linux-gnu"),
            libdir: Some("/fake/test/libdir/837".to_owned()),
        }),
    });
    let actual = RustBuildMeta::<BinaryListState>::from_summary(summary)
        .expect("RustBuildMeta should deserialize from summary with success.");
    assert_eq!(actual, expected);
}

#[test]
fn test_from_summary_platforms_with_zero_targets() {
    let summary = RustBuildMetaSummary {
        platforms: Some(BuildPlatformsSummary {
            host: HostPlatformSummary {
                platform: PlatformSummary::new("x86_64-apple-darwin"),
                libdir: None,
            },
            targets: vec![],
        }),
        ..Default::default()
    };
    let expected = default_meta(BuildPlatforms {
        host: platform("x86_64-apple-darwin"),
        host_libdir: None,
        target: None,
    });
    let actual = RustBuildMeta::<BinaryListState>::from_summary(summary)
        .expect("RustBuildMeta should deserialize from summary with success.");
    assert_eq!(actual, expected);
}

#[test]
fn test_from_summary_error_multiple_targets() {
    let summary = RustBuildMetaSummary {
        platforms: Some(BuildPlatformsSummary {
            host: HostPlatformSummary {
                platform: PlatformSummary::new("x86_64-apple-darwin"),
                libdir: None,
            },
            targets: vec![
                TargetPlatformSummary {
                    platform: PlatformSummary::new("aarch64-unknown-linux-gnu"),
                    libdir: None,
                },
                TargetPlatformSummary {
                    platform: PlatformSummary::new("x86_64-pc-windows-msvc"),
                    libdir: None,
                },
            ],
        }),
        ..Default::default()
    };
    let actual = RustBuildMeta::<BinaryListState>::from_summary(summary);
    assert!(
        matches!(actual, Err(RustBuildMetaParseError::Unsupported { .. })),
        "Expect the parse result to be an error of RustBuildMetaParseError::Unsupported, actual {:?}",
        actual
    );
}

#[test]
fn test_from_summary_error_invalid_host_platform_summary() {
    let summary = RustBuildMetaSummary {
        platforms: Some(BuildPlatformsSummary {
            host: HostPlatformSummary {
                platform: PlatformSummary::new("invalid-platform-triple"),
                libdir: None,
            },
            targets: vec![],
        }),
        ..Default::default()
    };
    let actual = RustBuildMeta::<BinaryListState>::from_summary(summary);
    assert!(
        actual.is_err(),
        "Expect the parse result to be an error, actual {:?}",
        actual
    );
}

#[test]
fn test_from_summary_invalid_host_names_the_triple() {
    let summary = RustBuildMetaSummary {
        platforms: Some(BuildPlatformsSummary {
            host: HostPlatformSummary {
                platform: PlatformSummary::new("invalid-platform-triple"),
                libdir: None,
            },
            targets: vec![],
        }),
        ..Default::default()
    };
    let actual = RustBuildMeta::<BinaryListState>::from_summary(summary);
    assert_eq!(
        actual,
        Err(RustBuildMetaParseError::InvalidPlatformString {
            triple: "invalid-platform-triple".to_owned()
        })
    );
}

#[test]
fn test_from_summary_invalid_target_triples() {
    let structured = RustBuildMetaSummary {
        platforms: Some(BuildPlatformsSummary {
            host: HostPlatformSummary {
                platform: PlatformSummary::new("x86_64-apple-darwin"),
                libdir: None,
            },
            targets: vec![TargetPlatformSummary {
                platform: PlatformSummary::new("not-a-target-at-all"),
                libdir: None,
            }],
        }),
        ..Default::default()
    };
    assert_eq!(
        RustBuildMeta::<BinaryListState>::from_summary(structured),
        Err(RustBuildMetaParseError::InvalidPlatformString {
            triple: "not-a-target-at-all".to_owned()
        })
    );
    let older = RustBuildMetaSummary {
        target_platforms: vec![PlatformSummary::new("not-a-target-at-all")],
        target_platform: Some("x86_64-unknown-linux-gnu".to_owned()),
        ..Default::default()
    };
    assert_eq!(
        RustBuildMeta::<BinaryListState>::from_summary(older),
        Err(RustBuildMetaParseError::InvalidPlatformString {
            triple: "not-a-target-at-all".to_owned()
        })
    );
    let oldest = RustBuildMetaSummary {
        target_platform: Some("not-a-target-at-all".to_owned()),
        ..Default::default()
    };
    assert_eq!(
        RustBuildMeta::<BinaryListState>::from_summary(oldest),
        Err(RustBuildMetaParseError::InvalidPlatformString {
            triple: "not-a-target-at-all".to_owned()
        })
    );
}

#[test]
fn test_from_summary_multiple_targets_come_before_invalid_host() {
    let summary = RustBuildMetaSummary {
        platforms: Some(BuildPlatformsSummary {
            host: HostPlatformSummary {
                platform: PlatformSummary::new("invalid-platform-triple"),
                libdir: None,
            },
            targets: vec![
                TargetPlatformSummary {
                    platform: PlatformSummary::new("aarch64-unknown-linux-gnu"),
                    libdir: None,
                },
                TargetPlatformSummary {
                    platform: PlatformSummary::new("x86_64-pc-windows-msvc"),
                    libdir: None,
                },
            ],
        }),
        ..Default::default()
    };
    assert_eq!(
        RustBuildMeta::<BinaryListState>::from_summary(summary),
        Err(RustBuildMetaParseError::Unsupported {
            message: "multiple build targets is not supported".to_owned()
        })
    );
}

#[test]
fn test_from_summary_unknown_host() {
    let none = RustBuildMeta::<BinaryListState>::from_summary_on_host(
        RustBuildMetaSummary::default(),
        None,
    );
    assert_eq!(none, Err(RustBuildMetaParseError::UnknownHostPlatform));
    let oldest = RustBuildMeta::<BinaryListState>::from_summary_on_host(
        RustBuildMetaSummary {
            target_platform: Some("x86_64-unknown-linux-gnu".to_owned()),
            ..Default::default()
        },
        None,
    );
    assert_eq!(oldest, Err(RustBuildMetaParseError::UnknownHostPlatform));
    let invalid = RustBuildMeta::<BinaryListState>::from_summary_on_host(
        RustBuildMetaSummary {
            target_platform: Some("not-a-target-at-all".to_owned()),
            ..Default::default()
        },
        None,
    );
    assert_eq!(
        invalid,
        Err(RustBuildMetaParseError::InvalidPlatformString {
            triple: "not-a-target-at-all".to_owned()
        })
    );
    let structured = RustBuildMeta::<BinaryListState>::from_summary_on_host(
        RustBuildMetaSummary {
            platforms: Some(BuildPlatformsSummary {
                host: HostPlatformSummary {
                    platform: PlatformSummary::new("x86_64-apple-darwin"),
                    libdir: None,
                },
                targets: vec![],
            }),
            ..Default::default()
        },
        None,
    )
    .expect("a summary that names its host needs no other");
    assert_eq!(structured.build_platforms.host.triple_str(), "x86_64-apple-darwin");
}

#[test]
fn test_from_summary_on_given_host() {
    let meta = RustBuildMeta::<BinaryListState>::from_summary_on_host(
        RustBuildMetaSummary {
            target_platforms: vec![
                PlatformSummary::new("aarch64-unknown-linux-gnu"),
                PlatformSummary::new("x86_64-pc-windows-msvc"),
            ],
            ..Default::default()
        },
        Some(platform("x86_64-apple-darwin")),
    )
    .expect("the summary is valid");
    assert_eq!(
        meta.build_platforms,
        BuildPlatforms {
            host: platform("x86_64-apple-darwin"),
            host_libdir: None,
            target: Some(BuildPlatformsTarget::new(platform("aarch64-unknown-linux-gnu"))),
        }
    );
}

#[test]
fn test_from_summary_copies_fields() {
    let mut summary = RustBuildMetaSummary {
        target_directory: "/target".to_owned(),
        ..Default::default()
    };
    summary.base_output_directories.insert("debug".to_owned());
    summary.linked_paths.insert("debug/build/foo/out".to_owned());
    summary.linked_paths.insert("debug/build/bar/out".to_owned());
    summary
        .build_script_out_dirs
        .insert("foo 0.1.0".to_owned(), "debug/build/foo/out".to_owned());
    let binary = RustNonTestBinarySummary {
        name: "foo".to_owned(),
        kind: RustNonTestBinaryKind::BIN_EXE,
        path: "debug/foo".into(),
    };
    summary
        .non_test_binaries
        .insert("foo 0.1.0".to_owned(), BTreeSet::from([binary.clone()]));

    let meta = RustBuildMeta::<BinaryListState>::from_summary(summary)
        .expect("RustBuildMeta should deserialize from summary with success.");
    assert_eq!(meta.target_directory, "/target");
    assert_eq!(meta.base_output_directories.to_vec(), vec!["debug".to_owned()]);
    assert_eq!(meta.linked_paths.len(), 2);
    assert_eq!(meta.linked_paths.path(0).unwrap(), "debug/build/bar/out");
    assert_eq!(meta.linked_paths.path(1).unwrap(), "debug/build/foo/out");
    assert!(meta.linked_paths.requested_by(0).unwrap().is_empty());
    assert!(meta.linked_paths.requested_by(1).unwrap().is_empty());
    assert_eq!(meta.linked_paths.path(2), None);
    assert_eq!(meta.build_script_out_dirs["foo 0.1.0"], "debug/build/foo/out");
    assert_eq!(meta.non_test_binaries["foo 0.1.0"], BTreeSet::from([binary]));
}

#[test]
fn test_to_summary_build_platforms_without_target() {
    let meta = default_meta(BuildPlatforms {
        host: host_platform(),
        host_libdir: None,
        target: None,
    });
    let expected = RustBuildMetaSummary {
        target_platform: None,
        target_platforms: vec![host_platform().to_summary()],
        platforms: Some(BuildPlatformsSummary {
            host: HostPlatformSummary {
                platform: host_platform().to_summary(),
                libdir: None,
            },
            targets: vec![],
        }),
        ..Default::default()
    };
    assert_eq!(meta.to_summary(), expected);
}

#[test]
fn test_to_summary_build_platforms_with_target() {
    let meta = default_meta(BuildPlatforms {
        host: host_platform(),
        host_libdir: Some("/fake/test/libdir/736".to_owned()),
        target: Some(BuildPlatformsTarget {
            triple: not_host_platform(),
            libdir: Some("/fake/test/libdir/873".to_owned()),
        }),
    });
    let expected = RustBuildMetaSummary {
        target_platform: Some(not_host_platform().triple_str().to_owned()),
        target_platforms: vec![not_host_platform().to_summary()],
        platforms: Some(BuildPlatformsSummary {
            host: HostPlatformSummary {
                platform: host_platform().to_summary(),
                libdir: Some("/fake/test/libdir/736".to_owned()),
            },
            targets: vec![TargetPlatformSummary {
                platform: not_host_platform().to_summary(),
                libdir: Some("/fake/test/libdir/873".to_owned()),
            }],
        }),
        ..Default::default()
    };
    assert_eq!(meta.to_summary(), expected);
}

#[test]
fn test_to_summary_keeps_linked_paths_without_requesters() {
    let mut meta = default_meta(BuildPlatforms {
        host: host_platform(),
        host_libdir: None,
        target: None,
    });
    meta.target_directory = "/target".to_owned();
    meta.base_output_directories.insert("debug".to_owned());
    meta.linked_paths.insert(
        "debug/build/foo/out".to_owned(),
        BTreeSet::from(["foo 0.1.0".to_owned()]),
    );
    let summary = meta.to_summary();
    assert_eq!(summary.target_directory, "/target");
    assert_eq!(summary.base_output_directories.to_vec(), vec!["debug".to_owned()]);
    assert_eq!(summary.linked_paths.to_vec(), vec!["debug/build/foo/out".to_owned()]);

    let read = RustBuildMeta::<BinaryListState>::from_summary(summary)
        .expect("a summary that was written can be read");
    assert_eq!(read.linked_paths.requested_by(0), Some(&BTreeSet::new()));
    assert_eq!(read.base_output_directories, meta.base_output_directories);
}

#[test]
fn test_summary_round_trip() {
    let summary = RustBuildMetaSummary {
        target_directory: "/target".to_owned(),
        target_platform: Some("aarch64-unknown-linux-gnu".to_owned()),
        target_platforms: vec![PlatformSummary::new("aarch64-unknown-linux-gnu")],
        platforms: Some(BuildPlatformsSummary {
            host: HostPlatformSummary {
                platform: PlatformSummary::new("x86_64-apple-darwin"),
                libdir: Some("/fake/host/libdir".to_owned()),
            },
            targets: vec![TargetPlatformSummary {
                platform: PlatformSummary::new("aarch64-unknown-linux-gnu"),
                libdir: Some("/fake/target/libdir".to_owned()),
            }],
        }),
        ..Default::default()
    };
    let written = RustBuildMeta::<BinaryListState>::from_summary(summary.clone())
        .expect("the summary is valid")
        .to_summary();
    assert_eq!(written, summary);
}

#[test]
fn test_map_paths() {
    let mut meta = RustBuildMeta::new(
        "/build/target".to_owned(),
        BuildPlatforms {
            host: platform("x86_64-unknown-linux-gnu"),
            host_libdir: Some("/fake/host/libdir".to_owned()),
            target: None,
        },
    );
    meta.base_output_directories.insert("debug".to_owned());
    meta.linked_paths.insert(
        "debug/build/foo/out".to_owned(),
        BTreeSet::from(["foo 0.1.0".to_owned()]),
    );

    let kept = meta.map_paths(&PathMapper::noop());
    assert_eq!(kept.target_directory, "/build/target");
    assert_eq!(kept.base_output_directories, meta.base_output_directories);
    assert_eq!(kept.linked_paths, meta.linked_paths);
    assert_eq!(kept.build_platforms, meta.build_platforms);

    let mapper = PathMapper::new(Some("/run/target".to_owned()));
    assert_eq!(mapper.new_target_dir(), Some(&"/run/target".to_owned()));
    let moved = meta.map_paths(&mapper);
    assert_eq!(moved.target_directory, "/run/target");
    assert_eq!(moved.base_output_directories, meta.base_output_directories);
    assert_eq!(moved.linked_paths, meta.linked_paths);
    assert_eq!(moved.non_test_binaries, meta.non_test_binaries);
    assert_eq!(moved.build_script_out_dirs, meta.build_script_out_dirs);
    assert_eq!(moved.build_platforms, meta.build_platforms);
}

#[test]
fn test_platform_parse() {
    let parsed = Platform::parse("x86_64-unknown-linux-gnu").expect("a builtin triple");
    assert_eq!(parsed.triple_str(), "x86_64-unknown-linux-gnu");
    assert_eq!(parsed.to_summary(), PlatformSummary::new("x86_64-unknown-linux-gnu"));
    assert_eq!(
        Platform::parse("invalid-platform-triple"),
        Err(RustBuildMetaParseError::InvalidPlatformString {
            triple: "invalid-platform-triple".to_owned()
        })
    );
    assert_eq!(
        Platform::parse(""),
        Err(RustBuildMetaParseError::InvalidPlatformString { triple: String::new() })
    );
}

#[test]
fn test_build_platforms_new() {
    let platforms = BuildPlatforms::new().expect("should detect the host platform successfully");
    assert_eq!(platforms.host, host_platform());
    assert_eq!(platforms.host_libdir, None);
    assert_eq!(platforms.target, None);
    assert_eq!(platforms.to_summary_str(), None);
    assert_eq!(platforms.to_platform_summary(), host_platform().to_summary());
}

#[test]
fn test_build_platforms_from_summary_str() {
    let platforms = BuildPlatforms::from_summary_str(Some("x86_64-pc-windows-msvc".to_owned()))
        .expect("a builtin triple");
    assert_eq!(platforms.host, host_platform());
    assert_eq!(
        platforms.target,
        Some(BuildPlatformsTarget::new(platform("x86_64-pc-windows-msvc")))
    );
    assert_eq!(platforms.to_summary_str(), Some("x86_64-pc-windows-msvc".to_owned()));
    let none = BuildPlatforms::from_summary_str(None).expect("no triple to reject");
    assert_eq!(none.target, None);
}

#[test]
fn test_platform_from_build_target() {
    let found = Platform::from_build_target(Ok("aarch64-unknown-linux-gnu".to_owned()))
        .expect("a builtin triple is recognized");
    assert_eq!(found.triple_str(), "aarch64-unknown-linux-gnu");
    assert_eq!(found, platform("aarch64-unknown-linux-gnu"));

    assert_eq!(
        Platform::from_build_target(Ok("invalid-platform-triple".to_owned())),
        None
    );

    let failed = target_spec::Platform::new(
        "invalid-platform-triple",
        target_spec::TargetFeatures::Unknown,
    )
    .map(|platform| platform.triple_str().to_owned());
    assert!(failed.is_err());
    assert_eq!(Platform::from_build_target(failed), None);

    let looked_up =
        target_spec::Platform::build_target().map(|platform| platform.triple_str().to_owned());
    assert!(looked_up.is_ok());
    assert_eq!(Platform::from_build_target(looked_up), Platform::current());
    assert!(Platform::current().is_some());
}
