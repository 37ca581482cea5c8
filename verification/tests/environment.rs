use lux::activate::Activator;
use lux::extract::{ExtractRun, Extractor};
use lux::manifest::{Manifest, Package};
use lux::status::{count_library_files, is_library_file, report_status, EnvStatus};

#[test]
fn activation_script_exposes_the_environment() {
    let a = Activator::new("/opt/env".to_string());
    let s = a.generate_activation_script();
    assert!(s.contains("export LUX_ENV=\"/opt/env\""));
    assert!(s.contains("export PATH=\"/opt/env/bin:$PATH\""));
    assert!(s.contains("export LD_LIBRARY_PATH=\"/opt/env/lib:$LD_LIBRARY_PATH\""));
    assert!(s.contains("export DYLD_LIBRARY_PATH=\"/opt/env/lib:$DYLD_LIBRARY_PATH\""));
    assert!(s.contains("export PKG_CONFIG_PATH=\"/opt/env/lib/pkgconfig:$PKG_CONFIG_PATH\""));
    assert!(s.contains("export CMAKE_PREFIX_PATH=\"/opt/env:$CMAKE_PREFIX_PATH\""));
    assert!(s.contains("lux_deactivate() {"));
}

#[test]
fn activation_snapshots_before_overwriting() {
    let a = Activator::new("/opt/env".to_string());
    let s = a.generate_activation_script();
    let save = s.find("export _LUX_OLD_PATH=\"$PATH\"").unwrap();
    let set = s.find("export PATH=\"/opt/env/bin:$PATH\"").unwrap();
    assert!(save < set, "the prior value must be snapshotted before it is overwritten");
    let save_cmake = s.find("export _LUX_OLD_CMAKE_PREFIX_PATH=\"$CMAKE_PREFIX_PATH\"").unwrap();
    let set_cmake = s.find("export CMAKE_PREFIX_PATH=\"/opt/env:$CMAKE_PREFIX_PATH\"").unwrap();
    assert!(save_cmake < set_cmake);
}

#[test]
fn activation_script_restores_from_shadows() {
    let a = Activator::new("/opt/env".to_string());
    let s = a.generate_activation_script();
    assert!(s.contains("export PATH=\"$_LUX_OLD_PATH\""));
    assert!(s.contains("export LD_LIBRARY_PATH=\"$_LUX_OLD_LD_LIBRARY_PATH\""));
    assert!(s.contains("export DYLD_LIBRARY_PATH=\"$_LUX_OLD_DYLD_LIBRARY_PATH\""));
    assert!(s.contains("export PKG_CONFIG_PATH=\"$_LUX_OLD_PKG_CONFIG_PATH\""));
    assert!(s.contains("export CMAKE_PREFIX_PATH=\"$_LUX_OLD_CMAKE_PREFIX_PATH\""));
    assert!(s.contains("unset _LUX_OLD_PATH"));
    assert!(s.contains("unset _LUX_OLD_LD_LIBRARY_PATH"));
    assert!(s.contains("unset _LUX_OLD_DYLD_LIBRARY_PATH"));
    assert!(s.contains("unset _LUX_OLD_PKG_CONFIG_PATH"));
    assert!(s.contains("unset _LUX_OLD_CMAKE_PREFIX_PATH"));
    assert!(s.contains("unset LUX_ENV"));
    assert!(s.contains("unset -f lux_deactivate"));
    assert!(
        !s.contains("if [ -n"),
        "restoration must be unconditional, so an empty prior value is put back too"
    );
}

#[test]
fn status_of_missing_environment_is_not_found() {
    let st = report_status(false, &vec![], &vec![]);
    assert!(matches!(st, EnvStatus::NotFound));
    let st = report_status(false, &vec!["stale".to_string()], &vec!["x.so".to_string()]);
    assert!(matches!(st, EnvStatus::NotFound));
}

#[test]
fn status_counts_entries_and_libraries() {
    let bin = vec!["python".to_string(), "pip".to_string(), "f2py".to_string()];
    let lib = vec![
        "liba.so".to_string(),
        "notes.txt".to_string(),
        "libb.dylib".to_string(),
        "libc.a".to_string(),
        ".so".to_string(),
        "x.ao".to_string(),
        "libd.so.1".to_string(),
    ];
    let st = report_status(true, &bin, &lib);
    match st {
        EnvStatus::Present {
            binary_count,
            library_count,
        } => {
            assert_eq!(binary_count, 3);
            assert_eq!(library_count, 3);
        }
        EnvStatus::NotFound => panic!("an existing environment must be reported present"),
    }
}

#[test]
fn library_name_recognition_edges() {
    assert!(is_library_file(&"a.so".to_string()));
    assert!(is_library_file(&"x.dylib".to_string()));
    assert!(is_library_file(&"b.a".to_string()));
    assert!(is_library_file(&"b.tar.a".to_string()));
    assert!(!is_library_file(&".so".to_string()));
    assert!(!is_library_file(&"so".to_string()));
    assert!(!is_library_file(&".a".to_string()));
    assert!(!is_library_file(&"x.ao".to_string()));
    assert!(!is_library_file(&"plain".to_string()));
    assert_eq!(count_library_files(&vec![]), 0);
}

#[test]
fn extractor_fixes_the_environment_tree() {
    let e = Extractor::new("/opt/env".to_string());
    let dirs = e.env_directories();
    assert_eq!(
        dirs,
        vec![
            "/opt/env".to_string(),
            "/opt/env/bin".to_string(),
            "/opt/env/lib".to_string(),
            "/opt/env/include".to_string(),
        ]
    );
}

#[test]
fn extract_run_is_fail_fast() {
    let mut run = ExtractRun::new(3);
    assert_eq!(run.next_archive(), Some(0));
    run.record(true);
    assert_eq!(run.next_archive(), Some(1));
    run.record(false);
    assert_eq!(run.next_archive(), None, "a failure must abort the rest of the batch");
    assert!(!run.complete());
    assert_eq!(run.failed, Some(1));
    assert_eq!(run.done, 1);
}

#[test]
fn extract_run_completes_when_all_succeed() {
    let mut run = ExtractRun::new(2);
    while let Some(_i) = run.next_archive() {
        run.record(true);
    }
    assert!(run.complete());
    assert_eq!(run.done, 2);
    assert_eq!(run.failed, None);
}

#[test]
fn manifest_requirement_strings_join_name_and_version() {
    let m = Manifest {
        package: Package {
            name: "demo".to_string(),
            version: "0.1.0".to_string(),
        },
        dependencies: Some(vec![
            ("numpy".to_string(), ">=1.26".to_string()),
            ("python".to_string(), "3.12.*".to_string()),
        ]),
    };
    assert_eq!(
        m.requirement_strings(),
        vec!["numpy >=1.26".to_string(), "python 3.12.*".to_string()]
    );
    let bare = Manifest {
        package: Package {
            name: "demo".to_string(),
            version: "0.1.0".to_string(),
        },
        dependencies: None,
    };
    assert!(bare.requirement_strings().is_empty());
}
