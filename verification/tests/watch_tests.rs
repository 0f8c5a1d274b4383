use rsbuild::cli::{BuildTarget, CargoBuildMode, WatchTarget};
use rsbuild::error::RsbuildError;
use rsbuild::watch::{
    after_build, default_paths_for_target, file_patterns_for_target, relevant_paths, should_rebuild, should_trigger,
    trigger_decision, watch_build, watch_next, watch_paths, WatchBuild, WatchCommand, WatchPhase,
};

#[test]
fn patterns_per_target() {
    assert_eq!(file_patterns_for_target(WatchTarget::Wheel), vec![".py", "pyproject.toml", "setup.py", "setup.cfg"]);
    assert_eq!(file_patterns_for_target(WatchTarget::Docker), vec!["Dockerfile", "docker-compose.yml", "compose.yml", ".dockerfile"]);
    assert_eq!(file_patterns_for_target(WatchTarget::Cython), vec![".pyx", ".pxd", ".pxi"]);
    assert_eq!(file_patterns_for_target(WatchTarget::Cargo), vec![".rs", "Cargo.toml", "Cargo.lock"]);
}

#[test]
fn default_paths() {
    assert_eq!(default_paths_for_target(WatchTarget::Wheel), vec!["."]);
    assert_eq!(default_paths_for_target(WatchTarget::Cargo), vec!["src", "Cargo.toml"]);
    assert_eq!(watch_paths(Vec::new(), WatchTarget::Cython), vec!["."]);
    assert_eq!(watch_paths(vec!["lib".to_string()], WatchTarget::Cargo), vec!["lib"]);
}

#[test]
fn extension_and_name_triggers() {
    assert!(should_trigger("/work/pkg/mod.py", WatchTarget::Wheel));
    assert!(should_trigger("/work/pyproject.toml", WatchTarget::Wheel));
    assert!(!should_trigger("/work/README.md", WatchTarget::Wheel));
    assert!(should_trigger("/work/src/main.rs", WatchTarget::Cargo));
    assert!(should_trigger("/work/Cargo.lock", WatchTarget::Cargo));
    assert!(should_trigger("/work/docker/Dockerfile.dev", WatchTarget::Docker));
    assert!(should_trigger("/work/a/b.pyx", WatchTarget::Cython));
    assert!(!should_trigger("/work/a/b.py", WatchTarget::Cython));
}

#[test]
fn hidden_cache_and_target_paths_never_trigger() {
    assert!(!should_trigger("/work/.git/x.py", WatchTarget::Wheel));
    assert!(!should_trigger("/work/__pycache__/m.py", WatchTarget::Wheel));
    assert!(!should_trigger("/work/target/debug/build.rs", WatchTarget::Cargo));
}

#[test]
fn decision_uses_the_file_name() {
    assert!(trigger_decision("/w/compose.yml", Some("compose.yml".to_string()), WatchTarget::Docker));
    assert!(!trigger_decision("/w/compose.yml", None, WatchTarget::Docker));
    assert!(trigger_decision("/w/x.dockerfile", None, WatchTarget::Docker));
}

#[test]
fn rebuild_needs_change_and_debounce() {
    assert!(should_rebuild(1, 500, 500));
    assert!(!should_rebuild(1, 499, 500));
    assert!(!should_rebuild(0, 10_000, 500));
}

#[test]
fn what_watch_rebuilds() {
    assert!(matches!(watch_build(WatchTarget::Wheel, false, false), Ok(WatchBuild::Build(BuildTarget::Wheel))));
    match watch_build(WatchTarget::Docker, false, false) {
        Ok(WatchBuild::Build(BuildTarget::Docker { service, no_cache })) => {
            assert_eq!(service, "vanilla");
            assert!(!no_cache);
        }
        _ => panic!("expected a docker build"),
    }
    assert!(matches!(
        watch_build(WatchTarget::Cargo, false, false),
        Ok(WatchBuild::Build(BuildTarget::Cargo { mode: CargoBuildMode::Release }))
    ));
    match watch_build(WatchTarget::Cython, true, true) {
        Ok(WatchBuild::Cython(p)) => assert_eq!(p, "src"),
        _ => panic!("expected src"),
    }
    match watch_build(WatchTarget::Cython, false, true) {
        Ok(WatchBuild::Cython(p)) => assert_eq!(p, "lib"),
        _ => panic!("expected lib"),
    }
    match watch_build(WatchTarget::Cython, false, false) {
        Err(RsbuildError::PathNotFound { path }) => assert_eq!(path, "package directory"),
        _ => panic!("expected PathNotFound"),
    }
}

#[test]
fn file_name_patterns_use_the_last_component() {
    assert!(should_trigger("/w/a/Cargo.toml", WatchTarget::Cargo));
    assert!(should_trigger("Cargo.toml", WatchTarget::Cargo));
    assert!(should_trigger("w/Cargo.toml//", WatchTarget::Cargo));
    assert!(should_trigger("/w/old-Cargo.toml.bak", WatchTarget::Cargo));
    assert!(!should_trigger("/w/Cargo.toml/x", WatchTarget::Cargo));
    assert!(should_trigger("rel/compose.yml", WatchTarget::Docker));
}

// The final component as the library's `last_component` describes it:
// empty and `.` components skipped, none for `..`.
fn last_component(path: &str) -> Option<String> {
    let mut p = path;
    loop {
        let (rest, seg) = match p.rfind('/') {
            Some(i) => (Some(&p[..i]), &p[i + 1..]),
            None => (None, p),
        };
        if seg.is_empty() || seg == "." {
            match rest {
                Some(r) => p = r,
                None => return None,
            }
        } else if seg == ".." {
            return None;
        } else {
            return Some(seg.to_string());
        }
    }
}

#[test]
fn path_file_name_is_the_last_component() {
    let parts = ["", ".", "..", "a", "b.c", "...", "x y"];
    let mut checked = 0;
    for a in parts {
        for b in parts {
            for c in parts {
                for sep1 in ["/", "//", ""] {
                    for sep2 in ["/", "/./", ""] {
                        let path = format!("{}{}{}{}{}", a, sep1, b, sep2, c);
                        if path.starts_with("//") {
                            continue;
                        }
                        let std_name = std::path::Path::new(&path).file_name().map(|n| n.to_string_lossy().into_owned());
                        assert_eq!(std_name, last_component(&path), "path {:?}", path);
                        checked += 1;
                    }
                }
            }
        }
    }
    assert!(checked > 1000);
}

#[test]
fn relevant_paths_keep_order() {
    let changed = vec![
        "/w/src/main.rs".to_string(),
        "/w/README.md".to_string(),
        "/w/target/x.rs".to_string(),
        "/w/Cargo.toml".to_string(),
    ];
    assert_eq!(relevant_paths(&changed, WatchTarget::Cargo), vec!["/w/src/main.rs", "/w/Cargo.toml"]);
    assert!(relevant_paths(&changed, WatchTarget::Cython).is_empty());
}

#[test]
fn watch_loop_decisions() {
    assert_eq!(watch_next(WatchPhase::Starting, 0, 0, 500), (WatchPhase::Watching, WatchCommand::Build));
    assert_eq!(watch_next(WatchPhase::Watching, 2, 600, 500), (WatchPhase::Watching, WatchCommand::Build));
    assert_eq!(watch_next(WatchPhase::Watching, 2, 100, 500), (WatchPhase::Watching, WatchCommand::Wait));
    assert_eq!(watch_next(WatchPhase::Watching, 0, 600, 500), (WatchPhase::Watching, WatchCommand::Wait));
    assert_eq!(after_build(false), WatchPhase::Watching);
    assert_eq!(after_build(true), WatchPhase::Watching);
}

#[test]
fn relevant_paths_decide_path_by_path() {
    let changed = vec![
        "a:b.py".to_string(),
        "C:\\w\\pkg\\mod.py".to_string(),
        "/w/.git/x.py".to_string(),
        "/w/notes.txt".to_string(),
        "/w/pkg/setup.py".to_string(),
    ];
    let kept = relevant_paths(&changed, WatchTarget::Wheel);
    assert_eq!(kept, vec!["a:b.py", "C:\\w\\pkg\\mod.py", "/w/pkg/setup.py"]);
    for p in &changed {
        assert_eq!(kept.contains(p), should_trigger(p, WatchTarget::Wheel), "{p}");
    }
    assert!(relevant_paths(&vec!["/w/.hidden/a.py".to_string()], WatchTarget::Wheel).is_empty());
}
