use cargo_devserver::artifact::{
    artifact_path, bin_candidates, bin_target_names, select_bin_target, ArtifactError,
    PackageInfo, TargetInfo,
};
use cargo_devserver::config::DevServer;

fn target(name: &str, kinds: &[&str]) -> TargetInfo {
    TargetInfo { name: name.to_string(), kinds: kinds.iter().map(|k| k.to_string()).collect() }
}

fn package(default_run: Option<&str>, manifest: &str, targets: Vec<TargetInfo>) -> PackageInfo {
    PackageInfo {
        default_run: default_run.map(|s| s.to_string()),
        manifest_path: manifest.to_string(),
        targets,
    }
}

fn server(release: bool, example: Option<&str>, watch: Option<Vec<&str>>) -> DevServer {
    DevServer {
        host: String::from("localhost"),
        port: 8080,
        watch: watch.map(|w| w.iter().map(|s| s.to_string()).collect()),
        bin: None,
        cwd: String::from("/proj"),
        release,
        example: example.map(|s| s.to_string()),
        signal: 15,
    }
}

#[test]
fn build_args_plain() {
    assert_eq!(server(false, None, None).build_args(), vec!["build", "--color=always"]);
}

#[test]
fn build_args_release_example() {
    assert_eq!(
        server(true, Some("demo"), None).build_args(),
        vec!["build", "--color=always", "--release", "--example", "demo"]
    );
}

#[test]
fn watch_paths_default() {
    assert_eq!(server(false, None, Some(vec!["src"])).watch_paths(), vec!["/proj/src"]);
    assert_eq!(server(false, None, None).watch_paths(), Vec::<String>::new());
}

#[test]
fn watch_paths_with_example() {
    assert_eq!(
        server(false, Some("demo"), Some(vec!["src", "/assets"])).watch_paths(),
        vec!["/proj/src", "/assets", "/proj/examples"]
    );
    assert_eq!(server(false, Some("demo"), None).watch_paths(), vec!["/proj/examples"]);
}

#[test]
fn profile_directories() {
    assert_eq!(server(false, None, None).profile_dir("/proj/target"), "/proj/target/debug");
    assert_eq!(server(true, None, None).profile_dir("/proj/target"), "/proj/target/release");
}

#[test]
fn binary_targets_are_picked_by_kind() {
    let ts = vec![target("lib", &["lib"]), target("app", &["bin"]), target("tool", &["bench", "bin"])];
    assert_eq!(bin_target_names(&ts), vec!["app", "tool"]);
}

#[test]
fn default_run_is_the_candidate() {
    let ps = vec![package(Some("server"), "/other/Cargo.toml", vec![target("a", &["bin"]), target("b", &["bin"])])];
    assert_eq!(bin_candidates(&ps, "/proj"), vec!["server"]);
}

#[test]
fn single_binary_in_working_directory_is_the_candidate() {
    let ps = vec![
        package(None, "/proj/Cargo.toml", vec![target("app", &["bin"]), target("applib", &["lib"])]),
        package(None, "/proj/dep/Cargo.toml", vec![target("other", &["bin"])]),
    ];
    assert_eq!(select_bin_target(&ps, "/proj"), Ok(String::from("app")));
}

#[test]
fn two_binaries_give_no_candidate() {
    let ps = vec![package(None, "/proj/Cargo.toml", vec![target("a", &["bin"]), target("b", &["bin"])])];
    assert_eq!(
        select_bin_target(&ps, "/proj"),
        Err(ArtifactError::UndeterminedBinTarget { candidates: vec![] })
    );
}

#[test]
fn several_candidates_are_reported() {
    let ps = vec![
        package(Some("one"), "/a/Cargo.toml", vec![]),
        package(Some("two"), "/b/Cargo.toml", vec![]),
    ];
    assert_eq!(
        select_bin_target(&ps, "/proj"),
        Err(ArtifactError::UndeterminedBinTarget {
            candidates: vec![String::from("one"), String::from("two")]
        })
    );
}

#[test]
fn artifact_is_the_chosen_binary() {
    let ps = vec![package(None, "/proj/Cargo.toml", vec![target("app", &["bin"])])];
    assert_eq!(
        artifact_path("/proj/target/debug", &None, &ps, "/proj"),
        Ok(String::from("/proj/target/debug/app"))
    );
    let s = server(false, None, None);
    assert_eq!(s.bin_from_metadata("/proj/target/debug", &ps), Ok(String::from("/proj/target/debug/app")));
}

#[test]
fn artifact_of_an_example() {
    assert_eq!(
        artifact_path("/proj/target/release", &Some(String::from("demo")), &Vec::new(), "/proj"),
        Ok(String::from("/proj/target/release/examples/demo"))
    );
}

#[test]
fn artifact_unresolved_without_packages() {
    assert_eq!(
        artifact_path("/proj/target/debug", &None, &Vec::new(), "/proj"),
        Err(ArtifactError::UndeterminedBinTarget { candidates: vec![] })
    );
}
