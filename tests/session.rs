use std::collections::HashSet;

use release_rename::pipeline::{join, new_bin_name};
use release_rename::{Action, Cli, Config, Event, InitCheckError, Session, Stage};

fn cli(name: &str, build: bool) -> Cli {
    Cli { name: name.to_string(), build }
}

fn config(pkg: Option<&str>, version: Option<&str>) -> Config {
    Config {
        pkg_name: pkg.map(|s| s.to_string()),
        version: version.map(|s| s.to_string()),
        os: "linux".to_string(),
        current_dir: "/work/proj".to_string(),
    }
}

fn fs(paths: &[&str]) -> HashSet<String> {
    paths.iter().map(|s| s.to_string()).collect()
}

/// Drives a session against a set of existing paths; `built` is what exists
/// after the build. Returns every action taken and the final set.
fn drive(c: Cli, cfg: Config, mut files: HashSet<String>, built: &HashSet<String>) -> (Vec<Action>, HashSet<String>) {
    let mut s = Session::new(c, cfg);
    let mut ev = Event::Start;
    let mut acts = Vec::new();
    loop {
        let act = s.step(ev);
        ev = match &act {
            Action::CheckExists { path } => Event::Exists { present: files.contains(path) },
            Action::RunBuild => {
                files = built.clone();
                Event::BuildFinished
            }
            Action::Rename { from, to } => {
                files.remove(from);
                files.insert(to.clone());
                Event::Renamed
            }
            _ => {
                acts.push(act);
                return (acts, files);
            }
        };
        acts.push(act);
    }
}

const MARKER: &str = "./Cargo.toml";
const RD: &str = "./target/release";
const BIN: &str = "./target/release/tool";
const NEW: &str = "./target/release/Foo-linux-1.2.3";

#[test]
fn missing_marker_fails_first() {
    let start = fs(&[RD, BIN]);
    let (acts, after) = drive(cli("Foo", true), config(Some("tool"), Some("1.2.3")), start.clone(), &start);
    assert_eq!(acts.len(), 2);
    assert!(matches!(&acts[0], Action::CheckExists { path } if path == MARKER));
    assert!(matches!(&acts[1], Action::Failed { error: InitCheckError::MissingCargoToml { dir } } if dir == "/work/proj"));
    assert_eq!(after, start);
}

#[test]
fn rename_moves_binary() {
    let start = fs(&[MARKER, RD, BIN]);
    let (acts, after) = drive(cli("Foo", false), config(Some("tool"), Some("1.2.3")), start.clone(), &start);
    assert!(!acts.iter().any(|a| matches!(a, Action::RunBuild)));
    assert!(matches!(acts.last().unwrap(), Action::Succeeded { from, to } if from == BIN && to == NEW));
    assert!(after.contains(NEW));
    assert!(!after.contains(BIN));
}

#[test]
fn missing_binary_no_rename() {
    let start = fs(&[MARKER, RD]);
    let (acts, after) = drive(cli("Foo", false), config(Some("tool"), Some("1.2.3")), start.clone(), &start);
    assert!(matches!(acts.last().unwrap(), Action::Failed { error: InitCheckError::MissingReleaseBinary { bin_path } } if bin_path == BIN));
    assert!(!acts.iter().any(|a| matches!(a, Action::Rename { .. })));
    assert_eq!(after, start);
}

#[test]
fn second_rename_fails() {
    let start = fs(&[MARKER, RD, BIN]);
    let (_, once) = drive(cli("Foo", false), config(Some("tool"), Some("1.2.3")), start.clone(), &start);
    let (acts, twice) = drive(cli("Foo", false), config(Some("tool"), Some("1.2.3")), once.clone(), &start);
    assert!(matches!(acts.last().unwrap(), Action::Failed { error: InitCheckError::MissingReleaseBinary { bin_path } } if bin_path == BIN));
    assert_eq!(twice, once);
}

#[test]
fn build_runs_before_release_dir_check() {
    let start = fs(&[MARKER]);
    let built = fs(&[MARKER, RD, BIN]);
    let (acts, after) = drive(cli("Foo", true), config(Some("tool"), Some("1.2.3")), start, &built);
    assert!(matches!(&acts[1], Action::RunBuild));
    assert!(matches!(&acts[2], Action::CheckExists { path } if path == RD));
    assert!(after.contains(NEW));
}

#[test]
fn missing_release_dir_names_target() {
    let start = fs(&[MARKER]);
    let (acts, _) = drive(cli("Foo", false), config(Some("tool"), Some("1.2.3")), start.clone(), &start);
    assert!(matches!(acts.last().unwrap(), Action::Failed { error: InitCheckError::MissingReleaseDir { dir } } if dir == "/work/proj/target"));
}

#[test]
fn missing_package_name_fails() {
    let start = fs(&[MARKER, RD, BIN]);
    let (acts, after) = drive(cli("Foo", false), config(None, Some("1.2.3")), start.clone(), &start);
    assert!(matches!(acts.last().unwrap(), Action::Failed { error: InitCheckError::MissingPackageName }));
    assert_eq!(after, start);
}

#[test]
fn unknown_version_placeholder() {
    let start = fs(&[MARKER, RD, BIN]);
    let (acts, after) = drive(cli("Foo", false), config(Some("tool"), None), start.clone(), &start);
    assert!(matches!(acts.last().unwrap(), Action::Succeeded { to, .. } if to == "./target/release/Foo-linux-?.?.?"));
    assert!(after.contains("./target/release/Foo-linux-?.?.?"));
}

#[test]
fn new_bin_name_format() {
    assert_eq!(new_bin_name("Foo", "macos", &Some("0.1.0".to_string())), "Foo-macos-0.1.0");
    assert_eq!(new_bin_name("Foo", "windows", &None), "Foo-windows-?.?.?");
}

#[test]
fn join_adds_one_separator() {
    assert_eq!(join("/", "target"), "/target");
    assert_eq!(join("/work/", "target"), "/work/target");
    assert_eq!(join("/work", "target"), "/work/target");
}

#[test]
fn event_out_of_order_halts() {
    let mut s = Session::new(cli("Foo", false), config(Some("tool"), None));
    assert!(matches!(s.step(Event::Renamed), Action::Halt));
    assert_eq!(s.stage, Stage::Done);
    assert!(matches!(s.step(Event::Start), Action::Halt));
}
