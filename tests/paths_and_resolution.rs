use talus_tally::launch::launch_spec;
use talus_tally::path_model::{str_eq, SysPath};
use talus_tally::resolver::{
    backend_dir, determine_project_root, installed_root, packaged_backend_path, select_backend,
    venv_python_path, BackendKind,
};

fn path(absolute: bool, parts: &[&str]) -> SysPath {
    SysPath::new(absolute, parts.iter().map(|s| s.to_string()).collect())
}

fn names(p: &SysPath) -> Vec<&str> {
    p.parts.iter().map(|s| s.as_str()).collect()
}

#[test]
fn str_eq_compares_characters() {
    assert!(str_eq("backend", "backend"));
    assert!(!str_eq("backend", "backends"));
    assert!(!str_eq("abc", "abd"));
    assert!(str_eq("", ""));
}

#[test]
fn child_appends_a_name() {
    let p = path(true, &["home", "u"]).child("repo");
    assert!(p.absolute);
    assert_eq!(names(&p), vec!["home", "u", "repo"]);
}

#[test]
fn parent_or_dot_drops_last_name() {
    let p = path(true, &["home", "u", "app"]).parent_or_dot();
    assert_eq!(names(&p), vec!["home", "u"]);
    let root = path(true, &[]).parent_or_dot();
    assert!(!root.absolute);
    assert_eq!(names(&root), vec!["."]);
}

#[test]
fn ancestors_go_nearest_first() {
    let a = path(true, &["a", "b"]).ancestors();
    assert_eq!(a.len(), 3);
    assert_eq!(names(&a[0]), vec!["a", "b"]);
    assert_eq!(names(&a[1]), vec!["a"]);
    assert!(a[2].parts.is_empty() && a[2].absolute);
}

#[test]
fn starts_with_is_component_wise() {
    let root = installed_root();
    assert!(path(true, &["opt", "talus-tally", "bin"]).starts_with(&root));
    assert!(path(true, &["opt", "talus-tally"]).starts_with(&root));
    assert!(!path(true, &["opt", "talus-tally-x", "bin"]).starts_with(&root));
    assert!(!path(false, &["opt", "talus-tally", "bin"]).starts_with(&root));
    assert!(!path(true, &["opt"]).starts_with(&root));
}

#[test]
fn candidate_paths_under_root() {
    let root = path(true, &["srv", "tt"]);
    assert_eq!(names(&packaged_backend_path(&root)), vec!["srv", "tt", "talus-tally-backend"]);
    assert_eq!(names(&venv_python_path(&root)), vec!["srv", "tt", ".venv", "bin", "python3"]);
    assert_eq!(names(&backend_dir(&root)), vec!["srv", "tt", "backend"]);
}

#[test]
fn installed_location_wins_without_search() {
    let exe_dir = path(true, &["opt", "talus-tally", "bin"]);
    let r = determine_project_root(Some(&exe_dir), &vec![true, true, true, true], None);
    assert!(r.absolute);
    assert_eq!(names(&r), vec!["opt", "talus-tally"]);
}

#[test]
fn nearest_ancestor_with_backend_is_root() {
    let exe_dir = path(true, &["home", "u", "repo", "frontend", "target"]);
    let has = vec![false, false, true, true, false, false];
    let r = determine_project_root(Some(&exe_dir), &has, Some(path(true, &["tmp"])));
    assert_eq!(names(&r), vec!["home", "u", "repo"]);
}

#[test]
fn no_ancestor_falls_back_to_cwd() {
    let exe_dir = path(true, &["usr", "bin"]);
    let r = determine_project_root(Some(&exe_dir), &vec![false, false, false], Some(path(true, &["work"])));
    assert_eq!(names(&r), vec!["work"]);
    let r = determine_project_root(None, &vec![], None);
    assert!(!r.absolute);
    assert_eq!(names(&r), vec!["."]);
}

#[test]
fn selection_priority() {
    assert_eq!(select_backend(true, true), BackendKind::Packaged);
    assert_eq!(select_backend(true, false), BackendKind::Packaged);
    assert_eq!(select_backend(false, true), BackendKind::VirtualEnv);
    assert_eq!(select_backend(false, false), BackendKind::SystemPython);
}

#[test]
fn launch_of_each_kind() {
    let root = path(true, &["r"]);
    let l = launch_spec(&root, BackendKind::Packaged);
    assert_eq!(names(&l.program), vec!["r", "talus-tally-backend"]);
    assert!(l.args.is_empty());
    assert_eq!(l.env_key, "TALUS_DAEMON");
    assert_eq!(l.env_value, "1");
    assert_eq!(names(&l.cwd), vec!["r"]);

    let l = launch_spec(&root, BackendKind::VirtualEnv);
    assert_eq!(names(&l.program), vec!["r", ".venv", "bin", "python3"]);
    assert_eq!(l.args, vec!["-m".to_string(), "backend.app".to_string()]);

    let l = launch_spec(&root, BackendKind::SystemPython);
    assert!(!l.program.absolute);
    assert_eq!(names(&l.program), vec!["python3"]);
    assert_eq!(l.args, vec!["-m".to_string(), "backend.app".to_string()]);
    assert_eq!(names(&l.cwd), vec!["r"]);
}
