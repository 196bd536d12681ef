use vstd::prelude::*;

use crate::path_model::{
    ancestor_spec, child_spec, dot_spec, starts_with_spec, PathView, SysPath,
};

verus! {

/// Which backend artifact is launched.
#[derive(PartialEq, Eq, Structural, Clone, Copy, Debug)]
pub enum BackendKind {
    /// The packaged standalone executable.
    Packaged,
    /// The interpreter of the project's virtual environment.
    VirtualEnv,
    /// The interpreter found on the system's search path.
    SystemPython,
}

/// Where an installed deployment lives: /opt/talus-tally.
pub open spec fn installed_root_spec() -> PathView {
    (true, seq!["opt"@, "talus-tally"@])
}

/// The packaged backend executable under a project root.
pub open spec fn packaged_path_spec(root: PathView) -> PathView {
    child_spec(root, "talus-tally-backend"@)
}

/// The virtual-environment interpreter under a project root: .venv/bin/python3.
pub open spec fn venv_python_spec(root: PathView) -> PathView {
    child_spec(child_spec(child_spec(root, ".venv"@), "bin"@), "python3"@)
}

/// The directory whose presence marks an ancestor as the source tree's root.
pub open spec fn backend_dir_spec(dir: PathView) -> PathView {
    child_spec(dir, "backend"@)
}

/// Index of the first `true` in `s` at or after `from`, or `s.len()` if none.
pub open spec fn first_true(s: Seq<bool>, from: int) -> int
    decreases s.len() - from,
{
    if from >= s.len() {
        s.len() as int
    } else if s[from] {
        from
    } else {
        first_true(s, from + 1)
    }
}

/// The project root, from the executable's directory (if it is known), which of
/// that directory's ancestors (nearest first) hold a backend source tree, and the
/// working directory (if it is known).
pub open spec fn project_root_spec(
    exe_dir: Option<PathView>,
    has_backend: Seq<bool>,
    cwd: Option<PathView>,
) -> PathView {
    let fallback = match cwd {
        Some(c) => c,
        None => dot_spec(),
    };
    match exe_dir {
        Some(d) => {
            if starts_with_spec(d, installed_root_spec()) {
                installed_root_spec()
            } else {
                let probes = has_backend.subrange(
                    0,
                    if has_backend.len() <= d.1.len() + 1 {
                        has_backend.len() as int
                    } else {
                        (d.1.len() + 1) as int
                    },
                );
                let i = first_true(probes, 0);
                if i < probes.len() {
                    ancestor_spec(d, i)
                } else {
                    fallback
                }
            }
        },
        None => fallback,
    }
}

/// Strict priority among the candidates that exist.
pub open spec fn select_spec(packaged_exists: bool, venv_exists: bool) -> BackendKind {
    if packaged_exists {
        BackendKind::Packaged
    } else if venv_exists {
        BackendKind::VirtualEnv
    } else {
        BackendKind::SystemPython
    }
}

/// The root of an installed deployment.
pub fn installed_root() -> (r: SysPath)
    ensures
        r@ == installed_root_spec(),
{
    let mut parts: Vec<String> = Vec::new();
    parts.push(String::from_str("opt"));
    parts.push(String::from_str("talus-tally"));
    let r = SysPath::new(true, parts);
    assert(r@.1 =~= installed_root_spec().1);
    r
}

/// Path of the packaged backend executable under `root`.
pub fn packaged_backend_path(root: &SysPath) -> (r: SysPath)
    ensures
        r@ == packaged_path_spec(root@),
{
    root.child("talus-tally-backend")
}

/// Path of the virtual-environment interpreter under `root`.
pub fn venv_python_path(root: &SysPath) -> (r: SysPath)
    ensures
        r@ == venv_python_spec(root@),
{
    root.child(".venv").child("bin").child("python3")
}

/// The directory to look for in `dir` when searching for the source tree.
pub fn backend_dir(dir: &SysPath) -> (r: SysPath)
    ensures
        r@ == backend_dir_spec(dir@),
{
    dir.child("backend")
}

/// Decides the project root. `has_backend[i]` tells whether the `i`-th ancestor
/// of `exe_dir` (as `SysPath::ancestors` lists them) holds a `backend`
/// directory; missing entries count as absent.
pub fn determine_project_root(
    exe_dir: Option<&SysPath>,
    has_backend: &Vec<bool>,
    cwd: Option<SysPath>,
) -> (r: SysPath)
    ensures
        r@ == project_root_spec(
            match exe_dir {
                Some(d) => Some(d@),
                None => None,
            },
            has_backend@,
            match cwd {
                Some(c) => Some(c@),
                None => None,
            },
        ),
{
    if let Some(d) = exe_dir {
        let root = installed_root();
        if d.starts_with(&root) {
            return root;
        }
        let n: usize = if has_backend.len() <= d.parts.len() {
            has_backend.len()
        } else {
            d.parts.len() + 1
        };
        let ghost probes = has_backend@.subrange(0, n as int);
        let mut i: usize = 0;
        while i < n
            invariant
                n == probes.len(),
                n as int == (if has_backend@.len() <= d@.1.len() + 1 {
                    has_backend@.len() as int
                } else {
                    (d@.1.len() + 1) as int
                }),
                !starts_with_spec(d@, installed_root_spec()),
                exe_dir == Some(d),
                probes == has_backend@.subrange(0, n as int),
                n <= has_backend@.len(),
                i <= n,
                first_true(probes, 0) == first_true(probes, i as int),
            decreases n - i,
        {
            if has_backend[i] {
                assert(first_true(probes, i as int) == i);
                return d.ancestor(i);
            }
            assert(first_true(probes, i as int) == first_true(probes, i + 1));
            i = i + 1;
        }
        assert(first_true(probes, n as int) == n);
    }
    match cwd {
        Some(c) => c,
        None => SysPath::dot(),
    }
}

/// Picks the backend to launch: packaged binary, else virtual environment,
/// else the system interpreter.
pub fn select_backend(packaged_exists: bool, venv_exists: bool) -> (r: BackendKind)
    ensures
        r == select_spec(packaged_exists, venv_exists),
{
    if packaged_exists {
        BackendKind::Packaged
    } else if venv_exists {
        BackendKind::VirtualEnv
    } else {
        BackendKind::SystemPython
    }
}

/// Candidate selection is a strict priority order: the packaged binary wins
/// whenever it exists, the virtual-environment interpreter wins when only the
/// interpreters exist, and the system interpreter is taken when neither exists.
pub proof fn lemma_selection_priority(packaged_exists: bool, venv_exists: bool)
    ensures
        packaged_exists ==> select_spec(packaged_exists, venv_exists) == BackendKind::Packaged,
        !packaged_exists && venv_exists ==> select_spec(packaged_exists, venv_exists)
            == BackendKind::VirtualEnv,
        !packaged_exists && !venv_exists ==> select_spec(packaged_exists, venv_exists)
            == BackendKind::SystemPython,
{
}

} // verus!
