use vstd::prelude::*;

use crate::path_model::{names_of, PathView, SysPath};
use crate::resolver::{packaged_path_spec, venv_python_spec, BackendKind};

verus! {

/// Everything needed to spawn the backend: program, arguments, the daemon-mode
/// environment marker and the working directory.
pub struct LaunchSpec {
    pub kind: BackendKind,
    pub program: SysPath,
    pub args: Vec<String>,
    pub env_key: String,
    pub env_value: String,
    pub cwd: SysPath,
}

/// The program run for each kind of backend under `root`.
pub open spec fn program_spec(root: PathView, kind: BackendKind) -> PathView {
    match kind {
        BackendKind::Packaged => packaged_path_spec(root),
        BackendKind::VirtualEnv => venv_python_spec(root),
        BackendKind::SystemPython => (false, seq!["python3"@]),
    }
}

/// The arguments: none for the packaged binary, module invocation otherwise.
pub open spec fn args_spec(kind: BackendKind) -> Seq<Seq<char>> {
    match kind {
        BackendKind::Packaged => Seq::empty(),
        _ => seq!["-m"@, "backend.app"@],
    }
}

/// The launch of `kind` from the project root `root`.
pub open spec fn launch_matches(r: LaunchSpec, root: PathView, kind: BackendKind) -> bool {
    &&& r.kind == kind
    &&& r.program@ == program_spec(root, kind)
    &&& names_of(r.args@) == args_spec(kind)
    &&& r.env_key@ == "TALUS_DAEMON"@
    &&& r.env_value@ == "1"@
    &&& r.cwd@ == root
}

/// Builds the launch of `kind` from the project root `root`.
pub fn launch_spec(root: &SysPath, kind: BackendKind) -> (r: LaunchSpec)
    ensures
        launch_matches(r, root@, kind),
{
    let mut args: Vec<String> = Vec::new();
    let program = match kind {
        BackendKind::Packaged => crate::resolver::packaged_backend_path(root),
        BackendKind::VirtualEnv => crate::resolver::venv_python_path(root),
        BackendKind::SystemPython => {
            let mut parts: Vec<String> = Vec::new();
            parts.push(String::from_str("python3"));
            let p = SysPath::new(false, parts);
            assert(p@.1 =~= seq!["python3"@]);
            p
        },
    };
    if kind != BackendKind::Packaged {
        args.push(String::from_str("-m"));
        args.push(String::from_str("backend.app"));
    }
    assert(names_of(args@) =~= args_spec(kind));
    LaunchSpec {
        kind,
        program,
        args,
        env_key: String::from_str("TALUS_DAEMON"),
        env_value: String::from_str("1"),
        cwd: root.copy(),
    }
}

} // verus!
