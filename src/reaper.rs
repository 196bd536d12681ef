use vstd::prelude::*;

use crate::path_model::names_of;

verus! {

/// The operating-system family, which decides how stale backends are found.
#[derive(PartialEq, Eq, Structural, Clone, Copy, Debug)]
pub enum Platform {
    Linux,
    MacOs,
    Windows,
}

/// One process-killing command: a program and its arguments.
pub struct KillCommand {
    pub program: String,
    pub args: Vec<String>,
}

/// The program that kills processes by pattern on `p`.
pub open spec fn kill_program_spec(p: Platform) -> Seq<char> {
    match p {
        Platform::Windows => "taskkill"@,
        _ => "pkill"@,
    }
}

/// The patterns (command lines on Unix, image names on Windows) that identify a
/// backend from an earlier run.
pub open spec fn stale_patterns_spec(p: Platform) -> Seq<Seq<char>> {
    match p {
        Platform::Windows => seq!["python.exe"@, "talus-tally-backend.exe"@],
        _ => seq!["python.*backend.app"@, "talus-tally-backend"@],
    }
}

/// The arguments that kill every process matching `pattern` on `p`.
pub open spec fn kill_args_spec(p: Platform, pattern: Seq<char>) -> Seq<Seq<char>> {
    match p {
        Platform::Windows => seq!["/F"@, "/IM"@, pattern],
        _ => seq!["-f"@, pattern],
    }
}

/// Whether `cmds` holds one kill command per stale pattern of `p`, in order.
pub open spec fn reap_plan_matches(cmds: Seq<KillCommand>, p: Platform) -> bool {
    &&& cmds.len() == stale_patterns_spec(p).len()
    &&& forall|i: int|
        0 <= i < cmds.len() ==> {
            &&& (#[trigger] cmds[i]).program@ == kill_program_spec(p)
            &&& names_of(cmds[i].args@) == kill_args_spec(p, stale_patterns_spec(p)[i])
        }
}

fn kill_command(p: Platform, pattern: &str) -> (r: KillCommand)
    ensures
        r.program@ == kill_program_spec(p),
        names_of(r.args@) == kill_args_spec(p, pattern@),
{
    let mut args: Vec<String> = Vec::new();
    let program = match p {
        Platform::Windows => {
            args.push(String::from_str("/F"));
            args.push(String::from_str("/IM"));
            String::from_str("taskkill")
        },
        _ => {
            args.push(String::from_str("-f"));
            String::from_str("pkill")
        },
    };
    args.push(String::from_str(pattern));
    assert(names_of(args@) =~= kill_args_spec(p, pattern@));
    KillCommand { program, args }
}

/// The commands that kill, best effort, every backend left over from an earlier run.
pub fn reap_commands(p: Platform) -> (r: Vec<KillCommand>)
    ensures
        reap_plan_matches(r@, p),
{
    let mut r: Vec<KillCommand> = Vec::new();
    match p {
        Platform::Windows => {
            r.push(kill_command(p, "python.exe"));
            r.push(kill_command(p, "talus-tally-backend.exe"));
        },
        _ => {
            r.push(kill_command(p, "python.*backend.app"));
            r.push(kill_command(p, "talus-tally-backend"));
        },
    }
    r
}

} // verus!
