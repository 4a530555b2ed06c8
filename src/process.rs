//! Forceful termination of a process by identifier.
use vstd::prelude::*;
use crate::text::{decimal, decimal_string, join};

verus! {

/// The program to run, and its arguments.
pub struct KillCommand {
    pub program: String,
    pub args: Vec<String>,
}

pub open spec fn arg_views(v: Seq<String>) -> Seq<Seq<char>> {
    v.map_values(|s: String| s@)
}

/// The command that ends process `pid`: on Windows `taskkill /PID <pid> /T /F`,
/// which takes the process tree down with it; elsewhere `kill -9 <pid>`, for
/// that one process. Identifier 0 is refused before any command is formed.
pub fn kill_command(pid: u32, windows: bool) -> (r: Result<KillCommand, String>)
    ensures
        pid == 0 <==> r is Err,
        pid == 0 ==> r->Err_0@ == "invalid pid"@,
        pid != 0 && windows ==> r->Ok_0.program@ == "taskkill"@ && arg_views(r->Ok_0.args@)
            == seq!["/PID"@, decimal(pid as nat), "/T"@, "/F"@],
        pid != 0 && !windows ==> r->Ok_0.program@ == "kill"@ && arg_views(r->Ok_0.args@)
            == seq!["-9"@, decimal(pid as nat)],
{
    if pid == 0 {
        return Err("invalid pid".to_owned());
    }
    let id = decimal_string(pid);
    if windows {
        let args = vec!["/PID".to_owned(), id, "/T".to_owned(), "/F".to_owned()];
        assert(arg_views(args@) =~= seq!["/PID"@, decimal(pid as nat), "/T"@, "/F"@]);
        Ok(KillCommand { program: "taskkill".to_owned(), args })
    } else {
        let args = vec!["-9".to_owned(), id];
        assert(arg_views(args@) =~= seq!["-9"@, decimal(pid as nat)]);
        Ok(KillCommand { program: "kill".to_owned(), args })
    }
}

/// What termination reports, given how the command ended: `Err` with the
/// spawn failure's text, `Ok` on a successful exit, and otherwise `Err` with
/// the exit status behind `taskkill failed: ` or `kill failed: `.
pub fn kill_outcome(windows: bool, ran: Result<(bool, String), String>) -> (r: Result<(), String>)
    ensures
        ran is Err ==> r is Err && r->Err_0@ == ran->Err_0@,
        ran is Ok && ran->Ok_0.0 ==> r is Ok,
        ran is Ok && !ran->Ok_0.0 && windows ==> r is Err && r->Err_0@ == "taskkill failed: "@
            + ran->Ok_0.1@,
        ran is Ok && !ran->Ok_0.0 && !windows ==> r is Err && r->Err_0@ == "kill failed: "@
            + ran->Ok_0.1@,
{
    match ran {
        Err(e) => Err(e),
        Ok((true, _)) => Ok(()),
        Ok((false, status)) => {
            if windows {
                Err(join("taskkill failed: ".to_owned(), status.as_str()))
            } else {
                Err(join("kill failed: ".to_owned(), status.as_str()))
            }
        },
    }
}

/// The adapter a platform gets.
#[derive(PartialEq, Eq, Structural, Clone, Copy)]
pub enum Platform {
    Windows,
    MacOs,
    Linux,
}

/// Picks the adapter for an operating system name (`"windows"`, `"macos"`,
/// `"linux"`, as Rust names them). Any other system gets the one fixed
/// error, and no snapshot.
pub fn adapter_for(os: &str) -> (r: Result<Platform, String>)
    ensures
        os@ == "windows"@ <==> r == Ok::<Platform, String>(Platform::Windows),
        os@ == "macos"@ <==> r == Ok::<Platform, String>(Platform::MacOs),
        os@ == "linux"@ <==> r == Ok::<Platform, String>(Platform::Linux),
        r is Err ==> r->Err_0@ == "Not implemented for this OS yet"@,
{
    proof {
        reveal_strlit("windows");
        reveal_strlit("macos");
        reveal_strlit("linux");
        assert("windows"@ != "macos"@ && "windows"@ != "linux"@ && "macos"@ != "linux"@) by {
            assert("windows"@.len() != "macos"@.len());
            assert("windows"@.len() != "linux"@.len());
            assert("macos"@[0] != "linux"@[0]);
        }
    }
    if crate::text::text_is(os, "windows") {
        Ok(Platform::Windows)
    } else if crate::text::text_is(os, "macos") {
        Ok(Platform::MacOs)
    } else if crate::text::text_is(os, "linux") {
        Ok(Platform::Linux)
    } else {
        Err("Not implemented for this OS yet".to_owned())
    }
}

} // verus!
