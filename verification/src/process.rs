use vstd::prelude::*;

use crate::command::{
    bare_command, copy_text, copy_texts, opt_text_view, owned, push_arg, push_text_arg, texts_view,
    CommandSpec, CommandView, RunMode,
};
use crate::text::{
    chars_of, decimal, decimal_string, decode_utf8_lossy, matches_ignoring_case_at,
    same_ignoring_case, utf8_lossy,
};

verus! {

/// The programs a production build lets the front end start.
pub open spec fn spawn_whitelist() -> Seq<Seq<char>> {
    seq!["explorer.exe"@, "taskmgr.exe"@, "ollama"@, "ollama.exe"@]
}

/// A path separator on Windows or elsewhere.
pub open spec fn is_separator(c: char) -> bool {
    c == '\\' || c == '/'
}

/// `exe` names the program `allowed`: its last path component is `allowed`,
/// ignoring the case of ASCII letters.
pub open spec fn names_program(exe: Seq<char>, allowed: Seq<char>) -> bool {
    &&& exe.len() >= allowed.len()
    &&& same_ignoring_case(exe.subrange(exe.len() - allowed.len(), exe.len() as int), allowed)
    &&& (exe.len() == allowed.len() || is_separator(exe[exe.len() - allowed.len() - 1]))
}

/// `exe` names one of the whitelisted programs.
pub open spec fn spawn_allowed(exe: Seq<char>) -> bool {
    exists|k: int| 0 <= k < spawn_whitelist().len() && names_program(exe, #[trigger] spawn_whitelist()[k])
}

/// The reply where a production build refuses a program.
pub open spec fn not_allowed_reply(exe: Seq<char>) -> Seq<char> {
    "Executable not allowed: "@ + exe
}

fn whitelisted(k: usize) -> (w: &'static str)
    requires
        k < 4,
    ensures
        w@ == spawn_whitelist()[k as int],
{
    if k == 0 {
        "explorer.exe"
    } else if k == 1 {
        "taskmgr.exe"
    } else if k == 2 {
        "ollama"
    } else {
        "ollama.exe"
    }
}

fn names(exe: &Vec<char>, allowed: &Vec<char>) -> (b: bool)
    ensures
        b == names_program(exe@, allowed@),
{
    let el = exe.len();
    let al = allowed.len();
    if el < al {
        return false;
    }
    let start = el - al;
    if !matches_ignoring_case_at(exe, allowed, start) {
        return false;
    }
    if el == al {
        return true;
    }
    let c = exe[start - 1];
    c == '\\' || c == '/'
}

/// Whether a production build lets the front end start `executable`.
pub fn is_spawn_allowed(executable: &String) -> (b: bool)
    ensures
        b == spawn_allowed(executable@),
{
    let exe = chars_of(executable.as_str());
    let mut k: usize = 0;
    while k < 4
        invariant
            k <= 4,
            exe@ == executable@,
            spawn_whitelist().len() == 4,
            forall|j: int| 0 <= j < k ==> !names_program(executable@, #[trigger] spawn_whitelist()[j]),
        decreases 4 - k,
    {
        let allowed = chars_of(whitelisted(k));
        if names(&exe, &allowed) {
            assert(names_program(executable@, spawn_whitelist()[k as int]));
            return true;
        }
        k = k + 1;
    }
    false
}

/// Starting a program with its arguments and, where given, its working
/// directory, without waiting for it. A production build starts only the
/// whitelisted programs and refuses the others. The reply is the new
/// process's id, or the refusal or failure.
pub fn spawn_process(
    executable: &String,
    args: &Vec<String>,
    working_dir: &Option<String>,
    production: bool,
) -> (r: Result<CommandSpec, String>)
    ensures
        production && !spawn_allowed(executable@) ==> (r matches Err(e) && e@ == not_allowed_reply(
            executable@,
        )),
        !production || spawn_allowed(executable@) ==> (r matches Ok(c) && c@ == (CommandView {
            program: executable@,
            args: texts_view(args@),
            working_dir: opt_text_view(*working_dir),
            mode: RunMode::Spawn,
        })),
{
    if production && !is_spawn_allowed(executable) {
        let mut e = owned("Executable not allowed: ");
        e.append(executable.as_str());
        return Err(e);
    }
    let dir = match working_dir {
        Some(d) => Some(copy_text(d)),
        None => None,
    };
    Ok(
        CommandSpec {
            program: copy_text(executable),
            args: copy_texts(args),
            working_dir: dir,
            mode: RunMode::Spawn,
        },
    )
}

/// Ending a process by id, by force, waiting for `taskkill` to finish. The
/// id is written in decimal.
pub fn kill_process(pid: u32) -> (c: CommandSpec)
    ensures
        c@ == (CommandView {
            program: "taskkill"@,
            args: seq!["/f"@, "/pid"@, decimal(pid as nat)],
            working_dir: None,
            mode: RunMode::Output,
        }),
{
    let mut c = bare_command("taskkill", RunMode::Output);
    push_text_arg(&mut c, "/f");
    push_text_arg(&mut c, "/pid");
    push_arg(&mut c, decimal_string(pid));
    assert(c@.args =~= seq!["/f"@, "/pid"@, decimal(pid as nat)]);
    c
}

/// The task list query for processes with the given image name, as CSV
/// without a header, waited for.
pub fn is_process_running(name: &String) -> (c: CommandSpec)
    ensures
        c@ == (CommandView {
            program: "tasklist"@,
            args: seq!["/fi"@, "imagename eq "@ + name@, "/fo"@, "csv"@, "/nh"@],
            working_dir: None,
            mode: RunMode::Output,
        }),
{
    let mut c = bare_command("tasklist", RunMode::Output);
    push_text_arg(&mut c, "/fi");
    let mut filter = owned("imagename eq ");
    filter.append(name.as_str());
    push_arg(&mut c, filter);
    push_text_arg(&mut c, "/fo");
    push_text_arg(&mut c, "csv");
    push_text_arg(&mut c, "/nh");
    assert(c@.args =~= seq!["/fi"@, "imagename eq "@ + name@, "/fo"@, "csv"@, "/nh"@]);
    c
}

/// The task list shows a process whose image name is `name` (ignoring the
/// case of ASCII letters) in the CSV record that starts at `i`: a line that
/// opens with the quoted name.
pub open spec fn listed_at(text: Seq<char>, name: Seq<char>, i: int) -> bool {
    &&& 0 <= i
    &&& i + name.len() + 2 <= text.len()
    &&& (i == 0 || text[i - 1] == '\n')
    &&& text[i] == '"'
    &&& same_ignoring_case(text.subrange(i + 1, i + 1 + name.len()), name)
    &&& text[i + 1 + name.len()] == '"'
}

/// The task list shows a process with that image name.
pub open spec fn image_listed(text: Seq<char>, name: Seq<char>) -> bool {
    name.len() > 0 && exists|i: int| #[trigger] listed_at(text, name, i)
}

/// Whether the task list reports the process: a line of its output, decoded
/// leniently, is a CSV record whose first field is the image name (ignoring
/// the case of ASCII letters, as Windows does). An empty name and a query
/// that could not run report no process.
pub fn process_listed(stdout: &Option<Vec<u8>>, name: &String) -> (b: bool)
    ensures
        b == (stdout matches Some(out) && image_listed(utf8_lossy(out@), name@)),
{
    match stdout {
        Some(out) => {
            let decoded = decode_utf8_lossy(out.as_slice());
            let text = chars_of(decoded.as_str());
            let nm = chars_of(name.as_str());
            let n = nm.len();
            if n == 0 {
                return false;
            }
            let tl = text.len();
            let mut i: usize = 0;
            while i < tl
                invariant
                    *stdout == Some(*out),
                    text@ == utf8_lossy(out@),
                    nm@ == name@,
                    n == nm@.len(),
                    n > 0,
                    tl == text@.len(),
                    i <= tl,
                    forall|k: int| 0 <= k < i ==> !listed_at(text@, nm@, k),
                decreases tl - i,
            {
                if tl - i >= 2 && tl - i - 2 >= n && (i == 0 || text[i - 1] == '\n') && text[i] == '"'
                    && matches_ignoring_case_at(&text, &nm, i + 1) && text[i + 1 + n] == '"' {
                    assert(listed_at(text@, nm@, i as int));
                    assert(listed_at(utf8_lossy(out@), name@, i as int));
                    return true;
                }
                i = i + 1;
            }
            assert forall|k: int| !listed_at(text@, nm@, k) by {
                if 0 <= k < i {
                }
            }
            false
        },
        None => false,
    }
}

/// Starting Explorer, without waiting for it.
pub fn launch_explorer() -> (c: CommandSpec)
    ensures
        c@ == (CommandView {
            program: "explorer.exe"@,
            args: Seq::<Seq<char>>::empty(),
            working_dir: None,
            mode: RunMode::Spawn,
        }),
{
    bare_command("explorer.exe", RunMode::Spawn)
}

/// Starting the Task Manager, without waiting for it.
pub fn launch_task_manager() -> (c: CommandSpec)
    ensures
        c@ == (CommandView {
            program: "taskmgr.exe"@,
            args: Seq::<Seq<char>>::empty(),
            working_dir: None,
            mode: RunMode::Spawn,
        }),
{
    bare_command("taskmgr.exe", RunMode::Spawn)
}

} // verus!
