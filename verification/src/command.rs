use vstd::prelude::*;
use vstd::string::*;

verus! {

/// The operating system the shell runs on: the registry, the scheduled
/// tasks and Explorer exist only on Windows; Finder only on macOS.
#[derive(Clone, Copy, Debug, PartialEq, Eq, Structural)]
pub enum Platform {
    Windows,
    MacOs,
    Other,
}

/// How a process is started: detached (`spawn`), or waited for with its
/// output collected (`output`).
#[derive(Clone, Copy, Debug, PartialEq, Eq, Structural)]
pub enum RunMode {
    Spawn,
    Output,
}

/// A process to start: program, arguments, optional working directory and
/// whether to wait for it.
#[derive(Clone, Debug, PartialEq, Eq)]
pub struct CommandSpec {
    pub program: String,
    pub args: Vec<String>,
    pub working_dir: Option<String>,
    pub mode: RunMode,
}

/// The plain content of a [`CommandSpec`].
pub struct CommandView {
    pub program: Seq<char>,
    pub args: Seq<Seq<char>>,
    pub working_dir: Option<Seq<char>>,
    pub mode: RunMode,
}

/// The characters of each text in a sequence of strings.
pub open spec fn texts_view(v: Seq<String>) -> Seq<Seq<char>> {
    v.map_values(|s: String| s@)
}

/// The characters of an optional string.
pub open spec fn opt_text_view(o: Option<String>) -> Option<Seq<char>> {
    match o {
        Some(s) => Some(s@),
        None => None,
    }
}

impl View for CommandSpec {
    type V = CommandView;

    open spec fn view(&self) -> CommandView {
        CommandView {
            program: self.program@,
            args: texts_view(self.args@),
            working_dir: opt_text_view(self.working_dir),
            mode: self.mode,
        }
    }
}

/// A string holding the characters of `s`.
pub fn owned(s: &str) -> (r: String)
    ensures
        r@ == s@,
{
    String::from_str(s)
}

/// A copy of a string.
pub fn copy_text(s: &String) -> (r: String)
    ensures
        r@ == s@,
{
    s.clone()
}

/// A copy of a list of strings.
pub fn copy_texts(v: &Vec<String>) -> (r: Vec<String>)
    ensures
        texts_view(r@) == texts_view(v@),
{
    let mut r: Vec<String> = Vec::new();
    let n = v.len();
    let mut i: usize = 0;
    while i < n
        invariant
            n == v@.len(),
            i <= n,
            texts_view(r@) == texts_view(v@.subrange(0, i as int)),
        decreases n - i,
    {
        let ghost before = r@;
        let item = v[i].clone();
        r.push(item);
        assert(texts_view(r@) =~= texts_view(before).push(v@[i as int]@));
        assert(v@.subrange(0, i + 1) =~= v@.subrange(0, i as int).push(v@[i as int]));
        assert(texts_view(v@.subrange(0, i + 1)) =~= texts_view(v@.subrange(0, i as int)).push(
            v@[i as int]@,
        ));
        i = i + 1;
    }
    assert(v@.subrange(0, n as int) =~= v@);
    r
}

/// A command with no arguments.
pub fn bare_command(program: &str, mode: RunMode) -> (c: CommandSpec)
    ensures
        c@.program == program@,
        c@.args == Seq::<Seq<char>>::empty(),
        c@.working_dir is None,
        c@.mode == mode,
{
    let c = CommandSpec { program: owned(program), args: Vec::new(), working_dir: None, mode };
    assert(texts_view(c.args@) =~= Seq::<Seq<char>>::empty());
    c
}

/// Appends one argument to a command.
pub fn push_arg(c: &mut CommandSpec, arg: String)
    ensures
        final(c)@.program == old(c)@.program,
        final(c)@.args == old(c)@.args.push(arg@),
        final(c)@.working_dir == old(c)@.working_dir,
        final(c)@.mode == old(c)@.mode,
{
    let ghost before = c.args@;
    c.args.push(arg);
    assert(texts_view(c.args@) =~= texts_view(before).push(arg@));
}

} // verus!

verus! {

/// Appends one literal argument to a command.
pub fn push_text_arg(c: &mut CommandSpec, arg: &str)
    ensures
        final(c)@.program == old(c)@.program,
        final(c)@.args == old(c)@.args.push(arg@),
        final(c)@.working_dir == old(c)@.working_dir,
        final(c)@.mode == old(c)@.mode,
{
    push_arg(c, owned(arg));
}

} // verus!
