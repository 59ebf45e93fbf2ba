use vstd::prelude::*;
use vstd::string::*;

use crate::command::{
    bare_command, copy_text, copy_texts, push_arg, push_text_arg, texts_view, CommandSpec,
    CommandView, Platform, RunMode,
};

verus! {

/// A named group of file extensions offered by the file picker.
#[derive(Clone, Debug, PartialEq, Eq)]
pub struct FileFilter {
    pub name: String,
    pub extensions: Vec<String>,
}

/// The plain content of a [`FileFilter`].
pub struct FileFilterView {
    pub name: Seq<char>,
    pub extensions: Seq<Seq<char>>,
}

impl View for FileFilter {
    type V = FileFilterView;

    open spec fn view(&self) -> FileFilterView {
        FileFilterView { name: self.name@, extensions: texts_view(self.extensions@) }
    }
}

/// The plain content of a list of filters.
pub open spec fn filters_view(v: Seq<FileFilter>) -> Seq<FileFilterView> {
    v.map_values(|f: FileFilter| f@)
}

fn copy_filter(f: &FileFilter) -> (g: FileFilter)
    ensures
        g@ == f@,
{
    FileFilter { name: copy_text(&f.name), extensions: copy_texts(&f.extensions) }
}

/// The filters the file picker offers: each requested filter with its own
/// name and extensions, in order; none where none were requested.
pub fn pick_files(filters: &Option<Vec<FileFilter>>) -> (offered: Vec<FileFilter>)
    ensures
        filters_view(offered@) == match filters {
            Some(fs) => filters_view(fs@),
            None => Seq::<FileFilterView>::empty(),
        },
{
    let mut offered: Vec<FileFilter> = Vec::new();
    match filters {
        Some(fs) => {
            let n = fs.len();
            let mut i: usize = 0;
            while i < n
                invariant
                    n == fs@.len(),
                    i <= n,
                    filters_view(offered@) == filters_view(fs@.subrange(0, i as int)),
                decreases n - i,
            {
                let ghost before = offered@;
                let g = copy_filter(&fs[i]);
                offered.push(g);
                assert(filters_view(offered@) =~= filters_view(before).push(fs@[i as int]@));
                assert(fs@.subrange(0, i + 1) =~= fs@.subrange(0, i as int).push(fs@[i as int]));
                assert(filters_view(fs@.subrange(0, i + 1)) =~= filters_view(
                    fs@.subrange(0, i as int),
                ).push(fs@[i as int]@));
                i = i + 1;
            }
            assert(fs@.subrange(0, n as int) =~= fs@);
        },
        None => {
            assert(filters_view(offered@) =~= Seq::<FileFilterView>::empty());
        },
    }
    offered
}

/// The paths the picker returned, or none where it was dismissed.
pub fn picked_files(selection: Option<Vec<String>>) -> (paths: Vec<String>)
    ensures
        texts_view(paths@) == match selection {
            Some(v) => texts_view(v@),
            None => Seq::<Seq<char>>::empty(),
        },
{
    match selection {
        Some(v) => v,
        None => {
            let paths: Vec<String> = Vec::new();
            assert(texts_view(paths@) =~= Seq::<Seq<char>>::empty());
            paths
        },
    }
}

/// A character that `cmd` reads as command syntax outside quotes: the
/// command separators and redirections, the escape character itself, the
/// variable marker and the grouping brackets.
pub open spec fn is_cmd_special(c: char) -> bool {
    c == '&' || c == '|' || c == '<' || c == '>' || c == '^' || c == '%' || c == '(' || c == ')'
}

/// A text with a caret put before each character that `cmd` would read as
/// command syntax, so that `cmd` passes each of them on literally.
pub open spec fn caret_escape(s: Seq<char>) -> Seq<char>
    decreases s.len(),
{
    if s.len() == 0 {
        Seq::<char>::empty()
    } else {
        let c = s.last();
        caret_escape(s.drop_last()) + if is_cmd_special(c) {
            seq!['^', c]
        } else {
            seq![c]
        }
    }
}

/// A text holding a space or a tab: such an argument is written in quotes
/// on the command line, and inside quotes `cmd` takes its special
/// characters literally.
pub open spec fn has_blank(s: Seq<char>) -> bool {
    exists|i: int| 0 <= i < s.len() && (s[i] == ' ' || s[i] == '\t')
}

/// The path as it is handed to `cmd /c start`: unchanged where it holds a
/// blank (it stands in quotes), else with each special character escaped.
pub open spec fn start_argument(path: Seq<char>) -> Seq<char> {
    if has_blank(path) {
        path
    } else {
        caret_escape(path)
    }
}

fn is_cmd_special_char(c: char) -> (b: bool)
    ensures
        b == is_cmd_special(c),
{
    c == '&' || c == '|' || c == '<' || c == '>' || c == '^' || c == '%' || c == '(' || c == ')'
}

fn holds_blank(s: &str) -> (b: bool)
    ensures
        b == has_blank(s@),
{
    let n = s.unicode_len();
    let mut i: usize = 0;
    while i < n
        invariant
            n == s@.len(),
            i <= n,
            forall|k: int| 0 <= k < i ==> s@[k] != ' ' && s@[k] != '\t',
        decreases n - i,
    {
        let c = s.get_char(i);
        if c == ' ' || c == '\t' {
            return true;
        }
        i = i + 1;
    }
    false
}

fn caret_escaped(s: &str) -> (r: String)
    ensures
        r@ == caret_escape(s@),
{
    let n = s.unicode_len();
    let mut r = String::new();
    let mut i: usize = 0;
    proof {
        reveal_strlit("^");
        assert(s@.subrange(0, 0) =~= Seq::<char>::empty());
    }
    while i < n
        invariant
            n == s@.len(),
            i <= n,
            r@ == caret_escape(s@.subrange(0, i as int)),
            "^"@ == seq!['^'],
        decreases n - i,
    {
        let c = s.get_char(i);
        let ghost before = r@;
        if is_cmd_special_char(c) {
            r.append("^");
        }
        let piece = s.substring_char(i, i + 1);
        r.append(piece);
        proof {
            let pre = s@.subrange(0, i + 1);
            assert(pre.drop_last() =~= s@.subrange(0, i as int));
            assert(pre.last() == c);
            assert(piece@ =~= seq![c]);
            if is_cmd_special(c) {
                assert(r@ =~= before + seq!['^', c]);
            } else {
                assert(r@ =~= before + seq![c]);
            }
        }
        i = i + 1;
    }
    assert(s@.subrange(0, n as int) =~= s@);
    r
}

/// The path argument for `cmd /c start`, as [`start_argument`] says.
pub fn start_argument_for(path: &String) -> (a: String)
    ensures
        a@ == start_argument(path@),
{
    let s = path.as_str();
    if holds_blank(s) {
        copy_text(path)
    } else {
        caret_escaped(s)
    }
}

/// Opening a file with the system's default handler, without waiting:
/// `cmd /c start "" <path>` on Windows, with the path escaped so that `cmd`
/// reads no command syntax in it; `open` on macOS; `xdg-open` elsewhere.
/// A path with a blank is handed on unchanged: the command line puts it in
/// quotes, where `cmd` takes `&`, `|`, `<`, `>`, `^` and brackets
/// literally but still expands a `%name%` variable.
pub fn open_file(path: &String, platform: Platform) -> (c: CommandSpec)
    ensures
        platform == Platform::Windows ==> c@ == (CommandView {
            program: "cmd"@,
            args: seq!["/c"@, "start"@, ""@, start_argument(path@)],
            working_dir: None,
            mode: RunMode::Spawn,
        }),
        platform == Platform::MacOs ==> c@ == (CommandView {
            program: "open"@,
            args: seq![path@],
            working_dir: None,
            mode: RunMode::Spawn,
        }),
        platform == Platform::Other ==> c@ == (CommandView {
            program: "xdg-open"@,
            args: seq![path@],
            working_dir: None,
            mode: RunMode::Spawn,
        }),
{
    match platform {
        Platform::Windows => {
            let mut c = bare_command("cmd", RunMode::Spawn);
            push_text_arg(&mut c, "/c");
            push_text_arg(&mut c, "start");
            push_text_arg(&mut c, "");
            push_arg(&mut c, start_argument_for(path));
            assert(c@.args =~= seq!["/c"@, "start"@, ""@, start_argument(path@)]);
            c
        },
        Platform::MacOs => {
            let mut c = bare_command("open", RunMode::Spawn);
            push_arg(&mut c, copy_text(path));
            assert(c@.args =~= seq![path@]);
            c
        },
        Platform::Other => {
            let mut c = bare_command("xdg-open", RunMode::Spawn);
            push_arg(&mut c, copy_text(path));
            assert(c@.args =~= seq![path@]);
            c
        },
    }
}

/// Showing a file selected in Explorer (Windows) or revealed in Finder
/// (macOS), without waiting; elsewhere nothing is started and the command
/// succeeds.
pub fn show_in_explorer(path: &String, platform: Platform) -> (c: Option<CommandSpec>)
    ensures
        platform == Platform::Windows ==> (c matches Some(cmd) && cmd@ == (CommandView {
            program: "explorer.exe"@,
            args: seq!["/select,"@, path@],
            working_dir: None,
            mode: RunMode::Spawn,
        })),
        platform == Platform::MacOs ==> (c matches Some(cmd) && cmd@ == (CommandView {
            program: "open"@,
            args: seq!["-R"@, path@],
            working_dir: None,
            mode: RunMode::Spawn,
        })),
        platform == Platform::Other ==> c is None,
{
    match platform {
        Platform::Windows => {
            let mut c = bare_command("explorer.exe", RunMode::Spawn);
            push_text_arg(&mut c, "/select,");
            push_arg(&mut c, copy_text(path));
            assert(c@.args =~= seq!["/select,"@, path@]);
            Some(c)
        },
        Platform::MacOs => {
            let mut c = bare_command("open", RunMode::Spawn);
            push_text_arg(&mut c, "-R");
            push_arg(&mut c, copy_text(path));
            assert(c@.args =~= seq!["-R"@, path@]);
            Some(c)
        },
        Platform::Other => None,
    }
}

} // verus!
