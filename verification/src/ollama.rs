use vstd::prelude::*;

use crate::command::{
    bare_command, opt_text_view, owned, push_text_arg, texts_view, CommandSpec, CommandView, RunMode,
};

verus! {

/// A JSON document as the Ollama API returns it. Numbers keep their text;
/// an object keeps its members in order, each name at most once.
#[derive(Debug, PartialEq, Eq)]
pub enum JsonValue {
    Null,
    Bool(bool),
    Number(String),
    Str(String),
    Array(Vec<JsonValue>),
    Object(Vec<(String, JsonValue)>),
}

/// The value of the first member named `key`, if any.
pub open spec fn entry_lookup(entries: Seq<(String, JsonValue)>, key: Seq<char>) -> Option<
    JsonValue,
>
    decreases entries.len(),
{
    if entries.len() == 0 {
        None
    } else if entries[0].0@ == key {
        Some(entries[0].1)
    } else {
        entry_lookup(entries.drop_first(), key)
    }
}

/// The member `key` of an object; nothing for a missing member or for a
/// value that is not an object (where indexing by name gives `null`).
pub open spec fn json_member(v: JsonValue, key: Seq<char>) -> Option<JsonValue> {
    match v {
        JsonValue::Object(entries) => entry_lookup(entries@, key),
        _ => None,
    }
}

/// The text of a JSON string; nothing for anything else.
pub open spec fn json_text(v: Option<JsonValue>) -> Option<Seq<char>> {
    match v {
        Some(JsonValue::Str(s)) => Some(s@),
        _ => None,
    }
}

/// The name of one model entry: its `name` member, where that is a string.
pub open spec fn model_name(item: JsonValue) -> Option<Seq<char>> {
    json_text(json_member(item, "name"@))
}

/// The names of the model entries, in order, skipping entries without a
/// string name.
pub open spec fn model_names(items: Seq<JsonValue>) -> Seq<Seq<char>>
    decreases items.len(),
{
    if items.len() == 0 {
        Seq::<Seq<char>>::empty()
    } else {
        let rest = model_names(items.drop_last());
        match model_name(items.last()) {
            Some(n) => rest.push(n),
            None => rest,
        }
    }
}

/// The installed models a tags reply lists: the names in its `models`
/// array, none where that member is missing or not an array.
pub open spec fn listed_models(body: JsonValue) -> Seq<Seq<char>> {
    match json_member(body, "models"@) {
        Some(JsonValue::Array(items)) => model_names(items@),
        _ => Seq::<Seq<char>>::empty(),
    }
}

/// The version a tags reply reports: its `version` member where that is a
/// string, the empty text otherwise.
pub open spec fn reported_version(body: JsonValue) -> Seq<char> {
    match json_text(json_member(body, "version"@)) {
        Some(v) => v,
        None => Seq::<char>::empty(),
    }
}

/// An HTTP status that counts as success: 200 to 299.
pub open spec fn success_status(code: u16) -> bool {
    200 <= code < 300
}

/// Whether a local Ollama server answers, with the models it lists and
/// its version.
#[derive(Clone, Debug, PartialEq, Eq)]
pub struct OllamaStatus {
    pub running: bool,
    pub models: Vec<String>,
    pub version: String,
}

/// Where the local Ollama server lists its models.
pub fn ollama_tags_url() -> (u: String)
    ensures
        u@ == "http://localhost:11434/api/tags"@,
{
    owned("http://localhost:11434/api/tags")
}

/// How long, in seconds, the shell waits for the Ollama server.
pub fn ollama_timeout_secs() -> (s: u64)
    ensures
        s == 2,
{
    2
}

/// Whether an HTTP status counts as success (`StatusCode::is_success`).
pub fn is_success_status(code: u16) -> (b: bool)
    ensures
        b == success_status(code),
{
    200 <= code && code < 300
}

pub(crate) fn member<'a>(v: &'a JsonValue, key: &str) -> (r: Option<&'a JsonValue>)
    ensures
        match r {
            Some(x) => json_member(*v, key@) == Some(*x),
            None => json_member(*v, key@) is None,
        },
{
    match v {
        JsonValue::Object(entries) => {
            let k = owned(key);
            let n = entries.len();
            let mut i: usize = 0;
            assert(entries@.subrange(0, n as int) =~= entries@);
            while i < n
                invariant
                    n == entries@.len(),
                    i <= n,
                    k@ == key@,
                    json_member(*v, key@) == entry_lookup(entries@, key@),
                    entry_lookup(entries@, key@) == entry_lookup(entries@.subrange(i as int, n as int), key@),
                decreases n - i,
            {
                let ghost rest = entries@.subrange(i as int, n as int);
                assert(rest.drop_first() =~= entries@.subrange(i + 1, n as int));
                assert(rest[0] == entries@[i as int]);
                if entries[i].0 == k {
                    assert(entry_lookup(rest, key@) == Some(rest[0].1));
                    let found = &entries[i].1;
                    assert(*found == entries@[i as int].1);
                    return Some(found);
                }
                i = i + 1;
            }
            assert(entries@.subrange(n as int, n as int).len() == 0);
            None
        },
        _ => None,
    }
}

pub(crate) fn text_of<'a>(v: Option<&'a JsonValue>) -> (r: Option<&'a String>)
    ensures
        match v {
            Some(x) => match r {
                Some(s) => json_text(Some(*x)) == Some(s@),
                None => json_text(Some(*x)) is None,
            },
            None => r is None,
        },
{
    match v {
        Some(JsonValue::Str(s)) => Some(s),
        _ => None,
    }
}

fn names_of(items: &Vec<JsonValue>) -> (names: Vec<String>)
    ensures
        texts_view(names@) == model_names(items@),
{
    let mut names: Vec<String> = Vec::new();
    let n = items.len();
    let mut i: usize = 0;
    while i < n
        invariant
            n == items@.len(),
            i <= n,
            texts_view(names@) == model_names(items@.subrange(0, i as int)),
        decreases n - i,
    {
        let ghost before = names@;
        let ghost prefix = items@.subrange(0, i + 1);
        assert(prefix.drop_last() =~= items@.subrange(0, i as int));
        assert(prefix.last() == items@[i as int]);
        match text_of(member(&items[i], "name")) {
            Some(s) => {
                names.push(s.clone());
                assert(texts_view(names@) =~= texts_view(before).push(s@));
            },
            None => {},
        }
        i = i + 1;
    }
    assert(items@.subrange(0, n as int) =~= items@);
    names
}

/// The status of the local Ollama server from the reply to the tags
/// request: `status` is the HTTP status (`None` where no reply came) and
/// `body` the reply decoded as JSON (`None` where it was not read or not
/// valid JSON). A reply with a success status means the server runs; its
/// models and version come from the body where there is one.
pub fn check_ollama(status: Option<u16>, body: &Option<JsonValue>) -> (s: OllamaStatus)
    ensures
        s.running == (status matches Some(c) && success_status(c)),
        !s.running ==> texts_view(s.models@) == Seq::<Seq<char>>::empty() && s.version@
            == Seq::<char>::empty(),
        s.running && body is None ==> texts_view(s.models@) == Seq::<Seq<char>>::empty()
            && s.version@ == Seq::<char>::empty(),
        s.running ==> (*body matches Some(b) ==> texts_view(s.models@) == listed_models(b)
            && s.version@ == reported_version(b)),
{
    let running = match status {
        Some(c) => is_success_status(c),
        None => false,
    };
    let empty: Vec<String> = Vec::new();
    assert(texts_view(empty@) =~= Seq::<Seq<char>>::empty());
    if !running {
        return OllamaStatus { running: false, models: empty, version: String::new() };
    }
    match body {
        None => OllamaStatus { running: true, models: empty, version: String::new() },
        Some(b) => {
            let models = match member(b, "models") {
                Some(JsonValue::Array(items)) => names_of(items),
                _ => empty,
            };
            let version = match text_of(member(b, "version")) {
                Some(v) => v.clone(),
                None => String::new(),
            };
            OllamaStatus { running: true, models, version }
        },
    }
}

/// Where a per-user installation puts Ollama, below the user's local
/// application data folder.
pub open spec fn user_ollama_suffix() -> Seq<char> {
    "\\Programs\\Ollama\\ollama.exe"@
}

/// The places an Ollama program is looked for, in order: on the search
/// path, in the current user's installation (where the local application
/// data folder is known), under Program Files.
pub open spec fn ollama_candidates(local_app_data: Option<Seq<char>>) -> Seq<Seq<char>> {
    match local_app_data {
        Some(d) => seq![
            "ollama"@,
            d + user_ollama_suffix(),
            "C:\\Program Files\\Ollama\\ollama.exe"@,
        ],
        None => seq!["ollama"@, "C:\\Program Files\\Ollama\\ollama.exe"@],
    }
}

/// The reply where no candidate could be started.
pub open spec fn ollama_missing_reply() -> Seq<char> {
    "Ollama not found. Install from ollama.com"@
}

/// The next step of starting Ollama.
#[derive(Clone, Debug, PartialEq, Eq)]
pub enum LaunchStep {
    /// Start this command; report whether it could be started.
    Try(CommandSpec),
    /// A candidate was started: the command succeeds.
    Started,
    /// No candidate could be started: the command fails with this reply.
    NotFound(String),
}

fn candidates(local_app_data: &Option<String>) -> (v: Vec<String>)
    ensures
        v@.map_values(|c: String| c@) == ollama_candidates(opt_text_view(*local_app_data)),
{
    let mut v: Vec<String> = Vec::new();
    v.push(owned("ollama"));
    match local_app_data {
        Some(d) => {
            let mut p = d.clone();
            p.append("\\Programs\\Ollama\\ollama.exe");
            v.push(p);
        },
        None => {},
    }
    v.push(owned("C:\\Program Files\\Ollama\\ollama.exe"));
    assert(v@.map_values(|c: String| c@) =~= ollama_candidates(opt_text_view(*local_app_data)));
    v
}

/// Starting Ollama if it is installed but not running: where the server
/// already answers nothing is started; otherwise the candidates are tried
/// in order, each as `<candidate> serve` without waiting, until one can be
/// started. `local_app_data` is the current user's local application data
/// folder, where known; `spawned` holds whether each candidate tried so far
/// could be started.
pub fn start_ollama(running: bool, local_app_data: &Option<String>, spawned: &Vec<bool>) -> (step:
    LaunchStep)
    ensures
        running ==> step is Started,
        spawned@.contains(true) ==> step is Started,
        ({
            let cands = ollama_candidates(opt_text_view(*local_app_data));
            !running && !spawned@.contains(true) && spawned@.len() < cands.len() ==> (
            step matches LaunchStep::Try(c) && c@ == (CommandView {
                program: cands[spawned@.len() as int],
                args: seq!["serve"@],
                working_dir: None,
                mode: RunMode::Spawn,
            }))
        }),
        !running && !spawned@.contains(true) && spawned@.len() >= ollama_candidates(
            opt_text_view(*local_app_data),
        ).len() ==> (step matches LaunchStep::NotFound(m) && m@ == ollama_missing_reply()),
{
    if running {
        return LaunchStep::Started;
    }
    let n = spawned.len();
    let mut i: usize = 0;
    while i < n
        invariant
            n == spawned@.len(),
            i <= n,
            forall|k: int| 0 <= k < i ==> !spawned@[k],
        decreases n - i,
    {
        if spawned[i] {
            assert(spawned@.contains(true)) by {
                assert(spawned@[i as int] == true);
            }
            return LaunchStep::Started;
        }
        i = i + 1;
    }
    assert(!spawned@.contains(true));
    let cands = candidates(local_app_data);
    if n < cands.len() {
        let ghost views = cands@.map_values(|c: String| c@);
        assert(views[n as int] == cands@[n as int]@);
        let mut c = bare_command(cands[n].as_str(), RunMode::Spawn);
        push_text_arg(&mut c, "serve");
        assert(c@.args =~= seq!["serve"@]);
        LaunchStep::Try(c)
    } else {
        LaunchStep::NotFound(owned("Ollama not found. Install from ollama.com"))
    }
}

} // verus!
