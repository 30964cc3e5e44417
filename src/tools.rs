//! The tool registry and the tool executor's decisions. The executor's
//! filesystem and shell effects are performed by the caller: `plan_tool` says
//! which effect a request asks for, and the `*_outcome` functions turn what the
//! effect returned into the text handed back to the model.
use vstd::prelude::*;
use vstd::string::StringExecFns;
use crate::text::{
    chars_of, contains, replace_first, replaces_first, truncate_chars, truncated,
};

verus! {

/// Number of characters of shell output kept in a tool result.
pub const OUTPUT_CAP: usize = 50000;

/// One advertised tool: its name, a description, and its parameters, all
/// string-typed and all required.
pub struct ToolSpec {
    pub name: String,
    pub description: String,
    pub params: Vec<String>,
}

/// String arguments of one tool invocation, as (name, value) pairs.
pub type Args = Vec<(String, String)>;

/// Abstract view of an argument list.
pub open spec fn args_view(a: Seq<(String, String)>) -> Seq<(Seq<char>, Seq<char>)> {
    a.map_values(|p: (String, String)| (p.0@, p.1@))
}

/// The value of the first argument named `key`.
pub open spec fn lookup(a: Seq<(Seq<char>, Seq<char>)>, key: Seq<char>) -> Option<Seq<char>>
    decreases a.len(),
{
    if a.len() == 0 {
        None
    } else if a[0].0 == key {
        Some(a[0].1)
    } else {
        lookup(a.drop_first(), key)
    }
}

/// The value of argument `key`, or `default` when it is absent.
pub open spec fn arg_or(a: Seq<(Seq<char>, Seq<char>)>, key: Seq<char>, default: Seq<char>) -> Seq<
    char,
> {
    match lookup(a, key) {
        Some(v) => v,
        None => default,
    }
}

/// A local effect that a tool request asks for, with its arguments resolved.
pub enum Effect {
    /// Read the file at `path` as text.
    ReadFile { path: String },
    /// Create or overwrite the file at `path` with `content`.
    WriteFile { path: String, content: String },
    /// Read the file at `path`, then replace the first `old` by `new` in it.
    EditFile { path: String, old: String, new: String },
    /// Run `command` through the system shell and capture its standard output.
    Shell { command: String },
    /// List the entries of the directory at `path`.
    ListDir { path: String },
    /// No effect: the result is `text`.
    Reply { text: String },
}

/// What `plan_tool` asks for, on views.
pub open spec fn effect_matches(e: Effect, name: Seq<char>, a: Seq<(Seq<char>, Seq<char>)>) -> bool {
    if name == "read_file"@ {
        e matches Effect::ReadFile { path } && path@ == arg_or(a, "path"@, "."@)
    } else if name == "write_file"@ {
        e matches Effect::WriteFile { path, content } && path@ == arg_or(a, "path"@, ""@)
            && content@ == arg_or(a, "content"@, ""@)
    } else if name == "edit_file"@ {
        e matches Effect::EditFile { path, old, new } && path@ == arg_or(a, "path"@, ""@)
            && old@ == arg_or(a, "old_string"@, ""@) && new@ == arg_or(a, "new_string"@, ""@)
    } else if name == "bash"@ {
        e matches Effect::Shell { command } && command@ == arg_or(a, "command"@, ""@)
    } else if name == "list_dir"@ {
        e matches Effect::ListDir { path } && path@ == arg_or(a, "path"@, "."@)
    } else {
        e matches Effect::Reply { text } && text@ == unknown_tool_text()
    }
}

/// The result of a request for a tool that the registry does not hold.
pub open spec fn unknown_tool_text() -> Seq<char> {
    "Unknown tool"@
}

/// The result of an edit whose `old_string` does not occur in the file.
pub open spec fn not_found_text() -> Seq<char> {
    "old_string not found"@
}

/// The not-found result of an edit is no error report, whatever the cause.
pub proof fn lemma_not_found_is_no_error(cause: Seq<char>)
    ensures
        not_found_text() != error_text(cause),
{
    reveal_strlit("old_string not found");
    reveal_strlit("Error: ");
    assert(not_found_text()[0] == 'o');
    assert(error_text(cause)[0] == 'E');
}

/// The result of a successful write.
pub open spec fn ok_text() -> Seq<char> {
    "OK"@
}

/// The result of a failed effect whose cause reads `cause`.
pub open spec fn error_text(cause: Seq<char>) -> Seq<char> {
    "Error: "@ + cause
}

/// Whether two strings hold the same characters.
pub fn same_text(a: &str, b: &str) -> (r: bool)
    ensures
        r == (a@ == b@),
{
    let x = chars_of(a);
    let y = chars_of(b);
    if x.len() != y.len() {
        return false;
    }
    let mut i: usize = 0;
    while i < x.len()
        invariant
            x@.len() == y@.len(),
            x@ == a@,
            y@ == b@,
            i <= x@.len(),
            forall|k: int| 0 <= k < i ==> x@[k] == y@[k],
        decreases x@.len() - i,
    {
        if x[i] != y[i] {
            assert(x@[i as int] != y@[i as int]);
            assert(a@[i as int] != b@[i as int]);
            return false;
        }
        i = i + 1;
    }
    assert(x@ =~= y@);
    true
}

/// The value of the first argument named `key`, if any.
pub fn find_arg(args: &Args, key: &str) -> (r: Option<String>)
    ensures
        match r {
            Some(v) => lookup(args_view(args@), key@) == Some(v@),
            None => lookup(args_view(args@), key@) is None,
        },
{
    let mut i: usize = 0;
    assert(args_view(args@).subrange(0, args@.len() as int) =~= args_view(args@));
    while i < args.len()
        invariant
            i <= args@.len(),
            lookup(args_view(args@), key@) == lookup(args_view(args@).subrange(i as int, args@.len() as int), key@),
        decreases args@.len() - i,
    {
        let ghost rest = args_view(args@).subrange(i as int, args@.len() as int);
        assert(rest.drop_first() =~= args_view(args@).subrange(i + 1, args@.len() as int));
        if same_text(args[i].0.as_str(), key) {
            return Some(args[i].1.clone());
        }
        i = i + 1;
    }
    None
}

/// The value of argument `key`, or `default` when it is absent.
pub fn arg_or_default(args: &Args, key: &str, default: &str) -> (r: String)
    ensures
        r@ == arg_or(args_view(args@), key@, default@),
{
    match find_arg(args, key) {
        Some(v) => v,
        None => default.to_owned(),
    }
}

/// Resolves a tool request into the effect it asks for. Absent arguments take
/// their defaults: `"."` for the path of `read_file` and `list_dir`, the empty
/// string otherwise. An unknown name asks for no effect.
pub fn plan_tool(name: &str, args: &Args) -> (e: Effect)
    ensures
        effect_matches(e, name@, args_view(args@)),
{
    if same_text(name, "read_file") {
        Effect::ReadFile { path: arg_or_default(args, "path", ".") }
    } else if same_text(name, "write_file") {
        Effect::WriteFile {
            path: arg_or_default(args, "path", ""),
            content: arg_or_default(args, "content", ""),
        }
    } else if same_text(name, "edit_file") {
        Effect::EditFile {
            path: arg_or_default(args, "path", ""),
            old: arg_or_default(args, "old_string", ""),
            new: arg_or_default(args, "new_string", ""),
        }
    } else if same_text(name, "bash") {
        Effect::Shell { command: arg_or_default(args, "command", "") }
    } else if same_text(name, "list_dir") {
        Effect::ListDir { path: arg_or_default(args, "path", ".") }
    } else {
        Effect::Reply { text: "Unknown tool".to_owned() }
    }
}

/// The text reporting a failure whose cause reads `cause`.
pub fn error_result(cause: &str) -> (r: String)
    ensures
        r@ == error_text(cause@),
{
    let mut r = "Error: ".to_owned();
    r.append(cause);
    r
}

/// The result of `read_file`: the file's text, or the error.
pub fn read_outcome(read: Result<String, String>) -> (r: String)
    ensures
        r@ == match read {
            Ok(s) => s@,
            Err(e) => error_text(e@),
        },
{
    match read {
        Ok(s) => s,
        Err(e) => error_result(e.as_str()),
    }
}

/// The result of `write_file`, and of the write that ends `edit_file`.
pub fn write_outcome(written: Result<(), String>) -> (r: String)
    ensures
        r@ == match written {
            Ok(_) => ok_text(),
            Err(e) => error_text(e@),
        },
{
    match written {
        Ok(_) => "OK".to_owned(),
        Err(e) => error_result(e.as_str()),
    }
}

/// What `edit_file` does once the file has been read.
pub enum EditStep {
    /// Write `content` back to the file; its outcome is the tool's result.
    Write { content: String },
    /// Leave the file alone; `text` is the tool's result.
    Reply { text: String },
}

/// Decides the second half of `edit_file` from the result of reading the file:
/// write back the text with the first `old` replaced by `new`, or report that
/// `old` was not found, or report the read error.
pub fn edit_step(read: Result<String, String>, old: &str, new: &str) -> (r: EditStep)
    ensures
        match read {
            Err(e) => r matches EditStep::Reply { text } && text@ == error_text(e@),
            Ok(c) => if contains(c@, old@) {
                r matches EditStep::Write { content } && replaces_first(c@, old@, new@, content@)
            } else {
                r matches EditStep::Reply { text } && text@ == not_found_text()
            },
        },
{
    match read {
        Err(e) => EditStep::Reply { text: error_result(e.as_str()) },
        Ok(c) => match replace_first(c.as_str(), old, new) {
            Some(content) => EditStep::Write { content },
            None => EditStep::Reply { text: "old_string not found".to_owned() },
        },
    }
}

/// The result of `bash`: the captured standard output cut to `OUTPUT_CAP`
/// characters, or the error that kept the command from running.
pub fn shell_outcome(run: Result<String, String>) -> (r: String)
    ensures
        r@ == match run {
            Ok(out) => truncated(out@, OUTPUT_CAP as nat),
            Err(e) => error_text(e@),
        },
        run is Ok ==> r@.len() <= OUTPUT_CAP,
        run matches Ok(out) && out@.len() >= OUTPUT_CAP ==> r@.len() == OUTPUT_CAP,
{
    match run {
        Ok(out) => truncate_chars(out.as_str(), OUTPUT_CAP),
        Err(e) => error_result(e.as_str()),
    }
}

/// One line of a directory listing: `d` or `-`, a space, the entry's name.
pub open spec fn entry_line(is_dir: bool, name: Seq<char>) -> Seq<char> {
    (if is_dir { "d"@ } else { "-"@ }) + " "@ + name
}

/// The listing of `entries`, one line each, in the order given.
pub open spec fn listing(entries: Seq<(bool, String)>) -> Seq<char>
    decreases entries.len(),
{
    if entries.len() == 0 {
        Seq::empty()
    } else if entries.len() == 1 {
        entry_line(entries[0].0, entries[0].1@)
    } else {
        listing(entries.drop_last()) + "\n"@ + entry_line(entries.last().0, entries.last().1@)
    }
}

/// The result of `list_dir`: one line per entry, or the error.
pub fn list_outcome(read: Result<Vec<(bool, String)>, String>) -> (r: String)
    ensures
        r@ == match read {
            Ok(entries) => listing(entries@),
            Err(e) => error_text(e@),
        },
{
    match read {
        Err(e) => error_result(e.as_str()),
        Ok(entries) => {
            let mut r = String::new();
            let mut i: usize = 0;
            while i < entries.len()
                invariant
                    i <= entries@.len(),
                    r@ == listing(entries@.subrange(0, i as int)),
                decreases entries@.len() - i,
            {
                let ghost before = entries@.subrange(0, i as int);
                assert(entries@.subrange(0, i + 1).drop_last() =~= before);
                if i > 0 {
                    r.append("\n");
                }
                let ghost prefix = r@;
                if entries[i].0 {
                    r.append("d");
                } else {
                    r.append("-");
                }
                r.append(" ");
                r.append(entries[i].1.as_str());
                let ghost line = entry_line(entries@[i as int].0, entries@[i as int].1@);
                if i == 0 {
                    assert(r@ =~= line);
                } else {
                    assert(r@ =~= prefix + line);
                }
                i = i + 1;
            }
            assert(entries@.subrange(0, entries@.len() as int) =~= entries@);
            r
        },
    }
}

/// The names of the advertised tools, in catalog order.
pub open spec fn tool_names() -> Seq<Seq<char>> {
    seq!["read_file"@, "write_file"@, "edit_file"@, "bash"@, "list_dir"@]
}

/// No two tools of the catalog share a name.
pub proof fn lemma_tool_names_unique()
    ensures
        forall|i: int, j: int|
            0 <= i < j < tool_names().len() ==> tool_names()[i] != tool_names()[j],
{
    reveal_strlit("read_file");
    reveal_strlit("write_file");
    reveal_strlit("edit_file");
    reveal_strlit("bash");
    reveal_strlit("list_dir");
    assert(tool_names()[0][0] == 'r');
    assert(tool_names()[1][0] == 'w');
    assert(tool_names()[2][0] == 'e');
    assert(tool_names()[3][0] == 'b');
    assert(tool_names()[4][0] == 'l');
}

/// The description advertised for the tool `name`.
pub open spec fn tool_description(name: Seq<char>) -> Seq<char> {
    if name == "read_file"@ {
        "Read file"@
    } else if name == "write_file"@ {
        "Write file"@
    } else if name == "edit_file"@ {
        "Edit file"@
    } else if name == "bash"@ {
        "Run command"@
    } else {
        "List directory"@
    }
}

/// The parameters of the tool `name`, in the order they are advertised.
pub open spec fn tool_params(name: Seq<char>) -> Seq<Seq<char>> {
    if name == "read_file"@ || name == "list_dir"@ {
        seq!["path"@]
    } else if name == "write_file"@ {
        seq!["path"@, "content"@]
    } else if name == "edit_file"@ {
        seq!["path"@, "old_string"@, "new_string"@]
    } else {
        seq!["command"@]
    }
}

/// Abstract view of a tool's parameter list.
pub open spec fn params_view(p: Seq<String>) -> Seq<Seq<char>> {
    p.map_values(|s: String| s@)
}

/// The catalog entry `spec` describes the tool `name`.
pub open spec fn describes(spec: ToolSpec, name: Seq<char>) -> bool {
    spec.name@ == name && spec.description@ == tool_description(name) && params_view(spec.params@)
        == tool_params(name)
}

fn entry(name: &str, description: &str, params: Vec<String>) -> (r: ToolSpec)
    ensures
        r.name@ == name@,
        r.description@ == description@,
        r.params@ == params@,
{
    ToolSpec { name: name.to_owned(), description: description.to_owned(), params }
}

/// The tool catalog advertised to the model with every request.
pub fn tool_catalog() -> (r: Vec<ToolSpec>)
    ensures
        r@.len() == tool_names().len(),
        forall|i: int| 0 <= i < r@.len() ==> describes(#[trigger] r@[i], tool_names()[i]),
{
    let mut r: Vec<ToolSpec> = Vec::new();
    r.push(entry("read_file", "Read file", vec!["path".to_owned()]));
    r.push(entry("write_file", "Write file", vec!["path".to_owned(), "content".to_owned()]));
    r.push(
        entry(
            "edit_file",
            "Edit file",
            vec!["path".to_owned(), "old_string".to_owned(), "new_string".to_owned()],
        ),
    );
    r.push(entry("bash", "Run command", vec!["command".to_owned()]));
    r.push(entry("list_dir", "List directory", vec!["path".to_owned()]));
    proof {
        lemma_tool_names_unique();
        assert(params_view(r@[0].params@) =~= tool_params(tool_names()[0]));
        assert(params_view(r@[1].params@) =~= tool_params(tool_names()[1]));
        assert(params_view(r@[2].params@) =~= tool_params(tool_names()[2]));
        assert(params_view(r@[3].params@) =~= tool_params(tool_names()[3]));
        assert(params_view(r@[4].params@) =~= tool_params(tool_names()[4]));
    }
    r
}

} // verus!
