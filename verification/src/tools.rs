//! The built-in tools a model may call: their definitions, how they read
//! their arguments, and how their outcomes become tool results.
//!
//! Running a command or touching the file system is done by the caller;
//! these functions decide what the tool asks for and what it answers.
use vstd::prelude::*;
use crate::domain::{ToolCall, ToolDefinition, ToolResult};

verus! {

/// The string at `key` of a JSON object text; `None` when the text is not
/// JSON, not an object, has no such key, or its value is not a string.
pub uninterp spec fn json_string_field(text: Seq<char>, key: Seq<char>) -> Option<Seq<char>>;

/// Reads the string at `key` of a JSON text (`serde_json::from_str` to a
/// `Value`, then `Value::get` and `Value::as_str`); the result is named.
#[verifier::external_body]
pub(crate) fn argument(text: &str, key: &str) -> (r: Option<String>)
    ensures
        crate::domain::opt_str(r) == json_string_field(text@, key@),
{
    let v: serde_json::Value = serde_json::from_str(text).ok()?;
    v.get(key).and_then(|x| x.as_str()).map(|s| s.to_string())
}

/// A result for a call.
pub open spec fn is_result(r: ToolResult, call: ToolCall, output: Seq<char>, is_error: bool) -> bool {
    &&& r.call_id@ == call.id@
    &&& r.output@ == output
    &&& r.is_error == is_error
}

fn result(call: &ToolCall, output: String, is_error: bool) -> (r: ToolResult)
    ensures
        is_result(r, *call, output@, is_error),
{
    ToolResult { call_id: call.id.clone(), output, is_error }
}

/// The error for a missing argument: "Missing '<key>' argument".
pub fn missing_argument(call: &ToolCall, key: &str) -> (r: ToolResult)
    ensures
        is_result(r, *call, "Missing '"@ + key@ + "' argument"@, true),
{
    result(call, crate::text::join3("Missing '", key, "' argument"), true)
}

/// The error for a call to a tool nobody registered:
/// "Error: Tool '<name>' not found".
pub fn tool_not_found(call: &ToolCall) -> (r: ToolResult)
    ensures
        is_result(r, *call, "Error: Tool '"@ + call.name@ + "' not found"@, true),
{
    result(call, crate::text::join3("Error: Tool '", call.name.as_str(), "' not found"), true)
}

/// A failure with a message: `<prefix><message>`.
pub fn failure(call: &ToolCall, prefix: &str, message: &str) -> (r: ToolResult)
    ensures
        is_result(r, *call, prefix@ + message@, true),
{
    result(call, crate::text::join2(prefix, message), true)
}

/// How `Option<i32>` prints with `{:?}`: `None`, or `Some(<n>)` with the
/// number in decimal.
pub open spec fn debug_exit_code(code: Option<i32>) -> Seq<char> {
    match code {
        None => "None"@,
        Some(c) => "Some("@ + signed_decimal(c as int) + ")"@,
    }
}

/// A number in decimal, with a leading `-` when it is negative.
pub open spec fn signed_decimal(n: int) -> Seq<char> {
    if n < 0 {
        seq!['-'] + crate::tui::decimal((-n) as nat)
    } else {
        crate::tui::decimal(n as nat)
    }
}

/// Prints an exit code as `format!("{:?}", code)` does (`Some(1)`, `None`).
fn exit_code_text(code: Option<i32>) -> (r: String)
    ensures
        r@ == debug_exit_code(code),
{
    match code {
        None => crate::text::owned("None"),
        Some(c) => {
            let mut digits: Vec<char> = Vec::new();
            if c < 0 {
                digits.push('-');
                let magnitude: i64 = -(c as i64);
                crate::tui::push_decimal(&mut digits, magnitude as usize);
            } else {
                crate::tui::push_decimal(&mut digits, c as usize);
            }
            let d = crate::text::string_of(digits.as_slice());
            crate::text::join3("Some(", d.as_str(), ")")
        },
    }
}

/// The output of a finished command: on success its standard output,
/// followed by a newline and its standard error when there is any; on
/// failure "Command failed with exit code <code>", its standard output and
/// its standard error on three lines.
pub open spec fn shell_output(success: bool, code: Option<i32>, stdout: Seq<char>, stderr: Seq<char>) -> Seq<char> {
    if success {
        if stderr.len() == 0 {
            stdout
        } else {
            stdout + "\n"@ + stderr
        }
    } else {
        "Command failed with exit code "@ + debug_exit_code(code) + "\n"@ + stdout + "\n"@ + stderr
    }
}

/// Runs shell commands.
#[derive(Debug, Clone, Copy)]
pub struct ShellTool;

/// Reads files.
#[derive(Debug, Clone, Copy)]
pub struct ReadFileTool;

/// Writes files.
#[derive(Debug, Clone, Copy)]
pub struct WriteFileTool;

/// Lists directories.
#[derive(Debug, Clone, Copy)]
pub struct ListDirectoryTool;

fn definition(name: &str, description: &str, parameters: &str) -> (r: ToolDefinition)
    ensures
        r.name@ == name@,
        r.description@ == description@,
        r.parameters@ == parameters@,
{
    ToolDefinition {
        name: crate::text::owned(name),
        description: crate::text::owned(description),
        parameters: crate::text::owned(parameters),
    }
}

impl ShellTool {
    /// `shell`: execute a shell command given as the string `command`.
    pub fn definition(&self) -> (r: ToolDefinition)
        ensures
            r.name@ == "shell"@,
            r.description@ == "Execute a shell command and return the output"@,
            r.parameters@ == "{\"type\":\"object\",\"properties\":{\"command\":{\"type\":\"string\",\"description\":\"The shell command to execute\"}},\"required\":[\"command\"]}"@,
    {
        definition(
            "shell",
            "Execute a shell command and return the output",
            "{\"type\":\"object\",\"properties\":{\"command\":{\"type\":\"string\",\"description\":\"The shell command to execute\"}},\"required\":[\"command\"]}",
        )
    }

    /// The command to run, or the missing-argument error.
    pub fn command(&self, call: &ToolCall) -> (r: Result<String, ToolResult>)
        ensures
            match json_string_field(call.arguments@, "command"@) {
                Some(c) => r matches Ok(x) && x@ == c,
                None => r matches Err(e) && is_result(e, *call, "Missing '"@ + "command"@ + "' argument"@, true),
            },
    {
        match argument(call.arguments.as_str(), "command") {
            Some(c) => Ok(c),
            None => Err(missing_argument(call, "command")),
        }
    }

    /// The result of a finished command (see `shell_output`); an error when
    /// the command failed.
    pub fn finished(&self, call: &ToolCall, success: bool, code: Option<i32>, stdout: &str, stderr: &str) -> (r: ToolResult)
        ensures
            is_result(r, *call, shell_output(success, code, stdout@, stderr@), !success),
    {
        if success {
            if stderr.is_empty() {
                result(call, crate::text::owned(stdout), false)
            } else {
                result(call, crate::text::join3(stdout, "\n", stderr), false)
            }
        } else {
            let c = exit_code_text(code);
            let mut s = crate::text::join3("Command failed with exit code ", c.as_str(), "\n");
            s.append(stdout);
            s.append("\n");
            s.append(stderr);
            result(call, s, true)
        }
    }

    /// The command could not be started: "Failed to execute command: <error>".
    pub fn spawn_failed(&self, call: &ToolCall, error: &str) -> (r: ToolResult)
        ensures
            is_result(r, *call, "Failed to execute command: "@ + error@, true),
    {
        failure(call, "Failed to execute command: ", error)
    }

    /// The task running the command failed: "Task failed: <error>".
    pub fn task_failed(&self, call: &ToolCall, error: &str) -> (r: ToolResult)
        ensures
            is_result(r, *call, "Task failed: "@ + error@, true),
    {
        failure(call, "Task failed: ", error)
    }
}

impl ReadFileTool {
    /// `read_file`: read the file at the string `path`.
    pub fn definition(&self) -> (r: ToolDefinition)
        ensures
            r.name@ == "read_file"@,
            r.description@ == "Read the contents of a file"@,
            r.parameters@ == "{\"type\":\"object\",\"properties\":{\"path\":{\"type\":\"string\",\"description\":\"The path to the file to read\"}},\"required\":[\"path\"]}"@,
    {
        definition(
            "read_file",
            "Read the contents of a file",
            "{\"type\":\"object\",\"properties\":{\"path\":{\"type\":\"string\",\"description\":\"The path to the file to read\"}},\"required\":[\"path\"]}",
        )
    }

    /// The path to read, or the missing-argument error.
    pub fn path(&self, call: &ToolCall) -> (r: Result<String, ToolResult>)
        ensures
            match json_string_field(call.arguments@, "path"@) {
                Some(p) => r matches Ok(x) && x@ == p,
                None => r matches Err(e) && is_result(e, *call, "Missing '"@ + "path"@ + "' argument"@, true),
            },
    {
        match argument(call.arguments.as_str(), "path") {
            Some(p) => Ok(p),
            None => Err(missing_argument(call, "path")),
        }
    }

    /// The result of reading: the contents, or "Failed to read file: <error>".
    pub fn finished(&self, call: &ToolCall, outcome: Result<String, String>) -> (r: ToolResult)
        ensures
            match outcome {
                Ok(content) => is_result(r, *call, content@, false),
                Err(e) => is_result(r, *call, "Failed to read file: "@ + e@, true),
            },
    {
        match outcome {
            Ok(content) => result(call, content, false),
            Err(e) => failure(call, "Failed to read file: ", e.as_str()),
        }
    }
}

impl WriteFileTool {
    /// `write_file`: write the string `content` to the file at the string `path`.
    pub fn definition(&self) -> (r: ToolDefinition)
        ensures
            r.name@ == "write_file"@,
            r.description@ == "Write content to a file"@,
            r.parameters@ == "{\"type\":\"object\",\"properties\":{\"path\":{\"type\":\"string\",\"description\":\"The path to the file to write\"},\"content\":{\"type\":\"string\",\"description\":\"The content to write to the file\"}},\"required\":[\"path\",\"content\"]}"@,
    {
        definition(
            "write_file",
            "Write content to a file",
            "{\"type\":\"object\",\"properties\":{\"path\":{\"type\":\"string\",\"description\":\"The path to the file to write\"},\"content\":{\"type\":\"string\",\"description\":\"The content to write to the file\"}},\"required\":[\"path\",\"content\"]}",
        )
    }

    /// The path and content to write, or the error for the first missing one.
    pub fn target(&self, call: &ToolCall) -> (r: Result<(String, String), ToolResult>)
        ensures
            match json_string_field(call.arguments@, "path"@) {
                None => r matches Err(e) && is_result(e, *call, "Missing '"@ + "path"@ + "' argument"@, true),
                Some(p) => match json_string_field(call.arguments@, "content"@) {
                    None => r matches Err(e) && is_result(e, *call, "Missing '"@ + "content"@ + "' argument"@, true),
                    Some(c) => r matches Ok((x, y)) && x@ == p && y@ == c,
                },
            },
    {
        let path = match argument(call.arguments.as_str(), "path") {
            Some(p) => p,
            None => return Err(missing_argument(call, "path")),
        };
        match argument(call.arguments.as_str(), "content") {
            Some(c) => Ok((path, c)),
            None => Err(missing_argument(call, "content")),
        }
    }

    /// The result of writing: "Successfully wrote to <path>", or
    /// "Failed to write file: <error>".
    pub fn finished(&self, call: &ToolCall, path: &str, outcome: Result<(), String>) -> (r: ToolResult)
        ensures
            match outcome {
                Ok(_) => is_result(r, *call, "Successfully wrote to "@ + path@, false),
                Err(e) => is_result(r, *call, "Failed to write file: "@ + e@, true),
            },
    {
        match outcome {
            Ok(()) => result(call, crate::text::join2("Successfully wrote to ", path), false),
            Err(e) => failure(call, "Failed to write file: ", e.as_str()),
        }
    }
}

/// `a` comes before `b` in code-point (and so UTF-8 byte) order, as `String` sorts.
pub open spec fn text_lt(a: Seq<char>, b: Seq<char>) -> bool
    decreases a.len(),
{
    if a.len() == 0 {
        b.len() > 0
    } else if b.len() == 0 {
        false
    } else if a[0] != b[0] {
        a[0] < b[0]
    } else {
        text_lt(a.drop_first(), b.drop_first())
    }
}

/// `a` comes before `b` or equals it.
pub open spec fn text_le(a: Seq<char>, b: Seq<char>) -> bool {
    text_lt(a, b) || a == b
}

/// The texts are in order.
pub open spec fn sorted_texts(s: Seq<Seq<char>>) -> bool {
    forall|i: int, j: int| 0 <= i < j < s.len() ==> text_le(#[trigger] s[i], #[trigger] s[j])
}

proof fn lemma_text_lt_total(a: Seq<char>, b: Seq<char>)
    ensures
        a != b ==> text_lt(a, b) || text_lt(b, a),
        !(text_lt(a, b) && text_lt(b, a)),
        !text_lt(a, a),
    decreases a.len(),
{
    if a.len() > 0 && b.len() > 0 && a[0] == b[0] {
        lemma_text_lt_total(a.drop_first(), b.drop_first());
        if a != b {
            assert(a =~= seq![a[0]] + a.drop_first());
            assert(b =~= seq![b[0]] + b.drop_first());
        }
    } else if a.len() == 0 && b.len() == 0 {
        assert(a =~= b);
    }
    if a.len() > 0 {
        lemma_text_lt_total(a.drop_first(), a.drop_first());
    }
}

proof fn lemma_text_lt_trans(a: Seq<char>, b: Seq<char>, c: Seq<char>)
    requires
        text_lt(a, b),
        text_lt(b, c),
    ensures
        text_lt(a, c),
    decreases a.len(),
{
    if a.len() > 0 && b.len() > 0 && c.len() > 0 && a[0] == b[0] && b[0] == c[0] {
        lemma_text_lt_trans(a.drop_first(), b.drop_first(), c.drop_first());
    }
}

proof fn lemma_text_le_trans(a: Seq<char>, b: Seq<char>, c: Seq<char>)
    requires
        text_le(a, b),
        text_le(b, c),
    ensures
        text_le(a, c),
{
    if a != b && b != c {
        lemma_text_lt_trans(a, b, c);
    }
}

fn text_less(a: &Vec<char>, b: &Vec<char>) -> (r: bool)
    ensures
        r == text_lt(a@, b@),
{
    let mut i: usize = 0;
    assert(a@.skip(0) =~= a@);
    assert(b@.skip(0) =~= b@);
    while i < a.len() && i < b.len() && a[i] == b[i]
        invariant
            i <= a@.len(),
            i <= b@.len(),
            text_lt(a@.skip(i as int), b@.skip(i as int)) == text_lt(a@, b@),
        decreases a@.len() - i,
    {
        assert(a@.skip(i as int).drop_first() =~= a@.skip(i + 1));
        assert(b@.skip(i as int).drop_first() =~= b@.skip(i + 1));
        i = i + 1;
    }
    if i == a.len() {
        i < b.len()
    } else if i == b.len() {
        false
    } else {
        assert(a@.skip(i as int)[0] == a@[i as int]);
        assert(b@.skip(i as int)[0] == b@[i as int]);
        a[i] < b[i]
    }
}

/// The views of some strings.
pub open spec fn texts(s: Seq<String>) -> Seq<Seq<char>> {
    s.map_values(|x: String| x@)
}

/// Sorts names into code-point order (as `Vec<String>::sort` does).
fn sort_names(names: Vec<String>) -> (r: Vec<String>)
    ensures
        sorted_texts(texts(r@)),
        texts(r@).to_multiset() == texts(names@).to_multiset(),
{
    broadcast use vstd::seq_lib::group_to_multiset_ensures;

    let mut out: Vec<String> = Vec::new();
    let mut keys: Vec<Vec<char>> = Vec::new();
    let mut i: usize = 0;
    while i < names.len()
        invariant
            i <= names@.len(),
            out@.len() == keys@.len(),
            forall|k: int| 0 <= k < keys@.len() ==> (#[trigger] keys@[k])@ == out@[k]@,
            sorted_texts(texts(out@)),
            texts(out@).to_multiset() == texts(names@.take(i as int)).to_multiset(),
        decreases names@.len() - i,
    {
        let x = names[i].clone();
        let xk = crate::text::chars_of(x.as_str());
        let mut p: usize = 0;
        while p < keys.len() && !text_less(&xk, &keys[p])
            invariant
                p <= keys@.len(),
                out@.len() == keys@.len(),
                forall|k: int| 0 <= k < keys@.len() ==> (#[trigger] keys@[k])@ == out@[k]@,
                forall|k: int| 0 <= k < p ==> text_le(#[trigger] out@[k]@, x@),
                xk@ == x@,
            decreases keys@.len() - p,
        {
            proof {
                lemma_text_lt_total(xk@, keys@[p as int]@);
            }
            p = p + 1;
        }
        let ghost old_out = out@;
        proof {
            assert forall|k: int| p <= k < old_out.len() implies text_le(x@, #[trigger] old_out[k]@) by {
                assert(text_lt(x@, old_out[p as int]@));
                if k > p {
                    assert(text_le(texts(old_out)[p as int], texts(old_out)[k]));
                    lemma_text_le_trans(x@, old_out[p as int]@, old_out[k]@);
                }
            }
            assert(texts(names@.take(i + 1)) =~= texts(names@.take(i as int)).push(x@));
            vstd::seq_lib::to_multiset_insert(texts(old_out), p as int, x@);
            assert(texts(old_out.insert(p as int, x)) =~= texts(old_out).insert(p as int, x@));
        }
        out.insert(p, x);
        keys.insert(p, xk);
        proof {
            assert(texts(out@) == texts(old_out).insert(p as int, x@));
            assert(texts(out@).to_multiset() == texts(old_out).to_multiset().insert(x@));
            vstd::seq_lib::to_multiset_build(texts(names@.take(i as int)), x@);
            assert(texts(out@).to_multiset() == texts(names@.take(i + 1)).to_multiset());
            assert forall|a: int, b: int| 0 <= a < b < out@.len() implies text_le(
                #[trigger] texts(out@)[a],
                #[trigger] texts(out@)[b],
            ) by {
                if b < p {
                    assert(out@[a] == old_out[a] && out@[b] == old_out[b]);
                } else if a < p && b == p {
                } else if a < p && b > p {
                    assert(out@[b] == old_out[b - 1]);
                    lemma_text_le_trans(old_out[a]@, x@, old_out[b - 1]@);
                } else if a == p {
                    assert(out@[b] == old_out[b - 1]);
                } else {
                    assert(out@[a] == old_out[a - 1] && out@[b] == old_out[b - 1]);
                }
            }
        }
        i = i + 1;
    }
    assert(names@.take(names@.len() as int) =~= names@);
    out
}

fn join_with_newlines(names: &Vec<String>) -> (r: String)
    ensures
        r@ == join_lines(texts(names@)),
{
    let mut out = String::new();
    let mut i: usize = 0;
    while i < names.len()
        invariant
            i <= names@.len(),
            out@ == join_lines(texts(names@.take(i as int))),
        decreases names@.len() - i,
    {
        assert(texts(names@.take(i + 1)).drop_last() =~= texts(names@.take(i as int)));
        assert(texts(names@.take(i + 1)).last() == names@[i as int]@);
        if i > 0 {
            out.append("\n");
        } else {
            assert(texts(names@.take(1))[0] == names@[0]@);
        }
        out.append(names[i].as_str());
        i = i + 1;
    }
    assert(names@.take(names@.len() as int) =~= names@);
    out
}

/// The shown names of directory entries, a `/` after each directory.
pub open spec fn entry_names(entries: Seq<(String, bool)>) -> Seq<Seq<char>>
    decreases entries.len(),
{
    if entries.len() == 0 {
        Seq::empty()
    } else {
        let (n, d) = entries.last();
        entry_names(entries.drop_last()).push(if d { n@ + "/"@ } else { n@ })
    }
}

/// Texts one per line.
pub open spec fn join_lines(names: Seq<Seq<char>>) -> Seq<char>
    decreases names.len(),
{
    if names.len() == 0 {
        Seq::empty()
    } else if names.len() == 1 {
        names[0]
    } else {
        join_lines(names.drop_last()) + "\n"@ + names.last()
    }
}

impl ListDirectoryTool {
    /// `list_directory`: list the directory at the optional string `path`.
    pub fn definition(&self) -> (r: ToolDefinition)
        ensures
            r.name@ == "list_directory"@,
            r.description@ == "List the contents of a directory"@,
            r.parameters@ == "{\"type\":\"object\",\"properties\":{\"path\":{\"type\":\"string\",\"description\":\"The path to the directory to list (defaults to current directory)\"}},\"required\":[]}"@,
    {
        definition(
            "list_directory",
            "List the contents of a directory",
            "{\"type\":\"object\",\"properties\":{\"path\":{\"type\":\"string\",\"description\":\"The path to the directory to list (defaults to current directory)\"}},\"required\":[]}",
        )
    }

    /// The directory to list: the `path` argument, or "." without one.
    pub fn path(&self, call: &ToolCall) -> (r: String)
        ensures
            match json_string_field(call.arguments@, "path"@) {
                Some(p) => r@ == p,
                None => r@ == "."@,
            },
    {
        match argument(call.arguments.as_str(), "path") {
            Some(p) => p,
            None => crate::text::owned("."),
        }
    }

    /// The listing of some entries (name, whether it is a directory): the
    /// names, with a `/` after directories, sorted, one per line.
    pub fn listing(&self, call: &ToolCall, entries: &Vec<(String, bool)>) -> (r: ToolResult)
        ensures
            r.call_id@ == call.id@,
            !r.is_error,
            exists|names: Seq<Seq<char>>| {
                &&& #[trigger] sorted_texts(names)
                &&& names.to_multiset() == entry_names(entries@).to_multiset()
                &&& r.output@ == join_lines(names)
            },
    {
        let mut names: Vec<String> = Vec::new();
        let mut i: usize = 0;
        while i < entries.len()
            invariant
                i <= entries@.len(),
                texts(names@) == entry_names(entries@.take(i as int)),
            decreases entries@.len() - i,
        {
            assert(entries@.take(i + 1).drop_last() =~= entries@.take(i as int));
            assert(entries@.take(i + 1).last() == entries@[i as int]);
            let (name, is_dir) = &entries[i];
            let shown = if *is_dir {
                crate::text::join2(name.as_str(), "/")
            } else {
                name.clone()
            };
            let ghost before = texts(names@);
            names.push(shown);
            assert(texts(names@) =~= before.push(shown@));
            i = i + 1;
        }
        assert(entries@.take(entries@.len() as int) =~= entries@);
        let sorted = sort_names(names);
        let out = join_with_newlines(&sorted);
        assert(sorted_texts(texts(sorted@)));
        result(call, out, false)
    }

    /// The error for a directory that could not be read:
    /// "Failed to list directory: <error>".
    pub fn failed(&self, call: &ToolCall, error: &str) -> (r: ToolResult)
        ensures
            is_result(r, *call, "Failed to list directory: "@ + error@, true),
    {
        failure(call, "Failed to list directory: ", error)
    }
}

/// A definition's value: name, description and parameter schema.
pub type DefinitionView = (Seq<char>, Seq<char>, Seq<char>);

/// The value of a tool definition.
pub open spec fn definition_view(d: ToolDefinition) -> DefinitionView {
    (d.name@, d.description@, d.parameters@)
}

/// No two entries share a name.
pub open spec fn names_distinct<T>(s: Seq<(ToolDefinition, T)>) -> bool {
    forall|i: int, j: int|
        0 <= i < s.len() && 0 <= j < s.len() && i != j ==> #[trigger] s[i].0.name@ != #[trigger] s[j].0.name@
}

/// Some entry has this name.
pub open spec fn has_name<T>(s: Seq<(ToolDefinition, T)>, n: Seq<char>) -> bool {
    exists|i: int| 0 <= i < s.len() && #[trigger] s[i].0.name@ == n
}

/// The position of the entry with this name.
pub open spec fn name_index<T>(s: Seq<(ToolDefinition, T)>, n: Seq<char>) -> int {
    choose|i: int| 0 <= i < s.len() && #[trigger] s[i].0.name@ == n
}

/// The entries as a map from tool name to definition and executor.
pub open spec fn entries_map<T>(s: Seq<(ToolDefinition, T)>) -> Map<Seq<char>, (DefinitionView, T)> {
    Map::new(
        |n: Seq<char>| has_name(s, n),
        |n: Seq<char>| (definition_view(s[name_index(s, n)].0), s[name_index(s, n)].1),
    )
}

/// `defs` lists the definitions of `tools`: one per registered name, with
/// no name twice, each as it was registered.
pub open spec fn lists_definitions<T>(defs: Seq<ToolDefinition>, tools: Map<Seq<char>, (DefinitionView, T)>) -> bool {
    &&& forall|i: int, j: int|
        0 <= i < defs.len() && 0 <= j < defs.len() && i != j ==> #[trigger] defs[i].name@
            != #[trigger] defs[j].name@
    &&& forall|i: int|
        0 <= i < defs.len() ==> tools.dom().contains(#[trigger] defs[i].name@) && tools[defs[i].name@].0
            == definition_view(defs[i])
    &&& forall|n: Seq<char>|
        tools.dom().contains(n) ==> exists|i: int| 0 <= i < defs.len() && #[trigger] defs[i].name@ == n
}

/// The tools a model may call, each registered under its definition's name
/// with whatever runs it. Registering a tool under a name already taken
/// replaces the earlier one.
pub struct ToolRegistry<T> {
    entries: Vec<(ToolDefinition, T)>,
}

impl<T> View for ToolRegistry<T> {
    type V = Map<Seq<char>, (DefinitionView, T)>;

    closed spec fn view(&self) -> Map<Seq<char>, (DefinitionView, T)> {
        entries_map(self.entries@)
    }
}

proof fn lemma_entry_at<T>(s: Seq<(ToolDefinition, T)>, i: int)
    requires
        names_distinct(s),
        0 <= i < s.len(),
    ensures
        entries_map(s).dom().contains(s[i].0.name@),
        entries_map(s)[s[i].0.name@] == (definition_view(s[i].0), s[i].1),
{
    let n = s[i].0.name@;
    assert(has_name(s, n));
    let k = name_index(s, n);
    assert(s[k].0.name@ == n);
    assert(k == i);
}

impl<T> ToolRegistry<T> {
    #[verifier::type_invariant]
    spec fn distinct(&self) -> bool {
        names_distinct(self.entries@)
    }

    /// A registry with no tools.
    pub fn new() -> (r: Self)
        ensures
            r@ == Map::<Seq<char>, (DefinitionView, T)>::empty(),
    {
        let r = ToolRegistry { entries: Vec::new() };
        assert(r@ =~= Map::<Seq<char>, (DefinitionView, T)>::empty());
        r
    }

    fn find(&self, name: &str) -> (r: Option<usize>)
        ensures
            match r {
                Some(i) => i < self.entries@.len() && self.entries@[i as int].0.name@ == name@,
                None => !has_name(self.entries@, name@),
            },
    {
        let mut i: usize = 0;
        while i < self.entries.len()
            invariant
                i <= self.entries@.len(),
                forall|k: int| 0 <= k < i ==> #[trigger] self.entries@[k].0.name@ != name@,
            decreases self.entries@.len() - i,
        {
            if crate::text::str_eq(self.entries[i].0.name.as_str(), name) {
                return Some(i);
            }
            i = i + 1;
        }
        None
    }

    /// Registers a tool under its definition's name, replacing any tool
    /// registered under that name before.
    pub fn register(&mut self, definition: ToolDefinition, executor: T)
        ensures
            final(self)@ == old(self)@.insert(definition.name@, (definition_view(definition), executor)),
    {
        proof {
            use_type_invariant(&*self);
        }
        let ghost s0 = self.entries@;
        let ghost n = definition.name@;
        let ghost v = (definition_view(definition), executor);
        match self.find(definition.name.as_str()) {
            Some(i) => {
                let mut entries = Vec::new();
                std::mem::swap(&mut entries, &mut self.entries);
                entries.set(i, (definition, executor));
                let ghost s1 = entries@;
                assert(s1 == s0.update(i as int, s1[i as int]));
                assert(names_distinct(s1)) by {
                    assert forall|a: int, b: int|
                        0 <= a < s1.len() && 0 <= b < s1.len() && a != b implies #[trigger] s1[a].0.name@
                        != #[trigger] s1[b].0.name@ by {
                        if a != i && b != i {
                            assert(s0[a].0.name@ != s0[b].0.name@);
                        } else if a == i {
                            assert(s0[b].0.name@ != s0[i as int].0.name@);
                        } else {
                            assert(s0[a].0.name@ != s0[i as int].0.name@);
                        }
                    }
                }
                proof {
                    lemma_update_entry(s0, s1, i as int);
                }
                self.entries = entries;
            },
            None => {
                let mut entries = Vec::new();
                std::mem::swap(&mut entries, &mut self.entries);
                entries.push((definition, executor));
                let ghost s1 = entries@;
                assert(names_distinct(s1)) by {
                    assert forall|a: int, b: int|
                        0 <= a < s1.len() && 0 <= b < s1.len() && a != b implies #[trigger] s1[a].0.name@
                        != #[trigger] s1[b].0.name@ by {
                        if a < s0.len() && b < s0.len() {
                            assert(s0[a].0.name@ != s0[b].0.name@);
                        } else if a < s0.len() {
                            assert(s1[a] == s0[a]);
                        } else {
                            assert(s1[b] == s0[b]);
                        }
                    }
                }
                proof {
                    lemma_push_entry(s0, s1);
                }
                self.entries = entries;
            },
        }
    }

    /// What runs the call's tool, or, for a name nobody registered, the
    /// error result "Error: Tool '<name>' not found".
    pub fn route(&self, call: &ToolCall) -> (r: Result<&T, ToolResult>)
        ensures
            self@.dom().contains(call.name@) ==> (r matches Ok(t) && *t == self@[call.name@].1),
            !self@.dom().contains(call.name@) ==> (r matches Err(e) && is_result(
                e,
                *call,
                "Error: Tool '"@ + call.name@ + "' not found"@,
                true,
            )),
    {
        proof {
            use_type_invariant(self);
        }
        match self.find(call.name.as_str()) {
            Some(i) => {
                proof {
                    lemma_entry_at(self.entries@, i as int);
                }
                Ok(&self.entries[i].1)
            },
            None => Err(tool_not_found(call)),
        }
    }

    /// The definitions of the registered tools, in no promised order.
    pub fn definitions(&self) -> (r: Vec<ToolDefinition>)
        ensures
            lists_definitions(r@, self@),
    {
        proof {
            use_type_invariant(self);
        }
        let mut r: Vec<ToolDefinition> = Vec::new();
        let mut i: usize = 0;
        while i < self.entries.len()
            invariant
                i <= self.entries@.len(),
                names_distinct(self.entries@),
                r@.len() == i,
                forall|k: int| 0 <= k < i ==> #[trigger] r@[k] == self.entries@[k].0,
            decreases self.entries@.len() - i,
        {
            r.push(self.entries[i].0.clone());
            i = i + 1;
        }
        proof {
            let s = self.entries@;
            assert forall|a: int| 0 <= a < r@.len() implies self@.dom().contains(#[trigger] r@[a].name@) && self@[r@[a].name@].0 == definition_view(r@[a]) by {
                lemma_entry_at(s, a);
            }
            assert forall|n: Seq<char>| self@.dom().contains(n) implies exists|k: int| 0 <= k < r@.len() && #[trigger] r@[k].name@ == n by {
                let k = name_index(s, n);
                assert(r@[k].name@ == n);
            }
            assert forall|a: int, b: int| 0 <= a < r@.len() && 0 <= b < r@.len() && a != b implies #[trigger] r@[a].name@ != #[trigger] r@[b].name@ by {
                assert(s[a].0.name@ != s[b].0.name@);
            }
        }
        r
    }
}

proof fn lemma_update_entry<T>(s0: Seq<(ToolDefinition, T)>, s1: Seq<(ToolDefinition, T)>, i: int)
    requires
        names_distinct(s0),
        names_distinct(s1),
        0 <= i < s0.len(),
        s1.len() == s0.len(),
        forall|k: int| 0 <= k < s0.len() && k != i ==> s1[k] == s0[k],
        s1[i].0.name@ == s0[i].0.name@,
    ensures
        entries_map(s1) == entries_map(s0).insert(s1[i].0.name@, (definition_view(s1[i].0), s1[i].1)),
{
    let m0 = entries_map(s0);
    let m1 = entries_map(s1);
    let n = s1[i].0.name@;
    let target = m0.insert(n, (definition_view(s1[i].0), s1[i].1));
    assert forall|x: Seq<char>| m1.dom().contains(x) <==> target.dom().contains(x) by {
        if has_name(s1, x) {
            let k = choose|k: int| 0 <= k < s1.len() && #[trigger] s1[k].0.name@ == x;
            if k != i {
                assert(s0[k].0.name@ == x);
            }
        }
        if has_name(s0, x) {
            let k = choose|k: int| 0 <= k < s0.len() && #[trigger] s0[k].0.name@ == x;
            if k != i {
                assert(s1[k].0.name@ == x);
            } else {
                assert(s1[i].0.name@ == x);
            }
        }
        if x == n {
            assert(s1[i].0.name@ == x);
        }
    }
    assert forall|x: Seq<char>| m1.dom().contains(x) implies m1[x] == target[x] by {
        let k = choose|k: int| 0 <= k < s1.len() && #[trigger] s1[k].0.name@ == x;
        lemma_entry_at(s1, k);
        if k != i {
            lemma_entry_at(s0, k);
            assert(x != n);
        }
    }
    assert(m1 =~= target);
}

proof fn lemma_push_entry<T>(s0: Seq<(ToolDefinition, T)>, s1: Seq<(ToolDefinition, T)>)
    requires
        names_distinct(s0),
        names_distinct(s1),
        s1.len() == s0.len() + 1,
        forall|k: int| 0 <= k < s0.len() ==> s1[k] == s0[k],
        !has_name(s0, s1[s0.len() as int].0.name@),
    ensures
        entries_map(s1) == entries_map(s0).insert(
            s1[s0.len() as int].0.name@,
            (definition_view(s1[s0.len() as int].0), s1[s0.len() as int].1),
        ),
{
    let last = s0.len() as int;
    let m0 = entries_map(s0);
    let m1 = entries_map(s1);
    let n = s1[last].0.name@;
    let target = m0.insert(n, (definition_view(s1[last].0), s1[last].1));
    assert forall|x: Seq<char>| m1.dom().contains(x) <==> target.dom().contains(x) by {
        if has_name(s1, x) {
            let k = choose|k: int| 0 <= k < s1.len() && #[trigger] s1[k].0.name@ == x;
            if k != last {
                assert(s0[k].0.name@ == x);
            }
        }
        if has_name(s0, x) {
            let k = choose|k: int| 0 <= k < s0.len() && #[trigger] s0[k].0.name@ == x;
            assert(s1[k].0.name@ == x);
        }
        if x == n {
            assert(s1[last].0.name@ == x);
        }
    }
    assert forall|x: Seq<char>| m1.dom().contains(x) implies m1[x] == target[x] by {
        let k = choose|k: int| 0 <= k < s1.len() && #[trigger] s1[k].0.name@ == x;
        lemma_entry_at(s1, k);
        if k != last {
            lemma_entry_at(s0, k);
            assert(x != n);
        }
    }
    assert(m1 =~= target);
}

/// A tool a model may call: what it offers. Running it is left to the caller.
pub trait ToolExecutor {
    /// The tool's definition.
    fn definition(&self) -> ToolDefinition;
}

impl ToolExecutor for ShellTool {
    fn definition(&self) -> (r: ToolDefinition)
        ensures
            r.name@ == "shell"@,
    {
        ShellTool::definition(self)
    }
}

impl ToolExecutor for ReadFileTool {
    fn definition(&self) -> (r: ToolDefinition)
        ensures
            r.name@ == "read_file"@,
    {
        ReadFileTool::definition(self)
    }
}

impl ToolExecutor for WriteFileTool {
    fn definition(&self) -> (r: ToolDefinition)
        ensures
            r.name@ == "write_file"@,
    {
        WriteFileTool::definition(self)
    }
}

impl ToolExecutor for ListDirectoryTool {
    fn definition(&self) -> (r: ToolDefinition)
        ensures
            r.name@ == "list_directory"@,
    {
        ListDirectoryTool::definition(self)
    }
}

/// Law: once a tool is registered, calls by its name are routed to it, and
/// every other name is routed as before.
pub proof fn lemma_registered_tool_is_routed<T>(
    before: Map<Seq<char>, (DefinitionView, T)>,
    after: Map<Seq<char>, (DefinitionView, T)>,
    definition: ToolDefinition,
    executor: T,
    name: Seq<char>,
)
    requires
        after == before.insert(definition.name@, (definition_view(definition), executor)),
    ensures
        after.dom().contains(definition.name@),
        after[definition.name@] == (definition_view(definition), executor),
        name != definition.name@ ==> after.dom().contains(name) == before.dom().contains(name),
        name != definition.name@ && before.dom().contains(name) ==> after[name] == before[name],
{
}

/// Each registry view of `views` follows from the one before by registering
/// the tool of the same position, starting from the empty registry.
pub open spec fn is_registration_run<T>(
    views: Seq<Map<Seq<char>, (DefinitionView, T)>>,
    tools: Seq<(ToolDefinition, T)>,
) -> bool {
    &&& views.len() == tools.len() + 1
    &&& views[0] == Map::<Seq<char>, (DefinitionView, T)>::empty()
    &&& forall|i: int|
        0 <= i < tools.len() ==> #[trigger] views[i + 1] == views[i].insert(
            tools[i].0.name@,
            (definition_view(tools[i].0), tools[i].1),
        )
}

/// `d` is the definition registered last under its name.
pub open spec fn registered_last<T>(tools: Seq<(ToolDefinition, T)>, d: ToolDefinition) -> bool {
    exists|k: int|
        #[trigger] last_under_name(tools, k, tools.len() as int) && tools[k].0.name@ == d.name@
            && definition_view(tools[k].0) == definition_view(d)
}

/// Registration `k` is the last one under its name among the first `n`.
pub open spec fn last_under_name<T>(tools: Seq<(ToolDefinition, T)>, k: int, n: int) -> bool {
    &&& 0 <= k < n
    &&& forall|j: int| k < j < n ==> #[trigger] tools[j].0.name@ != tools[k].0.name@
}

proof fn lemma_registration_prefix<T>(
    views: Seq<Map<Seq<char>, (DefinitionView, T)>>,
    tools: Seq<(ToolDefinition, T)>,
    n: int,
)
    requires
        is_registration_run(views, tools),
        0 <= n <= tools.len(),
    ensures
        forall|x: Seq<char>|
            #[trigger] views[n].dom().contains(x) <==> exists|k: int| 0 <= k < n && #[trigger] tools[k].0.name@ == x,
        forall|k: int|
            #[trigger] last_under_name(tools, k, n) ==> views[n][tools[k].0.name@] == (
                definition_view(tools[k].0),
                tools[k].1,
            ),
    decreases n,
{
    if n > 0 {
        lemma_registration_prefix(views, tools, n - 1);
        let m = n - 1;
        assert(views[m + 1] == views[m].insert(tools[m].0.name@, (definition_view(tools[m].0), tools[m].1)));
        assert forall|x: Seq<char>|
            #[trigger] views[n].dom().contains(x) <==> exists|k: int| 0 <= k < n && #[trigger] tools[k].0.name@ == x by {
            if views[n].dom().contains(x) && x != tools[m].0.name@ {
                let k = choose|k: int| 0 <= k < m && #[trigger] tools[k].0.name@ == x;
                assert(0 <= k < n && tools[k].0.name@ == x);
            }
            if x == tools[m].0.name@ {
                assert(0 <= m < n && tools[m].0.name@ == x);
            }
            if exists|k: int| 0 <= k < n && #[trigger] tools[k].0.name@ == x {
                let k = choose|k: int| 0 <= k < n && #[trigger] tools[k].0.name@ == x;
                if k < m {
                    assert(views[m].dom().contains(x));
                }
            }
        }
        assert forall|k: int| #[trigger] last_under_name(tools, k, n) implies views[n][tools[k].0.name@] == (
            definition_view(tools[k].0),
            tools[k].1,
        ) by {
            if k < m {
                assert(tools[m].0.name@ != tools[k].0.name@);
                assert(last_under_name(tools, k, m));
            }
        }
    }
}

/// Law: after registering a run of tools into an empty registry, its
/// definitions hold exactly one definition per name registered, no name
/// twice, and for each name the definition registered last under it.
pub proof fn lemma_definitions_after_registrations<T>(
    views: Seq<Map<Seq<char>, (DefinitionView, T)>>,
    tools: Seq<(ToolDefinition, T)>,
    defs: Seq<ToolDefinition>,
)
    requires
        is_registration_run(views, tools),
        lists_definitions(defs, views.last()),
    ensures
        forall|i: int, j: int|
            0 <= i < defs.len() && 0 <= j < defs.len() && i != j ==> #[trigger] defs[i].name@
                != #[trigger] defs[j].name@,
        forall|i: int| 0 <= i < defs.len() ==> registered_last(tools, #[trigger] defs[i]),
        forall|k: int|
            #[trigger] last_under_name(tools, k, tools.len() as int) ==> exists|i: int|
                0 <= i < defs.len() && definition_view(#[trigger] defs[i]) == definition_view(tools[k].0),
{
    let n = tools.len() as int;
    lemma_registration_prefix(views, tools, n);
    assert(views.last() == views[n]);
    assert forall|i: int| 0 <= i < defs.len() implies registered_last(tools, #[trigger] defs[i]) by {
        let x = defs[i].name@;
        assert(views[n].dom().contains(x));
        let k0 = choose|k: int| 0 <= k < n && #[trigger] tools[k].0.name@ == x;
        let k = lemma_last_registration(tools, k0, n);
        assert(last_under_name(tools, k, n));
    }
    assert forall|k: int| #[trigger] last_under_name(tools, k, n) implies exists|i: int|
        0 <= i < defs.len() && definition_view(#[trigger] defs[i]) == definition_view(tools[k].0) by {
        let x = tools[k].0.name@;
        assert(views[n].dom().contains(x));
        let i = choose|i: int| 0 <= i < defs.len() && #[trigger] defs[i].name@ == x;
        assert(definition_view(defs[i]) == definition_view(tools[k].0));
    }
}

/// The last registration among the first `n` under the name of registration `k`.
proof fn lemma_last_registration<T>(tools: Seq<(ToolDefinition, T)>, k: int, n: int) -> (r: int)
    requires
        0 <= k < n <= tools.len(),
    ensures
        last_under_name(tools, r, n),
        tools[r].0.name@ == tools[k].0.name@,
    decreases n - k,
{
    if exists|j: int| k < j < n && #[trigger] tools[j].0.name@ == tools[k].0.name@ {
        let j = choose|j: int| k < j < n && #[trigger] tools[j].0.name@ == tools[k].0.name@;
        lemma_last_registration(tools, j, n)
    } else {
        k
    }
}

impl<T> Default for ToolRegistry<T> {
    fn default() -> (r: Self)
        ensures
            r@ == Map::<Seq<char>, (DefinitionView, T)>::empty(),
    {
        Self::new()
    }
}

} // verus!
