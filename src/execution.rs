//! What an agent does for one dispatch: a workspace of its own, the files
//! written into it, the command run there by the host's shell, the output
//! sent back, and the workspace removed, in that order.
use vstd::prelude::*;

use crate::identity::{fresh_uuid_text, is_uuid_text};
use crate::text::copy_bytes;
use crate::types::{DispatchFile, DispatchMessage};

verus! {

pub open spec fn workspace_tag() -> Seq<char> {
    seq!['/', 'o', 'r', 'c', 'a', '-']
}

pub open spec fn default_dir_name() -> Seq<char> {
    seq!['/', 'o', 'r', 'c', 'a', '-', 'w', 'o', 'r', 'k', 's', 'p', 'a', 'c', 'e']
}

/// The workspace of the invocation `id` under `root`.
pub open spec fn workspace_path(root: Seq<char>, id: Seq<char>) -> Seq<char> {
    root + workspace_tag() + id
}

/// Where a file named `name` is written in the workspace `ws`.
pub open spec fn file_path(ws: Seq<char>, name: Seq<char>) -> Seq<char> {
    ws + seq!['/'] + name
}

/// The root of the workspaces: the configured directory, else `orca-workspace`
/// beside the executable.
pub fn workspace_root(configured: &Option<String>, exe_dir: &str) -> (r: String)
    ensures
        r@ == match configured {
            Some(d) => d@,
            None => exe_dir@ + default_dir_name(),
        },
{
    match configured {
        Some(d) => d.clone(),
        None => {
            let tail = "/orca-workspace";
            proof {
                reveal_strlit("/orca-workspace");
            }
            assert(tail@ =~= default_dir_name());
            String::from_str(exe_dir).concat(tail)
        },
    }
}

/// The workspace of the invocation `id` under `root`.
pub fn workspace_for(root: &str, id: &str) -> (r: String)
    ensures
        r@ == workspace_path(root@, id@),
{
    let tag = "/orca-";
    proof {
        reveal_strlit("/orca-");
    }
    assert(tag@ =~= workspace_tag());
    String::from_str(root).concat(tag).concat(id)
}

/// Where the file `name` is written in the workspace `ws`.
pub fn file_path_in(ws: &str, name: &str) -> (r: String)
    ensures
        r@ == file_path(ws@, name@),
{
    let sep = "/";
    proof {
        reveal_strlit("/");
    }
    assert(sep@ =~= seq!['/']);
    String::from_str(ws).concat(sep).concat(name)
}

/// Two invocations with different identifiers never share a workspace, nor a
/// file path, whatever the names of their files.
pub proof fn lemma_workspaces_isolated(root: Seq<char>, a: Seq<char>, b: Seq<char>, name_a: Seq<char>, name_b: Seq<char>)
    requires
        is_uuid_text(a),
        is_uuid_text(b),
        a != b,
    ensures
        workspace_path(root, a) != workspace_path(root, b),
        file_path(workspace_path(root, a), name_a) != file_path(workspace_path(root, b), name_b),
{
    assert(exists|i: int| 0 <= i < 36 && a[i] != b[i]) by {
        if forall|i: int| 0 <= i < 36 ==> a[i] == b[i] {
            assert(a =~= b);
        }
    }
    let i = choose|i: int| 0 <= i < 36 && a[i] != b[i];
    let k = root.len() + 6 + i;
    let wa = workspace_path(root, a);
    let wb = workspace_path(root, b);
    assert(wa[k] == a[i]);
    assert(wb[k] == b[i]);
    assert(file_path(wa, name_a)[k] == wa[k]);
    assert(file_path(wb, name_b)[k] == wb[k]);
}

/// How the host's shell is started on one command.
#[derive(Debug, Clone, PartialEq, Eq)]
pub struct ShellInvocation {
    pub program: String,
    pub args: Vec<String>,
}

pub open spec fn shell_is(s: ShellInvocation, program: Seq<char>, flag: Seq<char>, command: Seq<char>) -> bool {
    s.program@ == program && s.args@.len() == 2 && s.args@[0]@ == flag && s.args@[1]@ == command
}

/// `cmd /C <command>` on Windows hosts, `sh -c <command>` elsewhere.
pub open spec fn shell_spec(s: ShellInvocation, command: Seq<char>, windows: bool) -> bool {
    if windows {
        shell_is(s, seq!['c', 'm', 'd'], seq!['/', 'C'], command)
    } else {
        shell_is(s, seq!['s', 'h'], seq!['-', 'c'], command)
    }
}

/// `cmd /C <command>` on Windows hosts, `sh -c <command>` elsewhere.
pub fn shell_for(command: &str, windows: bool) -> (r: ShellInvocation)
    ensures
        shell_spec(r, command@, windows),
{
    let (program, flag) = if windows {
        ("cmd", "/C")
    } else {
        ("sh", "-c")
    };
    proof {
        reveal_strlit("cmd");
        reveal_strlit("/C");
        reveal_strlit("sh");
        reveal_strlit("-c");
    }
    assert(windows ==> program@ =~= seq!['c', 'm', 'd'] && flag@ =~= seq!['/', 'C']);
    assert(!windows ==> program@ =~= seq!['s', 'h'] && flag@ =~= seq!['-', 'c']);
    let mut args: Vec<String> = Vec::new();
    args.push(String::from_str(flag));
    args.push(String::from_str(command));
    ShellInvocation { program: String::from_str(program), args }
}

/// What is sent back: the command's standard output, then its standard error.
pub fn combined_output(stdout: &Vec<u8>, stderr: &Vec<u8>) -> (r: Vec<u8>)
    ensures
        r@ == stdout@ + stderr@,
{
    let mut r = copy_bytes(stdout);
    let mut i: usize = 0;
    while i < stderr.len()
        invariant
            i <= stderr@.len(),
            r@ == stdout@ + stderr@.subrange(0, i as int),
        decreases stderr@.len() - i,
    {
        r.push(stderr[i]);
        i = i + 1;
        assert(stderr@.subrange(0, i as int) == stderr@.subrange(0, i - 1).push(stderr@[i - 1]));
    }
    assert(stderr@.subrange(0, stderr@.len() as int) == stderr@);
    r
}

/// One step of handling a dispatch.
#[derive(Debug, Clone, PartialEq, Eq)]
pub enum AgentAction {
    /// Create the workspace directory.
    CreateDir(String),
    /// Write a file (path, content).
    WriteFile(String, Vec<u8>),
    /// Run the shell in a directory (the workspace) and keep its output.
    Run(String, ShellInvocation),
    /// Send the kept output back on the connection.
    Respond,
    /// Remove the workspace and all it holds.
    RemoveDir(String),
}

/// The steps of one dispatch in the workspace of invocation `id`: create the
/// workspace, write each file in order, run the command, respond, remove the workspace.
pub open spec fn is_dispatch_plan(r: Seq<AgentAction>, m: DispatchMessage, root: Seq<char>, id: Seq<char>, windows: bool) -> bool {
    let ws = workspace_path(root, id);
    let n = m.files@.len() as int;
    &&& r.len() == n + 4
    &&& r[0] is CreateDir && r[0]->CreateDir_0@ == ws
    &&& forall|i: int|
        0 <= i < n ==> {
            &&& #[trigger] r[i + 1] is WriteFile
            &&& r[i + 1]->WriteFile_0@ == file_path(ws, m.files@[i].name@)
            &&& r[i + 1]->WriteFile_1@ == m.files@[i].content@
        }
    &&& r[n + 1] is Run && r[n + 1]->Run_0@ == ws && shell_spec(r[n + 1]->Run_1, m.command@, windows)
    &&& r[n + 2] is Respond
    &&& r[n + 3] is RemoveDir && r[n + 3]->RemoveDir_0@ == ws
}

/// The steps of one dispatch, in the workspace of the invocation `id` under `root`.
pub fn dispatch_actions(message: &DispatchMessage, root: &str, id: &str, windows: bool) -> (r: Vec<AgentAction>)
    ensures
        is_dispatch_plan(r@, *message, root@, id@, windows),
{
    let ws = workspace_for(root, id);
    let mut r: Vec<AgentAction> = Vec::new();
    r.push(AgentAction::CreateDir(ws.clone()));
    let mut i: usize = 0;
    while i < message.files.len()
        invariant
            i <= message.files@.len(),
            ws@ == workspace_path(root@, id@),
            r@.len() == i + 1,
            r@[0] is CreateDir && r@[0]->CreateDir_0@ == ws@,
            forall|j: int|
                0 <= j < i ==> {
                    &&& #[trigger] r@[j + 1] is WriteFile
                    &&& r@[j + 1]->WriteFile_0@ == file_path(ws@, message.files@[j].name@)
                    &&& r@[j + 1]->WriteFile_1@ == message.files@[j].content@
                },
        decreases message.files@.len() - i,
    {
        let f: &DispatchFile = &message.files[i];
        let path = file_path_in(ws.as_str(), f.name.as_str());
        r.push(AgentAction::WriteFile(path, copy_bytes(&f.content)));
        i = i + 1;
    }
    r.push(AgentAction::Run(ws.clone(), shell_for(message.command.as_str(), windows)));
    r.push(AgentAction::Respond);
    r.push(AgentAction::RemoveDir(ws));
    r
}

/// The steps of one dispatch, in a workspace named after a freshly drawn
/// random identifier, so that concurrent dispatches never share one.
pub fn plan_dispatch(message: &DispatchMessage, root: &str, windows: bool) -> (r: Vec<AgentAction>)
    ensures
        exists|id: Seq<char>| is_uuid_text(id) && is_dispatch_plan(r@, *message, root@, id, windows),
{
    let id = fresh_uuid_text();
    dispatch_actions(message, root, id.as_str(), windows)
}

/// Whether handling goes on after a step: only a workspace that could not be
/// created stops it; a file that could not be written, or a command that
/// failed, does not keep the output from being sent nor the workspace from
/// being removed.
pub fn proceeds_after(action: &AgentAction, succeeded: bool) -> (r: bool)
    ensures
        r == (succeeded || !(action is CreateDir)),
{
    match action {
        AgentAction::CreateDir(_) => succeeded,
        _ => true,
    }
}

} // verus!
