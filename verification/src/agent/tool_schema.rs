//! The tools that a model can call, and how a call becomes a capability.
use vstd::prelude::*;
use vstd::string::*;

use crate::actions::{
    Capability, ClipboardOp, FileOp, NetworkQuery, ProcessOp, ProcessQuery, StorageOp, StorageQuery,
    SystemInfoKind, TerminalOp, VolumeOp, WindowOp, WindowQueryOp,
};
use crate::agent::tool_list::{
    a_schema_declares_what_it_is_made_of, capture_screen_tool, clipboard_op_tool,
    create_file_tool, create_folder_tool, declared_values, delete_file_tool, described,
    disk_usage_tool, kill_process_tool, largest_files_tool, launch_app_with_arg_tool,
    launch_or_focus_app_tool, list_folder_tool, move_or_rename_tool, network_query_tool, one_of,
    open_path_tool, process_query_tool, read_file_tool, required_fields,
    run_terminal_command_tool, search_files_tool, search_knowledge_base_tool, system_info_tool,
    text_array, tool_table, typed, volume_op_tool, window_op_tool, window_query_tool,
    write_file_tool,
};
use crate::json::{members_are_found_by_key, opt_view, Json, JsonNumberView, JsonView};
use crate::text::{same, starts_with};
use crate::working_state::{WorkingState, WorkingStateView};

verus! {

/// The message for a missing field.
pub open spec fn missing_field(field: Seq<char>) -> Seq<char> {
    "tool call missing required field \""@ + field + "\""@
}

/// A required text field of a call.
pub open spec fn required_str(input: JsonView, field: Seq<char>) -> Result<Seq<char>, Seq<char>> {
    match input.str_field(field) {
        Some(s) => Ok(s),
        None => Err(missing_field(field)),
    }
}

/// A path field of a call: the call's own value, else what the session is
/// working on.
pub open spec fn path_or_current(
    input: JsonView,
    field: Seq<char>,
    current: Option<Seq<char>>,
    label: Seq<char>,
) -> Result<Seq<char>, Seq<char>> {
    match input.str_field(field) {
        Some(s) => Ok(s),
        None => match current {
            Some(s) => Ok(s),
            None => Err(
                missing_field(field) + " and there's no current "@ + label + " to fall back to"@,
            ),
        },
    }
}

/// The message for a value outside a closed list.
pub open spec fn unknown_value(what: Seq<char>, value: Seq<char>) -> Seq<char> {
    "unknown "@ + what + " \""@ + value + "\""@
}

/// The result of a call, over views.
pub type CallView = Result<Capability<Seq<char>>, Seq<char>>;

/// A call that needs one text field.
pub open spec fn with_str(
    input: JsonView,
    field: Seq<char>,
    make: spec_fn(Seq<char>) -> Capability<Seq<char>>,
) -> CallView {
    match required_str(input, field) {
        Ok(s) => Ok(make(s)),
        Err(e) => Err(e),
    }
}

/// A call that needs one path field, with what the session is working on as
/// its fallback.
pub open spec fn with_path(
    input: JsonView,
    field: Seq<char>,
    current: Option<Seq<char>>,
    label: Seq<char>,
    make: spec_fn(Seq<char>) -> Capability<Seq<char>>,
) -> CallView {
    match path_or_current(input, field, current, label) {
        Ok(s) => Ok(make(s)),
        Err(e) => Err(e),
    }
}

/// The application and the path to open with it.
pub open spec fn launch_with_arg(input: JsonView, context: WorkingStateView) -> CallView {
    match required_str(input, "app"@) {
        Err(e) => Err(e),
        Ok(app) => match path_or_current(input, "arg"@, context.current_folder, "folder"@) {
            Ok(arg) => Ok(Capability::LaunchAppWithArg { app, arg }),
            Err(_) => Err(missing_field("arg"@)),
        },
    }
}

/// The query on the open windows.
pub open spec fn window_query(input: JsonView) -> CallView {
    match required_str(input, "kind"@) {
        Err(e) => Err(e),
        Ok(kind) => if kind == "list_open"@ {
            Ok(Capability::WindowQuery(WindowQueryOp::ListOpen))
        } else if kind == "get_active"@ {
            Ok(Capability::WindowQuery(WindowQueryOp::GetActive))
        } else {
            Err(unknown_value("window_query.kind"@, kind))
        },
    }
}

/// The change to a window.
pub open spec fn window_change(input: JsonView) -> CallView {
    match required_str(input, "op"@) {
        Err(e) => Err(e),
        Ok(op) => {
            let target = input.str_field("target"@);
            if op == "minimize"@ {
                Ok(Capability::WindowOp { op: WindowOp::Minimize, target })
            } else if op == "maximize"@ {
                Ok(Capability::WindowOp { op: WindowOp::Maximize, target })
            } else if op == "close"@ {
                Ok(Capability::WindowOp { op: WindowOp::Close, target })
            } else if op == "focus"@ {
                Ok(Capability::WindowOp { op: WindowOp::Focus, target })
            } else {
                Err(unknown_value("window_op.op"@, op))
            }
        },
    }
}

/// The system value to read.
pub open spec fn system_value(input: JsonView) -> CallView {
    match required_str(input, "kind"@) {
        Err(e) => Err(e),
        Ok(kind) => if kind == "time"@ {
            Ok(Capability::SystemInfo(SystemInfoKind::Time))
        } else if kind == "battery"@ {
            Ok(Capability::SystemInfo(SystemInfoKind::Battery))
        } else if kind == "cpu"@ {
            Ok(Capability::SystemInfo(SystemInfoKind::Cpu))
        } else if kind == "memory"@ {
            Ok(Capability::SystemInfo(SystemInfoKind::Memory))
        } else if kind == "volume"@ {
            Ok(Capability::SystemInfo(SystemInfoKind::Volume))
        } else if kind == "disk_space"@ {
            Ok(Capability::SystemInfo(SystemInfoKind::DiskSpace))
        } else if kind == "uptime"@ {
            Ok(Capability::SystemInfo(SystemInfoKind::Uptime))
        } else {
            Err(unknown_value("system_info.kind"@, kind))
        },
    }
}

/// The query on the running processes.
pub open spec fn process_lookup(input: JsonView) -> CallView {
    match required_str(input, "kind"@) {
        Err(e) => Err(e),
        Ok(kind) => if kind == "list"@ {
            Ok(Capability::ProcessQuery(ProcessQuery::List))
        } else if kind == "find_by_name"@ {
            with_str(
                input,
                "name"@,
                |n: Seq<char>| Capability::ProcessQuery(ProcessQuery::FindByName(n)),
            )
        } else {
            Err(unknown_value("process_query.kind"@, kind))
        },
    }
}

/// The lower 32 bits of a number.
pub open spec fn low_u32(n: u64) -> u32 {
    (n % 0x1_0000_0000) as u32
}

/// A number, or 100 where it is greater.
pub open spec fn at_most_100(n: u64) -> u8 {
    if n < 100 {
        n as u8
    } else {
        100
    }
}

/// The process to end, by number or by name.
pub open spec fn process_end(input: JsonView) -> CallView {
    let pid = match input.u64_field("pid"@) {
        Some(n) => Some(low_u32(n)),
        None => None,
    };
    let name = input.str_field("name"@);
    if pid is None && name is None {
        Err("kill_process needs either a pid or a name"@)
    } else {
        Ok(Capability::ProcessOp(ProcessOp::Kill { pid, name }))
    }
}

/// The query on the network.
pub open spec fn network_lookup(input: JsonView) -> CallView {
    match required_str(input, "kind"@) {
        Err(e) => Err(e),
        Ok(kind) => if kind == "status"@ {
            Ok(Capability::NetworkQuery(NetworkQuery::Status))
        } else if kind == "ping"@ {
            with_str(
                input,
                "host"@,
                |h: Seq<char>| Capability::NetworkQuery(NetworkQuery::PingHost { host: h }),
            )
        } else if kind == "listening_ports"@ {
            Ok(Capability::NetworkQuery(NetworkQuery::ListeningPorts))
        } else {
            Err(unknown_value("network_query.kind"@, kind))
        },
    }
}

/// The change of the volume.
pub open spec fn volume_change(input: JsonView) -> CallView {
    match required_str(input, "op"@) {
        Err(e) => Err(e),
        Ok(op) => if op == "up"@ {
            Ok(Capability::VolumeOp(VolumeOp::Up(None)))
        } else if op == "down"@ {
            Ok(Capability::VolumeOp(VolumeOp::Down(None)))
        } else if op == "mute"@ {
            Ok(Capability::VolumeOp(VolumeOp::Mute))
        } else if op == "unmute"@ {
            Ok(Capability::VolumeOp(VolumeOp::Unmute))
        } else if op == "set"@ {
            match input.u64_field("percent"@) {
                Some(n) => Ok(Capability::VolumeOp(VolumeOp::SetPercent(at_most_100(n)))),
                None => Err("volume_op op \"set\" requires \"percent\""@),
            }
        } else {
            Err(unknown_value("volume_op.op"@, op))
        },
    }
}

/// Reading or writing the clipboard.
pub open spec fn clipboard_call(input: JsonView) -> CallView {
    match required_str(input, "op"@) {
        Err(e) => Err(e),
        Ok(op) => if op == "read"@ {
            Ok(Capability::Clipboard(ClipboardOp::Read))
        } else if op == "write"@ {
            with_str(input, "text"@, |t: Seq<char>| Capability::Clipboard(ClipboardOp::Write(t)))
        } else {
            Err(unknown_value("clipboard_op.op"@, op))
        },
    }
}

/// Writing to a file.
pub open spec fn file_write(input: JsonView, context: WorkingStateView) -> CallView {
    match path_or_current(input, "path"@, context.current_file, "file"@) {
        Err(e) => Err(e),
        Ok(path) => match required_str(input, "content"@) {
            Err(e) => Err(e),
            Ok(content) => {
                let append = match input.get("append"@) {
                    Some(v) => v.as_bool() == Some(true),
                    None => false,
                };
                Ok(Capability::FileOp(FileOp::WriteFile { path, content, append }))
            },
        },
    }
}

/// Searching a folder tree by name.
pub open spec fn file_search(input: JsonView) -> CallView {
    match required_str(input, "root"@) {
        Err(e) => Err(e),
        Ok(root) => match required_str(input, "query"@) {
            Err(e) => Err(e),
            Ok(query) => {
                let max_results = match input.u64_field("max_results"@) {
                    Some(n) => Some(low_u32(n)),
                    None => None,
                };
                Ok(
                    Capability::StorageQuery(
                        StorageQuery::SearchFiles { root, query, max_results },
                    ),
                )
            },
        },
    }
}

/// The largest files of a folder tree; ten of them where no number is given.
pub open spec fn largest_in(input: JsonView) -> CallView {
    match required_str(input, "root"@) {
        Err(e) => Err(e),
        Ok(root) => {
            let top_n = match input.u64_field("top_n"@) {
                Some(n) => at_most_100(n),
                None => 10,
            };
            Ok(Capability::StorageQuery(StorageQuery::LargestFiles { root, top_n }))
        },
    }
}

/// Moving or renaming.
pub open spec fn move_call(input: JsonView, context: WorkingStateView) -> CallView {
    match path_or_current(input, "from"@, context.current_file, "file"@) {
        Err(e) => Err(e),
        Ok(from) => with_str(
            input,
            "to"@,
            |to: Seq<char>| Capability::StorageOp(StorageOp::MoveOrRename { from, to }),
        ),
    }
}

/// A command for the terminal, in the given folder or the current one.
pub open spec fn terminal_call(input: JsonView, context: WorkingStateView) -> CallView {
    let given = input.str_field("working_dir"@);
    let working_dir = if given is Some {
        given
    } else {
        context.current_folder
    };
    with_str(
        input,
        "command"@,
        |command: Seq<char>|
            Capability::TerminalOp(TerminalOp::RunCommand { command, working_dir }),
    )
}

/// The message for a name that is no tool's.
pub open spec fn unknown_tool(name: Seq<char>) -> Seq<char> {
    "unknown tool \""@ + name + "\""@
}

/// What a call asks for.
pub open spec fn tool_call(name: Seq<char>, input: JsonView, context: WorkingStateView) -> CallView {
    if name == "launch_or_focus_app"@ {
        with_str(input, "name"@, |n: Seq<char>| Capability::LaunchOrFocusApp(n))
    } else if name == "launch_app_with_arg"@ {
        launch_with_arg(input, context)
    } else if name == "open_path"@ {
        with_str(input, "target"@, |t: Seq<char>| Capability::OpenPath(t))
    } else if name == "window_query"@ {
        window_query(input)
    } else if name == "window_op"@ {
        window_change(input)
    } else if name == "system_info"@ {
        system_value(input)
    } else if name == "process_query"@ {
        process_lookup(input)
    } else if name == "kill_process"@ {
        process_end(input)
    } else if name == "network_query"@ {
        network_lookup(input)
    } else if name == "volume_op"@ {
        volume_change(input)
    } else if name == "clipboard_op"@ {
        clipboard_call(input)
    } else if name == "capture_screen"@ {
        Ok(Capability::CaptureScreen)
    } else if name == "search_knowledge_base"@ {
        with_str(input, "query"@, |q: Seq<char>| Capability::SearchKnowledgeBase(q))
    } else if name == "create_folder"@ {
        with_str(
            input,
            "path"@,
            |path: Seq<char>| Capability::FileOp(FileOp::CreateFolder { path }),
        )
    } else if name == "create_file"@ {
        with_str(
            input,
            "path"@,
            |path: Seq<char>|
                Capability::FileOp(
                    FileOp::CreateFile { path, content: input.str_field("content"@) },
                ),
        )
    } else if name == "write_file"@ {
        file_write(input, context)
    } else if name == "read_file"@ {
        with_path(
            input,
            "path"@,
            context.current_file,
            "file"@,
            |path: Seq<char>| Capability::FileOp(FileOp::ReadFile { path }),
        )
    } else if name == "list_folder"@ {
        with_path(
            input,
            "path"@,
            context.current_folder,
            "folder"@,
            |path: Seq<char>| Capability::StorageQuery(StorageQuery::ListFolder { path }),
        )
    } else if name == "search_files"@ {
        file_search(input)
    } else if name == "largest_files"@ {
        largest_in(input)
    } else if name == "disk_usage"@ {
        Ok(
            Capability::StorageQuery(StorageQuery::DiskUsage { drive: input.str_field("drive"@) }),
        )
    } else if name == "delete_file"@ {
        with_path(
            input,
            "path"@,
            context.current_file,
            "file"@,
            |path: Seq<char>| Capability::StorageOp(StorageOp::DeleteFile { path }),
        )
    } else if name == "move_or_rename"@ {
        move_call(input, context)
    } else if name == "run_terminal_command"@ {
        terminal_call(input, context)
    } else {
        Err(unknown_tool(name))
    }
}

/// The view of the result of a call.
pub open spec fn call_view(r: Result<Capability<String>, String>) -> CallView {
    match r {
        Ok(c) => Ok(c@),
        Err(e) => Err(e@),
    }
}

/// The view of a text or an error.
pub open spec fn text_result(r: Result<String, String>) -> Result<Seq<char>, Seq<char>> {
    match r {
        Ok(s) => Ok(s@),
        Err(e) => Err(e@),
    }
}

fn missing_text(field: &str) -> (r: String)
    ensures
        r@ == missing_field(field@),
{
    let mut e: String = "tool call missing required field \"".to_owned();
    e.append(field);
    e.append("\"");
    e
}

fn get_str(input: &Json, field: &str) -> (r: Result<String, String>)
    ensures
        text_result(r) == required_str(input@, field@),
{
    match input.str_field(field) {
        Some(s) => Ok(s),
        None => Err(missing_text(field)),
    }
}

/// A path field: the call's own value, else `current`.
fn resolve_path_field(input: &Json, field: &str, current: &Option<String>, label: &str) -> (r: Result<
    String,
    String,
>)
    ensures
        text_result(r) == path_or_current(input@, field@, opt_view(*current), label@),
{
    match input.str_field(field) {
        Some(s) => Ok(s),
        None => match current {
            Some(s) => Ok(s.clone()),
            None => {
                let mut e: String = missing_text(field);
                e.append(" and there's no current ");
                e.append(label);
                e.append(" to fall back to");
                Err(e)
            },
        },
    }
}

fn unknown_text(what: &str, value: &str) -> (r: String)
    ensures
        r@ == unknown_value(what@, value@),
{
    let mut e: String = "unknown ".to_owned();
    e.append(what);
    e.append(" \"");
    e.append(value);
    e.append("\"");
    e
}

fn parse_launch_with_arg(input: &Json, context: &WorkingState) -> (r: Result<
    Capability<String>,
    String,
>)
    ensures
        call_view(r) == launch_with_arg(input@, context@),
{
    match get_str(input, "app") {
        Err(e) => Err(e),
        Ok(app) => match resolve_path_field(input, "arg", &context.current_folder, "folder") {
            Ok(arg) => Ok(Capability::LaunchAppWithArg { app, arg }),
            Err(_) => Err(missing_text("arg")),
        },
    }
}

fn parse_window_query(input: &Json) -> (r: Result<Capability<String>, String>)
    ensures
        call_view(r) == window_query(input@),
{
    match get_str(input, "kind") {
        Err(e) => Err(e),
        Ok(kind) => if same(kind.as_str(), "list_open") {
            Ok(Capability::WindowQuery(WindowQueryOp::ListOpen))
        } else if same(kind.as_str(), "get_active") {
            Ok(Capability::WindowQuery(WindowQueryOp::GetActive))
        } else {
            Err(unknown_text("window_query.kind", kind.as_str()))
        },
    }
}

fn parse_window_op(input: &Json) -> (r: Result<Capability<String>, String>)
    ensures
        call_view(r) == window_change(input@),
{
    match get_str(input, "op") {
        Err(e) => Err(e),
        Ok(name) => {
            let op: WindowOp = if same(name.as_str(), "minimize") {
                WindowOp::Minimize
            } else if same(name.as_str(), "maximize") {
                WindowOp::Maximize
            } else if same(name.as_str(), "close") {
                WindowOp::Close
            } else if same(name.as_str(), "focus") {
                WindowOp::Focus
            } else {
                return Err(unknown_text("window_op.op", name.as_str()));
            };
            Ok(Capability::WindowOp { op, target: input.str_field("target") })
        },
    }
}

fn parse_system_info(input: &Json) -> (r: Result<Capability<String>, String>)
    ensures
        call_view(r) == system_value(input@),
{
    match get_str(input, "kind") {
        Err(e) => Err(e),
        Ok(kind) => {
            let info: SystemInfoKind = if same(kind.as_str(), "time") {
                SystemInfoKind::Time
            } else if same(kind.as_str(), "battery") {
                SystemInfoKind::Battery
            } else if same(kind.as_str(), "cpu") {
                SystemInfoKind::Cpu
            } else if same(kind.as_str(), "memory") {
                SystemInfoKind::Memory
            } else if same(kind.as_str(), "volume") {
                SystemInfoKind::Volume
            } else if same(kind.as_str(), "disk_space") {
                SystemInfoKind::DiskSpace
            } else if same(kind.as_str(), "uptime") {
                SystemInfoKind::Uptime
            } else {
                return Err(unknown_text("system_info.kind", kind.as_str()));
            };
            Ok(Capability::SystemInfo(info))
        },
    }
}

fn parse_process_query(input: &Json) -> (r: Result<Capability<String>, String>)
    ensures
        call_view(r) == process_lookup(input@),
{
    match get_str(input, "kind") {
        Err(e) => Err(e),
        Ok(kind) => if same(kind.as_str(), "list") {
            Ok(Capability::ProcessQuery(ProcessQuery::List))
        } else if same(kind.as_str(), "find_by_name") {
            match get_str(input, "name") {
                Ok(n) => Ok(Capability::ProcessQuery(ProcessQuery::FindByName(n))),
                Err(e) => Err(e),
            }
        } else {
            Err(unknown_text("process_query.kind", kind.as_str()))
        },
    }
}

fn truncate_u32(n: u64) -> (r: u32)
    ensures
        r == low_u32(n),
{
    let low: u64 = n % 0x1_0000_0000;
    low as u32
}

fn cap_100(n: u64) -> (r: u8)
    ensures
        r == at_most_100(n),
{
    if n < 100 {
        n as u8
    } else {
        100
    }
}

fn parse_kill_process(input: &Json) -> (r: Result<Capability<String>, String>)
    ensures
        call_view(r) == process_end(input@),
{
    let pid: Option<u32> = match input.u64_field("pid") {
        Some(n) => Some(truncate_u32(n)),
        None => None,
    };
    let name: Option<String> = input.str_field("name");
    if pid.is_none() && name.is_none() {
        Err("kill_process needs either a pid or a name".to_owned())
    } else {
        Ok(Capability::ProcessOp(ProcessOp::Kill { pid, name }))
    }
}

fn parse_network_query(input: &Json) -> (r: Result<Capability<String>, String>)
    ensures
        call_view(r) == network_lookup(input@),
{
    match get_str(input, "kind") {
        Err(e) => Err(e),
        Ok(kind) => if same(kind.as_str(), "status") {
            Ok(Capability::NetworkQuery(NetworkQuery::Status))
        } else if same(kind.as_str(), "ping") {
            match get_str(input, "host") {
                Ok(host) => Ok(Capability::NetworkQuery(NetworkQuery::PingHost { host })),
                Err(e) => Err(e),
            }
        } else if same(kind.as_str(), "listening_ports") {
            Ok(Capability::NetworkQuery(NetworkQuery::ListeningPorts))
        } else {
            Err(unknown_text("network_query.kind", kind.as_str()))
        },
    }
}

fn parse_volume_op(input: &Json) -> (r: Result<Capability<String>, String>)
    ensures
        call_view(r) == volume_change(input@),
{
    match get_str(input, "op") {
        Err(e) => Err(e),
        Ok(name) => {
            let op: VolumeOp = if same(name.as_str(), "up") {
                VolumeOp::Up(None)
            } else if same(name.as_str(), "down") {
                VolumeOp::Down(None)
            } else if same(name.as_str(), "mute") {
                VolumeOp::Mute
            } else if same(name.as_str(), "unmute") {
                VolumeOp::Unmute
            } else if same(name.as_str(), "set") {
                match input.u64_field("percent") {
                    Some(n) => VolumeOp::SetPercent(cap_100(n)),
                    None => {
                        return Err("volume_op op \"set\" requires \"percent\"".to_owned());
                    },
                }
            } else {
                return Err(unknown_text("volume_op.op", name.as_str()));
            };
            Ok(Capability::VolumeOp(op))
        },
    }
}

fn parse_clipboard_op(input: &Json) -> (r: Result<Capability<String>, String>)
    ensures
        call_view(r) == clipboard_call(input@),
{
    match get_str(input, "op") {
        Err(e) => Err(e),
        Ok(op) => if same(op.as_str(), "read") {
            Ok(Capability::Clipboard(ClipboardOp::Read))
        } else if same(op.as_str(), "write") {
            match get_str(input, "text") {
                Ok(t) => Ok(Capability::Clipboard(ClipboardOp::Write(t))),
                Err(e) => Err(e),
            }
        } else {
            Err(unknown_text("clipboard_op.op", op.as_str()))
        },
    }
}

fn parse_write_file(input: &Json, context: &WorkingState) -> (r: Result<Capability<String>, String>)
    ensures
        call_view(r) == file_write(input@, context@),
{
    match resolve_path_field(input, "path", &context.current_file, "file") {
        Err(e) => Err(e),
        Ok(path) => match get_str(input, "content") {
            Err(e) => Err(e),
            Ok(content) => {
                let append: bool = match input.get("append") {
                    Some(v) => match v.as_bool() {
                        Some(b) => b,
                        None => false,
                    },
                    None => false,
                };
                Ok(Capability::FileOp(FileOp::WriteFile { path, content, append }))
            },
        },
    }
}

fn parse_search_files(input: &Json) -> (r: Result<Capability<String>, String>)
    ensures
        call_view(r) == file_search(input@),
{
    match get_str(input, "root") {
        Err(e) => Err(e),
        Ok(root) => match get_str(input, "query") {
            Err(e) => Err(e),
            Ok(query) => {
                let max_results: Option<u32> = match input.u64_field("max_results") {
                    Some(n) => Some(truncate_u32(n)),
                    None => None,
                };
                Ok(
                    Capability::StorageQuery(
                        StorageQuery::SearchFiles { root, query, max_results },
                    ),
                )
            },
        },
    }
}

fn parse_largest_files(input: &Json) -> (r: Result<Capability<String>, String>)
    ensures
        call_view(r) == largest_in(input@),
{
    match get_str(input, "root") {
        Err(e) => Err(e),
        Ok(root) => {
            let top_n: u8 = match input.u64_field("top_n") {
                Some(n) => cap_100(n),
                None => 10,
            };
            Ok(Capability::StorageQuery(StorageQuery::LargestFiles { root, top_n }))
        },
    }
}

fn parse_move_or_rename(input: &Json, context: &WorkingState) -> (r: Result<
    Capability<String>,
    String,
>)
    ensures
        call_view(r) == move_call(input@, context@),
{
    match resolve_path_field(input, "from", &context.current_file, "file") {
        Err(e) => Err(e),
        Ok(from) => match get_str(input, "to") {
            Ok(to) => Ok(Capability::StorageOp(StorageOp::MoveOrRename { from, to })),
            Err(e) => Err(e),
        },
    }
}

fn parse_run_terminal_command(input: &Json, context: &WorkingState) -> (r: Result<
    Capability<String>,
    String,
>)
    ensures
        call_view(r) == terminal_call(input@, context@),
{
    let given: Option<String> = input.str_field("working_dir");
    let working_dir: Option<String> = match given {
        Some(d) => Some(d),
        None => match &context.current_folder {
            Some(f) => Some(f.clone()),
            None => None,
        },
    };
    match get_str(input, "command") {
        Ok(command) => Ok(
            Capability::TerminalOp(TerminalOp::RunCommand { command, working_dir }),
        ),
        Err(e) => Err(e),
    }
}

/// Turns a tool call into the capability it asks for, or into a message that
/// says what is wrong with it. A path that the call leaves out is taken from
/// `context`.
pub fn parse_tool_call(name: &str, input: &Json, context: &WorkingState) -> (r: Result<
    Capability<String>,
    String,
>)
    ensures
        call_view(r) == tool_call(name@, input@, context@),
{
    if same(name, "launch_or_focus_app") {
        match get_str(input, "name") {
            Ok(n) => Ok(Capability::LaunchOrFocusApp(n)),
            Err(e) => Err(e),
        }
    } else if same(name, "launch_app_with_arg") {
        parse_launch_with_arg(input, context)
    } else if same(name, "open_path") {
        match get_str(input, "target") {
            Ok(t) => Ok(Capability::OpenPath(t)),
            Err(e) => Err(e),
        }
    } else if same(name, "window_query") {
        parse_window_query(input)
    } else if same(name, "window_op") {
        parse_window_op(input)
    } else if same(name, "system_info") {
        parse_system_info(input)
    } else if same(name, "process_query") {
        parse_process_query(input)
    } else if same(name, "kill_process") {
        parse_kill_process(input)
    } else if same(name, "network_query") {
        parse_network_query(input)
    } else if same(name, "volume_op") {
        parse_volume_op(input)
    } else if same(name, "clipboard_op") {
        parse_clipboard_op(input)
    } else if same(name, "capture_screen") {
        Ok(Capability::CaptureScreen)
    } else if same(name, "search_knowledge_base") {
        match get_str(input, "query") {
            Ok(q) => Ok(Capability::SearchKnowledgeBase(q)),
            Err(e) => Err(e),
        }
    } else if same(name, "create_folder") {
        match get_str(input, "path") {
            Ok(path) => Ok(Capability::FileOp(FileOp::CreateFolder { path })),
            Err(e) => Err(e),
        }
    } else if same(name, "create_file") {
        match get_str(input, "path") {
            Ok(path) => Ok(
                Capability::FileOp(FileOp::CreateFile { path, content: input.str_field("content") }),
            ),
            Err(e) => Err(e),
        }
    } else if same(name, "write_file") {
        parse_write_file(input, context)
    } else if same(name, "read_file") {
        match resolve_path_field(input, "path", &context.current_file, "file") {
            Ok(path) => Ok(Capability::FileOp(FileOp::ReadFile { path })),
            Err(e) => Err(e),
        }
    } else if same(name, "list_folder") {
        match resolve_path_field(input, "path", &context.current_folder, "folder") {
            Ok(path) => Ok(Capability::StorageQuery(StorageQuery::ListFolder { path })),
            Err(e) => Err(e),
        }
    } else if same(name, "search_files") {
        parse_search_files(input)
    } else if same(name, "largest_files") {
        parse_largest_files(input)
    } else if same(name, "disk_usage") {
        Ok(Capability::StorageQuery(StorageQuery::DiskUsage { drive: input.str_field("drive") }))
    } else if same(name, "delete_file") {
        match resolve_path_field(input, "path", &context.current_file, "file") {
            Ok(path) => Ok(Capability::StorageOp(StorageOp::DeleteFile { path })),
            Err(e) => Err(e),
        }
    } else if same(name, "move_or_rename") {
        parse_move_or_rename(input, context)
    } else if same(name, "run_terminal_command") {
        parse_run_terminal_command(input, context)
    } else {
        let mut e: String = "unknown tool \"".to_owned();
        e.append(name);
        e.append("\"");
        Err(e)
    }
}

/// The line for opening something that a field of the call names.
pub open spec fn opening(input: JsonView, field: Seq<char>) -> Seq<char> {
    match input.str_field(field) {
        Some(what) => "Opening "@ + what + "..."@,
        None => "Opening that..."@,
    }
}

/// What the user is told while a tool call runs.
pub open spec fn progress(name: Seq<char>, input: JsonView) -> Seq<char> {
    if name == "launch_or_focus_app"@ {
        opening(input, "name"@)
    } else if name == "launch_app_with_arg"@ {
        opening(input, "app"@)
    } else if name == "open_path"@ {
        opening(input, "target"@)
    } else if name == "window_op"@ {
        "Adjusting the window..."@
    } else if name == "window_query"@ {
        "Checking your windows..."@
    } else if name == "system_info"@ {
        "Checking that..."@
    } else if name == "process_query"@ {
        "Checking running processes..."@
    } else if name == "kill_process"@ {
        "Preparing to end that process..."@
    } else if name == "network_query"@ {
        "Checking the network..."@
    } else if name == "volume_op"@ {
        "Adjusting the volume..."@
    } else if name == "clipboard_op"@ {
        "Working with the clipboard..."@
    } else if name == "capture_screen"@ {
        "Looking at your screen..."@
    } else if name == "search_knowledge_base"@ {
        "Checking your documents..."@
    } else if name == "create_folder"@ {
        "Creating a folder..."@
    } else if name == "create_file"@ {
        "Creating a file..."@
    } else if name == "write_file"@ {
        "Writing that down..."@
    } else if name == "read_file"@ {
        "Reading that file..."@
    } else if name == "list_folder"@ {
        "Looking at that folder..."@
    } else if name == "search_files"@ {
        "Searching for that..."@
    } else if name == "largest_files"@ {
        "Checking what's taking up space..."@
    } else if name == "disk_usage"@ {
        "Checking disk space..."@
    } else if name == "delete_file"@ {
        "Preparing to delete that..."@
    } else if name == "move_or_rename"@ {
        "Preparing to move that..."@
    } else if name == "run_terminal_command"@ {
        "Running a command..."@
    } else {
        "Working on it..."@
    }
}

fn opening_text(input: &Json, field: &str) -> (r: String)
    ensures
        r@ == opening(input@, field@),
{
    match input.str_field(field) {
        Some(what) => {
            let mut line: String = "Opening ".to_owned();
            line.append(what.as_str());
            line.append("...");
            line
        },
        None => "Opening that...".to_owned(),
    }
}

/// A short line on what a tool call is doing, for the user: never the tool's
/// name or its arguments as JSON.
pub fn progress_message(name: &str, input: &Json) -> (r: String)
    ensures
        r@ == progress(name@, input@),
{
    if same(name, "launch_or_focus_app") {
        opening_text(input, "name")
    } else if same(name, "launch_app_with_arg") {
        opening_text(input, "app")
    } else if same(name, "open_path") {
        opening_text(input, "target")
    } else if same(name, "window_op") {
        "Adjusting the window...".to_owned()
    } else if same(name, "window_query") {
        "Checking your windows...".to_owned()
    } else if same(name, "system_info") {
        "Checking that...".to_owned()
    } else if same(name, "process_query") {
        "Checking running processes...".to_owned()
    } else if same(name, "kill_process") {
        "Preparing to end that process...".to_owned()
    } else if same(name, "network_query") {
        "Checking the network...".to_owned()
    } else if same(name, "volume_op") {
        "Adjusting the volume...".to_owned()
    } else if same(name, "clipboard_op") {
        "Working with the clipboard...".to_owned()
    } else if same(name, "capture_screen") {
        "Looking at your screen...".to_owned()
    } else if same(name, "search_knowledge_base") {
        "Checking your documents...".to_owned()
    } else if same(name, "create_folder") {
        "Creating a folder...".to_owned()
    } else if same(name, "create_file") {
        "Creating a file...".to_owned()
    } else if same(name, "write_file") {
        "Writing that down...".to_owned()
    } else if same(name, "read_file") {
        "Reading that file...".to_owned()
    } else if same(name, "list_folder") {
        "Looking at that folder...".to_owned()
    } else if same(name, "search_files") {
        "Searching for that...".to_owned()
    } else if same(name, "largest_files") {
        "Checking what's taking up space...".to_owned()
    } else if same(name, "disk_usage") {
        "Checking disk space...".to_owned()
    } else if same(name, "delete_file") {
        "Preparing to delete that...".to_owned()
    } else if same(name, "move_or_rename") {
        "Preparing to move that...".to_owned()
    } else if same(name, "run_terminal_command") {
        "Running a command...".to_owned()
    } else {
        "Working on it...".to_owned()
    }
}

/// Every message of a call to a tool of the table speaks of its arguments:
/// none of them says that the tool is unknown.
pub proof fn declared_tools_are_known(i: int, input: JsonView, context: WorkingStateView)
    requires
        0 <= i < tool_table().len(),
    ensures
        tool_call(tool_table()[i].name, input, context) matches Err(e) ==> !starts_with(
            e,
            "unknown tool"@,
        ),
{
    let said = "unknown tool"@;
    reveal_strlit("unknown tool");
    assert(said.len() == 12 && said[0] == 'u' && said[8] == 't');
    reveal_strlit("tool call missing required field \"");
    reveal_strlit("unknown ");
    reveal_strlit("kill_process needs either a pid or a name");
    reveal_strlit("volume_op op \"set\" requires \"percent\"");
    reveal_strlit("window_query.kind");
    reveal_strlit("window_op.op");
    reveal_strlit("system_info.kind");
    reveal_strlit("process_query.kind");
    reveal_strlit("network_query.kind");
    reveal_strlit("volume_op.op");
    reveal_strlit("clipboard_op.op");
    match tool_call(tool_table()[i].name, input, context) {
        Ok(_) => {},
        Err(e) => {
            let name = tool_table()[i].name;
            assert(name == "launch_or_focus_app"@
                || name == "launch_app_with_arg"@
                || name == "open_path"@
                || name == "window_op"@
                || name == "window_query"@
                || name == "system_info"@
                || name == "process_query"@
                || name == "kill_process"@
                || name == "network_query"@
                || name == "volume_op"@
                || name == "clipboard_op"@
                || name == "capture_screen"@
                || name == "search_knowledge_base"@
                || name == "create_folder"@
                || name == "create_file"@
                || name == "write_file"@
                || name == "read_file"@
                || name == "list_folder"@
                || name == "search_files"@
                || name == "largest_files"@
                || name == "disk_usage"@
                || name == "delete_file"@
                || name == "run_terminal_command"@
                || name == "move_or_rename"@);
            if starts_with(e, said) {
                assert(e.subrange(0, 12)[0] == e[0]);
                assert(e.subrange(0, 12)[8] == e[8]);
            }
        },
    }
}

/// A name outside the table is reported as unknown, whatever the arguments.
pub proof fn other_names_are_unknown(name: Seq<char>, input: JsonView, context: WorkingStateView)
    requires
        forall|i: int| 0 <= i < tool_table().len() ==> (#[trigger] tool_table()[i]).name != name,
    ensures
        tool_call(name, input, context) == Err::<Capability<Seq<char>>, Seq<char>>(
            unknown_tool(name),
        ),
{
    assert(tool_table()[0].name == "launch_or_focus_app"@);
    assert(tool_table()[1].name == "launch_app_with_arg"@);
    assert(tool_table()[2].name == "open_path"@);
    assert(tool_table()[3].name == "window_op"@);
    assert(tool_table()[4].name == "window_query"@);
    assert(tool_table()[5].name == "system_info"@);
    assert(tool_table()[6].name == "process_query"@);
    assert(tool_table()[7].name == "kill_process"@);
    assert(tool_table()[8].name == "network_query"@);
    assert(tool_table()[9].name == "volume_op"@);
    assert(tool_table()[10].name == "clipboard_op"@);
    assert(tool_table()[11].name == "capture_screen"@);
    assert(tool_table()[12].name == "search_knowledge_base"@);
    assert(tool_table()[13].name == "create_folder"@);
    assert(tool_table()[14].name == "create_file"@);
    assert(tool_table()[15].name == "write_file"@);
    assert(tool_table()[16].name == "read_file"@);
    assert(tool_table()[17].name == "list_folder"@);
    assert(tool_table()[18].name == "search_files"@);
    assert(tool_table()[19].name == "largest_files"@);
    assert(tool_table()[20].name == "disk_usage"@);
    assert(tool_table()[21].name == "delete_file"@);
    assert(tool_table()[22].name == "run_terminal_command"@);
    assert(tool_table()[23].name == "move_or_rename"@);
}

proof fn tool_names_differ()
    ensures
        "launch_or_focus_app"@ != "launch_app_with_arg"@,
        "launch_or_focus_app"@ != "open_path"@,
        "launch_or_focus_app"@ != "window_op"@,
        "launch_or_focus_app"@ != "window_query"@,
        "launch_or_focus_app"@ != "system_info"@,
        "launch_or_focus_app"@ != "process_query"@,
        "launch_or_focus_app"@ != "kill_process"@,
        "launch_or_focus_app"@ != "network_query"@,
        "launch_or_focus_app"@ != "volume_op"@,
        "launch_or_focus_app"@ != "clipboard_op"@,
        "launch_or_focus_app"@ != "capture_screen"@,
        "launch_or_focus_app"@ != "search_knowledge_base"@,
        "launch_or_focus_app"@ != "create_folder"@,
        "launch_or_focus_app"@ != "create_file"@,
        "launch_or_focus_app"@ != "write_file"@,
        "launch_or_focus_app"@ != "read_file"@,
        "launch_or_focus_app"@ != "list_folder"@,
        "launch_or_focus_app"@ != "search_files"@,
        "launch_or_focus_app"@ != "largest_files"@,
        "launch_or_focus_app"@ != "disk_usage"@,
        "launch_or_focus_app"@ != "delete_file"@,
        "launch_or_focus_app"@ != "run_terminal_command"@,
        "launch_or_focus_app"@ != "move_or_rename"@,
        "launch_app_with_arg"@ != "open_path"@,
        "launch_app_with_arg"@ != "window_op"@,
        "launch_app_with_arg"@ != "window_query"@,
        "launch_app_with_arg"@ != "system_info"@,
        "launch_app_with_arg"@ != "process_query"@,
        "launch_app_with_arg"@ != "kill_process"@,
        "launch_app_with_arg"@ != "network_query"@,
        "launch_app_with_arg"@ != "volume_op"@,
        "launch_app_with_arg"@ != "clipboard_op"@,
        "launch_app_with_arg"@ != "capture_screen"@,
        "launch_app_with_arg"@ != "search_knowledge_base"@,
        "launch_app_with_arg"@ != "create_folder"@,
        "launch_app_with_arg"@ != "create_file"@,
        "launch_app_with_arg"@ != "write_file"@,
        "launch_app_with_arg"@ != "read_file"@,
        "launch_app_with_arg"@ != "list_folder"@,
        "launch_app_with_arg"@ != "search_files"@,
        "launch_app_with_arg"@ != "largest_files"@,
        "launch_app_with_arg"@ != "disk_usage"@,
        "launch_app_with_arg"@ != "delete_file"@,
        "launch_app_with_arg"@ != "run_terminal_command"@,
        "launch_app_with_arg"@ != "move_or_rename"@,
        "open_path"@ != "window_op"@,
        "open_path"@ != "window_query"@,
        "open_path"@ != "system_info"@,
        "open_path"@ != "process_query"@,
        "open_path"@ != "kill_process"@,
        "open_path"@ != "network_query"@,
        "open_path"@ != "volume_op"@,
        "open_path"@ != "clipboard_op"@,
        "open_path"@ != "capture_screen"@,
        "open_path"@ != "search_knowledge_base"@,
        "open_path"@ != "create_folder"@,
        "open_path"@ != "create_file"@,
        "open_path"@ != "write_file"@,
        "open_path"@ != "read_file"@,
        "open_path"@ != "list_folder"@,
        "open_path"@ != "search_files"@,
        "open_path"@ != "largest_files"@,
        "open_path"@ != "disk_usage"@,
        "open_path"@ != "delete_file"@,
        "open_path"@ != "run_terminal_command"@,
        "open_path"@ != "move_or_rename"@,
        "window_op"@ != "window_query"@,
        "window_op"@ != "system_info"@,
        "window_op"@ != "process_query"@,
        "window_op"@ != "kill_process"@,
        "window_op"@ != "network_query"@,
        "window_op"@ != "volume_op"@,
        "window_op"@ != "clipboard_op"@,
        "window_op"@ != "capture_screen"@,
        "window_op"@ != "search_knowledge_base"@,
        "window_op"@ != "create_folder"@,
        "window_op"@ != "create_file"@,
        "window_op"@ != "write_file"@,
        "window_op"@ != "read_file"@,
        "window_op"@ != "list_folder"@,
        "window_op"@ != "search_files"@,
        "window_op"@ != "largest_files"@,
        "window_op"@ != "disk_usage"@,
        "window_op"@ != "delete_file"@,
        "window_op"@ != "run_terminal_command"@,
        "window_op"@ != "move_or_rename"@,
        "window_query"@ != "system_info"@,
        "window_query"@ != "process_query"@,
        "window_query"@ != "kill_process"@,
        "window_query"@ != "network_query"@,
        "window_query"@ != "volume_op"@,
        "window_query"@ != "clipboard_op"@,
        "window_query"@ != "capture_screen"@,
        "window_query"@ != "search_knowledge_base"@,
        "window_query"@ != "create_folder"@,
        "window_query"@ != "create_file"@,
        "window_query"@ != "write_file"@,
        "window_query"@ != "read_file"@,
        "window_query"@ != "list_folder"@,
        "window_query"@ != "search_files"@,
        "window_query"@ != "largest_files"@,
        "window_query"@ != "disk_usage"@,
        "window_query"@ != "delete_file"@,
        "window_query"@ != "run_terminal_command"@,
        "window_query"@ != "move_or_rename"@,
        "system_info"@ != "process_query"@,
        "system_info"@ != "kill_process"@,
        "system_info"@ != "network_query"@,
        "system_info"@ != "volume_op"@,
        "system_info"@ != "clipboard_op"@,
        "system_info"@ != "capture_screen"@,
        "system_info"@ != "search_knowledge_base"@,
        "system_info"@ != "create_folder"@,
        "system_info"@ != "create_file"@,
        "system_info"@ != "write_file"@,
        "system_info"@ != "read_file"@,
        "system_info"@ != "list_folder"@,
        "system_info"@ != "search_files"@,
        "system_info"@ != "largest_files"@,
        "system_info"@ != "disk_usage"@,
        "system_info"@ != "delete_file"@,
        "system_info"@ != "run_terminal_command"@,
        "system_info"@ != "move_or_rename"@,
        "process_query"@ != "kill_process"@,
        "process_query"@ != "network_query"@,
        "process_query"@ != "volume_op"@,
        "process_query"@ != "clipboard_op"@,
        "process_query"@ != "capture_screen"@,
        "process_query"@ != "search_knowledge_base"@,
        "process_query"@ != "create_folder"@,
        "process_query"@ != "create_file"@,
        "process_query"@ != "write_file"@,
        "process_query"@ != "read_file"@,
        "process_query"@ != "list_folder"@,
        "process_query"@ != "search_files"@,
        "process_query"@ != "largest_files"@,
        "process_query"@ != "disk_usage"@,
        "process_query"@ != "delete_file"@,
        "process_query"@ != "run_terminal_command"@,
        "process_query"@ != "move_or_rename"@,
        "kill_process"@ != "network_query"@,
        "kill_process"@ != "volume_op"@,
        "kill_process"@ != "clipboard_op"@,
        "kill_process"@ != "capture_screen"@,
        "kill_process"@ != "search_knowledge_base"@,
        "kill_process"@ != "create_folder"@,
        "kill_process"@ != "create_file"@,
        "kill_process"@ != "write_file"@,
        "kill_process"@ != "read_file"@,
        "kill_process"@ != "list_folder"@,
        "kill_process"@ != "search_files"@,
        "kill_process"@ != "largest_files"@,
        "kill_process"@ != "disk_usage"@,
        "kill_process"@ != "delete_file"@,
        "kill_process"@ != "run_terminal_command"@,
        "kill_process"@ != "move_or_rename"@,
        "network_query"@ != "volume_op"@,
        "network_query"@ != "clipboard_op"@,
        "network_query"@ != "capture_screen"@,
        "network_query"@ != "search_knowledge_base"@,
        "network_query"@ != "create_folder"@,
        "network_query"@ != "create_file"@,
        "network_query"@ != "write_file"@,
        "network_query"@ != "read_file"@,
        "network_query"@ != "list_folder"@,
        "network_query"@ != "search_files"@,
        "network_query"@ != "largest_files"@,
        "network_query"@ != "disk_usage"@,
        "network_query"@ != "delete_file"@,
        "network_query"@ != "run_terminal_command"@,
        "network_query"@ != "move_or_rename"@,
        "volume_op"@ != "clipboard_op"@,
        "volume_op"@ != "capture_screen"@,
        "volume_op"@ != "search_knowledge_base"@,
        "volume_op"@ != "create_folder"@,
        "volume_op"@ != "create_file"@,
        "volume_op"@ != "write_file"@,
        "volume_op"@ != "read_file"@,
        "volume_op"@ != "list_folder"@,
        "volume_op"@ != "search_files"@,
        "volume_op"@ != "largest_files"@,
        "volume_op"@ != "disk_usage"@,
        "volume_op"@ != "delete_file"@,
        "volume_op"@ != "run_terminal_command"@,
        "volume_op"@ != "move_or_rename"@,
        "clipboard_op"@ != "capture_screen"@,
        "clipboard_op"@ != "search_knowledge_base"@,
        "clipboard_op"@ != "create_folder"@,
        "clipboard_op"@ != "create_file"@,
        "clipboard_op"@ != "write_file"@,
        "clipboard_op"@ != "read_file"@,
        "clipboard_op"@ != "list_folder"@,
        "clipboard_op"@ != "search_files"@,
        "clipboard_op"@ != "largest_files"@,
        "clipboard_op"@ != "disk_usage"@,
        "clipboard_op"@ != "delete_file"@,
        "clipboard_op"@ != "run_terminal_command"@,
        "clipboard_op"@ != "move_or_rename"@,
        "capture_screen"@ != "search_knowledge_base"@,
        "capture_screen"@ != "create_folder"@,
        "capture_screen"@ != "create_file"@,
        "capture_screen"@ != "write_file"@,
        "capture_screen"@ != "read_file"@,
        "capture_screen"@ != "list_folder"@,
        "capture_screen"@ != "search_files"@,
        "capture_screen"@ != "largest_files"@,
        "capture_screen"@ != "disk_usage"@,
        "capture_screen"@ != "delete_file"@,
        "capture_screen"@ != "run_terminal_command"@,
        "capture_screen"@ != "move_or_rename"@,
        "search_knowledge_base"@ != "create_folder"@,
        "search_knowledge_base"@ != "create_file"@,
        "search_knowledge_base"@ != "write_file"@,
        "search_knowledge_base"@ != "read_file"@,
        "search_knowledge_base"@ != "list_folder"@,
        "search_knowledge_base"@ != "search_files"@,
        "search_knowledge_base"@ != "largest_files"@,
        "search_knowledge_base"@ != "disk_usage"@,
        "search_knowledge_base"@ != "delete_file"@,
        "search_knowledge_base"@ != "run_terminal_command"@,
        "search_knowledge_base"@ != "move_or_rename"@,
        "create_folder"@ != "create_file"@,
        "create_folder"@ != "write_file"@,
        "create_folder"@ != "read_file"@,
        "create_folder"@ != "list_folder"@,
        "create_folder"@ != "search_files"@,
        "create_folder"@ != "largest_files"@,
        "create_folder"@ != "disk_usage"@,
        "create_folder"@ != "delete_file"@,
        "create_folder"@ != "run_terminal_command"@,
        "create_folder"@ != "move_or_rename"@,
        "create_file"@ != "write_file"@,
        "create_file"@ != "read_file"@,
        "create_file"@ != "list_folder"@,
        "create_file"@ != "search_files"@,
        "create_file"@ != "largest_files"@,
        "create_file"@ != "disk_usage"@,
        "create_file"@ != "delete_file"@,
        "create_file"@ != "run_terminal_command"@,
        "create_file"@ != "move_or_rename"@,
        "write_file"@ != "read_file"@,
        "write_file"@ != "list_folder"@,
        "write_file"@ != "search_files"@,
        "write_file"@ != "largest_files"@,
        "write_file"@ != "disk_usage"@,
        "write_file"@ != "delete_file"@,
        "write_file"@ != "run_terminal_command"@,
        "write_file"@ != "move_or_rename"@,
        "read_file"@ != "list_folder"@,
        "read_file"@ != "search_files"@,
        "read_file"@ != "largest_files"@,
        "read_file"@ != "disk_usage"@,
        "read_file"@ != "delete_file"@,
        "read_file"@ != "run_terminal_command"@,
        "read_file"@ != "move_or_rename"@,
        "list_folder"@ != "search_files"@,
        "list_folder"@ != "largest_files"@,
        "list_folder"@ != "disk_usage"@,
        "list_folder"@ != "delete_file"@,
        "list_folder"@ != "run_terminal_command"@,
        "list_folder"@ != "move_or_rename"@,
        "search_files"@ != "largest_files"@,
        "search_files"@ != "disk_usage"@,
        "search_files"@ != "delete_file"@,
        "search_files"@ != "run_terminal_command"@,
        "search_files"@ != "move_or_rename"@,
        "largest_files"@ != "disk_usage"@,
        "largest_files"@ != "delete_file"@,
        "largest_files"@ != "run_terminal_command"@,
        "largest_files"@ != "move_or_rename"@,
        "disk_usage"@ != "delete_file"@,
        "disk_usage"@ != "run_terminal_command"@,
        "disk_usage"@ != "move_or_rename"@,
        "delete_file"@ != "run_terminal_command"@,
        "delete_file"@ != "move_or_rename"@,
        "run_terminal_command"@ != "move_or_rename"@,
{
    reveal_strlit("launch_or_focus_app");
    reveal_strlit("launch_app_with_arg");
    reveal_strlit("open_path");
    reveal_strlit("window_op");
    reveal_strlit("window_query");
    reveal_strlit("system_info");
    reveal_strlit("process_query");
    reveal_strlit("kill_process");
    reveal_strlit("network_query");
    reveal_strlit("volume_op");
    reveal_strlit("clipboard_op");
    reveal_strlit("capture_screen");
    reveal_strlit("search_knowledge_base");
    reveal_strlit("create_folder");
    reveal_strlit("create_file");
    reveal_strlit("write_file");
    reveal_strlit("read_file");
    reveal_strlit("list_folder");
    reveal_strlit("search_files");
    reveal_strlit("largest_files");
    reveal_strlit("disk_usage");
    reveal_strlit("delete_file");
    reveal_strlit("run_terminal_command");
    reveal_strlit("move_or_rename");
    assert("launch_or_focus_app"@.len() == 19);
    assert("launch_app_with_arg"@.len() == 19);
    assert("open_path"@.len() == 9);
    assert("window_op"@.len() == 9);
    assert("window_query"@.len() == 12);
    assert("system_info"@.len() == 11);
    assert("process_query"@.len() == 13);
    assert("kill_process"@.len() == 12);
    assert("network_query"@.len() == 13);
    assert("volume_op"@.len() == 9);
    assert("clipboard_op"@.len() == 12);
    assert("capture_screen"@.len() == 14);
    assert("search_knowledge_base"@.len() == 21);
    assert("create_folder"@.len() == 13);
    assert("create_file"@.len() == 11);
    assert("write_file"@.len() == 10);
    assert("read_file"@.len() == 9);
    assert("list_folder"@.len() == 11);
    assert("search_files"@.len() == 12);
    assert("largest_files"@.len() == 13);
    assert("disk_usage"@.len() == 10);
    assert("delete_file"@.len() == 11);
    assert("run_terminal_command"@.len() == 20);
    assert("move_or_rename"@.len() == 14);
    assert("launch_or_focus_app"@[7] != "launch_app_with_arg"@[7]);
    assert("open_path"@[0] != "window_op"@[0]);
    assert("open_path"@[0] != "volume_op"@[0]);
    assert("open_path"@[0] != "read_file"@[0]);
    assert("window_op"@[0] != "volume_op"@[0]);
    assert("window_op"@[0] != "read_file"@[0]);
    assert("window_query"@[0] != "kill_process"@[0]);
    assert("window_query"@[0] != "clipboard_op"@[0]);
    assert("window_query"@[0] != "search_files"@[0]);
    assert("system_info"@[0] != "create_file"@[0]);
    assert("system_info"@[0] != "list_folder"@[0]);
    assert("system_info"@[0] != "delete_file"@[0]);
    assert("process_query"@[0] != "network_query"@[0]);
    assert("process_query"@[0] != "create_folder"@[0]);
    assert("process_query"@[0] != "largest_files"@[0]);
    assert("kill_process"@[0] != "clipboard_op"@[0]);
    assert("kill_process"@[0] != "search_files"@[0]);
    assert("network_query"@[0] != "create_folder"@[0]);
    assert("network_query"@[0] != "largest_files"@[0]);
    assert("volume_op"@[0] != "read_file"@[0]);
    assert("clipboard_op"@[0] != "search_files"@[0]);
    assert("capture_screen"@[0] != "move_or_rename"@[0]);
    assert("create_folder"@[0] != "largest_files"@[0]);
    assert("create_file"@[0] != "list_folder"@[0]);
    assert("create_file"@[0] != "delete_file"@[0]);
    assert("write_file"@[0] != "disk_usage"@[0]);
    assert("list_folder"@[0] != "delete_file"@[0]);
}

proof fn values_differ()
    ensures
        "list_open"@ != "get_active"@,
        "minimize"@ != "maximize"@,
        "minimize"@ != "close"@,
        "minimize"@ != "focus"@,
        "maximize"@ != "close"@,
        "maximize"@ != "focus"@,
        "close"@ != "focus"@,
        "time"@ != "battery"@,
        "time"@ != "cpu"@,
        "time"@ != "memory"@,
        "time"@ != "volume"@,
        "time"@ != "disk_space"@,
        "time"@ != "uptime"@,
        "battery"@ != "cpu"@,
        "battery"@ != "memory"@,
        "battery"@ != "volume"@,
        "battery"@ != "disk_space"@,
        "battery"@ != "uptime"@,
        "cpu"@ != "memory"@,
        "cpu"@ != "volume"@,
        "cpu"@ != "disk_space"@,
        "cpu"@ != "uptime"@,
        "memory"@ != "volume"@,
        "memory"@ != "disk_space"@,
        "memory"@ != "uptime"@,
        "volume"@ != "disk_space"@,
        "volume"@ != "uptime"@,
        "disk_space"@ != "uptime"@,
        "list"@ != "find_by_name"@,
        "status"@ != "ping"@,
        "status"@ != "listening_ports"@,
        "ping"@ != "listening_ports"@,
        "up"@ != "down"@,
        "up"@ != "mute"@,
        "up"@ != "unmute"@,
        "up"@ != "set"@,
        "down"@ != "mute"@,
        "down"@ != "unmute"@,
        "down"@ != "set"@,
        "mute"@ != "unmute"@,
        "mute"@ != "set"@,
        "unmute"@ != "set"@,
        "read"@ != "write"@,
{
    reveal_strlit("list_open");
    reveal_strlit("get_active");
    reveal_strlit("minimize");
    reveal_strlit("maximize");
    reveal_strlit("close");
    reveal_strlit("focus");
    reveal_strlit("time");
    reveal_strlit("battery");
    reveal_strlit("cpu");
    reveal_strlit("memory");
    reveal_strlit("volume");
    reveal_strlit("disk_space");
    reveal_strlit("uptime");
    reveal_strlit("list");
    reveal_strlit("find_by_name");
    reveal_strlit("status");
    reveal_strlit("ping");
    reveal_strlit("listening_ports");
    reveal_strlit("up");
    reveal_strlit("down");
    reveal_strlit("mute");
    reveal_strlit("unmute");
    reveal_strlit("set");
    reveal_strlit("read");
    reveal_strlit("write");
    assert("list_open"@.len() == 9);
    assert("get_active"@.len() == 10);
    assert("minimize"@.len() == 8);
    assert("maximize"@.len() == 8);
    assert("close"@.len() == 5);
    assert("focus"@.len() == 5);
    assert("time"@.len() == 4);
    assert("battery"@.len() == 7);
    assert("cpu"@.len() == 3);
    assert("memory"@.len() == 6);
    assert("volume"@.len() == 6);
    assert("disk_space"@.len() == 10);
    assert("uptime"@.len() == 6);
    assert("list"@.len() == 4);
    assert("find_by_name"@.len() == 12);
    assert("status"@.len() == 6);
    assert("ping"@.len() == 4);
    assert("listening_ports"@.len() == 15);
    assert("up"@.len() == 2);
    assert("down"@.len() == 4);
    assert("mute"@.len() == 4);
    assert("unmute"@.len() == 6);
    assert("set"@.len() == 3);
    assert("read"@.len() == 4);
    assert("write"@.len() == 5);
    assert("minimize"@[1] != "maximize"@[1]);
    assert("close"@[0] != "focus"@[0]);
    assert("memory"@[0] != "volume"@[0]);
    assert("memory"@[0] != "uptime"@[0]);
    assert("volume"@[0] != "uptime"@[0]);
    assert("down"@[0] != "mute"@[0]);
}

/// A call does what it names, with what it was given: each tool is its own
/// action, and each of its fields is the one of its own name.
pub proof fn a_call_does_what_it_names(
    input: JsonView,
    context: WorkingStateView,
    s: Seq<char>,
    t: Seq<char>,
    n: u64,
)
    ensures
        input.get("name"@) == Some(JsonView::Text(s))
            ==> tool_call("launch_or_focus_app"@, input, context)
            == done(Capability::LaunchOrFocusApp(s)),
        input.get("app"@) == Some(JsonView::Text(s))
            && input.get("arg"@) == Some(JsonView::Text(t))
            ==> tool_call("launch_app_with_arg"@, input, context)
            == done(Capability::LaunchAppWithArg { app: s, arg: t }),
        input.get("target"@) == Some(JsonView::Text(s))
            ==> tool_call("open_path"@, input, context)
            == done(Capability::OpenPath(s)),
        input.get("kind"@) == Some(JsonView::Text("list_open"@))
            ==> tool_call("window_query"@, input, context)
            == done(Capability::WindowQuery(WindowQueryOp::ListOpen)),
        input.get("kind"@) == Some(JsonView::Text("get_active"@))
            ==> tool_call("window_query"@, input, context)
            == done(Capability::WindowQuery(WindowQueryOp::GetActive)),
        input.get("op"@) == Some(JsonView::Text("minimize"@))
            && input.get("target"@) == Some(JsonView::Text(s))
            ==> tool_call("window_op"@, input, context)
            == done(Capability::WindowOp { op: WindowOp::Minimize, target: Some(s) }),
        input.get("op"@) == Some(JsonView::Text("minimize"@))
            && input.get("target"@) is None
            ==> tool_call("window_op"@, input, context)
            == done(Capability::WindowOp { op: WindowOp::Minimize, target: None }),
        input.get("op"@) == Some(JsonView::Text("maximize"@))
            && input.get("target"@) == Some(JsonView::Text(s))
            ==> tool_call("window_op"@, input, context)
            == done(Capability::WindowOp { op: WindowOp::Maximize, target: Some(s) }),
        input.get("op"@) == Some(JsonView::Text("maximize"@))
            && input.get("target"@) is None
            ==> tool_call("window_op"@, input, context)
            == done(Capability::WindowOp { op: WindowOp::Maximize, target: None }),
        input.get("op"@) == Some(JsonView::Text("close"@))
            && input.get("target"@) == Some(JsonView::Text(s))
            ==> tool_call("window_op"@, input, context)
            == done(Capability::WindowOp { op: WindowOp::Close, target: Some(s) }),
        input.get("op"@) == Some(JsonView::Text("close"@))
            && input.get("target"@) is None
            ==> tool_call("window_op"@, input, context)
            == done(Capability::WindowOp { op: WindowOp::Close, target: None }),
        input.get("op"@) == Some(JsonView::Text("focus"@))
            && input.get("target"@) == Some(JsonView::Text(s))
            ==> tool_call("window_op"@, input, context)
            == done(Capability::WindowOp { op: WindowOp::Focus, target: Some(s) }),
        input.get("op"@) == Some(JsonView::Text("focus"@))
            && input.get("target"@) is None
            ==> tool_call("window_op"@, input, context)
            == done(Capability::WindowOp { op: WindowOp::Focus, target: None }),
        input.get("kind"@) == Some(JsonView::Text("time"@))
            ==> tool_call("system_info"@, input, context)
            == done(Capability::SystemInfo(SystemInfoKind::Time)),
        input.get("kind"@) == Some(JsonView::Text("battery"@))
            ==> tool_call("system_info"@, input, context)
            == done(Capability::SystemInfo(SystemInfoKind::Battery)),
        input.get("kind"@) == Some(JsonView::Text("cpu"@))
            ==> tool_call("system_info"@, input, context)
            == done(Capability::SystemInfo(SystemInfoKind::Cpu)),
        input.get("kind"@) == Some(JsonView::Text("memory"@))
            ==> tool_call("system_info"@, input, context)
            == done(Capability::SystemInfo(SystemInfoKind::Memory)),
        input.get("kind"@) == Some(JsonView::Text("volume"@))
            ==> tool_call("system_info"@, input, context)
            == done(Capability::SystemInfo(SystemInfoKind::Volume)),
        input.get("kind"@) == Some(JsonView::Text("disk_space"@))
            ==> tool_call("system_info"@, input, context)
            == done(Capability::SystemInfo(SystemInfoKind::DiskSpace)),
        input.get("kind"@) == Some(JsonView::Text("uptime"@))
            ==> tool_call("system_info"@, input, context)
            == done(Capability::SystemInfo(SystemInfoKind::Uptime)),
        input.get("kind"@) == Some(JsonView::Text("list"@))
            ==> tool_call("process_query"@, input, context)
            == done(Capability::ProcessQuery(ProcessQuery::List)),
        input.get("kind"@) == Some(JsonView::Text("find_by_name"@))
            && input.get("name"@) == Some(JsonView::Text(s))
            ==> tool_call("process_query"@, input, context)
            == done(Capability::ProcessQuery(ProcessQuery::FindByName(s))),
        input.get("kind"@) == Some(JsonView::Text("status"@))
            ==> tool_call("network_query"@, input, context)
            == done(Capability::NetworkQuery(NetworkQuery::Status)),
        input.get("kind"@) == Some(JsonView::Text("ping"@))
            && input.get("host"@) == Some(JsonView::Text(s))
            ==> tool_call("network_query"@, input, context)
            == done(Capability::NetworkQuery(NetworkQuery::PingHost { host: s })),
        input.get("kind"@) == Some(JsonView::Text("listening_ports"@))
            ==> tool_call("network_query"@, input, context)
            == done(Capability::NetworkQuery(NetworkQuery::ListeningPorts)),
        input.get("op"@) == Some(JsonView::Text("up"@))
            ==> tool_call("volume_op"@, input, context)
            == done(Capability::VolumeOp(VolumeOp::Up(None))),
        input.get("op"@) == Some(JsonView::Text("down"@))
            ==> tool_call("volume_op"@, input, context)
            == done(Capability::VolumeOp(VolumeOp::Down(None))),
        input.get("op"@) == Some(JsonView::Text("mute"@))
            ==> tool_call("volume_op"@, input, context)
            == done(Capability::VolumeOp(VolumeOp::Mute)),
        input.get("op"@) == Some(JsonView::Text("unmute"@))
            ==> tool_call("volume_op"@, input, context)
            == done(Capability::VolumeOp(VolumeOp::Unmute)),
        input.get("op"@) == Some(JsonView::Text("set"@))
            && input.get("percent"@) == Some(JsonView::Number(JsonNumberView::Unsigned(n)))
            && n <= 100
            ==> tool_call("volume_op"@, input, context)
            == done(Capability::VolumeOp(VolumeOp::SetPercent(n as u8))),
        input.get("op"@) == Some(JsonView::Text("set"@))
            && input.get("percent"@) == Some(JsonView::Number(JsonNumberView::Unsigned(n)))
            && n > 100
            ==> tool_call("volume_op"@, input, context)
            == done(Capability::VolumeOp(VolumeOp::SetPercent(100))),
        input.get("op"@) == Some(JsonView::Text("read"@))
            ==> tool_call("clipboard_op"@, input, context)
            == done(Capability::Clipboard(ClipboardOp::Read)),
        input.get("op"@) == Some(JsonView::Text("write"@))
            && input.get("text"@) == Some(JsonView::Text(s))
            ==> tool_call("clipboard_op"@, input, context)
            == done(Capability::Clipboard(ClipboardOp::Write(s))),
        tool_call("capture_screen"@, input, context) == done(Capability::CaptureScreen),
        input.get("query"@) == Some(JsonView::Text(s))
            ==> tool_call("search_knowledge_base"@, input, context)
            == done(Capability::SearchKnowledgeBase(s)),
        input.get("path"@) == Some(JsonView::Text(s))
            ==> tool_call("create_folder"@, input, context)
            == done(Capability::FileOp(FileOp::CreateFolder { path: s })),
        input.get("path"@) == Some(JsonView::Text(s))
            && input.get("content"@) == Some(JsonView::Text(t))
            ==> tool_call("create_file"@, input, context)
            == done(Capability::FileOp(FileOp::CreateFile { path: s, content: Some(t) })),
        input.get("path"@) == Some(JsonView::Text(s))
            && input.get("content"@) is None
            ==> tool_call("create_file"@, input, context)
            == done(Capability::FileOp(FileOp::CreateFile { path: s, content: None })),
        input.get("path"@) == Some(JsonView::Text(s))
            && input.get("content"@) == Some(JsonView::Text(t))
            && input.get("append"@) == Some(JsonView::Bool(true))
            ==> tool_call("write_file"@, input, context)
            == done(Capability::FileOp(FileOp::WriteFile { path: s, content: t, append: true })),
        input.get("path"@) == Some(JsonView::Text(s))
            && input.get("content"@) == Some(JsonView::Text(t))
            && input.get("append"@) != Some(JsonView::Bool(true))
            ==> tool_call("write_file"@, input, context)
            == done(Capability::FileOp(FileOp::WriteFile { path: s, content: t, append: false })),
        input.get("path"@) == Some(JsonView::Text(s))
            ==> tool_call("read_file"@, input, context)
            == done(Capability::FileOp(FileOp::ReadFile { path: s })),
        input.get("path"@) == Some(JsonView::Text(s))
            ==> tool_call("list_folder"@, input, context)
            == done(Capability::StorageQuery(StorageQuery::ListFolder { path: s })),
        input.get("root"@) == Some(JsonView::Text(s))
            && input.get("query"@) == Some(JsonView::Text(t))
            && input.get("max_results"@) is None
            ==> tool_call("search_files"@, input, context)
            == done(Capability::StorageQuery(StorageQuery::SearchFiles { root: s, query: t, max_results: None })),
        input.get("root"@) == Some(JsonView::Text(s))
            && input.get("query"@) == Some(JsonView::Text(t))
            && input.get("max_results"@) == Some(JsonView::Number(JsonNumberView::Unsigned(n)))
            && n <= u32::MAX
            ==> tool_call("search_files"@, input, context)
            == done(Capability::StorageQuery(StorageQuery::SearchFiles { root: s, query: t, max_results: Some(n as u32) })),
        input.get("root"@) == Some(JsonView::Text(s))
            && input.get("top_n"@) is None
            ==> tool_call("largest_files"@, input, context)
            == done(Capability::StorageQuery(StorageQuery::LargestFiles { root: s, top_n: 10 })),
        input.get("root"@) == Some(JsonView::Text(s))
            && input.get("top_n"@) == Some(JsonView::Number(JsonNumberView::Unsigned(n)))
            && n <= 100
            ==> tool_call("largest_files"@, input, context)
            == done(Capability::StorageQuery(StorageQuery::LargestFiles { root: s, top_n: n as u8 })),
        input.get("drive"@) == Some(JsonView::Text(s))
            ==> tool_call("disk_usage"@, input, context)
            == done(Capability::StorageQuery(StorageQuery::DiskUsage { drive: Some(s) })),
        input.get("drive"@) is None
            ==> tool_call("disk_usage"@, input, context)
            == done(Capability::StorageQuery(StorageQuery::DiskUsage { drive: None })),
        input.get("path"@) == Some(JsonView::Text(s))
            ==> tool_call("delete_file"@, input, context)
            == done(Capability::StorageOp(StorageOp::DeleteFile { path: s })),
        input.get("from"@) == Some(JsonView::Text(s))
            && input.get("to"@) == Some(JsonView::Text(t))
            ==> tool_call("move_or_rename"@, input, context)
            == done(Capability::StorageOp(StorageOp::MoveOrRename { from: s, to: t })),
        input.get("command"@) == Some(JsonView::Text(s))
            && input.get("working_dir"@) == Some(JsonView::Text(t))
            ==> tool_call("run_terminal_command"@, input, context)
            == done(Capability::TerminalOp(TerminalOp::RunCommand { command: s, working_dir: Some(t) })),
        input.get("command"@) == Some(JsonView::Text(s))
            && input.get("working_dir"@) is None
            ==> tool_call("run_terminal_command"@, input, context)
            == done(Capability::TerminalOp(TerminalOp::RunCommand { command: s, working_dir: context.current_folder })),
        input.get("pid"@) == Some(JsonView::Number(JsonNumberView::Unsigned(n)))
            && n <= u32::MAX
            && input.get("name"@) is None
            ==> tool_call("kill_process"@, input, context)
            == done(Capability::ProcessOp(ProcessOp::Kill { pid: Some(n as u32), name: None })),
        input.get("name"@) == Some(JsonView::Text(s))
            && input.get("pid"@) is None
            ==> tool_call("kill_process"@, input, context)
            == done(Capability::ProcessOp(ProcessOp::Kill { pid: None, name: Some(s) })),
{
    tool_names_differ();
    values_differ();
}

/// The action is what the call asks for.
pub open spec fn done(action: Capability<Seq<char>>) -> CallView {
    Ok(action)
}

/// What is left out is taken from what is being worked on: the present file or
/// the present folder; where there is none, the call fails.
pub proof fn what_is_left_out_is_what_is_worked_on(
    input: JsonView,
    context: WorkingStateView,
    s: Seq<char>,
    t: Seq<char>,
)
    ensures
        input.get("path"@) is None
            && context.current_file is Some
            ==> tool_call("read_file"@, input, context)
            == done(Capability::FileOp(FileOp::ReadFile { path: context.current_file->Some_0 })),
        input.get("path"@) is None
            && context.current_file is None
            ==> tool_call("read_file"@, input, context) is Err,
        input.get("path"@) is None
            && context.current_file is Some
            ==> tool_call("delete_file"@, input, context)
            == done(Capability::StorageOp(StorageOp::DeleteFile { path: context.current_file->Some_0 })),
        input.get("path"@) is None
            && context.current_file is None
            ==> tool_call("delete_file"@, input, context) is Err,
        input.get("path"@) is None
            && context.current_folder is Some
            ==> tool_call("list_folder"@, input, context)
            == done(Capability::StorageQuery(StorageQuery::ListFolder { path: context.current_folder->Some_0 })),
        input.get("path"@) is None
            && context.current_folder is None
            ==> tool_call("list_folder"@, input, context) is Err,
        input.get("from"@) is None
            && input.get("to"@) == Some(JsonView::Text(t))
            && context.current_file is Some
            ==> tool_call("move_or_rename"@, input, context)
            == done(Capability::StorageOp(StorageOp::MoveOrRename { from: context.current_file->Some_0, to: t })),
        input.get("from"@) is None
            && input.get("to"@) == Some(JsonView::Text(t))
            && context.current_file is None
            ==> tool_call("move_or_rename"@, input, context) is Err,
        input.get("arg"@) is None
            && input.get("app"@) == Some(JsonView::Text(s))
            && context.current_folder is Some
            ==> tool_call("launch_app_with_arg"@, input, context)
            == done(Capability::LaunchAppWithArg { app: s, arg: context.current_folder->Some_0 }),
        input.get("arg"@) is None
            && input.get("app"@) == Some(JsonView::Text(s))
            && context.current_folder is None
            ==> tool_call("launch_app_with_arg"@, input, context) is Err,
{
    tool_names_differ();
}

/// A call is refused where a field is missing that the tool declares as required,
/// but for what an application is opened with, which the present folder stands
/// in for, and for the number of the largest files, which is ten then.
pub proof fn a_required_field_is_required(
    i: int,
    k: int,
    input: JsonView,
    context: WorkingStateView,
    field: Seq<char>,
)
    requires
        0 <= i < tool_table().len(),
        0 <= k < required_fields(tool_table()[i]).len(),
        required_fields(tool_table()[i])[k] == JsonView::Text(field),
        field != "arg"@,
        field != "top_n"@,
        input.get(field) is None,
    ensures
        tool_call(tool_table()[i].name, input, context) is Err,
{
    tool_names_differ();
    let none = Seq::<Seq<char>>::empty();
    if i == 0 {
        a_schema_declares_what_it_is_made_of(
            seq![("name"@, described("string"@, "The application's name, e.g. \"VS Code\", \"Chrome\"."@))],
            seq!["name"@],
            none,
        );
        assert(text_array(seq!["name"@])->Array_0[0] == JsonView::Text("name"@));
        assert(text_array(seq!["name"@])->Array_0.len() == 1);
        assert(tool_table()[0] == launch_or_focus_app_tool());
    }
    if i == 1 {
        a_schema_declares_what_it_is_made_of(
            seq![("app"@, described("string"@, "The application's name, e.g. \"VS Code\"."@)), ("arg"@, described("string"@, "The file/folder/project path to open with it."@))],
            seq!["app"@, "arg"@],
            none,
        );
        assert(text_array(seq!["app"@, "arg"@])->Array_0[0] == JsonView::Text("app"@));
        assert(text_array(seq!["app"@, "arg"@])->Array_0[1] == JsonView::Text("arg"@));
        assert(text_array(seq!["app"@, "arg"@])->Array_0.len() == 2);
        assert(tool_table()[1] == launch_app_with_arg_tool());
    }
    if i == 2 {
        a_schema_declares_what_it_is_made_of(
            seq![("target"@, described("string"@, "A file path, folder path, or URL."@))],
            seq!["target"@],
            none,
        );
        assert(text_array(seq!["target"@])->Array_0[0] == JsonView::Text("target"@));
        assert(text_array(seq!["target"@])->Array_0.len() == 1);
        assert(tool_table()[2] == open_path_tool());
    }
    if i == 3 {
        a_schema_declares_what_it_is_made_of(
            seq![("op"@, one_of(seq!["minimize"@, "maximize"@, "close"@, "focus"@])), ("target"@, described("string"@, "Window title substring. Omit to act on the currently focused window."@))],
            seq!["op"@],
            none,
        );
        assert(text_array(seq!["op"@])->Array_0[0] == JsonView::Text("op"@));
        assert(text_array(seq!["op"@])->Array_0.len() == 1);
        assert(tool_table()[3] == window_op_tool());
    }
    if i == 4 {
        a_schema_declares_what_it_is_made_of(
            seq![("kind"@, one_of(seq!["list_open"@, "get_active"@]))],
            seq!["kind"@],
            none,
        );
        assert(text_array(seq!["kind"@])->Array_0[0] == JsonView::Text("kind"@));
        assert(text_array(seq!["kind"@])->Array_0.len() == 1);
        assert(tool_table()[4] == window_query_tool());
    }
    if i == 5 {
        a_schema_declares_what_it_is_made_of(
            seq![("kind"@, one_of(seq!["time"@, "battery"@, "cpu"@, "memory"@, "volume"@, "disk_space"@, "uptime"@]))],
            seq!["kind"@],
            none,
        );
        assert(text_array(seq!["kind"@])->Array_0[0] == JsonView::Text("kind"@));
        assert(text_array(seq!["kind"@])->Array_0.len() == 1);
        assert(tool_table()[5] == system_info_tool());
    }
    if i == 6 {
        a_schema_declares_what_it_is_made_of(
            seq![("kind"@, one_of(seq!["list"@, "find_by_name"@])), ("name"@, described("string"@, "Required only when kind is \"find_by_name\"."@))],
            seq!["kind"@],
            none,
        );
        assert(text_array(seq!["kind"@])->Array_0[0] == JsonView::Text("kind"@));
        assert(text_array(seq!["kind"@])->Array_0.len() == 1);
        assert(tool_table()[6] == process_query_tool());
    }
    if i == 7 {
        a_schema_declares_what_it_is_made_of(
            seq![("pid"@, typed("integer"@)), ("name"@, typed("string"@))],
            none,
            none,
        );
        assert(tool_table()[7] == kill_process_tool());
        assert(required_fields(kill_process_tool()).len() == 0);
    }
    if i == 8 {
        a_schema_declares_what_it_is_made_of(
            seq![("kind"@, one_of(seq!["status"@, "ping"@, "listening_ports"@])), ("host"@, described("string"@, "Required only when kind is \"ping\"."@))],
            seq!["kind"@],
            none,
        );
        assert(text_array(seq!["kind"@])->Array_0[0] == JsonView::Text("kind"@));
        assert(text_array(seq!["kind"@])->Array_0.len() == 1);
        assert(tool_table()[8] == network_query_tool());
    }
    if i == 9 {
        a_schema_declares_what_it_is_made_of(
            seq![("op"@, one_of(seq!["up"@, "down"@, "mute"@, "unmute"@, "set"@])), ("percent"@, described("integer"@, "Required only when op is \"set\" — target volume 0-100."@))],
            seq!["op"@],
            none,
        );
        assert(text_array(seq!["op"@])->Array_0[0] == JsonView::Text("op"@));
        assert(text_array(seq!["op"@])->Array_0.len() == 1);
        assert(tool_table()[9] == volume_op_tool());
    }
    if i == 10 {
        a_schema_declares_what_it_is_made_of(
            seq![("op"@, one_of(seq!["read"@, "write"@])), ("text"@, described("string"@, "Required only when op is \"write\"."@))],
            seq!["op"@],
            none,
        );
        assert(text_array(seq!["op"@])->Array_0[0] == JsonView::Text("op"@));
        assert(text_array(seq!["op"@])->Array_0.len() == 1);
        assert(tool_table()[10] == clipboard_op_tool());
    }
    if i == 11 {
        a_schema_declares_what_it_is_made_of(
            Seq::empty(),
            none,
            none,
        );
        assert(tool_table()[11] == capture_screen_tool());
        assert(required_fields(capture_screen_tool()).len() == 0);
    }
    if i == 12 {
        a_schema_declares_what_it_is_made_of(
            seq![("query"@, typed("string"@))],
            seq!["query"@],
            none,
        );
        assert(text_array(seq!["query"@])->Array_0[0] == JsonView::Text("query"@));
        assert(text_array(seq!["query"@])->Array_0.len() == 1);
        assert(tool_table()[12] == search_knowledge_base_tool());
    }
    if i == 13 {
        a_schema_declares_what_it_is_made_of(
            seq![("path"@, typed("string"@))],
            seq!["path"@],
            none,
        );
        assert(text_array(seq!["path"@])->Array_0[0] == JsonView::Text("path"@));
        assert(text_array(seq!["path"@])->Array_0.len() == 1);
        assert(tool_table()[13] == create_folder_tool());
    }
    if i == 14 {
        a_schema_declares_what_it_is_made_of(
            seq![("path"@, typed("string"@)), ("content"@, described("string"@, "Optional initial text content."@))],
            seq!["path"@],
            none,
        );
        assert(text_array(seq!["path"@])->Array_0[0] == JsonView::Text("path"@));
        assert(text_array(seq!["path"@])->Array_0.len() == 1);
        assert(tool_table()[14] == create_file_tool());
    }
    if i == 15 {
        a_schema_declares_what_it_is_made_of(
            seq![("path"@, described("string"@, "Omit to write to the current file being worked on, if any."@)), ("content"@, typed("string"@)), ("append"@, described("boolean"@, "true to append instead of overwrite. Defaults to false."@))],
            seq!["content"@],
            none,
        );
        assert(text_array(seq!["content"@])->Array_0[0] == JsonView::Text("content"@));
        assert(text_array(seq!["content"@])->Array_0.len() == 1);
        assert(tool_table()[15] == write_file_tool());
    }
    if i == 16 {
        a_schema_declares_what_it_is_made_of(
            seq![("path"@, described("string"@, "Omit to read the current file being worked on, if any."@))],
            none,
            none,
        );
        assert(tool_table()[16] == read_file_tool());
        assert(required_fields(read_file_tool()).len() == 0);
    }
    if i == 17 {
        a_schema_declares_what_it_is_made_of(
            seq![("path"@, described("string"@, "Omit to list the current folder being worked on, if any."@))],
            none,
            none,
        );
        assert(tool_table()[17] == list_folder_tool());
        assert(required_fields(list_folder_tool()).len() == 0);
    }
    if i == 18 {
        a_schema_declares_what_it_is_made_of(
            seq![("root"@, described("string"@, "Folder to search under, e.g. \"C:\\\\Users\\\\me\"."@)), ("query"@, described("string"@, "Substring to match against file names."@)), ("max_results"@, typed("integer"@))],
            seq!["root"@, "query"@],
            none,
        );
        assert(text_array(seq!["root"@, "query"@])->Array_0[0] == JsonView::Text("root"@));
        assert(text_array(seq!["root"@, "query"@])->Array_0[1] == JsonView::Text("query"@));
        assert(text_array(seq!["root"@, "query"@])->Array_0.len() == 2);
        assert(tool_table()[18] == search_files_tool());
    }
    if i == 19 {
        a_schema_declares_what_it_is_made_of(
            seq![("root"@, described("string"@, "Folder or drive root to scan, e.g. \"C:\\\\\"."@)), ("top_n"@, described("integer"@, "How many results to return, e.g. 10."@))],
            seq!["root"@, "top_n"@],
            none,
        );
        assert(text_array(seq!["root"@, "top_n"@])->Array_0[0] == JsonView::Text("root"@));
        assert(text_array(seq!["root"@, "top_n"@])->Array_0[1] == JsonView::Text("top_n"@));
        assert(text_array(seq!["root"@, "top_n"@])->Array_0.len() == 2);
        assert(tool_table()[19] == largest_files_tool());
    }
    if i == 20 {
        a_schema_declares_what_it_is_made_of(
            seq![("drive"@, described("string"@, "e.g. \"C:\". Omit for the C: drive."@))],
            none,
            none,
        );
        assert(tool_table()[20] == disk_usage_tool());
        assert(required_fields(disk_usage_tool()).len() == 0);
    }
    if i == 21 {
        a_schema_declares_what_it_is_made_of(
            seq![("path"@, described("string"@, "Omit to delete the current file being worked on, if any."@))],
            none,
            none,
        );
        assert(tool_table()[21] == delete_file_tool());
        assert(required_fields(delete_file_tool()).len() == 0);
    }
    if i == 22 {
        a_schema_declares_what_it_is_made_of(
            seq![("command"@, typed("string"@)), ("working_dir"@, typed("string"@))],
            seq!["command"@],
            none,
        );
        assert(text_array(seq!["command"@])->Array_0[0] == JsonView::Text("command"@));
        assert(text_array(seq!["command"@])->Array_0.len() == 1);
        assert(tool_table()[22] == run_terminal_command_tool());
    }
    if i == 23 {
        a_schema_declares_what_it_is_made_of(
            seq![("from"@, described("string"@, "Omit to move the current file being worked on, if any."@)), ("to"@, typed("string"@))],
            seq!["to"@],
            none,
        );
        assert(text_array(seq!["to"@])->Array_0[0] == JsonView::Text("to"@));
        assert(text_array(seq!["to"@])->Array_0.len() == 1);
        assert(tool_table()[23] == move_or_rename_tool());
    }
}

/// Where a tool declares which values a field can have, those are taken and no
/// others.
pub proof fn the_values_taken_are_those_declared(
    input: JsonView,
    context: WorkingStateView,
    value: Seq<char>,
    other: Seq<char>,
    n: u64,
)
    requires
        input.get("name"@) == Some(JsonView::Text(other)),
        input.get("host"@) == Some(JsonView::Text(other)),
        input.get("text"@) == Some(JsonView::Text(other)),
        input.get("percent"@) == Some(JsonView::Number(JsonNumberView::Unsigned(n))),
    ensures
        input.get("kind"@) == Some(JsonView::Text(value)) ==> (tool_call(
            "window_query"@,
            input,
            context,
        ) is Ok <==> declared_values(window_query_tool(), "kind"@).contains(JsonView::Text(value))),
        input.get("op"@) == Some(JsonView::Text(value)) ==> (tool_call(
            "window_op"@,
            input,
            context,
        ) is Ok <==> declared_values(window_op_tool(), "op"@).contains(JsonView::Text(value))),
        input.get("kind"@) == Some(JsonView::Text(value)) ==> (tool_call(
            "system_info"@,
            input,
            context,
        ) is Ok <==> declared_values(system_info_tool(), "kind"@).contains(JsonView::Text(value))),
        input.get("kind"@) == Some(JsonView::Text(value)) ==> (tool_call(
            "process_query"@,
            input,
            context,
        ) is Ok <==> declared_values(process_query_tool(), "kind"@).contains(JsonView::Text(value))),
        input.get("kind"@) == Some(JsonView::Text(value)) ==> (tool_call(
            "network_query"@,
            input,
            context,
        ) is Ok <==> declared_values(network_query_tool(), "kind"@).contains(JsonView::Text(value))),
        input.get("op"@) == Some(JsonView::Text(value)) ==> (tool_call(
            "volume_op"@,
            input,
            context,
        ) is Ok <==> declared_values(volume_op_tool(), "op"@).contains(JsonView::Text(value))),
        input.get("op"@) == Some(JsonView::Text(value)) ==> (tool_call(
            "clipboard_op"@,
            input,
            context,
        ) is Ok <==> declared_values(clipboard_op_tool(), "op"@).contains(JsonView::Text(value))),
{
    tool_names_differ();
    values_differ();
    {
        let props: Seq<(Seq<char>, JsonView)> = seq![("kind"@, one_of(seq!["list_open"@, "get_active"@]))];
        let values = seq!["list_open"@, "get_active"@];
        a_schema_declares_what_it_is_made_of(props, seq!["kind"@], values);
        members_are_found_by_key(props, "kind"@, 0);
        let declared = declared_values(window_query_tool(), "kind"@);
        assert(declared == text_array(values)->Array_0);
        assert(declared[0] == JsonView::Text("list_open"@));
        assert(declared[1] == JsonView::Text("get_active"@));
        assert(declared.len() == 2);
    }
    {
        let props: Seq<(Seq<char>, JsonView)> = seq![("op"@, one_of(seq!["minimize"@, "maximize"@, "close"@, "focus"@])), ("target"@, described("string"@, "Window title substring. Omit to act on the currently focused window."@))];
        let values = seq!["minimize"@, "maximize"@, "close"@, "focus"@];
        a_schema_declares_what_it_is_made_of(props, seq!["op"@], values);
        members_are_found_by_key(props, "op"@, 0);
        let declared = declared_values(window_op_tool(), "op"@);
        assert(declared == text_array(values)->Array_0);
        assert(declared[0] == JsonView::Text("minimize"@));
        assert(declared[1] == JsonView::Text("maximize"@));
        assert(declared[2] == JsonView::Text("close"@));
        assert(declared[3] == JsonView::Text("focus"@));
        assert(declared.len() == 4);
    }
    {
        let props: Seq<(Seq<char>, JsonView)> = seq![("kind"@, one_of(seq!["time"@, "battery"@, "cpu"@, "memory"@, "volume"@, "disk_space"@, "uptime"@]))];
        let values = seq!["time"@, "battery"@, "cpu"@, "memory"@, "volume"@, "disk_space"@, "uptime"@];
        a_schema_declares_what_it_is_made_of(props, seq!["kind"@], values);
        members_are_found_by_key(props, "kind"@, 0);
        let declared = declared_values(system_info_tool(), "kind"@);
        assert(declared == text_array(values)->Array_0);
        assert(declared[0] == JsonView::Text("time"@));
        assert(declared[1] == JsonView::Text("battery"@));
        assert(declared[2] == JsonView::Text("cpu"@));
        assert(declared[3] == JsonView::Text("memory"@));
        assert(declared[4] == JsonView::Text("volume"@));
        assert(declared[5] == JsonView::Text("disk_space"@));
        assert(declared[6] == JsonView::Text("uptime"@));
        assert(declared.len() == 7);
    }
    {
        let props: Seq<(Seq<char>, JsonView)> = seq![("kind"@, one_of(seq!["list"@, "find_by_name"@])), ("name"@, described("string"@, "Required only when kind is \"find_by_name\"."@))];
        let values = seq!["list"@, "find_by_name"@];
        a_schema_declares_what_it_is_made_of(props, seq!["kind"@], values);
        members_are_found_by_key(props, "kind"@, 0);
        let declared = declared_values(process_query_tool(), "kind"@);
        assert(declared == text_array(values)->Array_0);
        assert(declared[0] == JsonView::Text("list"@));
        assert(declared[1] == JsonView::Text("find_by_name"@));
        assert(declared.len() == 2);
    }
    {
        let props: Seq<(Seq<char>, JsonView)> = seq![("kind"@, one_of(seq!["status"@, "ping"@, "listening_ports"@])), ("host"@, described("string"@, "Required only when kind is \"ping\"."@))];
        let values = seq!["status"@, "ping"@, "listening_ports"@];
        a_schema_declares_what_it_is_made_of(props, seq!["kind"@], values);
        members_are_found_by_key(props, "kind"@, 0);
        let declared = declared_values(network_query_tool(), "kind"@);
        assert(declared == text_array(values)->Array_0);
        assert(declared[0] == JsonView::Text("status"@));
        assert(declared[1] == JsonView::Text("ping"@));
        assert(declared[2] == JsonView::Text("listening_ports"@));
        assert(declared.len() == 3);
    }
    {
        let props: Seq<(Seq<char>, JsonView)> = seq![("op"@, one_of(seq!["up"@, "down"@, "mute"@, "unmute"@, "set"@])), ("percent"@, described("integer"@, "Required only when op is \"set\" — target volume 0-100."@))];
        let values = seq!["up"@, "down"@, "mute"@, "unmute"@, "set"@];
        a_schema_declares_what_it_is_made_of(props, seq!["op"@], values);
        members_are_found_by_key(props, "op"@, 0);
        let declared = declared_values(volume_op_tool(), "op"@);
        assert(declared == text_array(values)->Array_0);
        assert(declared[0] == JsonView::Text("up"@));
        assert(declared[1] == JsonView::Text("down"@));
        assert(declared[2] == JsonView::Text("mute"@));
        assert(declared[3] == JsonView::Text("unmute"@));
        assert(declared[4] == JsonView::Text("set"@));
        assert(declared.len() == 5);
    }
    {
        let props: Seq<(Seq<char>, JsonView)> = seq![("op"@, one_of(seq!["read"@, "write"@])), ("text"@, described("string"@, "Required only when op is \"write\"."@))];
        let values = seq!["read"@, "write"@];
        a_schema_declares_what_it_is_made_of(props, seq!["op"@], values);
        members_are_found_by_key(props, "op"@, 0);
        let declared = declared_values(clipboard_op_tool(), "op"@);
        assert(declared == text_array(values)->Array_0);
        assert(declared[0] == JsonView::Text("read"@));
        assert(declared[1] == JsonView::Text("write"@));
        assert(declared.len() == 2);
    }
}

/// The user is told what goes on in plain words, each kind of call in its own, and
/// what is opened by its name.
pub proof fn the_user_is_told_what_goes_on(input: JsonView, what: Seq<char>)
    ensures
        input.get("name"@) == Some(JsonView::Text(what)) ==> progress("launch_or_focus_app"@, input)
            == "Opening "@ + what + "..."@,
        input.get("app"@) == Some(JsonView::Text(what)) ==> progress("launch_app_with_arg"@, input)
            == "Opening "@ + what + "..."@,
        input.get("target"@) == Some(JsonView::Text(what)) ==> progress("open_path"@, input)
            == "Opening "@ + what + "..."@,
        progress("window_op"@, input) == "Adjusting the window..."@,
        progress("window_query"@, input) == "Checking your windows..."@,
        progress("system_info"@, input) == "Checking that..."@,
        progress("process_query"@, input) == "Checking running processes..."@,
        progress("kill_process"@, input) == "Preparing to end that process..."@,
        progress("network_query"@, input) == "Checking the network..."@,
        progress("volume_op"@, input) == "Adjusting the volume..."@,
        progress("clipboard_op"@, input) == "Working with the clipboard..."@,
        progress("capture_screen"@, input) == "Looking at your screen..."@,
        progress("search_knowledge_base"@, input) == "Checking your documents..."@,
        progress("create_folder"@, input) == "Creating a folder..."@,
        progress("create_file"@, input) == "Creating a file..."@,
        progress("write_file"@, input) == "Writing that down..."@,
        progress("read_file"@, input) == "Reading that file..."@,
        progress("list_folder"@, input) == "Looking at that folder..."@,
        progress("search_files"@, input) == "Searching for that..."@,
        progress("largest_files"@, input) == "Checking what's taking up space..."@,
        progress("disk_usage"@, input) == "Checking disk space..."@,
        progress("delete_file"@, input) == "Preparing to delete that..."@,
        progress("move_or_rename"@, input) == "Preparing to move that..."@,
        progress("run_terminal_command"@, input) == "Running a command..."@,
{
    tool_names_differ();
}

} // verus!
