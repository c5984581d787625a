//! The tools that a model is offered: name, description and the JSON schema
//! of the arguments.
use vstd::prelude::*;
use vstd::string::*;

use crate::json::{
    array_view, distinct_keys_are_all_found, entry_views, json_views, members_are_found_by_key,
    object_view, Json, JsonView,
};

verus! {

/// One tool, as every provider is told of it.
#[derive(Debug)]
pub struct ToolSpec {
    pub name: &'static str,
    pub description: &'static str,
    /// A JSON schema of an object: the tool's arguments.
    pub parameters: Json,
}

/// The view of a tool.
pub struct ToolView {
    pub name: Seq<char>,
    pub description: Seq<char>,
    pub parameters: JsonView,
}

impl ToolSpec {
    pub open spec fn view(&self) -> ToolView {
        ToolView {
            name: self.name@,
            description: self.description@,
            parameters: self.parameters@,
        }
    }
}

/// The views of a sequence of tools.
pub open spec fn tool_views(tools: Seq<ToolSpec>) -> Seq<ToolView> {
    tools.map_values(|t: ToolSpec| t@)
}

/// The views of a sequence of texts.
pub open spec fn str_views(texts: Seq<&'static str>) -> Seq<Seq<char>> {
    texts.map_values(|t: &'static str| t@)
}

/// The views of named properties.
pub open spec fn prop_views(props: Seq<(&'static str, Json)>) -> Seq<(Seq<char>, JsonView)> {
    props.map_values(|p: (&'static str, Json)| (p.0@, p.1@))
}

/// Texts as a JSON array.
pub open spec fn text_array(texts: Seq<Seq<char>>) -> JsonView {
    JsonView::Array(texts.map_values(|t: Seq<char>| JsonView::Text(t)))
}

/// The schema of a property of the given type.
pub open spec fn typed(ty: Seq<char>) -> JsonView {
    JsonView::Object(seq![("type"@, JsonView::Text(ty))])
}

/// The schema of a property of the given type, with a description.
pub open spec fn described(ty: Seq<char>, description: Seq<char>) -> JsonView {
    JsonView::Object(
        seq![("type"@, JsonView::Text(ty)), ("description"@, JsonView::Text(description))],
    )
}

/// The schema of a text out of a closed list.
pub open spec fn one_of(values: Seq<Seq<char>>) -> JsonView {
    JsonView::Object(seq![("type"@, JsonView::Text("string"@)), ("enum"@, text_array(values))])
}

/// The schema of an object with the given properties. The required ones are
/// listed where there are any.
pub open spec fn schema(
    props: Seq<(Seq<char>, JsonView)>,
    required: Seq<Seq<char>>,
) -> JsonView {
    let fields = seq![("type"@, JsonView::Text("object"@)), ("properties"@, JsonView::Object(props))];
    if required.len() == 0 {
        JsonView::Object(fields)
    } else {
        JsonView::Object(fields.push(("required"@, text_array(required))))
    }
}

/// A text as a JSON value.
fn text_json(s: &str) -> (r: Json)
    ensures
        r@ == JsonView::Text(s@),
{
    Json::Text(s.to_owned())
}

fn text_array_json(texts: Vec<&'static str>) -> (r: Json)
    ensures
        r@ == text_array(str_views(texts@)),
{
    let mut out: Vec<Json> = Vec::new();
    let mut i: usize = 0;
    while i < texts.len()
        invariant
            i <= texts@.len(),
            out@.len() == i,
            forall|j: int| 0 <= j < i ==> (#[trigger] out@[j])@ == JsonView::Text(texts@[j]@),
        decreases texts@.len() - i,
    {
        out.push(text_json(texts[i]));
        i += 1;
    }
    proof {
        array_view(out);
        assert(json_views(out@) =~= text_array(str_views(texts@))->Array_0);
    }
    Json::Array(out)
}

fn typed_json(ty: &str) -> (r: Json)
    ensures
        r@ == typed(ty@),
{
    let entries: Vec<(String, Json)> = vec![("type".to_owned(), text_json(ty))];
    proof {
        object_view(entries);
        assert(entry_views(entries@) =~= typed(ty@)->Object_0);
    }
    Json::Object(entries)
}

fn described_json(ty: &str, description: &str) -> (r: Json)
    ensures
        r@ == described(ty@, description@),
{
    let entries: Vec<(String, Json)> = vec![
        ("type".to_owned(), text_json(ty)),
        ("description".to_owned(), text_json(description)),
    ];
    proof {
        object_view(entries);
        assert(entry_views(entries@) =~= described(ty@, description@)->Object_0);
    }
    Json::Object(entries)
}

fn one_of_json(values: Vec<&'static str>) -> (r: Json)
    ensures
        r@ == one_of(str_views(values@)),
{
    let ghost all = str_views(values@);
    let entries: Vec<(String, Json)> = vec![
        ("type".to_owned(), text_json("string")),
        ("enum".to_owned(), text_array_json(values)),
    ];
    proof {
        object_view(entries);
        assert(entry_views(entries@) =~= one_of(all)->Object_0);
    }
    Json::Object(entries)
}

fn props_json(props: Vec<(&'static str, Json)>) -> (r: Json)
    ensures
        r@ == JsonView::Object(prop_views(props@)),
{
    let mut out: Vec<(String, Json)> = Vec::new();
    let mut i: usize = 0;
    while i < props.len()
        invariant
            i <= props@.len(),
            out@.len() == i,
            forall|j: int|
                0 <= j < i ==> (#[trigger] out@[j]).0@ == props@[j].0@ && out@[j].1@
                    == props@[j].1@,
        decreases props@.len() - i,
    {
        out.push((props[i].0.to_owned(), props[i].1.copy()));
        i += 1;
    }
    proof {
        object_view(out);
        assert(entry_views(out@) =~= prop_views(props@));
    }
    Json::Object(out)
}

fn schema_json(props: Vec<(&'static str, Json)>, required: Vec<&'static str>) -> (r: Json)
    ensures
        r@ == schema(prop_views(props@), str_views(required@)),
{
    let ghost all_props = prop_views(props@);
    let ghost all_required = str_views(required@);
    let no_required: bool = required.len() == 0;
    let mut entries: Vec<(String, Json)> = vec![
        ("type".to_owned(), text_json("object")),
        ("properties".to_owned(), props_json(props)),
    ];
    if !no_required {
        entries.push(("required".to_owned(), text_array_json(required)));
    }
    proof {
        object_view(entries);
        assert(entry_views(entries@) =~= schema(all_props, all_required)->Object_0);
    }
    Json::Object(entries)
}

/// The tool `launch_or_focus_app`.
pub open spec fn launch_or_focus_app_tool() -> ToolView {
    ToolView {
        name: "launch_or_focus_app"@,
        description: "Launch an application by name, or bring it to the foreground if it's already running."@,
        parameters: schema(seq![("name"@, described("string"@, "The application's name, e.g. \"VS Code\", \"Chrome\"."@))], seq!["name"@]),
    }
}

fn launch_or_focus_app_spec() -> (r: ToolSpec)
    ensures
        r@ == launch_or_focus_app_tool(),
{
    let props: Vec<(&'static str, Json)> = vec![("name", described_json("string", "The application's name, e.g. \"VS Code\", \"Chrome\"."))];
    let required: Vec<&'static str> = vec!["name"];
    proof {
        assert(prop_views(props@) =~= seq![("name"@, described("string"@, "The application's name, e.g. \"VS Code\", \"Chrome\"."@))]);
        assert(str_views(required@) =~= seq!["name"@]);
    }
    ToolSpec {
        name: "launch_or_focus_app",
        description: "Launch an application by name, or bring it to the foreground if it's already running.",
        parameters: schema_json(props, required),
    }
}

/// The tool `launch_app_with_arg`.
pub open spec fn launch_app_with_arg_tool() -> ToolView {
    ToolView {
        name: "launch_app_with_arg"@,
        description: "Launch (or focus) an application AND open a specific file/folder/project with it in one step, e.g. \"open VS Code and open my security project\"."@,
        parameters: schema(seq![("app"@, described("string"@, "The application's name, e.g. \"VS Code\"."@)), ("arg"@, described("string"@, "The file/folder/project path to open with it."@))], seq!["app"@, "arg"@]),
    }
}

fn launch_app_with_arg_spec() -> (r: ToolSpec)
    ensures
        r@ == launch_app_with_arg_tool(),
{
    let props: Vec<(&'static str, Json)> = vec![("app", described_json("string", "The application's name, e.g. \"VS Code\".")), ("arg", described_json("string", "The file/folder/project path to open with it."))];
    let required: Vec<&'static str> = vec!["app", "arg"];
    proof {
        assert(prop_views(props@) =~= seq![("app"@, described("string"@, "The application's name, e.g. \"VS Code\"."@)), ("arg"@, described("string"@, "The file/folder/project path to open with it."@))]);
        assert(str_views(required@) =~= seq!["app"@, "arg"@]);
    }
    ToolSpec {
        name: "launch_app_with_arg",
        description: "Launch (or focus) an application AND open a specific file/folder/project with it in one step, e.g. \"open VS Code and open my security project\".",
        parameters: schema_json(props, required),
    }
}

/// The tool `open_path`.
pub open spec fn open_path_tool() -> ToolView {
    ToolView {
        name: "open_path"@,
        description: "Open a file, folder, or URL with its OS-default handler."@,
        parameters: schema(seq![("target"@, described("string"@, "A file path, folder path, or URL."@))], seq!["target"@]),
    }
}

fn open_path_spec() -> (r: ToolSpec)
    ensures
        r@ == open_path_tool(),
{
    let props: Vec<(&'static str, Json)> = vec![("target", described_json("string", "A file path, folder path, or URL."))];
    let required: Vec<&'static str> = vec!["target"];
    proof {
        assert(prop_views(props@) =~= seq![("target"@, described("string"@, "A file path, folder path, or URL."@))]);
        assert(str_views(required@) =~= seq!["target"@]);
    }
    ToolSpec {
        name: "open_path",
        description: "Open a file, folder, or URL with its OS-default handler.",
        parameters: schema_json(props, required),
    }
}

/// The tool `window_op`.
pub open spec fn window_op_tool() -> ToolView {
    ToolView {
        name: "window_op"@,
        description: "Minimize, maximize, close, or focus a window."@,
        parameters: schema(seq![("op"@, one_of(seq!["minimize"@, "maximize"@, "close"@, "focus"@])), ("target"@, described("string"@, "Window title substring. Omit to act on the currently focused window."@))], seq!["op"@]),
    }
}

fn window_op_spec() -> (r: ToolSpec)
    ensures
        r@ == window_op_tool(),
{
    let values: Vec<&'static str> = vec!["minimize", "maximize", "close", "focus"];
    proof {
        assert(str_views(values@) =~= seq!["minimize"@, "maximize"@, "close"@, "focus"@]);
    }
    let props: Vec<(&'static str, Json)> = vec![("op", one_of_json(values)), ("target", described_json("string", "Window title substring. Omit to act on the currently focused window."))];
    let required: Vec<&'static str> = vec!["op"];
    proof {
        assert(prop_views(props@) =~= seq![("op"@, one_of(seq!["minimize"@, "maximize"@, "close"@, "focus"@])), ("target"@, described("string"@, "Window title substring. Omit to act on the currently focused window."@))]);
        assert(str_views(required@) =~= seq!["op"@]);
    }
    ToolSpec {
        name: "window_op",
        description: "Minimize, maximize, close, or focus a window.",
        parameters: schema_json(props, required),
    }
}

/// The tool `window_query`.
pub open spec fn window_query_tool() -> ToolView {
    ToolView {
        name: "window_query"@,
        description: "List every open window, or check which window is currently focused."@,
        parameters: schema(seq![("kind"@, one_of(seq!["list_open"@, "get_active"@]))], seq!["kind"@]),
    }
}

fn window_query_spec() -> (r: ToolSpec)
    ensures
        r@ == window_query_tool(),
{
    let values: Vec<&'static str> = vec!["list_open", "get_active"];
    proof {
        assert(str_views(values@) =~= seq!["list_open"@, "get_active"@]);
    }
    let props: Vec<(&'static str, Json)> = vec![("kind", one_of_json(values))];
    let required: Vec<&'static str> = vec!["kind"];
    proof {
        assert(prop_views(props@) =~= seq![("kind"@, one_of(seq!["list_open"@, "get_active"@]))]);
        assert(str_views(required@) =~= seq!["kind"@]);
    }
    ToolSpec {
        name: "window_query",
        description: "List every open window, or check which window is currently focused.",
        parameters: schema_json(props, required),
    }
}

/// The tool `system_info`.
pub open spec fn system_info_tool() -> ToolView {
    ToolView {
        name: "system_info"@,
        description: "Read a live system value: the time, battery level, CPU usage, memory usage, current volume, disk space, or uptime."@,
        parameters: schema(seq![("kind"@, one_of(seq!["time"@, "battery"@, "cpu"@, "memory"@, "volume"@, "disk_space"@, "uptime"@]))], seq!["kind"@]),
    }
}

fn system_info_spec() -> (r: ToolSpec)
    ensures
        r@ == system_info_tool(),
{
    let values: Vec<&'static str> = vec!["time", "battery", "cpu", "memory", "volume", "disk_space", "uptime"];
    proof {
        assert(str_views(values@) =~= seq!["time"@, "battery"@, "cpu"@, "memory"@, "volume"@, "disk_space"@, "uptime"@]);
    }
    let props: Vec<(&'static str, Json)> = vec![("kind", one_of_json(values))];
    let required: Vec<&'static str> = vec!["kind"];
    proof {
        assert(prop_views(props@) =~= seq![("kind"@, one_of(seq!["time"@, "battery"@, "cpu"@, "memory"@, "volume"@, "disk_space"@, "uptime"@]))]);
        assert(str_views(required@) =~= seq!["kind"@]);
    }
    ToolSpec {
        name: "system_info",
        description: "Read a live system value: the time, battery level, CPU usage, memory usage, current volume, disk space, or uptime.",
        parameters: schema_json(props, required),
    }
}

/// The tool `process_query`.
pub open spec fn process_query_tool() -> ToolView {
    ToolView {
        name: "process_query"@,
        description: "List running processes, or find one by name."@,
        parameters: schema(seq![("kind"@, one_of(seq!["list"@, "find_by_name"@])), ("name"@, described("string"@, "Required only when kind is \"find_by_name\"."@))], seq!["kind"@]),
    }
}

fn process_query_spec() -> (r: ToolSpec)
    ensures
        r@ == process_query_tool(),
{
    let values: Vec<&'static str> = vec!["list", "find_by_name"];
    proof {
        assert(str_views(values@) =~= seq!["list"@, "find_by_name"@]);
    }
    let props: Vec<(&'static str, Json)> = vec![("kind", one_of_json(values)), ("name", described_json("string", "Required only when kind is \"find_by_name\"."))];
    let required: Vec<&'static str> = vec!["kind"];
    proof {
        assert(prop_views(props@) =~= seq![("kind"@, one_of(seq!["list"@, "find_by_name"@])), ("name"@, described("string"@, "Required only when kind is \"find_by_name\"."@))]);
        assert(str_views(required@) =~= seq!["kind"@]);
    }
    ToolSpec {
        name: "process_query",
        description: "List running processes, or find one by name.",
        parameters: schema_json(props, required),
    }
}

/// The tool `kill_process`.
pub open spec fn kill_process_tool() -> ToolView {
    ToolView {
        name: "kill_process"@,
        description: "End a running process by pid or by name. This is a sensitive action and will require the user's confirmation before it actually runs."@,
        parameters: schema(seq![("pid"@, typed("integer"@)), ("name"@, typed("string"@))], Seq::empty()),
    }
}

fn kill_process_spec() -> (r: ToolSpec)
    ensures
        r@ == kill_process_tool(),
{
    let props: Vec<(&'static str, Json)> = vec![("pid", typed_json("integer")), ("name", typed_json("string"))];
    let required: Vec<&'static str> = Vec::new();
    proof {
        assert(prop_views(props@) =~= seq![("pid"@, typed("integer"@)), ("name"@, typed("string"@))]);
        assert(str_views(required@) =~= Seq::empty());
    }
    ToolSpec {
        name: "kill_process",
        description: "End a running process by pid or by name. This is a sensitive action and will require the user's confirmation before it actually runs.",
        parameters: schema_json(props, required),
    }
}

/// The tool `network_query`.
pub open spec fn network_query_tool() -> ToolView {
    ToolView {
        name: "network_query"@,
        description: "Check network adapter status, ping a host, or list locally listening ports."@,
        parameters: schema(seq![("kind"@, one_of(seq!["status"@, "ping"@, "listening_ports"@])), ("host"@, described("string"@, "Required only when kind is \"ping\"."@))], seq!["kind"@]),
    }
}

fn network_query_spec() -> (r: ToolSpec)
    ensures
        r@ == network_query_tool(),
{
    let values: Vec<&'static str> = vec!["status", "ping", "listening_ports"];
    proof {
        assert(str_views(values@) =~= seq!["status"@, "ping"@, "listening_ports"@]);
    }
    let props: Vec<(&'static str, Json)> = vec![("kind", one_of_json(values)), ("host", described_json("string", "Required only when kind is \"ping\"."))];
    let required: Vec<&'static str> = vec!["kind"];
    proof {
        assert(prop_views(props@) =~= seq![("kind"@, one_of(seq!["status"@, "ping"@, "listening_ports"@])), ("host"@, described("string"@, "Required only when kind is \"ping\"."@))]);
        assert(str_views(required@) =~= seq!["kind"@]);
    }
    ToolSpec {
        name: "network_query",
        description: "Check network adapter status, ping a host, or list locally listening ports.",
        parameters: schema_json(props, required),
    }
}

/// The tool `volume_op`.
pub open spec fn volume_op_tool() -> ToolView {
    ToolView {
        name: "volume_op"@,
        description: "Adjust the system output volume."@,
        parameters: schema(seq![("op"@, one_of(seq!["up"@, "down"@, "mute"@, "unmute"@, "set"@])), ("percent"@, described("integer"@, "Required only when op is \"set\" — target volume 0-100."@))], seq!["op"@]),
    }
}

fn volume_op_spec() -> (r: ToolSpec)
    ensures
        r@ == volume_op_tool(),
{
    let values: Vec<&'static str> = vec!["up", "down", "mute", "unmute", "set"];
    proof {
        assert(str_views(values@) =~= seq!["up"@, "down"@, "mute"@, "unmute"@, "set"@]);
    }
    let props: Vec<(&'static str, Json)> = vec![("op", one_of_json(values)), ("percent", described_json("integer", "Required only when op is \"set\" — target volume 0-100."))];
    let required: Vec<&'static str> = vec!["op"];
    proof {
        assert(prop_views(props@) =~= seq![("op"@, one_of(seq!["up"@, "down"@, "mute"@, "unmute"@, "set"@])), ("percent"@, described("integer"@, "Required only when op is \"set\" — target volume 0-100."@))]);
        assert(str_views(required@) =~= seq!["op"@]);
    }
    ToolSpec {
        name: "volume_op",
        description: "Adjust the system output volume.",
        parameters: schema_json(props, required),
    }
}

/// The tool `clipboard_op`.
pub open spec fn clipboard_op_tool() -> ToolView {
    ToolView {
        name: "clipboard_op"@,
        description: "Read the current clipboard text, or write new text to the clipboard."@,
        parameters: schema(seq![("op"@, one_of(seq!["read"@, "write"@])), ("text"@, described("string"@, "Required only when op is \"write\"."@))], seq!["op"@]),
    }
}

fn clipboard_op_spec() -> (r: ToolSpec)
    ensures
        r@ == clipboard_op_tool(),
{
    let values: Vec<&'static str> = vec!["read", "write"];
    proof {
        assert(str_views(values@) =~= seq!["read"@, "write"@]);
    }
    let props: Vec<(&'static str, Json)> = vec![("op", one_of_json(values)), ("text", described_json("string", "Required only when op is \"write\"."))];
    let required: Vec<&'static str> = vec!["op"];
    proof {
        assert(prop_views(props@) =~= seq![("op"@, one_of(seq!["read"@, "write"@])), ("text"@, described("string"@, "Required only when op is \"write\"."@))]);
        assert(str_views(required@) =~= seq!["op"@]);
    }
    ToolSpec {
        name: "clipboard_op",
        description: "Read the current clipboard text, or write new text to the clipboard.",
        parameters: schema_json(props, required),
    }
}

/// The tool `capture_screen`.
pub open spec fn capture_screen_tool() -> ToolView {
    ToolView {
        name: "capture_screen"@,
        description: "Capture a screenshot of the primary monitor to see what's currently displayed, so you can describe or reason about it."@,
        parameters: schema(Seq::empty(), Seq::empty()),
    }
}

fn capture_screen_spec() -> (r: ToolSpec)
    ensures
        r@ == capture_screen_tool(),
{
    let props: Vec<(&'static str, Json)> = Vec::new();
    let required: Vec<&'static str> = Vec::new();
    proof {
        assert(prop_views(props@) =~= Seq::empty());
        assert(str_views(required@) =~= Seq::empty());
    }
    ToolSpec {
        name: "capture_screen",
        description: "Capture a screenshot of the primary monitor to see what's currently displayed, so you can describe or reason about it.",
        parameters: schema_json(props, required),
    }
}

/// The tool `search_knowledge_base`.
pub open spec fn search_knowledge_base_tool() -> ToolView {
    ToolView {
        name: "search_knowledge_base"@,
        description: "Search the user's attached/uploaded documents (resume, notes, project files) for context relevant to a question. Only call this when the question genuinely needs the user's own personal/uploaded information — not for general knowledge questions or system commands."@,
        parameters: schema(seq![("query"@, typed("string"@))], seq!["query"@]),
    }
}

fn search_knowledge_base_spec() -> (r: ToolSpec)
    ensures
        r@ == search_knowledge_base_tool(),
{
    let props: Vec<(&'static str, Json)> = vec![("query", typed_json("string"))];
    let required: Vec<&'static str> = vec!["query"];
    proof {
        assert(prop_views(props@) =~= seq![("query"@, typed("string"@))]);
        assert(str_views(required@) =~= seq!["query"@]);
    }
    ToolSpec {
        name: "search_knowledge_base",
        description: "Search the user's attached/uploaded documents (resume, notes, project files) for context relevant to a question. Only call this when the question genuinely needs the user's own personal/uploaded information — not for general knowledge questions or system commands.",
        parameters: schema_json(props, required),
    }
}

/// The tool `create_folder`.
pub open spec fn create_folder_tool() -> ToolView {
    ToolView {
        name: "create_folder"@,
        description: "Create a new folder (and any missing parent folders) at the given path."@,
        parameters: schema(seq![("path"@, typed("string"@))], seq!["path"@]),
    }
}

fn create_folder_spec() -> (r: ToolSpec)
    ensures
        r@ == create_folder_tool(),
{
    let props: Vec<(&'static str, Json)> = vec![("path", typed_json("string"))];
    let required: Vec<&'static str> = vec!["path"];
    proof {
        assert(prop_views(props@) =~= seq![("path"@, typed("string"@))]);
        assert(str_views(required@) =~= seq!["path"@]);
    }
    ToolSpec {
        name: "create_folder",
        description: "Create a new folder (and any missing parent folders) at the given path.",
        parameters: schema_json(props, required),
    }
}

/// The tool `create_file`.
pub open spec fn create_file_tool() -> ToolView {
    ToolView {
        name: "create_file"@,
        description: "Create a new file at the given path, optionally with initial text content."@,
        parameters: schema(seq![("path"@, typed("string"@)), ("content"@, described("string"@, "Optional initial text content."@))], seq!["path"@]),
    }
}

fn create_file_spec() -> (r: ToolSpec)
    ensures
        r@ == create_file_tool(),
{
    let props: Vec<(&'static str, Json)> = vec![("path", typed_json("string")), ("content", described_json("string", "Optional initial text content."))];
    let required: Vec<&'static str> = vec!["path"];
    proof {
        assert(prop_views(props@) =~= seq![("path"@, typed("string"@)), ("content"@, described("string"@, "Optional initial text content."@))]);
        assert(str_views(required@) =~= seq!["path"@]);
    }
    ToolSpec {
        name: "create_file",
        description: "Create a new file at the given path, optionally with initial text content.",
        parameters: schema_json(props, required),
    }
}

/// The tool `write_file`.
pub open spec fn write_file_tool() -> ToolView {
    ToolView {
        name: "write_file"@,
        description: "Write (or append) text content to an existing or new file."@,
        parameters: schema(seq![("path"@, described("string"@, "Omit to write to the current file being worked on, if any."@)), ("content"@, typed("string"@)), ("append"@, described("boolean"@, "true to append instead of overwrite. Defaults to false."@))], seq!["content"@]),
    }
}

fn write_file_spec() -> (r: ToolSpec)
    ensures
        r@ == write_file_tool(),
{
    let props: Vec<(&'static str, Json)> = vec![("path", described_json("string", "Omit to write to the current file being worked on, if any.")), ("content", typed_json("string")), ("append", described_json("boolean", "true to append instead of overwrite. Defaults to false."))];
    let required: Vec<&'static str> = vec!["content"];
    proof {
        assert(prop_views(props@) =~= seq![("path"@, described("string"@, "Omit to write to the current file being worked on, if any."@)), ("content"@, typed("string"@)), ("append"@, described("boolean"@, "true to append instead of overwrite. Defaults to false."@))]);
        assert(str_views(required@) =~= seq!["content"@]);
    }
    ToolSpec {
        name: "write_file",
        description: "Write (or append) text content to an existing or new file.",
        parameters: schema_json(props, required),
    }
}

/// The tool `read_file`.
pub open spec fn read_file_tool() -> ToolView {
    ToolView {
        name: "read_file"@,
        description: "Read a text file's content."@,
        parameters: schema(seq![("path"@, described("string"@, "Omit to read the current file being worked on, if any."@))], Seq::empty()),
    }
}

fn read_file_spec() -> (r: ToolSpec)
    ensures
        r@ == read_file_tool(),
{
    let props: Vec<(&'static str, Json)> = vec![("path", described_json("string", "Omit to read the current file being worked on, if any."))];
    let required: Vec<&'static str> = Vec::new();
    proof {
        assert(prop_views(props@) =~= seq![("path"@, described("string"@, "Omit to read the current file being worked on, if any."@))]);
        assert(str_views(required@) =~= Seq::empty());
    }
    ToolSpec {
        name: "read_file",
        description: "Read a text file's content.",
        parameters: schema_json(props, required),
    }
}

/// The tool `list_folder`.
pub open spec fn list_folder_tool() -> ToolView {
    ToolView {
        name: "list_folder"@,
        description: "List the files and subfolders directly inside a folder."@,
        parameters: schema(seq![("path"@, described("string"@, "Omit to list the current folder being worked on, if any."@))], Seq::empty()),
    }
}

fn list_folder_spec() -> (r: ToolSpec)
    ensures
        r@ == list_folder_tool(),
{
    let props: Vec<(&'static str, Json)> = vec![("path", described_json("string", "Omit to list the current folder being worked on, if any."))];
    let required: Vec<&'static str> = Vec::new();
    proof {
        assert(prop_views(props@) =~= seq![("path"@, described("string"@, "Omit to list the current folder being worked on, if any."@))]);
        assert(str_views(required@) =~= Seq::empty());
    }
    ToolSpec {
        name: "list_folder",
        description: "List the files and subfolders directly inside a folder.",
        parameters: schema_json(props, required),
    }
}

/// The tool `search_files`.
pub open spec fn search_files_tool() -> ToolView {
    ToolView {
        name: "search_files"@,
        description: "Recursively search a folder tree for files whose name contains a query substring — use this to locate a project, a file, or code by name."@,
        parameters: schema(seq![("root"@, described("string"@, "Folder to search under, e.g. \"C:\\\\Users\\\\me\"."@)), ("query"@, described("string"@, "Substring to match against file names."@)), ("max_results"@, typed("integer"@))], seq!["root"@, "query"@]),
    }
}

fn search_files_spec() -> (r: ToolSpec)
    ensures
        r@ == search_files_tool(),
{
    let props: Vec<(&'static str, Json)> = vec![("root", described_json("string", "Folder to search under, e.g. \"C:\\\\Users\\\\me\".")), ("query", described_json("string", "Substring to match against file names.")), ("max_results", typed_json("integer"))];
    let required: Vec<&'static str> = vec!["root", "query"];
    proof {
        assert(prop_views(props@) =~= seq![("root"@, described("string"@, "Folder to search under, e.g. \"C:\\\\Users\\\\me\"."@)), ("query"@, described("string"@, "Substring to match against file names."@)), ("max_results"@, typed("integer"@))]);
        assert(str_views(required@) =~= seq!["root"@, "query"@]);
    }
    ToolSpec {
        name: "search_files",
        description: "Recursively search a folder tree for files whose name contains a query substring — use this to locate a project, a file, or code by name.",
        parameters: schema_json(props, required),
    }
}

/// The tool `largest_files`.
pub open spec fn largest_files_tool() -> ToolView {
    ToolView {
        name: "largest_files"@,
        description: "Find the largest files under a folder tree (e.g. a whole drive), sorted biggest first."@,
        parameters: schema(seq![("root"@, described("string"@, "Folder or drive root to scan, e.g. \"C:\\\\\"."@)), ("top_n"@, described("integer"@, "How many results to return, e.g. 10."@))], seq!["root"@, "top_n"@]),
    }
}

fn largest_files_spec() -> (r: ToolSpec)
    ensures
        r@ == largest_files_tool(),
{
    let props: Vec<(&'static str, Json)> = vec![("root", described_json("string", "Folder or drive root to scan, e.g. \"C:\\\\\".")), ("top_n", described_json("integer", "How many results to return, e.g. 10."))];
    let required: Vec<&'static str> = vec!["root", "top_n"];
    proof {
        assert(prop_views(props@) =~= seq![("root"@, described("string"@, "Folder or drive root to scan, e.g. \"C:\\\\\"."@)), ("top_n"@, described("integer"@, "How many results to return, e.g. 10."@))]);
        assert(str_views(required@) =~= seq!["root"@, "top_n"@]);
    }
    ToolSpec {
        name: "largest_files",
        description: "Find the largest files under a folder tree (e.g. a whole drive), sorted biggest first.",
        parameters: schema_json(props, required),
    }
}

/// The tool `disk_usage`.
pub open spec fn disk_usage_tool() -> ToolView {
    ToolView {
        name: "disk_usage"@,
        description: "Check how much space is used/free on a drive."@,
        parameters: schema(seq![("drive"@, described("string"@, "e.g. \"C:\". Omit for the C: drive."@))], Seq::empty()),
    }
}

fn disk_usage_spec() -> (r: ToolSpec)
    ensures
        r@ == disk_usage_tool(),
{
    let props: Vec<(&'static str, Json)> = vec![("drive", described_json("string", "e.g. \"C:\". Omit for the C: drive."))];
    let required: Vec<&'static str> = Vec::new();
    proof {
        assert(prop_views(props@) =~= seq![("drive"@, described("string"@, "e.g. \"C:\". Omit for the C: drive."@))]);
        assert(str_views(required@) =~= Seq::empty());
    }
    ToolSpec {
        name: "disk_usage",
        description: "Check how much space is used/free on a drive.",
        parameters: schema_json(props, required),
    }
}

/// The tool `delete_file`.
pub open spec fn delete_file_tool() -> ToolView {
    ToolView {
        name: "delete_file"@,
        description: "Delete a file or folder (sent to the Recycle Bin, not permanently erased). This is a destructive action and will require the user's confirmation before it actually runs."@,
        parameters: schema(seq![("path"@, described("string"@, "Omit to delete the current file being worked on, if any."@))], Seq::empty()),
    }
}

fn delete_file_spec() -> (r: ToolSpec)
    ensures
        r@ == delete_file_tool(),
{
    let props: Vec<(&'static str, Json)> = vec![("path", described_json("string", "Omit to delete the current file being worked on, if any."))];
    let required: Vec<&'static str> = Vec::new();
    proof {
        assert(prop_views(props@) =~= seq![("path"@, described("string"@, "Omit to delete the current file being worked on, if any."@))]);
        assert(str_views(required@) =~= Seq::empty());
    }
    ToolSpec {
        name: "delete_file",
        description: "Delete a file or folder (sent to the Recycle Bin, not permanently erased). This is a destructive action and will require the user's confirmation before it actually runs.",
        parameters: schema_json(props, required),
    }
}

/// The tool `run_terminal_command`.
pub open spec fn run_terminal_command_tool() -> ToolView {
    ToolView {
        name: "run_terminal_command"@,
        description: "Run a command in a terminal (cmd.exe) and return its output — use this for diagnostics, checking service/container status, or other tasks not covered by a more specific tool. Recognized destructive or unrecognized commands will require the user's confirmation before they actually run."@,
        parameters: schema(seq![("command"@, typed("string"@)), ("working_dir"@, typed("string"@))], seq!["command"@]),
    }
}

fn run_terminal_command_spec() -> (r: ToolSpec)
    ensures
        r@ == run_terminal_command_tool(),
{
    let props: Vec<(&'static str, Json)> = vec![("command", typed_json("string")), ("working_dir", typed_json("string"))];
    let required: Vec<&'static str> = vec!["command"];
    proof {
        assert(prop_views(props@) =~= seq![("command"@, typed("string"@)), ("working_dir"@, typed("string"@))]);
        assert(str_views(required@) =~= seq!["command"@]);
    }
    ToolSpec {
        name: "run_terminal_command",
        description: "Run a command in a terminal (cmd.exe) and return its output — use this for diagnostics, checking service/container status, or other tasks not covered by a more specific tool. Recognized destructive or unrecognized commands will require the user's confirmation before they actually run.",
        parameters: schema_json(props, required),
    }
}

/// The tool `move_or_rename`.
pub open spec fn move_or_rename_tool() -> ToolView {
    ToolView {
        name: "move_or_rename"@,
        description: "Move or rename a file or folder. This is a sensitive action and will require the user's confirmation before it actually runs."@,
        parameters: schema(seq![("from"@, described("string"@, "Omit to move the current file being worked on, if any."@)), ("to"@, typed("string"@))], seq!["to"@]),
    }
}

fn move_or_rename_spec() -> (r: ToolSpec)
    ensures
        r@ == move_or_rename_tool(),
{
    let props: Vec<(&'static str, Json)> = vec![("from", described_json("string", "Omit to move the current file being worked on, if any.")), ("to", typed_json("string"))];
    let required: Vec<&'static str> = vec!["to"];
    proof {
        assert(prop_views(props@) =~= seq![("from"@, described("string"@, "Omit to move the current file being worked on, if any."@)), ("to"@, typed("string"@))]);
        assert(str_views(required@) =~= seq!["to"@]);
    }
    ToolSpec {
        name: "move_or_rename",
        description: "Move or rename a file or folder. This is a sensitive action and will require the user's confirmation before it actually runs.",
        parameters: schema_json(props, required),
    }
}

/// Every tool, in the order in which a model is told of them.
pub open spec fn tool_table() -> Seq<ToolView> {
    seq![
        launch_or_focus_app_tool(),
        launch_app_with_arg_tool(),
        open_path_tool(),
        window_op_tool(),
        window_query_tool(),
        system_info_tool(),
        process_query_tool(),
        kill_process_tool(),
        network_query_tool(),
        volume_op_tool(),
        clipboard_op_tool(),
        capture_screen_tool(),
        search_knowledge_base_tool(),
        create_folder_tool(),
        create_file_tool(),
        write_file_tool(),
        read_file_tool(),
        list_folder_tool(),
        search_files_tool(),
        largest_files_tool(),
        disk_usage_tool(),
        delete_file_tool(),
        run_terminal_command_tool(),
        move_or_rename_tool(),
    ]
}

/// Every tool that the agent loop can call.
pub fn all_tools() -> (r: Vec<ToolSpec>)
    ensures
        tool_views(r@) == tool_table(),
{
    let tools: Vec<ToolSpec> = vec![
        launch_or_focus_app_spec(),
        launch_app_with_arg_spec(),
        open_path_spec(),
        window_op_spec(),
        window_query_spec(),
        system_info_spec(),
        process_query_spec(),
        kill_process_spec(),
        network_query_spec(),
        volume_op_spec(),
        clipboard_op_spec(),
        capture_screen_spec(),
        search_knowledge_base_spec(),
        create_folder_spec(),
        create_file_spec(),
        write_file_spec(),
        read_file_spec(),
        list_folder_spec(),
        search_files_spec(),
        largest_files_spec(),
        disk_usage_spec(),
        delete_file_spec(),
        run_terminal_command_spec(),
        move_or_rename_spec(),
    ];
    proof {
        assert(tool_views(tools@) =~= tool_table());
    }
    tools
}

/// The position of a tool's name in the table; past its end for any other
/// text.
pub open spec fn tool_position(name: Seq<char>) -> int {
    if name == "launch_or_focus_app"@ {
        0
    } else if name == "launch_app_with_arg"@ {
        1
    } else if name == "open_path"@ {
        2
    } else if name == "window_op"@ {
        3
    } else if name == "window_query"@ {
        4
    } else if name == "system_info"@ {
        5
    } else if name == "process_query"@ {
        6
    } else if name == "kill_process"@ {
        7
    } else if name == "network_query"@ {
        8
    } else if name == "volume_op"@ {
        9
    } else if name == "clipboard_op"@ {
        10
    } else if name == "capture_screen"@ {
        11
    } else if name == "search_knowledge_base"@ {
        12
    } else if name == "create_folder"@ {
        13
    } else if name == "create_file"@ {
        14
    } else if name == "write_file"@ {
        15
    } else if name == "read_file"@ {
        16
    } else if name == "list_folder"@ {
        17
    } else if name == "search_files"@ {
        18
    } else if name == "largest_files"@ {
        19
    } else if name == "disk_usage"@ {
        20
    } else if name == "delete_file"@ {
        21
    } else if name == "run_terminal_command"@ {
        22
    } else if name == "move_or_rename"@ {
        23
    } else {
        24
    }
}

/// Each name of the table stands at its own position.
proof fn positions_follow_the_table(i: int)
    requires
        0 <= i < tool_table().len(),
    ensures
        tool_position(tool_table()[i].name) == i,
{
    reveal_strlit("launch_or_focus_app");
    reveal_strlit("launch_app_with_arg");
    reveal_strlit("open_path");
    reveal_strlit("window_op");
    reveal_strlit("window_query");
    reveal_strlit("system_info");
    reveal_strlit("process_query");
    reveal_strlit("kill_process");
    reveal_strlit("network_query");
    reveal_strlit("volume_op");
    reveal_strlit("clipboard_op");
    reveal_strlit("capture_screen");
    reveal_strlit("search_knowledge_base");
    reveal_strlit("create_folder");
    reveal_strlit("create_file");
    reveal_strlit("write_file");
    reveal_strlit("read_file");
    reveal_strlit("list_folder");
    reveal_strlit("search_files");
    reveal_strlit("largest_files");
    reveal_strlit("disk_usage");
    reveal_strlit("delete_file");
    reveal_strlit("run_terminal_command");
    reveal_strlit("move_or_rename");
    assert("launch_or_focus_app"@.len() == 19 && "launch_or_focus_app"@[7] == 'o');
    assert("launch_app_with_arg"@.len() == 19 && "launch_app_with_arg"@[7] == 'a');
    assert("open_path"@.len() == 9 && "open_path"@[0] == 'o');
    assert("window_op"@.len() == 9 && "window_op"@[0] == 'w');
    assert("window_query"@.len() == 12 && "window_query"@[0] == 'w');
    assert("system_info"@.len() == 11 && "system_info"@[0] == 's');
    assert("process_query"@.len() == 13 && "process_query"@[0] == 'p');
    assert("kill_process"@.len() == 12 && "kill_process"@[0] == 'k');
    assert("network_query"@.len() == 13 && "network_query"@[0] == 'n');
    assert("volume_op"@.len() == 9 && "volume_op"@[0] == 'v');
    assert("clipboard_op"@.len() == 12 && "clipboard_op"@[0] == 'c');
    assert("capture_screen"@.len() == 14 && "capture_screen"@[0] == 'c');
    assert("search_knowledge_base"@.len() == 21);
    assert("create_folder"@.len() == 13 && "create_folder"@[0] == 'c');
    assert("create_file"@.len() == 11 && "create_file"@[0] == 'c');
    assert("write_file"@.len() == 10 && "write_file"@[0] == 'w');
    assert("read_file"@.len() == 9 && "read_file"@[0] == 'r');
    assert("list_folder"@.len() == 11 && "list_folder"@[0] == 'l');
    assert("search_files"@.len() == 12 && "search_files"@[0] == 's');
    assert("largest_files"@.len() == 13 && "largest_files"@[0] == 'l');
    assert("disk_usage"@.len() == 10 && "disk_usage"@[0] == 'd');
    assert("delete_file"@.len() == 11 && "delete_file"@[0] == 'd');
    assert("run_terminal_command"@.len() == 20);
    assert("move_or_rename"@.len() == 14 && "move_or_rename"@[0] == 'm');
}

/// No two tools have the same name.
pub proof fn tool_names_are_unique(i: int, j: int)
    requires
        0 <= i < tool_table().len(),
        0 <= j < tool_table().len(),
        tool_table()[i].name == tool_table()[j].name,
    ensures
        i == j,
{
    positions_follow_the_table(i);
    positions_follow_the_table(j);
}

/// The names of the fields that a tool cannot do without, as it is declared.
pub open spec fn required_fields(tool: ToolView) -> Seq<JsonView> {
    match tool.parameters.get("required"@) {
        Some(JsonView::Array(names)) => names,
        _ => Seq::empty(),
    }
}

/// The values that a field of a tool can have, as it is declared.
pub open spec fn declared_values(tool: ToolView, field: Seq<char>) -> Seq<JsonView> {
    match tool.parameters.get("properties"@) {
        Some(properties) => match properties.get(field) {
            Some(property) => match property.get("enum"@) {
                Some(JsonView::Array(values)) => values,
                _ => Seq::empty(),
            },
            None => Seq::empty(),
        },
        None => Seq::empty(),
    }
}

/// A schema declares its properties and what is required, and a property out of
/// a closed list the values of the list.
pub proof fn a_schema_declares_what_it_is_made_of(
    props: Seq<(Seq<char>, JsonView)>,
    required: Seq<Seq<char>>,
    values: Seq<Seq<char>>,
)
    ensures
        schema(props, required).get("properties"@) == Some(JsonView::Object(props)),
        required.len() > 0 ==> schema(props, required).get("required"@) == Some(
            text_array(required),
        ),
        required.len() == 0 ==> schema(props, required).get("required"@) is None,
        one_of(values).get("enum"@) == Some(text_array(values)),
{
    reveal_strlit("type");
    reveal_strlit("properties");
    reveal_strlit("required");
    reveal_strlit("enum");
    assert("type"@.len() == 4 && "properties"@.len() == 10 && "required"@.len() == 8);
    assert("enum"@.len() == 4 && "enum"@[0] != "type"@[0]);
    let whole = schema(props, required);
    let entries = whole->Object_0;
    assert(entries[0].0 == "type"@ && entries[1].0 == "properties"@);
    if required.len() > 0 {
        assert(entries[2] == ("required"@, text_array(required)));
        assert(entries.len() == 3);
    } else {
        assert(entries.len() == 2);
    }
    distinct_keys_are_all_found(entries);
    assert(whole.get(entries[1].0) == Some(entries[1].1));
    if required.len() > 0 {
        assert(whole.get(entries[2].0) == Some(entries[2].1));
    } else {
        assert(whole.get("required"@) is None);
    }
    members_are_found_by_key(one_of(values)->Object_0, "enum"@, 1);
}

/// What the contracts say of a value is said of its fields, each under its own name.
pub proof fn each_field_is_seen_as_it_is(tool: ToolSpec)
    ensures
        tool@.name == tool.name@,
        tool@.description == tool.description@,
        tool@.parameters == tool.parameters@,
{
}

} // verus!
