//! The closed vocabulary of things the assistant can do on the machine.
//!
//! Every type is generic in its texts: `Capability<String>` is the value that
//! is passed around, `Capability<Seq<char>>` its view.
use vstd::prelude::*;

use crate::json::opt_view;

verus! {

#[derive(Debug, Clone, Copy, PartialEq, Eq, Structural)]
pub enum WindowOp {
    Minimize,
    Maximize,
    Close,
    Focus,
}

#[derive(Debug, Clone, Copy, PartialEq, Eq, Structural)]
pub enum WindowQueryOp {
    ListOpen,
    GetActive,
}

#[derive(Debug, Clone, Copy, PartialEq, Eq, Structural)]
pub enum SystemInfoKind {
    Time,
    Battery,
    Cpu,
    Memory,
    Volume,
    DiskSpace,
    Uptime,
}

#[derive(Debug, Clone, Copy, PartialEq, Eq)]
pub enum VolumeOp {
    Up(Option<u8>),
    Down(Option<u8>),
    Mute,
    Unmute,
    SetPercent(u8),
}

/// Pausing, resuming or cancelling the task at hand. It changes session state
/// and never reaches the machine.
#[derive(Debug, Clone, Copy, PartialEq, Eq, Structural)]
pub enum TaskControlOp {
    Pause,
    Resume,
    Cancel,
}

#[derive(Debug, Clone, PartialEq, Eq)]
pub enum ProcessQuery<S> {
    List,
    FindByName(S),
}

#[derive(Debug, Clone, PartialEq, Eq)]
pub enum ProcessOp<S> {
    Kill { pid: Option<u32>, name: Option<S> },
}

#[derive(Debug, Clone, PartialEq, Eq)]
pub enum NetworkQuery<S> {
    Status,
    PingHost { host: S },
    ListeningPorts,
}

#[derive(Debug, Clone, PartialEq, Eq)]
pub enum ClipboardOp<S> {
    Read,
    Write(S),
}

#[derive(Debug, Clone, PartialEq, Eq)]
pub enum FileOp<S> {
    CreateFolder { path: S },
    CreateFile { path: S, content: Option<S> },
    WriteFile { path: S, content: S, append: bool },
    ReadFile { path: S },
}

#[derive(Debug, Clone, PartialEq, Eq)]
pub enum StorageQuery<S> {
    ListFolder { path: S },
    SearchFiles { root: S, query: S, max_results: Option<u32> },
    LargestFiles { root: S, top_n: u8 },
    DiskUsage { drive: Option<S> },
}

#[derive(Debug, Clone, PartialEq, Eq)]
pub enum StorageOp<S> {
    DeleteFile { path: S },
    MoveOrRename { from: S, to: S },
}

#[derive(Debug, Clone, PartialEq, Eq)]
pub enum TerminalOp<S> {
    RunCommand { command: S, working_dir: Option<S> },
}

/// One thing to do.
#[derive(Debug, Clone, PartialEq, Eq)]
pub enum Capability<S> {
    LaunchOrFocusApp(S),
    LaunchAppWithArg { app: S, arg: S },
    OpenPath(S),
    WindowQuery(WindowQueryOp),
    WindowOp { op: WindowOp, target: Option<S> },
    SystemInfo(SystemInfoKind),
    ProcessQuery(ProcessQuery<S>),
    ProcessOp(ProcessOp<S>),
    NetworkQuery(NetworkQuery<S>),
    VolumeOp(VolumeOp),
    Clipboard(ClipboardOp<S>),
    CaptureScreen,
    SearchKnowledgeBase(S),
    FileOp(FileOp<S>),
    StorageQuery(StorageQuery<S>),
    StorageOp(StorageOp<S>),
    TerminalOp(TerminalOp<S>),
    TaskControl(TaskControlOp),
    /// A scheduled action, by its description.
    SchedulerOp(S),
    /// A watch for changes, by its description.
    WatcherOp(S),
}

impl Capability<String> {
    /// The view: the same capability over character sequences.
    pub open spec fn view(&self) -> Capability<Seq<char>> {
        match *self {
            Capability::LaunchOrFocusApp(s) => Capability::LaunchOrFocusApp(s@),
            Capability::LaunchAppWithArg { app, arg } => Capability::LaunchAppWithArg {
                app: app@,
                arg: arg@,
            },
            Capability::OpenPath(s) => Capability::OpenPath(s@),
            Capability::WindowQuery(q) => Capability::WindowQuery(q),
            Capability::WindowOp { op, target } => Capability::WindowOp {
                op,
                target: opt_view(target),
            },
            Capability::SystemInfo(k) => Capability::SystemInfo(k),
            Capability::ProcessQuery(q) => Capability::ProcessQuery(
                match q {
                    ProcessQuery::List => ProcessQuery::List,
                    ProcessQuery::FindByName(n) => ProcessQuery::FindByName(n@),
                },
            ),
            Capability::ProcessOp(ProcessOp::Kill { pid, name }) => Capability::ProcessOp(
                ProcessOp::Kill { pid, name: opt_view(name) },
            ),
            Capability::NetworkQuery(q) => Capability::NetworkQuery(
                match q {
                    NetworkQuery::Status => NetworkQuery::Status,
                    NetworkQuery::PingHost { host } => NetworkQuery::PingHost { host: host@ },
                    NetworkQuery::ListeningPorts => NetworkQuery::ListeningPorts,
                },
            ),
            Capability::VolumeOp(op) => Capability::VolumeOp(op),
            Capability::Clipboard(op) => Capability::Clipboard(
                match op {
                    ClipboardOp::Read => ClipboardOp::Read,
                    ClipboardOp::Write(t) => ClipboardOp::Write(t@),
                },
            ),
            Capability::CaptureScreen => Capability::CaptureScreen,
            Capability::SearchKnowledgeBase(q) => Capability::SearchKnowledgeBase(q@),
            Capability::FileOp(op) => Capability::FileOp(
                match op {
                    FileOp::CreateFolder { path } => FileOp::CreateFolder { path: path@ },
                    FileOp::CreateFile { path, content } => FileOp::CreateFile {
                        path: path@,
                        content: opt_view(content),
                    },
                    FileOp::WriteFile { path, content, append } => FileOp::WriteFile {
                        path: path@,
                        content: content@,
                        append,
                    },
                    FileOp::ReadFile { path } => FileOp::ReadFile { path: path@ },
                },
            ),
            Capability::StorageQuery(q) => Capability::StorageQuery(
                match q {
                    StorageQuery::ListFolder { path } => StorageQuery::ListFolder { path: path@ },
                    StorageQuery::SearchFiles { root, query, max_results } => {
                        StorageQuery::SearchFiles { root: root@, query: query@, max_results }
                    },
                    StorageQuery::LargestFiles { root, top_n } => StorageQuery::LargestFiles {
                        root: root@,
                        top_n,
                    },
                    StorageQuery::DiskUsage { drive } => StorageQuery::DiskUsage {
                        drive: opt_view(drive),
                    },
                },
            ),
            Capability::StorageOp(op) => Capability::StorageOp(
                match op {
                    StorageOp::DeleteFile { path } => StorageOp::DeleteFile { path: path@ },
                    StorageOp::MoveOrRename { from, to } => StorageOp::MoveOrRename {
                        from: from@,
                        to: to@,
                    },
                },
            ),
            Capability::TerminalOp(TerminalOp::RunCommand { command, working_dir }) => {
                Capability::TerminalOp(
                    TerminalOp::RunCommand { command: command@, working_dir: opt_view(working_dir) },
                )
            },
            Capability::TaskControl(op) => Capability::TaskControl(op),
            Capability::SchedulerOp(s) => Capability::SchedulerOp(s@),
            Capability::WatcherOp(s) => Capability::WatcherOp(s@),
        }
    }
}

/// How much a capability can break.
#[derive(Debug, Clone, Copy, PartialEq, Eq, Structural)]
pub enum RiskLevel {
    Safe,
    Sensitive,
    Destructive,
}

/// A capability is seen as the same one over the characters of its texts, each in
/// its own place.
pub proof fn a_capability_is_seen_as_it_is(
    a: String,
    b: String,
    c: Option<String>,
    op: WindowOp,
    pid: Option<u32>,
    append: bool,
    max_results: Option<u32>,
    top_n: u8,
)
    ensures
        Capability::LaunchOrFocusApp(a)@ == Capability::LaunchOrFocusApp(a@),
        (Capability::LaunchAppWithArg { app: a, arg: b })@ == (Capability::LaunchAppWithArg {
            app: a@,
            arg: b@,
        }),
        Capability::OpenPath(a)@ == Capability::OpenPath(a@),
        (Capability::WindowOp { op, target: c })@ == (Capability::WindowOp {
            op,
            target: opt_view(c),
        }),
        Capability::ProcessQuery(ProcessQuery::FindByName(a))@ == Capability::ProcessQuery(
            ProcessQuery::FindByName(a@),
        ),
        Capability::ProcessOp(ProcessOp::Kill { pid, name: c })@ == Capability::ProcessOp(
            ProcessOp::Kill { pid, name: opt_view(c) },
        ),
        Capability::NetworkQuery(NetworkQuery::PingHost { host: a })@ == Capability::NetworkQuery(
            NetworkQuery::PingHost { host: a@ },
        ),
        Capability::Clipboard(ClipboardOp::Write(a))@ == Capability::Clipboard(
            ClipboardOp::Write(a@),
        ),
        Capability::SearchKnowledgeBase(a)@ == Capability::SearchKnowledgeBase(a@),
        Capability::FileOp(FileOp::CreateFolder { path: a })@ == Capability::FileOp(
            FileOp::CreateFolder { path: a@ },
        ),
        Capability::FileOp(FileOp::CreateFile { path: a, content: c })@ == Capability::FileOp(
            FileOp::CreateFile { path: a@, content: opt_view(c) },
        ),
        Capability::FileOp(FileOp::WriteFile { path: a, content: b, append })@
            == Capability::FileOp(FileOp::WriteFile { path: a@, content: b@, append }),
        Capability::FileOp(FileOp::ReadFile { path: a })@ == Capability::FileOp(
            FileOp::ReadFile { path: a@ },
        ),
        Capability::StorageQuery(StorageQuery::ListFolder { path: a })@ == Capability::StorageQuery(
            StorageQuery::ListFolder { path: a@ },
        ),
        Capability::StorageQuery(StorageQuery::SearchFiles { root: a, query: b, max_results })@
            == Capability::StorageQuery(
            StorageQuery::SearchFiles { root: a@, query: b@, max_results },
        ),
        Capability::StorageQuery(StorageQuery::LargestFiles { root: a, top_n })@
            == Capability::StorageQuery(StorageQuery::LargestFiles { root: a@, top_n }),
        Capability::StorageQuery(StorageQuery::DiskUsage { drive: c })@ == Capability::StorageQuery(
            StorageQuery::DiskUsage { drive: opt_view(c) },
        ),
        Capability::StorageOp(StorageOp::DeleteFile { path: a })@ == Capability::StorageOp(
            StorageOp::DeleteFile { path: a@ },
        ),
        Capability::StorageOp(StorageOp::MoveOrRename { from: a, to: b })@ == Capability::StorageOp(
            StorageOp::MoveOrRename { from: a@, to: b@ },
        ),
        Capability::TerminalOp(TerminalOp::RunCommand { command: a, working_dir: c })@
            == Capability::TerminalOp(
            TerminalOp::RunCommand { command: a@, working_dir: opt_view(c) },
        ),
        Capability::SchedulerOp(a)@ == Capability::SchedulerOp(a@),
        Capability::WatcherOp(a)@ == Capability::WatcherOp(a@),
{
}

} // verus!
