//! One run of the tool as a conversation with its host: the session decides
//! what to do next, the host does it (reads the environment, touches files,
//! runs `launchctl`, prints, drives the event tap) and reports back.
use vstd::prelude::*;
use crate::cli::{parse_bool, parsed_bool, set_confirmation, confirmation_text, Command, ConfigCommand};
use crate::config::{default_config, is_config_key, unknown_key_message, Config};
use crate::paths::{
    agent_dir, agent_dir_rel, config_dir, config_dir_rel, config_path, config_rel, join_path,
    path_string, path_text, plist_path, agent_rel, show_path, shown, text_bytes,
};
use crate::service::{
    bootout_args, bootstrap_args, domain_text, kickstart_args, launch_failure,
    launchctl_outcome, output_view, plist_text, print_args, render_plist, result_text,
    run_launchctl, target_text, arg_views, LaunchctlOutput, OutputView, LABEL,
};
use crate::text::{lossy_text, owned, utf8_lossy};
use vstd::utf8::{decode_utf8, valid_utf8};

verus! {

// ---------------------------------------------------------------------------
// What the host does and reports
// ---------------------------------------------------------------------------

/// What reading a file produced.
pub enum FileRead {
    /// The whole file, as text.
    Contents(String),
    /// There is no such file.
    Missing,
    /// Reading failed for another reason, described by the message.
    Failed(String),
}

/// What removing a file produced.
pub enum Removal {
    /// The file was removed.
    Removed,
    /// There was no such file.
    Missing,
    /// Removing failed for another reason, described by the message.
    Failed(String),
}

/// A request to the host.
#[derive(Debug, PartialEq, Eq)]
pub enum Action {
    /// Report the home directory (`Event::Home`).
    LookupHome,
    /// Report the effective user id (`Event::Uid`).
    LookupUid,
    /// Read the file at the path as text (`Event::FileRead`).
    ReadFile(Vec<u8>),
    /// Parse the text as a configuration file (`Event::ConfigParsed`).
    ParseConfig(String),
    /// Write the configuration in the configuration file format
    /// (`Event::ConfigRendered`).
    RenderConfig(Config),
    /// Create the directory and its parents (`Event::Done`).
    CreateDir(Vec<u8>),
    /// Write the text to the file at the path (`Event::Done`).
    WriteFile(Vec<u8>, String),
    /// Remove the file at the path (`Event::Removed`).
    RemoveFile(Vec<u8>),
    /// Tell whether anything exists at the path (`Event::Exists`).
    PathExists(Vec<u8>),
    /// Report the path of the running program (`Event::Located`).
    LocateExecutable,
    /// Resolve the path to its canonical form (`Event::Located`).
    ResolvePath(Vec<u8>),
    /// Run `launchctl` with these arguments (`Event::Launched`).
    Launchctl(Vec<String>),
    /// Write the text to standard output (`Event::Acknowledged`).
    Print(String),
    /// Ask for the Accessibility permission, prompting the user if needed
    /// (`Event::Granted`).
    RequestPermission,
    /// Create the scroll event tap for this configuration (`Event::Created`).
    CreateTap(Config),
    /// Create the run-loop source of the tap (`Event::Created`).
    CreateSource,
    /// Add the source to the current run loop and enable the tap
    /// (`Event::Acknowledged`).
    ActivateTap,
    /// Run the run loop until it stops, then release the tap
    /// (`Event::Acknowledged`).
    RunLoop,
    /// The session is over, with this result.
    Finish(Result<(), String>),
}

/// A report from the host.
pub enum Event {
    /// The session may start.
    Begin,
    /// The home directory, if it is set.
    Home(Option<Vec<u8>>),
    /// The effective user id.
    Uid(u32),
    /// What reading a file produced.
    FileRead(FileRead),
    /// The parsed configuration, or why parsing failed.
    ConfigParsed(Result<Config, String>),
    /// The written configuration, or why writing failed.
    ConfigRendered(Result<String, String>),
    /// A directory was created or a file written, or why not.
    Done(Result<(), String>),
    /// What removing a file produced.
    Removed(Removal),
    /// Whether anything exists at the path.
    Exists(bool),
    /// The path found, or why it was not found.
    Located(Result<Vec<u8>, String>),
    /// What running `launchctl` produced, or why it could not be started.
    Launched(Result<LaunchctlOutput, String>),
    /// Whether the permission is granted.
    Granted(bool),
    /// Whether the requested object was created.
    Created(bool),
    /// The request was carried out.
    Acknowledged,
}

/// The point a session has reached: what it is waiting for.
#[derive(Clone, Copy, PartialEq, Eq, Structural)]
pub enum Stage {
    Ready,
    AwaitHome,
    AwaitUid,
    AwaitConfigRead,
    AwaitConfigParse,
    /// Saving the configuration: waiting for its directory.  `creating` is
    /// set when the file was missing and the default configuration is being
    /// written before the command goes on.
    AwaitSaveDir { creating: bool },
    AwaitSaveRender { creating: bool },
    AwaitSaveWrite { creating: bool },
    AwaitShowRender,
    AwaitPermission,
    AwaitTap,
    AwaitSource,
    AwaitActivation,
    AwaitRunningNotice,
    AwaitLoop,
    AwaitExists,
    AwaitBootout,
    AwaitBootstrap,
    AwaitKickstart,
    AwaitStatus,
    AwaitExecutable,
    AwaitResolved,
    AwaitAgentDir,
    AwaitPlistWrite,
    AwaitRemoval,
    AwaitFinalPrint,
    Finished,
}

// ---------------------------------------------------------------------------
// Mathematical views
// ---------------------------------------------------------------------------

/// A command, with its texts as character sequences.
pub enum CommandView {
    Run,
    Start,
    Stop,
    Restart,
    Status,
    Show,
    Update(Seq<char>, Seq<char>),
    Install,
    Uninstall,
}

impl View for Command {
    type V = CommandView;

    open spec fn view(&self) -> CommandView {
        match self {
            Command::Run => CommandView::Run,
            Command::Start => CommandView::Start,
            Command::Stop => CommandView::Stop,
            Command::Restart => CommandView::Restart,
            Command::Status => CommandView::Status,
            Command::Config(ConfigCommand::Show) => CommandView::Show,
            Command::Config(ConfigCommand::Update { key, value }) => CommandView::Update(
                key@,
                value@,
            ),
            Command::InstallService => CommandView::Install,
            Command::UninstallService => CommandView::Uninstall,
        }
    }
}

/// A file read, with its texts as character sequences.
pub enum FileReadView {
    Contents(Seq<char>),
    Missing,
    Failed(Seq<char>),
}

/// A removal, with its message as a character sequence.
pub enum RemovalView {
    Removed,
    Missing,
    Failed(Seq<char>),
}

/// A request to the host, with paths as byte sequences and texts as
/// character sequences.
#[verifier::ext_equal]
pub enum ActionView {
    LookupHome,
    LookupUid,
    ReadFile(Seq<u8>),
    ParseConfig(Seq<char>),
    RenderConfig(Config),
    CreateDir(Seq<u8>),
    WriteFile(Seq<u8>, Seq<char>),
    RemoveFile(Seq<u8>),
    PathExists(Seq<u8>),
    LocateExecutable,
    ResolvePath(Seq<u8>),
    Launchctl(Seq<Seq<char>>),
    Print(Seq<char>),
    RequestPermission,
    CreateTap(Config),
    CreateSource,
    ActivateTap,
    RunLoop,
    Finish(Result<(), Seq<char>>),
}

/// A report from the host, with paths as byte sequences and texts as
/// character sequences.
pub enum EventView {
    Begin,
    Home(Option<Seq<u8>>),
    Uid(u32),
    FileRead(FileReadView),
    ConfigParsed(Result<Config, Seq<char>>),
    ConfigRendered(Result<Seq<char>, Seq<char>>),
    Done(Result<(), Seq<char>>),
    Removed(RemovalView),
    Exists(bool),
    Located(Result<Seq<u8>, Seq<char>>),
    Launched(Result<OutputView, Seq<char>>),
    Granted(bool),
    Created(bool),
    Acknowledged,
}

impl View for Action {
    type V = ActionView;

    open spec fn view(&self) -> ActionView {
        match self {
            Action::LookupHome => ActionView::LookupHome,
            Action::LookupUid => ActionView::LookupUid,
            Action::ReadFile(p) => ActionView::ReadFile(p@),
            Action::ParseConfig(t) => ActionView::ParseConfig(t@),
            Action::RenderConfig(c) => ActionView::RenderConfig(*c),
            Action::CreateDir(p) => ActionView::CreateDir(p@),
            Action::WriteFile(p, t) => ActionView::WriteFile(p@, t@),
            Action::RemoveFile(p) => ActionView::RemoveFile(p@),
            Action::PathExists(p) => ActionView::PathExists(p@),
            Action::LocateExecutable => ActionView::LocateExecutable,
            Action::ResolvePath(p) => ActionView::ResolvePath(p@),
            Action::Launchctl(args) => ActionView::Launchctl(arg_views(args@)),
            Action::Print(t) => ActionView::Print(t@),
            Action::RequestPermission => ActionView::RequestPermission,
            Action::CreateTap(c) => ActionView::CreateTap(*c),
            Action::CreateSource => ActionView::CreateSource,
            Action::ActivateTap => ActionView::ActivateTap,
            Action::RunLoop => ActionView::RunLoop,
            Action::Finish(r) => ActionView::Finish(result_text(*r)),
        }
    }
}

impl View for Event {
    type V = EventView;

    open spec fn view(&self) -> EventView {
        match self {
            Event::Begin => EventView::Begin,
            Event::Home(h) => EventView::Home(
                match h {
                    Some(p) => Some(p@),
                    None => None,
                },
            ),
            Event::Uid(u) => EventView::Uid(*u),
            Event::FileRead(r) => EventView::FileRead(
                match r {
                    FileRead::Contents(t) => FileReadView::Contents(t@),
                    FileRead::Missing => FileReadView::Missing,
                    FileRead::Failed(e) => FileReadView::Failed(e@),
                },
            ),
            Event::ConfigParsed(r) => EventView::ConfigParsed(
                match r {
                    Ok(c) => Ok(*c),
                    Err(e) => Err(e@),
                },
            ),
            Event::ConfigRendered(r) => EventView::ConfigRendered(
                match r {
                    Ok(t) => Ok(t@),
                    Err(e) => Err(e@),
                },
            ),
            Event::Done(r) => EventView::Done(result_text(*r)),
            Event::Removed(r) => EventView::Removed(
                match r {
                    Removal::Removed => RemovalView::Removed,
                    Removal::Missing => RemovalView::Missing,
                    Removal::Failed(e) => RemovalView::Failed(e@),
                },
            ),
            Event::Exists(b) => EventView::Exists(*b),
            Event::Located(r) => EventView::Located(
                match r {
                    Ok(p) => Ok(p@),
                    Err(e) => Err(e@),
                },
            ),
            Event::Launched(r) => EventView::Launched(output_view(*r)),
            Event::Granted(b) => EventView::Granted(*b),
            Event::Created(b) => EventView::Created(*b),
            Event::Acknowledged => EventView::Acknowledged,
        }
    }
}

/// A session's state as mathematical values.
#[verifier::ext_equal]
pub struct SessionView {
    /// The command being carried out.
    pub command: CommandView,
    /// What the session waits for.
    pub stage: Stage,
    /// The home directory, once known.
    pub home: Seq<u8>,
    /// The effective user id, once known.
    pub uid: u32,
    /// The configuration, once loaded (and changed, for an update).
    pub config: Config,
    /// The value being set, once read.
    pub value: bool,
    /// The arguments of the `launchctl` run in progress.
    pub args: Seq<Seq<char>>,
    /// The program path the login agent will run, once resolved.
    pub executable: Seq<u8>,
}

/// One run of the tool.
pub struct Session {
    command: Command,
    stage: Stage,
    home: Vec<u8>,
    uid: u32,
    config: Config,
    value: bool,
    args: Vec<String>,
    executable: Vec<u8>,
}

impl View for Session {
    type V = SessionView;

    closed spec fn view(&self) -> SessionView {
        SessionView {
            command: self.command@,
            stage: self.stage,
            home: self.home@,
            uid: self.uid,
            config: self.config,
            value: self.value,
            args: arg_views(self.args@),
            executable: self.executable@,
        }
    }
}

// ---------------------------------------------------------------------------
// The rules
// ---------------------------------------------------------------------------

/// The report that the session at `stage` waits for is of the kind of `e`.
pub open spec fn awaits(stage: Stage, e: EventView) -> bool {
    match stage {
        Stage::Ready => e is Begin,
        Stage::AwaitHome => e is Home,
        Stage::AwaitUid => e is Uid,
        Stage::AwaitConfigRead => e is FileRead,
        Stage::AwaitConfigParse => e is ConfigParsed,
        Stage::AwaitSaveDir { .. } => e is Done,
        Stage::AwaitSaveRender { .. } => e is ConfigRendered,
        Stage::AwaitSaveWrite { .. } => e is Done,
        Stage::AwaitShowRender => e is ConfigRendered,
        Stage::AwaitPermission => e is Granted,
        Stage::AwaitTap => e is Created,
        Stage::AwaitSource => e is Created,
        Stage::AwaitActivation => e is Acknowledged,
        Stage::AwaitRunningNotice => e is Acknowledged,
        Stage::AwaitLoop => e is Acknowledged,
        Stage::AwaitExists => e is Exists,
        Stage::AwaitBootout => e is Launched,
        Stage::AwaitBootstrap => e is Launched,
        Stage::AwaitKickstart => e is Launched,
        Stage::AwaitStatus => e is Launched,
        Stage::AwaitExecutable => e is Located,
        Stage::AwaitResolved => e is Located,
        Stage::AwaitAgentDir => e is Done,
        Stage::AwaitPlistWrite => e is Done,
        Stage::AwaitRemoval => e is Removed,
        Stage::AwaitFinalPrint => e is Acknowledged,
        Stage::Finished => false,
    }
}

/// The message when the home directory is unknown.
pub open spec fn home_missing() -> Seq<char> {
    "HOME is not set"@
}

/// The message when the Accessibility permission is refused.
pub open spec fn permission_missing() -> Seq<char> {
    "Accessibility permission is required. Enable ScrollSplit in System Settings > Privacy & Security > Accessibility, then run it again."@
}

/// The message when the login agent is started before it is installed.
pub open spec fn not_installed() -> Seq<char> {
    "service is not installed; run `scrollsplit install-service`"@
}

/// The configuration file below the session's home directory.
pub open spec fn config_file(s: SessionView) -> Seq<u8> {
    join_path(s.home, text_bytes(config_rel()))
}

/// The configuration directory below the session's home directory.
pub open spec fn config_folder(s: SessionView) -> Seq<u8> {
    join_path(s.home, text_bytes(config_dir_rel()))
}

/// The login agent's property list below the session's home directory.
pub open spec fn agent_file(s: SessionView) -> Seq<u8> {
    join_path(s.home, text_bytes(agent_rel()))
}

/// The login agent's directory below the session's home directory.
pub open spec fn agent_folder(s: SessionView) -> Seq<u8> {
    join_path(s.home, text_bytes(agent_dir_rel()))
}

/// The session waits at `stage` after asking for `a`.
pub open spec fn ask(s: SessionView, stage: Stage, a: ActionView) -> (SessionView, ActionView) {
    (SessionView { stage: stage, ..s }, a)
}

/// The session runs `launchctl` with `args` and waits at `stage`.
pub open spec fn launch(s: SessionView, stage: Stage, args: Seq<Seq<char>>) -> (
    SessionView,
    ActionView,
) {
    (SessionView { stage: stage, args: args, ..s }, ActionView::Launchctl(args))
}

/// The session ends with `r`.
pub open spec fn finish(s: SessionView, r: Result<(), Seq<char>>) -> (SessionView, ActionView) {
    (SessionView { stage: Stage::Finished, ..s }, ActionView::Finish(r))
}

/// The session prints `t` as its last word.
pub open spec fn conclude(s: SessionView, t: Seq<char>) -> (SessionView, ActionView) {
    ask(s, Stage::AwaitFinalPrint, ActionView::Print(t))
}

/// The arguments that stop the agent.
pub open spec fn bootout_view(uid: u32) -> Seq<Seq<char>> {
    seq!["bootout"@, target_text(uid)]
}

/// The first step of each command.
pub open spec fn begin(s: SessionView) -> (SessionView, ActionView) {
    match s.command {
        CommandView::Run => ask(s, Stage::AwaitHome, ActionView::LookupHome),
        CommandView::Show => ask(s, Stage::AwaitHome, ActionView::LookupHome),
        CommandView::Update(_, value) => match parsed_bool(value) {
            Err(m) => finish(s, Err(m)),
            Ok(b) => ask(SessionView { value: b, ..s }, Stage::AwaitHome, ActionView::LookupHome),
        },
        _ => ask(s, Stage::AwaitUid, ActionView::LookupUid),
    }
}

/// What follows once the user id is known.
pub open spec fn after_uid(s: SessionView) -> (SessionView, ActionView) {
    match s.command {
        CommandView::Restart => launch(s, Stage::AwaitBootout, bootout_view(s.uid)),
        CommandView::Stop => launch(s, Stage::AwaitBootout, bootout_view(s.uid)),
        CommandView::Status => launch(s, Stage::AwaitStatus, seq!["print"@, target_text(s.uid)]),
        _ => ask(s, Stage::AwaitHome, ActionView::LookupHome),
    }
}

/// What follows once the home directory is known.
pub open spec fn after_home(s: SessionView) -> (SessionView, ActionView) {
    match s.command {
        CommandView::Install => ask(s, Stage::AwaitExecutable, ActionView::LocateExecutable),
        CommandView::Uninstall => launch(s, Stage::AwaitBootout, bootout_view(s.uid)),
        CommandView::Start => ask(s, Stage::AwaitExists, ActionView::PathExists(agent_file(s))),
        CommandView::Restart => ask(s, Stage::AwaitExists, ActionView::PathExists(agent_file(s))),
        _ => ask(s, Stage::AwaitConfigRead, ActionView::ReadFile(config_file(s))),
    }
}

/// Loading the agent: the property list's path as text, then `launchctl
/// bootstrap`.
pub open spec fn bootstrap(s: SessionView) -> (SessionView, ActionView) {
    match path_text(agent_file(s)) {
        Err(m) => finish(s, Err(m)),
        Ok(p) => launch(s, Stage::AwaitBootstrap, seq!["bootstrap"@, domain_text(s.uid), p]),
    }
}

/// The line that reports a started agent.
pub open spec fn started_line() -> Seq<char> {
    "Started "@ + LABEL@ + "\n"@
}

/// What follows once the configuration is loaded.
pub open spec fn after_load(s: SessionView) -> (SessionView, ActionView) {
    match s.command {
        CommandView::Show => ask(s, Stage::AwaitShowRender, ActionView::RenderConfig(s.config)),
        CommandView::Update(key, _) => if is_config_key(key) {
            ask(
                SessionView { config: s.config.with_field(key, s.value), ..s },
                Stage::AwaitSaveDir { creating: false },
                ActionView::CreateDir(config_folder(s)),
            )
        } else {
            finish(s, Err(unknown_key_message(key)))
        },
        _ => if s.config.enabled {
            ask(s, Stage::AwaitPermission, ActionView::RequestPermission)
        } else {
            conclude(s, "ScrollSplit is disabled in the configuration\n"@)
        },
    }
}

/// The key of an update command.
pub open spec fn update_key(c: CommandView) -> Seq<char> {
    match c {
        CommandView::Update(key, _) => key,
        _ => Seq::empty(),
    }
}

/// What the session does next when it gets `e`.
pub open spec fn step(s: SessionView, e: EventView) -> (SessionView, ActionView) {
    match s.stage {
        Stage::Ready => begin(s),
        Stage::AwaitUid => match e {
            EventView::Uid(u) => after_uid(SessionView { uid: u, ..s }),
            _ => finish(s, Ok(())),
        },
        Stage::AwaitHome => match e {
            EventView::Home(Some(h)) => after_home(SessionView { home: h, ..s }),
            _ => finish(s, Err(home_missing())),
        },
        Stage::AwaitConfigRead => match e {
            EventView::FileRead(FileReadView::Contents(t)) => ask(
                s,
                Stage::AwaitConfigParse,
                ActionView::ParseConfig(t),
            ),
            EventView::FileRead(FileReadView::Failed(err)) => finish(
                s,
                Err("cannot read "@ + shown(config_file(s)) + ": "@ + err),
            ),
            _ => ask(
                SessionView { config: default_config(), ..s },
                Stage::AwaitSaveDir { creating: true },
                ActionView::CreateDir(config_folder(s)),
            ),
        },
        Stage::AwaitConfigParse => match e {
            EventView::ConfigParsed(Ok(c)) => after_load(SessionView { config: c, ..s }),
            EventView::ConfigParsed(Err(err)) => finish(
                s,
                Err("cannot parse "@ + shown(config_file(s)) + ": "@ + err),
            ),
            _ => finish(s, Ok(())),
        },
        Stage::AwaitSaveDir { creating } => match e {
            EventView::Done(Err(err)) => finish(
                s,
                Err("cannot create "@ + shown(config_folder(s)) + ": "@ + err),
            ),
            _ => ask(
                s,
                Stage::AwaitSaveRender { creating: creating },
                ActionView::RenderConfig(s.config),
            ),
        },
        Stage::AwaitSaveRender { creating } => match e {
            EventView::ConfigRendered(Ok(t)) => ask(
                s,
                Stage::AwaitSaveWrite { creating: creating },
                ActionView::WriteFile(config_file(s), t),
            ),
            EventView::ConfigRendered(Err(err)) => finish(
                s,
                Err("cannot serialize config: "@ + err),
            ),
            _ => finish(s, Ok(())),
        },
        Stage::AwaitSaveWrite { creating } => match e {
            EventView::Done(Err(err)) => finish(
                s,
                Err("cannot write "@ + shown(config_file(s)) + ": "@ + err),
            ),
            _ => if creating {
                after_load(s)
            } else {
                conclude(s, confirmation_text(update_key(s.command), s.value) + "\n"@)
            },
        },
        Stage::AwaitShowRender => match e {
            EventView::ConfigRendered(Ok(t)) => conclude(s, t),
            EventView::ConfigRendered(Err(err)) => finish(
                s,
                Err("cannot serialize config: "@ + err),
            ),
            _ => finish(s, Ok(())),
        },
        Stage::AwaitPermission => match e {
            EventView::Granted(true) => ask(s, Stage::AwaitTap, ActionView::CreateTap(s.config)),
            _ => finish(s, Err(permission_missing())),
        },
        Stage::AwaitTap => match e {
            EventView::Created(true) => ask(s, Stage::AwaitSource, ActionView::CreateSource),
            _ => finish(s, Err("cannot create CGEventTap; verify Accessibility permission"@)),
        },
        Stage::AwaitSource => match e {
            EventView::Created(true) => ask(s, Stage::AwaitActivation, ActionView::ActivateTap),
            _ => finish(s, Err("cannot create run loop source"@)),
        },
        Stage::AwaitActivation => ask(
            s,
            Stage::AwaitRunningNotice,
            ActionView::Print("ScrollSplit is running\n"@),
        ),
        Stage::AwaitRunningNotice => ask(s, Stage::AwaitLoop, ActionView::RunLoop),
        Stage::AwaitLoop => finish(s, Ok(())),
        Stage::AwaitExists => match e {
            EventView::Exists(true) => bootstrap(s),
            _ => finish(s, Err(not_installed())),
        },
        Stage::AwaitBootout => match e {
            EventView::Launched(out) => match s.command {
                CommandView::Restart => ask(s, Stage::AwaitHome, ActionView::LookupHome),
                CommandView::Stop => match launchctl_outcome(s.args, out) {
                    Err(m) => finish(s, Err(m)),
                    Ok(()) => conclude(s, "Stopped "@ + LABEL@ + "\n"@),
                },
                CommandView::Install => bootstrap(s),
                _ => ask(s, Stage::AwaitRemoval, ActionView::RemoveFile(agent_file(s))),
            },
            _ => finish(s, Ok(())),
        },
        Stage::AwaitBootstrap => match e {
            EventView::Launched(out) => match s.command {
                CommandView::Install => match launchctl_outcome(s.args, out) {
                    Err(m) => finish(s, Err(m)),
                    Ok(()) => conclude(
                        s,
                        "Installed and started "@ + shown(agent_file(s)) + "\n"@,
                    ),
                },
                _ => match launchctl_outcome(s.args, out) {
                    Err(_) => launch(
                        s,
                        Stage::AwaitKickstart,
                        seq!["kickstart"@, "-k"@, target_text(s.uid)],
                    ),
                    Ok(()) => conclude(s, started_line()),
                },
            },
            _ => finish(s, Ok(())),
        },
        Stage::AwaitKickstart => match e {
            EventView::Launched(out) => match launchctl_outcome(s.args, out) {
                Err(m) => finish(s, Err(m)),
                Ok(()) => conclude(s, started_line()),
            },
            _ => finish(s, Ok(())),
        },
        Stage::AwaitStatus => match e {
            EventView::Launched(Err(err)) => finish(s, Err(launch_failure(err))),
            EventView::Launched(Ok(out)) => if out.success {
                conclude(s, utf8_lossy(out.stdout))
            } else {
                finish(s, Err(LABEL@ + " is not running"@))
            },
            _ => finish(s, Ok(())),
        },
        Stage::AwaitExecutable => match e {
            EventView::Located(Ok(p)) => ask(s, Stage::AwaitResolved, ActionView::ResolvePath(p)),
            EventView::Located(Err(err)) => finish(
                s,
                Err("cannot locate current executable: "@ + err),
            ),
            _ => finish(s, Ok(())),
        },
        Stage::AwaitResolved => match e {
            EventView::Located(Ok(p)) => ask(
                SessionView { executable: p, ..s },
                Stage::AwaitAgentDir,
                ActionView::CreateDir(agent_folder(s)),
            ),
            EventView::Located(Err(err)) => finish(
                s,
                Err("cannot resolve executable path: "@ + err),
            ),
            _ => finish(s, Ok(())),
        },
        Stage::AwaitAgentDir => match e {
            EventView::Done(Err(err)) => finish(
                s,
                Err("cannot create LaunchAgents directory: "@ + err),
            ),
            _ => ask(
                s,
                Stage::AwaitPlistWrite,
                ActionView::WriteFile(agent_file(s), plist_text(s.executable)),
            ),
        },
        Stage::AwaitPlistWrite => match e {
            EventView::Done(Err(err)) => finish(
                s,
                Err("cannot write "@ + shown(agent_file(s)) + ": "@ + err),
            ),
            _ => launch(s, Stage::AwaitBootout, bootout_view(s.uid)),
        },
        Stage::AwaitRemoval => match e {
            EventView::Removed(RemovalView::Removed) => conclude(
                s,
                "Removed "@ + shown(agent_file(s)) + "\n"@,
            ),
            EventView::Removed(RemovalView::Failed(err)) => finish(
                s,
                Err("cannot remove "@ + shown(agent_file(s)) + ": "@ + err),
            ),
            _ => conclude(s, "Service is not installed\n"@),
        },
        Stage::AwaitFinalPrint => finish(s, Ok(())),
        Stage::Finished => finish(s, Ok(())),
    }
}

/// A fresh session for `command`.
pub open spec fn initial(command: CommandView) -> SessionView {
    SessionView {
        command: command,
        stage: Stage::Ready,
        home: Seq::empty(),
        uid: 0,
        config: default_config(),
        value: false,
        args: Seq::empty(),
        executable: Seq::empty(),
    }
}

// ---------------------------------------------------------------------------
// Messages
// ---------------------------------------------------------------------------

/// `prefix` followed by `detail`.
fn prefixed(prefix: &str, detail: &String) -> (r: String)
    ensures
        r@ == prefix@ + detail@,
{
    let mut m = owned(prefix);
    m.append(detail.as_str());
    m
}

/// `prefix`, the path as shown, `": "` and `detail`.
fn about_path(prefix: &str, path: &Vec<u8>, detail: &String) -> (r: String)
    ensures
        r@ == prefix@ + shown(path@) + ": "@ + detail@,
{
    let mut m = owned(prefix);
    let p = show_path(path);
    m.append(p.as_str());
    m.append(": ");
    m.append(detail.as_str());
    m
}

/// `prefix`, the path as shown and a line break.
fn path_line(prefix: &str, path: &Vec<u8>) -> (r: String)
    ensures
        r@ == prefix@ + shown(path@) + "\n"@,
{
    let mut m = owned(prefix);
    let p = show_path(path);
    m.append(p.as_str());
    m.append("\n");
    m
}

/// The line that reports a started agent.
fn started() -> (r: String)
    ensures
        r@ == started_line(),
{
    let mut m = owned("Started ");
    m.append(LABEL);
    m.append("\n");
    m
}

impl Session {
    /// A fresh session for `command`.
    pub fn new(command: Command) -> (s: Session)
        ensures
            s@ == initial(command@),
    {
        let s = Session {
            command,
            stage: Stage::Ready,
            home: Vec::new(),
            uid: 0,
            config: Config {
                enabled: true,
                reverse_mouse: true,
                reverse_trackpad: false,
                reverse_horizontal: false,
            },
            value: false,
            args: Vec::new(),
            executable: Vec::new(),
        };
        assert(s@.args =~= Seq::<Seq<char>>::empty());
        s
    }

    /// Whether the session is over.
    pub fn is_finished(&self) -> (r: bool)
        ensures
            r == (self@.stage == Stage::Finished),
    {
        match self.stage {
            Stage::Finished => true,
            _ => false,
        }
    }

    /// Whether `event` is the kind of report the session waits for.
    pub fn accepts(&self, event: &Event) -> (r: bool)
        ensures
            r == awaits(self@.stage, event@),
    {
        match self.stage {
            Stage::Ready => matches!(event, Event::Begin),
            Stage::AwaitHome => matches!(event, Event::Home(_)),
            Stage::AwaitUid => matches!(event, Event::Uid(_)),
            Stage::AwaitConfigRead => matches!(event, Event::FileRead(_)),
            Stage::AwaitConfigParse => matches!(event, Event::ConfigParsed(_)),
            Stage::AwaitSaveDir { .. } => matches!(event, Event::Done(_)),
            Stage::AwaitSaveRender { .. } => matches!(event, Event::ConfigRendered(_)),
            Stage::AwaitSaveWrite { .. } => matches!(event, Event::Done(_)),
            Stage::AwaitShowRender => matches!(event, Event::ConfigRendered(_)),
            Stage::AwaitPermission => matches!(event, Event::Granted(_)),
            Stage::AwaitTap => matches!(event, Event::Created(_)),
            Stage::AwaitSource => matches!(event, Event::Created(_)),
            Stage::AwaitActivation => matches!(event, Event::Acknowledged),
            Stage::AwaitRunningNotice => matches!(event, Event::Acknowledged),
            Stage::AwaitLoop => matches!(event, Event::Acknowledged),
            Stage::AwaitExists => matches!(event, Event::Exists(_)),
            Stage::AwaitBootout => matches!(event, Event::Launched(_)),
            Stage::AwaitBootstrap => matches!(event, Event::Launched(_)),
            Stage::AwaitKickstart => matches!(event, Event::Launched(_)),
            Stage::AwaitStatus => matches!(event, Event::Launched(_)),
            Stage::AwaitExecutable => matches!(event, Event::Located(_)),
            Stage::AwaitResolved => matches!(event, Event::Located(_)),
            Stage::AwaitAgentDir => matches!(event, Event::Done(_)),
            Stage::AwaitPlistWrite => matches!(event, Event::Done(_)),
            Stage::AwaitRemoval => matches!(event, Event::Removed(_)),
            Stage::AwaitFinalPrint => matches!(event, Event::Acknowledged),
            Stage::Finished => false,
        }
    }

    fn ask(&mut self, stage: Stage, a: Action) -> (r: Action)
        ensures
            (final(self)@, r@) == ask(old(self)@, stage, a@),
    {
        self.stage = stage;
        a
    }

    fn launch(&mut self, stage: Stage, args: Vec<String>, same: Vec<String>) -> (r: Action)
        requires
            arg_views(args@) == arg_views(same@),
        ensures
            (final(self)@, r@) == launch(old(self)@, stage, arg_views(args@)),
    {
        self.stage = stage;
        self.args = args;
        Action::Launchctl(same)
    }

    fn finish(&mut self, r: Result<(), String>) -> (a: Action)
        ensures
            (final(self)@, a@) == finish(old(self)@, result_text(r)),
    {
        self.stage = Stage::Finished;
        Action::Finish(r)
    }

    fn fail(&mut self, m: String) -> (a: Action)
        ensures
            (final(self)@, a@) == finish(old(self)@, Err(m@)),
    {
        self.finish(Err(m))
    }

    fn conclude(&mut self, t: String) -> (a: Action)
        ensures
            (final(self)@, a@) == conclude(old(self)@, t@),
    {
        self.ask(Stage::AwaitFinalPrint, Action::Print(t))
    }
}

impl Session {
    fn begin(&mut self) -> (a: Action)
        ensures
            (final(self)@, a@) == begin(old(self)@),
    {
        let parsed = match &self.command {
            Command::Config(ConfigCommand::Update { value, .. }) => Some(parse_bool(value.as_str())),
            Command::Run => None,
            Command::Config(ConfigCommand::Show) => None,
            _ => {
                return self.ask(Stage::AwaitUid, Action::LookupUid);
            },
        };
        match parsed {
            Some(Err(m)) => self.fail(m),
            Some(Ok(b)) => {
                self.value = b;
                self.ask(Stage::AwaitHome, Action::LookupHome)
            },
            None => self.ask(Stage::AwaitHome, Action::LookupHome),
        }
    }

    fn after_uid(&mut self) -> (a: Action)
        ensures
            (final(self)@, a@) == after_uid(old(self)@),
    {
        match &self.command {
            Command::Restart | Command::Stop => {
                let args = bootout_args(self.uid);
                let same = bootout_args(self.uid);
                self.launch(Stage::AwaitBootout, args, same)
            },
            Command::Status => {
                let args = print_args(self.uid);
                let same = print_args(self.uid);
                self.launch(Stage::AwaitStatus, args, same)
            },
            _ => self.ask(Stage::AwaitHome, Action::LookupHome),
        }
    }

    fn after_home(&mut self) -> (a: Action)
        ensures
            (final(self)@, a@) == after_home(old(self)@),
    {
        match &self.command {
            Command::InstallService => self.ask(Stage::AwaitExecutable, Action::LocateExecutable),
            Command::UninstallService => {
                let args = bootout_args(self.uid);
                let same = bootout_args(self.uid);
                self.launch(Stage::AwaitBootout, args, same)
            },
            Command::Start | Command::Restart => {
                let p = plist_path(&self.home);
                self.ask(Stage::AwaitExists, Action::PathExists(p))
            },
            _ => {
                let p = config_path(&self.home);
                self.ask(Stage::AwaitConfigRead, Action::ReadFile(p))
            },
        }
    }

    fn bootstrap(&mut self) -> (a: Action)
        ensures
            (final(self)@, a@) == bootstrap(old(self)@),
    {
        let plist = plist_path(&self.home);
        match path_string(&plist) {
            Err(m) => self.fail(m),
            Ok(p) => {
                let args = bootstrap_args(self.uid, &p);
                let same = bootstrap_args(self.uid, &p);
                self.launch(Stage::AwaitBootstrap, args, same)
            },
        }
    }

    fn after_load(&mut self) -> (a: Action)
        ensures
            (final(self)@, a@) == after_load(old(self)@),
    {
        match &self.command {
            Command::Config(ConfigCommand::Show) => {
                let c = self.config;
                return self.ask(Stage::AwaitShowRender, Action::RenderConfig(c));
            },
            Command::Config(ConfigCommand::Update { key, .. }) => {
                let key = key.clone();
                let outcome = self.config.set(key.as_str(), self.value);
                return match outcome {
                    Err(m) => self.fail(m),
                    Ok(()) => {
                        let d = config_dir(&self.home);
                        self.ask(Stage::AwaitSaveDir { creating: false }, Action::CreateDir(d))
                    },
                };
            },
            _ => {},
        }
        if self.config.enabled {
            self.ask(Stage::AwaitPermission, Action::RequestPermission)
        } else {
            self.conclude(owned("ScrollSplit is disabled in the configuration\n"))
        }
    }
}

impl Session {
    /// Takes the host's report on the last request and decides the next
    /// request (see `step`).
    pub fn next(&mut self, event: Event) -> (a: Action)
        requires
            awaits(old(self)@.stage, event@),
        ensures
            (final(self)@, a@) == step(old(self)@, event@),
    {
        match self.stage {
            Stage::Ready => self.begin(),
            Stage::AwaitUid => match event {
                Event::Uid(u) => {
                    self.uid = u;
                    self.after_uid()
                },
                _ => self.finish(Ok(())),
            },
            Stage::AwaitHome => match event {
                Event::Home(Some(h)) => {
                    self.home = h;
                    self.after_home()
                },
                _ => self.fail(owned("HOME is not set")),
            },
            Stage::AwaitConfigRead => match event {
                Event::FileRead(FileRead::Contents(t)) => self.ask(
                    Stage::AwaitConfigParse,
                    Action::ParseConfig(t),
                ),
                Event::FileRead(FileRead::Failed(err)) => {
                    let p = config_path(&self.home);
                    self.fail(about_path("cannot read ", &p, &err))
                },
                _ => {
                    self.config = Config::default();
                    let d = config_dir(&self.home);
                    self.ask(Stage::AwaitSaveDir { creating: true }, Action::CreateDir(d))
                },
            },
            Stage::AwaitConfigParse => match event {
                Event::ConfigParsed(Ok(c)) => {
                    self.config = c;
                    self.after_load()
                },
                Event::ConfigParsed(Err(err)) => {
                    let p = config_path(&self.home);
                    self.fail(about_path("cannot parse ", &p, &err))
                },
                _ => self.finish(Ok(())),
            },
            Stage::AwaitSaveDir { creating } => match event {
                Event::Done(Err(err)) => {
                    let d = config_dir(&self.home);
                    self.fail(about_path("cannot create ", &d, &err))
                },
                _ => {
                    let c = self.config;
                    self.ask(Stage::AwaitSaveRender { creating }, Action::RenderConfig(c))
                },
            },
            Stage::AwaitSaveRender { creating } => match event {
                Event::ConfigRendered(Ok(t)) => {
                    let p = config_path(&self.home);
                    self.ask(Stage::AwaitSaveWrite { creating }, Action::WriteFile(p, t))
                },
                Event::ConfigRendered(Err(err)) => self.fail(
                    prefixed("cannot serialize config: ", &err),
                ),
                _ => self.finish(Ok(())),
            },
            Stage::AwaitSaveWrite { creating } => match event {
                Event::Done(Err(err)) => {
                    let p = config_path(&self.home);
                    self.fail(about_path("cannot write ", &p, &err))
                },
                _ => {
                    if creating {
                        self.after_load()
                    } else {
                        let mut line = match &self.command {
                            Command::Config(ConfigCommand::Update { key, .. }) => set_confirmation(
                                key.as_str(),
                                self.value,
                            ),
                            _ => {
                                let none = String::new();
                                set_confirmation(none.as_str(), self.value)
                            },
                        };
                        line.append("\n");
                        self.conclude(line)
                    }
                },
            },
            Stage::AwaitShowRender => match event {
                Event::ConfigRendered(Ok(t)) => self.conclude(t),
                Event::ConfigRendered(Err(err)) => self.fail(
                    prefixed("cannot serialize config: ", &err),
                ),
                _ => self.finish(Ok(())),
            },
            Stage::AwaitPermission => match event {
                Event::Granted(true) => {
                    let c = self.config;
                    self.ask(Stage::AwaitTap, Action::CreateTap(c))
                },
                _ => self.fail(
                    owned(
                        "Accessibility permission is required. Enable ScrollSplit in System Settings > Privacy & Security > Accessibility, then run it again.",
                    ),
                ),
            },
            Stage::AwaitTap => match event {
                Event::Created(true) => self.ask(Stage::AwaitSource, Action::CreateSource),
                _ => self.fail(owned("cannot create CGEventTap; verify Accessibility permission")),
            },
            Stage::AwaitSource => match event {
                Event::Created(true) => self.ask(Stage::AwaitActivation, Action::ActivateTap),
                _ => self.fail(owned("cannot create run loop source")),
            },
            Stage::AwaitActivation => self.ask(
                Stage::AwaitRunningNotice,
                Action::Print(owned("ScrollSplit is running\n")),
            ),
            Stage::AwaitRunningNotice => self.ask(Stage::AwaitLoop, Action::RunLoop),
            Stage::AwaitLoop => self.finish(Ok(())),
            Stage::AwaitExists => match event {
                Event::Exists(true) => self.bootstrap(),
                _ => self.fail(owned("service is not installed; run `scrollsplit install-service`")),
            },
            Stage::AwaitBootout => match event {
                Event::Launched(out) => match &self.command {
                    Command::Restart => self.ask(Stage::AwaitHome, Action::LookupHome),
                    Command::Stop => match run_launchctl(&self.args, &out) {
                        Err(m) => self.fail(m),
                        Ok(()) => {
                            let mut line = owned("Stopped ");
                            line.append(LABEL);
                            line.append("\n");
                            self.conclude(line)
                        },
                    },
                    Command::InstallService => self.bootstrap(),
                    _ => {
                        let p = plist_path(&self.home);
                        self.ask(Stage::AwaitRemoval, Action::RemoveFile(p))
                    },
                },
                _ => self.finish(Ok(())),
            },
            Stage::AwaitBootstrap => match event {
                Event::Launched(out) => {
                    let outcome = run_launchctl(&self.args, &out);
                    match &self.command {
                        Command::InstallService => match outcome {
                            Err(m) => self.fail(m),
                            Ok(()) => {
                                let p = plist_path(&self.home);
                                self.conclude(path_line("Installed and started ", &p))
                            },
                        },
                        _ => match outcome {
                            Err(_) => {
                                let args = kickstart_args(self.uid);
                                let same = kickstart_args(self.uid);
                                self.launch(Stage::AwaitKickstart, args, same)
                            },
                            Ok(()) => self.conclude(started()),
                        },
                    }
                },
                _ => self.finish(Ok(())),
            },
            Stage::AwaitKickstart => match event {
                Event::Launched(out) => match run_launchctl(&self.args, &out) {
                    Err(m) => self.fail(m),
                    Ok(()) => self.conclude(started()),
                },
                _ => self.finish(Ok(())),
            },
            Stage::AwaitStatus => match event {
                Event::Launched(Err(err)) => self.fail(prefixed("cannot run launchctl: ", &err)),
                Event::Launched(Ok(out)) => {
                    if out.success {
                        self.conclude(lossy_text(out.stdout.as_slice()))
                    } else {
                        let mut m = owned(LABEL);
                        m.append(" is not running");
                        self.fail(m)
                    }
                },
                _ => self.finish(Ok(())),
            },
            Stage::AwaitExecutable => match event {
                Event::Located(Ok(p)) => self.ask(Stage::AwaitResolved, Action::ResolvePath(p)),
                Event::Located(Err(err)) => self.fail(
                    prefixed("cannot locate current executable: ", &err),
                ),
                _ => self.finish(Ok(())),
            },
            Stage::AwaitResolved => match event {
                Event::Located(Ok(p)) => {
                    self.executable = p;
                    let d = agent_dir(&self.home);
                    self.ask(Stage::AwaitAgentDir, Action::CreateDir(d))
                },
                Event::Located(Err(err)) => self.fail(
                    prefixed("cannot resolve executable path: ", &err),
                ),
                _ => self.finish(Ok(())),
            },
            Stage::AwaitAgentDir => match event {
                Event::Done(Err(err)) => self.fail(
                    prefixed("cannot create LaunchAgents directory: ", &err),
                ),
                _ => {
                    let p = plist_path(&self.home);
                    let text = render_plist(&self.executable);
                    self.ask(Stage::AwaitPlistWrite, Action::WriteFile(p, text))
                },
            },
            Stage::AwaitPlistWrite => match event {
                Event::Done(Err(err)) => {
                    let p = plist_path(&self.home);
                    self.fail(about_path("cannot write ", &p, &err))
                },
                _ => {
                    let args = bootout_args(self.uid);
                    let same = bootout_args(self.uid);
                    self.launch(Stage::AwaitBootout, args, same)
                },
            },
            Stage::AwaitRemoval => match event {
                Event::Removed(Removal::Removed) => {
                    let p = plist_path(&self.home);
                    self.conclude(path_line("Removed ", &p))
                },
                Event::Removed(Removal::Failed(err)) => {
                    let p = plist_path(&self.home);
                    self.fail(about_path("cannot remove ", &p, &err))
                },
                _ => self.conclude(owned("Service is not installed\n")),
            },
            Stage::AwaitFinalPrint => self.finish(Ok(())),
            Stage::Finished => self.finish(Ok(())),
        }
    }
}

// ---------------------------------------------------------------------------
// Laws
// ---------------------------------------------------------------------------

/// Every step that ends the session leaves it finished, and a finished
/// session waits for nothing more.
pub proof fn lemma_finish_is_final(s: SessionView, e: EventView)
    ensures
        step(s, e).1 is Finish ==> step(s, e).0.stage == Stage::Finished,
        !(step(s, e).1 is Finish) ==> step(s, e).0.stage != Stage::Finished,
        !awaits(Stage::Finished, e),
{
}

/// A restart stops the agent first and goes on the same way whether or not
/// stopping worked: next it looks up the home directory, as a start does.
pub proof fn lemma_restart_ignores_stop_outcome(
    s: SessionView,
    a: Result<OutputView, Seq<char>>,
    b: Result<OutputView, Seq<char>>,
)
    requires
        s.stage == Stage::AwaitBootout,
        s.command == CommandView::Restart,
    ensures
        step(s, EventView::Launched(a)) == step(s, EventView::Launched(b)),
        step(s, EventView::Launched(a)).1 == ActionView::LookupHome,
        step(s, EventView::Launched(a)).0.stage == Stage::AwaitHome,
{
}

/// Starting (or restarting) loads the agent; when loading fails, it asks
/// the running agent to restart instead, and only that second failure is
/// reported.
pub proof fn lemma_start_falls_back_to_kickstart(s: SessionView, out: Result<OutputView, Seq<char>>)
    requires
        s.stage == Stage::AwaitBootstrap,
        s.command == CommandView::Start || s.command == CommandView::Restart,
    ensures
        launchctl_outcome(s.args, out) is Err ==> step(s, EventView::Launched(out)).1
            == ActionView::Launchctl(seq!["kickstart"@, "-k"@, target_text(s.uid)]),
        launchctl_outcome(s.args, out) is Ok ==> step(s, EventView::Launched(out)).1
            == ActionView::Print(started_line()),
{
}

/// Setting a value writes back the configuration that was read, with
/// exactly the named setting changed.
pub proof fn lemma_update_writes_changed_config(
    s: SessionView,
    key: Seq<char>,
    text: Seq<char>,
    loaded: Config,
)
    requires
        s.stage == Stage::AwaitConfigParse,
        s.command == CommandView::Update(key, text),
        is_config_key(key),
    ensures
        ({
            let (s1, a1) = step(s, EventView::ConfigParsed(Ok(loaded)));
            let (s2, a2) = step(s1, EventView::Done(Ok(())));
            &&& a1 == ActionView::CreateDir(config_folder(s))
            &&& a2 == ActionView::RenderConfig(loaded.with_field(key, s.value))
        }),
{
}

/// A missing configuration file is created with the default configuration,
/// which is then the one the command works with.
pub proof fn lemma_missing_config_gets_default(s: SessionView)
    requires
        s.stage == Stage::AwaitConfigRead,
    ensures
        ({
            let (s1, a1) = step(s, EventView::FileRead(FileReadView::Missing));
            let (s2, a2) = step(s1, EventView::Done(Ok(())));
            &&& a1 == ActionView::CreateDir(config_folder(s))
            &&& a2 == ActionView::RenderConfig(default_config())
            &&& s2.config == default_config()
        }),
{
}

/// An unknown setting name is refused once the configuration is loaded,
/// before anything is written.
pub proof fn lemma_unknown_key_writes_nothing(
    s: SessionView,
    key: Seq<char>,
    text: Seq<char>,
    loaded: Config,
)
    requires
        s.stage == Stage::AwaitConfigParse,
        s.command == CommandView::Update(key, text),
        !is_config_key(key),
    ensures
        step(s, EventView::ConfigParsed(Ok(loaded))).1 == ActionView::Finish(
            Err(unknown_key_message(key)),
        ),
{
}

/// A value that is not a boolean is refused at once, before the
/// configuration is even read.
pub proof fn lemma_bad_value_refused_first(s: SessionView, key: Seq<char>, text: Seq<char>)
    requires
        s.stage == Stage::Ready,
        s.command == CommandView::Update(key, text),
        parsed_bool(text) is Err,
    ensures
        step(s, EventView::Begin).1 == ActionView::Finish(
            Err(parsed_bool(text)->Err_0),
        ),
{
}

/// When the configuration is disabled, running neither asks for the
/// permission nor installs a tap: it says so and ends successfully.
pub proof fn lemma_disabled_run_installs_nothing(s: SessionView, loaded: Config)
    requires
        s.stage == Stage::AwaitConfigParse,
        s.command == CommandView::Run,
        !loaded.enabled,
    ensures
        ({
            let (s1, a1) = step(s, EventView::ConfigParsed(Ok(loaded)));
            let (s2, a2) = step(s1, EventView::Acknowledged);
            &&& a1 == ActionView::Print("ScrollSplit is disabled in the configuration\n"@)
            &&& a2 == ActionView::Finish(Ok(()))
        }),
{
}

/// The tap is created with exactly the configuration that was loaded.
pub proof fn lemma_tap_uses_loaded_config(s: SessionView, loaded: Config)
    requires
        s.stage == Stage::AwaitConfigParse,
        s.command == CommandView::Run,
        loaded.enabled,
    ensures
        ({
            let (s1, a1) = step(s, EventView::ConfigParsed(Ok(loaded)));
            let (s2, a2) = step(s1, EventView::Granted(true));
            &&& a1 == ActionView::RequestPermission
            &&& a2 == ActionView::CreateTap(loaded)
        }),
{
}

/// Removing an agent that is not installed is no error.
pub proof fn lemma_uninstall_of_missing_agent_succeeds(s: SessionView)
    requires
        s.stage == Stage::AwaitRemoval,
    ensures
        ({
            let (s1, a1) = step(s, EventView::Removed(RemovalView::Missing));
            let (s2, a2) = step(s1, EventView::Acknowledged);
            &&& a1 == ActionView::Print("Service is not installed\n"@)
            &&& a2 == ActionView::Finish(Ok(()))
        }),
{
}

/// How many more requests a session at `s` can make at most.
pub open spec fn remaining_bound(s: SessionView) -> nat {
    match s.stage {
        Stage::Ready => 40,
        Stage::AwaitUid => 38,
        Stage::AwaitBootout => if s.command == CommandView::Restart {
            37
        } else {
            12
        },
        Stage::AwaitHome => 36,
        Stage::AwaitConfigRead => 30,
        Stage::AwaitConfigParse => 29,
        Stage::AwaitSaveDir { creating } => if creating {
            28
        } else {
            24
        },
        Stage::AwaitSaveRender { creating } => if creating {
            27
        } else {
            23
        },
        Stage::AwaitSaveWrite { creating } => if creating {
            26
        } else {
            22
        },
        Stage::AwaitShowRender => 20,
        Stage::AwaitPermission => 20,
        Stage::AwaitTap => 19,
        Stage::AwaitSource => 18,
        Stage::AwaitActivation => 17,
        Stage::AwaitRunningNotice => 16,
        Stage::AwaitLoop => 15,
        Stage::AwaitExecutable => if s.command == CommandView::Restart {
            41
        } else {
            16
        },
        Stage::AwaitResolved => if s.command == CommandView::Restart {
            40
        } else {
            15
        },
        Stage::AwaitAgentDir => if s.command == CommandView::Restart {
            39
        } else {
            14
        },
        Stage::AwaitExists => 14,
        Stage::AwaitPlistWrite => if s.command == CommandView::Restart {
            38
        } else {
            13
        },
        Stage::AwaitBootstrap => 10,
        Stage::AwaitKickstart => 9,
        Stage::AwaitStatus => 8,
        Stage::AwaitRemoval => 4,
        Stage::AwaitFinalPrint => 1,
        Stage::Finished => 0,
    }
}

/// Every command comes to an end: each step of an unfinished session
/// lowers `remaining_bound`, so a fresh session makes at most forty
/// requests before it finishes.
pub proof fn lemma_every_session_ends(s: SessionView, e: EventView)
    requires
        s.stage != Stage::Finished,
    ensures
        remaining_bound(step(s, e).0) < remaining_bound(s),
{
}

// ---------------------------------------------------------------------------
// Whole conversations
// ---------------------------------------------------------------------------

/// The requests a session at `s` makes when the host answers with `events`,
/// one request per report.
pub open spec fn actions_from(s: SessionView, events: Seq<EventView>) -> Seq<ActionView>
    decreases events.len(),
{
    if events.len() == 0 {
        Seq::empty()
    } else {
        seq![step(s, events[0]).1] + actions_from(step(s, events[0]).0, events.drop_first())
    }
}

/// The state a session at `s` reaches once the host has answered with
/// `events`.
pub open spec fn state_after(s: SessionView, events: Seq<EventView>) -> SessionView
    decreases events.len(),
{
    if events.len() == 0 {
        s
    } else {
        state_after(step(s, events[0]).0, events.drop_first())
    }
}

/// A conversation has one request per report.
pub proof fn lemma_actions_from_len(s: SessionView, events: Seq<EventView>)
    ensures
        actions_from(s, events).len() == events.len(),
    decreases events.len(),
{
    if events.len() > 0 {
        lemma_actions_from_len(step(s, events[0]).0, events.drop_first());
    }
}

/// A conversation split in two: the requests for `a + b` are those for `a`
/// followed by those for `b` from where `a` left the session.
pub proof fn lemma_actions_from_append(s: SessionView, a: Seq<EventView>, b: Seq<EventView>)
    ensures
        actions_from(s, a + b) == actions_from(s, a) + actions_from(state_after(s, a), b),
    decreases a.len(),
{
    if a.len() == 0 {
        assert(a + b =~= b);
        assert(actions_from(s, a) =~= Seq::<ActionView>::empty());
        assert(actions_from(s, a + b) =~= actions_from(s, a) + actions_from(state_after(s, a), b));
    } else {
        assert((a + b)[0] == a[0]);
        assert((a + b).drop_first() =~= a.drop_first() + b);
        lemma_actions_from_append(step(s, a[0]).0, a.drop_first(), b);
        assert(actions_from(s, a + b) =~= actions_from(s, a) + actions_from(state_after(s, a), b));
    }
}

// ----- restart is stop, then start --------------------------------------------

/// The stages a start goes through once its home directory is asked for.
pub open spec fn start_phase(stage: Stage) -> bool {
    ||| stage == Stage::AwaitHome
    ||| stage == Stage::AwaitExists
    ||| stage == Stage::AwaitBootstrap
    ||| stage == Stage::AwaitKickstart
    ||| stage == Stage::AwaitFinalPrint
    ||| stage == Stage::Finished
}

/// `r`, a restart, and `t`, a start, stand at the same point of the start
/// phase with the same knowledge: they differ at most in the command, and
/// in the `launchctl` arguments where those are not read before they are
/// set again.
pub open spec fn restart_matches_start(r: SessionView, t: SessionView) -> bool {
    &&& r.command == CommandView::Restart
    &&& t.command == CommandView::Start
    &&& r.stage == t.stage
    &&& start_phase(r.stage)
    &&& r.home == t.home
    &&& r.uid == t.uid
    &&& r.config == t.config
    &&& r.value == t.value
    &&& r.executable == t.executable
    &&& (r.stage == Stage::AwaitBootstrap || r.stage == Stage::AwaitKickstart) ==> r.args == t.args
}

/// In the start phase a restart asks exactly what a start asks, and the two
/// stay matched.
pub proof fn lemma_restart_step_matches_start(r: SessionView, t: SessionView, e: EventView)
    requires
        restart_matches_start(r, t),
    ensures
        step(r, e).1 == step(t, e).1,
        restart_matches_start(step(r, e).0, step(t, e).0),
{
}

/// Matched, a restart and a start make the same requests for every sequence
/// of reports.
pub proof fn lemma_restart_runs_as_start(r: SessionView, t: SessionView, events: Seq<EventView>)
    requires
        restart_matches_start(r, t),
    ensures
        actions_from(r, events) == actions_from(t, events),
    decreases events.len(),
{
    if events.len() > 0 {
        lemma_restart_step_matches_start(r, t, events[0]);
        lemma_restart_runs_as_start(step(r, events[0]).0, step(t, events[0]).0, events.drop_first());
    }
}

/// Restarting is stopping, then starting: a restart asks for the user id,
/// runs `launchctl bootout` for that user, and, whatever that gave, makes
/// from then on the very requests a start makes for the same user and the
/// same reports.
pub proof fn lemma_restart_is_stop_then_start(
    uid: u32,
    stopped: Result<OutputView, Seq<char>>,
    events: Seq<EventView>,
)
    ensures
        actions_from(
            initial(CommandView::Restart),
            seq![EventView::Begin, EventView::Uid(uid), EventView::Launched(stopped)] + events,
        ) == seq![
            ActionView::LookupUid,
            ActionView::Launchctl(bootout_view(uid)),
            ActionView::LookupHome,
        ] + actions_from(
            state_after(initial(CommandView::Start), seq![EventView::Begin, EventView::Uid(uid)]),
            events,
        ),
        actions_from(
            initial(CommandView::Start),
            seq![EventView::Begin, EventView::Uid(uid)] + events,
        ) == seq![ActionView::LookupUid, ActionView::LookupHome] + actions_from(
            state_after(initial(CommandView::Start), seq![EventView::Begin, EventView::Uid(uid)]),
            events,
        ),
{
    let prefix_r = seq![EventView::Begin, EventView::Uid(uid), EventView::Launched(stopped)];
    let prefix_t = seq![EventView::Begin, EventView::Uid(uid)];
    let r0 = initial(CommandView::Restart);
    let t0 = initial(CommandView::Start);
    lemma_actions_from_append(r0, prefix_r, events);
    lemma_actions_from_append(t0, prefix_t, events);
    let r1 = step(r0, EventView::Begin).0;
    let r2 = step(r1, EventView::Uid(uid)).0;
    let r3 = step(r2, EventView::Launched(stopped)).0;
    let t1 = step(t0, EventView::Begin).0;
    let t2 = step(t1, EventView::Uid(uid)).0;
    assert(prefix_r.drop_first() =~= seq![EventView::Uid(uid), EventView::Launched(stopped)]);
    assert(prefix_r.drop_first().drop_first() =~= seq![EventView::Launched(stopped)]);
    assert(prefix_r.drop_first().drop_first().drop_first() =~= Seq::<EventView>::empty());
    assert(prefix_t.drop_first() =~= seq![EventView::Uid(uid)]);
    assert(prefix_t.drop_first().drop_first() =~= Seq::<EventView>::empty());
    assert(prefix_r[0] == EventView::Begin);
    assert(prefix_r.drop_first()[0] == EventView::Uid(uid));
    assert(prefix_r.drop_first().drop_first()[0] == EventView::Launched(stopped));
    assert(prefix_t[0] == EventView::Begin);
    assert(prefix_t.drop_first()[0] == EventView::Uid(uid));
    assert(state_after(r3, prefix_r.drop_first().drop_first().drop_first()) == r3);
    assert(state_after(r2, prefix_r.drop_first().drop_first()) == r3);
    assert(state_after(r1, prefix_r.drop_first()) == r3);
    assert(state_after(r0, prefix_r) == r3);
    assert(state_after(t2, prefix_t.drop_first().drop_first()) == t2);
    assert(state_after(t1, prefix_t.drop_first()) == t2);
    assert(state_after(t0, prefix_t) == t2);
    assert(step(r0, EventView::Begin).1 == ActionView::LookupUid);
    assert(step(r1, EventView::Uid(uid)).1 == ActionView::Launchctl(bootout_view(uid)));
    assert(step(r2, EventView::Launched(stopped)).1 == ActionView::LookupHome);
    assert(step(t0, EventView::Begin).1 == ActionView::LookupUid);
    assert(step(t1, EventView::Uid(uid)).1 == ActionView::LookupHome);
    let er3 = prefix_r.drop_first().drop_first().drop_first();
    let er2 = prefix_r.drop_first().drop_first();
    let er1 = prefix_r.drop_first();
    assert(actions_from(r3, er3) =~= Seq::<ActionView>::empty());
    assert(actions_from(r2, er2) =~= seq![ActionView::LookupHome]);
    assert(actions_from(r1, er1) =~= seq![
        ActionView::Launchctl(bootout_view(uid)),
        ActionView::LookupHome,
    ]);
    let et2 = prefix_t.drop_first().drop_first();
    let et1 = prefix_t.drop_first();
    assert(actions_from(t2, et2) =~= Seq::<ActionView>::empty());
    assert(actions_from(t1, et1) =~= seq![ActionView::LookupHome]);
    assert(actions_from(r0, prefix_r) =~= seq![
        ActionView::LookupUid,
        ActionView::Launchctl(bootout_view(uid)),
        ActionView::LookupHome,
    ]);
    assert(actions_from(t0, prefix_t) =~= seq![ActionView::LookupUid, ActionView::LookupHome]);
    assert(restart_matches_start(r3, t2));
    lemma_restart_runs_as_start(r3, t2, events);
}

// ----- which command touches what --------------------------------------------

/// The stages a session for its command can reach.
pub open spec fn reachable_stage(c: CommandView, stage: Stage) -> bool {
    ||| stage == Stage::Ready
    ||| stage == Stage::AwaitFinalPrint
    ||| stage == Stage::Finished
    ||| match c {
        CommandView::Stop => stage == Stage::AwaitUid || stage == Stage::AwaitBootout,
        CommandView::Status => stage == Stage::AwaitUid || stage == Stage::AwaitStatus,
        CommandView::Start => stage == Stage::AwaitUid || start_phase(stage),
        CommandView::Restart => stage == Stage::AwaitUid || stage == Stage::AwaitBootout
            || start_phase(stage),
        CommandView::Install => {
            ||| stage == Stage::AwaitUid
            ||| stage == Stage::AwaitHome
            ||| stage == Stage::AwaitExecutable
            ||| stage == Stage::AwaitResolved
            ||| stage == Stage::AwaitAgentDir
            ||| stage == Stage::AwaitPlistWrite
            ||| stage == Stage::AwaitBootout
            ||| stage == Stage::AwaitBootstrap
        },
        CommandView::Uninstall => {
            ||| stage == Stage::AwaitUid
            ||| stage == Stage::AwaitHome
            ||| stage == Stage::AwaitBootout
            ||| stage == Stage::AwaitRemoval
        },
        CommandView::Show => {
            ||| stage == Stage::AwaitHome
            ||| stage == Stage::AwaitConfigRead
            ||| stage == Stage::AwaitConfigParse
            ||| stage == Stage::AwaitSaveDir { creating: true }
            ||| stage == Stage::AwaitSaveRender { creating: true }
            ||| stage == Stage::AwaitSaveWrite { creating: true }
            ||| stage == Stage::AwaitShowRender
        },
        CommandView::Update(_, _) => {
            ||| stage == Stage::AwaitHome
            ||| stage == Stage::AwaitConfigRead
            ||| stage == Stage::AwaitConfigParse
            ||| stage is AwaitSaveDir
            ||| stage is AwaitSaveRender
            ||| stage is AwaitSaveWrite
        },
        CommandView::Run => {
            ||| stage == Stage::AwaitHome
            ||| stage == Stage::AwaitConfigRead
            ||| stage == Stage::AwaitConfigParse
            ||| stage == Stage::AwaitSaveDir { creating: true }
            ||| stage == Stage::AwaitSaveRender { creating: true }
            ||| stage == Stage::AwaitSaveWrite { creating: true }
            ||| stage == Stage::AwaitPermission
            ||| stage == Stage::AwaitTap
            ||| stage == Stage::AwaitSource
            ||| stage == Stage::AwaitActivation
            ||| stage == Stage::AwaitRunningNotice
            ||| stage == Stage::AwaitLoop
        },
    }
}

/// The commands that work on the configuration file.
pub open spec fn is_config_command(c: CommandView) -> bool {
    c is Show || c is Update
}

/// The commands that manage the login agent.
pub open spec fn is_service_command(c: CommandView) -> bool {
    c is Start || c is Stop || c is Restart || c is Status || c is Install || c is Uninstall
}

/// What a request may be for a session of command `c`: a configuration
/// command never runs `launchctl`, and an agent command never reads,
/// parses or renders a configuration, nor creates a directory or writes a
/// file other than the agent's.
pub open spec fn fits_command(c: CommandView, s: SessionView, a: ActionView) -> bool {
    &&& is_config_command(c) ==> !(a is Launchctl)
    &&& is_service_command(c) ==> {
        &&& !(a is ReadFile)
        &&& !(a is ParseConfig)
        &&& !(a is RenderConfig)
        &&& a is CreateDir ==> a == ActionView::CreateDir(agent_folder(s))
        &&& a is WriteFile ==> a->WriteFile_0 == agent_file(s)
    }
}

/// One step keeps a session within the stages of its command, and its
/// request fits the command.
pub proof fn lemma_step_fits_command(s: SessionView, e: EventView)
    requires
        reachable_stage(s.command, s.stage),
    ensures
        reachable_stage(step(s, e).0.command, step(s, e).0.stage),
        step(s, e).0.command == s.command,
        step(s, e).0.home == s.home || s.stage == Stage::AwaitHome,
        fits_command(s.command, step(s, e).0, step(s, e).1),
{
}

/// Over a whole conversation, every request of a configuration command
/// leaves `launchctl` alone, and every request of an agent command leaves
/// the configuration alone (see `fits_command`).
pub proof fn lemma_commands_keep_to_their_domain(s: SessionView, events: Seq<EventView>)
    requires
        reachable_stage(s.command, s.stage),
    ensures
        forall|i: int|
            0 <= i < events.len() ==> {
                &&& is_config_command(s.command) ==> !(#[trigger] actions_from(s, events)[i] is Launchctl)
                &&& is_service_command(s.command) ==> {
                    &&& !(actions_from(s, events)[i] is ReadFile)
                    &&& !(actions_from(s, events)[i] is ParseConfig)
                    &&& !(actions_from(s, events)[i] is RenderConfig)
                }
            },
    decreases events.len(),
{
    if events.len() > 0 {
        lemma_step_fits_command(s, events[0]);
        let s1 = step(s, events[0]).0;
        lemma_commands_keep_to_their_domain(s1, events.drop_first());
        lemma_actions_from_len(s1, events.drop_first());
        assert forall|i: int| 0 <= i < events.len() implies {
            &&& is_config_command(s.command) ==> !(#[trigger] actions_from(s, events)[i] is Launchctl)
            &&& is_service_command(s.command) ==> {
                &&& !(actions_from(s, events)[i] is ReadFile)
                &&& !(actions_from(s, events)[i] is ParseConfig)
                &&& !(actions_from(s, events)[i] is RenderConfig)
            }
        } by {
            if i > 0 {
                assert(actions_from(s, events)[i] == actions_from(s1, events.drop_first())[i - 1]);
            }
        }
    }
}

/// A fresh session for any command is at one of its command's stages, so
/// the laws above hold of every session from its start.
pub proof fn lemma_fresh_session_fits(c: CommandView, events: Seq<EventView>)
    ensures
        reachable_stage(initial(c).command, initial(c).stage),
        forall|i: int|
            0 <= i < events.len() ==> {
                &&& is_config_command(c) ==> !(#[trigger] actions_from(initial(c), events)[i] is Launchctl)
                &&& is_service_command(c) ==> {
                    &&& !(actions_from(initial(c), events)[i] is ReadFile)
                    &&& !(actions_from(initial(c), events)[i] is ParseConfig)
                    &&& !(actions_from(initial(c), events)[i] is RenderConfig)
                }
            },
{
    lemma_commands_keep_to_their_domain(initial(c), events);
}

// ----- the configuration a command works with --------------------------------

/// Whatever is being saved, the text the host rendered is exactly what is
/// written, and it goes to the configuration file below the home directory.
pub proof fn lemma_rendered_text_is_written(s: SessionView, t: Seq<char>)
    requires
        s.stage is AwaitSaveRender,
    ensures
        step(s, EventView::ConfigRendered(Ok(t))).1 == ActionView::WriteFile(
            join_path(s.home, text_bytes(config_rel())),
            t,
        ),
{
}

/// A missing configuration file changes nothing but the file: once the
/// defaults are written, the command goes on exactly as if the file had
/// held the default configuration.  For `run` that means asking for the
/// Accessibility permission next, since the defaults are enabled.
pub proof fn lemma_created_default_acts_as_read_default(
    s: SessionView,
    rendered: Seq<char>,
    contents: Seq<char>,
)
    requires
        s.stage == Stage::AwaitConfigRead,
    ensures
        ({
            let (m1, a1) = step(s, EventView::FileRead(FileReadView::Missing));
            let (m2, a2) = step(m1, EventView::Done(Ok(())));
            let (m3, a3) = step(m2, EventView::ConfigRendered(Ok(rendered)));
            let (m4, a4) = step(m3, EventView::Done(Ok(())));
            let (p1, b1) = step(s, EventView::FileRead(FileReadView::Contents(contents)));
            let (p2, b2) = step(p1, EventView::ConfigParsed(Ok(default_config())));
            &&& a3 == ActionView::WriteFile(join_path(s.home, text_bytes(config_rel())), rendered)
            &&& a4 == b2
            &&& m4 == p2
            &&& s.command == CommandView::Run ==> a4 == ActionView::RequestPermission
            &&& s.command == CommandView::Show ==> a4 == ActionView::RenderConfig(
                Config {
                    enabled: true,
                    reverse_mouse: true,
                    reverse_trackpad: false,
                    reverse_horizontal: false,
                },
            )
        }),
{
}

/// `config show` prints what the file holds: it renders exactly the
/// configuration read, prints exactly the rendered text, and ends
/// successfully.
pub proof fn lemma_show_prints_loaded_config(s: SessionView, loaded: Config, t: Seq<char>)
    requires
        s.stage == Stage::AwaitConfigParse,
        s.command == CommandView::Show,
    ensures
        ({
            let (s1, a1) = step(s, EventView::ConfigParsed(Ok(loaded)));
            let (s2, a2) = step(s1, EventView::ConfigRendered(Ok(t)));
            let (s3, a3) = step(s2, EventView::Acknowledged);
            &&& a1 == ActionView::RenderConfig(loaded)
            &&& a2 == ActionView::Print(t)
            &&& a3 == ActionView::Finish(Ok(()))
        }),
{
}

/// `config set` changes exactly the named setting of the configuration
/// read, leaves the other three as they were, and after writing the file
/// confirms with `<key> = true` or `<key> = false`.
pub proof fn lemma_update_changes_named_setting(
    s: SessionView,
    key: Seq<char>,
    text: Seq<char>,
    loaded: Config,
    rendered: Seq<char>,
)
    requires
        s.stage == Stage::AwaitConfigParse,
        s.command == CommandView::Update(key, text),
        is_config_key(key),
    ensures
        ({
            let (s1, a1) = step(s, EventView::ConfigParsed(Ok(loaded)));
            let (s2, a2) = step(s1, EventView::Done(Ok(())));
            let (s3, a3) = step(s2, EventView::ConfigRendered(Ok(rendered)));
            let (s4, a4) = step(s3, EventView::Done(Ok(())));
            &&& key == "enabled"@ ==> a2 == ActionView::RenderConfig(
                Config { enabled: s.value, ..loaded },
            )
            &&& key == "reverse_mouse"@ ==> a2 == ActionView::RenderConfig(
                Config { reverse_mouse: s.value, ..loaded },
            )
            &&& key == "reverse_trackpad"@ ==> a2 == ActionView::RenderConfig(
                Config { reverse_trackpad: s.value, ..loaded },
            )
            &&& key == "reverse_horizontal"@ ==> a2 == ActionView::RenderConfig(
                Config { reverse_horizontal: s.value, ..loaded },
            )
            &&& a3 == ActionView::WriteFile(join_path(s.home, text_bytes(config_rel())), rendered)
            &&& a4 == ActionView::Print(
                key + " = "@ + (if s.value {
                    "true"@
                } else {
                    "false"@
                }) + "\n"@,
            )
        }),
{
    crate::config::lemma_config_keys_distinct();
    reveal_strlit("true");
    reveal_strlit("false");
    assert(crate::text::bool_text(true) =~= "true"@);
    assert(crate::text::bool_text(false) =~= "false"@);
}

/// The value `config set` stores is the one the user typed, read as a
/// boolean.
pub proof fn lemma_update_stores_typed_value(s: SessionView, key: Seq<char>, text: Seq<char>)
    requires
        s.stage == Stage::Ready,
        s.command == CommandView::Update(key, text),
        parsed_bool(text) is Ok,
    ensures
        step(s, EventView::Begin).0.value == parsed_bool(text)->Ok_0,
        step(s, EventView::Begin).1 == ActionView::LookupHome,
{
}

// ----- what each report is answered with --------------------------------------

/// The failures the host can report end the session with these messages.
pub proof fn lemma_failure_messages(s: SessionView, e: Seq<char>, out: OutputView)
    ensures
        s.stage == Stage::AwaitHome ==> step(s, EventView::Home(None)).1 == ActionView::Finish(
            Err("HOME is not set"@),
        ),
        s.stage == Stage::AwaitExists ==> step(s, EventView::Exists(false)).1
            == ActionView::Finish(Err("service is not installed; run `scrollsplit install-service`"@)),
        s.stage == Stage::AwaitPermission ==> step(s, EventView::Granted(false)).1
            == ActionView::Finish(
            Err(
                "Accessibility permission is required. Enable ScrollSplit in System Settings > Privacy & Security > Accessibility, then run it again."@,
            ),
        ),
        s.stage == Stage::AwaitTap ==> step(s, EventView::Created(false)).1 == ActionView::Finish(
            Err("cannot create CGEventTap; verify Accessibility permission"@),
        ),
        s.stage == Stage::AwaitSource ==> step(s, EventView::Created(false)).1
            == ActionView::Finish(Err("cannot create run loop source"@)),
        s.stage == Stage::AwaitStatus && !out.success ==> step(s, EventView::Launched(Ok(out))).1
            == ActionView::Finish(Err("com.knothhe.scrollsplit is not running"@)),
        s.stage == Stage::AwaitConfigRead ==> step(
            s,
            EventView::FileRead(FileReadView::Failed(e)),
        ).1 == ActionView::Finish(
            Err("cannot read "@ + utf8_lossy(join_path(s.home, text_bytes(config_rel()))) + ": "@ + e),
        ),
        s.stage == Stage::AwaitConfigParse ==> step(s, EventView::ConfigParsed(Err(e))).1
            == ActionView::Finish(
            Err("cannot parse "@ + utf8_lossy(join_path(s.home, text_bytes(config_rel()))) + ": "@ + e),
        ),
        s.stage is AwaitSaveRender ==> step(s, EventView::ConfigRendered(Err(e))).1
            == ActionView::Finish(Err("cannot serialize config: "@ + e)),
        s.stage == Stage::AwaitExecutable ==> step(s, EventView::Located(Err(e))).1
            == ActionView::Finish(Err("cannot locate current executable: "@ + e)),
        s.stage == Stage::AwaitResolved ==> step(s, EventView::Located(Err(e))).1
            == ActionView::Finish(Err("cannot resolve executable path: "@ + e)),
        s.stage == Stage::AwaitAgentDir ==> step(s, EventView::Done(Err(e))).1
            == ActionView::Finish(Err("cannot create LaunchAgents directory: "@ + e)),
        s.stage == Stage::AwaitStatus ==> step(s, EventView::Launched(Err(e))).1
            == ActionView::Finish(Err("cannot run launchctl: "@ + e)),
{
    assert(LABEL@ + " is not running"@ =~= "com.knothhe.scrollsplit is not running"@) by {
        reveal_strlit("com.knothhe.scrollsplit");
        reveal_strlit(" is not running");
        reveal_strlit("com.knothhe.scrollsplit is not running");
    }
}

/// What a command prints when it succeeds.
pub proof fn lemma_success_lines(s: SessionView, out: OutputView)
    ensures
        s.stage == Stage::AwaitBootout && s.command == CommandView::Stop
            && launchctl_outcome(s.args, Ok(out)) is Ok ==> step(s, EventView::Launched(Ok(out))).1
            == ActionView::Print("Stopped com.knothhe.scrollsplit\n"@),
        s.stage == Stage::AwaitBootstrap && (s.command == CommandView::Start || s.command
            == CommandView::Restart) && launchctl_outcome(s.args, Ok(out)) is Ok ==> step(
            s,
            EventView::Launched(Ok(out)),
        ).1 == ActionView::Print("Started com.knothhe.scrollsplit\n"@),
        s.stage == Stage::AwaitBootstrap && s.command == CommandView::Install && launchctl_outcome(
            s.args,
            Ok(out),
        ) is Ok ==> step(s, EventView::Launched(Ok(out))).1 == ActionView::Print(
            "Installed and started "@ + utf8_lossy(join_path(s.home, text_bytes(agent_rel()))) + "\n"@,
        ),
        s.stage == Stage::AwaitStatus && out.success ==> step(s, EventView::Launched(Ok(out))).1
            == ActionView::Print(utf8_lossy(out.stdout)),
        s.stage == Stage::AwaitRemoval ==> step(s, EventView::Removed(RemovalView::Removed)).1
            == ActionView::Print(
            "Removed "@ + utf8_lossy(join_path(s.home, text_bytes(agent_rel()))) + "\n"@,
        ),
        s.stage == Stage::AwaitActivation ==> step(s, EventView::Acknowledged).1
            == ActionView::Print("ScrollSplit is running\n"@),
{
    reveal_strlit("com.knothhe.scrollsplit");
    reveal_strlit("Stopped ");
    reveal_strlit("Started ");
    reveal_strlit("\n");
    reveal_strlit("Stopped com.knothhe.scrollsplit\n");
    reveal_strlit("Started com.knothhe.scrollsplit\n");
    assert("Stopped "@ + LABEL@ + "\n"@ =~= "Stopped com.knothhe.scrollsplit\n"@);
    assert(started_line() =~= "Started com.knothhe.scrollsplit\n"@);
}

/// The `launchctl` runs each agent command asks for, for user `uid`.
pub proof fn lemma_launchctl_requests(s: SessionView, uid: u32, out: Result<OutputView, Seq<char>>)
    ensures
        s.stage == Stage::AwaitUid && (s.command == CommandView::Stop || s.command
            == CommandView::Restart) ==> step(s, EventView::Uid(uid)).1 == ActionView::Launchctl(
            seq!["bootout"@, target_text(uid)],
        ),
        s.stage == Stage::AwaitUid && s.command == CommandView::Status ==> step(
            s,
            EventView::Uid(uid),
        ).1 == ActionView::Launchctl(seq!["print"@, target_text(uid)]),
        s.stage == Stage::AwaitExists && valid_utf8(join_path(s.home, text_bytes(agent_rel())))
            ==> step(s, EventView::Exists(true)).1 == ActionView::Launchctl(
            seq![
                "bootstrap"@,
                domain_text(s.uid),
                decode_utf8(join_path(s.home, text_bytes(agent_rel()))),
            ],
        ),
        s.stage == Stage::AwaitExists && !valid_utf8(join_path(s.home, text_bytes(agent_rel())))
            ==> step(s, EventView::Exists(true)).1 == ActionView::Finish(
            Err(
                "path is not valid UTF-8: "@ + utf8_lossy(join_path(s.home, text_bytes(agent_rel()))),
            ),
        ),
        s.stage == Stage::AwaitBootstrap && s.command == CommandView::Start && launchctl_outcome(
            s.args,
            out,
        ) is Err ==> step(s, EventView::Launched(out)).1 == ActionView::Launchctl(
            seq!["kickstart"@, "-k"@, target_text(s.uid)],
        ),
        s.stage == Stage::AwaitPlistWrite ==> step(s, EventView::Done(Ok(()))).1
            == ActionView::Launchctl(seq!["bootout"@, target_text(s.uid)]),
        s.stage == Stage::AwaitBootout && s.command == CommandView::Uninstall ==> step(
            s,
            EventView::Launched(out),
        ).1 == ActionView::RemoveFile(join_path(s.home, text_bytes(agent_rel()))),
        s.stage == Stage::AwaitAgentDir ==> step(s, EventView::Done(Ok(()))).1
            == ActionView::WriteFile(
            join_path(s.home, text_bytes(agent_rel())),
            plist_text(s.executable),
        ),
{
}

/// The first requests of each command: configuration commands (and `run`)
/// start from the home directory, agent commands from the user id; once the
/// home directory is known, each command goes to its own file.
pub proof fn lemma_first_requests(s: SessionView, h: Seq<u8>, p: Seq<u8>)
    ensures
        s.stage == Stage::Ready && (s.command == CommandView::Run || s.command == CommandView::Show)
            ==> step(s, EventView::Begin).1 == ActionView::LookupHome,
        s.stage == Stage::Ready && is_service_command(s.command) ==> step(s, EventView::Begin).1
            == ActionView::LookupUid,
        s.stage == Stage::AwaitHome && (s.command == CommandView::Run || s.command
            == CommandView::Show || s.command is Update) ==> step(s, EventView::Home(Some(h))).1
            == ActionView::ReadFile(join_path(h, text_bytes(config_rel()))),
        s.stage == Stage::AwaitHome && (s.command == CommandView::Start || s.command
            == CommandView::Restart) ==> step(s, EventView::Home(Some(h))).1
            == ActionView::PathExists(join_path(h, text_bytes(agent_rel()))),
        s.stage == Stage::AwaitHome && s.command == CommandView::Install ==> step(
            s,
            EventView::Home(Some(h)),
        ).1 == ActionView::LocateExecutable,
        s.stage == Stage::AwaitHome && s.command == CommandView::Uninstall ==> step(
            s,
            EventView::Home(Some(h)),
        ).1 == ActionView::Launchctl(seq!["bootout"@, target_text(s.uid)]),
        s.stage == Stage::AwaitConfigRead ==> step(s, EventView::FileRead(FileReadView::Missing)).1
            == ActionView::CreateDir(join_path(s.home, text_bytes(config_dir_rel()))),
        s.stage == Stage::AwaitExecutable ==> step(s, EventView::Located(Ok(p))).1
            == ActionView::ResolvePath(p),
        s.stage == Stage::AwaitResolved ==> step(s, EventView::Located(Ok(p))).1
            == ActionView::CreateDir(join_path(s.home, text_bytes(agent_dir_rel()))),
        s.stage == Stage::AwaitResolved ==> step(s, EventView::Located(Ok(p))).0.executable == p,
        s.stage == Stage::AwaitTap ==> step(s, EventView::Created(true)).1 == ActionView::CreateSource,
        s.stage == Stage::AwaitSource ==> step(s, EventView::Created(true)).1
            == ActionView::ActivateTap,
        s.stage == Stage::AwaitRunningNotice ==> step(s, EventView::Acknowledged).1
            == ActionView::RunLoop,
        s.stage == Stage::AwaitLoop ==> step(s, EventView::Acknowledged).1 == ActionView::Finish(
            Ok(()),
        ),
        s.stage == Stage::AwaitFinalPrint ==> step(s, EventView::Acknowledged).1
            == ActionView::Finish(Ok(())),
{
}

} // verus!
