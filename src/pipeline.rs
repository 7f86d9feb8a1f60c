//! The fail-fast sequence of stages: check the host artifact, compile the
//! script, check its artifact, link, check the plugin, load it, resolve the
//! entry point, invoke it. Each stage asks the caller for one effect and
//! decides from the reported outcome whether the run goes on.
use vstd::prelude::*;
use crate::artifacts::{ArtifactPaths, ArtifactPathsView, Platform, resolved_paths};
use crate::commands::{Command, CommandView, compile_command, compile_command_of, link_command, link_command_of};

verus! {

/// The exit status of every fatal condition.
pub const FAILURE_STATUS: i32 = 1;

/// Where a run stands: the effect it awaits the outcome of, or its end.
#[derive(Clone, Copy, Debug, PartialEq, Eq, Structural)]
pub enum Stage {
    CheckingHost,
    Compiling,
    CheckingScriptArtifact,
    Linking,
    CheckingLinkedPlugin,
    Loading,
    Resolving,
    Invoking,
    Finished,
    Failed,
}

/// The outcome of an effect, reported by the caller.
pub enum Event {
    /// Whether the path of a `CheckExists` names an existing file.
    Exists(bool),
    /// The subprocess of a `Run` terminated; its exit status is not consulted,
    /// the following existence check decides.
    Exited,
    /// The subprocess of a `Run` could not be started.
    SpawnFailed { reason: String },
    /// The plugin of a `Load` is mapped into the process.
    Loaded,
    /// The plugin of a `Load` could not be loaded.
    LoadFailed { reason: String },
    /// The symbol of a `Resolve` was found.
    Resolved,
    /// The symbol of a `Resolve` is not exported by the plugin.
    SymbolMissing,
    /// The entry point returned, leaving `output` in the output buffer.
    Returned { output: String },
}

pub enum EventView {
    Exists(bool),
    Exited,
    SpawnFailed { reason: Seq<char> },
    Loaded,
    LoadFailed { reason: Seq<char> },
    Resolved,
    SymbolMissing,
    Returned { output: Seq<char> },
}

impl View for Event {
    type V = EventView;

    open spec fn view(&self) -> EventView {
        match self {
            Event::Exists(b) => EventView::Exists(*b),
            Event::Exited => EventView::Exited,
            Event::SpawnFailed { reason } => EventView::SpawnFailed { reason: reason@ },
            Event::Loaded => EventView::Loaded,
            Event::LoadFailed { reason } => EventView::LoadFailed { reason: reason@ },
            Event::Resolved => EventView::Resolved,
            Event::SymbolMissing => EventView::SymbolMissing,
            Event::Returned { output } => EventView::Returned { output: output@ },
        }
    }
}

/// The effect that the caller is to perform next.
pub enum Action {
    /// Report whether `path` exists.
    CheckExists { path: String },
    /// Print `note` to standard output, run `command` to its end and report it.
    Run { command: Command, note: String },
    /// Print `note` to standard output, load the plugin at `path` and keep it
    /// loaded until the process ends.
    Load { path: String, note: String },
    /// Look up `symbol` in the loaded plugin.
    Resolve { symbol: String },
    /// Call the entry point with a fresh empty output buffer and, where
    /// given, the scalar `argument`.
    Invoke { argument: Option<u64> },
    /// Print `output`, the contents of the output buffer, and end the run.
    Finish { output: String },
    /// Print `message` to standard error and exit with `status`.
    Exit { status: i32, message: String },
}

pub enum ActionView {
    CheckExists { path: Seq<char> },
    Run { command: CommandView, note: Seq<char> },
    Load { path: Seq<char>, note: Seq<char> },
    Resolve { symbol: Seq<char> },
    Invoke { argument: Option<u64> },
    Finish { output: Seq<char> },
    Exit { status: i32, message: Seq<char> },
}

impl View for Action {
    type V = ActionView;

    open spec fn view(&self) -> ActionView {
        match self {
            Action::CheckExists { path } => ActionView::CheckExists { path: path@ },
            Action::Run { command, note } => ActionView::Run { command: command@, note: note@ },
            Action::Load { path, note } => ActionView::Load { path: path@, note: note@ },
            Action::Resolve { symbol } => ActionView::Resolve { symbol: symbol@ },
            Action::Invoke { argument } => ActionView::Invoke { argument: *argument },
            Action::Finish { output } => ActionView::Finish { output: output@ },
            Action::Exit { status, message } => ActionView::Exit { status: *status, message: message@ },
        }
    }
}

/// A run in progress.
pub struct Pipeline {
    pub paths: ArtifactPaths,
    pub argument: Option<u64>,
    pub stage: Stage,
}

pub struct PipelineView {
    pub paths: ArtifactPathsView,
    pub argument: Option<u64>,
    pub stage: Stage,
}

impl View for Pipeline {
    type V = PipelineView;

    open spec fn view(&self) -> PipelineView {
        PipelineView { paths: self.paths@, argument: self.argument, stage: self.stage }
    }
}

/// The exported symbol that the plugin's entry point is found under.
pub open spec fn entry_symbol() -> Seq<char> {
    "roc__mainForHost_1_exposed_generic"@
}

pub open spec fn program_name(args: Seq<Seq<char>>) -> Seq<char> {
    if args.len() > 0 {
        args[0]
    } else {
        "roc_plugin_host"@
    }
}

pub open spec fn usage_message(args: Seq<Seq<char>>) -> Seq<char> {
    "Usage: "@ + program_name(args) + " <plugin.roc> <libhost.dylib>"@
}

pub open spec fn missing_host_message(host: Seq<char>) -> Seq<char> {
    "ERROR: Unable to find host dylib at "@ + host
}

pub open spec fn compiling_note(script: Seq<char>) -> Seq<char> {
    "INFO: Generating dylib from roc script "@ + script
}

pub open spec fn spawn_failure_message(program: Seq<char>, reason: Seq<char>) -> Seq<char> {
    "ERROR: Unable to run "@ + program + ": "@ + reason
}

pub open spec fn missing_script_artifact_message(script_artifact: Seq<char>) -> Seq<char> {
    "ERROR: Unable to find libscript at "@ + script_artifact
}

pub open spec fn linking_note(linked_plugin: Seq<char>) -> Seq<char> {
    "INFO: Linking dylib at "@ + linked_plugin
}

pub open spec fn missing_linked_plugin_message(linked_plugin: Seq<char>) -> Seq<char> {
    "ERROR: Unable to find linked dylib at "@ + linked_plugin
}

pub open spec fn loading_note(linked_plugin: Seq<char>) -> Seq<char> {
    "INFO: Loading dylib from "@ + linked_plugin
}

pub open spec fn load_failure_message(linked_plugin: Seq<char>, reason: Seq<char>) -> Seq<char> {
    "ERROR: Unable to load dylib at "@ + linked_plugin + ": "@ + reason
}

pub open spec fn missing_symbol_message() -> Seq<char> {
    "ERROR: Unable to load glue function "@ + entry_symbol()
}

/// The end of a run on a fatal condition.
pub open spec fn fatal(message: Seq<char>) -> Option<(Stage, ActionView)> {
    Some((Stage::Failed, ActionView::Exit { status: FAILURE_STATUS, message }))
}

/// What a run on `p` makes of `e`: the stage it moves to and the effect it asks
/// for next; `None` where the stage does not await `e`.
pub open spec fn transition(p: PipelineView, e: EventView) -> Option<(Stage, ActionView)> {
    let paths = p.paths;
    match p.stage {
        Stage::CheckingHost => match e {
            EventView::Exists(true) => Some((
                Stage::Compiling,
                ActionView::Run {
                    command: compile_command_of(paths.script),
                    note: compiling_note(paths.script),
                },
            )),
            EventView::Exists(false) => fatal(missing_host_message(paths.host)),
            _ => None,
        },
        Stage::Compiling => match e {
            EventView::Exited => Some((
                Stage::CheckingScriptArtifact,
                ActionView::CheckExists { path: paths.script_artifact },
            )),
            EventView::SpawnFailed { reason } => fatal(spawn_failure_message("roc"@, reason)),
            _ => None,
        },
        Stage::CheckingScriptArtifact => match e {
            EventView::Exists(true) => Some((
                Stage::Linking,
                ActionView::Run {
                    command: link_command_of(paths.script_artifact, paths.host, paths.linked_plugin),
                    note: linking_note(paths.linked_plugin),
                },
            )),
            EventView::Exists(false) => fatal(missing_script_artifact_message(paths.script_artifact)),
            _ => None,
        },
        Stage::Linking => match e {
            EventView::Exited => Some((
                Stage::CheckingLinkedPlugin,
                ActionView::CheckExists { path: paths.linked_plugin },
            )),
            EventView::SpawnFailed { reason } => fatal(spawn_failure_message("zig"@, reason)),
            _ => None,
        },
        Stage::CheckingLinkedPlugin => match e {
            EventView::Exists(true) => Some((
                Stage::Loading,
                ActionView::Load { path: paths.linked_plugin, note: loading_note(paths.linked_plugin) },
            )),
            EventView::Exists(false) => fatal(missing_linked_plugin_message(paths.linked_plugin)),
            _ => None,
        },
        Stage::Loading => match e {
            EventView::Loaded => Some((Stage::Resolving, ActionView::Resolve { symbol: entry_symbol() })),
            EventView::LoadFailed { reason } => fatal(load_failure_message(paths.linked_plugin, reason)),
            _ => None,
        },
        Stage::Resolving => match e {
            EventView::Resolved => Some((Stage::Invoking, ActionView::Invoke { argument: p.argument })),
            EventView::SymbolMissing => fatal(missing_symbol_message()),
            _ => None,
        },
        Stage::Invoking => match e {
            EventView::Returned { output } => Some((Stage::Finished, ActionView::Finish { output })),
            _ => None,
        },
        Stage::Finished => None,
        Stage::Failed => None,
    }
}

/// How a run begins on the command line `args` (program name first): with
/// exactly a script path and a host path it checks the host artifact first;
/// otherwise it ends at once with the usage line.
pub open spec fn start_of(args: Seq<Seq<char>>, platform: Platform, argument: Option<u64>) -> Result<
    (PipelineView, ActionView),
    ActionView,
> {
    if args.len() == 3 {
        Ok((
            PipelineView {
                paths: resolved_paths(args[1], args[2], platform),
                argument,
                stage: Stage::CheckingHost,
            },
            ActionView::CheckExists { path: args[2] },
        ))
    } else {
        Err(ActionView::Exit { status: FAILURE_STATUS, message: usage_message(args) })
    }
}

pub open spec fn start_view(r: Result<(Pipeline, Action), Action>) -> Result<(PipelineView, ActionView), ActionView> {
    match r {
        Ok((p, a)) => Ok((p@, a@)),
        Err(a) => Err(a@),
    }
}

/// `prefix` followed by `rest`.
fn joined(prefix: &str, rest: &str) -> (r: String)
    ensures
        r@ == prefix@ + rest@,
{
    let mut r = String::from_str(prefix);
    r.append(rest);
    r
}

/// `prefix`, `middle`, `separator` and `rest`, one after the other.
fn joined4(prefix: &str, middle: &str, separator: &str, rest: &str) -> (r: String)
    ensures
        r@ == prefix@ + middle@ + separator@ + rest@,
{
    let mut r = String::from_str(prefix);
    r.append(middle);
    r.append(separator);
    r.append(rest);
    r
}

fn failure(message: String) -> (r: Action)
    ensures
        r@ == (ActionView::Exit { status: FAILURE_STATUS, message: message@ }),
{
    Action::Exit { status: FAILURE_STATUS, message }
}

impl Pipeline {
    /// Begins a run from the command line `args` (program name first) on
    /// `platform`, invoking the entry point with `argument` in the end.
    pub fn start(args: &Vec<String>, platform: Platform, argument: Option<u64>) -> (r: Result<(Pipeline, Action), Action>)
        ensures
            start_view(r) == start_of(args@.map_values(|a: String| a@), platform, argument),
    {
        if args.len() == 3 {
            let script = args[1].as_str();
            let host = args[2].as_str();
            let paths = ArtifactPaths::resolve(script, host, platform);
            let action = Action::CheckExists { path: String::from_str(host) };
            Ok((Pipeline { paths, argument, stage: Stage::CheckingHost }, action))
        } else {
            let program = if args.len() > 0 {
                args[0].as_str()
            } else {
                "roc_plugin_host"
            };
            let mut message = joined("Usage: ", program);
            message.append(" <plugin.roc> <libhost.dylib>");
            Err(failure(message))
        }
    }

    /// Whether the run awaits `e` at its current stage.
    pub fn accepts(&self, e: &Event) -> (r: bool)
        ensures
            r == transition(self@, e@) is Some,
    {
        match self.stage {
            Stage::CheckingHost | Stage::CheckingScriptArtifact | Stage::CheckingLinkedPlugin => {
                matches!(e, Event::Exists(_))
            },
            Stage::Compiling | Stage::Linking => matches!(e, Event::Exited | Event::SpawnFailed { .. }),
            Stage::Loading => matches!(e, Event::Loaded | Event::LoadFailed { .. }),
            Stage::Resolving => matches!(e, Event::Resolved | Event::SymbolMissing),
            Stage::Invoking => matches!(e, Event::Returned { .. }),
            Stage::Finished | Stage::Failed => false,
        }
    }

    /// Moves the run on by the outcome `e` of the effect it asked for, and
    /// returns the next effect to perform.
    pub fn step(&mut self, e: Event) -> (r: Action)
        requires
            transition(old(self)@, e@) is Some,
        ensures
            final(self).paths@ == old(self).paths@,
            final(self).argument == old(self).argument,
            transition(old(self)@, e@) == Some((final(self).stage, r@)),
    {
        let paths = &self.paths;
        let (stage, action) = match self.stage {
            Stage::CheckingHost => match e {
                Event::Exists(true) => (
                    Stage::Compiling,
                    Action::Run {
                        command: compile_command(paths.script.as_str()),
                        note: joined("INFO: Generating dylib from roc script ", paths.script.as_str()),
                    },
                ),
                _ => (Stage::Failed, failure(joined("ERROR: Unable to find host dylib at ", paths.host.as_str()))),
            },
            Stage::Compiling => match e {
                Event::SpawnFailed { reason } => (
                    Stage::Failed,
                    failure(joined4("ERROR: Unable to run ", "roc", ": ", reason.as_str())),
                ),
                _ => (
                    Stage::CheckingScriptArtifact,
                    Action::CheckExists { path: paths.script_artifact.clone() },
                ),
            },
            Stage::CheckingScriptArtifact => match e {
                Event::Exists(true) => (
                    Stage::Linking,
                    Action::Run {
                        command: link_command(
                            paths.script_artifact.as_str(),
                            paths.host.as_str(),
                            paths.linked_plugin.as_str(),
                        ),
                        note: joined("INFO: Linking dylib at ", paths.linked_plugin.as_str()),
                    },
                ),
                _ => (
                    Stage::Failed,
                    failure(joined("ERROR: Unable to find libscript at ", paths.script_artifact.as_str())),
                ),
            },
            Stage::Linking => match e {
                Event::SpawnFailed { reason } => (
                    Stage::Failed,
                    failure(joined4("ERROR: Unable to run ", "zig", ": ", reason.as_str())),
                ),
                _ => (
                    Stage::CheckingLinkedPlugin,
                    Action::CheckExists { path: paths.linked_plugin.clone() },
                ),
            },
            Stage::CheckingLinkedPlugin => match e {
                Event::Exists(true) => (
                    Stage::Loading,
                    Action::Load {
                        path: paths.linked_plugin.clone(),
                        note: joined("INFO: Loading dylib from ", paths.linked_plugin.as_str()),
                    },
                ),
                _ => (
                    Stage::Failed,
                    failure(joined("ERROR: Unable to find linked dylib at ", paths.linked_plugin.as_str())),
                ),
            },
            Stage::Loading => match e {
                Event::LoadFailed { reason } => (
                    Stage::Failed,
                    failure(joined4("ERROR: Unable to load dylib at ", paths.linked_plugin.as_str(), ": ", reason.as_str())),
                ),
                _ => (
                    Stage::Resolving,
                    Action::Resolve { symbol: String::from_str("roc__mainForHost_1_exposed_generic") },
                ),
            },
            Stage::Resolving => match e {
                Event::SymbolMissing => (
                    Stage::Failed,
                    failure(joined("ERROR: Unable to load glue function ", "roc__mainForHost_1_exposed_generic")),
                ),
                _ => (Stage::Invoking, Action::Invoke { argument: self.argument }),
            },
            _ => match e {
                Event::Returned { output } => (Stage::Finished, Action::Finish { output }),
                // no other event is awaited here, by the precondition
                _ => (Stage::Finished, Action::Finish { output: String::new() }),
            },
        };
        self.stage = stage;
        action
    }
}

/// A finished or failed run awaits nothing: once it has ended, no event
/// moves it on and no further effect is asked for.
pub proof fn lemma_ended_run_is_final(p: PipelineView, e: EventView)
    requires
        p.stage == Stage::Finished || p.stage == Stage::Failed,
    ensures
        transition(p, e) is None,
{
}

/// A command line without exactly a script path and a host path ends the run
/// at once with the usage line and status 1: no stage runs, so no subprocess
/// is started.
pub proof fn lemma_wrong_argument_count_prints_usage(
    args: Seq<Seq<char>>,
    platform: Platform,
    argument: Option<u64>,
)
    requires
        args.len() != 3,
    ensures
        start_of(args, platform, argument) == Err::<(PipelineView, ActionView), ActionView>(
            ActionView::Exit { status: 1, message: usage_message(args) },
        ),
{
}

/// When the compiler leaves no script artifact the run fails with status 1,
/// and the linker is only ever run right after the script artifact was found.
pub proof fn lemma_link_needs_script_artifact(p: PipelineView, e: EventView)
    ensures
        p.stage == Stage::CheckingScriptArtifact && e == EventView::Exists(false) ==> transition(p, e)
            == Some((
            Stage::Failed,
            ActionView::Exit {
                status: 1,
                message: missing_script_artifact_message(p.paths.script_artifact),
            },
        )),
        transition(p, e) matches Some((next, _)) ==> (next == Stage::Linking ==> (p.stage
            == Stage::CheckingScriptArtifact && e == EventView::Exists(true))),
{
}

/// When the linker leaves no plugin the run fails with status 1, and the
/// plugin is only ever loaded right after it was found.
pub proof fn lemma_load_needs_linked_plugin(p: PipelineView, e: EventView)
    ensures
        p.stage == Stage::CheckingLinkedPlugin && e == EventView::Exists(false) ==> transition(p, e)
            == Some((
            Stage::Failed,
            ActionView::Exit {
                status: 1,
                message: missing_linked_plugin_message(p.paths.linked_plugin),
            },
        )),
        transition(p, e) matches Some((next, _)) ==> (next == Stage::Loading ==> (p.stage
            == Stage::CheckingLinkedPlugin && e == EventView::Exists(true))),
{
}

/// The loaded plugin is asked for the entry symbol; when it lacks that
/// symbol the run fails with status 1 and a message that ends in the symbol.
pub proof fn lemma_missing_symbol_is_named(p: PipelineView)
    ensures
        p.stage == Stage::Loading ==> transition(p, EventView::Loaded) == Some(
            (Stage::Resolving, ActionView::Resolve { symbol: entry_symbol() }),
        ),
        p.stage == Stage::Resolving ==> transition(p, EventView::SymbolMissing) == Some(
            (Stage::Failed, ActionView::Exit { status: 1, message: missing_symbol_message() }),
        ),
        missing_symbol_message().len() >= entry_symbol().len(),
        missing_symbol_message().subrange(
            missing_symbol_message().len() - entry_symbol().len(),
            missing_symbol_message().len() as int,
        ) == entry_symbol(),
{
    let message = missing_symbol_message();
    let prefix = "ERROR: Unable to load glue function "@;
    assert(message.subrange(prefix.len() as int, message.len() as int) =~= entry_symbol());
}

/// The entry point is called with the argument the run was started with, and
/// what the plugin left in the output buffer is reported exactly as it is.
pub proof fn lemma_output_reported_unchanged(p: PipelineView, output: Seq<char>)
    ensures
        p.stage == Stage::Resolving ==> transition(p, EventView::Resolved) == Some(
            (Stage::Invoking, ActionView::Invoke { argument: p.argument }),
        ),
        p.stage == Stage::Invoking ==> transition(p, EventView::Returned { output }) == Some(
            (Stage::Finished, ActionView::Finish { output }),
        ),
{
}

} // verus!
