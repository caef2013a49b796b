//! What the leaves of a command tree do, and the top-level run of a rule.
//!
//! A leaf is run in three parts. The plan says what is to be done outside:
//! a plugin to invoke or a process to spawn. The caller does it. The finish
//! turns what came back into the next context. A leaf that is a command
//! line names a template; the caller has the template engine render it
//! against the context and hands the line to the plan. No function here
//! touches a file or a process; the only file write that a pure tree leads
//! to is the one that [`write_after_run`] asks for.

use crate::bindings::{
    open_quote_message,
    shell_split,
    split_words,
    split_words_windows,
    windows_split,
};
use crate::config::model::{
    CommandWithControlFlow,
    FlowV,
    PureCommand,
    PureCommandV,
    SomeCommand,
    SomeCommandV,
    WriteCommand,
    WriteCommandV,
};
use crate::json::{Json, JsonV};
use crate::text::{str_eq, strings_view};
use vstd::prelude::*;

verus! {

/// The key of the target's absolute path in OS form.
pub open spec fn key_os_target() -> Seq<char> {
    "os-target"@
}

/// The key of the content to format.
pub open spec fn key_target_content() -> Seq<char> {
    "target-content"@
}

/// The key of the directory that a spawned process runs in.
pub open spec fn key_current_dir() -> Seq<char> {
    "current-dir"@
}

/// The key under which a leaf reports how the formatting went.
pub open spec fn key_format_status() -> Seq<char> {
    "format-status"@
}

/// The key of the formatted text.
pub open spec fn key_formatted_content() -> Seq<char> {
    "formatted-content"@
}

/// The key of the message of a formatter that failed.
pub open spec fn key_format_error() -> Seq<char> {
    "format-error"@
}

/// The key under which a plugin reports that it panicked.
pub open spec fn key_plugin_panic() -> Seq<char> {
    "plugin-panic"@
}

/// The value of a [`LeafError`].
pub enum LeafFault {
    /// The command template could not be rendered; the engine's message.
    Template(Seq<char>),
    /// The rendered command line could not be split; the splitter's message.
    Split(Seq<char>),
    /// The rendered command line holds no word.
    EmptyCommand,
    /// The context lacks a string under this key.
    MissingKey(Seq<char>),
    /// The plugin reported a panic.
    PluginPanic(Seq<char>),
    /// The context cannot take the result.
    NotAnObject,
}

/// Why a leaf could not be planned or finished.
#[derive(Debug)]
pub enum LeafError {
    /// The command template could not be rendered; the engine's message.
    Template(String),
    /// The rendered command line could not be split; the splitter's message.
    Split(String),
    /// The rendered command line holds no word.
    EmptyCommand,
    /// The context lacks a string under this key.
    MissingKey(String),
    /// The plugin reported a panic; its message.
    PluginPanic(String),
    /// The context cannot take the result.
    NotAnObject,
}

impl View for LeafError {
    type V = LeafFault;

    open spec fn view(&self) -> LeafFault {
        match self {
            LeafError::Template(message) => LeafFault::Template(message@),
            LeafError::Split(message) => LeafFault::Split(message@),
            LeafError::EmptyCommand => LeafFault::EmptyCommand,
            LeafError::MissingKey(key) => LeafFault::MissingKey(key@),
            LeafError::PluginPanic(message) => LeafFault::PluginPanic(message@),
            LeafError::NotAnObject => LeafFault::NotAnObject,
        }
    }
}

/// The message of an error.
pub open spec fn leaf_error_text(e: LeafError) -> Seq<char> {
    match e {
        LeafError::Template(message) => message@,
        LeafError::Split(message) => message@,
        LeafError::EmptyCommand => "Empty command"@,
        LeafError::MissingKey(key) => "The context has no string under "@ + key@,
        LeafError::PluginPanic(message) => "Plugin panicked: "@ + message@,
        LeafError::NotAnObject => "The context is no object"@,
    }
}

impl LeafError {
    /// The message of the error.
    pub fn message(&self) -> (r: String)
        ensures
            r@ == leaf_error_text(*self),
    {
        match self {
            LeafError::Template(message) => message.clone(),
            LeafError::Split(message) => message.clone(),
            LeafError::EmptyCommand => "Empty command".to_owned(),
            LeafError::MissingKey(key) => {
                let mut out = crate::text::str_chars("The context has no string under ");
                crate::text::push_str(&mut out, key.as_str());
                crate::text::string_from_chars(&out)
            },
            LeafError::PluginPanic(message) => {
                let mut out = crate::text::str_chars("Plugin panicked: ");
                crate::text::push_str(&mut out, message.as_str());
                crate::text::string_from_chars(&out)
            },
            LeafError::NotAnObject => "The context is no object".to_owned(),
        }
    }
}

/// The value of a [`Spawn`].
pub struct SpawnV {
    pub program: Seq<char>,
    pub args: Seq<Seq<char>>,
    pub current_dir: Seq<char>,
    pub stdin: Option<Seq<char>>,
}

/// A process to spawn: the program, its arguments, the directory it runs
/// in and, for a filter, the text to write to its standard input before
/// that is closed.
#[derive(Debug)]
pub struct Spawn {
    pub program: String,
    pub args: Vec<String>,
    pub current_dir: String,
    pub stdin: Option<String>,
}

impl View for Spawn {
    type V = SpawnV;

    open spec fn view(&self) -> SpawnV {
        SpawnV {
            program: self.program@,
            args: strings_view(self.args@),
            current_dir: self.current_dir@,
            stdin: match self.stdin {
                Some(s) => Some(s@),
                None => None,
            },
        }
    }
}

/// The value of a [`PurePlan`].
pub enum PurePlanV {
    Plugin { url: Seq<char> },
    Pipe(SpawnV),
}

/// What a pure leaf asks for.
#[derive(Debug)]
pub enum PurePlan {
    /// Invoke the plugin loaded from `url` on the context.
    Plugin { url: String },
    /// Spawn a filter, feed it the content and collect what it prints.
    Pipe(Spawn),
}

impl View for PurePlan {
    type V = PurePlanV;

    open spec fn view(&self) -> PurePlanV {
        match self {
            PurePlan::Plugin { url } => PurePlanV::Plugin { url: url@ },
            PurePlan::Pipe(spawn) => PurePlanV::Pipe(spawn@),
        }
    }
}

/// The string under `key`, or the fault of its absence.
pub open spec fn required(context: JsonV, key: Seq<char>) -> Result<Seq<char>, LeafFault> {
    match context.get_str(key) {
        Some(s) => Ok(s),
        None => Err(LeafFault::MissingKey(key)),
    }
}

/// How a command line is split into words.
#[derive(Clone, Copy, PartialEq, Eq, Structural, Debug)]
pub enum SplitStyle {
    /// As a POSIX shell splits it.
    Posix,
    /// As a Windows program splits the command line it was started with.
    Windows,
}

/// What the engine made of a template: the line, or its message where it
/// failed; nothing where the engine was not asked.
pub open spec fn rendering_view(rendered: Option<Result<String, String>>) -> Option<
    Result<Seq<char>, Seq<char>>,
> {
    match rendered {
        Some(Ok(line)) => Some(Ok(line@)),
        Some(Err(message)) => Some(Err(message@)),
        None => None,
    }
}

/// The message of a command line that was handed over without having been
/// rendered.
pub open spec fn not_rendered_message() -> Seq<char> {
    "The command was not rendered"@
}

/// The words of a command line in a style, where it can be split. A line
/// with an open quote has no words in the POSIX style; the Windows style
/// splits every line.
pub open spec fn split_of(style: SplitStyle, line: Seq<char>) -> Option<Seq<Seq<char>>> {
    match style {
        SplitStyle::Posix => shell_split(line),
        SplitStyle::Windows => Some(windows_split(line)),
    }
}

/// The words of the command line that a template was rendered to. A
/// template that the engine failed on fails with the engine's message, a
/// line with an open quote with the splitter's.
pub open spec fn command_words(
    style: SplitStyle,
    rendered: Option<Result<Seq<char>, Seq<char>>>,
) -> Result<Seq<Seq<char>>, LeafFault> {
    match rendered {
        None => Err(LeafFault::Template(not_rendered_message())),
        Some(Err(message)) => Err(LeafFault::Template(message)),
        Some(Ok(line)) => match split_of(style, line) {
            None => Err(LeafFault::Split(open_quote_message())),
            Some(words) => Ok(words),
        },
    }
}

/// The program and the arguments that the words of a command line stand
/// for: the first word and those that follow it.
pub open spec fn command_parts(words: Seq<Seq<char>>) -> Result<(Seq<char>, Seq<Seq<char>>), LeafFault> {
    if words.len() == 0 {
        Err(LeafFault::EmptyCommand)
    } else {
        Ok((words[0], words.skip(1)))
    }
}

/// The template that has to be rendered before a pure leaf can be planned:
/// the command line of a filter; a plugin leaf has none.
pub open spec fn pure_template(cmd: PureCommandV) -> Option<Seq<char>> {
    match cmd {
        PureCommandV::PluginUrl(_) => None,
        PureCommandV::CommandIO { io } => Some(io),
    }
}

/// What a pure leaf asks for on a context, where `rendered` is the line
/// that its template was rendered to.
///
/// A plugin leaf asks for its plugin. A filter leaf splits the line into
/// words and asks for a process made of them that runs in `current-dir`
/// and reads `target-content`; the context must also name its `os-target`.
pub open spec fn pure_plan(
    cmd: PureCommandV,
    context: JsonV,
    style: SplitStyle,
    rendered: Option<Result<Seq<char>, Seq<char>>>,
) -> Result<PurePlanV, LeafFault> {
    match cmd {
        PureCommandV::PluginUrl(url) => Ok(PurePlanV::Plugin { url }),
        PureCommandV::CommandIO { io } => match command_words(style, rendered) {
            Err(e) => Err(e),
            Ok(words) => match command_parts(words) {
                Err(e) => Err(e),
                Ok(parts) => match required(context, key_os_target()) {
                    Err(e) => Err(e),
                    Ok(_) => match required(context, key_target_content()) {
                        Err(e) => Err(e),
                        Ok(content) => match required(context, key_current_dir()) {
                            Err(e) => Err(e),
                            Ok(dir) => Ok(
                                PurePlanV::Pipe(
                                    SpawnV {
                                        program: parts.0,
                                        args: parts.1,
                                        current_dir: dir,
                                        stdin: Some(content),
                                    },
                                ),
                            ),
                        },
                    },
                },
            },
        },
    }
}

/// The string under `key` in `context`.
pub fn require_str(context: &Json, key: &str) -> (r: Result<String, LeafError>)
    ensures
        match r {
            Ok(s) => required(context@, key@) == Ok::<Seq<char>, LeafFault>(s@),
            Err(e) => required(context@, key@) == Err::<Seq<char>, LeafFault>(e@),
        },
{
    match context.get_str(key) {
        Some(s) => Ok(s),
        None => Err(LeafError::MissingKey(key.to_owned())),
    }
}

/// The words of the command line `rendered`, split in `style`. A template
/// that was not rendered, or that the engine failed on, has none.
pub fn split_command(style: SplitStyle, rendered: Option<Result<String, String>>) -> (r: Result<
    Vec<String>,
    LeafError,
>)
    ensures
        match r {
            Ok(words) => command_words(style, rendering_view(rendered)) == Ok::<
                Seq<Seq<char>>,
                LeafFault,
            >(strings_view(words@)),
            Err(e) => command_words(style, rendering_view(rendered)) == Err::<
                Seq<Seq<char>>,
                LeafFault,
            >(e@),
        },
{
    let line = match rendered {
        Some(Ok(line)) => line,
        Some(Err(message)) => {
            return Err(LeafError::Template(message));
        },
        None => {
            return Err(LeafError::Template("The command was not rendered".to_owned()));
        },
    };
    match style {
        SplitStyle::Posix => match split_words(line.as_str()) {
            Ok(words) => Ok(words),
            Err(message) => Err(LeafError::Split(message)),
        },
        SplitStyle::Windows => Ok(split_words_windows(line.as_str())),
    }
}

/// Parts the words of a command line into the program and its arguments.
/// A line without a word names no program.
pub fn program_and_args(words: Vec<String>) -> (r: Result<(String, Vec<String>), LeafError>)
    ensures
        match r {
            Ok((program, args)) => command_parts(strings_view(words@)) == Ok::<
                (Seq<char>, Seq<Seq<char>>),
                LeafFault,
            >((program@, strings_view(args@))),
            Err(e) => command_parts(strings_view(words@)) == Err::<
                (Seq<char>, Seq<Seq<char>>),
                LeafFault,
            >(e@),
        },
{
    if words.len() == 0 {
        return Err(LeafError::EmptyCommand);
    }
    let mut words = words;
    let ghost all = strings_view(words@);
    let program = words.remove(0);
    assert(strings_view(words@) =~= all.skip(1));
    Ok((program, words))
}

/// The template that the caller has to render against the context before
/// `cmd` can be planned.
pub fn pure_leaf_template(cmd: &PureCommand) -> (r: Option<&String>)
    ensures
        match r {
            Some(template) => pure_template(cmd@) == Some(template@),
            None => pure_template(cmd@) is None,
        },
{
    match cmd {
        PureCommand::PluginUrl(_) => None,
        PureCommand::CommandIO { io } => Some(io),
    }
}

/// What the pure leaf `cmd` asks for on `context`, where `rendered` is
/// what the engine made of the leaf's template.
pub fn plan_pure_leaf(
    cmd: &PureCommand,
    context: &Json,
    style: SplitStyle,
    rendered: Option<Result<String, String>>,
) -> (r: Result<PurePlan, LeafError>)
    ensures
        match r {
            Ok(plan) => pure_plan(cmd@, context@, style, rendering_view(rendered)) == Ok::<
                PurePlanV,
                LeafFault,
            >(plan@),
            Err(e) => pure_plan(cmd@, context@, style, rendering_view(rendered)) == Err::<
                PurePlanV,
                LeafFault,
            >(e@),
        },
{
    match cmd {
        PureCommand::PluginUrl(url) => Ok(PurePlan::Plugin { url: url.clone() }),
        PureCommand::CommandIO { io } => {
            let words = match split_command(style, rendered) {
                Ok(words) => words,
                Err(e) => {
                    return Err(e);
                },
            };
            let (program, args) = match program_and_args(words) {
                Ok(parts) => parts,
                Err(e) => {
                    return Err(e);
                },
            };
            match require_str(context, "os-target") {
                Ok(_) => {},
                Err(e) => {
                    return Err(e);
                },
            }
            let content = match require_str(context, "target-content") {
                Ok(content) => content,
                Err(e) => {
                    return Err(e);
                },
            };
            let current_dir = match require_str(context, "current-dir") {
                Ok(dir) => dir,
                Err(e) => {
                    return Err(e);
                },
            };
            Ok(PurePlan::Pipe(Spawn { program, args, current_dir, stdin: Some(content) }))
        },
    }
}

/// The context after a plugin returned `output`: a non-empty string under
/// `plugin-panic` is the plugin's failure; otherwise the output is merged
/// into the context, member by member.
pub open spec fn after_plugin(context: JsonV, output: JsonV) -> Result<JsonV, LeafFault> {
    match output.get_str(key_plugin_panic()) {
        Some(message) => if message.len() > 0 {
            Err(LeafFault::PluginPanic(message))
        } else {
            Ok(context.merged(output))
        },
        None => Ok(context.merged(output)),
    }
}

/// The context after the plugin returned `output`.
pub fn finish_plugin(context: Json, output: &Json) -> (r: Result<Json, LeafError>)
    ensures
        match r {
            Ok(next) => after_plugin(context@, output@) == Ok::<JsonV, LeafFault>(next@),
            Err(e) => after_plugin(context@, output@) == Err::<JsonV, LeafFault>(e@),
        },
{
    match output.get_str("plugin-panic") {
        Some(message) => {
            if message.as_str().unicode_len() > 0 {
                return Err(LeafError::PluginPanic(message));
            }
        },
        None => {},
    }
    Ok(context.merge(output))
}

/// The context after a filter ended: on success the status `success` and
/// what it printed as the formatted content, otherwise the status `error`
/// and what it printed as the error.
pub open spec fn after_pipe(context: JsonV, success: bool, output: Seq<char>) -> Result<JsonV, LeafFault> {
    let status = if success {
        "success"@
    } else {
        "error"@
    };
    let key = if success {
        key_formatted_content()
    } else {
        key_format_error()
    };
    match context.set(key_format_status(), JsonV::Str(status)) {
        None => Err(LeafFault::NotAnObject),
        Some(marked) => match marked.set(key, JsonV::Str(output)) {
            None => Err(LeafFault::NotAnObject),
            Some(next) => Ok(next),
        },
    }
}

/// The context after the filter ended with `success`, having printed
/// `output` to its standard output (on success) or its standard error.
pub fn finish_pipe(context: Json, success: bool, output: String) -> (r: Result<Json, LeafError>)
    ensures
        match r {
            Ok(next) => after_pipe(context@, success, output@) == Ok::<JsonV, LeafFault>(next@),
            Err(e) => after_pipe(context@, success, output@) == Err::<JsonV, LeafFault>(e@),
        },
{
    let status = if success {
        Json::string("success")
    } else {
        Json::string("error")
    };
    let key = if success {
        "formatted-content"
    } else {
        "format-error"
    };
    let marked = match context.set("format-status".to_owned(), status) {
        Ok(marked) => marked,
        Err(_) => {
            return Err(LeafError::NotAnObject);
        },
    };
    match marked.set(key.to_owned(), Json::Str(output)) {
        Ok(next) => Ok(next),
        Err(_) => Err(LeafError::NotAnObject),
    }
}

/// The value of a [`WritePlan`].
pub enum WritePlanV {
    Shell(SpawnV),
    Pure { target: Seq<char>, plan: PurePlanV },
}

/// What a write leaf asks for.
#[derive(Debug)]
pub enum WritePlan {
    /// Spawn a command that edits the target itself and wait for it.
    Shell(Spawn),
    /// Run a pure leaf; its formatted content goes to `target`.
    Pure { target: String, plan: PurePlan },
}

impl View for WritePlan {
    type V = WritePlanV;

    open spec fn view(&self) -> WritePlanV {
        match self {
            WritePlan::Shell(spawn) => WritePlanV::Shell(spawn@),
            WritePlan::Pure { target, plan } => WritePlanV::Pure { target: target@, plan: plan@ },
        }
    }
}

/// The template that has to be rendered before a write leaf can be
/// planned: the command line of a shell leaf or of a filter.
pub open spec fn write_template(cmd: WriteCommandV) -> Option<Seq<char>> {
    match cmd {
        WriteCommandV::SimpleCommand(template) => Some(template),
        WriteCommandV::Pure(pure) => pure_template(pure),
    }
}

/// What a write leaf asks for on a context, where `rendered` is the line
/// that its template was rendered to.
///
/// A shell leaf splits the line into words and asks for a process made of
/// them that runs in `current-dir` with nothing piped. A pure leaf inside
/// a write tree needs the context's `os-target` and asks for what the pure
/// leaf asks for.
pub open spec fn write_plan(
    cmd: WriteCommandV,
    context: JsonV,
    style: SplitStyle,
    rendered: Option<Result<Seq<char>, Seq<char>>>,
) -> Result<WritePlanV, LeafFault> {
    match cmd {
        WriteCommandV::SimpleCommand(template) => match command_words(style, rendered) {
            Err(e) => Err(e),
            Ok(words) => match command_parts(words) {
                Err(e) => Err(e),
                Ok(parts) => match required(context, key_current_dir()) {
                    Err(e) => Err(e),
                    Ok(dir) => Ok(
                        WritePlanV::Shell(
                            SpawnV { program: parts.0, args: parts.1, current_dir: dir, stdin: None },
                        ),
                    ),
                },
            },
        },
        WriteCommandV::Pure(pure) => match required(context, key_os_target()) {
            Err(e) => Err(e),
            Ok(target) => match pure_plan(pure, context, style, rendered) {
                Err(e) => Err(e),
                Ok(plan) => Ok(WritePlanV::Pure { target, plan }),
            },
        },
    }
}

/// The template that the caller has to render against the context before
/// `cmd` can be planned.
pub fn write_leaf_template(cmd: &WriteCommand) -> (r: Option<&String>)
    ensures
        match r {
            Some(template) => write_template(cmd@) == Some(template@),
            None => write_template(cmd@) is None,
        },
{
    match cmd {
        WriteCommand::SimpleCommand(template) => Some(template),
        WriteCommand::Pure(pure) => pure_leaf_template(pure),
    }
}

/// What the write leaf `cmd` asks for on `context`, where `rendered` is
/// what the engine made of the leaf's template.
pub fn plan_write_leaf(
    cmd: &WriteCommand,
    context: &Json,
    style: SplitStyle,
    rendered: Option<Result<String, String>>,
) -> (r: Result<WritePlan, LeafError>)
    ensures
        match r {
            Ok(plan) => write_plan(cmd@, context@, style, rendering_view(rendered)) == Ok::<
                WritePlanV,
                LeafFault,
            >(plan@),
            Err(e) => write_plan(cmd@, context@, style, rendering_view(rendered)) == Err::<
                WritePlanV,
                LeafFault,
            >(e@),
        },
{
    match cmd {
        WriteCommand::SimpleCommand(template) => {
            let words = match split_command(style, rendered) {
                Ok(words) => words,
                Err(e) => {
                    return Err(e);
                },
            };
            let (program, args) = match program_and_args(words) {
                Ok(parts) => parts,
                Err(e) => {
                    return Err(e);
                },
            };
            let current_dir = match require_str(context, "current-dir") {
                Ok(dir) => dir,
                Err(e) => {
                    return Err(e);
                },
            };
            Ok(WritePlan::Shell(Spawn { program, args, current_dir, stdin: None }))
        },
        WriteCommand::Pure(pure) => {
            let target = match require_str(context, "os-target") {
                Ok(target) => target,
                Err(e) => {
                    return Err(e);
                },
            };
            match plan_pure_leaf(pure, context, style, rendered) {
                Ok(plan) => Ok(WritePlan::Pure { target, plan }),
                Err(e) => Err(e),
            }
        },
    }
}

/// The context after a shell leaf ended: the empty object.
pub fn finish_shell() -> (r: Json)
    ensures
        r@ == JsonV::Object(Seq::empty()),
{
    Json::empty_object()
}

/// The value of a [`FileWrite`].
pub struct FileWriteV {
    pub path: Seq<char>,
    pub content: Seq<char>,
}

/// A file to write: its path and its whole new content.
#[derive(Debug)]
pub struct FileWrite {
    pub path: String,
    pub content: String,
}

impl View for FileWrite {
    type V = FileWriteV;

    open spec fn view(&self) -> FileWriteV {
        FileWriteV { path: self.path@, content: self.content@ }
    }
}

/// The write that follows a pure leaf inside a write tree: the formatted
/// content, where the result holds one, goes to the target.
pub open spec fn leaf_write(target: Seq<char>, result: JsonV) -> Option<FileWriteV> {
    match result.get_str(key_formatted_content()) {
        Some(formatted) => Some(FileWriteV { path: target, content: formatted }),
        None => None,
    }
}

/// The write that follows a pure leaf inside a write tree.
pub fn write_after_leaf(target: String, result: &Json) -> (r: Option<FileWrite>)
    ensures
        match r {
            Some(w) => leaf_write(target@, result@) == Some(w@),
            None => leaf_write(target@, result@) is None,
        },
{
    match result.get_str("formatted-content") {
        Some(formatted) => Some(FileWrite { path: target, content: formatted }),
        None => None,
    }
}

/// The value of a [`RunPlan`].
pub enum RunPlanV {
    Pure { cmd: FlowV<PureCommandV>, target: Seq<char>, before: Seq<char> },
    Write { write_cmd: FlowV<WriteCommandV> },
}

/// How a rule's bundle is run.
pub enum RunPlan<'a> {
    /// Evaluate the pure tree; then write the formatted content to
    /// `target` if it differs from `before`.
    Pure { cmd: &'a CommandWithControlFlow<PureCommand>, target: String, before: String },
    /// Evaluate the write tree; its leaves write for themselves.
    Write { write_cmd: &'a CommandWithControlFlow<WriteCommand> },
}

impl<'a> View for RunPlan<'a> {
    type V = RunPlanV;

    open spec fn view(&self) -> RunPlanV {
        match self {
            RunPlan::Pure { cmd, target, before } => RunPlanV::Pure {
                cmd: cmd@,
                target: target@,
                before: before@,
            },
            RunPlan::Write { write_cmd } => RunPlanV::Write { write_cmd: write_cmd@ },
        }
    }
}

/// How a rule's bundle is run on a context. A pure bundle needs the
/// context's `os-target` and `target-content`: the first is where the
/// result goes, the second what the result is compared with.
pub open spec fn run_plan(some_cmd: SomeCommandV, context: JsonV) -> Result<RunPlanV, LeafFault> {
    match some_cmd {
        SomeCommandV::Pure { cmd } => match required(context, key_os_target()) {
            Err(e) => Err(e),
            Ok(target) => match required(context, key_target_content()) {
                Err(e) => Err(e),
                Ok(before) => Ok(RunPlanV::Pure { cmd, target, before }),
            },
        },
        SomeCommandV::Write { write_cmd } => Ok(RunPlanV::Write { write_cmd }),
    }
}

/// How the bundle `some_command` is run on the context `cur_json`.
pub fn run<'a>(some_command: &'a SomeCommand, cur_json: &Json) -> (r: Result<RunPlan<'a>, LeafError>)
    ensures
        match r {
            Ok(plan) => run_plan(some_command@, cur_json@) == Ok::<RunPlanV, LeafFault>(plan@),
            Err(e) => run_plan(some_command@, cur_json@) == Err::<RunPlanV, LeafFault>(e@),
        },
{
    match some_command {
        SomeCommand::Pure { cmd } => {
            let target = match require_str(cur_json, "os-target") {
                Ok(target) => target,
                Err(e) => {
                    return Err(e);
                },
            };
            let before = match require_str(cur_json, "target-content") {
                Ok(before) => before,
                Err(e) => {
                    return Err(e);
                },
            };
            Ok(RunPlan::Pure { cmd, target, before })
        },
        SomeCommand::Write { write_cmd } => Ok(RunPlan::Write { write_cmd }),
    }
}

/// The one write that the run of a pure rule leads to: the formatted
/// content goes to the target exactly if the result holds one and it
/// differs from the content that was read.
pub open spec fn run_write(target: Seq<char>, before: Seq<char>, result: JsonV) -> Option<FileWriteV> {
    match result.get_str(key_formatted_content()) {
        Some(formatted) => if formatted != before {
            Some(FileWriteV { path: target, content: formatted })
        } else {
            None
        },
        None => None,
    }
}

/// The write that follows the run of a pure rule on `before`, read from
/// `target`, with `result` as the final context.
pub fn write_after_run(target: String, before: &str, result: &Json) -> (r: Option<FileWrite>)
    ensures
        match r {
            Some(w) => run_write(target@, before@, result@) == Some(w@),
            None => run_write(target@, before@, result@) is None,
        },
{
    match result.get_str("formatted-content") {
        Some(formatted) => {
            if str_eq(formatted.as_str(), before) {
                None
            } else {
                Some(FileWrite { path: target, content: formatted })
            }
        },
        None => None,
    }
}

/// A run leads to a write only of the target, only of the formatted
/// content that the result holds, and never where that content is what was
/// read: formatting what is already formatted leaves the file alone.
pub proof fn lemma_run_write(target: Seq<char>, before: Seq<char>, result: JsonV)
    ensures
        run_write(target, before, result) matches Some(w) ==> w.path == target && w.content
            != before && result.get_str(key_formatted_content()) == Some(w.content),
        result.get_str(key_formatted_content()) == Some(before) ==> run_write(
            target,
            before,
            result,
        ) is None,
        result.get_str(key_formatted_content()) is None ==> run_write(target, before, result) is None,
{
}

} // verus!
