//! The Docker actor: what it decides to do about every command, and what it
//! reports about every outcome. Talking to the daemon is not its part.
use vstd::prelude::*;

use crate::container::{ComposeInfo, ComposeModel};
use crate::docker;
use crate::docker::{CommandModel, DockerCommand};
use crate::message;
use crate::message::{Message, MessageModel};
use crate::text;

verus! {

/// How often the container list is refreshed, in seconds.
pub const POLL_INTERVAL_SECS: u64 = 2;

/// How many historical lines to request when a log stream starts.
pub const LOG_TAIL: u64 = 200;

// ---------------------------------------------------------------------
// Dispatch
// ---------------------------------------------------------------------

/// What can be done to a container.
#[derive(Debug, Clone, Copy, PartialEq, Eq, Structural)]
pub enum ContainerAction {
    Start,
    Stop,
    Restart,
}

/// A piece of work that runs apart from the command loop.
#[derive(Debug)]
pub enum Task {
    RunAction { action: ContainerAction, id: String, name: String },
    FetchStats { id: String },
    StreamLogs { id: String },
    ComposeUpdate { compose: ComposeInfo, name: String },
}

/// What a `Task` holds.
pub enum TaskModel {
    RunAction { action: ContainerAction, id: Seq<char>, name: Seq<char> },
    FetchStats { id: Seq<char> },
    StreamLogs { id: Seq<char> },
    ComposeUpdate { compose: ComposeModel, name: Seq<char> },
}

impl View for Task {
    type V = TaskModel;

    open spec fn view(&self) -> TaskModel {
        match *self {
            Task::RunAction { action, id, name } => TaskModel::RunAction {
                action,
                id: id@,
                name: name@,
            },
            Task::FetchStats { id } => TaskModel::FetchStats { id: id@ },
            Task::StreamLogs { id } => TaskModel::StreamLogs { id: id@ },
            Task::ComposeUpdate { compose, name } => TaskModel::ComposeUpdate {
                compose: compose@,
                name: name@,
            },
        }
    }
}

/// What to do about a command: first abort the running log stream where
/// `abort_logs` says so, then start the task.
#[derive(Debug)]
pub struct Dispatch {
    pub abort_logs: bool,
    pub task: Option<Task>,
}

/// The state of the command loop.
#[derive(Debug, Clone, Copy, PartialEq, Eq, Structural)]
pub struct Dispatcher {
    /// A log stream has been started and not been aborted since.
    pub log_task: bool,
}

/// The task that a command starts.
pub open spec fn task_of(command: CommandModel) -> Option<TaskModel> {
    match command {
        CommandModel::Start { id, name } => Some(
            TaskModel::RunAction { action: ContainerAction::Start, id, name },
        ),
        CommandModel::Stop { id, name } => Some(
            TaskModel::RunAction { action: ContainerAction::Stop, id, name },
        ),
        CommandModel::Restart { id, name } => Some(
            TaskModel::RunAction { action: ContainerAction::Restart, id, name },
        ),
        CommandModel::FetchStats { id } => Some(TaskModel::FetchStats { id }),
        CommandModel::StreamLogs { id } => Some(TaskModel::StreamLogs { id }),
        CommandModel::StopLogs => None,
        CommandModel::ComposeUpdate { compose, name } => Some(
            TaskModel::ComposeUpdate { compose, name },
        ),
    }
}

/// The command ends the log stream that is running.
pub open spec fn ends_log_stream(command: CommandModel) -> bool {
    command is StreamLogs || command is StopLogs
}

impl Dispatcher {
    /// A command loop without a log stream.
    pub fn new() -> (r: Self)
        ensures
            !r.log_task,
    {
        Dispatcher { log_task: false }
    }

    /// Whether a log stream is running after the command.
    pub open spec fn log_task_after(self, command: CommandModel) -> bool {
        if ends_log_stream(command) {
            command is StreamLogs
        } else {
            self.log_task
        }
    }

    /// Decides what to do about a command.
    pub fn dispatch(&mut self, command: DockerCommand) -> (r: Dispatch)
        ensures
            final(self).log_task == old(self).log_task_after(command@),
            r.abort_logs == (old(self).log_task && ends_log_stream(command@)),
            match r.task {
                Some(task) => task_of(command@) == Some(task@),
                None => task_of(command@) is None,
            },
    {
        let running = self.log_task;
        match command {
            DockerCommand::Start { id, name } => Dispatch {
                abort_logs: false,
                task: Some(Task::RunAction { action: ContainerAction::Start, id, name }),
            },
            DockerCommand::Stop { id, name } => Dispatch {
                abort_logs: false,
                task: Some(Task::RunAction { action: ContainerAction::Stop, id, name }),
            },
            DockerCommand::Restart { id, name } => Dispatch {
                abort_logs: false,
                task: Some(Task::RunAction { action: ContainerAction::Restart, id, name }),
            },
            DockerCommand::FetchStats { id } => Dispatch {
                abort_logs: false,
                task: Some(Task::FetchStats { id }),
            },
            DockerCommand::StreamLogs { id } => {
                self.log_task = true;
                Dispatch { abort_logs: running, task: Some(Task::StreamLogs { id }) }
            },
            DockerCommand::StopLogs => {
                self.log_task = false;
                Dispatch { abort_logs: running, task: None }
            },
            DockerCommand::ComposeUpdate { compose, name } => Dispatch {
                abort_logs: false,
                task: Some(Task::ComposeUpdate { compose, name }),
            },
        }
    }
}

/// The message about a daemon that cannot be reached.
pub fn connect_error(err: &str) -> (r: Message)
    ensures
        r@ == MessageModel::DockerError("Cannot connect to Docker daemon: "@ + err@),
{
    Message::DockerError(text::concat2("Cannot connect to Docker daemon: ", err))
}

// ---------------------------------------------------------------------
// Container actions
// ---------------------------------------------------------------------

/// An action, as it reads once it is done.
pub open spec fn done_verb(action: ContainerAction) -> Seq<char> {
    match action {
        ContainerAction::Start => "Started"@,
        ContainerAction::Stop => "Stopped"@,
        ContainerAction::Restart => "Restarted"@,
    }
}

/// An action, as it reads when it has failed.
pub open spec fn verb(action: ContainerAction) -> Seq<char> {
    match action {
        ContainerAction::Start => "start"@,
        ContainerAction::Stop => "stop"@,
        ContainerAction::Restart => "restart"@,
    }
}

/// The message about the outcome of an action.
pub fn action_message(action: ContainerAction, name: &str, result: Result<(), String>) -> (r:
    Message)
    ensures
        r@ == (match result {
            Ok(_) => MessageModel::Status(done_verb(action) + " "@ + name@),
            Err(err) => MessageModel::DockerError(
                "Failed to "@ + verb(action) + " "@ + name@ + ": "@ + err@,
            ),
        }),
{
    let (done, verb) = match action {
        ContainerAction::Start => ("Started", "start"),
        ContainerAction::Stop => ("Stopped", "stop"),
        ContainerAction::Restart => ("Restarted", "restart"),
    };
    match result {
        Ok(_) => Message::Status(text::concat3(done, " ", name)),
        Err(err) => {
            let mut text = text::concat3("Failed to ", verb, " ");
            text.append(name);
            text.append(": ");
            text.append(err.as_str());
            Message::DockerError(text)
        },
    }
}

// ---------------------------------------------------------------------
// Logs
// ---------------------------------------------------------------------

/// What `String::from_utf8_lossy` makes of some bytes.
pub uninterp spec fn lossy_text(bytes: Seq<u8>) -> Seq<char>;

/// `String::from_utf8_lossy` decodes bytes as UTF-8 and puts replacement
/// characters where they are not. What it returns depends on the bytes
/// alone, and valid UTF-8 is decoded as it is.
#[verifier::external_body]
fn decode_lossy(bytes: &[u8]) -> (r: String)
    ensures
        r@ == lossy_text(bytes@),
        vstd::utf8::valid_utf8(bytes@) ==> r@ == vstd::utf8::decode_utf8(bytes@),
{
    String::from_utf8_lossy(bytes).into_owned()
}

/// The log line in a piece of log output: none if it is empty but for
/// carriage returns at its end.
pub open spec fn log_line(piece: Seq<char>) -> Option<Seq<char>> {
    let line = text::strip_back(piece, text::only('\r'));
    if line.len() == 0 {
        None
    } else {
        Some(line)
    }
}

/// `log_line` as a function value.
pub open spec fn log_line_test() -> spec_fn(Seq<char>) -> Option<Seq<char>> {
    |piece: Seq<char>| log_line(piece)
}

/// The log lines in a text.
pub open spec fn log_lines(text: Seq<char>) -> Seq<Seq<char>> {
    text::split(text, '\n').filter_map(log_line_test())
}

/// The messages that deliver some log lines.
pub open spec fn log_messages(id: Seq<char>, lines: Seq<Seq<char>>) -> Seq<MessageModel> {
    lines.map_values(|line: Seq<char>| MessageModel::LogLine(id, line))
}

/// The log lines in a text.
pub fn split_log_text(text: &str) -> (r: Vec<String>)
    ensures
        text::texts(r@) == log_lines(text@),
{
    let pieces = text::split_text(text, '\n');
    let ghost all = text::texts(pieces@);
    let mut lines: Vec<String> = Vec::new();
    let mut i: usize = 0;
    assert(text::texts(lines@) =~= all.take(0).filter_map(log_line_test()));
    while i < pieces.len()
        invariant
            i <= pieces.len(),
            all == text::texts(pieces@),
            text::texts(lines@) == all.take(i as int).filter_map(log_line_test()),
        decreases pieces.len() - i,
    {
        let ghost before = text::texts(lines@);
        proof {
            all.lemma_filter_map_take_succ(log_line_test(), i as int);
        }
        let line = text::strip_trailing(pieces[i].as_str(), '\r');
        if !line.is_empty() {
            lines.push(String::from_str(line));
            assert(text::texts(lines@) =~= before.push(line@));
        }
        i = i + 1;
    }
    assert(all.take(all.len() as int) =~= all);
    lines
}

/// The messages that deliver some output of a container's log stream, which
/// is taken for UTF-8 text.
pub fn log_output_messages(id: &str, output: &[u8]) -> (r: Vec<Message>)
    ensures
        message::messages_model(r@) == log_messages(id@, log_lines(lossy_text(output@))),
        vstd::utf8::valid_utf8(output@) ==> message::messages_model(r@) == log_messages(
            id@,
            log_lines(vstd::utf8::decode_utf8(output@)),
        ),
{
    let text = decode_lossy(output);
    log_text_messages(id, text.as_str())
}

/// The messages that deliver some text of a container's log stream.
pub fn log_text_messages(id: &str, text: &str) -> (r: Vec<Message>)
    ensures
        message::messages_model(r@) == log_messages(id@, log_lines(text@)),
{
    let lines = split_log_text(text);
    let ghost all = text::texts(lines@);
    let mut messages: Vec<Message> = Vec::new();
    let mut i: usize = 0;
    while i < lines.len()
        invariant
            i <= lines.len(),
            all == text::texts(lines@),
            message::messages_model(messages@) == log_messages(id@, all.take(i as int)),
        decreases lines.len() - i,
    {
        let ghost before = message::messages_model(messages@);
        messages.push(Message::LogLine(String::from_str(id), lines[i].clone()));
        proof {
            let m = MessageModel::LogLine(id@, all[i as int]);
            assert(message::messages_model(messages@) =~= before.push(m));
            assert(log_messages(id@, all.take(i + 1)) =~= before.push(m));
        }
        i = i + 1;
    }
    assert(all.take(all.len() as int) =~= all);
    messages
}

/// What an item of a log stream results in.
#[derive(Debug)]
pub struct LogProgress {
    pub messages: Vec<Message>,
    /// Whether to stop reading the stream.
    pub finished: bool,
}

/// The messages that an item of a container's log stream gives rise to. An
/// error ends the stream.
pub open spec fn log_item_messages(id: Seq<char>, item: Result<Vec<u8>, String>) -> Seq<
    MessageModel,
> {
    match item {
        Ok(output) => log_messages(id, log_lines(lossy_text(output@))),
        Err(err) => seq![MessageModel::DockerError("Log stream error: "@ + err@)],
    }
}

/// What an item of a container's log stream results in.
pub fn log_progress(id: &str, item: Result<Vec<u8>, String>) -> (r: LogProgress)
    ensures
        message::messages_model(r.messages@) == log_item_messages(id@, item),
        item matches Ok(output) ==> (vstd::utf8::valid_utf8(output@) ==> message::messages_model(
            r.messages@,
        ) == log_messages(id@, log_lines(vstd::utf8::decode_utf8(output@)))),
        r.finished == (item is Err),
{
    match item {
        Ok(output) => LogProgress {
            messages: log_output_messages(id, output.as_slice()),
            finished: false,
        },
        Err(err) => {
            let mut messages: Vec<Message> = Vec::new();
            let text = text::concat2("Log stream error: ", err.as_str());
            messages.push(Message::DockerError(text));
            assert(message::messages_model(messages@) =~= seq![MessageModel::DockerError(text@)]);
            LogProgress { messages, finished: true }
        },
    }
}

// ---------------------------------------------------------------------
// Compose updates
// ---------------------------------------------------------------------

/// The line that a line of command output is shown as. Progress bars redraw
/// with carriage returns, so what counts is what stands behind the last one;
/// a blank line is not shown.
pub open spec fn shown_line(line: Seq<char>) -> Option<Seq<char>> {
    let cleaned = text::trimmed_end(text::after_last(line, '\r'));
    if cleaned.len() == 0 {
        None
    } else {
        Some(cleaned)
    }
}

/// The message that shows a line of command output, if it is shown.
pub fn output_message(line: &str) -> (r: Option<Message>)
    ensures
        match r {
            Some(msg) => shown_line(line@) is Some && msg@ == MessageModel::UpdateLine(
                shown_line(line@)->0,
            ),
            None => shown_line(line@) is None,
        },
{
    let tail = text::text_after_last(line, '\r');
    let cleaned = text::trim_end(tail.as_str());
    if cleaned.is_empty() {
        None
    } else {
        Some(Message::UpdateLine(String::from_str(cleaned)))
    }
}

/// The step that an update is at.
#[derive(Debug, Clone, Copy, PartialEq, Eq, Structural)]
pub enum UpdateStage {
    /// The latest image is pulled.
    Pull,
    /// The service is recreated.
    Recreate,
    /// Nothing is left to do.
    Finished,
}

/// How the command of a step ended.
#[derive(Debug)]
pub enum StepOutcome {
    /// It exited. Without a code it was ended by a signal.
    Exited { success: bool, code: Option<i32> },
    /// It could not be run.
    NotRun(String),
}

/// Update a Compose service: pull its latest image, then recreate it.
#[derive(Debug)]
pub struct UpdateRun {
    pub compose: ComposeInfo,
    pub name: String,
    pub stage: UpdateStage,
}

/// What an update holds.
pub struct UpdateModel {
    pub compose: ComposeModel,
    pub name: Seq<char>,
    pub stage: UpdateStage,
}

impl View for UpdateRun {
    type V = UpdateModel;

    open spec fn view(&self) -> UpdateModel {
        UpdateModel { compose: self.compose@, name: self.name@, stage: self.stage }
    }
}

/// What the outcome of a step results in.
#[derive(Debug)]
pub struct UpdateProgress {
    pub messages: Vec<Message>,
    /// Whether to report the container list anew.
    pub refresh: bool,
}

/// An exit code as it is shown.
pub open spec fn shown_code(code: Option<i32>) -> Seq<char> {
    match code {
        Some(c) => text::signed_decimal(c as int),
        None => "signal"@,
    }
}

impl UpdateModel {
    /// The arguments of the command for the current step.
    pub open spec fn args(self) -> Option<Seq<Seq<char>>> {
        match self.stage {
            UpdateStage::Pull => Some(
                docker::scoped_args(self.compose, seq!["pull"@, self.compose.service]),
            ),
            UpdateStage::Recreate => Some(
                docker::scoped_args(
                    self.compose,
                    seq!["up"@, "-d"@, "--build"@, "--no-deps"@, self.compose.service],
                ),
            ),
            UpdateStage::Finished => None,
        }
    }

    /// The message that a failed update ends with.
    pub open spec fn failure(self, why: Seq<char>) -> MessageModel {
        MessageModel::UpdateFinished {
            success: false,
            detail: "Update of "@ + self.name + " failed"@ + why,
        }
    }

    /// The message that a successful update ends with.
    pub open spec fn success(self) -> MessageModel {
        MessageModel::UpdateFinished { success: true, detail: "Updated "@ + self.name }
    }

    /// The stage after a step has ended.
    pub open spec fn next_stage(self, outcome: StepOutcome) -> UpdateStage {
        if self.stage == UpdateStage::Pull && succeeded(outcome) {
            UpdateStage::Recreate
        } else {
            UpdateStage::Finished
        }
    }

    /// The messages that the end of a step gives rise to.
    pub open spec fn messages(self, outcome: StepOutcome) -> Seq<MessageModel> {
        if self.stage == UpdateStage::Finished {
            Seq::empty()
        } else {
            match outcome {
                StepOutcome::Exited { success, code } => if !success {
                    seq![self.failure(" (exit "@ + shown_code(code) + ")"@)]
                } else if self.stage == UpdateStage::Pull {
                    Seq::empty()
                } else {
                    seq![self.success()]
                },
                StepOutcome::NotRun(err) => seq![
                    MessageModel::UpdateLine("error: "@ + err@),
                    self.failure(": could not run docker compose"@),
                ],
            }
        }
    }
}

/// The command of a step has run and was successful.
pub open spec fn succeeded(outcome: StepOutcome) -> bool {
    match outcome {
        StepOutcome::Exited { success, code } => success,
        StepOutcome::NotRun(_) => false,
    }
}

/// The line that announces a command.
pub open spec fn command_line(args: Seq<Seq<char>>) -> Seq<char> {
    "$ docker "@ + text::join(args, " "@)
}

/// The message that announces a command.
pub fn command_message(args: &Vec<String>) -> (r: Message)
    ensures
        r@ == MessageModel::UpdateLine(command_line(text::texts(args@))),
{
    let joined = text::join_texts(args, " ");
    Message::UpdateLine(text::concat2("$ docker ", joined.as_str()))
}

impl UpdateRun {
    /// An update of which nothing is done yet.
    pub fn new(compose: ComposeInfo, name: String) -> (r: Self)
        ensures
            r@ == (UpdateModel { compose: compose@, name: name@, stage: UpdateStage::Pull }),
    {
        UpdateRun { compose, name, stage: UpdateStage::Pull }
    }

    /// The arguments of the `docker` command to run next, if any.
    pub fn next_args(&self) -> (r: Option<Vec<String>>)
        ensures
            match r {
                Some(args) => self@.args() == Some(text::texts(args@)),
                None => self@.args() is None,
            },
    {
        let service = self.compose.service.as_str();
        match self.stage {
            UpdateStage::Pull => {
                let tail = ["pull", service];
                assert(text::slices(tail@) =~= seq!["pull"@, service@]);
                Some(docker::compose_args(&self.compose, &tail))
            },
            UpdateStage::Recreate => {
                let tail = ["up", "-d", "--build", "--no-deps", service];
                assert(text::slices(tail@) =~= seq![
                    "up"@,
                    "-d"@,
                    "--build"@,
                    "--no-deps"@,
                    service@,
                ]);
                Some(docker::compose_args(&self.compose, &tail))
            },
            UpdateStage::Finished => None,
        }
    }

    /// The message that ends a failed update.
    fn failure(&self, why: &str) -> (r: Message)
        ensures
            r@ == self@.failure(why@),
    {
        let mut detail = text::concat3("Update of ", self.name.as_str(), " failed");
        detail.append(why);
        Message::UpdateFinished { success: false, detail }
    }

    /// Takes the outcome of a step: the next step follows a successful one,
    /// and anything else ends the update.
    pub fn finish_step(&mut self, outcome: StepOutcome) -> (r: UpdateProgress)
        ensures
            final(self)@ == (UpdateModel { stage: old(self)@.next_stage(outcome), ..old(self)@ }),
            message::messages_model(r.messages@) == old(self)@.messages(outcome),
            r.refresh == (old(self)@.stage == UpdateStage::Recreate && succeeded(outcome)),
    {
        let mut messages: Vec<Message> = Vec::new();
        let stage = self.stage;
        if stage == UpdateStage::Finished {
            assert(message::messages_model(messages@) =~= Seq::empty());
            return UpdateProgress { messages, refresh: false };
        }
        let mut refresh = false;
        self.stage = UpdateStage::Finished;
        match outcome {
            StepOutcome::Exited { success, code } => {
                if !success {
                    let shown = match code {
                        Some(c) => text::signed_decimal_text(c),
                        None => String::from_str("signal"),
                    };
                    let why = text::concat3(" (exit ", shown.as_str(), ")");
                    messages.push(self.failure(why.as_str()));
                } else if stage == UpdateStage::Pull {
                    self.stage = UpdateStage::Recreate;
                } else {
                    refresh = true;
                    messages.push(
                        Message::UpdateFinished {
                            success: true,
                            detail: text::concat2("Updated ", self.name.as_str()),
                        },
                    );
                }
            },
            StepOutcome::NotRun(err) => {
                messages.push(Message::UpdateLine(text::concat2("error: ", err.as_str())));
                messages.push(self.failure(": could not run docker compose"));
            },
        }
        assert(message::messages_model(messages@) =~= old(self)@.messages(outcome));
        UpdateProgress { messages, refresh }
    }
}

} // verus!
