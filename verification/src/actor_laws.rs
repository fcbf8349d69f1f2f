//! Laws of the Docker actor: log streams and updates over their whole life.
use vstd::prelude::*;

use crate::actor;
use crate::actor::{
    ContainerAction, Dispatcher, StepOutcome, TaskModel, UpdateModel, UpdateStage,
};
use crate::container::ComposeModel;
use crate::docker::CommandModel;
use crate::docker_laws;
use crate::message::MessageModel;
use crate::text;
use crate::text_laws;

verus! {

// ---------------------------------------------------------------------
// Log streams
// ---------------------------------------------------------------------

/// The state of the command loop after a series of commands.
pub open spec fn dispatched(start: Dispatcher, commands: Seq<CommandModel>) -> Dispatcher
    decreases commands.len(),
{
    if commands.len() == 0 {
        start
    } else {
        let before = dispatched(start, commands.drop_last());
        Dispatcher { log_task: before.log_task_after(commands.last()) }
    }
}

/// The number of log streams that are running after a series of commands:
/// those that were started, less those that were aborted.
pub open spec fn running_streams(start: Dispatcher, commands: Seq<CommandModel>) -> int
    decreases commands.len(),
{
    if commands.len() == 0 {
        if start.log_task {
            1
        } else {
            0
        }
    } else {
        let before = dispatched(start, commands.drop_last());
        let aborted: int = if before.log_task && actor::ends_log_stream(commands.last()) {
            1
        } else {
            0
        };
        let started: int = if actor::task_of(commands.last()) matches Some(task)
            && task is StreamLogs {
            1
        } else {
            0
        };
        running_streams(start, commands.drop_last()) - aborted + started
    }
}

/// Whatever commands arrive, at most one log stream is running, and the
/// command loop knows whether one is.
pub proof fn at_most_one_log_stream(start: Dispatcher, commands: Seq<CommandModel>)
    ensures
        running_streams(start, commands) == (if dispatched(start, commands).log_task {
            1int
        } else {
            0int
        }),
    decreases commands.len(),
{
    if commands.len() > 0 {
        at_most_one_log_stream(start, commands.drop_last());
    }
}

/// After a command to stop them no logs are streamed.
pub proof fn stopping_ends_the_stream(start: Dispatcher, commands: Seq<CommandModel>)
    requires
        commands.len() > 0,
        commands.last() is StopLogs,
    ensures
        running_streams(start, commands) == 0,
{
    at_most_one_log_stream(start, commands);
}

/// A log line is not empty, holds no line break, and does not end with a
/// carriage return.
pub proof fn log_lines_are_clean(text: Seq<char>, i: int)
    requires
        0 <= i < actor::log_lines(text).len(),
    ensures
        actor::log_lines(text)[i].len() > 0,
        text_laws::free_of(actor::log_lines(text)[i], '\n'),
        actor::log_lines(text)[i].last() != '\r',
{
    text_laws::pieces_hold_no_separator(text, '\n');
    lemma_clean_lines(text::split(text, '\n'), i);
}

proof fn lemma_clean_lines(pieces: Seq<Seq<char>>, i: int)
    requires
        0 <= i < pieces.filter_map(actor::log_line_test()).len(),
        forall|j: int| 0 <= j < pieces.len() ==> text_laws::free_of(#[trigger] pieces[j], '\n'),
    ensures
        pieces.filter_map(actor::log_line_test())[i].len() > 0,
        text_laws::free_of(pieces.filter_map(actor::log_line_test())[i], '\n'),
        pieces.filter_map(actor::log_line_test())[i].last() != '\r',
    decreases pieces.len(),
{
    let head = pieces.drop_last();
    let kept = head.filter_map(actor::log_line_test());
    if i < kept.len() {
        assert forall|j: int| 0 <= j < head.len() implies text_laws::free_of(
            #[trigger] head[j],
            '\n',
        ) by {
            assert(head[j] == pieces[j]);
        }
        lemma_clean_lines(head, i);
    } else {
        assert(text_laws::free_of(pieces[pieces.len() - 1], '\n'));
        lemma_strip_back_is_a_front(pieces.last(), text::only('\r'));
    }
}

/// What is left without a suffix is a prefix that the suffix cannot grow
/// into.
proof fn lemma_strip_back_is_a_front(s: Seq<char>, drop: spec_fn(char) -> bool)
    ensures
        text::strip_back(s, drop).len() <= s.len(),
        text::strip_back(s, drop) == s.take(text::strip_back(s, drop).len() as int),
        text::strip_back(s, drop).len() > 0 ==> !drop(text::strip_back(s, drop).last()),
    decreases s.len(),
{
    if s.len() > 0 && drop(s.last()) {
        lemma_strip_back_is_a_front(s.drop_last(), drop);
        let n = text::strip_back(s, drop).len() as int;
        assert(s.drop_last().take(n) =~= s.take(n));
    } else {
        assert(s.take(s.len() as int) =~= s);
    }
}

// ---------------------------------------------------------------------
// Updates
// ---------------------------------------------------------------------

impl UpdateModel {
    /// The update once a step has ended.
    pub open spec fn stepped(self, outcome: StepOutcome) -> UpdateModel {
        UpdateModel { stage: self.next_stage(outcome), ..self }
    }

    /// The messages of a whole update, given how its steps end.
    pub open spec fn story(self, pull: StepOutcome, recreate: StepOutcome) -> Seq<MessageModel> {
        self.messages(pull) + self.stepped(pull).messages(recreate)
    }
}

/// The service is recreated only once its image is pulled, and after that
/// nothing is left to do.
pub proof fn an_update_pulls_and_then_recreates(
    m: UpdateModel,
    pull: StepOutcome,
    recreate: StepOutcome,
)
    requires
        m.stage == UpdateStage::Pull,
    ensures
        m.stepped(pull).args() is Some <==> actor::succeeded(pull),
        m.stepped(pull).stepped(recreate).args() is None,
        m.stepped(pull).compose == m.compose,
{
}

/// An update is reported as finished exactly once, as the last thing, and as
/// a success exactly if both of its steps succeeded.
pub proof fn an_update_ends_once(m: UpdateModel, pull: StepOutcome, recreate: StepOutcome)
    requires
        m.stage == UpdateStage::Pull,
    ensures
        m.story(pull, recreate).len() > 0,
        m.story(pull, recreate).last() matches MessageModel::UpdateFinished { success, detail }
            && success == (actor::succeeded(pull) && actor::succeeded(recreate)),
        forall|i: int|
            0 <= i < m.story(pull, recreate).len() - 1 ==> !((#[trigger] m.story(pull, recreate)[i])
                is UpdateFinished),
{
    let first = m.messages(pull);
    let second = m.stepped(pull).messages(recreate);
    if second.len() == 0 {
        assert(first + second =~= first);
    }
}

/// Arguments of a step, argument by argument: pulling names the service, and
/// recreating it builds it and leaves its dependencies alone.
pub proof fn what_the_steps_call(m: UpdateModel)
    ensures
        m.stage == UpdateStage::Pull ==> m.args() is Some && docker_laws::calls(
            m.args()->0,
            m.compose.project,
            m.compose.config_files,
            seq!["pull"@, m.compose.service],
        ),
        m.stage == UpdateStage::Recreate ==> m.args() is Some && docker_laws::calls(
            m.args()->0,
            m.compose.project,
            m.compose.config_files,
            seq!["up"@, "-d"@, "--build"@, "--no-deps"@, m.compose.service],
        ),
        m.stage == UpdateStage::Finished ==> m.args() is None,
{
    docker_laws::compose_calls_read(m.compose, seq!["pull"@, m.compose.service]);
    docker_laws::compose_calls_read(
        m.compose,
        seq!["up"@, "-d"@, "--build"@, "--no-deps"@, m.compose.service],
    );
}

/// A step that exits well leads on, from the pull to the second step without
/// a message, and from there to the end with the report of a success.
pub proof fn steps_that_exit_well(m: UpdateModel, code: Option<i32>)
    ensures
        ({
            let outcome = StepOutcome::Exited { success: true, code };
            &&& m.stage == UpdateStage::Pull ==> m.next_stage(outcome) == UpdateStage::Recreate
                && m.messages(outcome) == Seq::<MessageModel>::empty()
            &&& m.stage == UpdateStage::Recreate ==> m.next_stage(outcome)
                == UpdateStage::Finished && m.messages(outcome) == seq![
                MessageModel::UpdateFinished { success: true, detail: "Updated "@ + m.name },
            ]
            &&& actor::succeeded(outcome)
        }),
{
}

/// A step that fails ends the update, with the exit code in the report, or
/// the word signal where there is none.
pub proof fn steps_that_fail(m: UpdateModel, code: i32)
    requires
        m.stage != UpdateStage::Finished,
    ensures
        ({
            let outcome = StepOutcome::Exited { success: false, code: Some(code) };
            let signal = StepOutcome::Exited { success: false, code: None };
            &&& m.next_stage(outcome) == UpdateStage::Finished
            &&& m.next_stage(signal) == UpdateStage::Finished
            &&& !actor::succeeded(outcome)
            &&& !actor::succeeded(signal)
            &&& m.messages(outcome) == seq![
                MessageModel::UpdateFinished {
                    success: false,
                    detail: "Update of "@ + m.name + " failed"@ + (" (exit "@
                        + text::signed_decimal(code as int) + ")"@),
                },
            ]
            &&& m.messages(signal) == seq![
                MessageModel::UpdateFinished {
                    success: false,
                    detail: "Update of "@ + m.name + " failed"@ + (" (exit "@ + "signal"@ + ")"@),
                },
            ]
        }),
{
}

/// A step that cannot be run ends the update too, with the reason in the
/// output.
pub proof fn steps_that_cannot_be_run(m: UpdateModel, err: String)
    requires
        m.stage != UpdateStage::Finished,
    ensures
        m.next_stage(StepOutcome::NotRun(err)) == UpdateStage::Finished,
        !actor::succeeded(StepOutcome::NotRun(err)),
        m.messages(StepOutcome::NotRun(err)) == seq![
            MessageModel::UpdateLine("error: "@ + err@),
            MessageModel::UpdateFinished {
                success: false,
                detail: "Update of "@ + m.name + " failed"@ + ": could not run docker compose"@,
            },
        ],
{
}

/// Once an update is finished, nothing follows.
pub proof fn nothing_follows_the_end(m: UpdateModel, outcome: StepOutcome)
    requires
        m.stage == UpdateStage::Finished,
    ensures
        m.next_stage(outcome) == UpdateStage::Finished,
        m.messages(outcome) == Seq::<MessageModel>::empty(),
        m.args() is None,
{
}

/// A command is announced as it would be typed: behind a dollar sign and the
/// program's name, one blank before every argument.
pub proof fn commands_are_announced_as_typed(args: Seq<Seq<char>>, last: Seq<char>)
    ensures
        actor::command_line(seq![last]) == "$ docker "@ + last,
        args.len() > 0 ==> actor::command_line(args.push(last)) == actor::command_line(args)
            + " "@ + last,
{
    text_laws::few_pieces_join_to_themselves(last, " "@);
    if args.len() > 0 {
        text_laws::one_more_piece_joins_on(args, last, " "@);
        assert("$ docker "@ + (text::join(args, " "@) + " "@ + last) =~= "$ docker "@ + text::join(
            args,
            " "@,
        ) + " "@ + last);
    }
}

// ---------------------------------------------------------------------
// Output lines
// ---------------------------------------------------------------------

/// Of a line of output is shown what stands behind its last carriage return,
/// without the white space at its end.
pub proof fn what_is_shown_of_a_line(before: Seq<char>, line: Seq<char>, blank: Seq<char>)
    requires
        line.len() > 0,
        !text::is_white_space(line.last()),
        text_laws::free_of(line, '\r'),
        text_laws::free_of(blank, '\r'),
        text_laws::is_blank_text(blank),
    ensures
        actor::shown_line(line + blank) == Some(line),
        actor::shown_line(before + seq!['\r'] + (line + blank)) == Some(line),
{
    let tail = line + blank;
    assert forall|i: int| 0 <= i < tail.len() implies #[trigger] tail[i] != '\r' by {
        if i < line.len() {
            assert(line[i] != '\r');
        } else {
            assert(blank[i - line.len()] != '\r');
        }
    }
    text_laws::what_stands_behind_the_last_separator(before, tail, '\r');
    text_laws::stripping_the_back(line, blank, text::white_space());
}

/// A line is not shown if all that stands behind its last carriage return is
/// white space.
pub proof fn blank_lines_are_not_shown(before: Seq<char>, blank: Seq<char>)
    requires
        text_laws::free_of(blank, '\r'),
        text_laws::is_blank_text(blank),
    ensures
        actor::shown_line(blank) is None,
        actor::shown_line(before + seq!['\r'] + blank) is None,
{
    let none = Seq::<char>::empty();
    text_laws::what_stands_behind_the_last_separator(before, blank, '\r');
    text_laws::stripping_the_back(none, blank, text::white_space());
    assert(none + blank =~= blank);
}

// ---------------------------------------------------------------------
// Log lines
// ---------------------------------------------------------------------

/// The log lines of two texts with a line break between them are those of
/// the one, and then those of the other.
pub proof fn log_lines_follow_one_another(a: Seq<char>, b: Seq<char>)
    ensures
        actor::log_lines(a + seq!['\n'] + b) == actor::log_lines(a) + actor::log_lines(b),
{
    text_laws::split_at_a_separator(a, b, '\n');
    lemma_filter_map_adds_up(text::split(a, '\n'), text::split(b, '\n'), actor::log_line_test());
}

/// A text without a line break is one log line, but for the carriage returns
/// at its end, whatever else it holds; and none if it holds nothing else.
pub proof fn every_piece_is_a_log_line(line: Seq<char>, ending: Seq<char>)
    requires
        text_laws::free_of(line, '\n'),
        text_laws::repeats(ending, '\r'),
    ensures
        line.len() > 0 && line.last() != '\r' ==> actor::log_lines(line + ending) == seq![line],
        actor::log_lines(ending) == Seq::<Seq<char>>::empty(),
{
    let none = Seq::<char>::empty();
    lemma_one_log_line(none, ending);
    assert(none + ending =~= ending);
    if line.len() > 0 && line.last() != '\r' {
        lemma_one_log_line(line, ending);
    }
}

/// No log line is lost, wherever in the text it stands and whatever it holds,
/// and the lines keep their order.
pub proof fn no_log_line_is_lost(a: Seq<char>, line: Seq<char>, ending: Seq<char>, b: Seq<char>)
    requires
        line.len() > 0,
        line.last() != '\r',
        text_laws::free_of(line, '\n'),
        text_laws::repeats(ending, '\r'),
    ensures
        actor::log_lines(a + seq!['\n'] + (line + ending + seq!['\n'] + b)) == actor::log_lines(a)
            + (seq![line] + actor::log_lines(b)),
{
    log_lines_follow_one_another(a, line + ending + seq!['\n'] + b);
    log_lines_follow_one_another(line + ending, b);
    every_piece_is_a_log_line(line, ending);
}

proof fn lemma_one_log_line(line: Seq<char>, ending: Seq<char>)
    requires
        text_laws::free_of(line, '\n'),
        text_laws::repeats(ending, '\r'),
        line.len() > 0 ==> line.last() != '\r',
    ensures
        actor::log_lines(line + ending) == (if line.len() > 0 {
            seq![line]
        } else {
            Seq::empty()
        }),
{
    let s = line + ending;
    assert forall|i: int| 0 <= i < s.len() implies #[trigger] s[i] != '\n' by {
        if i < line.len() {
            assert(line[i] != '\n');
        } else {
            assert(ending[i - line.len()] == '\r');
        }
    }
    text_laws::text_without_separator_is_one_piece(s, '\n');
    text_laws::stripping_the_back(line, ending, text::only('\r'));
    let test = actor::log_line_test();
    assert(seq![s].drop_last() =~= Seq::<Seq<char>>::empty());
    assert(seq![s].last() == s);
    reveal_with_fuel(Seq::filter_map, 2);
    assert(seq![s].filter_map(test) =~= (if line.len() > 0 {
        seq![line]
    } else {
        Seq::empty()
    }));
}

/// What a partial function leaves of two lists adds up.
pub proof fn lemma_filter_map_adds_up(
    a: Seq<Seq<char>>,
    b: Seq<Seq<char>>,
    f: spec_fn(Seq<char>) -> Option<Seq<char>>,
)
    ensures
        (a + b).filter_map(f) == a.filter_map(f) + b.filter_map(f),
    decreases b.len(),
{
    if b.len() == 0 {
        assert(a + b =~= a);
        assert(a.filter_map(f) + b.filter_map(f) =~= a.filter_map(f));
    } else {
        lemma_filter_map_adds_up(a, b.drop_last(), f);
        assert((a + b).drop_last() =~= a + b.drop_last());
        assert((a + b).last() == b.last());
        assert((a + b).filter_map(f) =~= a.filter_map(f) + b.filter_map(f));
    }
}

/// Every log line is delivered, in order, as one of the container.
pub proof fn log_lines_are_delivered(id: Seq<char>, lines: Seq<Seq<char>>)
    ensures
        actor::log_messages(id, lines).len() == lines.len(),
        forall|i: int|
            0 <= i < lines.len() ==> #[trigger] actor::log_messages(id, lines)[i]
                == MessageModel::LogLine(id, lines[i]),
{
}

/// An item of a log stream delivers its log lines, and an error of the stream
/// is reported.
pub proof fn what_a_log_item_delivers(id: Seq<char>, output: Vec<u8>, err: String)
    ensures
        actor::log_item_messages(id, Ok(output)) == actor::log_messages(
            id,
            actor::log_lines(actor::lossy_text(output@)),
        ),
        actor::log_item_messages(id, Err(err)) == seq![
            MessageModel::DockerError("Log stream error: "@ + err@),
        ],
{
}

// ---------------------------------------------------------------------
// Dispatch
// ---------------------------------------------------------------------

/// The task that a command starts carries what the command carries.
pub proof fn tasks_carry_what_commands_carry(
    id: Seq<char>,
    name: Seq<char>,
    compose: ComposeModel,
)
    ensures
        actor::task_of(CommandModel::Start { id, name }) == Some(
            TaskModel::RunAction { action: ContainerAction::Start, id, name },
        ),
        actor::task_of(CommandModel::Stop { id, name }) == Some(
            TaskModel::RunAction { action: ContainerAction::Stop, id, name },
        ),
        actor::task_of(CommandModel::Restart { id, name }) == Some(
            TaskModel::RunAction { action: ContainerAction::Restart, id, name },
        ),
        actor::task_of(CommandModel::FetchStats { id }) == Some(TaskModel::FetchStats { id }),
        actor::task_of(CommandModel::StreamLogs { id }) == Some(TaskModel::StreamLogs { id }),
        actor::task_of(CommandModel::StopLogs) is None,
        actor::task_of(CommandModel::ComposeUpdate { compose, name }) matches Some(
            TaskModel::ComposeUpdate { compose: c, name: n },
        ) && {
            &&& c.project == compose.project
            &&& c.service == compose.service
            &&& c.working_dir == compose.working_dir
            &&& c.config_files == compose.config_files
            &&& n == name
        },
{
}

/// A log stream ends when another one starts or when it is stopped, and runs
/// on through every other command.
pub proof fn what_ends_a_log_stream(
    d: Dispatcher,
    id: Seq<char>,
    name: Seq<char>,
    compose: ComposeModel,
)
    ensures
        actor::ends_log_stream(CommandModel::StreamLogs { id }),
        actor::ends_log_stream(CommandModel::StopLogs),
        !actor::ends_log_stream(CommandModel::Start { id, name }),
        !actor::ends_log_stream(CommandModel::Stop { id, name }),
        !actor::ends_log_stream(CommandModel::Restart { id, name }),
        !actor::ends_log_stream(CommandModel::FetchStats { id }),
        !actor::ends_log_stream(CommandModel::ComposeUpdate { compose, name }),
        d.log_task_after(CommandModel::StreamLogs { id }),
        !d.log_task_after(CommandModel::StopLogs),
        d.log_task_after(CommandModel::Start { id, name }) == d.log_task,
        d.log_task_after(CommandModel::Stop { id, name }) == d.log_task,
        d.log_task_after(CommandModel::Restart { id, name }) == d.log_task,
        d.log_task_after(CommandModel::FetchStats { id }) == d.log_task,
        d.log_task_after(CommandModel::ComposeUpdate { compose, name }) == d.log_task,
{
}

/// How the actions read in reports.
pub proof fn how_actions_read()
    ensures
        actor::done_verb(ContainerAction::Start) == "Started"@,
        actor::done_verb(ContainerAction::Stop) == "Stopped"@,
        actor::done_verb(ContainerAction::Restart) == "Restarted"@,
        actor::verb(ContainerAction::Start) == "start"@,
        actor::verb(ContainerAction::Stop) == "stop"@,
        actor::verb(ContainerAction::Restart) == "restart"@,
{
}

} // verus!
