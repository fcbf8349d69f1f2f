//! Laws of the models: every value is seen as what it holds, field by field
//! and item by item.
use vstd::prelude::*;

use crate::actor::{Task, TaskModel, UpdateRun};
use crate::app::{App, StatusMessage};
use crate::container;
use crate::container::{ComposeInfo, ContainerInfo};
use crate::docker;
use crate::docker::{CommandModel, DockerCommand};
use crate::message;
use crate::message::{Message, MessageModel};
use crate::model::AppModel;
use crate::paint;
use crate::paint::{
    Content, ContentModel, Placed, Row, RowModel, Span, Widget, WidgetModel,
};
use crate::pane;
use crate::text;
use crate::ui::Readings;

verus! {

// ---------------------------------------------------------------------
// Lists
// ---------------------------------------------------------------------

/// A list of strings is seen as the texts of its strings, one for one.
pub proof fn what_lists_of_strings_hold(list: Seq<String>, i: int)
    ensures
        text::texts(list).len() == list.len(),
        0 <= i < list.len() ==> text::texts(list)[i] == list[i]@,
{
}

/// A list of string slices is seen as the texts of its slices, one for one.
pub proof fn what_lists_of_slices_hold(list: Seq<&str>, i: int)
    ensures
        text::slices(list).len() == list.len(),
        0 <= i < list.len() ==> text::slices(list)[i] == list[i]@,
{
}

/// An optional string is seen as its text, if it is there.
pub proof fn what_optional_strings_hold(s: String)
    ensures
        text::optional_text(Some(s)) == Some(s@),
        text::optional_text(None) is None,
{
}

/// Lists of containers, commands and messages are seen item by item.
pub proof fn what_lists_hold(
    containers: Seq<ContainerInfo>,
    commands: Seq<DockerCommand>,
    messages: Seq<Message>,
    i: int,
)
    ensures
        container::containers_model(containers).len() == containers.len(),
        0 <= i < containers.len() ==> container::containers_model(containers)[i] == containers[i]@,
        docker::commands_model(commands).len() == commands.len(),
        0 <= i < commands.len() ==> docker::commands_model(commands)[i] == commands[i]@,
        message::messages_model(messages).len() == messages.len(),
        0 <= i < messages.len() ==> message::messages_model(messages)[i] == messages[i]@,
{
}

/// Lists of spans, rows and widgets are seen item by item.
pub proof fn what_lists_of_paint_hold(
    spans: Seq<Span>,
    rows: Seq<Row>,
    frame: Seq<Placed>,
    i: int,
)
    ensures
        paint::spans_model(spans).len() == spans.len(),
        0 <= i < spans.len() ==> paint::spans_model(spans)[i] == spans[i]@,
        paint::rows_model(rows).len() == rows.len(),
        0 <= i < rows.len() ==> paint::rows_model(rows)[i] == rows[i]@,
        paint::frame_model(frame).len() == frame.len(),
        0 <= i < frame.len() ==> paint::frame_model(frame)[i] == frame[i]@,
{
}

// ---------------------------------------------------------------------
// Containers, commands and messages
// ---------------------------------------------------------------------

/// What is seen of a container and of its stack.
pub proof fn what_containers_hold(c: ContainerInfo, stack: ComposeInfo)
    ensures
        c@.id == c.id@,
        c@.name == c.name@,
        c@.image == c.image@,
        c@.state == c.state@,
        c@.status == c.status@,
        c@.ports == c.ports@,
        c.compose is None ==> c@.compose is None,
        c.compose is Some ==> c@.compose == Some(c.compose->0@),
        stack@.project == stack.project@,
        stack@.service == stack.service@,
        stack@.working_dir == text::optional_text(stack.working_dir),
        stack@.config_files == text::texts(stack.config_files@),
{
}

/// What is seen of a command.
pub proof fn what_commands_hold(id: String, name: String, compose: ComposeInfo)
    ensures
        (DockerCommand::Start { id, name })@ == (CommandModel::Start { id: id@, name: name@ }),
        (DockerCommand::Stop { id, name })@ == (CommandModel::Stop { id: id@, name: name@ }),
        (DockerCommand::Restart { id, name })@ == (CommandModel::Restart { id: id@, name: name@ }),
        (DockerCommand::FetchStats { id })@ == (CommandModel::FetchStats { id: id@ }),
        (DockerCommand::StreamLogs { id })@ == (CommandModel::StreamLogs { id: id@ }),
        DockerCommand::StopLogs@ == CommandModel::StopLogs,
        (DockerCommand::ComposeUpdate { compose, name })@ == (CommandModel::ComposeUpdate {
            compose: compose@,
            name: name@,
        }),
{
}

/// What is seen of a message.
pub proof fn what_messages_hold(msg: Message)
    ensures
        match msg {
            Message::Key(key) => msg@ == MessageModel::Key(key),
            Message::ContainersUpdated(list) => msg@ == MessageModel::ContainersUpdated(
                container::containers_model(list@),
            ),
            Message::StatsUpdated(id, stats) => msg@ == MessageModel::StatsUpdated(id@, stats),
            Message::LogLine(id, line) => msg@ == MessageModel::LogLine(id@, line@),
            Message::UpdateLine(line) => msg@ == MessageModel::UpdateLine(line@),
            Message::UpdateFinished { success, detail } => msg@ == (MessageModel::UpdateFinished {
                success,
                detail: detail@,
            }),
            Message::Status(text) => msg@ == MessageModel::Status(text@),
            Message::DockerError(text) => msg@ == MessageModel::DockerError(text@),
        },
{
}

/// What is seen of a task and of an update.
pub proof fn what_tasks_hold(task: Task, run: UpdateRun)
    ensures
        match task {
            Task::RunAction { action, id, name } => task@ == (TaskModel::RunAction {
                action,
                id: id@,
                name: name@,
            }),
            Task::FetchStats { id } => task@ == (TaskModel::FetchStats { id: id@ }),
            Task::StreamLogs { id } => task@ == (TaskModel::StreamLogs { id: id@ }),
            Task::ComposeUpdate { compose, name } => task@ == (TaskModel::ComposeUpdate {
                compose: compose@,
                name: name@,
            }),
        },
        run@.compose == run.compose@,
        run@.name == run.name@,
        run@.stage == run.stage,
{
}

// ---------------------------------------------------------------------
// The application
// ---------------------------------------------------------------------

/// What is seen of the application.
pub proof fn what_the_application_holds(app: App, status: StatusMessage)
    ensures
        app@.containers == container::containers_model(app.containers@),
        app@.list_state == app.list_state,
        app@.view == app.view,
        app@.logs == text::texts(app.logs@),
        app@.stats == app.stats,
        app.status is None ==> app@.status is None,
        app.status is Some ==> app@.status == Some(app.status->0@),
        app@.status_at == app.status_at,
        app@.scroll_back == app.scroll_back,
        app@.update_output == text::texts(app.update_output@),
        app@.update_running == app.update_running,
        app@.update_target == text::optional_text(app.update_target),
        app@.should_quit == app.should_quit,
        status@.text == status.text@,
        status@.is_error == status.is_error,
{
}

/// How the application starts: with nothing to show, in the details.
pub proof fn how_the_application_starts(m: AppModel)
    requires
        m.is_initial(),
    ensures
        m.containers.len() == 0,
        m.list_state.selected is None,
        m.list_state.offset == 0,
        m.view == pane::View::Details,
        m.logs.len() == 0,
        m.stats is None,
        m.status is None,
        m.status_at is None,
        m.scroll_back == 0,
        m.update_output.len() == 0,
        !m.update_running,
        m.update_target is None,
        !m.should_quit,
{
}

// ---------------------------------------------------------------------
// Frames
// ---------------------------------------------------------------------

/// What is seen of a widget and of what it is made of.
pub proof fn what_widgets_hold(
    span: Span,
    row: Row,
    content: Content,
    placed: Placed,
    readings: Readings,
)
    ensures
        span@.text == span.text@,
        span@.style == span.style,
        match row {
            Row::Text(s) => row@ == RowModel::Text(s@),
            Row::Spans(list) => row@ == RowModel::Spans(paint::spans_model(list@)),
        },
        match content {
            Content::Text(s) => content@ == ContentModel::Text(s@),
            Content::Rows(rows) => content@ == ContentModel::Rows(paint::rows_model(rows@)),
        },
        placed@.area == placed.area,
        match placed.widget {
            Widget::Paragraph { content, style, align_right, frame } => placed@.widget == (
            WidgetModel::Paragraph {
                content: content@,
                style,
                align_right,
                frame: text::optional_text(frame),
            }),
            Widget::List { items, state, highlight, title } => placed@.widget == (
            WidgetModel::List {
                items: paint::rows_model(items@),
                state,
                highlight,
                title: title@,
            }),
        },
        readings@.cpu_percent == readings.cpu_percent@,
        readings@.mem_percent == readings.mem_percent@,
{
}

} // verus!
