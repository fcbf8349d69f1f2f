//! Laws of the reports: what every message but a key does to the whole state,
//! and what the event loop makes of every event.
use vstd::prelude::*;

use crate::app::ListState;
use crate::container::ContainerModel;
use crate::docker::CommandModel;
use crate::event_loop;
use crate::event_loop::LoopEvent;
use crate::input::KeyEvent;
use crate::key_laws;
use crate::laws;
use crate::message::{Message, MessageModel};
use crate::model;
use crate::model::{AppModel, Step, StatusModel};
use crate::pane;
use crate::stats::StatsInfo;

verus! {

// ---------------------------------------------------------------------
// Container lists
// ---------------------------------------------------------------------

/// The list has no container with this id.
pub open spec fn lacks(list: Seq<ContainerModel>, id: Seq<char>) -> bool {
    forall|k: int| 0 <= k < list.len() ==> (#[trigger] list[k]).id != id
}

/// A container list replaces the old one and touches neither the view nor
/// what is shown in it nor the update; a header message goes only once it has
/// been there for more than six seconds, or twelve if it is an error.
pub proof fn a_list_replaces_the_old_one(m: AppModel, list: Seq<ContainerModel>, now: u128)
    ensures
        ({
            let next = m.after(MessageModel::ContainersUpdated(list), now).app;
            let old = m.status is Some && m.status_at is Some && now - m.status_at->0 > (
            if m.status->0.is_error {
                12_000_000_000int
            } else {
                6_000_000_000int
            });
            &&& next.containers == list
            &&& next.view == m.view
            &&& next.logs == m.logs
            &&& next.stats == m.stats
            &&& next.scroll_back == m.scroll_back
            &&& next.update_output == m.update_output
            &&& next.update_running == m.update_running
            &&& next.update_target == m.update_target
            &&& next.should_quit == m.should_quit
            &&& next.clock == m.clock
            &&& old ==> next.status is None && next.status_at is None
            &&& !old ==> next.status == m.status && next.status_at == m.status_at
        }),
{
}

/// A container list keeps the selected container selected, at the first row
/// that has its id.
pub proof fn a_list_keeps_the_selected_container(
    m: AppModel,
    list: Seq<ContainerModel>,
    now: u128,
    i: usize,
    j: int,
)
    requires
        list.len() <= usize::MAX,
        m.list_state.selected == Some(i),
        i < m.containers.len(),
        0 <= j < list.len(),
        list[j].id == m.containers[i as int].id,
        lacks(list.take(j), m.containers[i as int].id),
    ensures
        m.after(MessageModel::ContainersUpdated(list), now).app.list_state == (ListState {
            selected: Some(j as usize),
            offset: m.list_state.offset,
        }),
{
    let id = m.containers[i as int].id;
    laws::position_is_first(list, id, 0);
    let found = model::position_of(list, id, 0)->0;
    if found < j {
        assert(list.take(j)[found] == list[found]);
    }
}

/// If the list has lost the selected container, or none was selected, the row
/// stays where it was as far as the list goes, and is the first one if there
/// was none; an empty list has nothing selected.
pub proof fn a_list_without_the_selected_container(
    m: AppModel,
    list: Seq<ContainerModel>,
    now: u128,
)
    requires
        list.len() <= usize::MAX,
        !key_laws::on_no_row(m) ==> lacks(
            list,
            m.containers[m.list_state.selected->0 as int].id,
        ),
    ensures
        ({
            let next = m.after(MessageModel::ContainersUpdated(list), now).app.list_state;
            let row = match m.list_state.selected {
                Some(i) => i as int,
                None => 0,
            };
            &&& list.len() == 0 ==> next == ListState { selected: None, offset: 0 }
            &&& list.len() > 0 ==> next.offset == m.list_state.offset
            &&& 0 <= row < list.len() ==> next.selected == Some(row as usize)
            &&& 0 < list.len() <= row ==> next.selected == Some((list.len() - 1) as usize)
        }),
{
    if !key_laws::on_no_row(m) {
        laws::position_is_first(list, m.containers[m.list_state.selected->0 as int].id, 0);
    }
}

/// A container list asks for the statistics of the container that is
/// selected then, if it is running and the details are shown, and for
/// nothing else.
pub proof fn a_list_asks_for_statistics(m: AppModel, list: Seq<ContainerModel>, now: u128)
    ensures
        ({
            let step = m.after(MessageModel::ContainersUpdated(list), now);
            let selected = step.app.list_state.selected;
            &&& m.view == pane::View::Details && selected is Some && selected->0 < list.len()
                ==> step.commands == key_laws::fetch(list[selected->0 as int])
            &&& m.view != pane::View::Details || selected is None || selected->0 >= list.len()
                ==> step.commands == Seq::<CommandModel>::empty()
        }),
{
}

// ---------------------------------------------------------------------
// Reports about the selected container
// ---------------------------------------------------------------------

/// Statistics are taken over exactly if they are those of the selected
/// container, and change nothing else.
pub proof fn statistics_are_taken_over(
    m: AppModel,
    id: Seq<char>,
    stats: StatsInfo,
    now: u128,
    i: usize,
)
    requires
        m.list_state.selected == Some(i),
        i < m.containers.len(),
    ensures
        m.after(MessageModel::StatsUpdated(id, stats), now) == (Step {
            app: if m.containers[i as int].id == id {
                AppModel { stats: Some(stats), ..m }
            } else {
                m
            },
            commands: Seq::empty(),
        }),
{
}

/// The lines once one more is there: it is the last one, and the newest two
/// thousand are kept.
pub open spec fn grown(before: Seq<Seq<char>>, line: Seq<char>, after: Seq<Seq<char>>) -> bool {
    &&& after.len() == (if before.len() < 2000 {
        before.len() + 1
    } else {
        2000
    })
    &&& after.last() == line
    &&& forall|k: int|
        0 <= k < after.len() - 1 ==> #[trigger] after[k] == before[k + before.len() + 1
            - after.len()]
}

/// A log line is added exactly if the logs are shown and it is one of the
/// selected container.
pub proof fn log_lines_are_added(
    m: AppModel,
    id: Seq<char>,
    line: Seq<char>,
    now: u128,
    i: usize,
)
    requires
        m.list_state.selected == Some(i),
        i < m.containers.len(),
    ensures
        ({
            let step = m.after(MessageModel::LogLine(id, line), now);
            &&& step.commands == Seq::<CommandModel>::empty()
            &&& step.app == AppModel { logs: step.app.logs, ..m }
            &&& m.view == pane::View::Logs && m.containers[i as int].id == id ==> grown(
                m.logs,
                line,
                step.app.logs,
            )
            &&& m.view != pane::View::Logs || m.containers[i as int].id != id ==> step.app.logs
                == m.logs
        }),
{
}

/// Without a selected container, statistics and log lines change nothing.
pub proof fn reports_without_a_selection_change_nothing(
    m: AppModel,
    id: Seq<char>,
    line: Seq<char>,
    stats: StatsInfo,
    now: u128,
)
    requires
        key_laws::on_no_row(m),
    ensures
        key_laws::does_nothing(m, m.after(MessageModel::StatsUpdated(id, stats), now)),
        key_laws::does_nothing(m, m.after(MessageModel::LogLine(id, line), now)),
{
}

// ---------------------------------------------------------------------
// Reports about updates and errors
// ---------------------------------------------------------------------

/// A line of update output is added, whatever is shown.
pub proof fn update_lines_are_added(m: AppModel, line: Seq<char>, now: u128)
    ensures
        ({
            let step = m.after(MessageModel::UpdateLine(line), now);
            &&& step.commands == Seq::<CommandModel>::empty()
            &&& step.app == AppModel { update_output: step.app.update_output, ..m }
            &&& grown(m.update_output, line, step.app.update_output)
        }),
{
}

/// A finished update is over, and how it ended is put into the header, as an
/// error if it failed.
pub proof fn finished_updates_are_over(m: AppModel, success: bool, detail: Seq<char>, now: u128)
    ensures
        m.after(MessageModel::UpdateFinished { success, detail }, now) == (Step {
            app: AppModel {
                update_running: false,
                status: Some(StatusModel { text: detail, is_error: !success }),
                status_at: Some(now),
                ..m
            },
            commands: Seq::empty(),
        }),
{
}

/// Information and errors are put into the header, and change nothing else.
pub proof fn reports_go_into_the_header(m: AppModel, text: Seq<char>, now: u128)
    ensures
        m.after(MessageModel::Status(text), now) == (Step {
            app: AppModel {
                status: Some(StatusModel { text, is_error: false }),
                status_at: Some(now),
                ..m
            },
            commands: Seq::empty(),
        }),
        m.after(MessageModel::DockerError(text), now) == (Step {
            app: AppModel {
                status: Some(StatusModel { text, is_error: true }),
                status_at: Some(now),
                ..m
            },
            commands: Seq::empty(),
        }),
{
}

// ---------------------------------------------------------------------
// The event loop
// ---------------------------------------------------------------------

/// A key counts when it is pressed, and not when it is repeated or released.
pub proof fn keys_count_when_pressed(m: AppModel, key: KeyEvent, now: u128)
    ensures
        m.after_event(LoopEvent::Key { key, pressed: true }, now) == m.after(
            MessageModel::Key(key),
            now,
        ),
        key_laws::does_nothing(
            m,
            m.after_event(LoopEvent::Key { key, pressed: false }, now),
        ),
        !event_loop::is_closing(LoopEvent::Key { key, pressed: true }),
        !event_loop::is_closing(LoopEvent::Key { key, pressed: false }),
{
}

/// Messages of the actor count as they are, an input error is put into the
/// header, and any other event changes nothing.
pub proof fn what_events_carry(m: AppModel, msg: Message, err: String, now: u128)
    ensures
        m.after_event(LoopEvent::Message(msg), now) == m.after(msg@, now),
        m.after_event(LoopEvent::InputError(err), now) == (Step {
            app: AppModel {
                status: Some(StatusModel { text: "Input error: "@ + err@, is_error: true }),
                status_at: Some(now),
                ..m
            },
            commands: Seq::empty(),
        }),
        key_laws::does_nothing(m, m.after_event(LoopEvent::OtherInput, now)),
        key_laws::does_nothing(m, m.after_event(LoopEvent::InputClosed, now)),
        key_laws::does_nothing(m, m.after_event(LoopEvent::MessagesClosed, now)),
{
}

/// The loop is closed by the end of the input and by the end of the
/// messages, and by nothing else.
pub proof fn what_closes_the_loop(msg: Message, err: String)
    ensures
        event_loop::is_closing(LoopEvent::InputClosed),
        event_loop::is_closing(LoopEvent::MessagesClosed),
        !event_loop::is_closing(LoopEvent::Message(msg)),
        !event_loop::is_closing(LoopEvent::InputError(err)),
        !event_loop::is_closing(LoopEvent::OtherInput),
{
}

} // verus!
