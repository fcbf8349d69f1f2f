//! Laws: what holds of the application as a whole, whatever happens to it.
use vstd::prelude::*;

use crate::container::ContainerModel;
use crate::docker::CommandModel;
use crate::input::{KeyCode, KeyEvent, KeyModifiers};
use crate::message::MessageModel;
use crate::model;
use crate::model::{
    AppModel, StatusModel, ERROR_STATUS_TTL, MAX_LOG_LINES, SCROLL_STEP, STATUS_TTL,
};
use crate::pane;
use crate::stats::StatsInfo;

verus! {

// ---------------------------------------------------------------------
// Invariants
// ---------------------------------------------------------------------

impl AppModel {
    /// A row is selected exactly when there is one, and it is a row of the
    /// list.
    pub open spec fn selection_is_sound(self) -> bool {
        match self.list_state.selected {
            Some(i) => i < self.containers.len(),
            None => self.containers.len() == 0,
        }
    }

    /// No more lines are retained than may be.
    pub open spec fn buffers_are_bounded(self) -> bool {
        &&& self.logs.len() <= MAX_LOG_LINES
        &&& self.update_output.len() <= MAX_LOG_LINES
    }

    /// The details are not scrolled.
    pub open spec fn details_follow(self) -> bool {
        self.view == pane::View::Details ==> self.scroll_back == 0
    }

    /// What holds of every state that the application can get into.
    pub open spec fn is_sound(self) -> bool {
        &&& self.selection_is_sound()
        &&& self.buffers_are_bounded()
        &&& self.details_follow()
    }

    /// The state after a series of timed messages.
    pub open spec fn after_all(self, msgs: Seq<(MessageModel, u128)>) -> AppModel
        decreases msgs.len(),
    {
        if msgs.len() == 0 {
            self
        } else {
            self.after_all(msgs.drop_last()).after(msgs.last().0, msgs.last().1).app
        }
    }
}

/// The first position with an id is a position in the list, it has that id,
/// and none before it has; and if there is none, no container has the id.
pub proof fn position_is_first(list: Seq<ContainerModel>, id: Seq<char>, from: int)
    requires
        0 <= from <= list.len(),
    ensures
        match model::position_of(list, id, from) {
            Some(i) => from <= i < list.len() && list[i].id == id && forall|j: int|
                from <= j < i ==> (#[trigger] list[j]).id != id,
            None => forall|j: int| from <= j < list.len() ==> (#[trigger] list[j]).id != id,
        },
    decreases list.len() - from,
{
    if from < list.len() && list[from].id != id {
        position_is_first(list, id, from + 1);
    }
}

/// A container list that arrives selects a row exactly when it has one,
/// whatever was selected before.
pub proof fn refresh_makes_selection_sound(m: AppModel, list: Seq<ContainerModel>, now: u128)
    requires
        list.len() <= usize::MAX,
    ensures
        m.refreshed(list, now).app.selection_is_sound(),
{
    match m.current() {
        Some(c) => position_is_first(list, c.id, 0),
        None => {},
    }
}

/// The newest lines are the end of the lines, and all of them where they may
/// all be retained.
pub proof fn newest_is_the_end(lines: Seq<Seq<char>>)
    ensures
        model::newest(lines).len() == (if lines.len() > MAX_LOG_LINES {
            MAX_LOG_LINES as nat
        } else {
            lines.len()
        }),
        model::newest(lines) == lines.skip(lines.len() - model::newest(lines).len()),
{
    if lines.len() <= MAX_LOG_LINES {
        assert(lines.skip(0) =~= lines);
    }
}

/// Every message keeps a sound selection sound, bounded buffers bounded and
/// the details unscrolled.
pub proof fn soundness_is_kept(m: AppModel, msg: MessageModel, now: u128)
    requires
        m.is_sound(),
        m.containers.len() <= usize::MAX,
        msg matches MessageModel::ContainersUpdated(list) ==> list.len() <= usize::MAX,
    ensures
        m.after(msg, now).app.is_sound(),
{
    match msg {
        MessageModel::ContainersUpdated(list) => refresh_makes_selection_sound(m, list, now),
        MessageModel::LogLine(id, line) => newest_is_the_end(m.logs.push(line)),
        MessageModel::UpdateLine(line) => newest_is_the_end(m.update_output.push(line)),
        _ => {},
    }
}

/// From the start on, whatever messages arrive, at whatever times, the
/// selection is sound, the buffers are bounded and the details are not
/// scrolled.
pub proof fn reachable_states_are_sound(m: AppModel, msgs: Seq<(MessageModel, u128)>)
    requires
        m.is_initial(),
        forall|i: int|
            0 <= i < msgs.len() ==> ((#[trigger] msgs[i]).0 matches MessageModel::ContainersUpdated(
                list,
            ) ==> list.len() <= usize::MAX),
    ensures
        m.after_all(msgs).is_sound(),
        m.after_all(msgs).containers.len() <= usize::MAX,
    decreases msgs.len(),
{
    if msgs.len() > 0 {
        reachable_states_are_sound(m, msgs.drop_last());
        let before = m.after_all(msgs.drop_last());
        let (msg, now) = msgs.last();
        assert(msgs[msgs.len() - 1] == msgs.last());
        soundness_is_kept(before, msg, now);
    }
}

// ---------------------------------------------------------------------
// Selection
// ---------------------------------------------------------------------

/// A refresh keeps the same container selected as long as the list still has
/// it.
pub proof fn refresh_keeps_the_selected_container(
    m: AppModel,
    list: Seq<ContainerModel>,
    now: u128,
)
    requires
        list.len() <= usize::MAX,
        m.current() is Some,
        exists|i: int| 0 <= i < list.len() && (#[trigger] list[i]).id == m.current()->0.id,
    ensures
        m.refreshed(list, now).app.current() is Some,
        m.refreshed(list, now).app.current()->0.id == m.current()->0.id,
{
    position_is_first(list, m.current()->0.id, 0);
}

/// If the list has lost the selected container, the row stays where it was,
/// or becomes the last one.
pub proof fn refresh_clamps_a_lost_selection(
    m: AppModel,
    list: Seq<ContainerModel>,
    now: u128,
    row: usize,
)
    requires
        0 < list.len() <= usize::MAX,
        m.list_state.selected == Some(row),
        m.current() is Some ==> forall|i: int|
            0 <= i < list.len() ==> (#[trigger] list[i]).id != m.current()->0.id,
    ensures
        m.refreshed(list, now).app.list_state.selected == Some(
            (if row < list.len() {
                row as int
            } else {
                list.len() - 1
            }) as usize,
        ),
{
    match m.current() {
        Some(c) => position_is_first(list, c.id, 0),
        None => {},
    }
}

/// No two containers of a list have the same id.
pub open spec fn ids_are_distinct(list: Seq<ContainerModel>) -> bool {
    forall|i: int, j: int|
        0 <= i < j < list.len() ==> (#[trigger] list[i]).id != (#[trigger] list[j]).id
}

/// The same list again leaves the selection where it is.
pub proof fn refreshing_again_keeps_the_row(
    m: AppModel,
    list: Seq<ContainerModel>,
    now: u128,
    later: u128,
)
    requires
        list.len() <= usize::MAX,
        ids_are_distinct(list),
    ensures
        m.refreshed(list, now).app.refreshed(list, later).app.list_state == m.refreshed(
            list,
            now,
        ).app.list_state,
{
    refresh_makes_selection_sound(m, list, now);
    match m.refreshed(list, now).app.current() {
        Some(c) => position_is_first(list, c.id, 0),
        None => {},
    }
}

/// Moving down and up again comes back to the same row, except from the last
/// one.
pub proof fn down_then_up_comes_back(m: AppModel, row: usize)
    requires
        m.list_state.selected == Some(row),
        row + 1 < m.containers.len() <= isize::MAX,
    ensures
        m.moved(1).app.list_state.selected == Some((row + 1) as usize),
        m.moved(1).app.moved(-1).app.list_state == m.list_state,
{
}

/// The selection does not leave the list at either end.
pub proof fn moves_stop_at_the_ends(m: AppModel, row: usize)
    requires
        m.list_state.selected == Some(row),
        row < m.containers.len() <= isize::MAX,
    ensures
        row == 0 ==> m.moved(-1) == m.quietly(),
        row == m.containers.len() - 1 ==> m.moved(1) == m.quietly(),
{
}

// ---------------------------------------------------------------------
// Commands
// ---------------------------------------------------------------------

impl AppModel {
    /// A command is about the selected container.
    pub open spec fn concerns_selection(self, command: CommandModel) -> bool {
        match (command, self.current()) {
            (CommandModel::StopLogs, _) => true,
            (CommandModel::Start { id, name }, Some(c)) => id == c.id && name == c.name
                && !c.running(),
            (CommandModel::Stop { id, name }, Some(c)) => id == c.id && name == c.name
                && c.running(),
            (CommandModel::Restart { id, name }, Some(c)) => id == c.id && name == c.name,
            (CommandModel::FetchStats { id }, Some(c)) => id == c.id && c.running() && self.view
                == pane::View::Details,
            (CommandModel::StreamLogs { id }, Some(c)) => id == c.id && self.view
                == pane::View::Logs,
            (CommandModel::ComposeUpdate { compose, name }, Some(c)) => c.compose == Some(compose)
                && name == c.name,
            (_, None) => false,
        }
    }
}

/// Every command is about the container that is selected once the message is
/// dealt with: only a running one is stopped, only another one is started,
/// statistics are asked for only where they are visible, and logs only where
/// they are.
pub proof fn commands_concern_the_selection(m: AppModel, msg: MessageModel, now: u128, i: int)
    requires
        0 <= i < m.after(msg, now).commands.len(),
        m.containers.len() <= usize::MAX,
    ensures
        m.after(msg, now).app.concerns_selection(m.after(msg, now).commands[i]),
{
}

/// There is one update at a time: an update is started only while none is
/// running, and from then on one is.
pub proof fn one_update_at_a_time(
    m: AppModel,
    msg: MessageModel,
    now: u128,
    i: int,
)
    requires
        0 <= i < m.after(msg, now).commands.len(),
        m.after(msg, now).commands[i] is ComposeUpdate,
    ensures
        !m.update_running,
        m.after(msg, now).app.update_running,
        m.after(msg, now).app.view == pane::View::Update,
        m.after(msg, now).commands.len() == 1,
{
}

/// An update keeps running until it is reported as finished, and no longer;
/// how it ended is then shown in the header.
pub proof fn updates_run_until_finished(m: AppModel, msg: MessageModel, now: u128)
    requires
        m.update_running,
    ensures
        m.after(msg, now).app.update_running == !(msg is UpdateFinished),
        msg matches MessageModel::UpdateFinished { success, detail } ==> m.after(
            msg,
            now,
        ).app.status == Some(StatusModel { text: detail, is_error: !success }),
{
}

/// While an update is running, its output only grows at the end (the oldest
/// lines give way), and no message but an output line changes it, in whatever
/// view the user is.
pub proof fn update_output_is_kept(m: AppModel, msg: MessageModel, now: u128)
    requires
        m.update_running,
    ensures
        m.after(msg, now).app.update_output == (match msg {
            MessageModel::UpdateLine(line) => model::newest(m.update_output.push(line)),
            _ => m.update_output,
        }),
        m.after(msg, now).app.update_target == m.update_target,
{
}

// ---------------------------------------------------------------------
// Quitting
// ---------------------------------------------------------------------

/// The application is to quit once q or Ctrl+C is pressed, and not before.
pub proof fn quitting_takes_a_quit_key(m: AppModel, msg: MessageModel, now: u128)
    ensures
        m.after(msg, now).app.should_quit == (m.should_quit || (msg matches MessageModel::Key(key)
            && (key.code == KeyCode::Char('q') || (key.code == KeyCode::Char('c')
            && key.with_control())))),
{
}

/// The keys that the application reacts to.
pub open spec fn is_bound(key: KeyEvent) -> bool {
    match key.code {
        KeyCode::Char(c) => c == 'q' || c == 'k' || c == 'j' || c == 's' || c == 'r' || c == 'u'
            || (c == 'c' && key.with_control()),
        KeyCode::Other => false,
        _ => true,
    }
}

/// A key without a binding changes nothing.
pub proof fn unbound_keys_do_nothing(m: AppModel, key: KeyEvent, now: u128)
    requires
        !is_bound(key),
    ensures
        m.after(MessageModel::Key(key), now) == m.quietly(),
{
}

// ---------------------------------------------------------------------
// Views
// ---------------------------------------------------------------------

/// Without a selected container, Enter, s, r and u do nothing.
pub proof fn actions_need_a_selection(m: AppModel, now: u128)
    requires
        m.current() is None,
    ensures
        m.view_toggled(now) == m.quietly(),
        m.start_stop_toggled(now) == m.quietly(),
        m.restarting(now) == m.quietly(),
        m.updating(now) == m.quietly(),
{
}

/// Enter twice goes from the details to the logs and back: the log stream of
/// the selected container is started and stopped, and the selection stays.
pub proof fn enter_twice_comes_back(m: AppModel, now: u128, later: u128)
    requires
        m.current() is Some,
        m.view == pane::View::Details,
    ensures
        m.view_toggled(now).app.view == pane::View::Logs,
        m.view_toggled(now).commands == seq![
            CommandModel::StreamLogs { id: m.current()->0.id },
        ],
        m.view_toggled(now).app.view_toggled(later).app.view == pane::View::Details,
        m.view_toggled(now).app.view_toggled(later).app.list_state == m.list_state,
        m.view_toggled(now).app.view_toggled(later).app.containers == m.containers,
        m.view_toggled(now).app.view_toggled(later).commands[0] == CommandModel::StopLogs,
{
}

/// Esc leads to the details from every view, in follow mode unless it was
/// the details already, and leaves an update alone.
pub proof fn escape_leads_to_the_details(m: AppModel)
    ensures
        m.escaped().app.view == pane::View::Details,
        m.view != pane::View::Details ==> m.escaped().app.scroll_back == 0,
        m.escaped().app.update_running == m.update_running,
        m.escaped().app.update_output == m.update_output,
        m.escaped().app.update_target == m.update_target,
        m.escaped().app.list_state == m.list_state,
{
}

/// A key that leads from the logs to the details stops the log stream.
pub proof fn leaving_the_logs_stops_the_stream(m: AppModel, key: KeyEvent, now: u128)
    requires
        m.view == pane::View::Logs,
        m.after(MessageModel::Key(key), now).app.view == pane::View::Details,
    ensures
        m.after(MessageModel::Key(key), now).commands.len() > 0,
        m.after(MessageModel::Key(key), now).commands[0] == CommandModel::StopLogs,
{
}

/// Log lines and statistics of a container that is not selected are ignored,
/// and so are log lines outside the log view.
pub proof fn stale_reports_are_ignored(
    m: AppModel,
    id: Seq<char>,
    line: Seq<char>,
    stats: StatsInfo,
    now: u128,
)
    ensures
        !m.selects(id) ==> m.after(MessageModel::StatsUpdated(id, stats), now) == m.quietly(),
        !m.selects(id) || m.view != pane::View::Logs ==> m.after(
            MessageModel::LogLine(id, line),
            now,
        ) == m.quietly(),
{
}

// ---------------------------------------------------------------------
// Scrolling
// ---------------------------------------------------------------------

/// Scrolling moves the offset by as many lines as asked for, between the
/// newest line and the largest offset there is, and changes nothing else; the
/// details do not scroll back.
pub proof fn scrolling_moves_by_the_lines_asked_for(m: AppModel, lines: usize)
    ensures
        m.view == pane::View::Details ==> m.scrolled_up(lines as int) == m,
        m.view != pane::View::Details && m.scroll_back + lines <= usize::MAX ==> m.scrolled_up(
            lines as int,
        ) == (AppModel { scroll_back: (m.scroll_back + lines) as usize, ..m }),
        m.view != pane::View::Details && m.scroll_back + lines > usize::MAX ==> m.scrolled_up(
            lines as int,
        ) == (AppModel { scroll_back: usize::MAX, ..m }),
        m.scroll_back >= lines ==> m.scrolled_down(lines as int) == (AppModel {
            scroll_back: (m.scroll_back - lines) as usize,
            ..m
        }),
        m.scroll_back < lines ==> m.scrolled_down(lines as int) == (AppModel {
            scroll_back: 0,
            ..m
        }),
{
}

/// The selected container is the one in the selected row, if the list has
/// that row, and it alone is selected.
pub proof fn which_container_is_selected(m: AppModel, id: Seq<char>)
    ensures
        m.list_state.selected is None ==> m.current() is None && !m.selects(id),
        m.list_state.selected matches Some(i) ==> {
            &&& i < m.containers.len() ==> m.current() == Some(m.containers[i as int])
            &&& i >= m.containers.len() ==> m.current() is None
            &&& m.selects(id) <==> i < m.containers.len() && m.containers[i as int].id == id
        },
{
}

/// A header message is dropped once it is more than six seconds old, or
/// twelve if it is an error, and nothing else goes with it.
pub proof fn when_header_messages_go(m: AppModel, now: u128)
    ensures
        ({
            let old = m.status is Some && m.status_at is Some && now - m.status_at->0 > (
            if m.status->0.is_error {
                12_000_000_000int
            } else {
                6_000_000_000int
            });
            &&& old ==> m.tidied(now) == AppModel { status: None, status_at: None, ..m }
            &&& !old ==> m.tidied(now) == m
        }),
{
}

/// Scrolling back and forward again by the same number of lines comes back to
/// the same lines, and changes nothing else.
pub proof fn scrolling_back_and_forward_comes_back(m: AppModel, lines: int)
    requires
        m.view != pane::View::Details,
        0 <= lines,
        m.scroll_back + lines <= usize::MAX,
    ensures
        m.scrolled_up(lines).scrolled_down(lines) == m,
{
}

/// Scrolling forward goes no further than to the newest lines.
pub proof fn scrolling_forward_stops_at_the_newest_lines(m: AppModel, lines: int)
    requires
        m.scroll_back <= lines,
    ensures
        m.scrolled_down(lines) == (AppModel { scroll_back: 0, ..m }),
{
}

/// PgUp and PgDn again come back to the same lines.
pub proof fn page_up_then_down_comes_back(
    m: AppModel,
    modifiers: KeyModifiers,
    now: u128,
    later: u128,
)
    requires
        m.view != pane::View::Details,
        m.scroll_back + SCROLL_STEP <= usize::MAX,
    ensures
        m.after(MessageModel::Key(KeyEvent { code: KeyCode::PageUp, modifiers }), now).app.after(
            MessageModel::Key(KeyEvent { code: KeyCode::PageDown, modifiers }),
            later,
        ) == m.quietly(),
{
    scrolling_back_and_forward_comes_back(m, SCROLL_STEP as int);
}

/// End returns to follow mode in every view.
pub proof fn end_follows(m: AppModel, modifiers: KeyModifiers, now: u128)
    ensures
        m.after(MessageModel::Key(KeyEvent { code: KeyCode::End, modifiers }), now)
            == (AppModel { scroll_back: 0, ..m }).quietly(),
{
}

// ---------------------------------------------------------------------
// Status
// ---------------------------------------------------------------------

/// A message in the header is dropped by the first refresh that comes more
/// than its lifetime after it was set, and by none before: six seconds for
/// information, twelve for an error.
pub proof fn status_lives_for_its_time(
    m: AppModel,
    text: Seq<char>,
    is_error: bool,
    set: u128,
    list: Seq<ContainerModel>,
    polled: u128,
)
    ensures
        m.announcing(text, is_error, set).refreshed(list, polled).app.status == (if polled - set > (
        if is_error {
            ERROR_STATUS_TTL
        } else {
            STATUS_TTL
        }) {
            None
        } else {
            Some(StatusModel { text, is_error })
        }),
        STATUS_TTL == 6 * 1_000_000_000,
        ERROR_STATUS_TTL == 12 * 1_000_000_000,
{
}

} // verus!
