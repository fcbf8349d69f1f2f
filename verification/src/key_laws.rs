//! Laws of the keys: what every key does to the whole state, and which
//! commands it gives rise to.
use vstd::prelude::*;

use crate::actor;
use crate::actor::{TaskModel, UpdateModel, UpdateStage};
use crate::app::ListState;
use crate::container::ContainerModel;
use crate::docker::CommandModel;
use crate::docker_laws;
use crate::input::{KeyCode, KeyEvent, KeyModifiers};
use crate::message::MessageModel;
use crate::model::{AppModel, Step, StatusModel};
use crate::pane;

verus! {

/// What the press of a key results in.
pub open spec fn press(m: AppModel, code: KeyCode, modifiers: KeyModifiers, now: u128) -> Step {
    m.after(MessageModel::Key(KeyEvent { code, modifiers }), now)
}

/// Row `i` of the list is selected.
pub open spec fn on_row(m: AppModel, i: usize) -> bool {
    m.list_state.selected == Some(i) && i < m.containers.len() && m.containers.len() <= isize::MAX
}

/// No container is selected.
pub open spec fn on_no_row(m: AppModel) -> bool {
    m.list_state.selected is None || m.list_state.selected->0 >= m.containers.len()
}

/// The request for the statistics of a container: made if it is running.
pub open spec fn fetch(c: ContainerModel) -> Seq<CommandModel> {
    if c.state == "running"@ {
        seq![CommandModel::FetchStats { id: c.id }]
    } else {
        Seq::empty()
    }
}

// ---------------------------------------------------------------------
// Navigation
// ---------------------------------------------------------------------

/// The step selects another row and drops the statistics of the old one. In
/// the details it asks for new ones; in the logs it starts over with the logs
/// of the new row; nothing else changes.
pub open spec fn selects_row(m: AppModel, step: Step, row: int) -> bool {
    let moved = AppModel {
        list_state: ListState { selected: Some(row as usize), offset: m.list_state.offset },
        stats: None,
        ..m
    };
    match m.view {
        pane::View::Details => {
            &&& step.app == moved
            &&& step.commands == fetch(m.containers[row])
        },
        pane::View::Logs => {
            &&& step.app == AppModel { logs: Seq::empty(), scroll_back: 0, ..moved }
            &&& step.commands == seq![CommandModel::StreamLogs { id: m.containers[row].id }]
        },
        pane::View::Update => {
            &&& step.app == moved
            &&& step.commands == Seq::<CommandModel>::empty()
        },
    }
}

/// The step changes nothing and sends nothing.
pub open spec fn does_nothing(m: AppModel, step: Step) -> bool {
    step.app == m && step.commands == Seq::<CommandModel>::empty()
}

/// Up and k select the row above; on the first row they do nothing.
pub proof fn up_goes_to_the_row_above(
    m: AppModel,
    code: KeyCode,
    modifiers: KeyModifiers,
    now: u128,
    i: usize,
)
    requires
        code == KeyCode::Up || code == KeyCode::Char('k'),
        on_row(m, i),
    ensures
        i > 0 ==> selects_row(m, press(m, code, modifiers, now), i - 1),
        i > 0 ==> press(m, code, modifiers, now).app.list_state.selected == Some((i - 1) as usize),
        i == 0 ==> does_nothing(m, press(m, code, modifiers, now)),
{
}

/// Down and j select the row below; on the last row they do nothing.
pub proof fn down_goes_to_the_row_below(
    m: AppModel,
    code: KeyCode,
    modifiers: KeyModifiers,
    now: u128,
    i: usize,
)
    requires
        code == KeyCode::Down || code == KeyCode::Char('j'),
        on_row(m, i),
    ensures
        i + 1 < m.containers.len() ==> selects_row(m, press(m, code, modifiers, now), i + 1),
        i + 1 < m.containers.len() ==> press(m, code, modifiers, now).app.list_state.selected
            == Some((i + 1) as usize),
        i + 1 == m.containers.len() ==> does_nothing(m, press(m, code, modifiers, now)),
{
}

/// Up after Down comes back to the same row, and Down after Up.
pub proof fn up_and_down_undo_each_other(
    m: AppModel,
    up: KeyCode,
    down: KeyCode,
    modifiers: KeyModifiers,
    now: u128,
    later: u128,
    i: usize,
)
    requires
        up == KeyCode::Up || up == KeyCode::Char('k'),
        down == KeyCode::Down || down == KeyCode::Char('j'),
        on_row(m, i),
    ensures
        i + 1 < m.containers.len() ==> press(
            press(m, down, modifiers, now).app,
            up,
            modifiers,
            later,
        ).app.list_state == m.list_state,
        i > 0 ==> press(press(m, up, modifiers, now).app, down, modifiers, later).app.list_state
            == m.list_state,
{
}

/// Without a selected row a move starts from the first one, from a row behind
/// the list it leads back into the list, and in an empty list there is
/// nowhere to go.
pub proof fn moves_from_outside_the_list(
    m: AppModel,
    up: KeyCode,
    down: KeyCode,
    modifiers: KeyModifiers,
    now: u128,
)
    requires
        up == KeyCode::Up || up == KeyCode::Char('k'),
        down == KeyCode::Down || down == KeyCode::Char('j'),
        m.containers.len() <= isize::MAX,
    ensures
        m.containers.len() == 0 ==> does_nothing(m, press(m, up, modifiers, now)) && does_nothing(
            m,
            press(m, down, modifiers, now),
        ),
        m.containers.len() > 0 && m.list_state.selected is None ==> selects_row(
            m,
            press(m, up, modifiers, now),
            0,
        ) && selects_row(
            m,
            press(m, down, modifiers, now),
            if m.containers.len() == 1 {
                0
            } else {
                1
            },
        ),
        m.containers.len() > 0 && m.list_state.selected is Some && m.containers.len()
            <= m.list_state.selected->0 < isize::MAX ==> selects_row(
            m,
            press(m, up, modifiers, now),
            m.containers.len() - 1,
        ) && selects_row(m, press(m, down, modifiers, now), m.containers.len() - 1),
{
}

// ---------------------------------------------------------------------
// Views
// ---------------------------------------------------------------------

/// Enter opens the logs of the selected container from the details and from
/// the update output: the logs start over, in follow mode, and are streamed.
pub proof fn enter_opens_the_logs(m: AppModel, modifiers: KeyModifiers, now: u128, i: usize)
    requires
        on_row(m, i),
        m.view != pane::View::Logs,
    ensures
        press(m, KeyCode::Enter, modifiers, now).app == (AppModel {
            view: pane::View::Logs,
            logs: Seq::empty(),
            scroll_back: 0,
            status: Some(
                StatusModel {
                    text: "Streaming logs for "@ + m.containers[i as int].name,
                    is_error: false,
                },
            ),
            status_at: Some(now),
            ..m
        }),
        press(m, KeyCode::Enter, modifiers, now).commands == seq![
            CommandModel::StreamLogs { id: m.containers[i as int].id },
        ],
{
}

/// Enter and Esc lead from the logs to the details: the stream is stopped,
/// the header message and the old statistics are dropped, and new statistics
/// are asked for.
pub proof fn enter_and_esc_leave_the_logs(
    m: AppModel,
    code: KeyCode,
    modifiers: KeyModifiers,
    now: u128,
    i: usize,
)
    requires
        code == KeyCode::Enter || code == KeyCode::Esc,
        on_row(m, i),
        m.view == pane::View::Logs,
    ensures
        press(m, code, modifiers, now).app == (AppModel {
            view: pane::View::Details,
            stats: None,
            status: None,
            scroll_back: 0,
            ..m
        }),
        press(m, code, modifiers, now).commands == seq![CommandModel::StopLogs] + fetch(
            m.containers[i as int],
        ),
{
}

/// Esc leads from the update output to the details, and does nothing in the
/// details.
pub proof fn esc_leaves_the_update_output(m: AppModel, modifiers: KeyModifiers, now: u128, i: usize)
    requires
        on_row(m, i),
    ensures
        m.view == pane::View::Update ==> press(m, KeyCode::Esc, modifiers, now).app == (AppModel {
            view: pane::View::Details,
            scroll_back: 0,
            ..m
        }),
        m.view == pane::View::Update ==> press(m, KeyCode::Esc, modifiers, now).commands == fetch(
            m.containers[i as int],
        ),
        m.view == pane::View::Details ==> does_nothing(m, press(m, KeyCode::Esc, modifiers, now)),
{
}

/// Esc works without a selected container too; there are no statistics to
/// ask for then.
pub proof fn esc_needs_no_selection(m: AppModel, modifiers: KeyModifiers, now: u128)
    requires
        on_no_row(m),
    ensures
        m.view == pane::View::Details ==> does_nothing(m, press(m, KeyCode::Esc, modifiers, now)),
        m.view == pane::View::Logs ==> press(m, KeyCode::Esc, modifiers, now).app == (AppModel {
            view: pane::View::Details,
            stats: None,
            status: None,
            scroll_back: 0,
            ..m
        }) && press(m, KeyCode::Esc, modifiers, now).commands == seq![CommandModel::StopLogs],
        m.view == pane::View::Update ==> press(m, KeyCode::Esc, modifiers, now).app == (AppModel {
            view: pane::View::Details,
            scroll_back: 0,
            ..m
        }) && press(m, KeyCode::Esc, modifiers, now).commands == Seq::<CommandModel>::empty(),
{
    assert(seq![CommandModel::StopLogs] + Seq::<CommandModel>::empty() =~= seq![
        CommandModel::StopLogs,
    ]);
}

// ---------------------------------------------------------------------
// Actions
// ---------------------------------------------------------------------

/// The step puts a message into the header, sends one command, and changes
/// nothing else.
pub open spec fn announces_and_sends(
    m: AppModel,
    step: Step,
    text: Seq<char>,
    now: u128,
    command: CommandModel,
) -> bool {
    &&& step.app == AppModel {
        status: Some(StatusModel { text, is_error: false }),
        status_at: Some(now),
        ..m
    }
    &&& step.commands == seq![command]
}

/// s stops the selected container if it is running, and starts it if it is
/// in any other state.
pub proof fn s_stops_what_runs_and_starts_what_does_not(
    m: AppModel,
    modifiers: KeyModifiers,
    now: u128,
    i: usize,
)
    requires
        on_row(m, i),
    ensures
        m.containers[i as int].state == "running"@ ==> announces_and_sends(
            m,
            press(m, KeyCode::Char('s'), modifiers, now),
            "Stopping "@ + m.containers[i as int].name + "..."@,
            now,
            CommandModel::Stop {
                id: m.containers[i as int].id,
                name: m.containers[i as int].name,
            },
        ),
        m.containers[i as int].state != "running"@ ==> announces_and_sends(
            m,
            press(m, KeyCode::Char('s'), modifiers, now),
            "Starting "@ + m.containers[i as int].name + "..."@,
            now,
            CommandModel::Start {
                id: m.containers[i as int].id,
                name: m.containers[i as int].name,
            },
        ),
{
}

/// r restarts the selected container, in whatever state it is.
pub proof fn r_restarts(m: AppModel, modifiers: KeyModifiers, now: u128, i: usize)
    requires
        on_row(m, i),
    ensures
        announces_and_sends(
            m,
            press(m, KeyCode::Char('r'), modifiers, now),
            "Restarting "@ + m.containers[i as int].name + "..."@,
            now,
            CommandModel::Restart {
                id: m.containers[i as int].id,
                name: m.containers[i as int].name,
            },
        ),
{
}

/// u starts the update of the selected container's service, with the
/// metadata of that very container, and shows its output from the start.
pub proof fn u_updates_the_service(m: AppModel, modifiers: KeyModifiers, now: u128, i: usize)
    requires
        on_row(m, i),
        !m.update_running,
        m.containers[i as int].compose is Some,
    ensures
        press(m, KeyCode::Char('u'), modifiers, now).app == (AppModel {
            update_output: Seq::empty(),
            update_target: Some(
                m.containers[i as int].compose->0.project + "/"@
                    + m.containers[i as int].compose->0.service,
            ),
            update_running: true,
            view: pane::View::Update,
            scroll_back: 0,
            status: Some(
                StatusModel {
                    text: "Compose Update triggered for "@ + m.containers[i as int].name,
                    is_error: false,
                },
            ),
            status_at: Some(now),
            ..m
        }),
        press(m, KeyCode::Char('u'), modifiers, now).commands == seq![
            CommandModel::ComposeUpdate {
                compose: m.containers[i as int].compose->0,
                name: m.containers[i as int].name,
            },
        ],
{
}

/// u shows the output of an update that is running already, and is refused
/// for a container without Compose metadata.
pub proof fn u_without_an_update_to_start(
    m: AppModel,
    modifiers: KeyModifiers,
    now: u128,
    i: usize,
)
    requires
        on_row(m, i),
    ensures
        press(m, KeyCode::Char('u'), modifiers, now).commands.len() == 0 <==> m.update_running
            || m.containers[i as int].compose is None,
        m.update_running ==> press(m, KeyCode::Char('u'), modifiers, now).app == (AppModel {
            view: pane::View::Update,
            status: Some(
                StatusModel { text: "An update is already in progress"@, is_error: false },
            ),
            status_at: Some(now),
            ..m
        }),
        !m.update_running && m.containers[i as int].compose is None ==> press(
            m,
            KeyCode::Char('u'),
            modifiers,
            now,
        ).app == (AppModel {
            status: Some(
                StatusModel {
                    text: m.containers[i as int].name
                        + " is not managed by Compose: update unavailable"@,
                    is_error: true,
                },
            ),
            status_at: Some(now),
            ..m
        }),
{
}

/// Without a selected container, Enter, s, r and u do nothing.
pub proof fn actions_without_a_row_do_nothing(
    m: AppModel,
    code: KeyCode,
    modifiers: KeyModifiers,
    now: u128,
)
    requires
        on_no_row(m),
        code == KeyCode::Enter || code == KeyCode::Char('s') || code == KeyCode::Char('r') || code
            == KeyCode::Char('u'),
    ensures
        does_nothing(m, press(m, code, modifiers, now)),
{
}

// ---------------------------------------------------------------------
// The way of an update
// ---------------------------------------------------------------------

/// The update that u starts runs on the project and on all configuration
/// files of the selected container, in both of its steps: it pulls the
/// service's image, and then recreates the service.
pub proof fn u_runs_on_the_containers_own_stack(
    m: AppModel,
    modifiers: KeyModifiers,
    now: u128,
    i: usize,
)
    requires
        on_row(m, i),
        !m.update_running,
        m.containers[i as int].compose is Some,
    ensures
        ({
            let c = m.containers[i as int];
            let stack = c.compose->0;
            let commands = press(m, KeyCode::Char('u'), modifiers, now).commands;
            &&& commands.len() == 1
            &&& actor::task_of(commands[0]) matches Some(
                TaskModel::ComposeUpdate { compose, name },
            ) && {
                let pull = UpdateModel { compose, name, stage: UpdateStage::Pull };
                let recreate = UpdateModel { stage: UpdateStage::Recreate, ..pull };
                &&& compose == stack
                &&& name == c.name
                &&& pull.args() is Some
                &&& docker_laws::calls(
                    pull.args()->0,
                    stack.project,
                    stack.config_files,
                    seq!["pull"@, stack.service],
                )
                &&& recreate.args() is Some
                &&& docker_laws::calls(
                    recreate.args()->0,
                    stack.project,
                    stack.config_files,
                    seq!["up"@, "-d"@, "--build"@, "--no-deps"@, stack.service],
                )
            }
        }),
{
    let stack = m.containers[i as int].compose->0;
    let commands = press(m, KeyCode::Char('u'), modifiers, now).commands;
    u_updates_the_service(m, modifiers, now, i);
    assert(commands[0] == CommandModel::ComposeUpdate {
        compose: stack,
        name: m.containers[i as int].name,
    });
    docker_laws::compose_calls_read(stack, seq!["pull"@, stack.service]);
    docker_laws::compose_calls_read(
        stack,
        seq!["up"@, "-d"@, "--build"@, "--no-deps"@, stack.service],
    );
}

// ---------------------------------------------------------------------
// Scrolling and quitting
// ---------------------------------------------------------------------

/// The step sets the scroll offset and changes nothing else.
pub open spec fn scrolls_to(m: AppModel, step: Step, back: int) -> bool {
    &&& step.app == AppModel { scroll_back: back as usize, ..m }
    &&& step.commands == Seq::<CommandModel>::empty()
}

/// PgUp scrolls back ten lines in the logs and the update output, as far as
/// can be counted; the details stay as they are.
pub proof fn page_up_scrolls_back_ten_lines(m: AppModel, modifiers: KeyModifiers, now: u128)
    ensures
        m.view == pane::View::Details ==> does_nothing(
            m,
            press(m, KeyCode::PageUp, modifiers, now),
        ),
        m.view != pane::View::Details ==> scrolls_to(
            m,
            press(m, KeyCode::PageUp, modifiers, now),
            if m.scroll_back + 10 > usize::MAX {
                usize::MAX as int
            } else {
                m.scroll_back + 10
            },
        ),
{
}

/// PgDn scrolls forward ten lines, at most to the newest.
pub proof fn page_down_scrolls_forward_ten_lines(m: AppModel, modifiers: KeyModifiers, now: u128)
    ensures
        scrolls_to(
            m,
            press(m, KeyCode::PageDown, modifiers, now),
            if m.scroll_back < 10 {
                0
            } else {
                m.scroll_back - 10
            },
        ),
{
}

/// Home scrolls back further than any buffer goes, and End to the newest
/// line.
pub proof fn home_and_end_scroll_all_the_way(m: AppModel, modifiers: KeyModifiers, now: u128)
    ensures
        m.view == pane::View::Details ==> does_nothing(m, press(m, KeyCode::Home, modifiers, now)),
        m.view != pane::View::Details ==> scrolls_to(
            m,
            press(m, KeyCode::Home, modifiers, now),
            if m.scroll_back + usize::MAX / 2 > usize::MAX {
                usize::MAX as int
            } else {
                m.scroll_back + usize::MAX / 2
            },
        ),
        scrolls_to(m, press(m, KeyCode::End, modifiers, now), 0),
{
}

/// The control key is held down exactly if its bit, the second, is set.
pub proof fn control_is_the_second_bit(key: KeyEvent)
    ensures
        key.with_control() <==> (key.modifiers.bits / 2) % 2 == 1,
{
    let b = key.modifiers.bits;
    assert((b & 2u8 == 2u8) <==> (b / 2) % 2 == 1) by (bit_vector);
}

/// q asks to quit, and so does c with the control key; c alone does nothing.
pub proof fn q_and_control_c_quit(m: AppModel, modifiers: KeyModifiers, now: u128)
    ensures
        press(m, KeyCode::Char('q'), modifiers, now) == (Step {
            app: AppModel { should_quit: true, ..m },
            commands: Seq::empty(),
        }),
        (modifiers.bits / 2) % 2 == 1 ==> press(m, KeyCode::Char('c'), modifiers, now) == (Step {
            app: AppModel { should_quit: true, ..m },
            commands: Seq::empty(),
        }),
        (modifiers.bits / 2) % 2 == 0 ==> does_nothing(
            m,
            press(m, KeyCode::Char('c'), modifiers, now),
        ),
{
    control_is_the_second_bit(KeyEvent { code: KeyCode::Char('c'), modifiers });
}

/// Every other character, and every key without a name here, does nothing.
pub proof fn other_keys_do_nothing(m: AppModel, c: char, modifiers: KeyModifiers, now: u128)
    ensures
        c != 'q' && c != 'c' && c != 'k' && c != 'j' && c != 's' && c != 'r' && c != 'u'
            ==> does_nothing(m, press(m, KeyCode::Char(c), modifiers, now)),
        does_nothing(m, press(m, KeyCode::Other, modifiers, now)),
{
}

} // verus!
