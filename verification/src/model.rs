//! The model: the state of the application as mathematical values, and what
//! every event makes of it.
use vstd::prelude::*;

use crate::app::ListState;
use crate::clock::Clock;
use crate::container::ContainerModel;
use crate::docker::CommandModel;
use crate::input::{KeyCode, KeyEvent};
use crate::message::MessageModel;
use crate::paint::Area;
use crate::pane;
use crate::stats::StatsInfo;

verus! {

/// Cap on retained log lines so long-running streams stay bounded.
pub const MAX_LOG_LINES: usize = 2000;

/// How many lines one PgUp/PgDn press moves.
pub const SCROLL_STEP: usize = 10;

/// How long transient status messages stay in the header, in nanoseconds.
pub const STATUS_TTL: u128 = 6_000_000_000;

/// How long error messages stay there.
pub const ERROR_STATUS_TTL: u128 = 12_000_000_000;

/// A message in the header bar.
pub struct StatusModel {
    pub text: Seq<char>,
    pub is_error: bool,
}

/// The state of the application.
pub struct AppModel {
    pub containers: Seq<ContainerModel>,
    pub list_state: ListState,
    pub view: pane::View,
    pub logs: Seq<Seq<char>>,
    pub stats: Option<StatsInfo>,
    pub status: Option<StatusModel>,
    pub status_at: Option<u128>,
    pub scroll_back: usize,
    pub update_output: Seq<Seq<char>>,
    pub update_running: bool,
    pub update_target: Option<Seq<char>>,
    pub should_quit: bool,
    pub clock: Clock,
}

/// The state after an event, and the commands that the event gives rise to.
pub struct Step {
    pub app: AppModel,
    pub commands: Seq<CommandModel>,
}

/// The newest lines, as many as are retained.
pub open spec fn newest(lines: Seq<Seq<char>>) -> Seq<Seq<char>> {
    if lines.len() > MAX_LOG_LINES {
        lines.skip(lines.len() - MAX_LOG_LINES)
    } else {
        lines
    }
}

/// The position of the first container with an id, from position `from` on.
pub open spec fn position_of(list: Seq<ContainerModel>, id: Seq<char>, from: int) -> Option<int>
    decreases list.len() - from,
{
    if from < 0 || from >= list.len() {
        None
    } else if list[from].id == id {
        Some(from)
    } else {
        position_of(list, id, from + 1)
    }
}

/// The row that a list of `len` rows selects when the selection moves by
/// `delta`: the first or the last row where it would leave the list. Without
/// a selection the move starts at the first row; an index beyond the signed
/// 64-bit range lies, as a signed number, in front of it.
pub open spec fn moved_row(selected: Option<usize>, delta: int, len: int) -> int {
    let current = match selected {
        Some(i) => if i <= i64::MAX {
            i as int
        } else {
            i - 0x1_0000_0000_0000_0000
        },
        None => 0,
    };
    if current + delta < 0 {
        0
    } else if current + delta > len - 1 {
        len - 1
    } else {
        current + delta
    }
}

impl ListState {
    /// The list with another selection; without one it shows its first row.
    pub open spec fn selecting(self, index: Option<usize>) -> ListState {
        ListState {
            selected: index,
            offset: if index is None {
                0
            } else {
                self.offset
            },
        }
    }

    /// The list once its `len` rows are shown in a framed pane: what is
    /// selected is one of the rows, and in sight. Where there is nothing to
    /// show, or no room inside the frame, it is left as it is.
    pub open spec fn shown_in(self, len: int, area: Area) -> ListState {
        if len == 0 || area.width <= 2 || area.height <= 2 {
            self
        } else {
            let room = area.height - 2;
            let first = if self.offset < len {
                self.offset as int
            } else {
                len - 1
            };
            match self.selected {
                Some(i) => {
                    let row = if i < len {
                        i as int
                    } else {
                        len - 1
                    };
                    ListState {
                        selected: Some(row as usize),
                        offset: (if row < first {
                            row
                        } else if row >= first + room {
                            row + 1 - room
                        } else {
                            first
                        }) as usize,
                    }
                },
                None => ListState { selected: None, offset: first as usize },
            }
        }
    }
}

impl AppModel {
    /// Nothing has happened yet.
    pub open spec fn is_initial(self) -> bool {
        &&& self.containers == Seq::<ContainerModel>::empty()
        &&& self.list_state == ListState { selected: None, offset: 0 }
        &&& self.view == pane::View::Details
        &&& self.logs == Seq::<Seq<char>>::empty()
        &&& self.stats is None
        &&& self.status is None
        &&& self.status_at is None
        &&& self.scroll_back == 0
        &&& self.update_output == Seq::<Seq<char>>::empty()
        &&& !self.update_running
        &&& self.update_target is None
        &&& !self.should_quit
    }

    /// The selected container.
    pub open spec fn current(self) -> Option<ContainerModel> {
        match self.list_state.selected {
            Some(i) => if i < self.containers.len() {
                Some(self.containers[i as int])
            } else {
                None
            },
            None => None,
        }
    }

    /// The container with this id is selected.
    pub open spec fn selects(self, id: Seq<char>) -> bool {
        match self.current() {
            Some(c) => c.id == id,
            None => false,
        }
    }

    /// The state with nothing to do about it.
    pub open spec fn quietly(self) -> Step {
        Step { app: self, commands: Seq::empty() }
    }

    /// The state with a new header message, set at time `now`.
    pub open spec fn announcing(self, text: Seq<char>, is_error: bool, now: u128) -> AppModel {
        AppModel {
            status: Some(StatusModel { text, is_error }),
            status_at: Some(now),
            ..self
        }
    }

    /// The header message has been shown for longer than it may be.
    pub open spec fn status_is_stale(self, now: u128) -> bool {
        match (self.status, self.status_at) {
            (Some(status), Some(at)) => now - at > (if status.is_error {
                ERROR_STATUS_TTL
            } else {
                STATUS_TTL
            }),
            _ => false,
        }
    }

    /// The state without a stale header message.
    pub open spec fn tidied(self, now: u128) -> AppModel {
        if self.status_is_stale(now) {
            AppModel { status: None, status_at: None, ..self }
        } else {
            self
        }
    }

    /// The request for fresh statistics: made where they would be visible,
    /// which is in the details of a running container.
    pub open spec fn stats_request(self) -> Seq<CommandModel> {
        match self.current() {
            Some(c) => if self.view == pane::View::Details && c.running() {
                seq![CommandModel::FetchStats { id: c.id }]
            } else {
                Seq::empty()
            },
            None => Seq::empty(),
        }
    }

    /// The state, with a request for fresh statistics.
    pub open spec fn asking_for_stats(self) -> Step {
        Step { app: self, commands: self.stats_request() }
    }

    /// The row that a new container list selects: that of the container
    /// selected before, else the old row or the last one.
    pub open spec fn row_after_refresh(self, list: Seq<ContainerModel>) -> Option<int> {
        let found = match self.current() {
            Some(c) => position_of(list, c.id, 0),
            None => None,
        };
        if found is Some {
            found
        } else if list.len() == 0 {
            None
        } else {
            let row = match self.list_state.selected {
                Some(i) => i as int,
                None => 0,
            };
            Some(
                if row < list.len() {
                    row
                } else {
                    list.len() - 1
                },
            )
        }
    }

    /// A new container list arrives at time `now`.
    pub open spec fn refreshed(self, list: Seq<ContainerModel>, now: u128) -> Step {
        let row = match self.row_after_refresh(list) {
            Some(i) => Some(i as usize),
            None => None,
        };
        AppModel {
            containers: list,
            list_state: self.list_state.selecting(row),
            ..self.tidied(now)
        }.asking_for_stats()
    }

    /// The selection moves by `delta` rows.
    pub open spec fn moved(self, delta: int) -> Step {
        let row = moved_row(self.list_state.selected, delta, self.containers.len() as int) as usize;
        if self.containers.len() == 0 || self.list_state.selected == Some(row) {
            self.quietly()
        } else {
            let moved = AppModel {
                list_state: self.list_state.selecting(Some(row)),
                stats: None,
                ..self
            };
            if self.view == pane::View::Logs {
                Step {
                    app: AppModel { logs: Seq::empty(), scroll_back: 0, ..moved },
                    commands: seq![
                        CommandModel::StreamLogs { id: self.containers[row as int].id },
                    ],
                }
            } else {
                moved.asking_for_stats()
            }
        }
    }

    /// The logs of the selected container are opened.
    pub open spec fn opening_logs(self, c: ContainerModel, now: u128) -> Step {
        Step {
            app: AppModel {
                view: pane::View::Logs,
                logs: Seq::empty(),
                scroll_back: 0,
                ..self
            }.announcing("Streaming logs for "@ + c.name, false, now),
            commands: seq![CommandModel::StreamLogs { id: c.id }],
        }
    }

    /// The logs are left for the details.
    pub open spec fn leaving_logs(self) -> Step {
        let app = AppModel {
            view: pane::View::Details,
            stats: None,
            status: None,
            scroll_back: 0,
            ..self
        };
        Step { app, commands: seq![CommandModel::StopLogs] + app.stats_request() }
    }

    /// Enter: from details or update output to the logs, and back.
    pub open spec fn view_toggled(self, now: u128) -> Step {
        match self.current() {
            Some(c) => if self.view == pane::View::Logs {
                self.leaving_logs()
            } else {
                self.opening_logs(c, now)
            },
            None => self.quietly(),
        }
    }

    /// Esc: back to the details. An update keeps running, and its output is
    /// kept.
    pub open spec fn escaped(self) -> Step {
        match self.view {
            pane::View::Logs => self.leaving_logs(),
            pane::View::Update => AppModel {
                view: pane::View::Details,
                scroll_back: 0,
                ..self
            }.asking_for_stats(),
            pane::View::Details => self.quietly(),
        }
    }

    /// A running container is stopped, any other is started.
    pub open spec fn start_stop_toggled(self, now: u128) -> Step {
        match self.current() {
            Some(c) => if c.running() {
                Step {
                    app: self.announcing("Stopping "@ + c.name + "..."@, false, now),
                    commands: seq![CommandModel::Stop { id: c.id, name: c.name }],
                }
            } else {
                Step {
                    app: self.announcing("Starting "@ + c.name + "..."@, false, now),
                    commands: seq![CommandModel::Start { id: c.id, name: c.name }],
                }
            },
            None => self.quietly(),
        }
    }

    /// The selected container is restarted.
    pub open spec fn restarting(self, now: u128) -> Step {
        match self.current() {
            Some(c) => Step {
                app: self.announcing("Restarting "@ + c.name + "..."@, false, now),
                commands: seq![CommandModel::Restart { id: c.id, name: c.name }],
            },
            None => self.quietly(),
        }
    }

    /// The service of the selected container is updated. There is one update
    /// at a time: while one is running its output is shown instead.
    pub open spec fn updating(self, now: u128) -> Step {
        match self.current() {
            Some(c) => if self.update_running {
                AppModel { view: pane::View::Update, ..self }.announcing(
                    "An update is already in progress"@,
                    false,
                    now,
                ).quietly()
            } else {
                match c.compose {
                    Some(compose) => Step {
                        app: AppModel {
                            update_output: Seq::empty(),
                            update_target: Some(compose.target()),
                            update_running: true,
                            view: pane::View::Update,
                            scroll_back: 0,
                            ..self
                        }.announcing("Compose Update triggered for "@ + c.name, false, now),
                        commands: seq![CommandModel::ComposeUpdate { compose, name: c.name }],
                    },
                    None => self.announcing(
                        c.name + " is not managed by Compose: update unavailable"@,
                        true,
                        now,
                    ).quietly(),
                }
            },
            None => self.quietly(),
        }
    }

    /// Scrolls back by some lines; the details do not scroll.
    pub open spec fn scrolled_up(self, lines: int) -> AppModel {
        if self.view == pane::View::Details {
            self
        } else {
            AppModel {
                scroll_back: (if self.scroll_back + lines > usize::MAX {
                    usize::MAX as int
                } else {
                    self.scroll_back + lines
                }) as usize,
                ..self
            }
        }
    }

    /// Scrolls forward by some lines, at most to the newest.
    pub open spec fn scrolled_down(self, lines: int) -> AppModel {
        AppModel {
            scroll_back: (if self.scroll_back < lines {
                0
            } else {
                self.scroll_back - lines
            }) as usize,
            ..self
        }
    }

    /// A key is pressed at time `now`.
    pub open spec fn key_pressed(self, key: KeyEvent, now: u128) -> Step {
        match key.code {
            KeyCode::Char(c) => if c == 'q' || (c == 'c' && key.with_control()) {
                AppModel { should_quit: true, ..self }.quietly()
            } else if c == 'k' {
                self.moved(-1)
            } else if c == 'j' {
                self.moved(1)
            } else if c == 's' {
                self.start_stop_toggled(now)
            } else if c == 'r' {
                self.restarting(now)
            } else if c == 'u' {
                self.updating(now)
            } else {
                self.quietly()
            },
            KeyCode::Up => self.moved(-1),
            KeyCode::Down => self.moved(1),
            KeyCode::Enter => self.view_toggled(now),
            KeyCode::Esc => self.escaped(),
            KeyCode::PageUp => self.scrolled_up(SCROLL_STEP as int).quietly(),
            KeyCode::PageDown => self.scrolled_down(SCROLL_STEP as int).quietly(),
            KeyCode::Home => self.scrolled_up(usize::MAX as int / 2).quietly(),
            KeyCode::End => AppModel { scroll_back: 0, ..self }.quietly(),
            KeyCode::Other => self.quietly(),
        }
    }

    /// A message arrives at time `now`.
    pub open spec fn after(self, msg: MessageModel, now: u128) -> Step {
        match msg {
            MessageModel::Key(key) => self.key_pressed(key, now),
            MessageModel::ContainersUpdated(list) => self.refreshed(list, now),
            MessageModel::StatsUpdated(id, stats) => if self.selects(id) {
                AppModel { stats: Some(stats), ..self }.quietly()
            } else {
                self.quietly()
            },
            MessageModel::LogLine(id, line) => if self.view == pane::View::Logs && self.selects(
                id,
            ) {
                AppModel { logs: newest(self.logs.push(line)), ..self }.quietly()
            } else {
                self.quietly()
            },
            MessageModel::UpdateLine(line) => AppModel {
                update_output: newest(self.update_output.push(line)),
                ..self
            }.quietly(),
            MessageModel::UpdateFinished { success, detail } => AppModel {
                update_running: false,
                ..self
            }.announcing(detail, !success, now).quietly(),
            MessageModel::Status(text) => self.announcing(text, false, now).quietly(),
            MessageModel::DockerError(text) => self.announcing(text, true, now).quietly(),
        }
    }
}

} // verus!
