//! Model and Update: application state plus the message-driven state machine.
use vstd::prelude::*;

use crate::clock::Clock;
use crate::container;
use crate::container::ContainerInfo;
use crate::docker;
use crate::docker::DockerCommand;
use crate::input::{KeyCode, KeyEvent, KeyModifiers};
use crate::message::Message;
use crate::model::{
    AppModel, StatusModel, ERROR_STATUS_TTL, MAX_LOG_LINES, SCROLL_STEP, STATUS_TTL,
};
use crate::paint::Area;
use crate::pane;
use crate::stats::StatsInfo;
use crate::text;

verus! {

/// Which row of the container list is selected, and which is shown first.
#[derive(Debug, Clone, Copy, PartialEq, Eq, Structural)]
pub struct ListState {
    pub selected: Option<usize>,
    pub offset: usize,
}

impl Default for ListState {
    fn default() -> (r: Self)
        ensures
            r == (ListState { selected: None, offset: 0 }),
    {
        ListState { selected: None, offset: 0 }
    }
}

impl ListState {
    /// The selected row.
    pub fn selected(&self) -> (r: Option<usize>)
        ensures
            r == self.selected,
    {
        self.selected
    }

    /// Selects another row, or none.
    pub fn select(&mut self, index: Option<usize>)
        ensures
            *final(self) == old(self).selecting(index),
    {
        self.selected = index;
        if index.is_none() {
            self.offset = 0;
        }
    }

    /// Shows a list of `len` rows in a framed pane: a selection behind the
    /// last row moves to the last row, and the first row in sight moves no
    /// further than it takes to have the selected row in sight. A pane
    /// without room inside its frame, or without rows, changes nothing.
    pub fn show(&mut self, len: usize, area: Area)
        ensures
            *final(self) == old(self).shown_in(len as int, area),
    {
        if len == 0 || area.width <= 2 || area.height <= 2 {
            return ;
        }
        let room: usize = (area.height - 2) as usize;
        let first: usize = if self.offset < len {
            self.offset
        } else {
            len - 1
        };
        self.offset = first;
        if let Some(selected) = self.selected {
            let row: usize = if selected < len {
                selected
            } else {
                len - 1
            };
            self.selected = Some(row);
            if row < first {
                self.offset = row;
            } else if row - first >= room {
                self.offset = row - room + 1;
            }
        }
    }
}

/// Transient message rendered in the header bar.
#[derive(Debug)]
pub struct StatusMessage {
    pub text: String,
    pub is_error: bool,
}

impl View for StatusMessage {
    type V = StatusModel;

    open spec fn view(&self) -> StatusModel {
        StatusModel { text: self.text@, is_error: self.is_error }
    }
}

impl Clone for StatusMessage {
    fn clone(&self) -> (r: Self)
        ensures
            r@ == self@,
    {
        StatusMessage { text: self.text.clone(), is_error: self.is_error }
    }
}

impl StatusMessage {
    /// A message for information, with the text that `text` converts into.
    pub fn info(text: impl Into<String>) -> (r: Self)
        ensures
            call_ensures(Into::<String>::into, (text,), r.text),
            r.is_error == false,
    {
        StatusMessage { text: text.into(), is_error: false }
    }

    /// A message about an error, with the text that `text` converts into.
    pub fn error(text: impl Into<String>) -> (r: Self)
        ensures
            call_ensures(Into::<String>::into, (text,), r.text),
            r.is_error == true,
    {
        StatusMessage { text: text.into(), is_error: true }
    }
}

/// The Model: all state needed to render a frame.
pub struct App {
    pub containers: Vec<ContainerInfo>,
    pub list_state: ListState,
    pub view: pane::View,
    pub logs: Vec<String>,
    pub stats: Option<StatsInfo>,
    pub status: Option<StatusMessage>,
    /// When the status was set, in nanoseconds on the application's clock.
    pub status_at: Option<u128>,
    /// Lines scrolled back from the tail of the logs or update output.
    /// Zero means follow mode: newest lines pinned to the bottom.
    pub scroll_back: usize,
    pub update_output: Vec<String>,
    pub update_running: bool,
    pub update_target: Option<String>,
    pub should_quit: bool,
    /// The clock that status messages are timed by.
    pub clock: Clock,
}

impl View for App {
    type V = AppModel;

    open spec fn view(&self) -> AppModel {
        AppModel {
            containers: container::containers_model(self.containers@),
            list_state: self.list_state,
            view: self.view,
            logs: text::texts(self.logs@),
            stats: self.stats,
            status: match self.status {
                Some(status) => Some(status@),
                None => None,
            },
            status_at: self.status_at,
            scroll_back: self.scroll_back,
            update_output: text::texts(self.update_output@),
            update_running: self.update_running,
            update_target: text::optional_text(self.update_target),
            should_quit: self.should_quit,
            clock: self.clock,
        }
    }
}

/// To send nothing leaves the commands that are to be sent as they are.
proof fn lemma_nothing_more(out: Seq<DockerCommand>)
    ensures
        docker::commands_model(out) + Seq::empty() == docker::commands_model(out),
{
    assert(docker::commands_model(out) + Seq::empty() =~= docker::commands_model(out));
}

/// Adds a command to those that are to be sent.
fn send(out: &mut Vec<DockerCommand>, command: DockerCommand)
    ensures
        docker::commands_model(final(out)@) == docker::commands_model(old(out)@).push(command@),
{
    out.push(command);
    assert(docker::commands_model(out@) =~= docker::commands_model(old(out)@).push(command@));
}

impl App {
    /// The application before anything has happened.
    pub fn new() -> (r: Self)
        ensures
            r@.is_initial(),
    {
        let app = App {
            containers: Vec::new(),
            list_state: ListState::default(),
            view: pane::View::Details,
            logs: Vec::new(),
            stats: None,
            status: None,
            status_at: None,
            scroll_back: 0,
            update_output: Vec::new(),
            update_running: false,
            update_target: None,
            should_quit: false,
            clock: Clock::new(),
        };
        assert(app@.containers =~= Seq::empty());
        assert(app@.logs =~= Seq::empty());
        assert(app@.update_output =~= Seq::empty());
        app
    }

    /// The selected container.
    pub fn selected(&self) -> (r: Option<&ContainerInfo>)
        ensures
            match r {
                Some(c) => self@.current() == Some(c@),
                None => self@.current() is None,
            },
    {
        match self.list_state.selected {
            Some(i) => if i < self.containers.len() {
                Some(&self.containers[i])
            } else {
                None
            },
            None => None,
        }
    }

    /// Whether the container with this id is selected.
    fn selects(&self, id: &String) -> (r: bool)
        ensures
            r == self@.selects(id@),
    {
        match self.selected() {
            Some(c) => c.id == *id,
            None => false,
        }
    }

    fn set_status(&mut self, status: StatusMessage, now: u128)
        ensures
            final(self)@ == old(self)@.announcing(status@.text, status@.is_error, now),
    {
        self.status_at = Some(now);
        self.status = Some(status);
    }

    /// Drop stale status messages; called on the steady polling cadence.
    pub fn expire_status(&mut self, now: u128)
        ensures
            final(self)@ == old(self)@.tidied(now),
    {
        let stale = match (&self.status, self.status_at) {
            (Some(status), Some(at)) => {
                let ttl: u128 = if status.is_error {
                    ERROR_STATUS_TTL
                } else {
                    STATUS_TTL
                };
                now > at && now - at > ttl
            },
            _ => false,
        };
        if stale {
            self.status = None;
            self.status_at = None;
        }
    }

    /// Ask the Docker actor for fresh stats when they would be visible.
    fn request_stats(&self, out: &mut Vec<DockerCommand>)
        ensures
            docker::commands_model(final(out)@) == docker::commands_model(old(out)@)
                + self@.stats_request(),
    {
        if self.view == pane::View::Details {
            if let Some(c) = self.selected() {
                if c.is_running() {
                    send(out, DockerCommand::FetchStats { id: c.id.clone() });
                    return ;
                }
            }
        }
        proof {
            lemma_nothing_more(out@);
        }
    }

    /// The Update function: fold one message into the model. The commands
    /// that it gives rise to are for the Docker actor.
    pub fn update(&mut self, msg: Message) -> (r: Vec<DockerCommand>)
        ensures
            exists|now: u128|
                {
                    let step = #[trigger] old(self)@.after(msg@, now);
                    &&& final(self)@ == step.app
                    &&& docker::commands_model(r@) == step.commands
                },
    {
        let now = self.clock.now();
        self.update_at(msg, now)
    }

    /// The Update function at a given time.
    pub fn update_at(&mut self, msg: Message, now: u128) -> (r: Vec<DockerCommand>)
        ensures
            final(self)@ == old(self)@.after(msg@, now).app,
            docker::commands_model(r@) == old(self)@.after(msg@, now).commands,
    {
        let mut out: Vec<DockerCommand> = Vec::new();
        assert(docker::commands_model(out@) =~= Seq::empty());
        match msg {
            Message::Key(key) => self.handle_key(key, now, &mut out),
            Message::ContainersUpdated(list) => self.apply_container_list(list, now, &mut out),
            Message::StatsUpdated(id, stats) => {
                if self.selects(&id) {
                    self.stats = Some(stats);
                }
            },
            Message::LogLine(id, line) => {
                if self.view == pane::View::Logs && self.selects(&id) {
                    push_line(&mut self.logs, line);
                }
            },
            Message::UpdateLine(line) => push_line(&mut self.update_output, line),
            Message::UpdateFinished { success, detail } => {
                self.update_running = false;
                let status = if success {
                    StatusMessage::info(detail)
                } else {
                    StatusMessage::error(detail)
                };
                self.set_status(status, now);
            },
            Message::Status(text) => self.set_status(StatusMessage::info(text), now),
            Message::DockerError(text) => self.set_status(StatusMessage::error(text), now),
        }
        out
    }

    fn handle_key(&mut self, key: KeyEvent, now: u128, out: &mut Vec<DockerCommand>)
        ensures
            final(self)@ == old(self)@.key_pressed(key, now).app,
            docker::commands_model(final(out)@) == docker::commands_model(old(out)@) + old(
                self,
            )@.key_pressed(key, now).commands,
    {
        proof {
            lemma_nothing_more(out@);
        }
        match key.code {
            KeyCode::Char(c) => {
                if c == 'c' && key.modifiers.contains(KeyModifiers::control()) {
                    self.should_quit = true;
                } else if c == 'q' {
                    self.should_quit = true;
                } else if c == 'k' {
                    self.move_selection(-1, out);
                } else if c == 'j' {
                    self.move_selection(1, out);
                } else if c == 's' {
                    self.toggle_start_stop(now, out);
                } else if c == 'r' {
                    self.restart_selected(now, out);
                } else if c == 'u' {
                    self.trigger_update(now, out);
                }
            },
            KeyCode::Up => self.move_selection(-1, out),
            KeyCode::Down => self.move_selection(1, out),
            KeyCode::Enter => self.toggle_view(now, out),
            KeyCode::Esc => match self.view {
                pane::View::Logs => self.leave_logs(out),
                pane::View::Update => {
                    // The update task keeps running in the background;
                    // its output stays buffered for when the user returns.
                    self.view = pane::View::Details;
                    self.scroll_back = 0;
                    self.request_stats(out);
                },
                pane::View::Details => {},
            },
            KeyCode::PageUp => self.scroll_up(SCROLL_STEP),
            KeyCode::PageDown => self.scroll_down(SCROLL_STEP),
            KeyCode::Home => self.scroll_up(usize::MAX / 2),
            KeyCode::End => {
                self.scroll_back = 0;
            },
            KeyCode::Other => {},
        }
    }

    /// Scroll back through logs or update output. The view clamps the
    /// offset to the buffer size when it renders.
    pub fn scroll_up(&mut self, lines: usize)
        ensures
            final(self)@ == old(self)@.scrolled_up(lines as int),
    {
        if self.view != pane::View::Details {
            self.scroll_back = self.scroll_back.saturating_add(lines);
        }
    }

    /// Scroll forward, at most to the newest lines.
    pub fn scroll_down(&mut self, lines: usize)
        ensures
            final(self)@ == old(self)@.scrolled_down(lines as int),
    {
        self.scroll_back = self.scroll_back.saturating_sub(lines);
    }

    fn apply_container_list(
        &mut self,
        list: Vec<ContainerInfo>,
        now: u128,
        out: &mut Vec<DockerCommand>,
    )
        ensures
            final(self)@ == old(self)@.refreshed(container::containers_model(list@), now).app,
            docker::commands_model(final(out)@) == docker::commands_model(old(out)@) + old(
                self,
            )@.refreshed(container::containers_model(list@), now).commands,
    {
        self.expire_status(now);
        // Keep the same container selected across refreshes when possible,
        // otherwise clamp the index into the new list.
        let found = match self.selected() {
            Some(c) => find_id(&list, &c.id),
            None => None,
        };
        let row: Option<usize> = if found.is_some() {
            found
        } else if list.len() == 0 {
            None
        } else {
            let current: usize = self.list_state.selected.unwrap_or(0);
            if current < list.len() {
                Some(current)
            } else {
                Some(list.len() - 1)
            }
        };
        self.containers = list;
        self.list_state.select(row);
        // Piggyback a stats refresh on the polling cadence.
        self.request_stats(out);
    }

    fn move_selection(&mut self, delta: i64, out: &mut Vec<DockerCommand>)
        requires
            delta == -1 || delta == 1,
        ensures
            final(self)@ == old(self)@.moved(delta as int).app,
            docker::commands_model(final(out)@) == docker::commands_model(old(out)@) + old(
                self,
            )@.moved(delta as int).commands,
    {
        proof {
            lemma_nothing_more(out@);
        }
        if self.containers.len() == 0 {
            return ;
        }
        let last: usize = self.containers.len() - 1;
        let current: usize = self.list_state.selected.unwrap_or(0);
        let next: usize = if current as u128 > i64::MAX as u128 {
            0
        } else if delta < 0 {
            let up: usize = current.saturating_sub(1);
            if up > last {
                last
            } else {
                up
            }
        } else if current >= last {
            last
        } else {
            current + 1
        };
        assert(next == crate::model::moved_row(
            self@.list_state.selected,
            delta as int,
            self@.containers.len() as int,
        ));
        if self.list_state.selected == Some(next) {
            return ;
        }
        self.list_state.select(Some(next));
        self.stats = None;
        if self.view == pane::View::Logs {
            // Follow the new selection with a fresh log stream.
            self.logs.clear();
            assert(text::texts(self.logs@) =~= Seq::empty());
            self.scroll_back = 0;
            send(out, DockerCommand::StreamLogs { id: self.containers[next].id.clone() });
        } else {
            self.request_stats(out);
        }
    }

    fn toggle_view(&mut self, now: u128, out: &mut Vec<DockerCommand>)
        ensures
            final(self)@ == old(self)@.view_toggled(now).app,
            docker::commands_model(final(out)@) == docker::commands_model(old(out)@) + old(
                self,
            )@.view_toggled(now).commands,
    {
        proof {
            lemma_nothing_more(out@);
        }
        let (id, name) = match self.selected() {
            Some(c) => (c.id.clone(), c.name.clone()),
            None => return ,
        };
        match self.view {
            pane::View::Details | pane::View::Update => {
                self.view = pane::View::Logs;
                self.logs.clear();
                assert(text::texts(self.logs@) =~= Seq::empty());
                self.scroll_back = 0;
                let text = text::concat2("Streaming logs for ", name.as_str());
                self.set_status(StatusMessage::info(text), now);
                send(out, DockerCommand::StreamLogs { id });
            },
            pane::View::Logs => self.leave_logs(out),
        }
    }

    fn leave_logs(&mut self, out: &mut Vec<DockerCommand>)
        ensures
            final(self)@ == old(self)@.leaving_logs().app,
            docker::commands_model(final(out)@) == docker::commands_model(old(out)@) + old(
                self,
            )@.leaving_logs().commands,
    {
        let ghost sent = docker::commands_model(out@);
        self.view = pane::View::Details;
        self.stats = None;
        self.status = None;
        self.scroll_back = 0;
        send(out, DockerCommand::StopLogs);
        self.request_stats(out);
        assert(docker::commands_model(out@) =~= sent + old(self)@.leaving_logs().commands);
    }

    fn toggle_start_stop(&mut self, now: u128, out: &mut Vec<DockerCommand>)
        ensures
            final(self)@ == old(self)@.start_stop_toggled(now).app,
            docker::commands_model(final(out)@) == docker::commands_model(old(out)@) + old(
                self,
            )@.start_stop_toggled(now).commands,
    {
        proof {
            lemma_nothing_more(out@);
        }
        let (id, name, running) = match self.selected() {
            Some(c) => (c.id.clone(), c.name.clone(), c.is_running()),
            None => return ,
        };
        if running {
            let text = text::concat3("Stopping ", name.as_str(), "...");
            self.set_status(StatusMessage::info(text), now);
            send(out, DockerCommand::Stop { id, name });
        } else {
            let text = text::concat3("Starting ", name.as_str(), "...");
            self.set_status(StatusMessage::info(text), now);
            send(out, DockerCommand::Start { id, name });
        }
    }

    fn restart_selected(&mut self, now: u128, out: &mut Vec<DockerCommand>)
        ensures
            final(self)@ == old(self)@.restarting(now).app,
            docker::commands_model(final(out)@) == docker::commands_model(old(out)@) + old(
                self,
            )@.restarting(now).commands,
    {
        proof {
            lemma_nothing_more(out@);
        }
        let (id, name) = match self.selected() {
            Some(c) => (c.id.clone(), c.name.clone()),
            None => return ,
        };
        let text = text::concat3("Restarting ", name.as_str(), "...");
        self.set_status(StatusMessage::info(text), now);
        send(out, DockerCommand::Restart { id, name });
    }

    fn trigger_update(&mut self, now: u128, out: &mut Vec<DockerCommand>)
        ensures
            final(self)@ == old(self)@.updating(now).app,
            docker::commands_model(final(out)@) == docker::commands_model(old(out)@) + old(
                self,
            )@.updating(now).commands,
    {
        proof {
            lemma_nothing_more(out@);
        }
        let c = match self.selected() {
            Some(c) => c.clone(),
            None => return ,
        };
        // One update at a time: re-pressing u jumps back to the output view.
        if self.update_running {
            self.view = pane::View::Update;
            self.set_status(StatusMessage::info("An update is already in progress"), now);
            return ;
        }
        match c.compose {
            Some(compose) => {
                self.update_output.clear();
                assert(text::texts(self.update_output@) =~= Seq::empty());
                self.update_target = Some(compose.target());
                self.update_running = true;
                self.view = pane::View::Update;
                self.scroll_back = 0;
                let text = text::concat2("Compose Update triggered for ", c.name.as_str());
                self.set_status(StatusMessage::info(text), now);
                send(out, DockerCommand::ComposeUpdate { compose, name: c.name });
            },
            None => {
                let text = text::concat2(
                    c.name.as_str(),
                    " is not managed by Compose: update unavailable",
                );
                self.set_status(StatusMessage::error(text), now);
            },
        }
    }
}

/// Adds a line to those that are retained.
fn push_line(lines: &mut Vec<String>, line: String)
    ensures
        text::texts(final(lines)@) == crate::model::newest(text::texts(old(lines)@).push(line@)),
{
    lines.push(line);
    let ghost all = text::texts(lines@);
    assert(all =~= text::texts(old(lines)@).push(line@));
    if lines.len() > MAX_LOG_LINES {
        let excess: usize = lines.len() - MAX_LOG_LINES;
        let kept = lines.split_off(excess);
        assert(text::texts(kept@) =~= all.skip(excess as int));
        *lines = kept;
    }
}

/// The position of the first container with an id.
fn find_id(list: &Vec<ContainerInfo>, id: &String) -> (r: Option<usize>)
    ensures
        match r {
            Some(i) => crate::model::position_of(container::containers_model(list@), id@, 0)
                == Some(i as int),
            None => crate::model::position_of(container::containers_model(list@), id@, 0) is None,
        },
{
    let ghost all = container::containers_model(list@);
    let mut i: usize = 0;
    while i < list.len()
        invariant
            i <= list.len(),
            all == container::containers_model(list@),
            crate::model::position_of(all, id@, 0) == crate::model::position_of(
                all,
                id@,
                i as int,
            ),
        decreases list.len() - i,
    {
        if list[i].id == *id {
            return Some(i);
        }
        i = i + 1;
    }
    None
}

} // verus!
