//! Laws of whole runs: what the right pane shows belongs to the selected
//! container, whatever has happened since the start.
use vstd::prelude::*;

use crate::actor::Dispatcher;
use crate::actor_laws;
use crate::docker::CommandModel;
use crate::input::KeyEvent;
use crate::laws;
use crate::message::MessageModel;
use crate::model;
use crate::model::AppModel;
use crate::pane;

verus! {

impl AppModel {
    /// A message does not take the selected container away: a new container
    /// list still has it.
    pub open spec fn keeps_selection(self, msg: MessageModel) -> bool {
        match (msg, self.current()) {
            (MessageModel::ContainersUpdated(list), Some(c)) => model::position_of(list, c.id, 0)
                is Some,
            _ => true,
        }
    }
}

/// No message of a run takes the selected container away.
pub open spec fn undisturbed(start: AppModel, msgs: Seq<(MessageModel, u128)>) -> bool
    decreases msgs.len(),
{
    if msgs.len() == 0 {
        true
    } else {
        let before = start.after_all(msgs.drop_last());
        undisturbed(start, msgs.drop_last()) && before.keeps_selection(msgs.last().0)
    }
}

/// The container lists of a run fit in memory.
pub open spec fn lists_fit(msgs: Seq<(MessageModel, u128)>) -> bool {
    forall|i: int|
        0 <= i < msgs.len() ==> ((#[trigger] msgs[i]).0 matches MessageModel::ContainersUpdated(
            list,
        ) ==> list.len() <= usize::MAX)
}

/// What the right pane shows, and where it comes from: the container that the
/// statistics were reported for which were taken over last, the containers
/// that the retained log lines were reported for, line by line, and the
/// container whose logs are streamed.
pub struct Origins {
    pub stats: Option<Seq<char>>,
    pub logs: Seq<Seq<char>>,
    pub stream: Option<Seq<char>>,
}

/// The container whose logs are streamed after some commands, given the one
/// whose logs were streamed before.
pub open spec fn streamed(target: Option<Seq<char>>, commands: Seq<CommandModel>) -> Option<
    Seq<char>,
>
    decreases commands.len(),
{
    if commands.len() == 0 {
        target
    } else {
        match commands.last() {
            CommandModel::StreamLogs { id } => Some(id),
            CommandModel::StopLogs => None,
            _ => streamed(target, commands.drop_last()),
        }
    }
}

impl Origins {
    /// Nothing has been reported yet.
    pub open spec fn none() -> Origins {
        Origins { stats: None, logs: Seq::empty(), stream: None }
    }

    /// The origins after a message at time `now` in state `m`.
    pub open spec fn after(self, m: AppModel, msg: MessageModel, now: u128) -> Origins {
        Origins {
            stats: match msg {
                MessageModel::StatsUpdated(id, _) => if m.selects(id) {
                    Some(id)
                } else {
                    self.stats
                },
                _ => self.stats,
            },
            logs: match msg {
                MessageModel::LogLine(id, _) => if m.view == pane::View::Logs && m.selects(id) {
                    model::newest(self.logs.push(id))
                } else {
                    self.logs
                },
                _ => if m.after(msg, now).app.logs.len() == 0 {
                    Seq::empty()
                } else {
                    self.logs
                },
            },
            stream: streamed(self.stream, m.after(msg, now).commands),
        }
    }

    /// The statistics were reported for the selected container, and while the
    /// logs are shown, every line was, and it is the container whose logs are
    /// streamed.
    pub open spec fn are_selected(self, m: AppModel) -> bool {
        &&& m.stats is Some ==> self.stats is Some && m.selects(self.stats->0)
        &&& self.logs.len() == m.logs.len()
        &&& m.view == pane::View::Logs ==> forall|i: int|
            0 <= i < self.logs.len() ==> m.selects(#[trigger] self.logs[i])
        &&& m.view == pane::View::Logs ==> self.stream is Some && m.selects(self.stream->0)
    }
}

/// The origins at the end of a run.
pub open spec fn origins(start: AppModel, msgs: Seq<(MessageModel, u128)>) -> Origins
    decreases msgs.len(),
{
    if msgs.len() == 0 {
        Origins::none()
    } else {
        let before = start.after_all(msgs.drop_last());
        origins(start, msgs.drop_last()).after(before, msgs.last().0, msgs.last().1)
    }
}

/// The commands of a message stream the logs of the container that they name
/// last, and otherwise leave the stream as it is.
proof fn lemma_streamed(target: Option<Seq<char>>, commands: Seq<CommandModel>)
    ensures
        commands.len() == 0 ==> streamed(target, commands) == target,
        commands.len() == 1 ==> streamed(target, commands) == (match commands[0] {
            CommandModel::StreamLogs { id } => Some(id),
            CommandModel::StopLogs => None,
            _ => target,
        }),
{
    reveal_with_fuel(streamed, 2);
}

/// One key press.
proof fn lemma_key(m: AppModel, o: Origins, key: KeyEvent, now: u128)
    requires
        o.are_selected(m),
        m.is_sound(),
        m.containers.len() <= usize::MAX,
    ensures
        o.after(m, MessageModel::Key(key), now).are_selected(
            m.after(MessageModel::Key(key), now).app,
        ),
{
    let step = m.key_pressed(key, now);
    lemma_streamed(o.stream, step.commands);
}

/// One message.
proof fn lemma_message(m: AppModel, o: Origins, msg: MessageModel, now: u128)
    requires
        o.are_selected(m),
        m.is_sound(),
        m.containers.len() <= usize::MAX,
        m.keeps_selection(msg),
        msg matches MessageModel::ContainersUpdated(list) ==> list.len() <= usize::MAX,
    ensures
        o.after(m, msg, now).are_selected(m.after(msg, now).app),
{
    match msg {
        MessageModel::Key(key) => lemma_key(m, o, key, now),
        MessageModel::ContainersUpdated(list) => {
            lemma_streamed(o.stream, m.after(msg, now).commands);
            match m.current() {
                Some(c) => laws::position_is_first(list, c.id, 0),
                None => {},
            }
        },
        MessageModel::LogLine(id, line) => {
            laws::newest_is_the_end(o.logs.push(id));
            laws::newest_is_the_end(m.logs.push(line));
        },
        _ => {},
    }
}

/// As long as no refresh takes the selected container away, the statistics
/// that are shown were reported for the selected container, and while the
/// logs are shown, every line of them was reported for the selected
/// container, and it is the one whose logs are streamed.
pub proof fn what_is_shown_belongs_to_the_selection(
    start: AppModel,
    msgs: Seq<(MessageModel, u128)>,
)
    requires
        start.is_initial(),
        lists_fit(msgs),
        undisturbed(start, msgs),
    ensures
        origins(start, msgs).are_selected(start.after_all(msgs)),
    decreases msgs.len(),
{
    if msgs.len() > 0 {
        let head = msgs.drop_last();
        assert forall|i: int| 0 <= i < head.len() implies ((#[trigger] head[i]).0 matches
            MessageModel::ContainersUpdated(list) ==> list.len() <= usize::MAX) by {
            assert(head[i] == msgs[i]);
        }
        what_is_shown_belongs_to_the_selection(start, head);
        laws::reachable_states_are_sound(start, head);
        assert(msgs[msgs.len() - 1] == msgs.last());
        lemma_message(
            start.after_all(head),
            origins(start, head),
            msgs.last().0,
            msgs.last().1,
        );
    }
}

/// The command loop, from its start on, has a log stream running exactly if
/// the commands ask for one.
pub proof fn the_stream_that_runs_is_the_one_asked_for(commands: Seq<CommandModel>)
    ensures
        actor_laws::dispatched(Dispatcher { log_task: false }, commands).log_task == (streamed(
            None,
            commands,
        ) is Some),
    decreases commands.len(),
{
    if commands.len() > 0 {
        the_stream_that_runs_is_the_one_asked_for(commands.drop_last());
    }
}

} // verus!
