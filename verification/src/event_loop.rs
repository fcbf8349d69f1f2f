//! The event loop: one turn for every event that the terminal or the Docker
//! actor delivers.
use vstd::prelude::*;

use crate::app::App;
use crate::docker;
use crate::docker::DockerCommand;
use crate::input::KeyEvent;
use crate::message::{Message, MessageModel};
use crate::model::{AppModel, Step};
use crate::text;

verus! {

/// What the event loop waits for.
#[derive(Debug)]
pub enum LoopEvent {
    /// A key event; `pressed` tells a press from a repeat or a release.
    Key { key: KeyEvent, pressed: bool },
    /// A resize or any other input event.
    OtherInput,
    /// The terminal failed to deliver an event.
    InputError(String),
    /// The terminal will deliver no more events.
    InputClosed,
    /// A message of the Docker actor.
    Message(Message),
    /// The Docker actor will deliver no more messages.
    MessagesClosed,
}

/// What a turn of the loop results in.
#[derive(Debug)]
pub struct Turn {
    /// Commands for the Docker actor.
    pub commands: Vec<DockerCommand>,
    /// Whether the loop goes on.
    pub keep_running: bool,
}

/// A source of events has run dry, which ends the loop.
pub open spec fn is_closing(event: LoopEvent) -> bool {
    event is InputClosed || event is MessagesClosed
}

/// The message that an event carries into the update function.
pub open spec fn carried_message(event: LoopEvent) -> Option<MessageModel> {
    match event {
        LoopEvent::Key { key, pressed } => if pressed {
            Some(MessageModel::Key(key))
        } else {
            None
        },
        LoopEvent::InputError(err) => Some(MessageModel::DockerError("Input error: "@ + err@)),
        LoopEvent::Message(msg) => Some(msg@),
        LoopEvent::OtherInput => None,
        LoopEvent::InputClosed => None,
        LoopEvent::MessagesClosed => None,
    }
}

impl AppModel {
    /// The state after an event at time `now`.
    pub open spec fn after_event(self, event: LoopEvent, now: u128) -> Step {
        match carried_message(event) {
            Some(msg) => self.after(msg, now),
            None => self.quietly(),
        }
    }
}

impl App {
    /// One turn of the event loop: fold the event into the model, and go on
    /// unless it closes a source of events or the application is to quit.
    pub fn handle_event(&mut self, event: LoopEvent) -> (r: Turn)
        ensures
            exists|now: u128|
                {
                    let step = #[trigger] old(self)@.after_event(event, now);
                    &&& final(self)@ == step.app
                    &&& docker::commands_model(r.commands@) == step.commands
                },
            r.keep_running == (!is_closing(event) && !final(self)@.should_quit),
    {
        let now = self.clock.now();
        self.handle_event_at(event, now)
    }

    /// One turn of the event loop at a given time.
    pub fn handle_event_at(&mut self, event: LoopEvent, now: u128) -> (r: Turn)
        ensures
            final(self)@ == old(self)@.after_event(event, now).app,
            docker::commands_model(r.commands@) == old(self)@.after_event(event, now).commands,
            r.keep_running == (!is_closing(event) && !final(self)@.should_quit),
    {
        let mut open = true;
        let mut commands: Vec<DockerCommand> = Vec::new();
        assert(docker::commands_model(commands@) =~= Seq::empty());
        match event {
            LoopEvent::Key { key, pressed } => {
                if pressed {
                    commands = self.update_at(Message::Key(key), now);
                }
            },
            LoopEvent::OtherInput => {},
            LoopEvent::InputError(err) => {
                let text = text::concat2("Input error: ", err.as_str());
                commands = self.update_at(Message::DockerError(text), now);
            },
            LoopEvent::Message(msg) => {
                commands = self.update_at(msg, now);
            },
            LoopEvent::InputClosed => {
                open = false;
            },
            LoopEvent::MessagesClosed => {
                open = false;
            },
        }
        Turn { commands, keep_running: open && !self.should_quit }
    }
}

} // verus!
