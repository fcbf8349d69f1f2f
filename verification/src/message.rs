//! Messages: every event that the update loop can react to.
use vstd::prelude::*;

use crate::container;
use crate::container::{ContainerInfo, ContainerModel};
use crate::input::KeyEvent;
use crate::stats::StatsInfo;

verus! {

/// An event for the update loop.
#[derive(Debug)]
pub enum Message {
    Key(KeyEvent),
    ContainersUpdated(Vec<ContainerInfo>),
    StatsUpdated(String, StatsInfo),
    LogLine(String, String),
    UpdateLine(String),
    UpdateFinished { success: bool, detail: String },
    Status(String),
    DockerError(String),
}

/// What a `Message` holds.
pub enum MessageModel {
    Key(KeyEvent),
    ContainersUpdated(Seq<ContainerModel>),
    StatsUpdated(Seq<char>, StatsInfo),
    LogLine(Seq<char>, Seq<char>),
    UpdateLine(Seq<char>),
    UpdateFinished { success: bool, detail: Seq<char> },
    Status(Seq<char>),
    DockerError(Seq<char>),
}

impl View for Message {
    type V = MessageModel;

    open spec fn view(&self) -> MessageModel {
        match *self {
            Message::Key(key) => MessageModel::Key(key),
            Message::ContainersUpdated(list) => MessageModel::ContainersUpdated(
                container::containers_model(list@),
            ),
            Message::StatsUpdated(id, stats) => MessageModel::StatsUpdated(id@, stats),
            Message::LogLine(id, line) => MessageModel::LogLine(id@, line@),
            Message::UpdateLine(line) => MessageModel::UpdateLine(line@),
            Message::UpdateFinished { success, detail } => MessageModel::UpdateFinished {
                success,
                detail: detail@,
            },
            Message::Status(text) => MessageModel::Status(text@),
            Message::DockerError(text) => MessageModel::DockerError(text@),
        }
    }
}

/// What a list of messages holds.
pub open spec fn messages_model(list: Seq<Message>) -> Seq<MessageModel> {
    list.map_values(|m: Message| m@)
}

} // verus!
