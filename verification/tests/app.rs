use std::collections::VecDeque;
use std::time::{Duration, Instant};

use stevedore::app::{App, StatusMessage};
use stevedore::container::{ComposeInfo, ContainerInfo};
use stevedore::docker::DockerCommand;
use stevedore::event_loop::LoopEvent;
use stevedore::input::{KeyCode, KeyEvent, KeyModifiers};
use stevedore::message::Message;
use stevedore::model::{MAX_LOG_LINES, SCROLL_STEP};
use stevedore::pane::View;
use stevedore::stats::StatsInfo;

const SECOND: u128 = 1_000_000_000;

fn make_container(id: &str, name: &str, running: bool) -> ContainerInfo {
    ContainerInfo {
        id: id.to_string(),
        name: name.to_string(),
        image: "nginx:latest".to_string(),
        state: if running {
            "running".to_string()
        } else {
            "stopped".to_string()
        },
        status: "Up 2 hours".to_string(),
        ports: "80/tcp".to_string(),
        compose: None,
    }
}

fn press(code: KeyCode) -> Message {
    Message::Key(KeyEvent::new(code, KeyModifiers::empty()))
}

fn three_containers() -> Vec<ContainerInfo> {
    vec![
        make_container("1", "web1", true),
        make_container("2", "web2", false),
        make_container("3", "web3", true),
    ]
}

#[test]
fn test_app_initial_state() {
    let app = App::new();
    assert!(app.containers.is_empty());
    assert_eq!(app.list_state.selected(), None);
    assert_eq!(app.view, View::Details);
    assert!(app.logs.is_empty());
    assert!(app.stats.is_none());
    assert!(app.status.is_none());
    assert_eq!(app.scroll_back, 0);
    assert!(app.update_output.is_empty());
    assert!(!app.update_running);
    assert!(app.update_target.is_none());
    assert!(!app.should_quit);
}

#[test]
fn test_app_quit_keys() {
    let mut app = App::new();
    let q_key = KeyEvent::new(KeyCode::Char('q'), KeyModifiers::empty());
    app.update(Message::Key(q_key));
    assert!(app.should_quit);

    let mut app = App::new();
    let ctrl_c = KeyEvent::new(KeyCode::Char('c'), KeyModifiers::control());
    app.update(Message::Key(ctrl_c));
    assert!(app.should_quit);
}

#[test]
fn test_app_navigation_and_selection() {
    let mut rx: VecDeque<DockerCommand> = VecDeque::new();
    let mut app = App::new();

    let down_key = KeyEvent::new(KeyCode::Char('j'), KeyModifiers::empty());
    rx.extend(app.update(Message::Key(down_key)));
    assert_eq!(app.list_state.selected(), None);

    rx.extend(app.update(Message::ContainersUpdated(three_containers())));

    assert_eq!(app.list_state.selected(), Some(0));
    assert_eq!(app.selected().unwrap().id, "1");

    rx.clear();

    let down_key = KeyEvent::new(KeyCode::Char('j'), KeyModifiers::empty());
    rx.extend(app.update(Message::Key(down_key)));
    assert_eq!(app.list_state.selected(), Some(1));
    assert_eq!(app.selected().unwrap().id, "2");
    assert!(rx.pop_front().is_none());

    rx.extend(app.update(Message::Key(down_key)));
    assert_eq!(app.list_state.selected(), Some(2));
    assert_eq!(app.selected().unwrap().id, "3");
    if let Some(DockerCommand::FetchStats { id }) = rx.pop_front() {
        assert_eq!(id, "3");
    } else {
        panic!("Expected FetchStats for container 3");
    }

    rx.extend(app.update(Message::Key(down_key)));
    assert_eq!(app.list_state.selected(), Some(2));

    let up_key = KeyEvent::new(KeyCode::Char('k'), KeyModifiers::empty());
    rx.extend(app.update(Message::Key(up_key)));
    assert_eq!(app.list_state.selected(), Some(1));

    rx.extend(app.update(Message::Key(up_key)));
    assert_eq!(app.list_state.selected(), Some(0));
    if let Some(DockerCommand::FetchStats { id }) = rx.pop_front() {
        assert_eq!(id, "1");
    } else {
        panic!("Expected FetchStats for container 1");
    }

    rx.extend(app.update(Message::Key(up_key)));
    assert_eq!(app.list_state.selected(), Some(0));
}

#[test]
fn test_app_container_list_update() {
    let mut app = App::new();

    let containers = vec![
        make_container("1", "web1", true),
        make_container("2", "web2", false),
    ];
    app.update(Message::ContainersUpdated(containers));

    app.list_state.select(Some(1));

    let updated_containers = vec![
        make_container("3", "web3", true),
        make_container("2", "web2", false),
        make_container("1", "web1", true),
    ];
    app.update(Message::ContainersUpdated(updated_containers));
    assert_eq!(app.list_state.selected(), Some(1));
    assert_eq!(app.selected().unwrap().id, "2");

    let updated_containers_2 = vec![make_container("3", "web3", true)];
    app.update(Message::ContainersUpdated(updated_containers_2));
    assert_eq!(app.list_state.selected(), Some(0));
}

#[test]
fn test_app_status_expiration() {
    let mut app = App::new();

    app.update(Message::Status("Hello info".to_string()));
    assert!(app.status.is_some());
    assert_eq!(app.status.as_ref().unwrap().text, "Hello info");
    assert!(!app.status.as_ref().unwrap().is_error);

    let set = app.status_at.unwrap();
    app.expire_status(set);
    assert!(app.status.is_some());

    app.expire_status(set + 7 * SECOND);
    assert!(app.status.is_none());

    app.update(Message::DockerError("Some error".to_string()));
    assert!(app.status.is_some());
    assert!(app.status.as_ref().unwrap().is_error);

    let set = app.status_at.unwrap();
    app.expire_status(set + 7 * SECOND);
    assert!(app.status.is_some());

    app.expire_status(set + 13 * SECOND);
    assert!(app.status.is_none());
}

#[test]
fn test_app_toggle_view_logs() {
    let mut rx: VecDeque<DockerCommand> = VecDeque::new();
    let mut app = App::new();

    let enter_key = KeyEvent::new(KeyCode::Enter, KeyModifiers::empty());
    rx.extend(app.update(Message::Key(enter_key)));
    assert_eq!(app.view, View::Details);

    let containers = vec![make_container("1", "web1", true)];
    rx.extend(app.update(Message::ContainersUpdated(containers)));
    rx.clear();

    rx.extend(app.update(Message::Key(enter_key)));
    assert_eq!(app.view, View::Logs);
    if let Some(DockerCommand::StreamLogs { id }) = rx.pop_front() {
        assert_eq!(id, "1");
    } else {
        panic!("Expected StreamLogs");
    }

    rx.extend(app.update(Message::Key(enter_key)));
    assert_eq!(app.view, View::Details);
    if let Some(DockerCommand::StopLogs) = rx.pop_front() {
    } else {
        panic!("Expected StopLogs");
    }

    rx.extend(app.update(Message::Key(enter_key)));
    assert_eq!(app.view, View::Logs);
    rx.clear();

    let esc_key = KeyEvent::new(KeyCode::Esc, KeyModifiers::empty());
    rx.extend(app.update(Message::Key(esc_key)));
    assert_eq!(app.view, View::Details);
    if let Some(DockerCommand::StopLogs) = rx.pop_front() {
    } else {
        panic!("Expected StopLogs");
    }
}

#[test]
fn test_app_start_stop_restart() {
    let mut rx: VecDeque<DockerCommand> = VecDeque::new();
    let mut app = App::new();

    let containers = vec![
        make_container("1", "web1", true),
        make_container("2", "web2", false),
    ];
    rx.extend(app.update(Message::ContainersUpdated(containers)));
    rx.clear();

    let s_key = KeyEvent::new(KeyCode::Char('s'), KeyModifiers::empty());
    rx.extend(app.update(Message::Key(s_key)));
    if let Some(DockerCommand::Stop { id, name }) = rx.pop_front() {
        assert_eq!(id, "1");
        assert_eq!(name, "web1");
    } else {
        panic!("Expected DockerCommand::Stop");
    }

    let r_key = KeyEvent::new(KeyCode::Char('r'), KeyModifiers::empty());
    rx.extend(app.update(Message::Key(r_key)));
    if let Some(DockerCommand::Restart { id, name }) = rx.pop_front() {
        assert_eq!(id, "1");
        assert_eq!(name, "web1");
    } else {
        panic!("Expected DockerCommand::Restart");
    }

    app.list_state.select(Some(1));
    rx.clear();

    rx.extend(app.update(Message::Key(s_key)));
    if let Some(DockerCommand::Start { id, name }) = rx.pop_front() {
        assert_eq!(id, "2");
        assert_eq!(name, "web2");
    } else {
        panic!("Expected DockerCommand::Start");
    }
}

#[test]
fn test_app_compose_update() {
    let mut rx: VecDeque<DockerCommand> = VecDeque::new();
    let mut app = App::new();

    let compose = ComposeInfo {
        project: "proj".to_string(),
        service: "svc".to_string(),
        working_dir: None,
        config_files: vec!["compose.yaml".to_string()],
    };

    let containers = vec![
        ContainerInfo {
            id: "1".to_string(),
            name: "web1".to_string(),
            image: "nginx".to_string(),
            state: "running".to_string(),
            status: "Up".to_string(),
            ports: "".to_string(),
            compose: Some(compose.clone()),
        },
        make_container("2", "web2", true),
    ];

    rx.extend(app.update(Message::ContainersUpdated(containers)));
    rx.clear();

    let u_key = KeyEvent::new(KeyCode::Char('u'), KeyModifiers::empty());
    rx.extend(app.update(Message::Key(u_key)));
    assert_eq!(app.view, View::Update);
    assert!(app.update_running);
    assert_eq!(app.update_target, Some("proj/svc".to_string()));
    if let Some(DockerCommand::ComposeUpdate {
        compose: c_info,
        name,
    }) = rx.pop_front()
    {
        assert_eq!(c_info.project, "proj");
        assert_eq!(name, "web1");
    } else {
        panic!("Expected ComposeUpdate command");
    }

    rx.extend(app.update(Message::UpdateLine("pulling...".to_string())));
    assert_eq!(app.update_output, vec!["pulling...".to_string()]);

    rx.extend(app.update(Message::UpdateFinished {
        success: true,
        detail: "Updated successfully".to_string(),
    }));
    assert!(!app.update_running);
    assert_eq!(app.status.as_ref().unwrap().text, "Updated successfully");

    let esc_key = KeyEvent::new(KeyCode::Esc, KeyModifiers::empty());
    rx.extend(app.update(Message::Key(esc_key)));
    assert_eq!(app.view, View::Details);

    app.list_state.select(Some(1));
    rx.clear();
    rx.extend(app.update(Message::Key(u_key)));
    assert_eq!(app.view, View::Details);
    assert!(app.status.as_ref().unwrap().is_error);
}

#[test]
fn test_app_scrolling() {
    let mut app = App::new();

    app.view = View::Logs;

    let pgup = KeyEvent::new(KeyCode::PageUp, KeyModifiers::empty());
    let pgdn = KeyEvent::new(KeyCode::PageDown, KeyModifiers::empty());
    let home = KeyEvent::new(KeyCode::Home, KeyModifiers::empty());
    let end = KeyEvent::new(KeyCode::End, KeyModifiers::empty());

    app.update(Message::Key(pgup));
    assert_eq!(app.scroll_back, SCROLL_STEP);

    app.update(Message::Key(pgup));
    assert_eq!(app.scroll_back, SCROLL_STEP * 2);

    app.update(Message::Key(pgdn));
    assert_eq!(app.scroll_back, SCROLL_STEP);

    app.update(Message::Key(home));
    assert!(app.scroll_back > 1000);

    app.update(Message::Key(end));
    assert_eq!(app.scroll_back, 0);
}

#[test]
fn plain_c_and_unknown_keys_do_nothing() {
    let mut app = App::new();
    app.update(Message::ContainersUpdated(three_containers()));
    for code in [KeyCode::Char('c'), KeyCode::Char('x'), KeyCode::Char('Q'), KeyCode::Other] {
        assert!(app.update(press(code)).is_empty());
    }
    assert!(!app.should_quit);
    assert_eq!(app.list_state.selected(), Some(0));
    assert_eq!(app.view, View::Details);
    assert!(app.status.is_none());

    // Every modifier set that holds control counts.
    let all = KeyModifiers { bits: 0b11_1111 };
    app.update(Message::Key(KeyEvent::new(KeyCode::Char('c'), all)));
    assert!(app.should_quit);
}

#[test]
fn status_boundaries_are_exact() {
    let mut app = App::new();
    app.update_at(Message::Status("info".to_string()), 100);
    app.update_at(Message::ContainersUpdated(vec![]), 100 + 6 * SECOND);
    assert!(app.status.is_some());
    app.update_at(Message::ContainersUpdated(vec![]), 100 + 6 * SECOND + 1);
    assert!(app.status.is_none());
    assert_eq!(app.status_at, None);

    app.update_at(Message::DockerError("bad".to_string()), 100);
    app.update_at(Message::ContainersUpdated(vec![]), 100 + 12 * SECOND);
    assert!(app.status.is_some());
    // A reading from before the message does not drop it either.
    app.update_at(Message::ContainersUpdated(vec![]), 0);
    assert!(app.status.is_some());
    app.update_at(Message::ContainersUpdated(vec![]), 100 + 12 * SECOND + 1);
    assert!(app.status.is_none());
}

#[test]
fn statuses_are_timed_by_a_running_clock() {
    let mut app = App::new();
    app.update(Message::Status("one".to_string()));
    let first = app.status_at.unwrap();
    let begin = Instant::now();
    while begin.elapsed() < Duration::from_millis(20) {}
    app.update(Message::Status("two".to_string()));
    let second = app.status_at.unwrap();
    assert!(second - first >= 20_000_000);
    assert!(second - first < 10 * SECOND);
    assert!(first < 10 * SECOND);
}

#[test]
fn log_lines_are_capped_and_filtered() {
    let mut app = App::new();
    app.update(Message::ContainersUpdated(three_containers()));
    app.update(Message::LogLine("1".to_string(), "early".to_string()));
    assert!(app.logs.is_empty());

    app.update(press(KeyCode::Enter));
    assert_eq!(app.status.as_ref().unwrap().text, "Streaming logs for web1");
    app.update(Message::LogLine("2".to_string(), "other".to_string()));
    assert!(app.logs.is_empty());
    for i in 0..MAX_LOG_LINES + 5 {
        app.update(Message::LogLine("1".to_string(), format!("line {}", i)));
    }
    assert_eq!(app.logs.len(), MAX_LOG_LINES);
    assert_eq!(app.logs[0], "line 5");
    assert_eq!(app.logs[MAX_LOG_LINES - 1], "line 2004");
}

#[test]
fn update_output_is_capped() {
    let mut app = App::new();
    for i in 0..MAX_LOG_LINES + 1 {
        app.update(Message::UpdateLine(format!("line {}", i)));
    }
    assert_eq!(app.update_output.len(), 2000);
    assert_eq!(app.update_output[0], "line 1");
}

#[test]
fn moving_in_the_log_view_follows_with_a_fresh_stream() {
    let mut app = App::new();
    app.update(Message::ContainersUpdated(three_containers()));
    app.update(press(KeyCode::Enter));
    app.update(Message::LogLine("1".to_string(), "x".to_string()));
    app.update(press(KeyCode::PageUp));
    let commands = app.update(press(KeyCode::Down));
    assert!(app.logs.is_empty());
    assert_eq!(app.scroll_back, 0);
    assert_eq!(app.view, View::Logs);
    assert_eq!(commands.len(), 1);
    assert!(matches!(&commands[0], DockerCommand::StreamLogs { id } if id == "2"));
}

#[test]
fn stats_belong_to_the_selected_container() {
    let mut app = App::new();
    app.update(Message::ContainersUpdated(three_containers()));
    let stats = StatsInfo { mem_usage: 7, ..StatsInfo::default() };
    app.update(Message::StatsUpdated("3".to_string(), stats));
    assert!(app.stats.is_none());
    app.update(Message::StatsUpdated("1".to_string(), stats));
    assert_eq!(app.stats, Some(stats));
    app.update(press(KeyCode::Char('j')));
    assert!(app.stats.is_none());
}

#[test]
fn a_second_update_shows_the_first() {
    let mut app = App::new();
    let mut container = make_container("1", "web1", true);
    container.compose = Some(ComposeInfo {
        project: "p".to_string(),
        service: "s".to_string(),
        working_dir: None,
        config_files: vec![],
    });
    app.update(Message::ContainersUpdated(vec![container]));
    assert_eq!(app.update(press(KeyCode::Char('u'))).len(), 1);
    assert_eq!(app.status.as_ref().unwrap().text, "Compose Update triggered for web1");
    app.update(Message::UpdateLine("out".to_string()));
    let commands = app.update(press(KeyCode::Esc));
    assert!(matches!(&commands[0], DockerCommand::FetchStats { id } if id == "1"));
    assert!(app.update_running);
    assert_eq!(app.update_output, vec!["out".to_string()]);

    assert!(app.update(press(KeyCode::Char('u'))).is_empty());
    assert_eq!(app.view, View::Update);
    assert_eq!(app.status.as_ref().unwrap().text, "An update is already in progress");
    assert_eq!(app.update_output, vec!["out".to_string()]);

    app.update(Message::UpdateFinished { success: false, detail: "failed".to_string() });
    assert!(!app.update_running);
    assert!(app.status.as_ref().unwrap().is_error);
}

#[test]
fn updates_need_compose() {
    let mut app = App::new();
    app.update(Message::ContainersUpdated(three_containers()));
    assert!(app.update(press(KeyCode::Char('u'))).is_empty());
    assert_eq!(
        app.status.as_ref().unwrap().text,
        "web1 is not managed by Compose: update unavailable"
    );
    assert!(app.status.as_ref().unwrap().is_error);
}

#[test]
fn action_statuses_name_the_container() {
    let mut app = App::new();
    app.update(Message::ContainersUpdated(three_containers()));
    app.update(press(KeyCode::Char('s')));
    assert_eq!(app.status.as_ref().unwrap().text, "Stopping web1...");
    app.update(press(KeyCode::Char('r')));
    assert_eq!(app.status.as_ref().unwrap().text, "Restarting web1...");
    app.update(press(KeyCode::Down));
    app.update(press(KeyCode::Char('s')));
    assert_eq!(app.status.as_ref().unwrap().text, "Starting web2...");
}

#[test]
fn a_lost_selection_is_clamped() {
    let mut app = App::new();
    app.update(Message::ContainersUpdated(three_containers()));
    app.list_state.select(Some(2));
    app.update(Message::ContainersUpdated(vec![
        make_container("7", "a", false),
        make_container("8", "b", false),
    ]));
    assert_eq!(app.list_state.selected(), Some(1));
    app.list_state.offset = 1;
    app.update(Message::ContainersUpdated(vec![]));
    assert_eq!(app.list_state.selected(), None);
    assert_eq!(app.list_state.offset, 0);
    assert!(app.selected().is_none());
}

#[test]
fn indices_outside_the_list_are_tolerated() {
    let mut app = App::new();
    app.update(Message::ContainersUpdated(three_containers()));
    app.list_state.select(Some(9));
    assert!(app.selected().is_none());
    app.update(press(KeyCode::Up));
    assert_eq!(app.list_state.selected(), Some(2));
    app.list_state.select(Some(usize::MAX));
    app.update(press(KeyCode::Down));
    assert_eq!(app.list_state.selected(), Some(0));
    app.list_state.select(None);
    app.update(press(KeyCode::Down));
    assert_eq!(app.list_state.selected(), Some(1));
}

#[test]
fn details_do_not_scroll_back() {
    let mut app = App::new();
    app.update(press(KeyCode::PageUp));
    app.update(press(KeyCode::Home));
    assert_eq!(app.scroll_back, 0);
    app.view = View::Update;
    app.update(press(KeyCode::Home));
    assert_eq!(app.scroll_back, usize::MAX / 2);
    app.update(press(KeyCode::Home));
    app.update(press(KeyCode::Home));
    assert_eq!(app.scroll_back, usize::MAX);
    app.update(press(KeyCode::PageDown));
    assert_eq!(app.scroll_back, usize::MAX - 10);
}

#[test]
fn the_event_loop_ends_on_quit_and_on_closed_sources() {
    let mut app = App::new();
    let q = KeyEvent::new(KeyCode::Char('q'), KeyModifiers::empty());
    assert!(app.handle_event(LoopEvent::OtherInput).keep_running);
    assert!(app.handle_event(LoopEvent::Key { key: q, pressed: false }).keep_running);
    assert!(!app.should_quit);

    let turn = app.handle_event(LoopEvent::Message(Message::ContainersUpdated(three_containers())));
    assert!(turn.keep_running);
    assert_eq!(turn.commands.len(), 1);

    assert!(app.handle_event(LoopEvent::InputError("broken".to_string())).keep_running);
    assert_eq!(app.status.as_ref().unwrap().text, "Input error: broken");
    assert!(app.status.as_ref().unwrap().is_error);

    assert!(!app.handle_event(LoopEvent::InputClosed).keep_running);
    assert!(!app.handle_event(LoopEvent::MessagesClosed).keep_running);
    assert!(!app.handle_event(LoopEvent::Key { key: q, pressed: true }).keep_running);
    assert!(app.should_quit);
}

#[test]
fn actions_without_a_selection_do_nothing() {
    let mut app = App::new();
    for code in [KeyCode::Enter, KeyCode::Char('s'), KeyCode::Char('r'), KeyCode::Char('u')] {
        assert!(app.update(press(code)).is_empty());
        assert_eq!(app.view, View::Details);
        assert!(app.status.is_none());
    }
}

#[test]
fn the_same_list_again_keeps_the_row() {
    let mut app = App::new();
    app.update(Message::ContainersUpdated(three_containers()));
    app.update(press(KeyCode::Down));
    for _ in 0..3 {
        app.update(Message::ContainersUpdated(three_containers()));
        assert_eq!(app.list_state.selected(), Some(1));
    }
}

#[test]
fn the_log_stream_follows_the_selection() {
    let mut app = App::new();
    let mut target: Option<String> = None;
    let messages = vec![
        Message::ContainersUpdated(three_containers()),
        press(KeyCode::Enter),
        press(KeyCode::Down),
        Message::LogLine("1".to_string(), "late".to_string()),
        Message::LogLine("2".to_string(), "fresh".to_string()),
        Message::ContainersUpdated(vec![
            make_container("2", "web2", true),
            make_container("9", "web9", true),
        ]),
        Message::LogLine("2".to_string(), "more".to_string()),
    ];
    for message in messages {
        for command in app.update(message) {
            match command {
                DockerCommand::StreamLogs { id } => target = Some(id),
                DockerCommand::StopLogs => target = None,
                _ => {}
            }
        }
        if app.view == View::Logs {
            assert_eq!(target.as_ref(), app.selected().map(|c| &c.id));
        }
    }
    assert_eq!(app.logs, vec!["fresh", "more"]);
    assert_eq!(target, Some("2".to_string()));
    assert!(matches!(app.update(press(KeyCode::Esc))[0], DockerCommand::StopLogs));
}

#[test]
fn status_messages_are_made_of_strings_and_slices() {
    let info = StatusMessage::info("slice");
    assert_eq!((info.text.as_str(), info.is_error), ("slice", false));
    let info = StatusMessage::info("string".to_string());
    assert_eq!((info.text.as_str(), info.is_error), ("string", false));
    let error = StatusMessage::error("slice");
    assert_eq!((error.text.as_str(), error.is_error), ("slice", true));
    let error = StatusMessage::error("string".to_string());
    assert_eq!((error.text.as_str(), error.is_error), ("string", true));
}

#[test]
fn scrolling_comes_back_by_any_number_of_lines() {
    let mut app = App::new();
    app.view = View::Logs;
    for lines in [0, 1, 9, 1000, usize::MAX - 5] {
        app.scroll_back = 5;
        app.scroll_up(lines);
        assert_eq!(app.scroll_back, 5 + lines);
        app.scroll_down(lines);
        assert_eq!(app.scroll_back, 5);
        if lines >= 5 {
            app.scroll_down(lines);
            assert_eq!(app.scroll_back, 0);
        }
    }
    app.scroll_back = 5;
    app.scroll_up(usize::MAX);
    assert_eq!(app.scroll_back, usize::MAX);
}
