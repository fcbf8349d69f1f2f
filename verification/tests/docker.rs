use stevedore::actor::{
    action_message, command_message, connect_error, log_output_messages, log_progress,
    output_message, split_log_text, ContainerAction, Dispatcher, StepOutcome, Task, UpdateRun,
    LOG_TAIL, POLL_INTERVAL_SECS,
};
use stevedore::container::{ComposeInfo, ContainerInfo};
use stevedore::docker::{
    compose_args, compose_info, format_ports, list_message, sorted_infos, summary_to_info,
    ContainerSummary, DockerCommand, Labels, Port, PortType,
};
use stevedore::message::Message;
use stevedore::stats::{compute_stats, network_totals, NetworkCounters, StatsInfo, StatsSample};

fn labels(pairs: &[(&str, &str)]) -> Labels {
    let mut all = Labels::new();
    for (k, v) in pairs {
        all.insert(k.to_string(), v.to_string());
    }
    all
}

#[test]
fn compose_info_parses_full_labels() {
    let labels = labels(&[
        ("com.docker.compose.project", "camino"),
        ("com.docker.compose.service", "web"),
        ("com.docker.compose.project.working_dir", "/srv/camino"),
        (
            "com.docker.compose.project.config_files",
            "/srv/camino/compose.yaml,/srv/camino/compose.override.yaml",
        ),
    ]);
    let info = compose_info(&labels).expect("should parse");
    assert_eq!(info.project, "camino");
    assert_eq!(info.service, "web");
    assert_eq!(info.working_dir.as_deref(), Some("/srv/camino"));
    assert_eq!(
        info.config_files,
        vec!["/srv/camino/compose.yaml", "/srv/camino/compose.override.yaml"]
    );
}

#[test]
fn compose_info_requires_project_and_service() {
    assert!(compose_info(&labels(&[("com.docker.compose.project", "x")])).is_none());
    assert!(compose_info(&labels(&[("com.docker.compose.service", "x")])).is_none());
    assert!(compose_info(&labels(&[("some.other.label", "x")])).is_none());
}

#[test]
fn compose_args_scopes_to_project_and_files() {
    let compose = ComposeInfo {
        project: "camino".to_string(),
        service: "web".to_string(),
        working_dir: None,
        config_files: vec!["/srv/camino/compose.yaml".to_string()],
    };
    assert_eq!(
        compose_args(&compose, &["pull", "web"]),
        vec!["compose", "-p", "camino", "-f", "/srv/camino/compose.yaml", "pull", "web"]
    );
}

#[test]
fn test_container_local_urls() {
    let mut c = ContainerInfo {
        id: "1".to_string(),
        name: "web".to_string(),
        image: "nginx".to_string(),
        state: "running".to_string(),
        status: "Up".to_string(),
        ports: "".to_string(),
        compose: None,
    };

    assert!(c.local_urls().is_empty());

    c.ports = "8080->80/tcp".to_string();
    assert_eq!(c.local_urls(), vec!["http://localhost:8080".to_string()]);

    c.ports = "8080->80/udp".to_string();
    assert!(c.local_urls().is_empty());

    c.ports = "443->443/tcp".to_string();
    assert_eq!(c.local_urls(), vec!["https://localhost:443".to_string()]);

    c.ports = "9000->9000/tcp, 53->53/udp, 80->80/tcp".to_string();
    assert_eq!(
        c.local_urls(),
        vec![
            "http://localhost:80".to_string(),
            "http://localhost:9000".to_string()
        ]
    );
}

fn with_ports(ports: &str) -> ContainerInfo {
    ContainerInfo {
        id: String::new(),
        name: String::new(),
        image: String::new(),
        state: "exited".to_string(),
        status: String::new(),
        ports: ports.to_string(),
        compose: None,
    }
}

#[test]
fn local_urls_skip_what_is_not_a_published_tcp_port() {
    assert!(with_ports("80/tcp").local_urls().is_empty());
    assert!(with_ports("->80/tcp").local_urls().is_empty());
    assert!(with_ports("http->80/tcp").local_urls().is_empty());
    assert!(with_ports("8a->80/tcp").local_urls().is_empty());
    assert!(with_ports("127.0.0.1:80->80/tcp").local_urls().is_empty());
    assert!(with_ports(",, ,").local_urls().is_empty());
    assert_eq!(
        with_ports(" 80 -> 80/tcp ,80->81/tcp,\u{a0}443->1/tcp6\u{3000}").local_urls(),
        vec!["http://localhost:80", "https://localhost:443"]
    );
    assert!(!with_ports("").is_running());
}

#[test]
fn labels_without_files_or_directory() {
    let bare = labels(&[
        ("com.docker.compose.project", "p"),
        ("com.docker.compose.service", "s"),
    ]);
    let info = compose_info(&bare).unwrap();
    assert_eq!(info.working_dir, None);
    assert!(info.config_files.is_empty());
    assert_eq!(info.target(), "p/s");

    let blank = labels(&[
        ("com.docker.compose.project", "p"),
        ("com.docker.compose.service", "s"),
        ("com.docker.compose.project.config_files", " a.yaml ,, \t,b.yaml"),
    ]);
    assert_eq!(compose_info(&blank).unwrap().config_files, vec!["a.yaml", "b.yaml"]);

    let mut twice = labels(&[("k", "v")]);
    twice.insert("k".to_string(), "w".to_string());
    assert_eq!(twice.get("k").map(|s| s.as_str()), Some("w"));
    assert!(twice.get("other").is_none());
}

fn port(public: Option<u16>, private: u16, typ: Option<PortType>) -> Port {
    Port { private_port: private, public_port: public, typ }
}

#[test]
fn port_listings_are_sorted_and_free_of_repetition() {
    let ports = [
        port(Some(8080), 80, Some(PortType::Tcp)),
        port(Some(8080), 80, Some(PortType::Tcp)),
        port(None, 443, None),
        port(Some(53), 53, Some(PortType::Udp)),
        port(Some(65535), 0, Some(PortType::Sctp)),
        port(None, 9, Some(PortType::Empty)),
    ];
    assert_eq!(
        format_ports(&ports),
        "443/tcp, 53->53/udp, 65535->0/sctp, 8080->80/tcp, 9/"
    );
    assert_eq!(format_ports(&[]), "");
}

#[test]
fn listed_addresses_are_those_of_published_tcp_ports() {
    let ports = [
        port(Some(9000), 90, None),
        port(Some(443), 443, Some(PortType::Tcp)),
        port(Some(53), 53, Some(PortType::Udp)),
        port(Some(5000), 5000, Some(PortType::Sctp)),
        port(None, 80, Some(PortType::Tcp)),
        port(Some(9000), 91, Some(PortType::Tcp)),
    ];
    assert_eq!(
        with_ports(&format_ports(&ports)).local_urls(),
        vec!["http://localhost:9000", "https://localhost:443"]
    );
}

fn summary(name: &str, id: &str) -> ContainerSummary {
    ContainerSummary {
        id: Some(id.to_string()),
        names: Some(vec![name.to_string()]),
        image: Some("img".to_string()),
        state: Some("running".to_string()),
        status: Some("Up".to_string()),
        ports: Some(vec![port(Some(1), 2, None)]),
        labels: Some(labels(&[
            ("com.docker.compose.project", "p"),
            ("com.docker.compose.service", "s"),
        ])),
    }
}

#[test]
fn summaries_become_infos() {
    let info = summary_to_info(summary("/web", "abc"));
    assert_eq!(info.id, "abc");
    assert_eq!(info.name, "web");
    assert_eq!(info.image, "img");
    assert_eq!(info.status, "Up");
    assert_eq!(info.ports, "1->2/tcp");
    assert_eq!(info.compose.as_ref().unwrap().service, "s");
    assert!(info.is_running());

    let empty = summary_to_info(ContainerSummary {
        id: None,
        names: None,
        image: None,
        state: None,
        status: None,
        ports: None,
        labels: None,
    });
    assert_eq!(empty.id, "");
    assert_eq!(empty.name, "<unnamed>");
    assert_eq!(empty.ports, "");
    assert!(empty.compose.is_none());

    let mut nameless = summary("x", "y");
    nameless.names = Some(vec![]);
    assert_eq!(summary_to_info(nameless).name, "<unnamed>");
    assert_eq!(summary_to_info(summary("//a/b", "y")).name, "a/b");
}

#[test]
fn container_lists_are_sorted_by_name_and_stable() {
    let list = vec![
        summary("/web", "1"),
        summary("/api", "2"),
        summary("/web", "3"),
        summary("/Db", "4"),
        summary("/\u{e4}", "5"),
    ];
    let sorted = sorted_infos(list);
    let ids: Vec<&str> = sorted.iter().map(|c| c.id.as_str()).collect();
    assert_eq!(ids, vec!["4", "2", "1", "3", "5"]);

    match list_message(Ok(vec![summary("/b", "1"), summary("/a", "2")])) {
        Message::ContainersUpdated(list) => assert_eq!(list[0].name, "a"),
        _ => panic!("expected a list"),
    }
    match list_message(Err("gone".to_string())) {
        Message::DockerError(text) => assert_eq!(text, "Failed to list containers: gone"),
        _ => panic!("expected an error"),
    }
}

#[test]
fn commands_are_dispatched_with_one_log_stream() {
    let mut d = Dispatcher::new();
    let stop = d.dispatch(DockerCommand::StopLogs);
    assert!(!stop.abort_logs && stop.task.is_none());

    let first = d.dispatch(DockerCommand::StreamLogs { id: "a".to_string() });
    assert!(!first.abort_logs);
    assert!(matches!(first.task, Some(Task::StreamLogs { id }) if id == "a"));
    let second = d.dispatch(DockerCommand::StreamLogs { id: "b".to_string() });
    assert!(second.abort_logs);
    assert!(matches!(second.task, Some(Task::StreamLogs { id }) if id == "b"));

    let fetch = d.dispatch(DockerCommand::FetchStats { id: "c".to_string() });
    assert!(!fetch.abort_logs && d.log_task);
    assert!(matches!(fetch.task, Some(Task::FetchStats { id }) if id == "c"));

    let start = d.dispatch(DockerCommand::Start { id: "i".to_string(), name: "n".to_string() });
    assert!(matches!(
        start.task,
        Some(Task::RunAction { action: ContainerAction::Start, id, name }) if id == "i" && name == "n"
    ));
    let halt = d.dispatch(DockerCommand::Stop { id: "i".to_string(), name: "n".to_string() });
    assert!(matches!(halt.task, Some(Task::RunAction { action: ContainerAction::Stop, .. })));
    let again = d.dispatch(DockerCommand::Restart { id: "i".to_string(), name: "n".to_string() });
    assert!(matches!(again.task, Some(Task::RunAction { action: ContainerAction::Restart, .. })));

    let update = d.dispatch(DockerCommand::ComposeUpdate {
        compose: web_compose(),
        name: "n".to_string(),
    });
    assert!(matches!(update.task, Some(Task::ComposeUpdate { name, .. }) if name == "n"));

    let end = d.dispatch(DockerCommand::StopLogs);
    assert!(end.abort_logs && end.task.is_none() && !d.log_task);
    assert_eq!((POLL_INTERVAL_SECS, LOG_TAIL), (2, 200));
}

fn web_compose() -> ComposeInfo {
    ComposeInfo {
        project: "camino".to_string(),
        service: "web".to_string(),
        working_dir: Some("/srv".to_string()),
        config_files: vec!["a.yaml".to_string(), "b.yaml".to_string()],
    }
}

fn text_of(msg: Message) -> String {
    match msg {
        Message::Status(text) => format!("status {}", text),
        Message::DockerError(text) => format!("error {}", text),
        Message::UpdateLine(text) => format!("line {}", text),
        Message::LogLine(id, text) => format!("log {} {}", id, text),
        Message::UpdateFinished { success, detail } => format!("finished {} {}", success, detail),
        _ => panic!("unexpected message"),
    }
}

fn texts_of(list: Vec<Message>) -> Vec<String> {
    list.into_iter().map(text_of).collect()
}

#[test]
fn outcomes_of_actions_are_reported() {
    assert_eq!(text_of(action_message(ContainerAction::Start, "web", Ok(()))), "status Started web");
    assert_eq!(text_of(action_message(ContainerAction::Stop, "web", Ok(()))), "status Stopped web");
    assert_eq!(
        text_of(action_message(ContainerAction::Restart, "web", Ok(()))),
        "status Restarted web"
    );
    assert_eq!(
        text_of(action_message(ContainerAction::Restart, "web", Err("no".to_string()))),
        "error Failed to restart web: no"
    );
    assert_eq!(
        text_of(action_message(ContainerAction::Start, "web", Err("no".to_string()))),
        "error Failed to start web: no"
    );
    assert_eq!(
        text_of(action_message(ContainerAction::Stop, "web", Err("no".to_string()))),
        "error Failed to stop web: no"
    );
    assert_eq!(
        text_of(connect_error("refused")),
        "error Cannot connect to Docker daemon: refused"
    );
}

#[test]
fn log_output_is_cut_into_lines() {
    assert_eq!(split_log_text("a\r\n\n\r\nb\rc\n  \n"), vec!["a", "b\rc", "  "]);
    assert!(split_log_text("").is_empty());
    assert_eq!(
        texts_of(log_output_messages("id", "gr\u{fc}n\nrot\n".as_bytes())),
        vec!["log id gr\u{fc}n", "log id rot"]
    );
    assert_eq!(
        texts_of(log_output_messages("id", b"a\xffb\n\xf0\x90")),
        vec!["log id a\u{fffd}b", "log id \u{fffd}"]
    );

    let item = log_progress("x", Ok(b"one\ntwo".to_vec()));
    assert!(!item.finished);
    assert_eq!(texts_of(item.messages), vec!["log x one", "log x two"]);
    let end = log_progress("x", Err("cut".to_string()));
    assert!(end.finished);
    assert_eq!(texts_of(end.messages), vec!["error Log stream error: cut"]);
}

#[test]
fn progress_bars_show_their_final_state() {
    assert_eq!(output_message(" 10%\r 50%\r100% done  ").map(text_of).unwrap(), "line 100% done");
    assert_eq!(output_message("plain").map(text_of).unwrap(), "line plain");
    assert!(output_message("").is_none());
    assert!(output_message("gone\r").is_none());
    assert!(output_message(" \t\u{2003}").is_none());
}

#[test]
fn updates_pull_and_then_recreate() {
    let mut run = UpdateRun::new(web_compose(), "web1".to_string());
    let pull = run.next_args().unwrap();
    assert_eq!(
        pull,
        vec!["compose", "-p", "camino", "-f", "a.yaml", "-f", "b.yaml", "pull", "web"]
    );
    assert_eq!(
        text_of(command_message(&pull)),
        "line $ docker compose -p camino -f a.yaml -f b.yaml pull web"
    );
    let progress = run.finish_step(StepOutcome::Exited { success: true, code: Some(0) });
    assert!(progress.messages.is_empty() && !progress.refresh);
    assert_eq!(
        run.next_args().unwrap(),
        vec![
            "compose", "-p", "camino", "-f", "a.yaml", "-f", "b.yaml", "up", "-d", "--build",
            "--no-deps", "web"
        ]
    );
    let progress = run.finish_step(StepOutcome::Exited { success: true, code: Some(0) });
    assert!(progress.refresh);
    assert_eq!(texts_of(progress.messages), vec!["finished true Updated web1"]);
    assert!(run.next_args().is_none());
    let after = run.finish_step(StepOutcome::NotRun("late".to_string()));
    assert!(after.messages.is_empty() && !after.refresh);
}

#[test]
fn updates_stop_at_the_first_failure() {
    let mut run = UpdateRun::new(web_compose(), "web1".to_string());
    let progress = run.finish_step(StepOutcome::Exited { success: false, code: Some(17) });
    assert!(!progress.refresh);
    assert_eq!(texts_of(progress.messages), vec!["finished false Update of web1 failed (exit 17)"]);
    assert!(run.next_args().is_none());

    let mut run = UpdateRun::new(web_compose(), "web1".to_string());
    run.finish_step(StepOutcome::Exited { success: true, code: Some(0) });
    let progress = run.finish_step(StepOutcome::Exited { success: false, code: None });
    assert!(!progress.refresh);
    assert_eq!(
        texts_of(progress.messages),
        vec!["finished false Update of web1 failed (exit signal)"]
    );

    let mut run = UpdateRun::new(web_compose(), "web1".to_string());
    let progress = run.finish_step(StepOutcome::Exited { success: false, code: Some(i32::MIN) });
    assert_eq!(
        texts_of(progress.messages),
        vec!["finished false Update of web1 failed (exit -2147483648)"]
    );

    let mut run = UpdateRun::new(web_compose(), "web1".to_string());
    let progress = run.finish_step(StepOutcome::NotRun("no docker".to_string()));
    assert_eq!(
        texts_of(progress.messages),
        vec![
            "line error: no docker",
            "finished false Update of web1 failed: could not run docker compose"
        ]
    );
}

fn sample() -> StatsSample {
    StatsSample {
        cpu_total: 300,
        cpu_total_before: 100,
        system_cpu: Some(5000),
        system_cpu_before: Some(1000),
        online_cpus: Some(4),
        mem_usage: Some(11),
        mem_limit: None,
        networks: Some(vec![
            NetworkCounters { rx_bytes: 1, tx_bytes: 10 },
            NetworkCounters { rx_bytes: 2, tx_bytes: 20 },
        ]),
    }
}

#[test]
fn samples_are_summed_up() {
    assert_eq!(
        compute_stats(&sample(), 5),
        Some(StatsInfo {
            cpu_percent_bits: 5,
            mem_usage: 11,
            mem_limit: 0,
            net_rx: 3,
            net_tx: 30,
        })
    );
    let mut bare = sample();
    bare.networks = None;
    assert_eq!(compute_stats(&bare, 0).map(|s| (s.net_rx, s.net_tx)), Some((0, 0)));
    let mut full = sample();
    full.networks = Some(vec![
        NetworkCounters { rx_bytes: u64::MAX, tx_bytes: 0 },
        NetworkCounters { rx_bytes: 1, tx_bytes: 0 },
    ]);
    assert_eq!(compute_stats(&full, 0), None);
    assert_eq!(
        network_totals(&vec![NetworkCounters { rx_bytes: u64::MAX, tx_bytes: u64::MAX }]),
        Some((u64::MAX, u64::MAX))
    );
    let stats = StatsInfo { mem_usage: 3, mem_limit: 4, ..StatsInfo::default() };
    assert_eq!(stats.memory_share(), Some((3, 4)));
    assert_eq!(StatsInfo::default().memory_share(), None);
}

fn advanced_as_doubles(s: &StatsSample) -> bool {
    let cpu = s.cpu_total as f64 - s.cpu_total_before as f64;
    let system = s.system_cpu.unwrap_or(0) as f64 - s.system_cpu_before.unwrap_or(0) as f64;
    system > 0.0 && cpu >= 0.0
}

#[test]
fn cpu_counters_are_given_where_they_advanced() {
    let terms = sample().cpu_counters().unwrap();
    assert_eq!((terms.total, terms.total_before), (300, 100));
    assert_eq!((terms.system, terms.system_before, terms.online_cpus), (5000, 1000, 4));

    let mut idle = sample();
    idle.online_cpus = Some(0);
    assert_eq!(idle.cpu_counters().unwrap().online_cpus, 1);
    idle.online_cpus = None;
    assert_eq!(idle.cpu_counters().unwrap().online_cpus, 1);

    let edge = 1u64 << 53;
    let values = [0, 1, 2, edge - 1, edge, edge + 1, edge + 2, edge + 3, u64::MAX - 1, u64::MAX];
    for a in values {
        for b in values {
            let mut s = sample();
            s.system_cpu = Some(a);
            s.system_cpu_before = Some(b);
            assert_eq!(s.cpu_counters().is_some(), advanced_as_doubles(&s));
            let mut s = sample();
            s.cpu_total = a;
            s.cpu_total_before = b;
            assert_eq!(s.cpu_counters().is_some(), advanced_as_doubles(&s));
        }
    }
    let mut unknown = sample();
    unknown.system_cpu = None;
    assert!(unknown.cpu_counters().is_none());
}
