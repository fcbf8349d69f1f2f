use ratatui::buffer::Buffer;
use ratatui::layout::Rect;
use ratatui::widgets::{Block, Borders, List, ListItem, StatefulWidget};
use stevedore::app::{App, ListState};
use stevedore::container::{ComposeInfo, ContainerInfo};
use stevedore::input::{KeyCode, KeyEvent, KeyModifiers};
use stevedore::message::Message;
use stevedore::order::{comes_before, sort_distinct};
use stevedore::paint::{Area, Color, Content, Placed, Row, Span, Widget};
use stevedore::pane::View;
use stevedore::stats::StatsInfo;
use stevedore::text::{
    decimal_text, is_blank, join_texts, pad, signed_decimal_text, split_text, text_before_first,
    trim,
};
use stevedore::ui::{
    arrange, bindings, draw, draw_panes, scroll_window, status_width, Panes, Readings,
};
use stevedore::units::{format_bytes, to_nearest_double};

#[test]
fn scroll_window_follows_tail_and_clamps() {
    // 10-row pane: 8 visible lines inside the borders
    let area = Area::new(0, 0, 80, 10);

    // Follow mode shows the last 8 of 100 lines
    let mut back = 0;
    assert_eq!(scroll_window(&mut back, 100, area), (92, 100));

    // Scrolled back 20 lines shifts the window up by 20
    let mut back = 20;
    assert_eq!(scroll_window(&mut back, 100, area), (72, 80));

    // Overshoot clamps to the top of the buffer
    let mut back = usize::MAX / 2;
    assert_eq!(scroll_window(&mut back, 100, area), (0, 8));
    assert_eq!(back, 92);

    // A buffer smaller than the pane never scrolls
    let mut back = 50;
    assert_eq!(scroll_window(&mut back, 5, area), (0, 5));
    assert_eq!(back, 0);
}

#[test]
fn format_bytes_picks_sensible_units() {
    assert_eq!(format_bytes(0), "0 B");
    assert_eq!(format_bytes(512), "512 B");
    assert_eq!(format_bytes(2048), "2.0 KiB");
    assert_eq!(format_bytes(5 * 1024 * 1024), "5.0 MiB");
    assert_eq!(format_bytes(3 * 1024 * 1024 * 1024), "3.0 GiB");
}

fn format_as_double(bytes: u64) -> String {
    let units = ["B", "KiB", "MiB", "GiB", "TiB"];
    let mut value = bytes as f64;
    let mut unit = 0;
    while value >= 1024.0 && unit < units.len() - 1 {
        value /= 1024.0;
        unit += 1;
    }
    if unit == 0 {
        format!("{} B", bytes)
    } else {
        format!("{:.1} {}", value, units[unit])
    }
}

#[test]
fn format_bytes_agrees_with_double_precision() {
    for n in 0..200_000u64 {
        assert_eq!(format_bytes(n), format_as_double(n));
    }
    let mut seed: u64 = 88172645463325252;
    for shift in 0..64u32 {
        for _ in 0..200 {
            seed ^= seed << 13;
            seed ^= seed >> 7;
            seed ^= seed << 17;
            let n = seed >> shift;
            assert_eq!(format_bytes(n), format_as_double(n));
            assert_eq!(to_nearest_double(n), (n as f64) as u128);
        }
        let p = 1u64 << shift;
        for n in [p.wrapping_sub(2), p.wrapping_sub(1), p, p.wrapping_add(1), p.wrapping_mul(3) / 2] {
            assert_eq!(format_bytes(n), format_as_double(n));
            assert_eq!(to_nearest_double(n), (n as f64) as u128);
        }
    }
    // Ties go to the even tenth.
    assert_eq!(format_bytes(2304), "2.2 KiB");
    assert_eq!(format_bytes(2816), "2.8 KiB");
    assert_eq!(format_bytes(u64::MAX), "16777216.0 TiB");
    assert_eq!(format_bytes(1023), "1023 B");
    assert_eq!(format_bytes(1048575), "1024.0 KiB");
}

#[test]
fn tiny_panes_show_nothing() {
    let mut back = 3;
    assert_eq!(scroll_window(&mut back, 10, Area::new(0, 0, 5, 1)), (7, 7));
    assert_eq!(back, 3);
    let mut back = 30;
    assert_eq!(scroll_window(&mut back, 10, Area::new(0, 0, 5, 0)), (0, 0));
    assert_eq!(back, 10);
    let mut back = 30;
    assert_eq!(scroll_window(&mut back, 0, Area::new(0, 0, 5, 9)), (0, 0));
    assert_eq!(back, 0);
}

#[test]
fn blanks_are_the_white_space_of_unicode() {
    for u in 0..=0x10ffffu32 {
        if let Some(c) = char::from_u32(u) {
            assert_eq!(is_blank(c), c.is_whitespace());
        }
    }
}

#[test]
fn text_operations_on_examples() {
    assert_eq!(trim(" \t a b\u{a0}\n"), " \t a b\u{a0}\n".trim());
    assert_eq!(trim("   "), "");
    assert_eq!(split_text("a,,b,", ','), vec!["a", "", "b", ""]);
    assert_eq!(split_text("", ','), vec![""]);
    assert_eq!(join_texts(&split_text("x;y;;", ';'), ";"), "x;y;;");
    assert_eq!(text_before_first("a->b->c", "->"), Some("a".to_string()));
    assert_eq!(text_before_first("a-b>c", "->"), None);
    assert_eq!(text_before_first("", "->"), None);
    for n in [0, 7, 10, 99, 100, 65535, u64::MAX] {
        assert_eq!(decimal_text(n), n.to_string());
    }
    for n in [0, -1, 5, i32::MIN, i32::MAX] {
        assert_eq!(signed_decimal_text(n), n.to_string());
    }
    assert_eq!(pad("CPU", 9), "CPU      ");
    assert_eq!(pad("\u{e4}", 3), "\u{e4}  ");
    assert_eq!(pad("longer than that", 9), "longer than that");
}

#[test]
fn texts_are_ordered_as_strings_are() {
    let samples = ["", "a", "ab", "b", "B", "10", "9", "\u{e4}", "z", "\u{1f600}", "\u{ffff}"];
    for a in samples {
        for b in samples {
            assert_eq!(comes_before(a, b), a < b);
        }
    }
    let list: Vec<String> = ["b", "a", "b", "", "a"].iter().map(|s| s.to_string()).collect();
    assert_eq!(sort_distinct(list), vec!["", "a", "b"]);
}

fn panes() -> Panes {
    Panes {
        header: Area::new(0, 0, 80, 1),
        title: Area::new(0, 0, 60, 1),
        status: Area::new(60, 0, 20, 1),
        left: Area::new(0, 1, 28, 10),
        right: Area::new(28, 1, 52, 10),
        footer: Area::new(0, 11, 80, 1),
    }
}

fn readings() -> Readings {
    Readings { cpu_percent: "12.34".to_string(), mem_percent: "25.0".to_string() }
}

fn spans_text(spans: &[Span]) -> String {
    spans.iter().map(|s| s.text.as_str()).collect()
}

fn row_text(row: &Row) -> String {
    match row {
        Row::Text(span) => span.text.clone(),
        Row::Spans(spans) => spans_text(spans),
    }
}

fn shown(placed: &Placed) -> Vec<String> {
    match &placed.widget {
        Widget::Paragraph { content: Content::Text(text), .. } => vec![text.clone()],
        Widget::Paragraph { content: Content::Rows(rows), .. } => rows.iter().map(row_text).collect(),
        Widget::List { items, .. } => items.iter().map(row_text).collect(),
    }
}

fn title(placed: &Placed) -> String {
    match &placed.widget {
        Widget::Paragraph { frame, .. } => frame.clone().unwrap_or_default(),
        Widget::List { title, .. } => title.clone(),
    }
}

fn container(id: &str, name: &str, state: &str, ports: &str) -> ContainerInfo {
    ContainerInfo {
        id: id.to_string(),
        name: name.to_string(),
        image: "nginx".to_string(),
        state: state.to_string(),
        status: "Up".to_string(),
        ports: ports.to_string(),
        compose: None,
    }
}

#[test]
fn an_empty_application_is_drawn_with_hints() {
    let mut app = App::new();
    let frame = draw_panes(&mut app, &panes(), &readings());
    assert_eq!(frame.len(), 5);
    assert_eq!(shown(&frame[0]), vec![""]);
    assert_eq!(shown(&frame[1]), vec![" Stevedore - Container Management"]);
    assert_eq!(frame[1].area, panes().header);
    assert_eq!(title(&frame[2]), " Containers (0) ");
    assert_eq!(shown(&frame[2]), vec!["No containers found"]);
    assert_eq!(title(&frame[3]), " Details ");
    assert_eq!(shown(&frame[3]), vec!["Select a container to see its details"]);
    assert_eq!(
        shown(&frame[4]),
        vec![
            " \u{2191}/\u{2193} j/k navigate | enter logs | s start/stop | r restart | u update | q quit"
        ]
    );
}

#[test]
fn details_of_a_running_container() {
    let mut app = App::new();
    let mut c = container("0123456789abcdef", "web", "running", "80->80/tcp, 443->443/tcp");
    c.compose = Some(ComposeInfo {
        project: "p".to_string(),
        service: "s".to_string(),
        working_dir: None,
        config_files: vec![],
    });
    let other = container("9", "db", "exited", "");
    app.update(Message::ContainersUpdated(vec![c, other]));
    let frame = draw_panes(&mut app, &panes(), &readings());
    assert_eq!(shown(&frame[2]), vec![" \u{25cf} web", " \u{25a0} db"]);
    assert!(matches!(&frame[2].widget, Widget::List { state, .. } if state.selected == Some(0)));
    assert_eq!(
        shown(&frame[3]),
        vec![
            " Name     web",
            " ID       0123456789ab",
            " Image    nginx",
            " State    running",
            " Status   Up",
            " Ports    80->80/tcp, 443->443/tcp",
            " Local URLhttp://localhost:80",
            "          https://localhost:443",
            " Compose  p/s",
            "",
            " Live Stats",
            "          collecting stats...",
        ]
    );
    let stats = StatsInfo {
        cpu_percent_bits: 0,
        mem_usage: 2048,
        mem_limit: 8192,
        net_rx: 5,
        net_tx: 1048576,
    };
    app.update(Message::StatsUpdated("0123456789abcdef".to_string(), stats));
    let frame = draw_panes(&mut app, &panes(), &readings());
    let rows = shown(&frame[3]);
    assert_eq!(rows[11], " CPU      12.34%");
    assert_eq!(rows[12], " Memory   2.0 KiB / 8.0 KiB (25.0%)");
    assert_eq!(rows[13], " Network  rx 5 B / tx 1.0 MiB");
    assert_eq!(rows.len(), 14);

    app.list_state.select(Some(1));
    let frame = draw_panes(&mut app, &panes(), &readings());
    assert!(matches!(&frame[2].widget, Widget::List { state, .. } if state.selected == Some(1)));
    let rows = shown(&frame[3]);
    assert_eq!(rows[1], " ID       9");
    assert_eq!(rows[5], " Ports    none");
    assert_eq!(rows[6], " Compose  standalone");
    assert_eq!(rows[9], "          container is not running");
}

#[test]
fn the_status_is_drawn_at_the_right() {
    let mut app = App::new();
    assert_eq!(status_width(&app), None);
    app.update(Message::DockerError("b\u{e4}d".to_string()));
    assert_eq!(status_width(&app), Some(5));
    let frame = draw_panes(&mut app, &panes(), &readings());
    assert_eq!(frame[1].area, panes().title);
    assert_eq!(frame[2].area, panes().status);
    assert_eq!(shown(&frame[2]), vec!["b\u{e4}d "]);
    match &frame[2].widget {
        Widget::Paragraph { style, align_right, frame, .. } => {
            assert!(*align_right && style.bold && frame.is_none());
            assert_eq!(style.fg, Some(Color::Amber));
            assert_eq!(style.bg, Some(Color::DockerBlue));
        }
        _ => panic!("expected a paragraph"),
    }
    app.update(Message::Status("x".repeat(65535)));
    assert_eq!(status_width(&app), Some(65535));
    app.update(Message::Status("x".repeat(65536)));
    assert_eq!(status_width(&app), Some(2));
}

#[test]
fn logs_are_drawn_through_a_window() {
    let mut app = App::new();
    app.view = View::Logs;
    let frame = draw_panes(&mut app, &panes(), &readings());
    assert_eq!(title(&frame[3]), " Logs: ? ");
    assert_eq!(shown(&frame[3]), vec!["Waiting for log output..."]);

    app.update(Message::ContainersUpdated(vec![container("1", "web", "running", "")]));
    for i in 0..20 {
        app.update(Message::LogLine("1".to_string(), format!("l{}", i)));
    }
    let frame = draw_panes(&mut app, &panes(), &readings());
    assert_eq!(title(&frame[3]), " Logs: web ");
    assert_eq!(shown(&frame[3]).len(), 8);
    assert_eq!(shown(&frame[3])[7], "l19");

    app.scroll_back = 1000;
    let frame = draw_panes(&mut app, &panes(), &readings());
    assert_eq!(app.scroll_back, 12);
    assert_eq!(title(&frame[3]), " Logs: web [scrolled back 12 lines, End to follow] ");
    assert_eq!(shown(&frame[3])[0], "l0");
    let again = draw_panes(&mut app, &panes(), &readings());
    assert_eq!(shown(&again[3]), shown(&frame[3]));
    assert_eq!(title(&again[3]), title(&frame[3]));
}

#[test]
fn update_output_marks_commands() {
    let mut app = App::new();
    app.view = View::Update;
    let frame = draw_panes(&mut app, &panes(), &readings());
    assert_eq!(title(&frame[3]), " Update: ? [done] ");
    assert_eq!(shown(&frame[3]), vec!["Starting compose update..."]);

    app.update_running = true;
    app.update_target = Some("p/s".to_string());
    app.update(Message::UpdateLine("$ docker compose".to_string()));
    app.update(Message::UpdateLine("$x".to_string()));
    let frame = draw_panes(&mut app, &panes(), &readings());
    assert_eq!(title(&frame[3]), " Update: p/s [running] ");
    match &frame[3].widget {
        Widget::Paragraph { content: Content::Rows(rows), .. } => {
            assert!(matches!(&rows[0], Row::Text(s) if s.style.bold));
            assert!(matches!(&rows[1], Row::Text(s) if !s.style.bold && s.style.fg.is_none()));
        }
        _ => panic!("expected rows"),
    }
    for i in 0..18 {
        app.update(Message::UpdateLine(format!("l{}", i)));
    }
    app.scroll_back = 2;
    let frame = draw_panes(&mut app, &panes(), &readings());
    assert_eq!(title(&frame[3]), " Update: p/s [running] [scrolled back 2 lines] ");
    assert_eq!(shown(&frame[3])[7], "l15");
}

#[test]
fn the_footer_shows_the_bindings_of_the_view() {
    let keys = |view: View| -> Vec<&str> { bindings(view).iter().map(|b| b.0).collect() };
    assert_eq!(keys(View::Details), vec!["\u{2191}/\u{2193} j/k", "enter", "s", "r", "u", "q"]);
    assert_eq!(
        keys(View::Logs),
        vec![
            "\u{2191}/\u{2193} j/k", "enter", "s", "r", "u", "pgup/pgdn", "home", "end", "esc", "q"
        ]
    );
    assert_eq!(
        keys(View::Update),
        vec![
            "\u{2191}/\u{2193} j/k", "s", "r", "u", "pgup/pgdn", "home", "end", "enter", "esc", "q"
        ]
    );
    assert_eq!(bindings(View::Logs)[0].1, "switch container");
    assert_eq!(bindings(View::Logs)[1].1, "details");
    assert_eq!(bindings(View::Update)[7], ("enter", "logs"));
    let mut app = App::new();
    app.view = View::Logs;
    let frame = draw_panes(&mut app, &panes(), &readings());
    assert_eq!(
        shown(&frame[4]),
        vec![
            " \u{2191}/\u{2193} j/k switch container | enter details | s start/stop | r restart \
             | u update | pgup/pgdn scroll | home top | end follow | esc back | q quit"
        ]
    );
    assert_eq!(Color::DockerBlue.rgb(), Some((36, 150, 237)));
    assert_eq!(Color::RunningGreen.rgb(), Some((46, 204, 113)));
    assert_eq!(Color::ExitedRed.rgb(), Some((231, 76, 60)));
    assert_eq!(Color::Amber.rgb(), Some((255, 200, 120)));
    assert_eq!(Color::Gray.rgb(), None);
}

#[test]
fn the_terminal_is_divided_into_panes() {
    let plain = arrange(Area::new(0, 0, 100, 24), None);
    assert_eq!(plain.header, Area::new(0, 0, 100, 1));
    assert_eq!(plain.title, plain.header);
    assert_eq!(plain.status, plain.header);
    assert_eq!(plain.left, Area::new(0, 1, 35, 22));
    assert_eq!(plain.right, Area::new(35, 1, 65, 22));
    assert_eq!(plain.footer, Area::new(0, 23, 100, 1));

    let split = arrange(Area::new(2, 3, 100, 24), Some(20));
    assert_eq!(split.header, Area::new(2, 3, 100, 1));
    assert_eq!(split.title, Area::new(2, 3, 80, 1));
    assert_eq!(split.status, Area::new(82, 3, 20, 1));
    assert_eq!(split.footer, Area::new(2, 26, 100, 1));
}

fn lies_inside(outer: Area, inner: Area) -> bool {
    inner.x >= outer.x
        && inner.y >= outer.y
        && inner.x + inner.width <= outer.x + outer.width
        && inner.y + inner.height <= outer.y + outer.height
}

#[test]
fn panes_stay_on_small_and_large_terminals() {
    for width in [0, 1, 2, 3, 7, 50, 99, 1000, 65535] {
        for height in [0, 1, 2, 3, 4, 31, 65535] {
            for status in [None, Some(0), Some(2), Some(60), Some(65535)] {
                let area = Area::new(0, 0, width, height);
                let panes = arrange(area, status);
                for pane in [panes.header, panes.footer, panes.left, panes.right] {
                    assert!(lies_inside(area, pane));
                }
                assert!(lies_inside(panes.header, panes.title));
                assert!(lies_inside(panes.header, panes.status));
            }
        }
    }
}

#[test]
fn drawing_arranges_the_panes() {
    let mut app = App::new();
    let area = Area::new(0, 0, 100, 24);
    let frame = draw(&mut app, area, &readings());
    assert_eq!(frame[0].area, Area::new(0, 0, 100, 1));
    assert_eq!(frame[1].area, frame[0].area);
    assert_eq!(frame[2].area, Area::new(0, 1, 35, 22));
    assert_eq!(frame[3].area, Area::new(35, 1, 65, 22));
    assert_eq!(frame[4].area, Area::new(0, 23, 100, 1));

    app.update(Message::Status("x".repeat(18)));
    let frame = draw(&mut app, area, &readings());
    assert_eq!(frame[1].area, Area::new(0, 0, 80, 1));
    assert_eq!(frame[2].area, Area::new(80, 0, 20, 1));

    // The scroll offset is clamped to the pane that came out: 22 rows, of
    // which 20 are inside the frame.
    app.view = View::Update;
    for i in 0..50 {
        app.update(Message::UpdateLine(format!("l{}", i)));
    }
    app.scroll_back = 100;
    draw(&mut app, area, &readings());
    assert_eq!(app.scroll_back, 30);
}

#[test]
fn home_and_end_lead_to_the_ends_of_the_buffer() {
    let mut app = App::new();
    app.view = View::Update;
    for i in 0..40 {
        app.update(Message::UpdateLine(format!("l{}", i)));
    }
    app.update(press(KeyCode::Home));
    let frame = draw_panes(&mut app, &panes(), &readings());
    assert_eq!(shown(&frame[3])[0], "l0");
    assert_eq!(app.scroll_back, 32);
    app.update(press(KeyCode::End));
    let frame = draw_panes(&mut app, &panes(), &readings());
    assert_eq!(shown(&frame[3])[7], "l39");
    assert_eq!(title(&frame[3]), " Update: ? [done] ");
}

fn press(code: KeyCode) -> Message {
    Message::Key(KeyEvent::new(code, KeyModifiers::empty()))
}

fn expected_panes(area: Area, status: Option<u16>) -> Panes {
    let header = Area { height: 1, ..area };
    let list = ((35 * area.width as u32 + 50) / 100) as u16;
    let body = Area { y: area.y + 1, height: area.height - 2, ..area };
    let (title, status) = match status {
        Some(width) => {
            let taken = width.min(area.width);
            let rest = area.width - taken;
            (
                Area { width: rest, ..header },
                Area { x: area.x + rest, width: taken, ..header },
            )
        }
        None => (header, header),
    };
    Panes {
        header,
        title,
        status,
        left: Area { width: list, ..body },
        right: Area { x: area.x + list, width: area.width - list, ..body },
        footer: Area { y: area.y + area.height - 1, ..header },
    }
}

#[test]
fn panes_of_terminals_of_every_size() {
    assert_eq!(expected_panes(Area::new(0, 0, 80, 24), None).left.width, 28);
    for width in 0..700 {
        for (height, status) in [(2, None), (24, Some(20)), (3, Some(width)), (80, Some(65535))] {
            for (x, y) in [(0, 0), (3, 7)] {
                let area = Area::new(x, y, width, height);
                assert_eq!(arrange(area, status), expected_panes(area, status));
            }
        }
    }
    for width in [1000, 4099, 32767, 32768, 65534, 65535] {
        for height in [2, 999, 65535] {
            for status in [None, Some(0), Some(17), Some(40000), Some(65535)] {
                let area = Area::new(0, 0, width, height);
                assert_eq!(arrange(area, status), expected_panes(area, status));
            }
        }
    }
    // An area that reaches beyond the last column is cut off there.
    let panes = arrange(Area { x: 65500, y: 0, width: 100, height: 24 }, Some(10));
    assert_eq!((panes.left.x, panes.left.width), (65500, 12));
    assert_eq!((panes.right.x, panes.right.width), (65512, 23));
    assert_eq!((panes.title.width, panes.status.x, panes.status.width), (25, 65525, 10));
}

#[test]
fn lists_show_what_the_terminal_shows() {
    for len in [1, 2, 5, 9] {
        let items: Vec<ListItem> = (0..len).map(|i| ListItem::new(format!("row {}", i))).collect();
        for (width, height) in [(0, 9), (2, 9), (3, 9), (9, 2), (9, 3), (9, 5), (9, 20)] {
            let area = Rect { x: 0, y: 0, width, height };
            for selected in [None, Some(0), Some(1), Some(4), Some(8), Some(9), Some(usize::MAX)] {
                for offset in [0, 1, 3, 8, 9, usize::MAX] {
                    let list = List::new(items.clone())
                        .block(Block::default().borders(Borders::ALL).title(" Containers "));
                    let mut rendered = ratatui::widgets::ListState::default()
                        .with_selected(selected)
                        .with_offset(offset);
                    list.render(area, &mut Buffer::empty(area), &mut rendered);

                    let mut state = ListState { selected, offset };
                    state.show(len, Area::new(0, 0, width, height));
                    assert_eq!(state.selected, rendered.selected());
                    assert_eq!(state.offset, rendered.offset());
                }
            }
        }
    }
    let mut empty = ListState { selected: Some(3), offset: 2 };
    empty.show(0, Area::new(0, 0, 9, 9));
    assert_eq!(empty, ListState { selected: Some(3), offset: 2 });
}

#[test]
fn a_row_behind_the_list_becomes_the_last_one() {
    let mut app = App::new();
    app.update(Message::ContainersUpdated(vec![container("1", "web", "exited", "")]));
    app.list_state.select(Some(5));
    let frame = draw_panes(&mut app, &panes(), &readings());
    assert_eq!(app.list_state.selected(), Some(0));
    assert!(matches!(&frame[2].widget, Widget::List { state, .. } if state.selected == Some(0)));
    assert_eq!(shown(&frame[3])[0], " Name     web");

    // Without room for the list nothing moves.
    app.list_state.select(Some(5));
    let mut narrow = panes();
    narrow.left.width = 2;
    let frame = draw_panes(&mut app, &narrow, &readings());
    assert_eq!(app.list_state.selected(), Some(5));
    assert_eq!(shown(&frame[3]), vec!["Select a container to see its details"]);
}
