//! View: pure rendering of the model. Beyond the clamping of the scroll
//! offset, and what the container list needs to have its selected row in
//! sight, nothing of the model changes.
use vstd::prelude::*;

use crate::app::{App, ListState};
use crate::container;
use crate::container::{ContainerInfo, ContainerModel};
use crate::input::{KeyCode, KeyEvent};
use crate::layout;
use crate::layout::{Constraint, Direction};
use crate::message::MessageModel;
use crate::model::{AppModel, MAX_LOG_LINES};
use crate::paint;
use crate::paint::{
    Area, Color, Content, ContentModel, Placed, PlacedModel, Row, RowModel, Span, SpanModel, Style,
    Widget, WidgetModel,
};
use crate::pane;
use crate::stats::StatsInfo;
use crate::text;
use crate::units;

verus! {

// ---------------------------------------------------------------------
// The scroll window
// ---------------------------------------------------------------------

/// The number of lines inside the frame of a pane.
pub open spec fn visible_lines(area: Area) -> int {
    if area.height < 2 {
        0
    } else {
        area.height - 2
    }
}

/// The scroll offset, brought into the range in which the pane stays full.
pub open spec fn clamped_back(back: int, len: int, area: Area) -> int {
    let max_back = if len < visible_lines(area) {
        0
    } else {
        len - visible_lines(area)
    };
    if back > max_back {
        max_back
    } else {
        back
    }
}

/// The end of the visible part of a buffer.
pub open spec fn window_end(back: int, len: int, area: Area) -> int {
    len - clamped_back(back, len, area)
}

/// The start of the visible part of a buffer.
pub open spec fn window_start(back: int, len: int, area: Area) -> int {
    let end = window_end(back, len, area);
    if end < visible_lines(area) {
        0
    } else {
        end - visible_lines(area)
    }
}

/// Clamp the scroll offset to the buffer and return the visible slice
/// bounds. Offset zero follows the tail; larger offsets walk back in time.
pub fn scroll_window(scroll_back: &mut usize, len: usize, area: Area) -> (r: (usize, usize))
    ensures
        *final(scroll_back) == clamped_back(*old(scroll_back) as int, len as int, area),
        r.0 == window_start(*old(scroll_back) as int, len as int, area),
        r.1 == window_end(*old(scroll_back) as int, len as int, area),
{
    let visible: usize = area.height.saturating_sub(2) as usize;
    let max_back: usize = len.saturating_sub(visible);
    if *scroll_back > max_back {
        *scroll_back = max_back;
    }
    let end: usize = len - *scroll_back;
    (end.saturating_sub(visible), end)
}

// ---------------------------------------------------------------------
// The frame, in the abstract
// ---------------------------------------------------------------------

/// Where the parts of a frame go. The header is split into title and status
/// only while there is a status to show; otherwise both are the header.
#[derive(Debug, Clone, Copy, PartialEq, Eq, Structural)]
pub struct Panes {
    pub header: Area,
    pub title: Area,
    pub status: Area,
    pub left: Area,
    pub right: Area,
    pub footer: Area,
}

/// The sizes of header, body and footer.
pub open spec fn row_sizes() -> Seq<Constraint> {
    seq![Constraint::Length(1), Constraint::Min(0), Constraint::Length(1)]
}

/// The sizes of the container list and the right pane.
pub open spec fn column_sizes() -> Seq<Constraint> {
    seq![Constraint::Percentage(35), Constraint::Percentage(65)]
}

/// The sizes of title and status.
pub open spec fn header_sizes(status_width: u16) -> Seq<Constraint> {
    seq![Constraint::Min(0), Constraint::Length(status_width)]
}

/// The panes are what the terminal was divided into: first into `rows`, the
/// middle one of them into `columns`, and the first one into `parts`.
pub open spec fn made_of(
    area: Area,
    status_width: Option<u16>,
    rows: Seq<Area>,
    columns: Seq<Area>,
    parts: Seq<Area>,
    panes: Panes,
) -> bool {
    &&& layout::is_split(Direction::Vertical, row_sizes(), area, rows)
    &&& layout::is_split(Direction::Horizontal, column_sizes(), rows[1], columns)
    &&& match status_width {
        Some(width) => layout::is_split(
            Direction::Horizontal,
            header_sizes(width),
            rows[0],
            parts,
        ),
        None => parts == seq![rows[0], rows[0]],
    }
    &&& panes == Panes {
        header: rows[0],
        title: parts[0],
        status: parts[1],
        left: columns[0],
        right: columns[1],
        footer: rows[2],
    }
}

/// The panes are an arrangement for a terminal of this area.
pub open spec fn is_arrangement(area: Area, status_width: Option<u16>, panes: Panes) -> bool {
    exists|rows: Seq<Area>, columns: Seq<Area>, parts: Seq<Area>| #[trigger]
        made_of(area, status_width, rows, columns, parts, panes)
}

/// The panes of a terminal with at least two rows: one row of header, one row
/// of footer, and between them the container list, with 35% of the columns,
/// beside the right pane. The status stands at the right of the header, as
/// wide as it asks for or as the terminal is.
pub open spec fn standard_panes(area: Area, status_width: Option<u16>) -> Panes {
    let columns = layout::room_along(Direction::Horizontal, area);
    let rows = layout::room_along(Direction::Vertical, area);
    let list = layout::share(35, columns);
    let header = Area { x: area.x, y: area.y, width: area.width, height: 1 };
    let (title, status) = match status_width {
        Some(width) => {
            let taken = layout::at_most(width as int, columns);
            (
                Area { width: (columns - taken) as u16, ..header },
                Area { x: (area.x + columns - taken) as u16, width: taken as u16, ..header },
            )
        },
        None => (header, header),
    };
    Panes {
        header,
        title,
        status,
        left: Area {
            x: area.x,
            y: (area.y + 1) as u16,
            width: list as u16,
            height: (rows - 2) as u16,
        },
        right: Area {
            x: (area.x + list) as u16,
            y: (area.y + 1) as u16,
            width: (columns - list) as u16,
            height: (rows - 2) as u16,
        },
        footer: Area { y: (area.y + rows - 1) as u16, ..header },
    }
}

/// The percentages in the details, as decimal numbers: that of the CPU with
/// two decimals, that of the memory with one.
#[derive(Debug)]
pub struct Readings {
    pub cpu_percent: String,
    pub mem_percent: String,
}

/// What `Readings` hold.
pub struct ReadingsModel {
    pub cpu_percent: Seq<char>,
    pub mem_percent: Seq<char>,
}

impl View for Readings {
    type V = ReadingsModel;

    open spec fn view(&self) -> ReadingsModel {
        ReadingsModel { cpu_percent: self.cpu_percent@, mem_percent: self.mem_percent@ }
    }
}

/// The style of the header bar.
pub open spec fn header_style() -> Style {
    Style { fg: Some(Color::White), bg: Some(Color::DockerBlue), bold: false, underlined: false }
}

/// The style of the title in it, and of the selected row.
pub open spec fn title_style() -> Style {
    Style { bold: true, ..header_style() }
}

/// The style of the status in it.
pub open spec fn status_style(is_error: bool) -> Style {
    if is_error {
        Style { fg: Some(Color::Amber), bold: true, ..header_style() }
    } else {
        header_style()
    }
}

/// A text without a frame.
pub open spec fn bar(area: Area, text: Seq<char>, style: Style, align_right: bool) -> PlacedModel {
    PlacedModel {
        area,
        widget: WidgetModel::Paragraph {
            content: ContentModel::Text(text),
            style,
            align_right,
            frame: None,
        },
    }
}

/// A row with a label and a value.
pub open spec fn labelled(label: Seq<char>, value: SpanModel) -> RowModel {
    RowModel::Spans(
        seq![paint::styled(" "@ + text::padded(label, 9), Style::colored(Color::Gray)), value],
    )
}

/// The colour that tells running containers from others.
pub open spec fn state_color(c: ContainerModel) -> Color {
    if c.running() {
        Color::RunningGreen
    } else {
        Color::ExitedRed
    }
}

/// The row of a container in the list.
pub open spec fn item_row(c: ContainerModel) -> RowModel {
    let icon = if c.running() {
        "●"@
    } else {
        "■"@
    };
    RowModel::Spans(
        seq![
            paint::styled(" "@ + icon + " "@, Style::colored(state_color(c))),
            paint::raw(c.name),
        ],
    )
}

/// The rows of the container list.
pub open spec fn item_rows(list: Seq<ContainerModel>) -> Seq<RowModel> {
    list.map_values(|c: ContainerModel| item_row(c))
}

/// The first characters of an id.
pub open spec fn short_id(id: Seq<char>) -> Seq<char> {
    if id.len() > 12 {
        id.take(12)
    } else {
        id
    }
}

/// The row of an address; the first one carries the label.
pub open spec fn url_row(url: Seq<char>, i: int) -> RowModel {
    labelled(
        if i == 0 {
            "Local URL"@
        } else {
            ""@
        },
        paint::styled(
            url,
            Style { fg: Some(Color::DockerBlue), bg: None, bold: false, underlined: true },
        ),
    )
}

/// The rows of some addresses.
pub open spec fn url_rows(urls: Seq<Seq<char>>) -> Seq<RowModel> {
    urls.map(|i: int, url: Seq<char>| url_row(url, i))
}

/// A remark in place of a value.
pub open spec fn remark(text: Seq<char>) -> SpanModel {
    paint::styled(text, Style::colored(Color::DarkGray))
}

/// The rows about what a container is.
pub open spec fn identity_rows(c: ContainerModel) -> Seq<RowModel> {
    seq![
        labelled("Name"@, paint::raw(c.name)),
        labelled("ID"@, paint::raw(short_id(c.id))),
        labelled("Image"@, paint::raw(c.image)),
        labelled("State"@, paint::styled(c.state, Style::strong(state_color(c)))),
        labelled("Status"@, paint::raw(c.status)),
        labelled(
            "Ports"@,
            if c.ports.len() == 0 {
                remark("none"@)
            } else {
                paint::raw(c.ports)
            },
        ),
    ]
}

/// The rows about the stack of a container, and the heading of its
/// statistics.
pub open spec fn compose_rows(c: ContainerModel) -> Seq<RowModel> {
    seq![
        labelled(
            "Compose"@,
            match c.compose {
                Some(compose) => paint::raw(compose.target()),
                None => remark("standalone"@),
            },
        ),
        RowModel::Spans(Seq::empty()),
        RowModel::Spans(seq![paint::styled(" Live Stats"@, Style::strong(Color::DockerBlue))]),
    ]
}

/// The memory usage as it is shown.
pub open spec fn memory_shown(stats: StatsInfo, readings: ReadingsModel) -> Seq<char> {
    units::bytes_shown(stats.mem_usage as nat) + " / "@ + units::bytes_shown(
        stats.mem_limit as nat,
    ) + " ("@ + readings.mem_percent + "%)"@
}

/// The network usage as it is shown.
pub open spec fn network_shown(stats: StatsInfo) -> Seq<char> {
    "rx "@ + units::bytes_shown(stats.net_rx as nat) + " / tx "@ + units::bytes_shown(
        stats.net_tx as nat,
    )
}

/// The rows about the resources that a container uses.
pub open spec fn stats_rows(
    c: ContainerModel,
    stats: Option<StatsInfo>,
    readings: ReadingsModel,
) -> Seq<RowModel> {
    if !c.running() {
        seq![labelled(""@, remark("container is not running"@))]
    } else {
        match stats {
            Some(stats) => seq![
                labelled("CPU"@, paint::raw(readings.cpu_percent + "%"@)),
                labelled("Memory"@, paint::raw(memory_shown(stats, readings))),
                labelled("Network"@, paint::raw(network_shown(stats))),
            ],
            None => seq![labelled(""@, remark("collecting stats..."@))],
        }
    }
}

/// The rows of the details of a container.
pub open spec fn detail_rows(
    c: ContainerModel,
    stats: Option<StatsInfo>,
    readings: ReadingsModel,
) -> Seq<RowModel> {
    identity_rows(c) + url_rows(container::listed_urls(c.ports)) + compose_rows(c) + stats_rows(
        c,
        stats,
        readings,
    )
}

/// The row of a log line.
pub open spec fn log_row(line: Seq<char>) -> RowModel {
    RowModel::Text(paint::raw(line))
}

/// The rows of some log lines.
pub open spec fn log_rows(lines: Seq<Seq<char>>) -> Seq<RowModel> {
    lines.map_values(|line: Seq<char>| log_row(line))
}

/// The row of a line of update output; commands stand out.
pub open spec fn output_row(line: Seq<char>) -> RowModel {
    if "$ "@.is_prefix_of(line) {
        RowModel::Text(paint::styled(line, Style::strong(Color::DockerBlue)))
    } else {
        RowModel::Text(paint::raw(line))
    }
}

/// The rows of some update output.
pub open spec fn output_rows(lines: Seq<Seq<char>>) -> Seq<RowModel> {
    lines.map_values(|line: Seq<char>| output_row(line))
}

/// The key bindings that apply in a view: all of them.
pub open spec fn bindings_of(view: pane::View) -> Seq<(Seq<char>, Seq<char>)> {
    match view {
        pane::View::Details => seq![
            ("↑/↓ j/k"@, "navigate"@),
            ("enter"@, "logs"@),
            ("s"@, "start/stop"@),
            ("r"@, "restart"@),
            ("u"@, "update"@),
            ("q"@, "quit"@),
        ],
        pane::View::Logs => seq![
            ("↑/↓ j/k"@, "switch container"@),
            ("enter"@, "details"@),
            ("s"@, "start/stop"@),
            ("r"@, "restart"@),
            ("u"@, "update"@),
            ("pgup/pgdn"@, "scroll"@),
            ("home"@, "top"@),
            ("end"@, "follow"@),
            ("esc"@, "back"@),
            ("q"@, "quit"@),
        ],
        pane::View::Update => seq![
            ("↑/↓ j/k"@, "navigate"@),
            ("s"@, "start/stop"@),
            ("r"@, "restart"@),
            ("u"@, "update"@),
            ("pgup/pgdn"@, "scroll"@),
            ("home"@, "top"@),
            ("end"@, "follow"@),
            ("enter"@, "logs"@),
            ("esc"@, "back"@),
            ("q"@, "quit"@),
        ],
    }
}

/// The spans that show some key bindings.
pub open spec fn binding_spans(bindings: Seq<(Seq<char>, Seq<char>)>) -> Seq<SpanModel>
    decreases bindings.len(),
{
    if bindings.len() == 0 {
        seq![paint::raw(" "@)]
    } else {
        let before = binding_spans(bindings.drop_last());
        let separated = if bindings.len() > 1 {
            before.push(paint::styled(" | "@, Style::colored(Color::DarkGray)))
        } else {
            before
        };
        separated + seq![
            paint::styled(bindings.last().0, Style::strong(Color::DockerBlue)),
            paint::raw(" "@),
            paint::styled(bindings.last().1, Style::colored(Color::Gray)),
        ]
    }
}

impl AppModel {
    /// The width that the status takes in the header, if there is one.
    pub open spec fn status_width(self) -> Option<u16> {
        match self.status {
            Some(status) => Some(width_needed(status.text) as u16),
            None => None,
        }
    }

    /// The header bar.
    pub open spec fn header(self, panes: Panes) -> Seq<PlacedModel> {
        let title = " Stevedore - Container Management"@;
        let fill = bar(panes.header, ""@, header_style(), false);
        match self.status {
            Some(status) => seq![
                fill,
                bar(panes.title, title, title_style(), false),
                bar(panes.status, status.text + " "@, status_style(status.is_error), true),
            ],
            None => seq![fill, bar(panes.header, title, title_style(), false)],
        }
    }

    /// The container list.
    pub open spec fn listing(self, area: Area) -> PlacedModel {
        let title = " Containers ("@ + text::decimal(self.containers.len()) + ") "@;
        if self.containers.len() == 0 {
            paint::framed_hint(area, title, "No containers found"@)
        } else {
            PlacedModel {
                area,
                widget: WidgetModel::List {
                    items: item_rows(self.containers),
                    state: self.list_state,
                    highlight: title_style(),
                    title,
                },
            }
        }
    }

    /// The details of the selected container.
    pub open spec fn details(self, area: Area, readings: ReadingsModel) -> PlacedModel {
        match self.current() {
            Some(c) => paint::framed_rows(
                area,
                " Details "@,
                detail_rows(c, self.stats, readings),
            ),
            None => paint::framed_hint(
                area,
                " Details "@,
                "Select a container to see its details"@,
            ),
        }
    }

    /// The logs of the selected container.
    pub open spec fn log_pane(self, area: Area) -> PlacedModel {
        let name = match self.current() {
            Some(c) => c.name,
            None => "?"@,
        };
        let len = self.logs.len() as int;
        let back = clamped_back(self.scroll_back as int, len, area);
        if len == 0 {
            paint::framed_hint(area, " Logs: "@ + name + " "@, "Waiting for log output..."@)
        } else {
            let title = if back > 0 {
                " Logs: "@ + name + " [scrolled back "@ + text::decimal(back as nat)
                    + " lines, End to follow] "@
            } else {
                " Logs: "@ + name + " "@
            };
            paint::framed_rows(
                area,
                title,
                log_rows(
                    self.logs.subrange(
                        window_start(self.scroll_back as int, len, area),
                        window_end(self.scroll_back as int, len, area),
                    ),
                ),
            )
        }
    }

    /// The output of the update.
    pub open spec fn update_pane(self, area: Area) -> PlacedModel {
        let target = match self.update_target {
            Some(target) => target,
            None => "?"@,
        };
        let state = if self.update_running {
            "running"@
        } else {
            "done"@
        };
        let head = " Update: "@ + target + " ["@ + state + "] "@;
        let len = self.update_output.len() as int;
        let back = clamped_back(self.scroll_back as int, len, area);
        if len == 0 {
            paint::framed_hint(area, head, "Starting compose update..."@)
        } else {
            let title = if back > 0 {
                head + "[scrolled back "@ + text::decimal(back as nat) + " lines] "@
            } else {
                head
            };
            paint::framed_rows(
                area,
                title,
                output_rows(
                    self.update_output.subrange(
                        window_start(self.scroll_back as int, len, area),
                        window_end(self.scroll_back as int, len, area),
                    ),
                ),
            )
        }
    }

    /// The key bindings that apply in the current view.
    pub open spec fn footer(self, area: Area) -> PlacedModel {
        PlacedModel {
            area,
            widget: WidgetModel::Paragraph {
                content: ContentModel::Rows(
                    seq![RowModel::Spans(binding_spans(bindings_of(self.view)))],
                ),
                style: Style::base(),
                align_right: false,
                frame: None,
            },
        }
    }

    /// The right pane.
    pub open spec fn right_pane(self, area: Area, readings: ReadingsModel) -> PlacedModel {
        match self.view {
            pane::View::Details => self.details(area, readings),
            pane::View::Logs => self.log_pane(area),
            pane::View::Update => self.update_pane(area),
        }
    }

    /// The state once the container list is shown.
    pub open spec fn once_listed(self, area: Area) -> AppModel {
        AppModel {
            list_state: self.list_state.shown_in(self.containers.len() as int, area),
            ..self
        }
    }

    /// The state once the right pane is shown: the scroll offset is clamped
    /// to the buffer that it shows.
    pub open spec fn once_scrolled(self, area: Area) -> AppModel {
        let len = match self.view {
            pane::View::Details => 0,
            pane::View::Logs => self.logs.len() as int,
            pane::View::Update => self.update_output.len() as int,
        };
        if len == 0 {
            self
        } else {
            AppModel {
                scroll_back: clamped_back(self.scroll_back as int, len, area) as usize,
                ..self
            }
        }
    }

    /// A whole frame. The container list comes first: the right pane shows
    /// the container that is selected once the list is shown.
    pub open spec fn frame(self, panes: Panes, readings: ReadingsModel) -> Seq<PlacedModel> {
        let listed = self.once_listed(panes.left);
        listed.header(panes) + seq![
            listed.listing(panes.left),
            listed.right_pane(panes.right, readings),
            listed.footer(panes.footer),
        ]
    }

    /// The state once a frame is drawn.
    pub open spec fn once_drawn(self, panes: Panes) -> AppModel {
        self.once_listed(panes.left).once_scrolled(panes.right)
    }
}

// ---------------------------------------------------------------------
// Drawing
// ---------------------------------------------------------------------

/// The number of characters of a text and a margin of two, as a width on the
/// terminal. A count beyond sixteen bits keeps its lower bits.
pub open spec fn width_needed(text: Seq<char>) -> int {
    let low = text.len() as int % 0x1_0000;
    if low + 2 > 0xffff {
        0xffff
    } else {
        low + 2
    }
}

/// The width that the status takes in the header, if there is one.
pub fn status_width(app: &App) -> (r: Option<u16>)
    ensures
        r == app@.status_width(),
{
    match &app.status {
        Some(status) => {
            let low: u16 = (status.text.as_str().unicode_len() % 0x1_0000) as u16;
            Some(low.saturating_add(2))
        },
        None => None,
    }
}

/// Arranges the panes on a terminal of this area.
pub fn arrange(area: Area, status_width: Option<u16>) -> (r: Panes)
    ensures
        is_arrangement(area, status_width, r),
        layout::room_along(Direction::Vertical, area) >= 2 ==> r == standard_panes(
            area,
            status_width,
        ),
{
    let row_rules = [Constraint::Length(1), Constraint::Min(0), Constraint::Length(1)];
    assert(row_rules@ =~= row_sizes());
    let rows = layout::split_area(Direction::Vertical, &row_rules, area);
    let column_rules = [Constraint::Percentage(35), Constraint::Percentage(65)];
    assert(column_rules@ =~= column_sizes());
    let columns = layout::split_area(Direction::Horizontal, &column_rules, rows[1]);
    let parts = match status_width {
        Some(width) => {
            let header_rules = [Constraint::Min(0), Constraint::Length(width)];
            assert(header_rules@ =~= header_sizes(width));
            layout::split_area(Direction::Horizontal, &header_rules, rows[0])
        },
        None => vec![rows[0], rows[0]],
    };
    let panes = Panes {
        header: rows[0],
        title: parts[0],
        status: parts[1],
        left: columns[0],
        right: columns[1],
        footer: rows[2],
    };
    assert(status_width is None ==> parts@ =~= seq![rows@[0], rows@[0]]);
    assert(made_of(area, status_width, rows@, columns@, parts@, panes));
    proof {
        if layout::room_along(Direction::Vertical, area) >= 2 {
            arrangement_is_standard(area, status_width, panes);
        }
    }
    panes
}

/// A text without a frame.
fn place_bar(area: Area, text: String, style: Style, align_right: bool) -> (r: Placed)
    ensures
        r@ == bar(area, text@, style, align_right),
{
    Placed {
        area,
        widget: Widget::Paragraph {
            content: Content::Text(text),
            style,
            align_right,
            frame: None,
        },
    }
}

/// A row with a label and a value.
fn kv_line(label: &str, value: Span) -> (r: Row)
    ensures
        r@ == labelled(label@, value@),
{
    let padded = text::pad(label, 9);
    let head = text::concat2(" ", padded.as_str());
    paint::row_of_two(Span { text: head, style: Style::tinted(Color::Gray) }, value)
}

fn draw_header(app: &App, panes: &Panes, frame: &mut Vec<Placed>)
    ensures
        paint::frame_model(final(frame)@) == paint::frame_model(old(frame)@) + app@.header(*panes),
{
    let base = Style {
        fg: Some(Color::White),
        bg: Some(Color::DockerBlue),
        bold: false,
        underlined: false,
    };
    let strong = Style { bold: true, ..base };
    let ghost before = paint::frame_model(frame@);
    // Fill the whole bar with the Docker blue background first.
    paint::add_placed(frame, place_bar(panes.header, String::from_str(""), base, false));
    let title = String::from_str(" Stevedore - Container Management");
    match &app.status {
        Some(status) => {
            paint::add_placed(frame, place_bar(panes.title, title, strong, false));
            let style = if status.is_error {
                Style { fg: Some(Color::Amber), bold: true, ..base }
            } else {
                base
            };
            let text = text::concat2(status.text.as_str(), " ");
            paint::add_placed(frame, place_bar(panes.status, text, style, true));
        },
        None => {
            paint::add_placed(frame, place_bar(panes.header, title, strong, false));
        },
    }
    assert(paint::frame_model(frame@) =~= before + app@.header(*panes));
}

/// The row of a container in the list.
fn container_item(c: &ContainerInfo) -> (r: Row)
    ensures
        r@ == item_row(c@),
{
    let (icon, color) = if c.is_running() {
        ("●", Color::RunningGreen)
    } else {
        ("■", Color::ExitedRed)
    };
    let mark = text::concat3(" ", icon, " ");
    paint::row_of_two(
        Span { text: mark, style: Style::tinted(color) },
        paint::raw_span(c.name.as_str()),
    )
}

fn draw_container_list(app: &App, area: Area) -> (r: Placed)
    ensures
        r@ == app@.listing(area),
{
    let count = text::decimal_text(app.containers.len() as u64);
    let title = text::concat3(" Containers (", count.as_str(), ") ");
    if app.containers.len() == 0 {
        return paint::place_hint(area, title, "No containers found");
    }
    let mut items: Vec<Row> = Vec::new();
    let mut i: usize = 0;
    assert(paint::rows_model(items@) =~= item_rows(app@.containers.take(0)));
    while i < app.containers.len()
        invariant
            i <= app.containers.len(),
            paint::rows_model(items@) == item_rows(app@.containers.take(i as int)),
        decreases app.containers.len() - i,
    {
        let ghost before = paint::rows_model(items@);
        paint::add_row(&mut items, container_item(&app.containers[i]));
        assert(item_rows(app@.containers.take(i + 1)) =~= before.push(
            item_row(app@.containers[i as int]),
        ));
        i = i + 1;
    }
    assert(app@.containers.take(app@.containers.len() as int) =~= app@.containers);
    Placed {
        area,
        widget: Widget::List {
            items,
            state: app.list_state,
            highlight: Style {
                fg: Some(Color::White),
                bg: Some(Color::DockerBlue),
                bold: true,
                underlined: false,
            },
            title,
        },
    }
}

/// A remark in place of a value.
fn remark_span(text: &str) -> (r: Span)
    ensures
        r@ == remark(text@),
{
    paint::styled_span(text, Style::tinted(Color::DarkGray))
}

/// The memory usage as it is shown.
fn memory_text(stats: &StatsInfo, readings: &Readings) -> (r: String)
    ensures
        r@ == memory_shown(*stats, readings@),
{
    let used = units::format_bytes(stats.mem_usage);
    let limit = units::format_bytes(stats.mem_limit);
    let mut r = text::concat3(used.as_str(), " / ", limit.as_str());
    r.append(" (");
    r.append(readings.mem_percent.as_str());
    r.append("%)");
    r
}

/// The network usage as it is shown.
fn network_text(stats: &StatsInfo) -> (r: String)
    ensures
        r@ == network_shown(*stats),
{
    let rx = units::format_bytes(stats.net_rx);
    let tx = units::format_bytes(stats.net_tx);
    let mut r = text::concat3("rx ", rx.as_str(), " / tx ");
    r.append(tx.as_str());
    r
}

/// Adds the rows about what a container is.
fn add_identity(rows: &mut Vec<Row>, c: &ContainerInfo)
    ensures
        paint::rows_model(final(rows)@) == paint::rows_model(old(rows)@) + identity_rows(c@),
{
    let ghost before = paint::rows_model(rows@);
    let color = if c.is_running() {
        Color::RunningGreen
    } else {
        Color::ExitedRed
    };
    let id = c.id.as_str();
    let short = if id.unicode_len() > 12 {
        id.substring_char(0, 12)
    } else {
        id
    };
    assert(short@ =~= short_id(c@.id));
    let ports = if c.ports.as_str().is_empty() {
        remark_span("none")
    } else {
        paint::raw_span(c.ports.as_str())
    };
    paint::add_row(rows, kv_line("Name", paint::raw_span(c.name.as_str())));
    paint::add_row(rows, kv_line("ID", paint::raw_span(short)));
    paint::add_row(rows, kv_line("Image", paint::raw_span(c.image.as_str())));
    paint::add_row(
        rows,
        kv_line("State", paint::styled_span(c.state.as_str(), Style::heading(color))),
    );
    paint::add_row(rows, kv_line("Status", paint::raw_span(c.status.as_str())));
    paint::add_row(rows, kv_line("Ports", ports));
    assert(paint::rows_model(rows@) =~= before + identity_rows(c@));
}

/// Adds the rows of the addresses.
fn add_urls(rows: &mut Vec<Row>, urls: &Vec<String>)
    ensures
        paint::rows_model(final(rows)@) == paint::rows_model(old(rows)@) + url_rows(
            text::texts(urls@),
        ),
{
    let ghost before = paint::rows_model(rows@);
    let ghost all = text::texts(urls@);
    let mut i: usize = 0;
    assert(before + url_rows(all.take(0)) =~= before);
    while i < urls.len()
        invariant
            i <= urls.len(),
            all == text::texts(urls@),
            paint::rows_model(rows@) == before + url_rows(all.take(i as int)),
        decreases urls.len() - i,
    {
        let label = if i == 0 {
            "Local URL"
        } else {
            ""
        };
        let style = Style {
            fg: Some(Color::DockerBlue),
            bg: None,
            bold: false,
            underlined: true,
        };
        paint::add_row(rows, kv_line(label, paint::styled_span(urls[i].as_str(), style)));
        assert(before + url_rows(all.take(i + 1)) =~= (before + url_rows(all.take(i as int))).push(
            url_row(all[i as int], i as int),
        ));
        i = i + 1;
    }
    assert(all.take(all.len() as int) =~= all);
}

/// Adds the rows about the stack, and the heading of the statistics.
fn add_compose(rows: &mut Vec<Row>, c: &ContainerInfo)
    ensures
        paint::rows_model(final(rows)@) == paint::rows_model(old(rows)@) + compose_rows(c@),
{
    let ghost before = paint::rows_model(rows@);
    let stack = match &c.compose {
        Some(compose) => Span { text: compose.target(), style: Style::plain() },
        None => remark_span("standalone"),
    };
    paint::add_row(rows, kv_line("Compose", stack));
    let empty: Vec<Span> = Vec::new();
    assert(paint::spans_model(empty@) =~= Seq::empty());
    paint::add_row(rows, Row::Spans(empty));
    let mut heading: Vec<Span> = Vec::new();
    paint::add_span(
        &mut heading,
        paint::styled_span(" Live Stats", Style::heading(Color::DockerBlue)),
    );
    assert(paint::spans_model(heading@) =~= seq![
        paint::styled(" Live Stats"@, Style::strong(Color::DockerBlue)),
    ]);
    paint::add_row(rows, Row::Spans(heading));
    assert(paint::rows_model(rows@) =~= before + compose_rows(c@));
}

/// Adds the rows about the resources that a container uses.
fn add_stats(rows: &mut Vec<Row>, c: &ContainerInfo, stats: &Option<StatsInfo>, readings: &Readings)
    ensures
        paint::rows_model(final(rows)@) == paint::rows_model(old(rows)@) + stats_rows(
            c@,
            *stats,
            readings@,
        ),
{
    let ghost before = paint::rows_model(rows@);
    if !c.is_running() {
        paint::add_row(rows, kv_line("", remark_span("container is not running")));
    } else {
        match stats {
            Some(stats) => {
                let cpu = text::concat2(readings.cpu_percent.as_str(), "%");
                paint::add_row(rows, kv_line("CPU", Span { text: cpu, style: Style::plain() }));
                let memory = memory_text(stats, readings);
                paint::add_row(
                    rows,
                    kv_line("Memory", Span { text: memory, style: Style::plain() }),
                );
                let network = network_text(stats);
                paint::add_row(
                    rows,
                    kv_line("Network", Span { text: network, style: Style::plain() }),
                );
            },
            None => {
                paint::add_row(rows, kv_line("", remark_span("collecting stats...")));
            },
        }
    }
    assert(paint::rows_model(rows@) =~= before + stats_rows(c@, *stats, readings@));
}

fn draw_details(app: &App, area: Area, readings: &Readings) -> (r: Placed)
    ensures
        r@ == app@.details(area, readings@),
{
    let title = String::from_str(" Details ");
    match app.selected() {
        Some(c) => {
            let mut rows: Vec<Row> = Vec::new();
            assert(paint::rows_model(rows@) =~= Seq::empty());
            add_identity(&mut rows, c);
            add_urls(&mut rows, &c.local_urls());
            add_compose(&mut rows, c);
            add_stats(&mut rows, c, &app.stats, readings);
            assert(paint::rows_model(rows@) =~= detail_rows(c@, app.stats, readings@));
            paint::place_rows(area, title, rows)
        },
        None => paint::place_hint(area, title, "Select a container to see its details"),
    }
}

fn draw_logs(app: &mut App, area: Area) -> (r: Placed)
    requires
        old(app)@.view == pane::View::Logs,
    ensures
        r@ == old(app)@.log_pane(area),
        final(app)@ == old(app)@.once_scrolled(area),
{
    let name = match app.selected() {
        Some(c) => c.name.clone(),
        None => String::from_str("?"),
    };
    let plain_title = text::concat3(" Logs: ", name.as_str(), " ");
    if app.logs.len() == 0 {
        return paint::place_hint(area, plain_title, "Waiting for log output...");
    }
    let (start, end) = scroll_window(&mut app.scroll_back, app.logs.len(), area);
    let title = if app.scroll_back > 0 {
        let mut t = text::concat3(" Logs: ", name.as_str(), " [scrolled back ");
        t.append(text::decimal_text(app.scroll_back as u64).as_str());
        t.append(" lines, End to follow] ");
        t
    } else {
        plain_title
    };
    let ghost shown = old(app)@.logs.subrange(start as int, end as int);
    let mut rows: Vec<Row> = Vec::new();
    let mut i: usize = start;
    assert(paint::rows_model(rows@) =~= log_rows(shown.take(0)));
    while i < end
        invariant
            start <= i <= end <= app.logs@.len(),
            shown == text::texts(app.logs@).subrange(start as int, end as int),
            paint::rows_model(rows@) == log_rows(shown.take(i - start)),
        decreases end - i,
    {
        let ghost before = paint::rows_model(rows@);
        paint::add_row(&mut rows, Row::Text(paint::raw_span(app.logs[i].as_str())));
        assert(log_rows(shown.take(i + 1 - start)) =~= before.push(log_row(shown[i - start])));
        i = i + 1;
    }
    assert(shown.take(end - start) =~= shown);
    paint::place_rows(area, title, rows)
}

/// The row of a line of update output.
fn output_line(line: &str) -> (r: Row)
    ensures
        r@ == output_row(line@),
{
    if text::has_prefix(line, "$ ") {
        Row::Text(paint::styled_span(line, Style::heading(Color::DockerBlue)))
    } else {
        Row::Text(paint::raw_span(line))
    }
}

fn draw_update(app: &mut App, area: Area) -> (r: Placed)
    requires
        old(app)@.view == pane::View::Update,
    ensures
        r@ == old(app)@.update_pane(area),
        final(app)@ == old(app)@.once_scrolled(area),
{
    let target = match &app.update_target {
        Some(target) => target.clone(),
        None => String::from_str("?"),
    };
    let state = if app.update_running {
        "running"
    } else {
        "done"
    };
    let mut title = text::concat3(" Update: ", target.as_str(), " [");
    title.append(state);
    title.append("] ");
    if app.update_output.len() == 0 {
        return paint::place_hint(area, title, "Starting compose update...");
    }
    let (start, end) = scroll_window(&mut app.scroll_back, app.update_output.len(), area);
    if app.scroll_back > 0 {
        title.append("[scrolled back ");
        title.append(text::decimal_text(app.scroll_back as u64).as_str());
        title.append(" lines] ");
    }
    let ghost shown = old(app)@.update_output.subrange(start as int, end as int);
    let mut rows: Vec<Row> = Vec::new();
    let mut i: usize = start;
    assert(paint::rows_model(rows@) =~= output_rows(shown.take(0)));
    while i < end
        invariant
            start <= i <= end <= app.update_output@.len(),
            shown == text::texts(app.update_output@).subrange(start as int, end as int),
            paint::rows_model(rows@) == output_rows(shown.take(i - start)),
        decreases end - i,
    {
        let ghost before = paint::rows_model(rows@);
        paint::add_row(&mut rows, output_line(app.update_output[i].as_str()));
        assert(output_rows(shown.take(i + 1 - start)) =~= before.push(
            output_row(shown[i - start]),
        ));
        i = i + 1;
    }
    assert(shown.take(end - start) =~= shown);
    paint::place_rows(area, title, rows)
}

/// What a list of key bindings holds.
pub open spec fn bindings_model(list: Seq<(&'static str, &'static str)>) -> Seq<
    (Seq<char>, Seq<char>),
> {
    list.map_values(|b: (&'static str, &'static str)| (b.0@, b.1@))
}

/// The key bindings that apply in a view.
pub fn bindings(view: pane::View) -> (r: Vec<(&'static str, &'static str)>)
    ensures
        bindings_model(r@) == bindings_of(view),
{
    let list = match view {
        pane::View::Details => vec![
            ("↑/↓ j/k", "navigate"),
            ("enter", "logs"),
            ("s", "start/stop"),
            ("r", "restart"),
            ("u", "update"),
            ("q", "quit"),
        ],
        pane::View::Logs => vec![
            ("↑/↓ j/k", "switch container"),
            ("enter", "details"),
            ("s", "start/stop"),
            ("r", "restart"),
            ("u", "update"),
            ("pgup/pgdn", "scroll"),
            ("home", "top"),
            ("end", "follow"),
            ("esc", "back"),
            ("q", "quit"),
        ],
        pane::View::Update => vec![
            ("↑/↓ j/k", "navigate"),
            ("s", "start/stop"),
            ("r", "restart"),
            ("u", "update"),
            ("pgup/pgdn", "scroll"),
            ("home", "top"),
            ("end", "follow"),
            ("enter", "logs"),
            ("esc", "back"),
            ("q", "quit"),
        ],
    };
    assert(bindings_model(list@) =~= bindings_of(view));
    list
}

fn draw_footer(app: &App, area: Area) -> (r: Placed)
    ensures
        r@ == app@.footer(area),
{
    // Show only the bindings that apply to the current view.
    let list = bindings(app.view);
    let ghost all = bindings_model(list@);
    let mut spans: Vec<Span> = Vec::new();
    paint::add_span(&mut spans, paint::raw_span(" "));
    assert(paint::spans_model(spans@) =~= binding_spans(all.take(0)));
    let mut i: usize = 0;
    while i < list.len()
        invariant
            i <= list.len(),
            all == bindings_model(list@),
            paint::spans_model(spans@) == binding_spans(all.take(i as int)),
        decreases list.len() - i,
    {
        proof {
            assert(all.take(i + 1).drop_last() =~= all.take(i as int));
        }
        let (key, label) = list[i];
        if i > 0 {
            paint::add_span(
                &mut spans,
                paint::styled_span(" | ", Style::tinted(Color::DarkGray)),
            );
        }
        let ghost separated = paint::spans_model(spans@);
        paint::add_span(&mut spans, paint::styled_span(key, Style::heading(Color::DockerBlue)));
        paint::add_span(&mut spans, paint::raw_span(" "));
        paint::add_span(&mut spans, paint::styled_span(label, Style::tinted(Color::Gray)));
        assert(paint::spans_model(spans@) =~= separated + seq![
            paint::styled(key@, Style::strong(Color::DockerBlue)),
            paint::raw(" "@),
            paint::styled(label@, Style::colored(Color::Gray)),
        ]);
        i = i + 1;
    }
    assert(all.take(all.len() as int) =~= all);
    let mut rows: Vec<Row> = Vec::new();
    rows.push(Row::Spans(spans));
    assert(paint::rows_model(rows@) =~= seq![RowModel::Spans(paint::spans_model(spans@))]);
    Placed {
        area,
        widget: Widget::Paragraph {
            content: Content::Rows(rows),
            style: Style::plain(),
            align_right: false,
            frame: None,
        },
    }
}

/// Draws a frame on a terminal of this area: the widgets to paint, in order.
pub fn draw(app: &mut App, area: Area, readings: &Readings) -> (r: Vec<Placed>)
    ensures
        exists|panes: Panes|
            {
                &&& is_arrangement(area, old(app)@.status_width(), panes)
                &&& paint::frame_model(r@) == #[trigger] old(app)@.frame(panes, readings@)
                &&& final(app)@ == old(app)@.once_drawn(panes)
            },
        layout::room_along(Direction::Vertical, area) >= 2 ==> {
            let panes = standard_panes(area, old(app)@.status_width());
            &&& paint::frame_model(r@) == old(app)@.frame(panes, readings@)
            &&& final(app)@ == old(app)@.once_drawn(panes)
        },
{
    let panes = arrange(area, status_width(app));
    draw_panes(app, &panes, readings)
}

/// Draws a frame in given panes.
pub fn draw_panes(app: &mut App, panes: &Panes, readings: &Readings) -> (r: Vec<Placed>)
    ensures
        paint::frame_model(r@) == old(app)@.frame(*panes, readings@),
        final(app)@ == old(app)@.once_drawn(*panes),
{
    let mut frame: Vec<Placed> = Vec::new();
    assert(paint::frame_model(frame@) =~= Seq::empty());
    app.list_state.show(app.containers.len(), panes.left);
    draw_header(app, panes, &mut frame);
    paint::add_placed(&mut frame, draw_container_list(app, panes.left));
    let right = match app.view {
        pane::View::Details => draw_details(app, panes.right, readings),
        pane::View::Logs => draw_logs(app, panes.right),
        pane::View::Update => draw_update(app, panes.right),
    };
    paint::add_placed(&mut frame, right);
    paint::add_placed(&mut frame, draw_footer(app, panes.footer));
    assert(paint::frame_model(frame@) =~= old(app)@.frame(*panes, readings@));
    frame
}

// ---------------------------------------------------------------------
// Laws
// ---------------------------------------------------------------------

/// The visible part lies within the buffer and fills the pane as far as the
/// buffer goes; without an offset it ends with the newest line.
pub proof fn window_fills_the_pane(back: int, len: int, area: Area)
    requires
        0 <= back,
        0 <= len,
    ensures
        0 <= window_start(back, len, area) <= window_end(back, len, area) <= len,
        window_end(back, len, area) - window_start(back, len, area) == (if len < visible_lines(
            area,
        ) {
            len
        } else {
            visible_lines(area)
        }),
        back == 0 ==> window_end(back, len, area) == len,
        len <= visible_lines(area) ==> clamped_back(back, len, area) == 0,
{
}

/// The visible part depends on the clamped offset alone: clamping it again
/// changes nothing.
pub proof fn clamping_is_idempotent(back: int, len: int, area: Area)
    requires
        0 <= back,
        0 <= len,
    ensures
        0 <= clamped_back(back, len, area) <= back,
        clamped_back(clamped_back(back, len, area), len, area) == clamped_back(back, len, area),
        window_start(clamped_back(back, len, area), len, area) == window_start(back, len, area),
        window_end(clamped_back(back, len, area), len, area) == window_end(back, len, area),
{
}

/// How the footer calls a key, with no text for a key without a binding.
/// Ctrl+C is the other key of the binding that it shows as q.
pub open spec fn footer_key(key: KeyEvent) -> Seq<char> {
    match key.code {
        KeyCode::Char(c) => if c == 'q' || (c == 'c' && key.with_control()) {
            "q"@
        } else if c == 'k' || c == 'j' {
            "↑/↓ j/k"@
        } else if c == 's' {
            "s"@
        } else if c == 'r' {
            "r"@
        } else if c == 'u' {
            "u"@
        } else {
            ""@
        },
        KeyCode::Up | KeyCode::Down => "↑/↓ j/k"@,
        KeyCode::Enter => "enter"@,
        KeyCode::Esc => "esc"@,
        KeyCode::PageUp | KeyCode::PageDown => "pgup/pgdn"@,
        KeyCode::Home => "home"@,
        KeyCode::End => "end"@,
        KeyCode::Other => ""@,
    }
}

/// The footer shows a key.
pub open spec fn footer_shows(view: pane::View, key: Seq<char>) -> bool {
    exists|i: int| 0 <= i < bindings_of(view).len() && (#[trigger] bindings_of(view)[i]).0 == key
}

/// Every key that does anything in the current view is shown in the footer.
pub proof fn keys_that_act_are_shown(m: AppModel, key: KeyEvent, now: u128)
    requires
        m.is_sound(),
        m.after(MessageModel::Key(key), now) != m.quietly(),
    ensures
        footer_shows(m.view, footer_key(key)),
{
    let shown = bindings_of(m.view);
    assert(shown[0].0 == "↑/↓ j/k"@);
    match m.view {
        pane::View::Details => {
            assert(shown[1].0 == "enter"@ && shown[2].0 == "s"@ && shown[3].0 == "r"@);
            assert(shown[4].0 == "u"@ && shown[5].0 == "q"@);
        },
        pane::View::Logs => {
            assert(shown[1].0 == "enter"@ && shown[2].0 == "s"@ && shown[3].0 == "r"@);
            assert(shown[4].0 == "u"@ && shown[5].0 == "pgup/pgdn"@ && shown[6].0 == "home"@);
            assert(shown[7].0 == "end"@ && shown[8].0 == "esc"@ && shown[9].0 == "q"@);
        },
        pane::View::Update => {
            assert(shown[1].0 == "s"@ && shown[2].0 == "r"@ && shown[3].0 == "u"@);
            assert(shown[4].0 == "pgup/pgdn"@ && shown[5].0 == "home"@ && shown[6].0 == "end"@);
            assert(shown[7].0 == "enter"@ && shown[8].0 == "esc"@ && shown[9].0 == "q"@);
        },
    }
}

/// Home leads to the oldest lines of the buffer that is shown, however many
/// are retained.
pub proof fn home_leads_to_the_oldest_lines(m: AppModel, len: int, area: Area)
    requires
        m.view != pane::View::Details,
        0 <= len <= MAX_LOG_LINES,
    ensures
        window_start(m.scrolled_up(usize::MAX as int / 2).scroll_back as int, len, area) == 0,
{
}

/// The area lies within another.
pub open spec fn inside(outer: Area, inner: Area) -> bool {
    &&& outer.x <= inner.x
    &&& outer.y <= inner.y
    &&& inner.x + inner.width <= outer.x + outer.width
    &&& inner.y + inner.height <= outer.y + outer.height
}

/// On a terminal with at least two rows there is one arrangement.
pub proof fn arrangement_is_standard(area: Area, status_width: Option<u16>, panes: Panes)
    requires
        is_arrangement(area, status_width, panes),
        layout::room_along(Direction::Vertical, area) >= 2,
    ensures
        panes == standard_panes(area, status_width),
{
    let (rows, columns, parts) = choose|rows: Seq<Area>, columns: Seq<Area>, parts: Seq<Area>|
        #[trigger] made_of(area, status_width, rows, columns, parts, panes);
    assert(made_of(area, status_width, rows, columns, parts, panes));
    assert(layout::is_part(Direction::Vertical, area, rows[0]));
    assert(layout::is_part(Direction::Vertical, area, rows[1]));
    assert(layout::is_part(Direction::Vertical, area, rows[2]));
    assert(layout::is_part(Direction::Horizontal, rows[1], columns[0]));
    assert(layout::is_part(Direction::Horizontal, rows[1], columns[1]));
    if status_width is Some {
        assert(layout::is_part(Direction::Horizontal, rows[0], parts[0]));
        assert(layout::is_part(Direction::Horizontal, rows[0], parts[1]));
    }
}

/// Whatever arrangement comes about, all panes lie within the terminal, the
/// header and the footer go from one side to the other, the container list
/// is as high as the right pane, and the title and the status are as high as
/// the header.
pub proof fn panes_stay_on_the_terminal(area: Area, status_width: Option<u16>, panes: Panes)
    requires
        is_arrangement(area, status_width, panes),
        area.x + area.width <= u16::MAX,
        area.y + area.height <= u16::MAX,
    ensures
        inside(area, panes.header),
        inside(area, panes.footer),
        inside(area, panes.left),
        inside(area, panes.right),
        inside(panes.header, panes.title),
        inside(panes.header, panes.status),
        panes.header.x == panes.footer.x == area.x,
        panes.header.width == panes.footer.width == area.width,
        panes.left.y == panes.right.y,
        panes.left.height == panes.right.height,
        panes.title.height == panes.status.height == panes.header.height,
{
}

/// The selected row is one of the rows, and in sight wherever the list has
/// room.
pub proof fn the_selected_row_is_in_sight(state: ListState, len: int, area: Area)
    requires
        0 < len <= usize::MAX,
        area.width > 2,
        area.height > 2,
        state.selected is Some,
    ensures
        ({
            let shown = state.shown_in(len, area);
            &&& shown.selected is Some
            &&& shown.selected->0 < len
            &&& shown.offset <= shown.selected->0 < shown.offset + visible_lines(area)
            &&& state.selected->0 < len ==> shown.selected == state.selected
        }),
{
}

/// A list that is shown again in the same pane stays as it is.
pub proof fn showing_again_changes_nothing(state: ListState, len: int, area: Area)
    requires
        0 <= len <= usize::MAX,
    ensures
        state.shown_in(len, area).shown_in(len, area) == state.shown_in(len, area),
{
}

/// Drawing keeps a sound state sound, and the selected row selected.
pub proof fn drawing_keeps_soundness(m: AppModel, panes: Panes)
    requires
        m.is_sound(),
        m.containers.len() <= usize::MAX,
    ensures
        m.once_drawn(panes).is_sound(),
        m.once_drawn(panes).list_state.selected == m.list_state.selected,
{
}

/// Drawing changes nothing that is drawn: a second frame is the same as the
/// first, and so is the state after it.
pub proof fn drawing_again_draws_the_same(m: AppModel, panes: Panes, readings: ReadingsModel)
    requires
        m.containers.len() <= usize::MAX,
    ensures
        m.once_drawn(panes).frame(panes, readings) == m.frame(panes, readings),
        m.once_drawn(panes).once_drawn(panes) == m.once_drawn(panes),
{
    showing_again_changes_nothing(m.list_state, m.containers.len() as int, panes.left);
    clamping_is_idempotent(m.scroll_back as int, m.logs.len() as int, panes.right);
    clamping_is_idempotent(m.scroll_back as int, m.update_output.len() as int, panes.right);
    let listed = m.once_listed(panes.left);
    let drawn = m.once_drawn(panes);
    assert(drawn.once_listed(panes.left) == drawn);
    assert(drawn.header(panes) == listed.header(panes));
    assert(drawn.listing(panes.left) == listed.listing(panes.left));
    assert(drawn.right_pane(panes.right, readings) == listed.right_pane(panes.right, readings));
    assert(drawn.footer(panes.footer) == listed.footer(panes.footer));
}

} // verus!
