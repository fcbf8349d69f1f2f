//! Laws of the view: what a frame shows of the state, piece by piece.
use vstd::prelude::*;

use crate::app::ListState;
use crate::container;
use crate::container::ContainerModel;
use crate::layout;
use crate::layout::Direction;
use crate::model::AppModel;
use crate::paint::{
    Area, Color, ContentModel, PlacedModel, RowModel, SpanModel, Style, WidgetModel,
};
use crate::pane;
use crate::stats::StatsInfo;
use crate::text;
use crate::ui;
use crate::ui::{Panes, ReadingsModel};
use crate::units;

verus! {

// ---------------------------------------------------------------------
// Vocabulary
// ---------------------------------------------------------------------

/// Text in a colour on the default background.
pub open spec fn tint(text: Seq<char>, color: Color, bold: bool) -> SpanModel {
    SpanModel { text, style: Style { fg: Some(color), bg: None, bold, underlined: false } }
}

/// Text as the terminal shows it by default.
pub open spec fn plain(text: Seq<char>) -> SpanModel {
    SpanModel { text, style: Style { fg: None, bg: None, bold: false, underlined: false } }
}

/// A row with a gray label of ten characters in front of a value.
pub open spec fn row(label: Seq<char>, value: SpanModel) -> RowModel {
    RowModel::Spans(seq![tint(label, Color::Gray, false), value])
}

/// A framed pane with rows.
pub open spec fn pane_of_rows(area: Area, title: Seq<char>, rows: Seq<RowModel>) -> PlacedModel {
    PlacedModel {
        area,
        widget: WidgetModel::Paragraph {
            content: ContentModel::Rows(rows),
            style: Style { fg: None, bg: None, bold: false, underlined: false },
            align_right: false,
            frame: Some(title),
        },
    }
}

/// A framed pane with a remark in dark gray.
pub open spec fn pane_of_remark(area: Area, title: Seq<char>, text: Seq<char>) -> PlacedModel {
    PlacedModel {
        area,
        widget: WidgetModel::Paragraph {
            content: ContentModel::Text(text),
            style: Style { fg: Some(Color::DarkGray), bg: None, bold: false, underlined: false },
            align_right: false,
            frame: Some(title),
        },
    }
}

/// A text on the blue of the header.
pub open spec fn on_blue(
    area: Area,
    text: Seq<char>,
    fg: Color,
    bold: bool,
    align_right: bool,
) -> PlacedModel {
    PlacedModel {
        area,
        widget: WidgetModel::Paragraph {
            content: ContentModel::Text(text),
            style: Style { fg: Some(fg), bg: Some(Color::DockerBlue), bold, underlined: false },
            align_right,
            frame: None,
        },
    }
}

/// The selected container is this one.
pub open spec fn selected(m: AppModel, c: ContainerModel) -> bool {
    m.list_state.selected is Some && m.list_state.selected->0 < m.containers.len()
        && m.containers[m.list_state.selected->0 as int] == c
}

/// No container is selected.
pub open spec fn none_selected(m: AppModel) -> bool {
    m.list_state.selected is None || m.list_state.selected->0 >= m.containers.len()
}

// ---------------------------------------------------------------------
// The frame
// ---------------------------------------------------------------------

/// A frame is the header, the container list at the left, the pane of the
/// current view at the right, and the footer, each in its place. The list
/// is shown before the right pane.
pub proof fn what_a_frame_is_made_of(m: AppModel, panes: Panes, readings: ReadingsModel)
    ensures
        ({
            let shown = AppModel {
                list_state: m.list_state.shown_in(m.containers.len() as int, panes.left),
                ..m
            };
            m.frame(panes, readings) == m.header(panes) + seq![
                shown.listing(panes.left),
                match m.view {
                    pane::View::Details => shown.details(panes.right, readings),
                    pane::View::Logs => shown.log_pane(panes.right),
                    pane::View::Update => m.update_pane(panes.right),
                },
                m.footer(panes.footer),
            ]
        }),
{
    let shown = m.once_listed(panes.left);
    assert(shown.header(panes) == m.header(panes));
    assert(shown.footer(panes.footer) == m.footer(panes.footer));
    assert(shown.update_pane(panes.right) == m.update_pane(panes.right));
}

/// Drawing changes the scroll offset of the buffer that is shown, and what
/// the container list takes to show its selected row, and nothing else.
pub proof fn what_drawing_changes(m: AppModel, panes: Panes)
    ensures
        ({
            let drawn = m.once_drawn(panes);
            let len = if m.view == pane::View::Logs {
                m.logs.len()
            } else {
                m.update_output.len()
            };
            &&& drawn == AppModel {
                list_state: m.list_state.shown_in(m.containers.len() as int, panes.left),
                scroll_back: drawn.scroll_back,
                ..m
            }
            &&& m.view == pane::View::Details || len == 0 ==> drawn.scroll_back == m.scroll_back
            &&& m.view != pane::View::Details && len > 0 ==> drawn.scroll_back
                == ui::clamped_back(m.scroll_back as int, len as int, panes.right) as usize
        }),
{
}

/// What the header shows: a bar in blue, the title, and the status at the
/// right if there is one, errors in amber and bold.
pub proof fn what_the_header_shows(m: AppModel, panes: Panes)
    ensures
        ({
            let title = " Stevedore - Container Management"@;
            let fill = on_blue(panes.header, ""@, Color::White, false, false);
            &&& m.status is None ==> m.header(panes) == seq![
                fill,
                on_blue(panes.header, title, Color::White, true, false),
            ]
            &&& m.status is Some && !m.status->0.is_error ==> m.header(panes) == seq![
                fill,
                on_blue(panes.title, title, Color::White, true, false),
                on_blue(panes.status, m.status->0.text + " "@, Color::White, false, true),
            ]
            &&& m.status is Some && m.status->0.is_error ==> m.header(panes) == seq![
                fill,
                on_blue(panes.title, title, Color::White, true, false),
                on_blue(panes.status, m.status->0.text + " "@, Color::Amber, true, true),
            ]
        }),
{
}

/// The status asks for the room of its characters and two cells more, as far
/// as sixteen bits go.
pub proof fn how_much_room_the_status_takes(m: AppModel)
    ensures
        m.status is None ==> m.status_width() is None,
        m.status is Some ==> m.status_width() is Some,
        m.status is Some && m.status->0.text.len() <= 65533 ==> m.status_width()->0
            == m.status->0.text.len() + 2,
        m.status is Some && 65533 < m.status->0.text.len() <= 65535 ==> m.status_width()->0
            == 65535,
        m.status is Some && m.status->0.text.len() > 65535 ==> m.status_width()->0
            == ui::width_needed(m.status->0.text.take((m.status->0.text.len() % 65536) as int)),
{
}

// ---------------------------------------------------------------------
// The container list
// ---------------------------------------------------------------------

/// The list shows every container in its row, running ones with a green dot
/// and others with a red square, and counts them in its title.
pub proof fn what_the_list_shows(m: AppModel, area: Area)
    ensures
        ({
            let title = " Containers ("@ + text::decimal(m.containers.len()) + ") "@;
            &&& m.containers.len() == 0 ==> m.listing(area) == pane_of_remark(
                area,
                title,
                "No containers found"@,
            )
            &&& m.containers.len() > 0 ==> m.listing(area) == PlacedModel {
                area,
                widget: WidgetModel::List {
                    items: ui::item_rows(m.containers),
                    state: m.list_state,
                    highlight: Style {
                        fg: Some(Color::White),
                        bg: Some(Color::DockerBlue),
                        bold: true,
                        underlined: false,
                    },
                    title,
                },
            }
            &&& ui::item_rows(m.containers).len() == m.containers.len()
            &&& forall|i: int|
                0 <= i < m.containers.len() ==> #[trigger] ui::item_rows(m.containers)[i]
                    == RowModel::Spans(
                    seq![
                        if m.containers[i].state == "running"@ {
                            tint(" "@ + "●"@ + " "@, Color::RunningGreen, false)
                        } else {
                            tint(" "@ + "■"@ + " "@, Color::ExitedRed, false)
                        },
                        plain(m.containers[i].name),
                    ],
                )
        }),
{
}

/// The list moves no further than it takes to have its selected row in sight:
/// not at all if the row is in sight already, else until it is the first or
/// the last one in sight.
pub proof fn lists_move_no_further_than_needed(state: ListState, len: int, area: Area)
    requires
        0 < len <= usize::MAX,
        area.width > 2,
        area.height > 2,
        state.offset < len,
    ensures
        ({
            let shown = state.shown_in(len, area);
            let room = area.height - 2;
            &&& state.selected is None ==> shown == state
            &&& state.selected is Some && state.selected->0 < len ==> {
                let i = state.selected->0;
                &&& shown.selected == Some(i)
                &&& state.offset <= i < state.offset + room ==> shown.offset == state.offset
                &&& i < state.offset ==> shown.offset == i
                &&& i >= state.offset + room ==> shown.offset == i + 1 - room
            }
        }),
{
}

/// A list without rows, or without room inside its frame, stays as it is; an
/// offset behind the last row counts as the last row.
pub proof fn lists_at_their_limits(state: ListState, len: int, area: Area)
    requires
        0 <= len <= usize::MAX,
    ensures
        len == 0 || area.width <= 2 || area.height <= 2 ==> state.shown_in(len, area) == state,
        len > 0 && state.offset >= len ==> (area.width <= 2 || area.height <= 2 || state.shown_in(
            len,
            area,
        ) == (ListState { offset: (len - 1) as usize, ..state }).shown_in(len, area)),
        len > 0 && area.width > 2 && area.height > 2 && state.selected is Some
            && state.selected->0 >= len ==> state.shown_in(len, area).selected == Some(
            (len - 1) as usize,
        ),
{
}

// ---------------------------------------------------------------------
// The details
// ---------------------------------------------------------------------

/// How labels read: a blank, the label, and blanks up to ten characters.
pub proof fn how_labels_read(value: SpanModel)
    ensures
        ui::labelled("Name"@, value) == row(" Name     "@, value),
        ui::labelled("ID"@, value) == row(" ID       "@, value),
        ui::labelled("Image"@, value) == row(" Image    "@, value),
        ui::labelled("State"@, value) == row(" State    "@, value),
        ui::labelled("Status"@, value) == row(" Status   "@, value),
        ui::labelled("Ports"@, value) == row(" Ports    "@, value),
        ui::labelled("Local URL"@, value) == row(" Local URL"@, value),
        ui::labelled(""@, value) == row("          "@, value),
        ui::labelled("Compose"@, value) == row(" Compose  "@, value),
        ui::labelled("CPU"@, value) == row(" CPU      "@, value),
        ui::labelled("Memory"@, value) == row(" Memory   "@, value),
        ui::labelled("Network"@, value) == row(" Network  "@, value),
{
    reveal_strlit(" ");
    reveal_strlit("Name");
    reveal_strlit("ID");
    reveal_strlit("Image");
    reveal_strlit("State");
    reveal_strlit("Status");
    reveal_strlit("Ports");
    reveal_strlit("Local URL");
    reveal_strlit("");
    reveal_strlit("Compose");
    reveal_strlit("CPU");
    reveal_strlit("Memory");
    reveal_strlit("Network");
    reveal_strlit(" Name     ");
    reveal_strlit(" ID       ");
    reveal_strlit(" Image    ");
    reveal_strlit(" State    ");
    reveal_strlit(" Status   ");
    reveal_strlit(" Ports    ");
    reveal_strlit(" Local URL");
    reveal_strlit("          ");
    reveal_strlit(" Compose  ");
    reveal_strlit(" CPU      ");
    reveal_strlit(" Memory   ");
    reveal_strlit(" Network  ");
    assert(" "@ + text::padded("Name"@, 9) =~= " Name     "@);
    assert(" "@ + text::padded("ID"@, 9) =~= " ID       "@);
    assert(" "@ + text::padded("Image"@, 9) =~= " Image    "@);
    assert(" "@ + text::padded("State"@, 9) =~= " State    "@);
    assert(" "@ + text::padded("Status"@, 9) =~= " Status   "@);
    assert(" "@ + text::padded("Ports"@, 9) =~= " Ports    "@);
    assert(" "@ + text::padded("Local URL"@, 9) =~= " Local URL"@);
    assert(" "@ + text::padded(""@, 9) =~= "          "@);
    assert(" "@ + text::padded("Compose"@, 9) =~= " Compose  "@);
    assert(" "@ + text::padded("CPU"@, 9) =~= " CPU      "@);
    assert(" "@ + text::padded("Memory"@, 9) =~= " Memory   "@);
    assert(" "@ + text::padded("Network"@, 9) =~= " Network  "@);
}

/// The details are about the selected container, and there is a hint if
/// there is none.
pub proof fn whose_details_are_shown(
    m: AppModel,
    area: Area,
    readings: ReadingsModel,
    c: ContainerModel,
)
    ensures
        selected(m, c) ==> m.details(area, readings) == pane_of_rows(
            area,
            " Details "@,
            ui::detail_rows(c, m.stats, readings),
        ),
        none_selected(m) ==> m.details(area, readings) == pane_of_remark(
            area,
            " Details "@,
            "Select a container to see its details"@,
        ),
{
}

/// What the details say of a container: its name, the first twelve characters
/// of its id, its image, state, status and ports, then its local addresses,
/// its stack, and the heading of its statistics.
pub proof fn what_the_details_say(
    c: ContainerModel,
    stats: Option<StatsInfo>,
    readings: ReadingsModel,
)
    ensures
        ({
            let rows = ui::detail_rows(c, stats, readings);
            let urls = container::listed_urls(c.ports);
            let n = urls.len() as int;
            let color = if c.state == "running"@ {
                Color::RunningGreen
            } else {
                Color::ExitedRed
            };
            &&& rows.len() == 9 + n + ui::stats_rows(c, stats, readings).len()
            &&& rows[0] == row(" Name     "@, plain(c.name))
            &&& c.id.len() <= 12 ==> rows[1] == row(" ID       "@, plain(c.id))
            &&& c.id.len() > 12 ==> rows[1] == row(" ID       "@, plain(c.id.take(12)))
            &&& rows[2] == row(" Image    "@, plain(c.image))
            &&& rows[3] == row(" State    "@, tint(c.state, color, true))
            &&& rows[4] == row(" Status   "@, plain(c.status))
            &&& c.ports.len() > 0 ==> rows[5] == row(" Ports    "@, plain(c.ports))
            &&& c.ports.len() == 0 ==> rows[5] == row(
                " Ports    "@,
                tint("none"@, Color::DarkGray, false),
            )
            &&& c.compose is Some ==> rows[6 + n] == row(
                " Compose  "@,
                plain(c.compose->0.project + "/"@ + c.compose->0.service),
            )
            &&& c.compose is None ==> rows[6 + n] == row(
                " Compose  "@,
                tint("standalone"@, Color::DarkGray, false),
            )
            &&& rows[7 + n] == RowModel::Spans(Seq::empty())
            &&& rows[8 + n] == RowModel::Spans(
                seq![tint(" Live Stats"@, Color::DockerBlue, true)],
            )
            &&& forall|k: int|
                0 <= k < ui::stats_rows(c, stats, readings).len() ==> rows[9 + n + k]
                    == #[trigger] ui::stats_rows(c, stats, readings)[k]
        }),
{
    let v = plain(c.name);
    how_labels_read(v);
    how_labels_read(plain(c.id));
    how_labels_read(plain(c.id.take(12)));
    how_labels_read(plain(c.image));
    how_labels_read(plain(c.status));
    how_labels_read(plain(c.ports));
    how_labels_read(tint("none"@, Color::DarkGray, false));
    how_labels_read(tint("standalone"@, Color::DarkGray, false));
    how_labels_read(tint(c.state, Color::RunningGreen, true));
    how_labels_read(tint(c.state, Color::ExitedRed, true));
    if c.compose is Some {
        how_labels_read(plain(c.compose->0.project + "/"@ + c.compose->0.service));
    }
    assert(ui::url_rows(container::listed_urls(c.ports)).len() == container::listed_urls(
        c.ports,
    ).len());
}

/// Every local address has a row of the details, in order, underlined in
/// blue; the first one carries the label.
pub proof fn how_addresses_are_shown(
    c: ContainerModel,
    stats: Option<StatsInfo>,
    readings: ReadingsModel,
    k: int,
)
    requires
        0 <= k < container::listed_urls(c.ports).len(),
    ensures
        ui::detail_rows(c, stats, readings)[6 + k] == row(
            if k == 0 {
                " Local URL"@
            } else {
                "          "@
            },
            SpanModel {
                text: container::listed_urls(c.ports)[k],
                style: Style {
                    fg: Some(Color::DockerBlue),
                    bg: None,
                    bold: false,
                    underlined: true,
                },
            },
        ),
{
    let urls = container::listed_urls(c.ports);
    let value = SpanModel {
        text: urls[k],
        style: Style { fg: Some(Color::DockerBlue), bg: None, bold: false, underlined: true },
    };
    how_labels_read(value);
    assert(ui::url_rows(urls)[k] == ui::url_row(urls[k], k));
}

/// What the statistics say: only running containers have them.
pub proof fn what_the_statistics_say(c: ContainerModel, s: StatsInfo, readings: ReadingsModel)
    ensures
        ({
            let remark = |text: Seq<char>| row("          "@, tint(text, Color::DarkGray, false));
            let running = c.state == "running"@;
            &&& !running ==> ui::stats_rows(c, Some(s), readings) == seq![
                remark("container is not running"@),
            ]
            &&& !running ==> ui::stats_rows(c, None, readings) == seq![
                remark("container is not running"@),
            ]
            &&& running ==> ui::stats_rows(c, None, readings) == seq![
                remark("collecting stats..."@),
            ]
            &&& running ==> ui::stats_rows(c, Some(s), readings) == seq![
                row(" CPU      "@, plain(readings.cpu_percent + "%"@)),
                row(
                    " Memory   "@,
                    plain(
                        units::bytes_shown(s.mem_usage as nat) + " / "@ + units::bytes_shown(
                            s.mem_limit as nat,
                        ) + " ("@ + readings.mem_percent + "%)"@,
                    ),
                ),
                row(
                    " Network  "@,
                    plain(
                        "rx "@ + units::bytes_shown(s.net_rx as nat) + " / tx "@
                            + units::bytes_shown(s.net_tx as nat),
                    ),
                ),
            ]
        }),
{
    how_labels_read(tint("container is not running"@, Color::DarkGray, false));
    how_labels_read(tint("collecting stats..."@, Color::DarkGray, false));
    how_labels_read(plain(readings.cpu_percent + "%"@));
    how_labels_read(plain(ui::memory_shown(s, readings)));
    how_labels_read(plain(ui::network_shown(s)));
}

// ---------------------------------------------------------------------
// Logs and update output
// ---------------------------------------------------------------------

/// The part of a buffer of `len` lines that is in sight in a framed pane of
/// this height, `back` lines scrolled back: it ends so many lines before the
/// newest one, unless that would leave the pane emptier than it need be.
pub proof fn what_is_in_sight(back: int, len: int, area: Area)
    requires
        0 <= back,
        0 <= len,
    ensures
        ({
            let room = if area.height >= 2 {
                area.height - 2
            } else {
                0
            };
            let start = ui::window_start(back, len, area);
            let end = ui::window_end(back, len, area);
            &&& len <= room ==> start == 0 && end == len
            &&& len > room && back <= len - room ==> end == len - back && start == end - room
            &&& len > room && back > len - room ==> start == 0 && end == room
            &&& len <= room ==> ui::clamped_back(back, len, area) == 0
            &&& len > room && back <= len - room ==> ui::clamped_back(back, len, area) == back
            &&& len > room && back > len - room ==> ui::clamped_back(back, len, area) == len - room
        }),
{
}

/// What the log pane shows: the lines in sight, under the name of the
/// selected container and, if scrolled back, by how many lines.
pub proof fn what_the_log_pane_shows(m: AppModel, area: Area, c: ContainerModel)
    requires
        selected(m, c),
    ensures
        ({
            let len = m.logs.len() as int;
            let back = ui::clamped_back(m.scroll_back as int, len, area);
            let start = ui::window_start(m.scroll_back as int, len, area);
            let end = ui::window_end(m.scroll_back as int, len, area);
            let rows = ui::log_rows(m.logs.subrange(start, end));
            &&& len == 0 ==> m.log_pane(area) == pane_of_remark(
                area,
                " Logs: "@ + c.name + " "@,
                "Waiting for log output..."@,
            )
            &&& len > 0 && back == 0 ==> m.log_pane(area) == pane_of_rows(
                area,
                " Logs: "@ + c.name + " "@,
                rows,
            )
            &&& len > 0 && back > 0 ==> m.log_pane(area) == pane_of_rows(
                area,
                " Logs: "@ + c.name + " [scrolled back "@ + text::decimal(back as nat)
                    + " lines, End to follow] "@,
                rows,
            )
            &&& rows.len() == end - start
            &&& forall|k: int|
                0 <= k < end - start ==> #[trigger] rows[k] == RowModel::Text(
                    plain(m.logs[start + k]),
                )
        }),
{
    ui::window_fills_the_pane(m.scroll_back as int, m.logs.len() as int, area);
}

/// Without a selected container the log pane has a question mark for a name.
pub proof fn whose_logs_are_unknown(m: AppModel, area: Area)
    requires
        none_selected(m),
        m.logs.len() == 0 || m.scroll_back == 0,
    ensures
        m.logs.len() == 0 ==> m.log_pane(area) == pane_of_remark(
            area,
            " Logs: "@ + "?"@ + " "@,
            "Waiting for log output..."@,
        ),
        m.logs.len() > 0 ==> m.log_pane(area) == pane_of_rows(
            area,
            " Logs: "@ + "?"@ + " "@,
            ui::log_rows(
                m.logs.subrange(
                    ui::window_start(0, m.logs.len() as int, area),
                    m.logs.len() as int,
                ),
            ),
        ),
{
}

/// What the update pane shows: the lines in sight, the announced commands in
/// bold blue, under the target of the update, whether it is still running
/// and, if scrolled back, by how many lines.
pub proof fn what_the_update_pane_shows(m: AppModel, area: Area)
    ensures
        ({
            let len = m.update_output.len() as int;
            let back = ui::clamped_back(m.scroll_back as int, len, area);
            let start = ui::window_start(m.scroll_back as int, len, area);
            let end = ui::window_end(m.scroll_back as int, len, area);
            let rows = ui::output_rows(m.update_output.subrange(start, end));
            let target = if m.update_target is Some {
                m.update_target->0
            } else {
                "?"@
            };
            let state = if m.update_running {
                "running"@
            } else {
                "done"@
            };
            let head = " Update: "@ + target + " ["@ + state + "] "@;
            &&& len == 0 ==> m.update_pane(area) == pane_of_remark(
                area,
                head,
                "Starting compose update..."@,
            )
            &&& len > 0 && back == 0 ==> m.update_pane(area) == pane_of_rows(area, head, rows)
            &&& len > 0 && back > 0 ==> m.update_pane(area) == pane_of_rows(
                area,
                head + "[scrolled back "@ + text::decimal(back as nat) + " lines] "@,
                rows,
            )
            &&& rows.len() == end - start
            &&& forall|k: int|
                0 <= k < end - start ==> #[trigger] rows[k] == RowModel::Text(
                    if m.update_output[start + k].len() >= 2 && m.update_output[start + k][0] == '$'
                        && m.update_output[start + k][1] == ' ' {
                        tint(m.update_output[start + k], Color::DockerBlue, true)
                    } else {
                        plain(m.update_output[start + k])
                    },
                )
        }),
{
    reveal_strlit("$ ");
    let len = m.update_output.len() as int;
    let start = ui::window_start(m.scroll_back as int, len, area);
    let end = ui::window_end(m.scroll_back as int, len, area);
    let part = m.update_output.subrange(start, end);
    ui::window_fills_the_pane(m.scroll_back as int, len, area);
    assert forall|k: int| 0 <= k < end - start implies ("$ "@.is_prefix_of(#[trigger] part[k])
        <==> part[k].len() >= 2 && part[k][0] == '$' && part[k][1] == ' ') by {
        if part[k].len() >= 2 && part[k][0] == '$' && part[k][1] == ' ' {
            assert("$ "@ =~= part[k].subrange(0, 2));
        }
        if "$ "@.is_prefix_of(part[k]) {
            assert("$ "@[0] == part[k].subrange(0, 2)[0]);
            assert("$ "@[1] == part[k].subrange(0, 2)[1]);
        }
    }
    assert forall|k: int| 0 <= k < end - start implies #[trigger] ui::output_rows(part)[k]
        == RowModel::Text(
        if m.update_output[start + k].len() >= 2 && m.update_output[start + k][0] == '$'
            && m.update_output[start + k][1] == ' ' {
            tint(m.update_output[start + k], Color::DockerBlue, true)
        } else {
            plain(m.update_output[start + k])
        },
    ) by {
        assert(part[k] == m.update_output[start + k]);
    }
}

// ---------------------------------------------------------------------
// The footer
// ---------------------------------------------------------------------

/// The footer is one row of bindings: every key in bold blue, a blank, and
/// what it does in gray, with a bar between neighbours.
pub proof fn how_the_footer_reads(m: AppModel, area: Area, key: Seq<char>, label: Seq<char>)
    ensures
        m.footer(area) == (PlacedModel {
            area,
            widget: WidgetModel::Paragraph {
                content: ContentModel::Rows(
                    seq![RowModel::Spans(ui::binding_spans(ui::bindings_of(m.view)))],
                ),
                style: Style { fg: None, bg: None, bold: false, underlined: false },
                align_right: false,
                frame: None,
            },
        }),
        ui::binding_spans(seq![(key, label)]) == seq![
            plain(" "@),
            tint(key, Color::DockerBlue, true),
            plain(" "@),
            tint(label, Color::Gray, false),
        ],
        forall|before: Seq<(Seq<char>, Seq<char>)>|
            before.len() > 0 ==> #[trigger] ui::binding_spans(before.push((key, label)))
                == ui::binding_spans(before) + seq![
                tint(" | "@, Color::DarkGray, false),
                tint(key, Color::DockerBlue, true),
                plain(" "@),
                tint(label, Color::Gray, false),
            ],
{
    reveal_with_fuel(ui::binding_spans, 2);
    assert(seq![(key, label)].drop_last() =~= Seq::<(Seq<char>, Seq<char>)>::empty());
    assert(ui::binding_spans(seq![(key, label)]) =~= seq![
        plain(" "@),
        tint(key, Color::DockerBlue, true),
        plain(" "@),
        tint(label, Color::Gray, false),
    ]);
    assert forall|before: Seq<(Seq<char>, Seq<char>)>|
        before.len() > 0 implies #[trigger] ui::binding_spans(before.push((key, label)))
        == ui::binding_spans(before) + seq![
        tint(" | "@, Color::DarkGray, false),
        tint(key, Color::DockerBlue, true),
        plain(" "@),
        tint(label, Color::Gray, false),
    ] by {
        assert(before.push((key, label)).drop_last() =~= before);
        assert(ui::binding_spans(before.push((key, label))) =~= ui::binding_spans(before) + seq![
            tint(" | "@, Color::DarkGray, false),
            tint(key, Color::DockerBlue, true),
            plain(" "@),
            tint(label, Color::Gray, false),
        ]);
    }
}

/// What the footer says that the keys do.
pub proof fn what_the_footer_says()
    ensures
        ui::bindings_of(pane::View::Details) == seq![
            ("↑/↓ j/k"@, "navigate"@),
            ("enter"@, "logs"@),
            ("s"@, "start/stop"@),
            ("r"@, "restart"@),
            ("u"@, "update"@),
            ("q"@, "quit"@),
        ],
        ui::bindings_of(pane::View::Logs) == seq![
            ("↑/↓ j/k"@, "switch container"@),
            ("enter"@, "details"@),
            ("s"@, "start/stop"@),
            ("r"@, "restart"@),
            ("u"@, "update"@),
            ("pgup/pgdn"@, "scroll"@),
            ("home"@, "top"@),
            ("end"@, "follow"@),
            ("esc"@, "back"@),
            ("q"@, "quit"@),
        ],
        ui::bindings_of(pane::View::Update) == seq![
            ("↑/↓ j/k"@, "navigate"@),
            ("s"@, "start/stop"@),
            ("r"@, "restart"@),
            ("u"@, "update"@),
            ("pgup/pgdn"@, "scroll"@),
            ("home"@, "top"@),
            ("end"@, "follow"@),
            ("enter"@, "logs"@),
            ("esc"@, "back"@),
            ("q"@, "quit"@),
        ],
{
}

// ---------------------------------------------------------------------
// Panes and colours
// ---------------------------------------------------------------------

/// The panes of a terminal that has at least two rows and ends before the
/// last coordinate: one row each for header and footer, and between them the
/// list, with the nearest to 35 of 100 columns, and the right pane, which
/// meet; title and status share the header.
pub proof fn where_the_panes_are(area: Area, status_width: Option<u16>)
    requires
        area.height >= 2,
        area.x + area.width <= 65535,
        area.y + area.height <= 65535,
    ensures
        ({
            let p = ui::standard_panes(area, status_width);
            &&& p.header == Area { x: area.x, y: area.y, width: area.width, height: 1 }
            &&& p.footer == Area {
                x: area.x,
                y: (area.y + area.height - 1) as u16,
                width: area.width,
                height: 1,
            }
            &&& p.left.x == area.x
            &&& p.left.y == area.y + 1
            &&& p.left.height == area.height - 2
            &&& -50 <= 100 * p.left.width - 35 * area.width <= 50
            &&& 100 * p.left.width - 35 * area.width != -50
            &&& p.right.x == p.left.x + p.left.width
            &&& p.right.y == p.left.y
            &&& p.right.height == p.left.height
            &&& p.left.width + p.right.width == area.width
            &&& status_width is None ==> p.title == p.header && p.status == p.header
            &&& status_width is Some ==> {
                &&& p.title.x == area.x
                &&& p.title.y == area.y
                &&& p.title.height == 1
                &&& p.status.x == p.title.x + p.title.width
                &&& p.status.y == area.y
                &&& p.status.height == 1
                &&& p.title.width + p.status.width == area.width
                &&& status_width->0 <= area.width ==> p.status.width == status_width->0
                &&& status_width->0 > area.width ==> p.status.width == area.width
            }
        }),
{
    assert(layout::room_along(Direction::Horizontal, area) == area.width);
    assert(layout::room_along(Direction::Vertical, area) == area.height);
}

/// The colours, as red, green and blue.
pub proof fn what_the_colours_are()
    ensures
        Color::DockerBlue.components() == Some((36u8, 150u8, 237u8)),
        Color::RunningGreen.components() == Some((46u8, 204u8, 113u8)),
        Color::ExitedRed.components() == Some((231u8, 76u8, 60u8)),
        Color::Amber.components() == Some((255u8, 200u8, 120u8)),
        Color::White.components() is None,
        Color::Gray.components() is None,
        Color::DarkGray.components() is None,
{
}

} // verus!
