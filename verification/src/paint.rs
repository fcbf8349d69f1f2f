//! Paint: what a frame of the terminal shows, as a list of widgets.
use vstd::prelude::*;

use crate::app::ListState;

verus! {

/// The colours of the interface.
#[derive(Debug, Clone, Copy, PartialEq, Eq, Structural)]
pub enum Color {
    DockerBlue,
    RunningGreen,
    ExitedRed,
    Amber,
    White,
    Gray,
    DarkGray,
}

impl Color {
    /// The components of a colour, or `None` for one that the terminal
    /// itself defines.
    pub open spec fn components(self) -> Option<(u8, u8, u8)> {
        match self {
            Color::DockerBlue => Some((36, 150, 237)),
            Color::RunningGreen => Some((46, 204, 113)),
            Color::ExitedRed => Some((231, 76, 60)),
            Color::Amber => Some((255, 200, 120)),
            Color::White => None,
            Color::Gray => None,
            Color::DarkGray => None,
        }
    }

    /// The red, green and blue components of a colour.
    pub fn rgb(&self) -> (r: Option<(u8, u8, u8)>)
        ensures
            r == self.components(),
    {
        match self {
            Color::DockerBlue => Some((36, 150, 237)),
            Color::RunningGreen => Some((46, 204, 113)),
            Color::ExitedRed => Some((231, 76, 60)),
            Color::Amber => Some((255, 200, 120)),
            Color::White => None,
            Color::Gray => None,
            Color::DarkGray => None,
        }
    }
}

/// How text looks. `None` leaves a colour as it is.
#[derive(Debug, Clone, Copy, PartialEq, Eq, Structural)]
pub struct Style {
    pub fg: Option<Color>,
    pub bg: Option<Color>,
    pub bold: bool,
    pub underlined: bool,
}

impl Style {
    /// Text as the terminal shows it by default.
    pub open spec fn base() -> Style {
        Style { fg: None, bg: None, bold: false, underlined: false }
    }

    /// Text in a colour.
    pub open spec fn colored(color: Color) -> Style {
        Style { fg: Some(color), bg: None, bold: false, underlined: false }
    }

    /// Bold text in a colour.
    pub open spec fn strong(color: Color) -> Style {
        Style { fg: Some(color), bg: None, bold: true, underlined: false }
    }

    /// Text as the terminal shows it by default.
    pub fn plain() -> (r: Style)
        ensures
            r == Style::base(),
    {
        Style { fg: None, bg: None, bold: false, underlined: false }
    }

    /// Text in a colour.
    pub fn tinted(color: Color) -> (r: Style)
        ensures
            r == Style::colored(color),
    {
        Style { fg: Some(color), bg: None, bold: false, underlined: false }
    }

    /// Bold text in a colour.
    pub fn heading(color: Color) -> (r: Style)
        ensures
            r == Style::strong(color),
    {
        Style { fg: Some(color), bg: None, bold: true, underlined: false }
    }
}

/// A piece of text in one style.
#[derive(Debug)]
pub struct Span {
    pub text: String,
    pub style: Style,
}

/// What a `Span` holds.
pub struct SpanModel {
    pub text: Seq<char>,
    pub style: Style,
}

impl View for Span {
    type V = SpanModel;

    open spec fn view(&self) -> SpanModel {
        SpanModel { text: self.text@, style: self.style }
    }
}

/// Text in the default style.
pub open spec fn raw(text: Seq<char>) -> SpanModel {
    SpanModel { text, style: Style::base() }
}

/// Text in a style.
pub open spec fn styled(text: Seq<char>, style: Style) -> SpanModel {
    SpanModel { text, style }
}

/// A row of text: in one style, or made of spans.
#[derive(Debug)]
pub enum Row {
    Text(Span),
    Spans(Vec<Span>),
}

/// What a `Row` holds.
pub enum RowModel {
    Text(SpanModel),
    Spans(Seq<SpanModel>),
}

/// What a list of spans holds.
pub open spec fn spans_model(list: Seq<Span>) -> Seq<SpanModel> {
    list.map_values(|s: Span| s@)
}

impl View for Row {
    type V = RowModel;

    open spec fn view(&self) -> RowModel {
        match *self {
            Row::Text(span) => RowModel::Text(span@),
            Row::Spans(list) => RowModel::Spans(spans_model(list@)),
        }
    }
}

/// What a list of rows holds.
pub open spec fn rows_model(list: Seq<Row>) -> Seq<RowModel> {
    list.map_values(|r: Row| r@)
}

/// What a paragraph shows: a text with its line breaks, or rows.
#[derive(Debug)]
pub enum Content {
    Text(String),
    Rows(Vec<Row>),
}

/// What a `Content` holds.
pub enum ContentModel {
    Text(Seq<char>),
    Rows(Seq<RowModel>),
}

impl View for Content {
    type V = ContentModel;

    open spec fn view(&self) -> ContentModel {
        match *self {
            Content::Text(text) => ContentModel::Text(text@),
            Content::Rows(rows) => ContentModel::Rows(rows_model(rows@)),
        }
    }
}

/// A widget. Lists, and paragraphs with a `frame`, have a frame around them
/// that carries the title.
#[derive(Debug)]
pub enum Widget {
    Paragraph { content: Content, style: Style, align_right: bool, frame: Option<String> },
    /// A list. `state` tells which row is selected, and shown in the style
    /// `highlight`, and which row is the first in sight.
    List { items: Vec<Row>, state: ListState, highlight: Style, title: String },
}

/// What a `Widget` holds.
pub enum WidgetModel {
    Paragraph {
        content: ContentModel,
        style: Style,
        align_right: bool,
        frame: Option<Seq<char>>,
    },
    List { items: Seq<RowModel>, state: ListState, highlight: Style, title: Seq<char> },
}

impl View for Widget {
    type V = WidgetModel;

    open spec fn view(&self) -> WidgetModel {
        match *self {
            Widget::Paragraph { content, style, align_right, frame } => WidgetModel::Paragraph {
                content: content@,
                style,
                align_right,
                frame: crate::text::optional_text(frame),
            },
            Widget::List { items, state, highlight, title } => WidgetModel::List {
                items: rows_model(items@),
                state,
                highlight,
                title: title@,
            },
        }
    }
}

/// A rectangle of the terminal.
#[derive(Debug, Clone, Copy, PartialEq, Eq, Structural)]
pub struct Area {
    pub x: u16,
    pub y: u16,
    pub width: u16,
    pub height: u16,
}

impl Area {
    /// The rectangle at a position, of a size.
    pub fn new(x: u16, y: u16, width: u16, height: u16) -> (r: Self)
        ensures
            r == (Area { x, y, width, height }),
    {
        Area { x, y, width, height }
    }
}

/// A widget at its place.
#[derive(Debug)]
pub struct Placed {
    pub area: Area,
    pub widget: Widget,
}

/// What a `Placed` holds.
pub struct PlacedModel {
    pub area: Area,
    pub widget: WidgetModel,
}

impl View for Placed {
    type V = PlacedModel;

    open spec fn view(&self) -> PlacedModel {
        PlacedModel { area: self.area, widget: self.widget@ }
    }
}

/// What a frame holds.
pub open spec fn frame_model(list: Seq<Placed>) -> Seq<PlacedModel> {
    list.map_values(|p: Placed| p@)
}

/// A framed paragraph of rows.
pub open spec fn framed_rows(area: Area, title: Seq<char>, rows: Seq<RowModel>) -> PlacedModel {
    PlacedModel {
        area,
        widget: WidgetModel::Paragraph {
            content: ContentModel::Rows(rows),
            style: Style::base(),
            align_right: false,
            frame: Some(title),
        },
    }
}

/// A framed text in place of rows that are not there.
pub open spec fn framed_hint(area: Area, title: Seq<char>, text: Seq<char>) -> PlacedModel {
    PlacedModel {
        area,
        widget: WidgetModel::Paragraph {
            content: ContentModel::Text(text),
            style: Style::colored(Color::DarkGray),
            align_right: false,
            frame: Some(title),
        },
    }
}

/// A framed paragraph of rows.
pub fn place_rows(area: Area, title: String, rows: Vec<Row>) -> (r: Placed)
    ensures
        r@ == framed_rows(area, title@, rows_model(rows@)),
{
    Placed {
        area,
        widget: Widget::Paragraph {
            content: Content::Rows(rows),
            style: Style::plain(),
            align_right: false,
            frame: Some(title),
        },
    }
}

/// A framed text in place of rows that are not there.
pub fn place_hint(area: Area, title: String, text: &str) -> (r: Placed)
    ensures
        r@ == framed_hint(area, title@, text@),
{
    Placed {
        area,
        widget: Widget::Paragraph {
            content: Content::Text(String::from_str(text)),
            style: Style::tinted(Color::DarkGray),
            align_right: false,
            frame: Some(title),
        },
    }
}

/// A span in the default style.
pub fn raw_span(text: &str) -> (r: Span)
    ensures
        r@ == raw(text@),
{
    Span { text: String::from_str(text), style: Style::plain() }
}

/// A span in a style.
pub fn styled_span(text: &str, style: Style) -> (r: Span)
    ensures
        r@ == styled(text@, style),
{
    Span { text: String::from_str(text), style }
}

/// A row of two spans.
pub fn row_of_two(first: Span, second: Span) -> (r: Row)
    ensures
        r@ == RowModel::Spans(seq![first@, second@]),
{
    let mut spans: Vec<Span> = Vec::new();
    spans.push(first);
    spans.push(second);
    assert(spans_model(spans@) =~= seq![first@, second@]);
    Row::Spans(spans)
}

/// Adds a span to a list.
pub fn add_span(spans: &mut Vec<Span>, span: Span)
    ensures
        spans_model(final(spans)@) == spans_model(old(spans)@).push(span@),
{
    spans.push(span);
    assert(spans_model(spans@) =~= spans_model(old(spans)@).push(span@));
}

/// Adds a row to a list.
pub fn add_row(rows: &mut Vec<Row>, row: Row)
    ensures
        rows_model(final(rows)@) == rows_model(old(rows)@).push(row@),
{
    rows.push(row);
    assert(rows_model(rows@) =~= rows_model(old(rows)@).push(row@));
}

/// Adds a widget to a frame.
pub fn add_placed(frame: &mut Vec<Placed>, placed: Placed)
    ensures
        frame_model(final(frame)@) == frame_model(old(frame)@).push(placed@),
{
    frame.push(placed);
    assert(frame_model(frame@) =~= frame_model(old(frame)@).push(placed@));
}

} // verus!
