//! What a frame shows: the help line, the input box, the message list, and
//! the cursor.

use vstd::prelude::*;
use crate::layout::{split_rows, Region, RowRule};
use crate::state::{App, AppState, AppView};
use crate::text::{format_row, row_text, str_width, text_width};

verus! {

/// The cells left free on each side of the drawable area.
pub const MARGIN: u16 = 1;

/// The height of the help line.
pub const HELP_HEIGHT: u16 = 1;

/// The height of the input box: one row of text inside a border.
pub const INPUT_HEIGHT: u16 = 3;

/// The least height of the message list.
pub const MESSAGES_MIN_HEIGHT: u16 = 1;

/// How a region is drawn.
#[derive(Clone, Copy, Debug, PartialEq, Eq, Structural)]
pub enum Style {
    Plain,
    Blink,
    Highlight,
}

/// A cell of the terminal grid.
#[derive(Clone, Copy, Debug, PartialEq, Eq, Structural)]
pub struct Cursor {
    pub column: u16,
    pub row: u16,
}

/// A piece of the help line; the names of keys are set in bold.
#[derive(Clone, Debug, PartialEq, Eq)]
pub struct Span {
    pub text: String,
    pub bold: bool,
}

/// A piece of the help line as a mathematical value.
pub struct SpanView {
    pub text: Seq<char>,
    pub bold: bool,
}

impl View for Span {
    type V = SpanView;

    open spec fn view(&self) -> SpanView {
        SpanView { text: self.text@, bold: self.bold }
    }
}

/// The pieces of a help line as mathematical values, in their order.
pub open spec fn spans_view(spans: Seq<Span>) -> Seq<SpanView> {
    Seq::new(spans.len(), |i: int| spans[i]@)
}

/// The description of one frame: three regions from top to bottom, each with
/// its text and its style, and the cursor if it is shown.
#[derive(Clone, Debug, PartialEq, Eq)]
pub struct Frame {
    pub help_area: Region,
    pub help: Vec<Span>,
    pub help_style: Style,
    pub input_area: Region,
    pub input_title: String,
    pub input: String,
    pub input_style: Style,
    pub cursor: Option<Cursor>,
    pub messages_area: Region,
    pub messages_title: String,
    pub messages: Vec<String>,
}

/// A frame as a mathematical value.
pub struct FrameView {
    pub help_area: Region,
    pub help: Seq<SpanView>,
    pub help_style: Style,
    pub input_area: Region,
    pub input_title: Seq<char>,
    pub input: Seq<char>,
    pub input_style: Style,
    pub cursor: Option<Cursor>,
    pub messages_area: Region,
    pub messages_title: Seq<char>,
    pub messages: Seq<Seq<char>>,
}

impl View for Frame {
    type V = FrameView;

    open spec fn view(&self) -> FrameView {
        FrameView {
            help_area: self.help_area,
            help: spans_view(self.help@),
            help_style: self.help_style,
            input_area: self.input_area,
            input_title: self.input_title@,
            input: self.input@,
            input_style: self.input_style,
            cursor: self.cursor,
            messages_area: self.messages_area,
            messages_title: self.messages_title@,
            messages: self.messages.deep_view(),
        }
    }
}

/// The rules by which the drawable area is split into rows.
pub open spec fn row_rules() -> Seq<RowRule> {
    seq![
        RowRule::Length(HELP_HEIGHT),
        RowRule::Length(INPUT_HEIGHT),
        RowRule::Min(MESSAGES_MIN_HEIGHT),
    ]
}

/// A piece of help text in the ordinary weight.
pub open spec fn plain(text: Seq<char>) -> SpanView {
    SpanView { text, bold: false }
}

/// A piece of help text in bold: the name of a key.
pub open spec fn bold(text: Seq<char>) -> SpanView {
    SpanView { text, bold: true }
}

/// The help line of each mode.
pub open spec fn help_spans(mode: AppState) -> Seq<SpanView> {
    match mode {
        AppState::Normal => seq![
            plain("Press "@),
            bold("q"@),
            plain(" to exit, "@),
            bold("e"@),
            plain(" to start editing."@),
        ],
        AppState::EditMode => seq![
            plain("Press "@),
            bold("Esc"@),
            plain(" to stop editing, "@),
            bold("Enter"@),
            plain(" to record the message"@),
        ],
    }
}

/// The help line blinks in normal mode.
pub open spec fn help_style(mode: AppState) -> Style {
    match mode {
        AppState::Normal => Style::Blink,
        AppState::EditMode => Style::Plain,
    }
}

/// The input box is highlighted while editing.
pub open spec fn input_style(mode: AppState) -> Style {
    match mode {
        AppState::Normal => Style::Plain,
        AppState::EditMode => Style::Highlight,
    }
}

/// The cell one column past a text of the given width that starts inside the
/// border of `input_area`. Coordinates wrap at the 16-bit limit of the grid.
pub open spec fn cursor_cell(input_area: Region, width: usize) -> Cursor {
    Cursor {
        column: ((input_area.x + width + 1) % 0x10000) as u16,
        row: ((input_area.y + 1) % 0x10000) as u16,
    }
}

/// The cursor is shown in edit mode and in no other.
pub open spec fn cursor_for(mode: AppState, input_area: Region, width: usize) -> Option<Cursor> {
    match mode {
        AppState::Normal => None,
        AppState::EditMode => Some(cursor_cell(input_area, width)),
    }
}

/// One row for each message, in the order of the log.
pub open spec fn message_rows(messages: Seq<Seq<char>>) -> Seq<Seq<char>> {
    Seq::new(messages.len(), |i: int| row_text(i as nat, messages[i]))
}

/// The frame that shows the session `app` in the three given regions, where
/// the line being typed is `width` columns wide.
pub open spec fn frame_for(
    help_area: Region,
    input_area: Region,
    messages_area: Region,
    width: usize,
    app: AppView,
) -> FrameView {
    FrameView {
        help_area,
        help: help_spans(app.mode),
        help_style: help_style(app.mode),
        input_area,
        input_title: "Input"@,
        input: app.input,
        input_style: input_style(app.mode),
        cursor: cursor_for(app.mode, input_area, width),
        messages_area,
        messages_title: "Messages"@,
        messages: message_rows(app.messages),
    }
}

fn span(text: &str, bold: bool) -> (s: Span)
    ensures
        s@ == (SpanView { text: text@, bold }),
{
    Span { text: text.to_owned(), bold }
}

/// Builds the help line of `mode`.
pub fn help_line(mode: AppState) -> (spans: Vec<Span>)
    ensures
        spans_view(spans@) == help_spans(mode),
{
    let mut spans: Vec<Span> = Vec::new();
    match mode {
        AppState::Normal => {
            spans.push(span("Press ", false));
            spans.push(span("q", true));
            spans.push(span(" to exit, ", false));
            spans.push(span("e", true));
            spans.push(span(" to start editing.", false));
        },
        AppState::EditMode => {
            spans.push(span("Press ", false));
            spans.push(span("Esc", true));
            spans.push(span(" to stop editing, ", false));
            spans.push(span("Enter", true));
            spans.push(span(" to record the message", false));
        },
    }
    assert(spans_view(spans@) =~= help_spans(mode));
    spans
}

/// Finds the cell of the cursor for a line of the given width.
pub fn cursor_position(input_area: Region, width: usize) -> (cursor: Cursor)
    ensures
        cursor == cursor_cell(input_area, width),
        input_area.x + width + 1 <= u16::MAX ==> cursor.column == input_area.x + width + 1,
        input_area.y + 1 <= u16::MAX ==> cursor.row == input_area.y + 1,
{
    let columns: u16 = (width % 0x10000) as u16;
    Cursor {
        column: input_area.x.wrapping_add(columns).wrapping_add(1),
        row: input_area.y.wrapping_add(1),
    }
}

/// Builds the rows of the message list.
pub fn list_rows(messages: &Vec<String>) -> (rows: Vec<String>)
    ensures
        rows.deep_view() == message_rows(messages.deep_view()),
{
    let mut rows: Vec<String> = Vec::new();
    let mut i: usize = 0;
    while i < messages.len()
        invariant
            i <= messages.len(),
            rows.len() == i,
            forall|j: int| 0 <= j < i ==> rows@[j]@ == row_text(j as nat, #[trigger] messages@[j]@),
        decreases messages.len() - i,
    {
        rows.push(format_row(i, messages[i].as_str()));
        i += 1;
    }
    assert(rows.deep_view() =~= message_rows(messages.deep_view()));
    rows
}

/// Describes the frame that shows `app` in three given regions, where the
/// line being typed is `width` columns wide.
pub fn compose_frame(
    help_area: Region,
    input_area: Region,
    messages_area: Region,
    width: usize,
    app: &App,
) -> (frame: Frame)
    ensures
        frame@ == frame_for(help_area, input_area, messages_area, width, app@),
        frame.cursor is Some <==> app@.mode == AppState::EditMode,
{
    let mode = app.input_mode();
    let frame = Frame {
        help_area,
        help: help_line(mode),
        help_style: match mode {
            AppState::Normal => Style::Blink,
            AppState::EditMode => Style::Plain,
        },
        input_area,
        input_title: "Input".to_owned(),
        input: app.input().to_owned(),
        input_style: match mode {
            AppState::Normal => Style::Plain,
            AppState::EditMode => Style::Highlight,
        },
        cursor: match mode {
            AppState::Normal => None,
            AppState::EditMode => Some(cursor_position(input_area, width)),
        },
        messages_area,
        messages_title: "Messages".to_owned(),
        messages: list_rows(app.messages()),
    };
    frame
}

/// Builds the rules that `row_rules` lists.
pub fn layout_rules() -> (rules: Vec<RowRule>)
    ensures
        rules@ == row_rules(),
{
    let mut rules: Vec<RowRule> = Vec::new();
    rules.push(RowRule::Length(HELP_HEIGHT));
    rules.push(RowRule::Length(INPUT_HEIGHT));
    rules.push(RowRule::Min(MESSAGES_MIN_HEIGHT));
    assert(rules@ =~= row_rules());
    rules
}

/// Describes the frame that shows `app` on the drawable area `area`, which
/// must lie within the grid.
///
/// The area, less a margin of one cell, is split from top to bottom into the
/// help line, the input box and the message list, by the rules of
/// `row_rules`. Where the three regions lie is the layout solver's answer and
/// is handed on as it came; all else in the frame is fixed by the session and
/// by the input region. The session is not changed.
pub fn ui(area: Region, app: &App) -> (frame: Frame)
    requires
        area.in_bounds(),
    ensures
        frame@ == frame_for(
            frame.help_area,
            frame.input_area,
            frame.messages_area,
            str_width(app@.input),
            app@,
        ),
        frame.cursor is Some <==> app@.mode == AppState::EditMode,
{
    let rules = layout_rules();
    let rows = split_rows(area, MARGIN, &rules);
    let width = text_width(app.input());
    compose_frame(rows[0], rows[1], rows[2], width, app)
}

} // verus!
