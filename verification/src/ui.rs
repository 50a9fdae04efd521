//! What the three panes show, as plain values for a terminal to draw.

use crate::ansi::{ansi_tokens, render_line, rendered, span_models, SpanModel, StyledSpan};
use crate::app::{clamp, App, FILE_LIST, OUTPUT, TEST_LIST};
use crate::output::slice_bounds;
use crate::text::{decimal, decimal_string, string_views};
use vstd::prelude::*;
use vstd::string::StringExecFns;

verus! {

/// The number of rows that the frame of a pane takes: its top and its bottom border.
pub const BORDER_ROWS: u16 = 2;

/// One row of a list pane.
pub struct ListRow {
    pub text: String,
    pub highlighted: bool,
}

impl View for ListRow {
    type V = (Seq<char>, bool);

    open spec fn view(&self) -> (Seq<char>, bool) {
        (self.text@, self.highlighted)
    }
}

/// The output pane: its title, the lines of the viewport as styled spans, and
/// whether it has the focus.
pub struct OutputPane {
    pub title: String,
    pub lines: Vec<Vec<StyledSpan>>,
    pub focused: bool,
}

/// One frame of the console.
pub struct Screen {
    pub files: Vec<ListRow>,
    pub tests: Vec<ListRow>,
    pub output: OutputPane,
}

/// The rows of a sequence, each by its value.
pub open spec fn row_views(rows: Seq<ListRow>) -> Seq<(Seq<char>, bool)> {
    rows.map_values(|row: ListRow| row@)
}

/// The lines of a sequence, each by the values of its spans.
pub open spec fn line_models(lines: Seq<Vec<StyledSpan>>) -> Seq<Seq<SpanModel>> {
    lines.map_values(|line: Vec<StyledSpan>| span_models(line@))
}

/// The rows of the file list: the path of each group, the selected one
/// highlighted while the file list has the focus.
pub open spec fn file_rows(app: App) -> Seq<(Seq<char>, bool)> {
    Seq::new(
        app.test_info@.len(),
        |i: int| (app.test_info@[i].path@, i == app.selected_index && app.active_pane == FILE_LIST),
    )
}

/// The rows of the test list: the tests of the selected group, the selected
/// one highlighted while the test list has the focus; a single notice where
/// no group is selected.
pub open spec fn test_rows(app: App) -> Seq<(Seq<char>, bool)> {
    if app.selected_index < app.test_info@.len() {
        let tests = app.test_info@[app.selected_index as int].tests@;
        Seq::new(
            tests.len(),
            |i: int| (tests[i]@, i == app.selected_test && app.active_pane == TEST_LIST),
        )
    } else {
        seq![("No tests found"@, false)]
    }
}

/// The buffer lines that the viewport shows: as many as it is high, from the
/// scroll offset on, which counts as the last full viewport's where it lies
/// past that.
pub open spec fn visible_lines(app: App) -> Seq<Seq<char>> {
    let first = clamp(app.output_scroll as int, app.max_scroll()) as nat;
    let bounds = slice_bounds(app.total_lines(), first, app.output_height as nat);
    app.test_output@.subrange(bounds.0, bounds.1)
}

/// The spans of each of `lines`, every line rendered on its own.
pub open spec fn rendered_lines(lines: Seq<Seq<char>>) -> Seq<Seq<SpanModel>> {
    lines.map_values(|line: Seq<char>| rendered(ansi_tokens(line)))
}

/// The title of the output pane.
pub open spec fn output_title(scroll: nat, total: nat) -> Seq<char> {
    "Test Output (Scroll: "@ + decimal(scroll) + "/"@ + decimal(total) + ")"@
}

/// The viewport never shows more lines than it is high, nor more than the
/// buffer holds, and it is full wherever the buffer has enough lines.
pub proof fn lemma_viewport_size(app: App)
    ensures
        visible_lines(app).len() <= app.output_height,
        visible_lines(app).len() <= app.total_lines(),
        app.total_lines() >= app.output_height ==> visible_lines(app).len() == app.output_height,
        rendered_lines(visible_lines(app)).len() == visible_lines(app).len(),
{
}

/// The height of the output viewport in a terminal of `rows` rows.
pub fn viewport_height(rows: u16) -> (height: usize)
    ensures
        height == if rows > BORDER_ROWS { rows - BORDER_ROWS } else { 0 },
{
    if rows > BORDER_ROWS {
        (rows - BORDER_ROWS) as usize
    } else {
        0
    }
}

/// The rows of the file list.
pub fn draw_test_files(app: &App) -> (rows: Vec<ListRow>)
    ensures
        row_views(rows@) == file_rows(*app),
{
    let mut rows: Vec<ListRow> = Vec::new();
    let mut i: usize = 0;
    while i < app.test_info.len()
        invariant
            i <= app.test_info.len(),
            row_views(rows@) == file_rows(*app).take(i as int),
        decreases app.test_info.len() - i,
    {
        let ghost before = rows@;
        let row = ListRow {
            text: app.test_info[i].path.clone(),
            highlighted: i == app.selected_index && app.active_pane == FILE_LIST,
        };
        rows.push(row);
        proof {
            assert(row_views(rows@) == row_views(before).push(row@));
            assert(file_rows(*app).take(i + 1) == file_rows(*app).take(i as int).push(row@));
        }
        i += 1;
    }
    proof {
        assert(file_rows(*app).take(i as int) == file_rows(*app));
    }
    rows
}

/// The rows of the test list.
pub fn draw_tests(app: &App) -> (rows: Vec<ListRow>)
    ensures
        row_views(rows@) == test_rows(*app),
{
    let mut rows: Vec<ListRow> = Vec::new();
    if app.selected_index < app.test_info.len() {
        let tests = &app.test_info[app.selected_index].tests;
        let mut i: usize = 0;
        while i < tests.len()
            invariant
                i <= tests.len(),
                app.selected_index < app.test_info@.len(),
                *tests == app.test_info@[app.selected_index as int].tests,
                row_views(rows@) == test_rows(*app).take(i as int),
            decreases tests.len() - i,
        {
            let ghost before = rows@;
            let row = ListRow {
                text: tests[i].clone(),
                highlighted: i == app.selected_test && app.active_pane == TEST_LIST,
            };
            rows.push(row);
            proof {
                assert(row_views(rows@) == row_views(before).push(row@));
                assert(test_rows(*app).take(i + 1) == test_rows(*app).take(i as int).push(row@));
            }
            i += 1;
        }
        proof {
            assert(test_rows(*app).take(i as int) == test_rows(*app));
        }
    } else {
        let row = ListRow { text: String::from_str("No tests found"), highlighted: false };
        rows.push(row);
        proof {
            assert(row_views(rows@) == seq![row@]);
        }
    }
    rows
}

/// The output pane: the lines of the viewport, each rendered on its own with
/// no style carried over from the line before.
pub fn draw_test_output(app: &App) -> (pane: OutputPane)
    ensures
        pane.title@ == output_title(app.output_scroll as nat, app.total_lines()),
        line_models(pane.lines@) == rendered_lines(visible_lines(*app)),
        pane.focused == (app.active_pane == OUTPUT),
{
    let total = app.test_output.line_count();
    let bottom = if total > app.output_height { total - app.output_height } else { 0 };
    let first = if app.output_scroll < bottom { app.output_scroll } else { bottom };
    let shown = app.test_output.slice(first, app.output_height);
    let ghost visible = visible_lines(*app);
    let mut lines: Vec<Vec<StyledSpan>> = Vec::new();
    let mut i: usize = 0;
    while i < shown.len()
        invariant
            i <= shown.len(),
            string_views(shown@) == visible,
            line_models(lines@) == rendered_lines(visible.take(i as int)),
        decreases shown.len() - i,
    {
        let ghost before = lines@;
        let line = render_line(shown[i].as_str());
        proof {
            assert(visible[i as int] == shown@[i as int]@);
            assert(visible.take(i + 1) == visible.take(i as int).push(visible[i as int]));
            assert(rendered_lines(visible.take(i as int).push(visible[i as int]))
                == rendered_lines(visible.take(i as int)).push(rendered(ansi_tokens(visible[i as int]))));
            assert(line_models(before.push(line)) == line_models(before).push(span_models(line@)));
        }
        lines.push(line);
        i += 1;
    }
    proof {
        assert(visible.take(i as int) == visible);
    }
    let mut title = String::from_str("Test Output (Scroll: ");
    title.append(decimal_string(app.output_scroll).as_str());
    title.append("/");
    title.append(decimal_string(total).as_str());
    title.append(")");
    OutputPane { title, lines, focused: app.active_pane == OUTPUT }
}

/// One frame of the console: the file list, the test list and the output pane.
pub fn draw(app: &App) -> (screen: Screen)
    ensures
        row_views(screen.files@) == file_rows(*app),
        row_views(screen.tests@) == test_rows(*app),
        screen.output.title@ == output_title(app.output_scroll as nat, app.total_lines()),
        line_models(screen.output.lines@) == rendered_lines(visible_lines(*app)),
        screen.output.focused == (app.active_pane == OUTPUT),
{
    Screen { files: draw_test_files(app), tests: draw_tests(app), output: draw_test_output(app) }
}

} // verus!
