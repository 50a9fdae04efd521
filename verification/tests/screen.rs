use test_console::ansi::Color;
use test_console::app::{App, TestInfo};
use test_console::ui::{draw, draw_test_files, draw_test_output, draw_tests, viewport_height, ListRow};

fn session() -> App {
    let mut app = App::new();
    app.test_info.push(TestInfo {
        path: "src/a.rs".to_string(),
        tests: vec!["a1".to_string(), "a2".to_string()],
    });
    app.test_info.push(TestInfo { path: "src/b.rs".to_string(), tests: vec!["b1".to_string()] });
    app
}

fn rows(rows: &Vec<ListRow>) -> Vec<(String, bool)> {
    rows.iter().map(|r| (r.text.clone(), r.highlighted)).collect()
}

fn row(text: &str, highlighted: bool) -> (String, bool) {
    (text.to_string(), highlighted)
}

#[test]
fn selected_file_is_highlighted_while_the_file_list_has_the_focus() {
    let mut app = session();
    assert_eq!(rows(&draw_test_files(&app)), vec![row("src/a.rs", true), row("src/b.rs", false)]);
    app.selected_index = 1;
    assert_eq!(rows(&draw_test_files(&app)), vec![row("src/a.rs", false), row("src/b.rs", true)]);
    app.active_pane = 1;
    assert_eq!(rows(&draw_test_files(&app)), vec![row("src/a.rs", false), row("src/b.rs", false)]);
    assert!(draw_test_files(&App::new()).is_empty());
}

#[test]
fn selected_test_is_highlighted_while_the_test_list_has_the_focus() {
    let mut app = session();
    assert_eq!(rows(&draw_tests(&app)), vec![row("a1", false), row("a2", false)]);
    app.active_pane = 1;
    assert_eq!(rows(&draw_tests(&app)), vec![row("a1", true), row("a2", false)]);
    app.selected_test = 1;
    assert_eq!(rows(&draw_tests(&app)), vec![row("a1", false), row("a2", true)]);
    app.selected_index = 1;
    app.selected_test = 0;
    assert_eq!(rows(&draw_tests(&app)), vec![row("b1", true)]);
}

#[test]
fn test_list_without_a_group_shows_a_notice() {
    let app = App::new();
    assert_eq!(rows(&draw_tests(&app)), vec![row("No tests found", false)]);
    let mut app = session();
    app.selected_index = 2;
    assert_eq!(rows(&draw_tests(&app)), vec![row("No tests found", false)]);
    let mut app = App::new();
    app.test_info.push(TestInfo { path: "x.rs".to_string(), tests: vec![] });
    assert!(draw_tests(&app).is_empty());
}

#[test]
fn output_pane_shows_the_viewport_from_the_scroll_offset() {
    let mut app = App::new();
    app.update_output_height(3);
    for i in 0..10 {
        app.add_test_output(&format!("line {}\n", i));
    }
    let pane = draw_test_output(&app);
    assert_eq!(pane.title, "Test Output (Scroll: 7/10)");
    assert!(!pane.focused);
    assert_eq!(pane.lines.len(), 3);
    assert_eq!(pane.lines[0][0].text, "line 7");
    assert_eq!(pane.lines[1][0].text, "line 8");
    assert_eq!(pane.lines[2][0].text, "line 9");
    app.active_pane = 2;
    app.page_up();
    app.scroll_up();
    app.scroll_up();
    let pane = draw_test_output(&app);
    assert_eq!(pane.title, "Test Output (Scroll: 4/10)");
    assert!(pane.focused);
    assert_eq!(pane.lines.len(), 3);
    assert_eq!(pane.lines[0][0].text, "line 4");
    assert_eq!(pane.lines[2][0].text, "line 6");
}

#[test]
fn output_pane_renders_each_line_on_its_own() {
    let mut app = App::new();
    app.update_output_height(5);
    app.add_test_output("\u{1b}[1;31mfailed\nplain\n\n\u{1b}[32mok\u{1b}[0m\n");
    let pane = draw_test_output(&app);
    assert_eq!(pane.title, "Test Output (Scroll: 0/4)");
    assert_eq!(pane.lines.len(), 4);
    assert_eq!(pane.lines[0].len(), 1);
    assert_eq!(pane.lines[0][0].text, "failed");
    assert_eq!(pane.lines[0][0].foreground, Some(Color::Red));
    assert!(pane.lines[0][0].bold);
    assert_eq!(pane.lines[1].len(), 1);
    assert_eq!(pane.lines[1][0].text, "plain");
    assert_eq!(pane.lines[1][0].foreground, None);
    assert!(!pane.lines[1][0].bold);
    assert!(pane.lines[2].is_empty());
    assert_eq!(pane.lines[3].len(), 1);
    assert_eq!(pane.lines[3][0].text, "ok");
    assert_eq!(pane.lines[3][0].foreground, Some(Color::Green));
}

#[test]
fn output_pane_of_an_empty_buffer_or_viewport_has_no_line() {
    let mut app = App::new();
    app.update_output_height(4);
    let pane = draw_test_output(&app);
    assert!(pane.lines.is_empty());
    assert_eq!(pane.title, "Test Output (Scroll: 0/0)");
    app.update_output_height(0);
    app.add_test_output("a\nb\n");
    let pane = draw_test_output(&app);
    assert!(pane.lines.is_empty());
    assert_eq!(pane.title, "Test Output (Scroll: 2/2)");
}

#[test]
fn offset_past_the_last_viewport_shows_the_last_viewport() {
    let mut app = App::new();
    app.update_output_height(2);
    app.add_test_output("a\nb\nc\n");
    app.output_scroll = 40;
    let pane = draw_test_output(&app);
    assert_eq!(pane.lines.len(), 2);
    assert_eq!(pane.lines[0][0].text, "b");
    assert_eq!(pane.lines[1][0].text, "c");
    assert_eq!(pane.title, "Test Output (Scroll: 40/3)");
}

#[test]
fn frame_holds_all_three_panes() {
    let mut app = session();
    app.update_output_height(2);
    app.add_test_output("x\n");
    let screen = draw(&app);
    assert_eq!(rows(&screen.files), vec![row("src/a.rs", true), row("src/b.rs", false)]);
    assert_eq!(rows(&screen.tests), vec![row("a1", false), row("a2", false)]);
    assert_eq!(screen.output.title, "Test Output (Scroll: 0/1)");
    assert_eq!(screen.output.lines.len(), 1);
    assert!(!screen.output.focused);
}

#[test]
fn viewport_is_the_terminal_less_its_border() {
    assert_eq!(viewport_height(0), 0);
    assert_eq!(viewport_height(1), 0);
    assert_eq!(viewport_height(2), 0);
    assert_eq!(viewport_height(3), 1);
    assert_eq!(viewport_height(24), 22);
    assert_eq!(viewport_height(u16::MAX), 65533);
}
