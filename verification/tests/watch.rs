use test_console::app::{App, Command, Key};
use test_console::file_watcher::{ChangeKind, FileWatcher, ModifyKind};

#[test]
fn one_content_change_in_watch_mode_triggers_one_run() {
    let mut app = App::new();
    let mut watcher = FileWatcher::new();
    app.handle_input(Key::Char('w'));
    assert!(app.watch_mode);
    watcher.record(ChangeKind::Modify(ModifyKind::Data));
    assert_eq!(watcher.tick(&mut app), Command::RunTest);
    assert_eq!(watcher.tick(&mut app), Command::Continue);
    assert_eq!(watcher.tick(&mut app), Command::Continue);
}

#[test]
fn burst_within_one_tick_is_one_run() {
    let mut watcher = FileWatcher::new();
    for _ in 0..5 {
        watcher.record(ChangeKind::Modify(ModifyKind::Data));
        watcher.record(ChangeKind::Access);
    }
    assert!(watcher.poll(true));
    assert!(watcher.pending.is_empty());
    assert!(!watcher.poll(true));
}

#[test]
fn bursts_in_separate_ticks_each_trigger_a_run() {
    let mut watcher = FileWatcher::new();
    watcher.record(ChangeKind::Modify(ModifyKind::Data));
    assert!(watcher.poll(true));
    watcher.record(ChangeKind::Modify(ModifyKind::Any));
    watcher.record(ChangeKind::Modify(ModifyKind::Name));
    assert!(watcher.poll(true));
    assert!(!watcher.poll(true));
}

#[test]
fn events_that_change_no_content_trigger_nothing_and_are_used_up() {
    let mut watcher = FileWatcher::new();
    watcher.record(ChangeKind::Modify(ModifyKind::Metadata));
    watcher.record(ChangeKind::Remove);
    watcher.record(ChangeKind::Create);
    watcher.record(ChangeKind::Access);
    watcher.record(ChangeKind::Any);
    watcher.record(ChangeKind::Other);
    assert!(!watcher.poll(true));
    assert!(watcher.pending.is_empty());
}

#[test]
fn no_event_is_taken_while_watch_mode_is_off() {
    let mut app = App::new();
    let mut watcher = FileWatcher::new();
    watcher.record(ChangeKind::Modify(ModifyKind::Data));
    watcher.record(ChangeKind::Create);
    assert!(!watcher.poll(false));
    assert_eq!(watcher.pending.len(), 2);
    assert_eq!(watcher.tick(&mut app), Command::Continue);
    assert_eq!(watcher.pending.len(), 2);
    app.toggle_watch_mode();
    assert_eq!(watcher.tick(&mut app), Command::RunTest);
    assert!(watcher.pending.is_empty());
}

#[test]
fn rerun_starts_on_cleared_output() {
    let mut app = App::new();
    app.toggle_watch_mode();
    app.update_output_height(2);
    app.add_test_output("1\n2\n3\n4\n");
    app.scroll_up();
    assert_eq!(app.output_scroll, 1);
    let mut watcher = FileWatcher::new();
    watcher.record(ChangeKind::Create);
    assert_eq!(watcher.tick(&mut app), Command::Continue);
    assert_eq!(app.test_output.line_count(), 4);
    assert_eq!(app.output_scroll, 1);
    watcher.record(ChangeKind::Modify(ModifyKind::Other));
    assert_eq!(watcher.tick(&mut app), Command::RunTest);
    assert_eq!(app.test_output.line_count(), 0);
    assert_eq!(app.output_scroll, 0);
    assert!(app.follow_output);
    assert!(app.watch_mode);
}

#[test]
fn events_are_handed_out_oldest_first() {
    let mut watcher = FileWatcher::new();
    assert_eq!(watcher.check_events(), None);
    watcher.record(ChangeKind::Create);
    watcher.record(ChangeKind::Modify(ModifyKind::Data));
    watcher.record(ChangeKind::Remove);
    assert_eq!(watcher.check_events(), Some(ChangeKind::Create));
    assert_eq!(watcher.check_events(), Some(ChangeKind::Modify(ModifyKind::Data)));
    assert_eq!(watcher.check_events(), Some(ChangeKind::Remove));
    assert_eq!(watcher.check_events(), None);
}

#[test]
fn only_modifications_beyond_metadata_call_for_a_run() {
    let watcher = FileWatcher::new();
    assert!(watcher.should_run_tests(&ChangeKind::Modify(ModifyKind::Any)));
    assert!(watcher.should_run_tests(&ChangeKind::Modify(ModifyKind::Data)));
    assert!(watcher.should_run_tests(&ChangeKind::Modify(ModifyKind::Name)));
    assert!(watcher.should_run_tests(&ChangeKind::Modify(ModifyKind::Other)));
    assert!(!watcher.should_run_tests(&ChangeKind::Modify(ModifyKind::Metadata)));
    assert!(!watcher.should_run_tests(&ChangeKind::Any));
    assert!(!watcher.should_run_tests(&ChangeKind::Access));
    assert!(!watcher.should_run_tests(&ChangeKind::Create));
    assert!(!watcher.should_run_tests(&ChangeKind::Remove));
    assert!(!watcher.should_run_tests(&ChangeKind::Other));
}
