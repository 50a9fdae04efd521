//! The session state: catalog, selection, pane focus, watch flag and scroll
//! position, and the transitions that keyboard input causes.

use crate::output::{appended, OutputBuffer, DEFAULT_CAPACITY};
use crate::text::string_views;
use vstd::prelude::*;

verus! {

/// The pane that lists the source files.
pub const FILE_LIST: usize = 0;

/// The pane that lists the tests of the selected file.
pub const TEST_LIST: usize = 1;

/// The pane that shows the output of the running test.
pub const OUTPUT: usize = 2;

/// A key press, as far as the session tells keys apart.
#[derive(Clone, Copy, Debug, PartialEq, Eq, Structural)]
pub enum Key {
    Char(char),
    Enter,
    Other,
}

/// What the caller of the session is asked to do after an event.
#[derive(Clone, Copy, Debug, PartialEq, Eq, Structural)]
pub enum Command {
    /// Nothing beyond drawing the next frame.
    Continue,
    /// End the session.
    Quit,
    /// Run the selected test.
    RunTest,
    /// Scan the source tree for tests again.
    Rescan,
}

/// The tests that were found in one source file.
pub struct TestInfo {
    pub path: String,
    pub tests: Vec<String>,
}

impl View for TestInfo {
    type V = (Seq<char>, Seq<Seq<char>>);

    /// The path and the names, by their characters.
    open spec fn view(&self) -> (Seq<char>, Seq<Seq<char>>) {
        (self.path@, string_views(self.tests@))
    }
}

/// The groups of a catalog, each by the characters of its path and names.
pub open spec fn catalog_view(catalog: Seq<TestInfo>) -> Seq<(Seq<char>, Seq<Seq<char>>)> {
    catalog.map_values(|info: TestInfo| info@)
}

/// The state of one interactive session.
pub struct App {
    pub test_info: Vec<TestInfo>,
    pub selected_index: usize,
    pub active_pane: usize,
    pub selected_test: usize,
    pub test_output: OutputBuffer,
    pub watch_mode: bool,
    pub output_scroll: usize,
    pub output_height: usize,
    pub should_quit: bool,
    /// Whether the view follows the newest output. It stops doing so at the
    /// first scroll command and takes it up again when the output is cleared.
    pub follow_output: bool,
}

/// `value` brought into the range from 0 to `limit`; 0 where `limit` is negative.
pub open spec fn clamp(value: int, limit: int) -> int {
    if value <= 0 || limit <= 0 {
        0
    } else if value < limit {
        value
    } else {
        limit
    }
}

/// An index into a list of `len` items is in range: it names an item, or the
/// list is empty and the index is 0.
pub open spec fn index_in_range(index: int, len: int) -> bool {
    0 <= index < len || (len == 0 && index == 0)
}

/// The pane to the left of `pane`, going round from the first to the last.
pub open spec fn pane_left(pane: usize) -> usize {
    ((pane % 3 + 2) % 3) as usize
}

/// The pane to the right of `pane`, going round from the last to the first.
pub open spec fn pane_right(pane: usize) -> usize {
    ((pane % 3 + 1) % 3) as usize
}

/// Whether a key asks for the action of the focused pane.
pub open spec fn is_confirm(key: Key) -> bool {
    key == Key::Enter || key == Key::Char('r')
}

/// Moving the focus is a bijection on the three panes: left and right undo
/// each other, and both wrap around at the ends.
pub proof fn lemma_pane_cycle(pane: usize)
    requires
        pane < 3,
    ensures
        pane_left(pane) < 3,
        pane_right(pane) < 3,
        pane_left(pane_right(pane)) == pane,
        pane_right(pane_left(pane)) == pane,
        pane_left(pane) != pane,
        pane_right(pane) != pane,
        pane_left(0) == 2,
        pane_right(2) == 0,
{
}

/// The index after `index` in a list of `len` items, stopping at the last item.
fn step_forward(index: usize, len: usize) -> (next: usize)
    ensures
        next == clamp(index + 1, len - 1),
{
    if len == 0 {
        0
    } else if index < len - 1 {
        index + 1
    } else {
        len - 1
    }
}

/// The index before `index` in a list of `len` items, stopping at the first
/// item, and at the last where `index` is past it.
fn step_back(index: usize, len: usize) -> (previous: usize)
    ensures
        previous == clamp(index - 1, len - 1),
{
    if len == 0 || index == 0 {
        0
    } else if index - 1 < len - 1 {
        index - 1
    } else {
        len - 1
    }
}

impl App {
    /// The number of lines in the output buffer.
    pub open spec fn total_lines(&self) -> nat {
        self.test_output@.len()
    }

    /// The largest scroll offset that still fills the viewport: the number of
    /// lines that do not fit into it.
    pub open spec fn max_scroll(&self) -> int {
        if self.total_lines() > self.output_height {
            self.total_lines() - self.output_height
        } else {
            0
        }
    }

    /// The number of lines that a page command moves by.
    pub open spec fn page_size(&self) -> int {
        if self.output_height > 2 {
            self.output_height - 2
        } else {
            0
        }
    }

    /// The number of tests of the group at `index`; 0 where there is no such group.
    pub open spec fn tests_in(&self, index: int) -> int {
        if 0 <= index < self.test_info@.len() {
            self.test_info@[index].tests@.len() as int
        } else {
            0
        }
    }

    /// The name of the selected test, where the selection names one.
    pub open spec fn selected_name(&self) -> Option<Seq<char>> {
        if self.selected_index < self.test_info@.len() && self.selected_test
            < self.test_info@[self.selected_index as int].tests@.len() {
            Some(self.test_info@[self.selected_index as int].tests@[self.selected_test as int]@)
        } else {
            None
        }
    }

    /// Both selection indices are in range.
    pub open spec fn selection_in_range(&self) -> bool {
        &&& index_in_range(self.selected_index as int, self.test_info@.len() as int)
        &&& index_in_range(self.selected_test as int, self.tests_in(self.selected_index as int))
    }

    /// The scroll offset does not pass the last full viewport.
    pub open spec fn scroll_in_range(&self) -> bool {
        0 <= self.output_scroll <= self.max_scroll()
    }

    /// The invariant of a session.
    pub open spec fn wf(&self) -> bool {
        &&& self.active_pane < 3
        &&& self.selection_in_range()
        &&& self.scroll_in_range()
        &&& self.test_output.wf()
    }

    /// The state with the group at `index` selected. The test index stays
    /// where the new group has a test for it, else it moves to the group's
    /// last test.
    pub open spec fn with_group(self, index: int) -> App {
        App {
            selected_index: index as usize,
            selected_test: clamp(self.selected_test as int, self.tests_in(index) - 1) as usize,
            ..self
        }
    }

    /// The state after a scroll command that asks for offset `wanted`.
    pub open spec fn scrolled(self, wanted: int) -> App {
        App { output_scroll: clamp(wanted, self.max_scroll()) as usize, follow_output: false, ..self }
    }

    /// The state with the scroll offset brought back into range.
    pub open spec fn adjusted(self) -> App {
        App { output_scroll: clamp(self.output_scroll as int, self.max_scroll()) as usize, ..self }
    }

    /// The state after a movement key in the focused pane.
    ///
    /// In the file list `j` and `k` select the next and the previous group, in
    /// the test list the next and the previous test of the selected group, both
    /// stopping at the ends. In the output pane `j` and `k` scroll by a line,
    /// `d` and `u` by a page. Any other key, and any key in a pane that has
    /// nothing to move, leaves the state as it is.
    pub open spec fn navigated(self, key: Key) -> App {
        let groups = self.test_info@.len() as int;
        let tests = self.tests_in(self.selected_index as int);
        if self.active_pane == FILE_LIST && key == Key::Char('j') {
            self.with_group(clamp(self.selected_index + 1, groups - 1))
        } else if self.active_pane == FILE_LIST && key == Key::Char('k') {
            self.with_group(clamp(self.selected_index - 1, groups - 1))
        } else if self.active_pane == TEST_LIST && self.selected_index < groups && key == Key::Char(
            'j',
        ) {
            App { selected_test: clamp(self.selected_test + 1, tests - 1) as usize, ..self }
        } else if self.active_pane == TEST_LIST && self.selected_index < groups && key == Key::Char(
            'k',
        ) {
            App { selected_test: clamp(self.selected_test - 1, tests - 1) as usize, ..self }
        } else if self.active_pane == OUTPUT && key == Key::Char('j') {
            self.scrolled(self.output_scroll + 1)
        } else if self.active_pane == OUTPUT && key == Key::Char('k') {
            self.scrolled(self.output_scroll - 1)
        } else if self.active_pane == OUTPUT && key == Key::Char('d') {
            self.scrolled(self.output_scroll + self.page_size())
        } else if self.active_pane == OUTPUT && key == Key::Char('u') {
            self.scrolled(self.output_scroll - self.page_size())
        } else {
            self
        }
    }

    /// The state after a key press.
    ///
    /// `q` asks to quit, `w` toggles watch mode, `h` and `l` move the focus to
    /// the left and to the right, `j`, `k`, `d` and `u` move within the focused
    /// pane. The confirm keys change nothing in the state, nor does any other key.
    pub open spec fn after_key(self, key: Key) -> App {
        if key == Key::Char('q') {
            App { should_quit: true, ..self }
        } else if key == Key::Char('w') {
            App { watch_mode: !self.watch_mode, ..self }
        } else if key == Key::Char('h') {
            App { active_pane: pane_left(self.active_pane), ..self }
        } else if key == Key::Char('l') {
            App { active_pane: pane_right(self.active_pane), ..self }
        } else {
            self.navigated(key)
        }
    }

    /// The state after a sequence of key presses.
    pub open spec fn after_keys(self, keys: Seq<Key>) -> App
        decreases keys.len(),
    {
        if keys.len() == 0 {
            self
        } else {
            self.after_keys(keys.drop_last()).after_key(keys.last())
        }
    }

    /// What a key press asks the caller to do: to quit once the quit flag is
    /// set; else, for a confirm key, to run the selected test where the test
    /// list has the focus and to scan again where the file list has it.
    pub open spec fn command_for(self, key: Key) -> Command {
        let next = self.after_key(key);
        if next.should_quit {
            Command::Quit
        } else if is_confirm(key) && next.active_pane == TEST_LIST {
            Command::RunTest
        } else if is_confirm(key) && next.active_pane == FILE_LIST {
            Command::Rescan
        } else {
            Command::Continue
        }
    }

    /// Everything but the output buffer and the scroll state is the same in
    /// both states.
    pub open spec fn same_session(&self, other: &App) -> bool {
        &&& self.test_info == other.test_info
        &&& self.selected_index == other.selected_index
        &&& self.active_pane == other.active_pane
        &&& self.selected_test == other.selected_test
        &&& self.watch_mode == other.watch_mode
        &&& self.output_height == other.output_height
        &&& self.should_quit == other.should_quit
    }

    /// A session with no tests, no output, the focus on the file list, watch
    /// mode off and the view following the output.
    pub fn new() -> (app: App)
        ensures
            app.wf(),
            app.test_info@.len() == 0,
            app.selected_index == 0,
            app.selected_test == 0,
            app.active_pane == FILE_LIST,
            app.test_output@ == Seq::<Seq<char>>::empty(),
            app.test_output.capacity == DEFAULT_CAPACITY,
            app.output_scroll == 0,
            app.output_height == 0,
            !app.watch_mode,
            !app.should_quit,
            app.follow_output,
    {
        App {
            test_info: Vec::new(),
            selected_index: 0,
            active_pane: FILE_LIST,
            selected_test: 0,
            test_output: OutputBuffer::new(),
            watch_mode: false,
            output_scroll: 0,
            output_height: 0,
            should_quit: false,
            follow_output: true,
        }
    }

    /// Handles one key press and tells whether it was a confirm key, which
    /// asks the caller for the action of the focused pane.
    pub fn handle_input(&mut self, key: Key) -> (confirm: bool)
        ensures
            *final(self) == old(self).after_key(key),
            confirm == is_confirm(key),
            old(self).wf() ==> final(self).wf(),
    {
        proof {
            if self.wf() {
                self.lemma_key_keeps_invariant(key);
            }
        }
        match key {
            Key::Char(c) => {
                if c == 'q' {
                    self.should_quit = true;
                } else if c == 'w' {
                    self.toggle_watch_mode();
                } else if c == 'r' {
                    return true;
                } else if c == 'h' {
                    self.move_left();
                } else if c == 'l' {
                    self.move_right();
                } else {
                    self.navigate_list(key);
                }
                false
            },
            Key::Enter => true,
            Key::Other => false,
        }
    }

    /// Handles one key press and says what the caller is to do next. A run
    /// starts on an empty output buffer: the command to run a test comes with
    /// the output cleared.
    pub fn on_key(&mut self, key: Key) -> (command: Command)
        ensures
            command == old(self).command_for(key),
            command != Command::RunTest ==> *final(self) == old(self).after_key(key),
            command == Command::RunTest ==> {
                &&& final(self).test_output@ == Seq::<Seq<char>>::empty()
                &&& final(self).test_output.capacity == old(self).test_output.capacity
                &&& final(self).output_scroll == 0
                &&& final(self).follow_output
                &&& final(self).same_session(&old(self).after_key(key))
            },
            old(self).wf() ==> final(self).wf(),
    {
        let confirm = self.handle_input(key);
        if self.should_quit {
            Command::Quit
        } else if confirm && self.active_pane == TEST_LIST {
            self.clear_test_output();
            Command::RunTest
        } else if confirm && self.active_pane == FILE_LIST {
            Command::Rescan
        } else {
            Command::Continue
        }
    }

    /// Records the height of the viewport and brings the scroll offset back
    /// into the range that goes with it.
    pub fn update_output_height(&mut self, height: usize)
        ensures
            *final(self) == (App { output_height: height, ..*old(self) }).adjusted(),
            final(self).scroll_in_range(),
    {
        self.output_height = height;
        self.adjust_scroll();
    }

    /// Shows the newest output: the last full viewport.
    pub fn scroll_to_bottom(&mut self)
        ensures
            *final(self) == (App { output_scroll: old(self).max_scroll() as usize, ..*old(self) }),
            final(self).scroll_in_range(),
    {
        self.output_scroll = self.bottom();
    }

    /// Scrolls one line towards the oldest output and stops following the newest.
    pub fn scroll_up(&mut self)
        ensures
            *final(self) == old(self).scrolled(old(self).output_scroll - 1),
            final(self).scroll_in_range(),
    {
        let wanted = if self.output_scroll > 0 { self.output_scroll - 1 } else { 0 };
        self.scroll_to(wanted);
    }

    /// Scrolls one line towards the newest output and stops following it.
    pub fn scroll_down(&mut self)
        ensures
            *final(self) == old(self).scrolled(old(self).output_scroll + 1),
            final(self).scroll_in_range(),
    {
        let bottom = self.bottom();
        let wanted = if self.output_scroll < bottom { self.output_scroll + 1 } else { bottom };
        self.scroll_to(wanted);
    }

    /// Scrolls one page towards the oldest output and stops following the newest.
    pub fn page_up(&mut self)
        ensures
            *final(self) == old(self).scrolled(old(self).output_scroll - old(self).page_size()),
            final(self).scroll_in_range(),
    {
        let page = self.page();
        let wanted = if self.output_scroll > page { self.output_scroll - page } else { 0 };
        self.scroll_to(wanted);
    }

    /// Scrolls one page towards the newest output and stops following it.
    pub fn page_down(&mut self)
        ensures
            *final(self) == old(self).scrolled(old(self).output_scroll + old(self).page_size()),
            final(self).scroll_in_range(),
    {
        let bottom = self.bottom();
        let page = self.page();
        let wanted = if self.output_scroll < bottom && page < bottom - self.output_scroll {
            self.output_scroll + page
        } else {
            bottom
        };
        self.scroll_to(wanted);
    }

    /// Brings the scroll offset back into range, leaving it where it is in range.
    pub fn adjust_scroll(&mut self)
        ensures
            *final(self) == old(self).adjusted(),
            final(self).scroll_in_range(),
    {
        let bottom = self.bottom();
        if self.output_scroll > bottom {
            self.output_scroll = bottom;
        }
    }

    /// Moves the focus one pane to the left, from the first pane to the last.
    pub fn move_left(&mut self)
        ensures
            *final(self) == (App { active_pane: pane_left(old(self).active_pane), ..*old(self) }),
            final(self).active_pane < 3,
    {
        self.active_pane = (self.active_pane % 3 + 2) % 3;
    }

    /// Moves the focus one pane to the right, from the last pane to the first.
    pub fn move_right(&mut self)
        ensures
            *final(self) == (App { active_pane: pane_right(old(self).active_pane), ..*old(self) }),
            final(self).active_pane < 3,
    {
        self.active_pane = (self.active_pane % 3 + 1) % 3;
    }

    /// Empties the output buffer, scrolls to its start and follows the output again.
    pub fn clear_test_output(&mut self)
        ensures
            final(self).test_output@ == Seq::<Seq<char>>::empty(),
            final(self).test_output.capacity == old(self).test_output.capacity,
            final(self).output_scroll == 0,
            final(self).follow_output,
            final(self).same_session(old(self)),
            final(self).scroll_in_range(),
            old(self).wf() ==> final(self).wf(),
    {
        self.test_output.clear();
        self.output_scroll = 0;
        self.follow_output = true;
    }

    /// Switches watch mode on where it is off, and off where it is on.
    pub fn toggle_watch_mode(&mut self)
        ensures
            *final(self) == (App { watch_mode: !old(self).watch_mode, ..*old(self) }),
    {
        self.watch_mode = !self.watch_mode;
    }

    /// Moves within the focused pane: the selection in the two lists, the
    /// scroll offset in the output pane.
    pub fn navigate_list(&mut self, key: Key)
        ensures
            *final(self) == old(self).navigated(key),
            old(self).wf() ==> final(self).wf(),
    {
        proof {
            assert(self.test_info.len() == self.test_info@.len());
        }
        let groups = self.test_info.len();
        match key {
            Key::Char(c) => {
                if self.active_pane == FILE_LIST {
                    if c == 'j' {
                        let index = step_forward(self.selected_index, groups);
                        self.select_group(index);
                    } else if c == 'k' {
                        let index = step_back(self.selected_index, groups);
                        self.select_group(index);
                    }
                } else if self.active_pane == TEST_LIST {
                    if self.selected_index < groups {
                        let tests = self.test_info[self.selected_index].tests.len();
                        if c == 'j' {
                            self.selected_test = step_forward(self.selected_test, tests);
                        } else if c == 'k' {
                            self.selected_test = step_back(self.selected_test, tests);
                        }
                    }
                } else if self.active_pane == OUTPUT {
                    if c == 'j' {
                        self.scroll_down();
                    } else if c == 'k' {
                        self.scroll_up();
                    } else if c == 'd' {
                        self.page_down();
                    } else if c == 'u' {
                        self.page_up();
                    }
                }
            },
            _ => {},
        }
    }

    /// Appends a chunk of output. Where the view follows the output it moves
    /// to the newest lines; where it does not, it keeps its offset as far as
    /// the buffer still reaches it.
    pub fn add_test_output(&mut self, new_output: &str)
        ensures
            final(self).test_output@ == appended(
                old(self).test_output@,
                old(self).test_output.capacity as nat,
                new_output@,
            ),
            final(self).test_output.capacity == old(self).test_output.capacity,
            final(self).output_scroll == if old(self).follow_output {
                final(self).max_scroll()
            } else {
                clamp(old(self).output_scroll as int, final(self).max_scroll())
            },
            final(self).follow_output == old(self).follow_output,
            final(self).same_session(old(self)),
            final(self).scroll_in_range(),
            final(self).test_output.wf(),
            old(self).wf() ==> final(self).wf(),
    {
        self.test_output.append(new_output);
        if self.follow_output {
            self.scroll_to_bottom();
        } else {
            self.adjust_scroll();
        }
    }

    /// Brings the scroll offset back into range after the output or the
    /// viewport changed.
    pub fn update_scroll(&mut self)
        ensures
            *final(self) == old(self).adjusted(),
            final(self).scroll_in_range(),
    {
        self.adjust_scroll();
    }

    /// Whether the state meets the invariant of a session.
    pub fn is_valid(&self) -> (valid: bool)
        ensures
            valid == self.wf(),
    {
        let groups = self.test_info.len();
        let tests = if self.selected_index < groups {
            self.test_info[self.selected_index].tests.len()
        } else {
            0
        };
        self.active_pane < 3 && (self.selected_index < groups || (groups == 0
            && self.selected_index == 0)) && (self.selected_test < tests || (tests == 0
            && self.selected_test == 0)) && self.output_scroll <= self.bottom()
            && self.test_output.line_count() <= self.test_output.capacity
    }

    fn bottom(&self) -> (offset: usize)
        ensures
            offset == self.max_scroll(),
    {
        let total = self.test_output.line_count();
        if total > self.output_height {
            total - self.output_height
        } else {
            0
        }
    }

    fn page(&self) -> (lines: usize)
        ensures
            lines == self.page_size(),
    {
        if self.output_height > 2 {
            self.output_height - 2
        } else {
            0
        }
    }

    fn scroll_to(&mut self, wanted: usize)
        ensures
            *final(self) == old(self).scrolled(wanted as int),
            final(self).scroll_in_range(),
    {
        let bottom = self.bottom();
        self.output_scroll = if wanted < bottom { wanted } else { bottom };
        self.follow_output = false;
    }

    fn select_group(&mut self, index: usize)
        ensures
            *final(self) == old(self).with_group(index as int),
    {
        let tests = if index < self.test_info.len() {
            self.test_info[index].tests.len()
        } else {
            0
        };
        self.selected_index = index;
        self.selected_test = if tests == 0 {
            0
        } else if self.selected_test < tests {
            self.selected_test
        } else {
            tests - 1
        };
    }

    /// No key press takes a selection index out of range, moves the focus off
    /// the three panes, or scrolls past the last full viewport.
    pub proof fn lemma_key_keeps_invariant(self, key: Key)
        requires
            self.wf(),
        ensures
            self.after_key(key).wf(),
            self.after_key(key).test_info == self.test_info,
            self.after_key(key).test_output == self.test_output,
            self.after_key(key).output_height == self.output_height,
    {
        let groups = self.test_info@.len() as int;
        assert(self.test_info.len() == groups);
        lemma_pane_cycle(self.active_pane);
    }

    /// The invariant holds after every sequence of key presses.
    pub proof fn lemma_keys_keep_invariant(self, keys: Seq<Key>)
        requires
            self.wf(),
        ensures
            self.after_keys(keys).wf(),
        decreases keys.len(),
    {
        if keys.len() > 0 {
            self.lemma_keys_keep_invariant(keys.drop_last());
            self.after_keys(keys.drop_last()).lemma_key_keeps_invariant(keys.last());
        }
    }
}

} // verus!
