use vstd::prelude::*;

use crate::cursor::{max_index, moved_rel, Cursor};
use crate::directory::{copy_path, dirs_then_files, Directory, Error};
use crate::input::{chars_of, edited, string_of, Input};
use crate::item::Item;
use crate::key::{command, command_of, Command, Key};
use crate::mode::{Mode, Modes};
use crate::selection::Selection;

verus! {

/// How a listed row stands out.
#[derive(Clone, Copy, Debug, PartialEq, Eq, Structural)]
pub enum Highlight {
    Plain,
    /// The row under the cursor.
    Cursor,
    /// A selected row other than the cursor's.
    Selected,
}

/// One listed entry as it is shown.
pub struct Row {
    pub index: usize,
    pub is_dir: bool,
    pub name: String,
    pub highlight: Highlight,
}

/// How row `index` stands out in mode `m` with the cursor at `position`.
pub open spec fn highlight_of(m: Modes, position: int, index: int) -> Highlight {
    if index == position {
        Highlight::Cursor
    } else {
        match m {
            Modes::Select(s) => if s.selected@.contains(index as usize) {
                Highlight::Selected
            } else {
                Highlight::Plain
            },
            _ => Highlight::Plain,
        }
    }
}

/// The filesystem work that the engine asks its host to do.
pub enum Request {
    Nothing,
    /// Read the directory at this path and hand the result to `Explorer::complete`.
    List(Vec<String>),
    /// Remove these files, then read the current directory again and hand both
    /// results to `Explorer::complete`.
    Remove(Vec<Vec<String>>),
    /// Rename the first path to the second, then read the current directory
    /// again and hand both results to `Explorer::complete`.
    Rename(Vec<String>, Vec<String>),
}

/// What the next listing handed to `Explorer::complete` is for.
pub enum Pending {
    /// A new read of the current directory, after a change to it.
    Refresh,
    /// The listing of a subdirectory being entered.
    Enter(Vec<String>),
    /// The listing of the parent directory, and the name of the directory left.
    Leave(Vec<String>, String),
}

/// How many listing rows fit on a screen of `height` lines, beside the status
/// and message lines.
pub open spec fn visible_rows(height: int) -> int {
    if height > 2 {
        height - 2
    } else {
        1
    }
}

/// The first visible row once the window follows a cursor at `position`.
pub open spec fn scrolled(offset: int, position: int, rows: int) -> int {
    if position >= offset + rows {
        position - rows + 1
    } else if position < offset {
        position
    } else {
        offset
    }
}

/// Whether `items` holds a directory called `name`.
pub open spec fn has_dir_named(items: Seq<Item>, name: Seq<char>) -> bool {
    exists|i: int| 0 <= i < items.len() && #[trigger] items[i].is_dir && items[i].name@ == name
}

/// Whether `i` is the first directory of `items` called `name`.
pub open spec fn is_first_dir_named(items: Seq<Item>, name: Seq<char>, i: int) -> bool {
    &&& 0 <= i < items.len()
    &&& items[i].is_dir
    &&& items[i].name@ == name
    &&& forall|j: int| 0 <= j < i ==> !(#[trigger] items[j].is_dir && items[j].name@ == name)
}

/// The error to report after an operation and the listing read after it: the
/// operation's own, else the listing's.
pub open spec fn first_error(done: Result<(), Error>, listing: Result<Vec<Item>, Error>) -> Option<
    Error,
> {
    match done {
        Err(e) => Some(e),
        Ok(_) => match listing {
            Err(e) => Some(e),
            Ok(_) => None,
        },
    }
}

/// The browser's engine: listing, cursor, mode and scroll window.
pub struct Explorer {
    pub directory: Directory,
    pub cursor: Cursor,
    pub mode: Mode,
    /// The index of the first visible row.
    pub offset: usize,
    pub width: usize,
    pub height: usize,
    /// The error to show until the next key press.
    pub message: Option<Error>,
    pub pending: Pending,
}

impl Explorer {
    pub open spec fn row_count(&self) -> int {
        visible_rows(self.height as int)
    }

    /// The engine's invariant: a consistent listing, a cursor bounded by it and
    /// visible in the window, and a mode that agrees with the cursor.
    pub open spec fn wf(&self) -> bool {
        &&& self.directory.wf()
        &&& self.cursor.wf()
        &&& self.cursor.max == max_index(self.directory.count as int)
        &&& self.offset <= self.cursor.position < self.offset + self.row_count()
        &&& match self.mode.current() {
            Modes::Select(s) => s.start <= self.cursor.max && s.spans(self.cursor.position as int),
            Modes::Input(i) => i.wf(),
            _ => true,
        }
    }

    /// An engine for the directory at `path`, on a screen of the given size.
    /// Its listing is read by handing it to `complete`.
    pub fn new(path: Vec<String>, width: usize, height: usize) -> (r: Explorer)
        ensures
            r.wf(),
            r.directory.path == path,
            r.directory.count == 0,
            r.cursor == (Cursor { position: 0, max: 0 }),
            r.mode.current() is Explore,
            r.offset == 0,
            r.width == width,
            r.height == height,
            r.message is None,
            r.pending is Refresh,
    {
        Explorer {
            directory: Directory::new(path),
            cursor: Cursor::new(0, 0),
            mode: Mode::default(),
            offset: 0,
            width,
            height,
            message: None,
            pending: Pending::Refresh,
        }
    }

    /// The number of listing rows on screen.
    pub fn visible_rows(&self) -> (r: usize)
        ensures
            r == self.row_count(),
    {
        if self.height > 2 {
            self.height - 2
        } else {
            1
        }
    }

    /// Moves the window so that the cursor is on it, in one step however far
    /// the cursor jumped.
    fn scroll(&mut self)
        ensures
            final(self).offset == scrolled(
                old(self).offset as int,
                old(self).cursor.position as int,
                old(self).row_count(),
            ),
            final(self).directory == old(self).directory,
            final(self).cursor == old(self).cursor,
            final(self).mode == old(self).mode,
            final(self).width == old(self).width,
            final(self).height == old(self).height,
            final(self).message == old(self).message,
            final(self).pending == old(self).pending,
    {
        let rows = self.visible_rows();
        if self.cursor.position < self.offset {
            self.offset = self.cursor.position;
        } else if self.cursor.position - self.offset >= rows {
            self.offset = self.cursor.position - rows + 1;
        }
    }

    /// Moves the cursor by `delta` rows; a selection follows it.
    pub fn move_cursor(&mut self, delta: isize)
        requires
            old(self).wf(),
        ensures
            final(self).wf(),
            Self::after_move(*old(self), *final(self), delta as int),
    {
        self.cursor.mut_move_rel(delta);
        let position = self.cursor.position;
        match self.mode.get_mut() {
            Modes::Select(selection) => selection.update(&position),
            _ => {},
        }
        self.scroll();
    }

    /// Asks for the listing of the directory under the cursor, if it is one.
    pub fn cd_subdir(&mut self) -> (r: Request)
        requires
            old(self).wf(),
        ensures
            final(self).wf(),
            Self::after_enter(*old(self), *final(self), r),
    {
        match self.directory.item_at(self.cursor.position) {
            None => Request::Nothing,
            Some(item) => {
                if item.is_dir {
                    match self.directory.path_of(self.cursor.position) {
                        Some(path) => {
                            self.pending = Pending::Enter(copy_path(&path));
                            Request::List(path)
                        },
                        None => Request::Nothing,
                    }
                } else {
                    Request::Nothing
                }
            },
        }
    }

    /// Asks for the listing of the parent directory, unless this is the root;
    /// once it comes the cursor lands on the directory just left.
    pub fn cd_parent(&mut self) -> (r: Request)
        requires
            old(self).wf(),
        ensures
            final(self).wf(),
            Self::after_parent(*old(self), *final(self), r),
    {
        match self.directory.parent() {
            None => Request::Nothing,
            Some(parent) => {
                let child = match self.directory.name() {
                    Some(name) => name.clone(),
                    None => String::new(),
                };
                self.pending = Pending::Leave(copy_path(&parent), child);
                Request::List(parent)
            },
        }
    }

    /// Opens the prompt on `default`, to rename entry `target`.
    pub fn prompt(&mut self, default: Vec<char>, target: usize)
        requires
            old(self).wf(),
        ensures
            final(self).wf(),
            final(self).mode.current() matches Modes::Input(i) && i.text == default && i.caret
                == default@.len() && i.target == target,
            Self::only_mode_changed(*old(self), *final(self)),
    {
        self.mode.switch(Modes::Input(Input::new(default, target)));
    }

    /// Opens the prompt on the name of the entry under the cursor.
    pub fn start_rename(&mut self)
        requires
            old(self).wf(),
        ensures
            final(self).wf(),
            Self::after_rename_start(*old(self), *final(self)),
    {
        match self.directory.item_at(self.cursor.position) {
            None => {
                self.message = Some(Error::NotFound);
            },
            Some(item) => {
                let text = chars_of(&item.name);
                self.prompt(text, self.cursor.position);
            },
        }
    }

    /// Starts selecting, anchored at the cursor.
    pub fn start_select(&mut self)
        requires
            old(self).wf(),
        ensures
            final(self).wf(),
            final(self).mode.current() matches Modes::Select(s) && s.start == old(
                self,
            ).cursor.position && s.selected@ == seq![old(self).cursor.position],
            Self::only_mode_changed(*old(self), *final(self)),
    {
        self.mode.switch(Modes::Select(Selection::new(self.cursor.position)));
    }

    /// Goes back to browsing, dropping any selection or prompt text.
    pub fn explore(&mut self)
        requires
            old(self).wf(),
        ensures
            final(self).wf(),
            final(self).mode.current() is Explore,
            Self::only_mode_changed(*old(self), *final(self)),
    {
        self.mode.switch(Modes::Explore);
    }

    /// Asks for the removal of the file under the cursor.
    pub fn delete_current(&mut self) -> (r: Request)
        requires
            old(self).wf(),
        ensures
            final(self).wf(),
            Self::after_delete(*old(self), *final(self), r),
    {
        match self.directory.delete_item(self.cursor.position) {
            Ok(path) => {
                self.pending = Pending::Refresh;
                let mut paths: Vec<Vec<String>> = Vec::new();
                paths.push(path);
                assert(paths_view(paths@) =~= seq![
                    self.directory.path_at(self.cursor.position as int),
                ]);
                Request::Remove(paths)
            },
            Err(e) => {
                self.message = Some(e);
                Request::Nothing
            },
        }
    }

    /// The full paths of the files among the entries `selected`.
    pub fn selected_files(&self, selected: &Vec<usize>) -> (r: Vec<Vec<String>>)
        ensures
            paths_view(r@) == file_paths(self.directory, selected@),
    {
        let mut r: Vec<Vec<String>> = Vec::new();
        let mut k: usize = 0;
        while k < selected.len()
            invariant
                k <= selected@.len(),
                paths_view(r@) == file_paths(self.directory, selected@.subrange(0, k as int)),
            decreases selected.len() - k,
        {
            let ghost before = selected@.subrange(0, k as int);
            let ghost after = selected@.subrange(0, k + 1);
            assert(after.drop_last() =~= before);
            let i = selected[k];
            if i < self.directory.items.len() && !self.directory.items[i].is_dir {
                match self.directory.path_of(i) {
                    Some(p) => {
                        r.push(p);
                        assert(paths_view(r@) =~= file_paths(self.directory, after));
                    },
                    None => {},
                }
            }
            k = k + 1;
        }
        assert(selected@.subrange(0, selected@.len() as int) =~= selected@);
        r
    }

    /// Asks for the removal of every selected file, ends the selection and puts
    /// the cursor back at the top.
    pub fn delete_selected(&mut self) -> (r: Request)
        requires
            old(self).wf(),
            old(self).mode.current() is Select,
        ensures
            final(self).wf(),
            Self::after_delete_selected(*old(self), *final(self), r),
    {
        let paths = match self.mode.get() {
            Modes::Select(selection) => self.selected_files(&selection.selected),
            _ => Vec::new(),
        };
        self.mode.switch(Modes::Explore);
        self.pending = Pending::Refresh;
        self.cursor.mut_move_abs(0);
        self.scroll();
        Request::Remove(paths)
    }

    /// Applies an editing key to the prompt.
    pub fn edit(&mut self, key: Key)
        requires
            old(self).wf(),
            old(self).mode.current() is Input,
        ensures
            final(self).wf(),
            Self::after_edit(*old(self), *final(self), key),
    {
        match self.mode.get_mut() {
            Modes::Input(input) => input.edit(key),
            _ => {},
        }
    }

    /// Closes the prompt and asks for the rename of its target to its text.
    pub fn submit(&mut self) -> (r: Request)
        requires
            old(self).wf(),
            old(self).mode.current() is Input,
        ensures
            final(self).wf(),
            Self::after_submit(*old(self), *final(self), r),
    {
        let (to, target) = match self.mode.get() {
            Modes::Input(input) => (string_of(&input.text), input.target),
            _ => (String::new(), 0),
        };
        self.mode.switch(Modes::Explore);
        match self.directory.rename_item(target, to) {
            Ok((from, dest)) => {
                assert(dest@.drop_last() =~= self.directory.path@);
                self.pending = Pending::Refresh;
                Request::Rename(from, dest)
            },
            Err(e) => {
                self.message = Some(e);
                Request::Nothing
            },
        }
    }

    /// Reacts to one key press, as the mode in force binds it, and says what
    /// filesystem work that needs. The previous message is cleared first.
    pub fn handle_keypress(&mut self, key: Key) -> (r: Request)
        requires
            old(self).wf(),
        ensures
            final(self).wf(),
            ({
                let o = Self::cleared(*old(self));
                let n = *final(self);
                match command(old(self).mode.current(), key) {
                    Command::Quit => n.mode.current() is Quit && Self::only_mode_changed(o, n)
                        && r is Nothing,
                    Command::Up => Self::after_move(o, n, -1) && r is Nothing,
                    Command::Down => Self::after_move(o, n, 1) && r is Nothing,
                    Command::Into => Self::after_enter(o, n, r),
                    Command::Parent => Self::after_parent(o, n, r),
                    Command::Rename => Self::after_rename_start(o, n) && r is Nothing,
                    Command::Select => n.mode.current() matches Modes::Select(s) && s.start
                        == o.cursor.position && s.selected@ == seq![o.cursor.position]
                        && Self::only_mode_changed(o, n) && r is Nothing,
                    Command::Unselect => n.mode.current() is Explore && Self::only_mode_changed(
                        o,
                        n,
                    ) && r is Nothing,
                    Command::Delete => Self::after_delete(o, n, r),
                    Command::DeleteSelected => Self::after_delete_selected(o, n, r),
                    Command::Edit => Self::after_edit(o, n, key) && r is Nothing,
                    Command::Submit => Self::after_submit(o, n, r),
                    Command::Cancel => n.mode.current() is Explore && Self::only_mode_changed(
                        o,
                        n,
                    ) && r is Nothing,
                    Command::Ignore => n == o && r is Nothing,
                }
            }),
    {
        self.message = None;
        let c = command_of(self.mode.get(), key);
        match c {
            Command::Quit => {
                self.mode.switch(Modes::Quit);
                Request::Nothing
            },
            Command::Up => {
                self.move_cursor(-1);
                Request::Nothing
            },
            Command::Down => {
                self.move_cursor(1);
                Request::Nothing
            },
            Command::Into => self.cd_subdir(),
            Command::Parent => self.cd_parent(),
            Command::Rename => {
                self.start_rename();
                Request::Nothing
            },
            Command::Select => {
                self.start_select();
                Request::Nothing
            },
            Command::Unselect | Command::Cancel => {
                self.explore();
                Request::Nothing
            },
            Command::Delete => self.delete_current(),
            Command::DeleteSelected => self.delete_selected(),
            Command::Edit => {
                self.edit(key);
                Request::Nothing
            },
            Command::Submit => self.submit(),
            Command::Ignore => Request::Nothing,
        }
    }

    /// The entries in the window, from the first visible row on, with how
    /// each stands out; rows past the end of the listing are left out.
    pub fn visible_items(&self) -> (r: Vec<Row>)
        requires
            self.wf(),
        ensures
            r@.len() == (if self.directory.count - self.offset < self.row_count() {
                self.directory.count - self.offset
            } else {
                self.row_count()
            }),
            forall|k: int|
                0 <= k < r@.len() ==> {
                    let i = self.offset + k;
                    &&& (#[trigger] r@[k]).index == i
                    &&& r@[k].is_dir == self.directory.items@[i].is_dir
                    &&& r@[k].name == self.directory.items@[i].name
                    &&& r@[k].highlight == highlight_of(
                        self.mode.current(),
                        self.cursor.position as int,
                        i,
                    )
                },
    {
        let rows = self.visible_rows();
        let count = self.directory.items.len();
        let end: usize = if count - self.offset < rows {
            count
        } else {
            self.offset + rows
        };
        let mut r: Vec<Row> = Vec::new();
        let mut i: usize = self.offset;
        while i < end
            invariant
                self.wf(),
                rows == self.row_count(),
                count == self.directory.items@.len(),
                self.offset <= i <= end <= count,
                end == self.offset + (if count - self.offset < rows {
                    count - self.offset
                } else {
                    rows as int
                }),
                r@.len() == i - self.offset,
                forall|k: int|
                    0 <= k < r@.len() ==> {
                        let j = self.offset + k;
                        &&& (#[trigger] r@[k]).index == j
                        &&& r@[k].is_dir == self.directory.items@[j].is_dir
                        &&& r@[k].name == self.directory.items@[j].name
                        &&& r@[k].highlight == highlight_of(
                            self.mode.current(),
                            self.cursor.position as int,
                            j,
                        )
                    },
            decreases end - i,
        {
            let highlight = if i == self.cursor.position {
                Highlight::Cursor
            } else {
                match self.mode.get() {
                    Modes::Select(selection) => if selection.contains(i) {
                        Highlight::Selected
                    } else {
                        Highlight::Plain
                    },
                    _ => Highlight::Plain,
                }
            };
            let item = &self.directory.items[i];
            r.push(Row { index: i, is_dir: item.is_dir, name: item.name.clone(), highlight });
            i = i + 1;
        }
        r
    }

    /// The cursor's row and the last row, counted from one, for the status line.
    pub fn position_label(&self) -> (r: (usize, usize))
        requires
            self.wf(),
        ensures
            r.0 == self.cursor.position + 1,
            r.1 == self.cursor.max + 1,
    {
        (self.cursor.position + 1, self.cursor.max + 1)
    }

    /// Takes in the outcome of a request: `done` is what the filesystem work
    /// gave (`Ok` for a plain read), `listing` the directory read after it.
    /// A good listing replaces the snapshot and places the cursor as the
    /// request wants; a failed one leaves listing and cursor as they were.
    /// Either way the first error becomes the message and browsing resumes.
    pub fn complete(&mut self, done: Result<(), Error>, listing: Result<Vec<Item>, Error>)
        requires
            old(self).wf(),
        ensures
            final(self).wf(),
            final(self).width == old(self).width,
            final(self).height == old(self).height,
            final(self).message == first_error(done, listing),
            final(self).pending is Refresh,
            old(self).mode.current() is Quit ==> final(self).mode.current() is Quit,
            !(old(self).mode.current() is Quit) ==> final(self).mode.current() is Explore,
            final(self).offset == scrolled(
                old(self).offset as int,
                final(self).cursor.position as int,
                old(self).row_count(),
            ),
            listing is Err ==> final(self).directory == old(self).directory && final(self).cursor
                == old(self).cursor,
            match listing {
                Err(_) => true,
                Ok(entries) => {
                    &&& final(self).directory.items@ == dirs_then_files(entries@)
                    &&& final(self).directory.count == entries@.len()
                    &&& final(self).cursor.max == max_index(entries@.len() as int)
                    &&& match old(self).pending {
                        Pending::Refresh => {
                            &&& final(self).directory.path == old(self).directory.path
                            &&& final(self).cursor.position == (if old(self).cursor.position
                                <= max_index(entries@.len() as int) {
                                old(self).cursor.position as int
                            } else {
                                0
                            })
                        },
                        Pending::Enter(p) => final(self).directory.path@ == p@
                            && final(self).cursor.position == 0,
                        Pending::Leave(parent, child) => {
                            &&& final(self).directory.path@ == parent@
                            &&& if has_dir_named(final(self).directory.items@, child@) {
                                is_first_dir_named(
                                    final(self).directory.items@,
                                    child@,
                                    final(self).cursor.position as int,
                                )
                            } else {
                                final(self).cursor.position == 0
                            }
                        },
                    }
                },
            },
    {
        let message = match done {
            Err(e) => Some(e),
            Ok(()) => match &listing {
                Err(e) => Some(*e),
                Ok(_) => None,
            },
        };
        match &self.pending {
            Pending::Refresh => {
                let _ = self.directory.refresh(listing);
                self.cursor.update(&self.directory);
            },
            Pending::Enter(p) => {
                let path = copy_path(p);
                if self.directory.cd(path, listing).is_ok() {
                    self.cursor.update(&self.directory);
                    self.cursor.mut_move_abs(0);
                }
            },
            Pending::Leave(parent, child) => {
                let path = copy_path(parent);
                let name = child.clone();
                if self.directory.cd(path, listing).is_ok() {
                    self.cursor.update(&self.directory);
                    let index = match self.directory.position_of_dir(&name) {
                        Some(i) => i,
                        None => 0,
                    };
                    self.cursor.mut_move_abs(index);
                }
            },
        }
        self.pending = Pending::Refresh;
        self.message = message;
        match self.mode.get() {
            Modes::Quit => {},
            _ => self.mode.switch(Modes::Explore),
        }
        self.scroll();
    }
}

/// The mode after a cursor move: a selection follows the cursor, other modes stay.
pub open spec fn follows(old: Modes, new: Modes, position: int) -> bool {
    match old {
        Modes::Select(s) => new matches Modes::Select(t) && t.start == s.start && t.spans(position),
        _ => new == old,
    }
}

/// The full paths of the files among entries `sel` of `d`, in the order of `sel`;
/// directories and indices past the end are passed over.
pub open spec fn file_paths(d: Directory, sel: Seq<usize>) -> Seq<Seq<String>>
    decreases sel.len(),
{
    if sel.len() == 0 {
        Seq::empty()
    } else {
        let rest = file_paths(d, sel.drop_last());
        let i = sel.last() as int;
        if i < d.items@.len() && !d.items@[i].is_dir {
            rest.push(d.path_at(i))
        } else {
            rest
        }
    }
}

/// The views of a list of paths.
pub open spec fn paths_view(ps: Seq<Vec<String>>) -> Seq<Seq<String>> {
    ps.map_values(|p: Vec<String>| p@)
}

impl Explorer {
    /// `e` with its message cleared, as every key press starts.
    pub open spec fn cleared(e: Explorer) -> Explorer {
        Explorer { message: None, ..e }
    }

    /// Nothing but the mode changed from `o` to `n`.
    pub open spec fn only_mode_changed(o: Explorer, n: Explorer) -> bool {
        &&& n.directory == o.directory
        &&& n.cursor == o.cursor
        &&& n.offset == o.offset
        &&& n.width == o.width
        &&& n.height == o.height
        &&& n.message == o.message
        &&& n.pending == o.pending
    }

    /// A move of the cursor by `delta` rows, and the window following it.
    pub open spec fn after_move(o: Explorer, n: Explorer, delta: int) -> bool {
        &&& n.cursor.position == moved_rel(o.cursor.position as int, o.cursor.max as int, delta)
        &&& n.cursor.max == o.cursor.max
        &&& n.offset == scrolled(o.offset as int, n.cursor.position as int, o.row_count())
        &&& follows(o.mode.current(), n.mode.current(), n.cursor.position as int)
        &&& n.directory == o.directory
        &&& n.width == o.width
        &&& n.height == o.height
        &&& n.message == o.message
        &&& n.pending == o.pending
    }

    /// Entering the directory under the cursor is asked for, if it is one.
    pub open spec fn after_enter(o: Explorer, n: Explorer, r: Request) -> bool {
        &&& if o.cursor.position < o.directory.items@.len()
            && o.directory.items@[o.cursor.position as int].is_dir {
            &&& r matches Request::List(p) && p@ == o.directory.path_at(o.cursor.position as int)
            &&& n.pending matches Pending::Enter(q) && q@ == o.directory.path_at(
                o.cursor.position as int,
            )
        } else {
            r is Nothing && n.pending == o.pending
        }
        &&& n.mode == o.mode
        &&& n.directory == o.directory
        &&& n.cursor == o.cursor
        &&& n.offset == o.offset
        &&& n.width == o.width
        &&& n.height == o.height
        &&& n.message == o.message
    }

    /// The parent directory's listing is asked for, unless this is the root.
    pub open spec fn after_parent(o: Explorer, n: Explorer, r: Request) -> bool {
        &&& if o.directory.path@.len() > 0 {
            &&& r matches Request::List(p) && p@ == o.directory.path@.drop_last()
            &&& n.pending matches Pending::Leave(q, c) && q@ == o.directory.path@.drop_last() && c
                == o.directory.path@.last()
        } else {
            r is Nothing && n.pending == o.pending
        }
        &&& n.mode == o.mode
        &&& n.directory == o.directory
        &&& n.cursor == o.cursor
        &&& n.offset == o.offset
        &&& n.width == o.width
        &&& n.height == o.height
        &&& n.message == o.message
    }
    /// The prompt opened on the name of the entry under the cursor, if there is one.
    pub open spec fn after_rename_start(o: Explorer, n: Explorer) -> bool {
        &&& if o.cursor.position < o.directory.items@.len() {
            &&& n.mode.current() matches Modes::Input(i) && i.text@ == o.directory.items@[o.cursor.position as int].name@
                && i.caret == i.text@.len() && i.target == o.cursor.position
            &&& n.message == o.message
        } else {
            n.mode == o.mode && n.message == Some(Error::NotFound)
        }
        &&& n.directory == o.directory
        &&& n.cursor == o.cursor
        &&& n.offset == o.offset
        &&& n.width == o.width
        &&& n.height == o.height
        &&& n.pending == o.pending
    }

    /// The removal of the file under the cursor is asked for; a directory, or
    /// no entry at all, is refused with the matching error and nothing else changes.
    pub open spec fn after_delete(o: Explorer, n: Explorer, r: Request) -> bool {
        &&& if o.cursor.position >= o.directory.items@.len() {
            r is Nothing && n.message == Some(Error::NotFound) && n.pending == o.pending
        } else if o.directory.items@[o.cursor.position as int].is_dir {
            r is Nothing && n.message == Some(Error::InvalidOperation) && n.pending == o.pending
        } else {
            &&& r matches Request::Remove(ps) && paths_view(ps@) == seq![
                o.directory.path_at(o.cursor.position as int),
            ]
            &&& n.pending is Refresh
            &&& n.message == o.message
        }
        &&& n.mode == o.mode
        &&& n.directory == o.directory
        &&& n.cursor == o.cursor
        &&& n.offset == o.offset
        &&& n.width == o.width
        &&& n.height == o.height
    }

    /// The removal of the selected files is asked for, the selection ends and
    /// the cursor goes back to the top.
    pub open spec fn after_delete_selected(o: Explorer, n: Explorer, r: Request) -> bool {
        &&& o.mode.current() matches Modes::Select(s) && r matches Request::Remove(ps)
            && paths_view(ps@) == file_paths(o.directory, s.selected@)
        &&& n.pending is Refresh
        &&& n.mode.current() is Explore
        &&& n.cursor.position == 0
        &&& n.cursor.max == o.cursor.max
        &&& n.offset == 0
        &&& n.directory == o.directory
        &&& n.width == o.width
        &&& n.height == o.height
        &&& n.message == o.message
    }

    /// One editing key applied to the prompt.
    pub open spec fn after_edit(o: Explorer, n: Explorer, key: Key) -> bool {
        &&& o.mode.current() matches Modes::Input(i) && n.mode.current() matches Modes::Input(j)
            && j.target == i.target && (j.text@, j.caret as int) == edited(
            i.text@,
            i.caret as int,
            key,
        )
        &&& Self::only_mode_changed(o, n)
    }

    /// The prompt closes and the rename of its target to its text is asked for;
    /// a target that is gone is reported instead.
    pub open spec fn after_submit(o: Explorer, n: Explorer, r: Request) -> bool {
        &&& o.mode.current() matches Modes::Input(i) && if i.target < o.directory.items@.len() {
            &&& r matches Request::Rename(from, dest) && from@ == o.directory.path_at(
                i.target as int,
            ) && dest@.len() == o.directory.path@.len() + 1 && dest@.drop_last()
                == o.directory.path@ && dest@.last()@ == i.text@
            &&& n.pending is Refresh
            &&& n.message == o.message
        } else {
            r is Nothing && n.message == Some(Error::NotFound) && n.pending == o.pending
        }
        &&& n.mode.current() is Explore
        &&& n.directory == o.directory
        &&& n.cursor == o.cursor
        &&& n.offset == o.offset
        &&& n.width == o.width
        &&& n.height == o.height
    }

}

} // verus!
